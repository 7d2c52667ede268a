//! Configuration issue type.
use crate::text::{chars_of, owned, replace_char, spec_replace_char};
use vstd::prelude::*;
use vstd::string::StringExecFns;

verus! {

/// A configuration issue identified during validation.
#[derive(Clone, Debug, Eq, PartialEq)]
pub struct OptionIssue {
    /// `snake_case` field ids the issue applies to.
    /// Usually one. Multiple for `RequiredOneOf` and `DependencyMissing`. Empty for `ConfigInvalid`.
    pub keys: Vec<String>,
    /// Discriminant identifying the kind of issue.
    pub kind: OptionIssueKind,
    /// Free-form key/value context.
    pub additional: Vec<(String, String)>,
}

/// What kind of issue this is.
#[derive(Clone, Copy, Debug, Eq, PartialEq, Structural)]
pub enum OptionIssueKind {
    /// Required option is not set.
    Required,
    /// Required option was set but contained no values.
    RequiredNonEmpty,
    /// At least one option in a group must be set.
    RequiredOneOf,
    /// Option requires another option to be set.
    DependencyMissing,
    /// URL is malformed. One or more `reason` entries describe what is wrong.
    UrlInvalid,
    /// Directory does not exist.
    DirectoryNotFound,
    /// File does not exist.
    FileNotFound,
    /// Path does not exist (either file or directory accepted).
    PathNotFound,
    /// Duration string could not be parsed.
    DurationInvalid,
    /// Hash string could not be parsed.
    HashInvalid,
    /// Default for an option has changed in a recent release.
    DefaultChanged,
    /// Config file could not be read or deserialized.
    ConfigInvalid,
    /// CLI argument extraction failed.
    CliArgumentInvalid,
}

/// Mathematical model of an [`OptionIssue`].
pub struct IssueView {
    pub keys: Seq<Seq<char>>,
    pub kind: OptionIssueKind,
    pub additional: Seq<(Seq<char>, Seq<char>)>,
}

/// Character sequences of a vector of strings.
pub open spec fn strings_view(v: Seq<String>) -> Seq<Seq<char>> {
    Seq::new(v.len(), |i: int| v[i]@)
}

/// Character sequences of a vector of string pairs.
pub open spec fn pairs_view(v: Seq<(String, String)>) -> Seq<(Seq<char>, Seq<char>)> {
    Seq::new(v.len(), |i: int| (v[i].0@, v[i].1@))
}

/// Character sequences of a slice of string slices.
pub open spec fn strs_view(v: Seq<&str>) -> Seq<Seq<char>> {
    Seq::new(v.len(), |i: int| v[i]@)
}

impl View for OptionIssue {
    type V = IssueView;

    open spec fn view(&self) -> IssueView {
        IssueView {
            keys: strings_view(self.keys@),
            kind: self.kind,
            additional: pairs_view(self.additional@),
        }
    }
}

/// Whether `c` may appear in a `snake_case` id.
pub open spec fn is_snake_char(c: char) -> bool {
    ('a' <= c && c <= 'z') || ('0' <= c && c <= '9') || c == '_'
}

/// Whether `s` is a `snake_case` id: it starts with a lowercase ASCII letter,
/// holds only lowercase ASCII letters, digits and underscores, does not end
/// with an underscore and has no two underscores in a row.
pub open spec fn spec_is_snake_case(s: Seq<char>) -> bool {
    &&& s.len() > 0
    &&& 'a' <= s[0] && s[0] <= 'z'
    &&& s.last() != '_'
    &&& forall|i: int| 0 <= i < s.len() ==> is_snake_char(#[trigger] s[i])
    &&& forall|i: int| 0 < i < s.len() ==> !(#[trigger] s[i] == '_' && s[i - 1] == '_')
}

/// Whether `id` is a `snake_case` id.
pub fn is_snake_case(id: &str) -> (res: bool)
    ensures
        res == spec_is_snake_case(id@),
{
    let cs = chars_of(id);
    let n = cs.len();
    if n == 0 {
        return false;
    }
    let first = cs[0];
    if !('a' <= first && first <= 'z') {
        return false;
    }
    if cs[n - 1] == '_' {
        return false;
    }
    let mut prev_underscore = false;
    let mut i: usize = 0;
    while i < n
        invariant
            cs@ == id@,
            n == cs.len(),
            i <= n,
            i > 0 ==> prev_underscore == (cs@[i - 1] == '_'),
            i == 0 ==> !prev_underscore,
            forall|j: int| 0 <= j < i ==> is_snake_char(#[trigger] cs@[j]),
            forall|j: int| 0 < j < i ==> !(#[trigger] cs@[j] == '_' && cs@[j - 1] == '_'),
        decreases n - i,
    {
        let b = cs[i];
        let is_underscore = b == '_';
        if is_underscore && prev_underscore {
            assert(!(forall|j: int| 0 < j < n ==> !(#[trigger] id@[j] == '_' && id@[j - 1] == '_')))
                by {
                assert(id@[i as int] == '_' && id@[i - 1] == '_');
            }
            return false;
        }
        if !(('a' <= b && b <= 'z') || ('0' <= b && b <= '9') || is_underscore) {
            assert(!is_snake_char(id@[i as int]));
            return false;
        }
        prev_underscore = is_underscore;
        i = i + 1;
    }
    true
}

/// Replaces underscores with hyphens.
pub open spec fn spec_kebab(id: Seq<char>) -> Seq<char> {
    spec_replace_char(id, '_', '-')
}

/// Converts a `snake_case` id to its `kebab-case` flag name.
pub fn snake_to_kebab(id: &str) -> (res: String)
    ensures
        res@ == spec_kebab(id@),
{
    replace_char(id, '_', '-')
}

/// Distinct `snake_case` ids give distinct flags: a flag holds no
/// underscore, and turning its hyphens back into underscores recovers the id.
pub proof fn kebab_flags_recover_ids(id: Seq<char>)
    requires
        spec_is_snake_case(id),
    ensures
        spec_replace_char(spec_kebab(id), '-', '_') == id,
        !spec_kebab(id).contains('_'),
{
    assert forall|i: int| 0 <= i < id.len() implies id[i] != '-' by {
        assert(is_snake_char(id[i]));
    }
    assert(spec_replace_char(spec_kebab(id), '-', '_') =~= id);
    if spec_kebab(id).contains('_') {
        let j = choose|j: int| 0 <= j < spec_kebab(id).len() && spec_kebab(id)[j] == '_';
        assert(spec_kebab(id)[j] == (if id[j] == '_' { '-' } else { id[j] }));
    }
}

/// Headline text of each kind of issue.
pub open spec fn spec_kind_text(kind: OptionIssueKind) -> Seq<char> {
    match kind {
        OptionIssueKind::Required => "Required"@,
        OptionIssueKind::RequiredNonEmpty => "Required"@,
        OptionIssueKind::RequiredOneOf => "At least one required"@,
        OptionIssueKind::DependencyMissing => "Dependency missing"@,
        OptionIssueKind::UrlInvalid => "Invalid URL"@,
        OptionIssueKind::DirectoryNotFound => "Directory not found"@,
        OptionIssueKind::FileNotFound => "File not found"@,
        OptionIssueKind::PathNotFound => "Path not found"@,
        OptionIssueKind::DurationInvalid => "Invalid duration"@,
        OptionIssueKind::HashInvalid => "Invalid hash"@,
        OptionIssueKind::DefaultChanged => "Default changed"@,
        OptionIssueKind::ConfigInvalid => "Invalid config"@,
        OptionIssueKind::CliArgumentInvalid => "Invalid CLI argument"@,
    }
}

impl OptionIssueKind {
    /// Headline text of this kind of issue.
    pub fn message(&self) -> (res: &'static str)
        ensures
            res@ == spec_kind_text(*self),
    {
        match self {
            OptionIssueKind::Required => "Required",
            OptionIssueKind::RequiredNonEmpty => "Required",
            OptionIssueKind::RequiredOneOf => "At least one required",
            OptionIssueKind::DependencyMissing => "Dependency missing",
            OptionIssueKind::UrlInvalid => "Invalid URL",
            OptionIssueKind::DirectoryNotFound => "Directory not found",
            OptionIssueKind::FileNotFound => "File not found",
            OptionIssueKind::PathNotFound => "Path not found",
            OptionIssueKind::DurationInvalid => "Invalid duration",
            OptionIssueKind::HashInvalid => "Invalid hash",
            OptionIssueKind::DefaultChanged => "Default changed",
            OptionIssueKind::ConfigInvalid => "Invalid config",
            OptionIssueKind::CliArgumentInvalid => "Invalid CLI argument",
        }
    }
}

/// The two lines rendered for one key.
pub open spec fn key_block(key: Seq<char>) -> Seq<char> {
    "\n▷ key: "@ + key + "\n▷ flag: --"@ + spec_kebab(key)
}

/// The two lines rendered for the key that another key requires.
pub open spec fn requires_block(key: Seq<char>) -> Seq<char> {
    "\n▷ requires key: "@ + key + "\n▷ requires flag: --"@ + spec_kebab(key)
}

/// Lines rendered for every key in order.
pub open spec fn keys_text(keys: Seq<Seq<char>>) -> Seq<char>
    decreases keys.len(),
{
    if keys.len() == 0 {
        Seq::empty()
    } else {
        keys_text(keys.drop_last()) + key_block(keys.last())
    }
}

/// Lines rendered for the keys of a `DependencyMissing` issue: the first key
/// and the key it requires.
pub open spec fn dependency_text(keys: Seq<Seq<char>>) -> Seq<char> {
    (if keys.len() > 0 {
        key_block(keys[0])
    } else {
        Seq::empty()
    }) + (if keys.len() > 1 {
        requires_block(keys[1])
    } else {
        Seq::empty()
    })
}

/// Line rendered for one piece of additional context.
pub open spec fn additional_line(entry: (Seq<char>, Seq<char>)) -> Seq<char> {
    "\n▷ "@ + entry.0 + ": "@ + entry.1
}

/// Lines rendered for all additional context in order.
pub open spec fn additional_text(add: Seq<(Seq<char>, Seq<char>)>) -> Seq<char>
    decreases add.len(),
{
    if add.len() == 0 {
        Seq::empty()
    } else {
        additional_text(add.drop_last()) + additional_line(add.last())
    }
}

/// The full text of an issue: its headline, its keys and their flags, then
/// its additional context.
pub open spec fn spec_render(v: IssueView) -> Seq<char> {
    spec_kind_text(v.kind) + (if v.kind == OptionIssueKind::DependencyMissing {
        dependency_text(v.keys)
    } else {
        keys_text(v.keys)
    }) + additional_text(v.additional)
}

/// Model of an issue with one key and the given context.
pub open spec fn single_key(id: Seq<char>, kind: OptionIssueKind, add: Seq<(Seq<char>, Seq<char>)>) -> IssueView {
    IssueView { keys: seq![id], kind, additional: add }
}

/// Model of an issue that renders the ids in `ids` as its keys.
pub open spec fn url_invalid_view(id: Seq<char>, url: Seq<char>, reasons: Seq<Seq<char>>) -> IssueView {
    IssueView {
        keys: seq![id],
        kind: OptionIssueKind::UrlInvalid,
        additional: seq![("url"@, url)] + Seq::new(reasons.len(), |i: int| ("reason"@, reasons[i])),
    }
}

fn one_string(s: &str) -> (res: Vec<String>)
    ensures
        strings_view(res@) == seq![s@],
{
    let mut v: Vec<String> = Vec::new();
    v.push(owned(s));
    assert(strings_view(v@) =~= seq![s@]);
    v
}

fn one_pair(k: &str, value: &str) -> (res: Vec<(String, String)>)
    ensures
        pairs_view(res@) == seq![(k@, value@)],
{
    let mut v: Vec<(String, String)> = Vec::new();
    v.push((owned(k), owned(value)));
    assert(pairs_view(v@) =~= seq![(k@, value@)]);
    v
}

fn two_pairs(k1: &str, v1: &str, k2: &str, v2: &str) -> (res: Vec<(String, String)>)
    ensures
        pairs_view(res@) == seq![(k1@, v1@), (k2@, v2@)],
{
    let mut v: Vec<(String, String)> = Vec::new();
    v.push((owned(k1), owned(v1)));
    v.push((owned(k2), owned(v2)));
    assert(pairs_view(v@) =~= seq![(k1@, v1@), (k2@, v2@)]);
    v
}

impl OptionIssue {
    /// Create a [`Self`] with [`OptionIssueKind::Required`] for `id`.
    pub fn required(id: &str) -> (res: Self)
        requires
            spec_is_snake_case(id@),
        ensures
            res@ == single_key(id@, OptionIssueKind::Required, seq![]),
    {
        let res = Self { keys: one_string(id), kind: OptionIssueKind::Required, additional: Vec::new() };
        assert(res@.additional =~= Seq::<(Seq<char>, Seq<char>)>::empty());
        res
    }

    /// Create a [`Self`] with [`OptionIssueKind::RequiredNonEmpty`] for `id`.
    pub fn required_non_empty(id: &str) -> (res: Self)
        requires
            spec_is_snake_case(id@),
        ensures
            res@ == single_key(id@, OptionIssueKind::RequiredNonEmpty, seq![]),
    {
        let res = Self {
            keys: one_string(id),
            kind: OptionIssueKind::RequiredNonEmpty,
            additional: Vec::new(),
        };
        assert(res@.additional =~= Seq::<(Seq<char>, Seq<char>)>::empty());
        res
    }

    /// Create a [`Self`] with [`OptionIssueKind::RequiredOneOf`] for the given ids.
    pub fn required_one_of(ids: &[&str]) -> (res: Self)
        requires
            forall|i: int| 0 <= i < ids@.len() ==> spec_is_snake_case(#[trigger] ids@[i]@),
        ensures
            res@ == (IssueView {
                keys: strs_view(ids@),
                kind: OptionIssueKind::RequiredOneOf,
                additional: seq![],
            }),
    {
        let mut keys: Vec<String> = Vec::new();
        let mut i: usize = 0;
        while i < ids.len()
            invariant
                i <= ids@.len(),
                keys@.len() == i,
                forall|k: int| 0 <= k < i ==> (#[trigger] keys@[k])@ == ids@[k]@,
            decreases ids@.len() - i,
        {
            keys.push(owned(ids[i]));
            i = i + 1;
        }
        assert(strings_view(keys@) =~= strs_view(ids@));
        let res = Self { keys, kind: OptionIssueKind::RequiredOneOf, additional: Vec::new() };
        assert(res@.additional =~= Seq::<(Seq<char>, Seq<char>)>::empty());
        res
    }

    /// Create a [`Self`] with [`OptionIssueKind::DependencyMissing`] indicating `id` requires `required_id`.
    pub fn dependency_missing(id: &str, required_id: &str) -> (res: Self)
        requires
            spec_is_snake_case(id@),
            spec_is_snake_case(required_id@),
        ensures
            res@ == (IssueView {
                keys: seq![id@, required_id@],
                kind: OptionIssueKind::DependencyMissing,
                additional: seq![],
            }),
    {
        let mut keys: Vec<String> = Vec::new();
        keys.push(owned(id));
        keys.push(owned(required_id));
        let res = Self { keys, kind: OptionIssueKind::DependencyMissing, additional: Vec::new() };
        assert(res@.keys =~= seq![id@, required_id@]);
        assert(res@.additional =~= Seq::<(Seq<char>, Seq<char>)>::empty());
        res
    }

    /// Create a [`Self`] with [`OptionIssueKind::UrlInvalid`] for `id`.
    ///
    /// - Each entry in `reasons` is appended as a separate `reason:` entry.
    pub fn url_invalid(id: &str, url: &str, reasons: &[&str]) -> (res: Self)
        requires
            spec_is_snake_case(id@),
        ensures
            res@ == url_invalid_view(id@, url@, strs_view(reasons@)),
    {
        let mut additional: Vec<(String, String)> = Vec::new();
        additional.push((owned("url"), owned(url)));
        let mut i: usize = 0;
        while i < reasons.len()
            invariant
                i <= reasons@.len(),
                additional@.len() == i + 1,
                additional@[0].0@ == "url"@,
                additional@[0].1@ == url@,
                forall|k: int|
                    0 <= k < i ==> (#[trigger] additional@[k + 1]).0@ == "reason"@
                        && additional@[k + 1].1@ == reasons@[k]@,
            decreases reasons@.len() - i,
        {
            additional.push((owned("reason"), owned(reasons[i])));
            assert(additional@[i + 1].0@ == "reason"@);
            i = i + 1;
        }
        let ghost target = url_invalid_view(id@, url@, strs_view(reasons@)).additional;
        assert forall|k: int| 0 <= k < target.len() implies pairs_view(additional@)[k] == target[k] by {
            if k > 0 {
                assert(additional@[(k - 1) + 1].0@ == "reason"@);
            }
        }
        assert(pairs_view(additional@) =~= target);
        Self { keys: one_string(id), kind: OptionIssueKind::UrlInvalid, additional }
    }

    /// Create a [`Self`] with [`OptionIssueKind::DirectoryNotFound`] for `id`.
    pub fn directory_not_found(id: &str, path: &str) -> (res: Self)
        requires
            spec_is_snake_case(id@),
        ensures
            res@ == single_key(id@, OptionIssueKind::DirectoryNotFound, seq![("path"@, path@)]),
    {
        Self {
            keys: one_string(id),
            kind: OptionIssueKind::DirectoryNotFound,
            additional: one_pair("path", path),
        }
    }

    /// Create a [`Self`] with [`OptionIssueKind::FileNotFound`] for `id`.
    pub fn file_not_found(id: &str, path: &str) -> (res: Self)
        requires
            spec_is_snake_case(id@),
        ensures
            res@ == single_key(id@, OptionIssueKind::FileNotFound, seq![("path"@, path@)]),
    {
        Self {
            keys: one_string(id),
            kind: OptionIssueKind::FileNotFound,
            additional: one_pair("path", path),
        }
    }

    /// Create a [`Self`] with [`OptionIssueKind::PathNotFound`] for `id`.
    pub fn path_not_found(id: &str, path: &str) -> (res: Self)
        requires
            spec_is_snake_case(id@),
        ensures
            res@ == single_key(id@, OptionIssueKind::PathNotFound, seq![("path"@, path@)]),
    {
        Self {
            keys: one_string(id),
            kind: OptionIssueKind::PathNotFound,
            additional: one_pair("path", path),
        }
    }

    /// Create a [`Self`] with [`OptionIssueKind::DurationInvalid`] for `id`.
    pub fn duration_invalid(id: &str, duration: &str, reason: &str) -> (res: Self)
        requires
            spec_is_snake_case(id@),
        ensures
            res@ == single_key(
                id@,
                OptionIssueKind::DurationInvalid,
                seq![("duration"@, duration@), ("reason"@, reason@)],
            ),
    {
        Self {
            keys: one_string(id),
            kind: OptionIssueKind::DurationInvalid,
            additional: two_pairs("duration", duration, "reason", reason),
        }
    }

    /// Create a [`Self`] with [`OptionIssueKind::HashInvalid`] for `id`.
    pub fn hash_invalid(id: &str, hash: &str, reason: &str) -> (res: Self)
        requires
            spec_is_snake_case(id@),
        ensures
            res@ == single_key(
                id@,
                OptionIssueKind::HashInvalid,
                seq![("hash"@, hash@), ("reason"@, reason@)],
            ),
    {
        Self {
            keys: one_string(id),
            kind: OptionIssueKind::HashInvalid,
            additional: two_pairs("hash", hash, "reason", reason),
        }
    }

    /// Create a [`Self`] with [`OptionIssueKind::DefaultChanged`] for `id`.
    pub fn default_changed(id: &str, value: &str, details: &str) -> (res: Self)
        requires
            spec_is_snake_case(id@),
        ensures
            res@ == single_key(
                id@,
                OptionIssueKind::DefaultChanged,
                seq![("value"@, value@), ("details"@, details@)],
            ),
    {
        Self {
            keys: one_string(id),
            kind: OptionIssueKind::DefaultChanged,
            additional: two_pairs("value", value, "details", details),
        }
    }

    /// Create a [`Self`] with [`OptionIssueKind::ConfigInvalid`] from a deserialization error message.
    pub fn config_invalid(reason: &str) -> (res: Self)
        ensures
            res@ == (IssueView {
                keys: seq![],
                kind: OptionIssueKind::ConfigInvalid,
                additional: seq![("reason"@, reason@)],
            }),
    {
        let res = Self {
            keys: Vec::new(),
            kind: OptionIssueKind::ConfigInvalid,
            additional: one_pair("reason", reason),
        };
        assert(res@.keys =~= Seq::<Seq<char>>::empty());
        res
    }

    /// Create a [`Self`] with [`OptionIssueKind::CliArgumentInvalid`].
    ///
    /// - `name` is the options struct name (not a `snake_case` field id).
    /// - Keys is left empty so no `--flag` line is rendered.
    pub fn cli_argument_invalid(name: &str, reason: &str) -> (res: Self)
        ensures
            res@ == (IssueView {
                keys: seq![],
                kind: OptionIssueKind::CliArgumentInvalid,
                additional: seq![("options"@, name@), ("reason"@, reason@)],
            }),
    {
        let res = Self {
            keys: Vec::new(),
            kind: OptionIssueKind::CliArgumentInvalid,
            additional: two_pairs("options", name, "reason", reason),
        };
        assert(res@.keys =~= Seq::<Seq<char>>::empty());
        res
    }

    /// The text of the issue: its headline, one `key` and `flag` line per key
    /// (or the key and the key it requires, for `DependencyMissing`), then
    /// one line per piece of additional context.
    pub fn to_string(&self) -> (res: String)
        ensures
            res@ == spec_render(self@),
    {
        let mut out = owned(self.kind.message());
        let ghost v = self@;
        if self.kind == OptionIssueKind::DependencyMissing {
            if self.keys.len() > 0 {
                out.append("\n▷ key: ");
                out.append(self.keys[0].as_str());
                out.append("\n▷ flag: --");
                let kebab = snake_to_kebab(self.keys[0].as_str());
                out.append(kebab.as_str());
            }
            if self.keys.len() > 1 {
                out.append("\n▷ requires key: ");
                out.append(self.keys[1].as_str());
                out.append("\n▷ requires flag: --");
                let kebab = snake_to_kebab(self.keys[1].as_str());
                out.append(kebab.as_str());
            }
            assert(out@ =~= spec_kind_text(v.kind) + dependency_text(v.keys));
        } else {
            let mut i: usize = 0;
            while i < self.keys.len()
                invariant
                    v == self@,
                    i <= self.keys@.len(),
                    out@ == spec_kind_text(v.kind) + keys_text(v.keys.take(i as int)),
                decreases self.keys@.len() - i,
            {
                out.append("\n▷ key: ");
                out.append(self.keys[i].as_str());
                out.append("\n▷ flag: --");
                let kebab = snake_to_kebab(self.keys[i].as_str());
                out.append(kebab.as_str());
                assert(v.keys.take(i + 1).drop_last() =~= v.keys.take(i as int));
                assert(out@ =~= spec_kind_text(v.kind) + keys_text(v.keys.take(i + 1)));
                i = i + 1;
            }
            assert(v.keys.take(self.keys@.len() as int) =~= v.keys);
        }
        let ghost head = out@;
        let mut j: usize = 0;
        while j < self.additional.len()
            invariant
                v == self@,
                j <= self.additional@.len(),
                out@ == head + additional_text(v.additional.take(j as int)),
            decreases self.additional@.len() - j,
        {
            out.append("\n▷ ");
            out.append(self.additional[j].0.as_str());
            out.append(": ");
            out.append(self.additional[j].1.as_str());
            assert(v.additional.take(j + 1).drop_last() =~= v.additional.take(j as int));
            assert(out@ =~= head + additional_text(v.additional.take(j + 1)));
            j = j + 1;
        }
        assert(v.additional.take(self.additional@.len() as int) =~= v.additional);
        out
    }
}

} // verus!
