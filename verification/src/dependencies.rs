//! The command lines of the metadata tools run as subprocesses, and the
//! report assembled from their output.
use crate::text::{chars_of, owned};
use crate::torrent::torrent_verifier::{join_path, spec_join_path};
use crate::transcode::jobs::{args_view, CommandInfo, TargetFormat};
use vstd::prelude::*;
use vstd::string::StringExecFns;

verus! {

/// Name of the eyeD3 binary.
pub const EYED3: &'static str = "eyeD3";

/// Name of the metaflac binary.
pub const METAFLAC: &'static str = "metaflac";

/// The line that frames the name of each file in a metaflac listing.
pub const SEPARATOR: &'static str = "------------------------------";

/// Shows the tags of an mp3 file with eyeD3.
pub struct EyeD3Command;

impl EyeD3Command {
    /// The command that displays the tags of the file at `path`, without
    /// colours, recursively.
    pub fn display_info(path: &str) -> (res: CommandInfo)
        ensures
            res.program@ == EYED3@,
            args_view(res) == seq![path@, "--no-color"@, "-r"@],
    {
        let mut args: Vec<String> = Vec::new();
        args.push(owned(path));
        args.push(owned("--no-color"));
        args.push(owned("-r"));
        let res = CommandInfo { program: owned(EYED3), args };
        assert(args_view(res) =~= seq![path@, "--no-color"@, "-r"@]);
        res
    }
}

/// Lists the tags and stream info of flac files with metaflac.
pub struct MetaflacCommand;

/// The heading and body of one file in a metaflac listing.
pub open spec fn spec_section(relative_path: Seq<char>, details: Seq<char>) -> Seq<char> {
    SEPARATOR@ + "\n"@ + relative_path + "\n"@ + SEPARATOR@ + "\n"@ + details
}

/// The listing of several files: their sections one after another.
pub open spec fn spec_listing(sections: Seq<(Seq<char>, Seq<char>)>) -> Seq<char>
    decreases sections.len(),
{
    if sections.len() == 0 {
        Seq::empty()
    } else {
        spec_listing(sections.drop_last()) + spec_section(sections.last().0, sections.last().1)
    }
}

/// Character sequences of pairs of strings.
pub open spec fn pairs_of(v: Seq<(String, String)>) -> Seq<(Seq<char>, Seq<char>)> {
    Seq::new(v.len(), |i: int| (v[i].0@, v[i].1@))
}

impl MetaflacCommand {
    /// The command that lists the Vorbis comments and stream info of the
    /// flac file at `path`.
    pub fn list_info(path: &str) -> (res: CommandInfo)
        ensures
            res.program@ == METAFLAC@,
            args_view(res) == seq![
                "--list"@,
                "--block-type=VORBIS_COMMENT"@,
                "--block-type=STREAMINFO"@,
                path@,
            ],
    {
        let mut args: Vec<String> = Vec::new();
        args.push(owned("--list"));
        args.push(owned("--block-type=VORBIS_COMMENT"));
        args.push(owned("--block-type=STREAMINFO"));
        args.push(owned(path));
        let res = CommandInfo { program: owned(METAFLAC), args };
        assert(args_view(res) =~= seq![
            "--list"@,
            "--block-type=VORBIS_COMMENT"@,
            "--block-type=STREAMINFO"@,
            path@,
        ]);
        res
    }

    /// The path of a flac file relative to the listed directory: its sub
    /// directory joined with its file name and the `.flac` extension.
    pub fn relative_path(sub_dir: &str, file_name: &str) -> (res: String)
        ensures
            res@ == spec_join_path(sub_dir@, file_name@ + ".flac"@),
    {
        let mut name = owned(file_name);
        name.append(".flac");
        join_path(sub_dir, name.as_str())
    }

    /// The listing of a directory: for each file, in the order given, its
    /// relative path framed by separator lines, then what metaflac printed.
    pub fn listing(sections: &Vec<(String, String)>) -> (res: String)
        ensures
            res@ == spec_listing(pairs_of(sections@)),
    {
        let mut out = String::new();
        let mut i: usize = 0;
        while i < sections.len()
            invariant
                i <= sections@.len(),
                out@ == spec_listing(pairs_of(sections@).take(i as int)),
            decreases sections@.len() - i,
        {
            let ghost before = out@;
            out.append(SEPARATOR);
            out.append("\n");
            out.append(sections[i].0.as_str());
            out.append("\n");
            out.append(SEPARATOR);
            out.append("\n");
            out.append(sections[i].1.as_str());
            proof {
                let s = pairs_of(sections@);
                assert(s.take(i + 1).drop_last() =~= s.take(i as int));
                assert(s.take(i + 1).last() == s[i as int]);
                assert(out@ =~= before + spec_section(s[i as int].0, s[i as int].1));
            }
            i = i + 1;
        }
        assert(pairs_of(sections@).take(sections@.len() as int) =~= pairs_of(sections@));
        out
    }
}


/// The tool that shows the details of a transcode in its description.
#[derive(Clone, Copy, Debug, PartialEq, Eq, Structural)]
pub enum DetailsTool {
    /// metaflac, for FLAC transcodes.
    Metaflac,
    /// eyeD3, for MP3 transcodes.
    EyeD3,
}

/// The details of a FLAC transcode are listed by metaflac, those of an MP3
/// transcode by eyeD3.
pub fn details_tool(target: TargetFormat) -> (res: DetailsTool)
    ensures
        res == (if target is Flac {
            DetailsTool::Metaflac
        } else {
            DetailsTool::EyeD3
        }),
{
    match target {
        TargetFormat::Flac => DetailsTool::Metaflac,
        _ => DetailsTool::EyeD3,
    }
}


/// Whether character `c` comes before a different character `d` when
/// ordering paths: the separator `/` comes before every other character,
/// which keep their code point order.
pub open spec fn char_before(c: char, d: char) -> bool {
    c == '/' || (d != '/' && c < d)
}

/// Whether path `a` comes strictly before path `b`: at the first character
/// where they differ, a proper prefix first. On paths without empty or `.`
/// components this is the order of `Path`, component by component.
/// Characters are compared by [`char_before`].
pub open spec fn path_lt(a: Seq<char>, b: Seq<char>) -> bool
    decreases a.len(),
{
    if b.len() == 0 {
        false
    } else if a.len() == 0 {
        true
    } else if a[0] != b[0] {
        char_before(a[0], b[0])
    } else {
        path_lt(a.drop_first(), b.drop_first())
    }
}

/// No path comes before itself.
proof fn lemma_path_lt_irreflexive(a: Seq<char>)
    ensures
        !path_lt(a, a),
    decreases a.len(),
{
    if a.len() > 0 {
        lemma_path_lt_irreflexive(a.drop_first());
    }
}

/// The order of paths is transitive.
proof fn lemma_path_lt_transitive(a: Seq<char>, b: Seq<char>, c: Seq<char>)
    requires
        path_lt(a, b),
        path_lt(b, c),
    ensures
        path_lt(a, c),
    decreases a.len(),
{
    if a.len() > 0 && b.len() > 0 && c.len() > 0 {
        if a[0] == b[0] && b[0] == c[0] {
            lemma_path_lt_transitive(a.drop_first(), b.drop_first(), c.drop_first());
        }
    }
}

/// Whether path `a` comes strictly before path `b`.
pub fn path_precedes(a: &str, b: &str) -> (res: bool)
    ensures
        res == path_lt(a@, b@),
{
    let ac = chars_of(a);
    let bc = chars_of(b);
    let mut i: usize = 0;
    assert(a@.skip(0) =~= a@);
    assert(b@.skip(0) =~= b@);
    while i < ac.len() && i < bc.len()
        invariant
            ac@ == a@,
            bc@ == b@,
            i <= ac@.len(),
            i <= bc@.len(),
            path_lt(a@.skip(i as int), b@.skip(i as int)) == path_lt(a@, b@),
        decreases ac@.len() - i,
    {
        if ac[i] != bc[i] {
            let x = ac[i];
            let y = bc[i];
            assert(a@.skip(i as int).len() > 0 && b@.skip(i as int).len() > 0);
            assert(a@.skip(i as int)[0] == x);
            assert(b@.skip(i as int)[0] == y);
            let ghost sa = a@.skip(i as int);
            let ghost sb = b@.skip(i as int);
            assert(path_lt(sa, sb) == char_before(x, y));
            if x == '/' {
                return true;
            } else if y == '/' {
                return false;
            } else {
                return x < y;
            }
        }
        assert(a@.skip(i as int).drop_first() =~= a@.skip(i + 1));
        assert(b@.skip(i as int).drop_first() =~= b@.skip(i + 1));
        i = i + 1;
    }
    i < bc.len()
}

/// Whether the indices `order` list `paths` in order: no later path comes
/// before an earlier one.
pub open spec fn in_path_order(paths: Seq<String>, order: Seq<usize>) -> bool {
    forall|i: int, j: int|
        0 <= i < j < order.len() ==> !path_lt(
            #[trigger] paths[order[j] as int]@,
            #[trigger] paths[order[i] as int]@,
        )
}

proof fn lemma_insert_in_order(paths: Seq<String>, order: Seq<usize>, k: int, x: usize)
    requires
        0 <= k <= order.len(),
        x < paths.len(),
        forall|m: int| 0 <= m < order.len() ==> #[trigger] order[m] < paths.len(),
        in_path_order(paths, order),
        forall|m: int| 0 <= m < k ==> !path_lt(paths[x as int]@, #[trigger] paths[order[m] as int]@),
        k < order.len() ==> path_lt(paths[x as int]@, paths[order[k] as int]@),
    ensures
        in_path_order(paths, order.insert(k, x)),
{
    let r = order.insert(k, x);
    assert forall|i: int, j: int| 0 <= i < j < r.len() implies !path_lt(
        #[trigger] paths[r[j] as int]@,
        #[trigger] paths[r[i] as int]@,
    ) by {
        if i < k && j < k {
            assert(r[i] == order[i] && r[j] == order[j]);
        } else if i < k && j == k {
            assert(r[i] == order[i] && r[j] == x);
        } else if i < k {
            assert(r[i] == order[i] && r[j] == order[j - 1]);
        } else if i == k {
            assert(r[i] == x && r[j] == order[j - 1]);
            let y = paths[order[k] as int]@;
            let z = paths[order[j - 1] as int]@;
            if path_lt(z, paths[x as int]@) {
                lemma_path_lt_transitive(z, paths[x as int]@, y);
                if j - 1 == k {
                    lemma_path_lt_irreflexive(y);
                } else {
                    assert(!path_lt(paths[order[j - 1] as int]@, paths[order[k] as int]@));
                }
            }
        } else {
            assert(r[i] == order[i - 1] && r[j] == order[j - 1]);
        }
    }
}

/// The order to list paths in: the indices of `paths`, each once, such
/// that no later path comes before an earlier one; equal paths keep their
/// order.
pub fn path_order(paths: &Vec<String>) -> (res: Vec<usize>)
    ensures
        res@.len() == paths@.len(),
        forall|i: int| 0 <= i < res@.len() ==> #[trigger] res@[i] < paths@.len(),
        forall|i: int, j: int| 0 <= i < j < res@.len() ==> #[trigger] res@[i] != #[trigger] res@[j],
        in_path_order(paths@, res@),
{
    let mut order: Vec<usize> = Vec::new();
    let mut n: usize = 0;
    while n < paths.len()
        invariant
            n <= paths@.len(),
            order@.len() == n,
            forall|i: int| 0 <= i < order@.len() ==> #[trigger] order@[i] < n,
            forall|i: int, j: int| 0 <= i < j < order@.len() ==> #[trigger] order@[i] != #[trigger] order@[j],
            in_path_order(paths@, order@),
        decreases paths@.len() - n,
    {
        let mut k: usize = 0;
        while k < order.len() && !path_precedes(paths[n].as_str(), paths[order[k]].as_str())
            invariant
                n < paths@.len(),
                k <= order@.len(),
                forall|i: int| 0 <= i < order@.len() ==> #[trigger] order@[i] < n,
                forall|m: int| 0 <= m < k ==> !path_lt(paths@[n as int]@, #[trigger] paths@[order@[m] as int]@),
            decreases order@.len() - k,
        {
            k = k + 1;
        }
        proof {
            lemma_insert_in_order(paths@, order@, k as int, n);
        }
        let ghost before = order@;
        order.insert(k, n);
        assert forall|i: int, j: int| 0 <= i < j < order@.len() implies #[trigger] order@[i] != #[trigger] order@[j] by {
            if i < k && j < k {
                assert(order@[i] == before[i] && order@[j] == before[j]);
            } else if i < k && j == k {
                assert(order@[i] == before[i]);
            } else if i < k {
                assert(order@[i] == before[i] && order@[j] == before[j - 1]);
            } else if i == k {
                assert(order@[j] == before[j - 1]);
            } else {
                assert(order@[i] == before[i - 1] && order@[j] == before[j - 1]);
            }
        }
        assert forall|i: int| 0 <= i < order@.len() implies #[trigger] order@[i] < n + 1 by {
            if i < k {
                assert(order@[i] == before[i]);
            } else if i > k {
                assert(order@[i] == before[i - 1]);
            }
        }
        n = n + 1;
    }
    order
}

} // verus!
