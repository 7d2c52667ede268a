//! Where the FLAC files of a source sit below its directory, and the check
//! that they do not all share a sub directory that adds nothing.
use crate::text::{chars_of, join, owned, push_char, spec_join, views_of};
use crate::torrent::indexer::str_eq;
use crate::verify::issue::SourceIssue;
use vstd::prelude::*;
use vstd::string::StrSliceExecFns;

verus! {

/// Whether a segment between separators names a component: it is neither
/// empty nor `.`.
pub open spec fn names_component(seg: Seq<char>) -> bool {
    seg.len() > 0 && seg != "."@
}

/// Reading a path from the left: the components finished so far and the
/// segment being read.
pub open spec fn components_state(s: Seq<char>) -> (Seq<Seq<char>>, Seq<char>)
    decreases s.len(),
{
    if s.len() == 0 {
        (Seq::empty(), Seq::empty())
    } else {
        let (done, cur) = components_state(s.drop_last());
        if s.last() == '/' {
            (
                if names_component(cur) {
                    done.push(cur)
                } else {
                    done
                },
                Seq::empty(),
            )
        } else {
            (done, cur.push(s.last()))
        }
    }
}

/// The components of a `/`-separated path: `/` first for an absolute
/// path, then each segment between separators that is neither empty nor
/// `.`, in order.
pub open spec fn path_components(s: Seq<char>) -> Seq<Seq<char>> {
    let (done, cur) = components_state(s);
    let named = if names_component(cur) {
        done.push(cur)
    } else {
        done
    };
    if s.len() > 0 && s[0] == '/' {
        seq!["/"@] + named
    } else {
        named
    }
}

/// The components of a `/`-separated path, as [`path_components`] gives them.
pub fn components(path: &str) -> (res: Vec<String>)
    ensures
        views_of(res@) == path_components(path@),
{
    let cs = chars_of(path);
    let mut done: Vec<String> = Vec::new();
    let mut cur = String::new();
    let mut i: usize = 0;
    while i < cs.len()
        invariant
            cs@ == path@,
            i <= cs@.len(),
            (views_of(done@), cur@) == components_state(path@.take(i as int)),
        decreases cs@.len() - i,
    {
        let c = cs[i];
        assert(path@.take(i + 1).drop_last() =~= path@.take(i as int));
        if c == '/' {
            if cur.as_str().unicode_len() > 0 && !str_eq(cur.as_str(), ".") {
                let ghost before = views_of(done@);
                let finished = cur;
                done.push(finished);
                assert(views_of(done@) =~= before.push(finished@));
            }
            cur = String::new();
        } else {
            push_char(&mut cur, c);
        }
        i = i + 1;
    }
    assert(path@.take(cs@.len() as int) =~= path@);
    if cur.as_str().unicode_len() > 0 && !str_eq(cur.as_str(), ".") {
        let ghost before = views_of(done@);
        let finished = cur;
        done.push(finished);
        assert(views_of(done@) =~= before.push(finished@));
    }
    if cs.len() > 0 && cs[0] == '/' {
        let mut out: Vec<String> = vec![owned("/")];
        let ghost tail = views_of(done@);
        out.append(&mut done);
        assert(views_of(out@) =~= seq!["/"@] + tail);
        out
    } else {
        done
    }
}

/// A FLAC file of a source.
#[derive(Clone, Debug)]
pub struct FlacFile {
    /// Path of the file.
    pub path: String,
    /// Components of the directory that holds the file, below the source
    /// directory.
    pub sub_dir: Vec<String>,
}

impl FlacFile {
    /// The file at `path` in the source directory `source_dir`: its sub
    /// directory is what lies between the source directory's components
    /// and the file's name.
    pub fn new(path: &str, source_dir: &str) -> (res: FlacFile)
        requires
            path_components(source_dir@).len() < path_components(path@).len(),
            path_components(source_dir@) == path_components(path@).take(
                path_components(source_dir@).len() as int,
            ),
        ensures
            res.path@ == path@,
            views_of(res.sub_dir@) == path_components(path@).subrange(
                path_components(source_dir@).len() as int,
                path_components(path@).len() - 1,
            ),
    {
        let all = components(path);
        let base = components(source_dir);
        let mut sub_dir: Vec<String> = Vec::new();
        let mut i: usize = base.len();
        let end: usize = all.len() - 1;
        while i < end
            invariant
                views_of(all@) == path_components(path@),
                views_of(base@) == path_components(source_dir@),
                base@.len() <= i <= end,
                end == all@.len() - 1,
                views_of(sub_dir@) == path_components(path@).subrange(base@.len() as int, i as int),
            decreases end - i,
        {
            let ghost before = views_of(sub_dir@);
            sub_dir.push(all[i].clone());
            assert(views_of(sub_dir@) =~= before.push(all@[i as int]@));
            assert(path_components(path@).subrange(base@.len() as int, i + 1) =~= before.push(
                path_components(path@)[i as int],
            ));
            i = i + 1;
        }
        FlacFile { path: owned(path), sub_dir }
    }
}

/// The longest run of components that begins both `a` and `b`.
pub open spec fn common_components(a: Seq<Seq<char>>, b: Seq<Seq<char>>) -> Seq<Seq<char>>
    decreases a.len(),
{
    if a.len() == 0 || b.len() == 0 || a[0] != b[0] {
        Seq::empty()
    } else {
        seq![a[0]] + common_components(a.drop_first(), b.drop_first())
    }
}

/// The longest run of components that begins every one of `dirs`; empty
/// where there is none.
pub open spec fn shared_components(dirs: Seq<Seq<Seq<char>>>) -> Seq<Seq<char>>
    decreases dirs.len(),
{
    if dirs.len() == 0 {
        Seq::empty()
    } else if dirs.len() == 1 {
        dirs[0]
    } else {
        common_components(shared_components(dirs.drop_last()), dirs.last())
    }
}

/// The sub directories of `flacs`, as component sequences.
pub open spec fn sub_dirs(flacs: Seq<FlacFile>) -> Seq<Seq<Seq<char>>> {
    Seq::new(flacs.len(), |i: int| views_of(flacs[i].sub_dir@))
}

/// `common_components` read as a length: the first that many components agree.
proof fn common_is_prefix(a: Seq<Seq<char>>, b: Seq<Seq<char>>)
    ensures
        common_components(a, b).len() <= a.len(),
        common_components(a, b).len() <= b.len(),
        common_components(a, b) == a.take(common_components(a, b).len() as int),
        common_components(a, b) == b.take(common_components(a, b).len() as int),
        common_components(a, b).len() < a.len() && common_components(a, b).len() < b.len() ==> a[common_components(
            a,
            b,
        ).len() as int] != b[common_components(a, b).len() as int],
    decreases a.len(),
{
    if a.len() == 0 || b.len() == 0 || a[0] != b[0] {
    } else {
        common_is_prefix(a.drop_first(), b.drop_first());
        let c = common_components(a.drop_first(), b.drop_first());
        assert(seq![a[0]] + c =~= a.take(c.len() as int + 1));
        assert(seq![a[0]] + c =~= b.take(c.len() as int + 1));
    }
}

/// The components that `a` and `b` both begin with, as [`common_components`]
/// gives them.
fn common(a: &Vec<String>, b: &Vec<String>) -> (res: Vec<String>)
    ensures
        views_of(res@) == common_components(views_of(a@), views_of(b@)),
{
    proof {
        common_is_prefix(views_of(a@), views_of(b@));
    }
    let ghost n = common_components(views_of(a@), views_of(b@)).len();
    let mut out: Vec<String> = Vec::new();
    let mut i: usize = 0;
    while i < a.len() && i < b.len() && str_eq(a[i].as_str(), b[i].as_str())
        invariant
            i <= n,
            n <= a@.len(),
            n <= b@.len(),
            common_components(views_of(a@), views_of(b@)) == views_of(a@).take(n as int),
            common_components(views_of(a@), views_of(b@)) == views_of(b@).take(n as int),
            n < a@.len() && n < b@.len() ==> a@[n as int]@ != b@[n as int]@,
            views_of(out@) == views_of(a@).take(i as int),
        decreases a@.len() - i,
    {
        assert(i < n) by {
            if i == n {
                assert(views_of(a@)[i as int] == a@[i as int]@);
            }
        }
        assert(views_of(a@).take(n as int)[i as int] == views_of(b@).take(n as int)[i as int]);
        let ghost before = views_of(out@);
        let s = a[i].clone();
        out.push(s);
        assert(views_of(out@) =~= before.push(a@[i as int]@));
        assert(views_of(a@).take(i + 1) =~= views_of(a@).take(i as int).push(a@[i as int]@));
        i = i + 1;
    }
    assert(i == n) by {
        if i < n {
            assert(views_of(a@).take(n as int)[i as int] == views_of(b@).take(n as int)[i as int]);
        }
    }
    out
}

/// The source verification command.
pub struct VerifyCommand;

impl VerifyCommand {
    /// Checks that the FLAC files of a source do not all sit in one sub
    /// directory below the source directory: where every file's sub
    /// directory begins with the same components, one
    /// [`SourceIssue::UnnecessaryDirectory`] names them, joined by `/`.
    pub fn subdirectory_checks(flacs: &[FlacFile]) -> (res: Vec<SourceIssue>)
        ensures
            shared_components(sub_dirs(flacs@)).len() == 0 ==> res@.len() == 0,
            shared_components(sub_dirs(flacs@)).len() > 0 ==> {
                &&& res@.len() == 1
                &&& res@[0] matches SourceIssue::UnnecessaryDirectory { prefix }
                &&& prefix@ == spec_join(shared_components(sub_dirs(flacs@)), "/"@)
            },
    {
        let mut issues: Vec<SourceIssue> = Vec::new();
        if flacs.len() == 0 {
            return issues;
        }
        let mut shared: Vec<String> = flacs[0].sub_dir.clone();
        let mut i: usize = 1;
        while i < flacs.len()
            invariant
                1 <= i <= flacs@.len(),
                views_of(shared@) == shared_components(sub_dirs(flacs@).take(i as int)),
            decreases flacs@.len() - i,
        {
            assert(sub_dirs(flacs@).take(i + 1).drop_last() =~= sub_dirs(flacs@).take(i as int));
            shared = common(&shared, &flacs[i].sub_dir);
            i = i + 1;
        }
        assert(sub_dirs(flacs@).take(flacs@.len() as int) =~= sub_dirs(flacs@));
        if shared.len() > 0 {
            let prefix = join(&shared, "/");
            issues.push(SourceIssue::UnnecessaryDirectory { prefix });
        }
        issues
    }
}

} // verus!
