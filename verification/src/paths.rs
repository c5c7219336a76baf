//! Paths as text: the parts of `std::path` the library uses, the root folder
//! of each platform, and the breadcrumb trail of a folder.
use vstd::prelude::*;

verus! {

/// What `Path::parent` gives for this path text (`None` for a root, a
/// prefix, or the empty path). Paths follow the syntax of the target the
/// program is built for.
pub uninterp spec fn parent_of(p: Seq<char>) -> Option<Seq<char>>;

/// What `Path::file_name` gives for this path text.
pub uninterp spec fn file_name_of(p: Seq<char>) -> Option<Seq<char>>;

/// What `Path::join` gives for these two path texts.
pub uninterp spec fn joined(base: Seq<char>, part: Seq<char>) -> Seq<char>;

/// Calls `Path::parent`. The contract names the result and states the
/// documented fact that it is the path without its final component, which
/// makes it shorter than the path.
#[verifier::external_body]
pub(crate) fn path_parent(p: &str) -> (r: Option<String>)
    ensures
        r matches Some(q) ==> parent_of(p@) == Some(q@) && q@.len() < p@.len(),
        r is None ==> parent_of(p@) is None,
{
    std::path::Path::new(p).parent().map(|q| q.to_string_lossy().into_owned())
}

/// Calls `Path::file_name`; the contract names the result.
#[verifier::external_body]
pub(crate) fn path_file_name(p: &str) -> (r: Option<String>)
    ensures
        r matches Some(n) ==> file_name_of(p@) == Some(n@),
        r is None ==> file_name_of(p@) is None,
{
    std::path::Path::new(p).file_name().map(|n| n.to_string_lossy().into_owned())
}

/// What `Path::extension` gives for this path text.
pub uninterp spec fn extension_of(p: Seq<char>) -> Option<Seq<char>>;

/// Calls `Path::extension`; the contract names the result.
#[verifier::external_body]
pub(crate) fn path_extension(p: &str) -> (r: Option<String>)
    ensures
        r matches Some(x) ==> extension_of(p@) == Some(x@),
        r is None ==> extension_of(p@) is None,
{
    std::path::Path::new(p).extension().map(|x| x.to_string_lossy().into_owned())
}

/// Calls `Path::join`; the contract names the result.
#[verifier::external_body]
pub(crate) fn path_join(base: &str, part: &str) -> (r: String)
    ensures
        r@ == joined(base@, part@),
{
    std::path::Path::new(base).join(part).to_string_lossy().into_owned()
}

/// The platform family the program runs on.
#[derive(Clone, Copy, Debug, PartialEq, Eq, Structural)]
pub enum Platform {
    Unix,
    Windows,
    Other,
}

/// The root folder of the file system: "/" on Unix, "C:\" on Windows, none
/// elsewhere.
pub fn get_root_directory(platform: Platform) -> (r: Option<String>)
    ensures
        platform == Platform::Unix ==> (r matches Some(s) && s@ == "/"@),
        platform == Platform::Windows ==> (r matches Some(s) && s@ == "C:\\"@),
        platform == Platform::Other ==> r is None,
{
    match platform {
        Platform::Unix => Some(String::from_str("/")),
        Platform::Windows => Some(String::from_str("C:\\")),
        Platform::Other => None,
    }
}

/// The folders from the top of the trail down to `p` itself: each step is
/// the parent of the next, and the trail stops at a parent that is empty or
/// missing.
pub open spec fn crumb_paths(p: Seq<char>) -> Seq<Seq<char>>
    decreases p.len(),
{
    match parent_of(p) {
        Some(q) => if 0 < q.len() < p.len() {
            crumb_paths(q).push(p)
        } else {
            seq![p]
        },
        None => seq![p],
    }
}

/// The text of a breadcrumb: the folder's own name, or the whole path where
/// it has none (such as "/").
pub open spec fn crumb_label(p: Seq<char>) -> Seq<char> {
    match file_name_of(p) {
        Some(n) => n,
        None => p,
    }
}

/// One step of the breadcrumb trail.
#[derive(Debug)]
pub struct Crumb {
    pub label: String,
    pub path: String,
}

/// The breadcrumb trail of a folder, from the top down to the folder.
pub fn breadcrumbs(p: &str) -> (r: Vec<Crumb>)
    ensures
        r@.len() == crumb_paths(p@).len(),
        forall|i: int| 0 <= i < r@.len() ==> (#[trigger] r@[i]).path@ == crumb_paths(p@)[i]
            && r@[i].label@ == crumb_label(crumb_paths(p@)[i]),
{
    // collect from the folder upwards
    let mut up: Vec<String> = Vec::new();
    let mut cur = String::from_str(p);
    up.push(String::from_str(p));
    loop
        invariant
            up@.len() >= 1,
            up@[up@.len() - 1]@ == cur@,
            forall|i: int| 0 <= i < up@.len() ==> (#[trigger] up@[i])@.len() >= cur@.len(),
            crumb_paths(p@) == crumb_paths(cur@) + rev_views(up@.drop_last()),
        ensures
            up@.len() >= 1,
            up@[up@.len() - 1]@ == cur@,
            crumb_paths(p@) == crumb_paths(cur@) + rev_views(up@.drop_last()),
            crumb_paths(cur@) == seq![cur@],
        decreases cur@.len(),
    {
        match path_parent(cur.as_str()) {
            Some(q) => {
                if q.unicode_len() == 0 {
                    break;
                }
                let ghost before = up@;
                proof {
                    assert(crumb_paths(cur@) == crumb_paths(q@).push(cur@));
                }
                cur = q;
                up.push(String::from_str(cur.as_str()));
                proof {
                    assert(up@.drop_last() == before);
                    assert(rev_views(before) =~= seq![before[before.len() - 1]@] + rev_views(before.drop_last()));
                    assert(crumb_paths(p@) =~= crumb_paths(cur@) + rev_views(up@.drop_last()));
                }
            },
            None => {
                break;
            },
        }
    }
    proof {
        assert(rev_views(up@) =~= seq![cur@] + rev_views(up@.drop_last()));
    }
    let ghost full = up@;
    let mut out: Vec<Crumb> = Vec::new();
    while up.len() > 0
        invariant
            rev_views(full) == out_paths(out@) + rev_views(up@),
            forall|i: int| 0 <= i < out@.len() ==> (#[trigger] out@[i]).label@ == crumb_label(out@[i].path@),
        decreases up@.len(),
    {
        let ghost before = up@;
        let path = up.pop().unwrap();
        let label = match path_file_name(path.as_str()) {
            Some(n) => n,
            None => String::from_str(path.as_str()),
        };
        let ghost before_out = out@;
        out.push(Crumb { label, path });
        proof {
            assert(rev_views(before) =~= seq![before[before.len() - 1]@] + rev_views(up@));
            assert(out_paths(out@) =~= out_paths(before_out).push(out@[out@.len() - 1].path@));
        }
    }
    proof {
        assert(rev_views(up@) =~= Seq::<Seq<char>>::empty());
        assert(out_paths(out@) =~= crumb_paths(p@));
        assert forall|i: int| 0 <= i < out@.len() implies (#[trigger] out@[i]).path@ == crumb_paths(p@)[i] by {
            assert(out_paths(out@)[i] == out@[i].path@);
        }
    }
    out
}

/// The texts of `s`, last first.
spec fn rev_views(s: Seq<String>) -> Seq<Seq<char>>
    decreases s.len(),
{
    if s.len() == 0 {
        seq![]
    } else {
        seq![s[s.len() - 1]@] + rev_views(s.drop_last())
    }
}

spec fn out_paths(s: Seq<Crumb>) -> Seq<Seq<char>> {
    s.map_values(|c: Crumb| c.path@)
}

} // verus!
