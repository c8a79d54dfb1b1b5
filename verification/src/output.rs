//! Where the annotated image is saved: in the directory given with
//! `--save-dir`, else beside the screenshot, named after it with
//! `_annotated.png` in place of its extension.

use vstd::prelude::*;

use crate::option_view;

verus! {

/// The suffix that marks an annotated copy.
pub open spec fn annotated_suffix() -> Seq<char> {
    "_annotated.png"@
}

/// Names what `Path::file_stem` gives for `path`, converted to text.
pub uninterp spec fn path_file_stem(path: Seq<char>) -> Option<Seq<char>>;

/// Names what `Path::parent` gives for `path`, converted to text.
pub uninterp spec fn path_parent(path: Seq<char>) -> Option<Seq<char>>;

/// What `Path::join` gives for `dir` and `name` on Unix: an absolute
/// `name` replaces `dir`; otherwise `name` is appended, after a `/` unless
/// `dir` is empty or already ends with one.
pub open spec fn path_join(dir: Seq<char>, name: Seq<char>) -> Seq<char> {
    if name.len() > 0 && name[0] == '/' {
        name
    } else if dir.len() == 0 || dir.last() == '/' {
        dir + name
    } else {
        dir + seq!['/'] + name
    }
}

/// Calls `Path::file_stem` on `path`.  Claimed: the result, as text, is the
/// named [`path_file_stem`] of `path`, and, being part of the path's final
/// component, it holds no `/`.  Which part of the name it is stays unstated.
#[verifier::external_body]
fn file_stem(path: &str) -> (stem: Option<String>)
    ensures
        option_view(stem) == path_file_stem(path@),
        stem matches Some(s) ==> !s@.contains('/'),
{
    match std::path::Path::new(path).file_stem() {
        Some(s) => Some(s.to_string_lossy().into_owned()),
        None => None,
    }
}

/// Calls `Path::parent` on `path`.  Claimed: the result, as text, is the
/// named [`path_parent`] of `path`, and the empty path has no parent, as the
/// documentation says.
#[verifier::external_body]
fn parent(path: &str) -> (dir: Option<String>)
    ensures
        option_view(dir) == path_parent(path@),
        path@.len() == 0 ==> dir is None,
{
    match std::path::Path::new(path).parent() {
        Some(d) => Some(d.to_string_lossy().into_owned()),
        None => None,
    }
}

/// Calls `Path::join`.  Claimed: the result, as text, is [`path_join`] of
/// `dir` and `name`, the way `PathBuf::push` adjoins a path on Unix.
#[verifier::external_body]
fn join(dir: &str, name: &str) -> (path: String)
    ensures
        path@ == path_join(dir@, name@),
{
    std::path::Path::new(dir).join(name).to_string_lossy().into_owned()
}

/// The directory of `image_path`, or `/tmp` when it has none.
pub open spec fn output_dir(image_path: Seq<char>) -> Seq<char> {
    match path_parent(image_path) {
        Some(d) => d,
        None => "/tmp"@,
    }
}

/// The file name of the annotated copy of `image_path`.
pub open spec fn output_name(image_path: Seq<char>) -> Seq<char> {
    let stem = match path_file_stem(image_path) {
        Some(s) => s,
        None => Seq::empty(),
    };
    stem + annotated_suffix()
}

/// The directory that the annotated copy goes to: the one given with
/// `--save-dir`, else the screenshot's own.
pub open spec fn target_dir(image_path: Seq<char>, save_dir: Option<Seq<char>>) -> Seq<char> {
    match save_dir {
        Some(d) => d,
        None => output_dir(image_path),
    }
}

/// The path under which the annotated copy of `image_path` is saved: the
/// directory given with `--save-dir` (`save_dir`), else the screenshot's
/// directory (or `/tmp`), joined with the screenshot's file stem followed by
/// `_annotated.png`.
pub fn annotated_path(image_path: &str, save_dir: Option<&str>) -> (out: String)
    ensures
        out@ == path_join(
            target_dir(
                image_path@,
                match save_dir {
                    Some(d) => Some(d@),
                    None => None,
                },
            ),
            output_name(image_path@),
        ),
        // The copy's name always ends in `_annotated.png`.
        out@.len() >= 14,
        out@.subrange(out@.len() - 14, out@.len() as int) == "_annotated.png"@,
        // A directory given with `--save-dir` is where the copy goes.
        save_dir matches Some(d) ==> (d@.len() > 0 && d@.last() != '/' ==> out@.subrange(
            0,
            d@.len() + 1int,
        ) == d@ + seq!['/']),
        // The name is relative, so the copy lands inside the target directory.
        ({
            let dir = target_dir(
                image_path@,
                match save_dir {
                    Some(d) => Some(d@),
                    None => None,
                },
            );
            let name = output_name(image_path@);
            &&& name.len() > 0 && name[0] != '/'
            &&& out@ == if dir.len() == 0 || dir.last() == '/' {
                dir + name
            } else {
                dir + seq!['/'] + name
            }
        }),
{
    let stem = match file_stem(image_path) {
        Some(s) => s,
        None => String::new(),
    };
    let ghost stem_view = stem@;
    let dir = match save_dir {
        Some(d) => String::from_str(d),
        None => match parent(image_path) {
            Some(d) => d,
            None => String::from_str("/tmp"),
        },
    };
    let suffix = "_annotated.png";
    let mut name = stem;
    name.append(suffix);
    proof {
        reveal_strlit("_annotated.png");
    }
    assert(name@.len() > 0 && name@[0] != '/') by {
        if stem_view.len() > 0 {
            assert(stem_view.contains(stem_view[0]));
        }
    }
    let out = join(dir.as_str(), name.as_str());
    proof {
        let n = name@;
        let o = out@;
        assert(o.subrange(o.len() - 14, o.len() as int) =~= n.subrange(
            n.len() - 14,
            n.len() as int,
        ));
        assert(n.subrange(n.len() - 14, n.len() as int) =~= suffix@);
        if save_dir is Some && dir@.len() > 0 && dir@.last() != '/' {
            assert(o.subrange(0, dir@.len() + 1int) =~= dir@ + seq!['/']);
        }
    }
    out
}

} // verus!
