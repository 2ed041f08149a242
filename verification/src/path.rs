//! File paths as the preview command reads them.

use crate::text::ends_with;
use vstd::prelude::*;

verus! {

/// The extension of a Quarto document, dot included.
pub open spec fn qmd_extension() -> Seq<char> {
    seq!['.', 'q', 'm', 'd']
}

/// True when `path` names a Quarto document: it ends in `.qmd`.
pub open spec fn names_qmd_file(path: Seq<char>) -> bool {
    qmd_extension().is_suffix_of(path)
}

/// True when `piece` occurs in `whole` as one unbroken run of characters.
pub open spec fn is_part_of(piece: Seq<char>, whole: Seq<char>) -> bool {
    exists|start: int|
        0 <= start && start + piece.len() <= whole.len() && #[trigger] whole.subrange(
            start,
            start + piece.len(),
        ) == piece
}

/// Every path is a part of itself.
pub proof fn lemma_whole_is_part(path: Seq<char>)
    ensures
        is_part_of(path, path),
{
    assert(path.subrange(0int, 0int + path.len()) =~= path);
}

/// The part of `path` after its last `/`: all of it where it holds none,
/// nothing where it ends in one.
pub open spec fn after_last_slash(path: Seq<char>) -> Seq<char>
    decreases path.len(),
{
    if path.len() == 0 || path.last() == '/' {
        Seq::empty()
    } else {
        after_last_slash(path.drop_last()).push(path.last())
    }
}

/// The segment that stands for the directory above.
pub open spec fn parent_dir() -> Seq<char> {
    seq!['.', '.']
}

/// True when `segment` can be the name of a file: it is not empty and is
/// neither `.` nor `..`.
pub open spec fn is_file_name(segment: Seq<char>) -> bool {
    segment.len() > 0 && segment != seq!['.'] && segment != parent_dir()
}

/// True of a path that Unix and Windows take apart alike: `/` is its only
/// separator. It holds no `\`, which Windows reads as a separator; no `:`,
/// which Windows reads as the end of a drive; and does not start with `//`,
/// which Windows reads as the start of a network share.
pub open spec fn is_portable_path(path: Seq<char>) -> bool {
    &&& !path.contains('\\')
    &&& !path.contains(':')
    &&& !(path.len() >= 2 && path[0] == '/' && path[1] == '/')
}

/// True of a portable path whose last segment can be the name of a file.
pub open spec fn has_portable_file_name(path: Seq<char>) -> bool {
    is_portable_path(path) && is_file_name(after_last_slash(path))
}

/// What holds of the name that `path` is shown under. It is the whole path,
/// or a part of it that is not empty and, where the path holds no `\`, is
/// clear of `/`. On a portable path it is the last segment where that can
/// name a file, and the whole path where that is `..`.
pub open spec fn is_display_name_of(name: Seq<char>, path: Seq<char>) -> bool {
    &&& is_part_of(name, path)
    &&& name == path || (name.len() > 0 && (path.contains('\\') || !name.contains('/')))
    &&& has_portable_file_name(path) ==> name == after_last_slash(path)
    &&& is_portable_path(path) && after_last_slash(path) == parent_dir() ==> name == path
}

/// What comes after the last `/` ends the path, holds no `/`, and stands
/// at the start of the path or right after a `/`.
pub proof fn lemma_after_last_slash(path: Seq<char>)
    ensures
        after_last_slash(path).is_suffix_of(path),
        !after_last_slash(path).contains('/'),
        after_last_slash(path).len() < path.len() ==> path[path.len() - after_last_slash(
            path,
        ).len() - 1] == '/',
    decreases path.len(),
{
    let tail = after_last_slash(path);
    if path.len() == 0 || path.last() == '/' {
        assert(tail =~= path.subrange(path.len() as int, path.len() as int));
    } else {
        let front = path.drop_last();
        let inner = after_last_slash(front);
        lemma_after_last_slash(front);
        assert(inner =~= front.subrange(front.len() - inner.len(), front.len() as int));
        assert(tail =~= path.subrange(path.len() - tail.len(), path.len() as int));
        assert forall|i: int| 0 <= i < tail.len() implies tail[i] != '/' by {
            if i < inner.len() {
                assert(inner.contains(inner[i]));
            }
        }
        if inner.len() < front.len() {
            assert(path[path.len() - tail.len() - 1] == front[front.len() - inner.len() - 1]);
        }
    }
}

/// Only one end of a path holds no `/` and stands at the start of the path
/// or right after a `/`: what comes after the last `/`.
pub proof fn lemma_after_last_slash_is(path: Seq<char>, tail: Seq<char>)
    requires
        tail.is_suffix_of(path),
        !tail.contains('/'),
        tail.len() < path.len() ==> path[path.len() - tail.len() - 1] == '/',
    ensures
        after_last_slash(path) == tail,
    decreases path.len(),
{
    if path.len() == 0 {
        assert(tail =~= Seq::<char>::empty());
    } else if path.last() == '/' {
        if tail.len() > 0 {
            assert(tail[tail.len() - 1] == path.subrange(
                path.len() - tail.len(),
                path.len() as int,
            )[tail.len() - 1]);
            assert(tail.contains(tail[tail.len() - 1]));
        }
        assert(tail =~= Seq::<char>::empty());
    } else {
        assert(tail.len() > 0);
        let front = path.drop_last();
        let inner = tail.drop_last();
        assert(tail.last() == path.subrange(path.len() - tail.len(), path.len() as int)[tail.len()
            - 1]);
        assert(inner =~= front.subrange(front.len() - inner.len(), front.len() as int)) by {
            assert forall|i: int| 0 <= i < inner.len() implies inner[i] == front[front.len()
                - inner.len() + i] by {
                assert(tail[i] == path.subrange(path.len() - tail.len(), path.len() as int)[i]);
            }
        }
        assert forall|i: int| 0 <= i < inner.len() implies inner[i] != '/' by {
            assert(tail.contains(tail[i]));
        }
        if inner.len() < front.len() {
            assert(front[front.len() - inner.len() - 1] == path[path.len() - tail.len() - 1]);
        }
        lemma_after_last_slash_is(front, inner);
        assert(tail =~= inner.push(tail.last()));
    }
}

/// A path that ends in `.qmd` ends in a segment that can name a file, and
/// that segment ends in `.qmd` too.
pub proof fn lemma_qmd_path_ends_in_file_name(path: Seq<char>)
    requires
        names_qmd_file(path),
    ensures
        is_file_name(after_last_slash(path)),
        names_qmd_file(after_last_slash(path)),
{
    let n = path.len() as int;
    let ext = path.subrange(n - 4, n);
    assert(ext == qmd_extension());
    assert(path[n - 1] == ext[3] && path[n - 2] == ext[2] && path[n - 3] == ext[1] && path[n - 4]
        == ext[0]);
    let p1 = path.drop_last();
    let p2 = p1.drop_last();
    let p3 = p2.drop_last();
    let p4 = p3.drop_last();
    assert(p1.last() == 'm' && p2.last() == 'q' && p3.last() == '.');
    reveal_with_fuel(after_last_slash, 5);
    let tail = after_last_slash(path);
    assert(tail == after_last_slash(p4).push('.').push('q').push('m').push('d'));
    assert(tail.subrange(tail.len() - 4, tail.len() as int) =~= qmd_extension());
    assert(tail[tail.len() - 1] == 'd');
}

/// Tells whether `path` names a Quarto document, that is, ends in `.qmd`.
pub fn is_qmd_file(path: &str) -> (b: bool)
    ensures
        b == names_qmd_file(path@),
{
    proof {
        reveal_strlit(".qmd");
        assert(".qmd"@ =~= qmd_extension());
    }
    ends_with(path, ".qmd")
}

/// Calls `std::path::Path::file_name` on `path` and hands the name back as
/// text, through `OsStr::to_str`. Trusted, from what std documents of paths
/// on Unix and on Windows:
/// - The final component of a path is cut out of that path and is never
///   empty, since repeated separators are passed over. Where the path holds
///   no `\`, `/` separates its components, so the name holds none. (With a
///   `\` the path may be one that Windows reads verbatim, where `/` is no
///   separator.)
/// - On a portable path whose last segment is neither empty nor `.` nor
///   `..`, that segment is the final component.
/// - A portable path that ends in the segment `..` has no file name.
///
/// Which name another path has, if any, is not stated: one that ends in `/`
/// or in `.`, or one that Windows reads as a drive, a share or a verbatim
/// path.
#[verifier::external_body]
fn final_component<'a>(path: &'a str) -> (name: Option<&'a str>)
    ensures
        name matches Some(n) ==> n@.len() > 0 && is_part_of(n@, path@) && (path@.contains('\\')
            || !n@.contains('/')),
        has_portable_file_name(path@) ==> name.is_some() && name.unwrap()@ == after_last_slash(
            path@,
        ),
        is_portable_path(path@) && after_last_slash(path@) == parent_dir() ==> name.is_none(),
{
    std::path::Path::new(path).file_name()?.to_str()
}

/// The file name at the end of `path`, as the platform reads paths. On a
/// portable path whose last segment can name a file, that segment is
/// returned; on one that ends in `..`, nothing is.
pub fn extract_filename<'a>(path: &'a str) -> (name: Option<&'a str>)
    ensures
        name matches Some(n) ==> n@.len() > 0 && is_part_of(n@, path@) && (path@.contains('\\')
            || !n@.contains('/')),
        has_portable_file_name(path@) ==> name.is_some() && name.unwrap()@ == after_last_slash(
            path@,
        ),
        is_portable_path(path@) && after_last_slash(path@) == parent_dir() ==> name.is_none(),
{
    final_component(path)
}

/// The name to show for `path`, given the file name `found` in it: that
/// name, or the whole path where none was found.
pub fn name_or_path<'a>(found: Option<&'a str>, path: &'a str) -> (name: &'a str)
    ensures
        name@ == (match found {
            Some(n) => n@,
            None => path@,
        }),
{
    match found {
        Some(name) => name,
        None => path,
    }
}

/// The name under which `path` is shown to the user: its file name, or the
/// whole path where it has none.
pub fn display_name<'a>(path: &'a str) -> (name: &'a str)
    ensures
        is_display_name_of(name@, path@),
{
    let found = extract_filename(path);
    proof {
        lemma_whole_is_part(path@);
    }
    name_or_path(found, path)
}

} // verus!
