//! Names of files in paths whose parts stand between slashes.

use crate::text::{chars_of, text_of};
use vstd::prelude::*;
use vstd::slice::slice_subrange;
use vstd::string::*;

verus! {

/// Where the last part of a path ends: before slashes, and before parts that are a single dot.
pub open spec fn name_end(path: Seq<char>, end: int) -> int
    decreases end,
{
    if end <= 0 {
        0
    } else if path[end - 1] == '/' {
        name_end(path, end - 1)
    } else if path[end - 1] == '.' && (end == 1 || path[end - 2] == '/') {
        name_end(path, end - 1)
    } else {
        end
    }
}

/// Where the part of a path starts that ends here.
pub open spec fn name_start(path: Seq<char>, end: int) -> int
    decreases end,
{
    if end <= 0 {
        0
    } else if path[end - 1] == '/' {
        end
    } else {
        name_start(path, end - 1)
    }
}

/// The bounds of the file name of a path. There is none where the last part is empty or two dots.
pub open spec fn name_bounds(path: Seq<char>) -> Option<(int, int)> {
    let end = name_end(path, path.len() as int);
    let start = name_start(path, end);
    if start == end || path.subrange(start, end) == seq!['.', '.'] {
        None
    } else {
        Some((start, end))
    }
}

/// The last dot before a place.
pub open spec fn last_dot(path: Seq<char>, start: int, end: int) -> Option<int>
    decreases end - start,
{
    if end <= start {
        None
    } else if path[end - 1] == '.' {
        Some(end - 1)
    } else {
        last_dot(path, start, end - 1)
    }
}

/// Where the file name without its extension ends. A dot at the start of a name begins no extension.
pub open spec fn stem_end(path: Seq<char>, start: int, end: int) -> int {
    match last_dot(path, start, end) {
        Some(dot) => if dot == start {
            end
        } else {
            dot
        },
        None => end,
    }
}

/// The file name of a path.
pub open spec fn path_name(path: Seq<char>) -> Option<Seq<char>> {
    match name_bounds(path) {
        Some((start, end)) => Some(path.subrange(start, end)),
        None => None,
    }
}

/// The extension of the file name of a path.
pub open spec fn path_extension(path: Seq<char>) -> Option<Seq<char>> {
    match name_bounds(path) {
        Some((start, end)) => {
            let stem = stem_end(path, start, end);
            if stem == end {
                None
            } else {
                Some(path.subrange(stem + 1, end))
            }
        },
        None => None,
    }
}

/// A path with another extension. A path without a file name stays as it is.
pub open spec fn with_path_extension(path: Seq<char>, extension: Seq<char>) -> Seq<char> {
    match name_bounds(path) {
        Some((start, end)) => path.take(stem_end(path, start, end)) + seq!['.'] + extension,
        None => path,
    }
}

fn find_bounds(chars: &Vec<char>) -> (bounds: Option<(usize, usize)>)
    ensures
        match bounds {
            Some((start, end)) => {
                &&& name_bounds(chars@) == Some((start as int, end as int))
                &&& start < end <= chars@.len()
            },
            None => name_bounds(chars@) is None,
        },
{
    let mut end: usize = chars.len();
    while end > 0 && (chars[end - 1] == '/' || (chars[end - 1] == '.' && (end == 1 || chars[end - 2]
        == '/')))
        invariant
            end <= chars.len(),
            name_end(chars@, chars@.len() as int) == name_end(chars@, end as int),
        decreases end,
    {
        end -= 1;
    }
    let mut start: usize = end;
    while start > 0 && chars[start - 1] != '/'
        invariant
            start <= end <= chars.len(),
            name_start(chars@, end as int) == name_start(chars@, start as int),
        decreases start,
    {
        start -= 1;
    }
    proof {
        let part = chars@.subrange(start as int, end as int);
        if end - start == 2 && chars@[start as int] == '.' && chars@[start + 1] == '.' {
            assert(part =~= seq!['.', '.']);
        } else if part == seq!['.', '.'] {
            assert(part.len() == 2);
            assert(part[0] == chars@[start as int]);
            assert(part[1] == chars@[start + 1]);
        }
    }
    if start == end || (end - start == 2 && chars[start] == '.' && chars[start + 1] == '.') {
        None
    } else {
        Some((start, end))
    }
}

fn find_stem_end(chars: &Vec<char>, start: usize, end: usize) -> (stem: usize)
    requires
        start < end <= chars@.len(),
    ensures
        stem == stem_end(chars@, start as int, end as int),
        start < stem <= end,
{
    let mut at: usize = end;
    while at > start && chars[at - 1] != '.'
        invariant
            start <= at <= end <= chars.len(),
            last_dot(chars@, start as int, end as int) == last_dot(
                chars@,
                start as int,
                at as int,
            ),
        decreases at,
    {
        at -= 1;
    }
    if at == start || at - 1 == start {
        end
    } else {
        at - 1
    }
}

/// Whether a path has a file name.
pub fn has_file_name(path: &str) -> (has: bool)
    ensures
        has == (path_name(path@) is Some),
{
    let chars = chars_of(path);
    find_bounds(&chars).is_some()
}

/// The file name of a path.
pub fn file_name(path: &str) -> (name: Option<String>)
    ensures
        match name {
            Some(name) => path_name(path@) == Some(name@),
            None => path_name(path@) is None,
        },
{
    let chars = chars_of(path);
    match find_bounds(&chars) {
        Some((start, end)) => Some(text_of(slice_subrange(chars.as_slice(), start, end))),
        None => None,
    }
}

/// The extension of the file name of a path.
pub fn extension(path: &str) -> (extension: Option<String>)
    ensures
        match extension {
            Some(extension) => path_extension(path@) == Some(extension@),
            None => path_extension(path@) is None,
        },
{
    let chars = chars_of(path);
    match find_bounds(&chars) {
        Some((start, end)) => {
            let stem = find_stem_end(&chars, start, end);
            if stem == end {
                None
            } else {
                Some(text_of(slice_subrange(chars.as_slice(), stem + 1, end)))
            }
        },
        None => None,
    }
}

/// The path with another extension.
pub fn with_extension(path: &str, extension: &str) -> (changed: String)
    ensures
        changed@ == with_path_extension(path@, extension@),
{
    let chars = chars_of(path);
    match find_bounds(&chars) {
        Some((start, end)) => {
            let stem = find_stem_end(&chars, start, end);
            let mut changed = text_of(slice_subrange(chars.as_slice(), 0, stem));
            changed.push('.');
            changed.append(extension);
            assert(changed@ =~= with_path_extension(path@, extension@));
            changed
        },
        None => path.to_owned(),
    }
}

/// A path below another one. An absolute path stands for itself.
pub open spec fn joined_path(base: Seq<char>, part: Seq<char>) -> Seq<char> {
    if part.len() > 0 && part[0] == '/' {
        part
    } else if base.len() == 0 || base.last() == '/' {
        base + part
    } else {
        base + seq!['/'] + part
    }
}

/// The path below another one.
pub fn join_path(base: &str, part: &str) -> (path: String)
    ensures
        path@ == joined_path(base@, part@),
{
    let first = chars_of(base);
    let second = chars_of(part);
    if second.len() > 0 && second[0] == '/' {
        return part.to_owned();
    }
    let mut path = base.to_owned();
    if first.len() > 0 && first[first.len() - 1] != '/' {
        path.push('/');
    }
    path.append(part);
    assert(path@ =~= joined_path(base@, part@));
    path
}

/// A file's name is the last part of its path: what is put in a directory is found there under its name.
pub proof fn joined_files_keep_their_names(
    base: &str,
    part: &str,
    path: String,
    joined: &str,
    name: Option<String>,
)
    requires
        call_ensures(join_path, (base, part), path),
        joined@ == path@,
        call_ensures(file_name, (joined,), name),
        part@.len() > 0,
        !part@.contains('/'),
        part@ != seq!['.'],
        part@ != seq!['.', '.'],
    ensures
        name is Some && name->0@ == part@,
{
    assert(part@[0] != '/') by {
        if part@[0] == '/' {
            assert(part@.contains('/'));
        }
    }
    let whole = path@;
    let from = whole.len() - part@.len();
    assert(forall|i: int| 0 <= i < part@.len() ==> whole[from + i] == #[trigger] part@[i]);
    assert forall|i: int| from <= i < whole.len() implies whole[i] != '/' by {
        assert(whole[i] == part@[i - from]);
        if whole[i] == '/' {
            assert(part@.contains('/'));
        }
    }
    assert(from == 0 || whole[from - 1] == '/');
    if part@.len() == 1 {
        if part@[0] == '.' {
            assert(part@ =~= seq!['.']);
        }
    }
    assert(name_end(whole, whole.len() as int) == whole.len());
    starts_after_slash(whole, from, whole.len() as int);
    assert(whole.subrange(from, whole.len() as int) =~= part@);
}

proof fn starts_after_slash(path: Seq<char>, from: int, end: int)
    requires
        0 <= from <= end <= path.len(),
        from == 0 || path[from - 1] == '/',
        forall|i: int| from <= i < end ==> path[i] != '/',
    ensures
        name_start(path, end) == from,
    decreases end,
{
    if from < end {
        assert(path[end - 1] != '/');
        starts_after_slash(path, from, end - 1);
    }
}

/// A part that starts at the root stands for itself; any other is put behind the directory with one slash
/// between.
pub proof fn paths_are_joined_with_one_slash(base: &str, part: &str, path: String)
    requires
        call_ensures(join_path, (base, part), path),
    ensures
        part@.len() > 0 && part@[0] == '/' ==> path@ == part@,
        !(part@.len() > 0 && part@[0] == '/') && base@.len() > 0 && base@.last() != '/' ==> path@
            == base@ + seq!['/'] + part@,
        !(part@.len() > 0 && part@[0] == '/') && (base@.len() == 0 || base@.last() == '/') ==> path@
            == base@ + part@,
{
}

/// The extension is what stands behind the last dot of a name that does not begin there, and a new extension
/// takes its place.
pub proof fn extensions_stand_behind_the_last_dot(
    stem: Seq<char>,
    ending: Seq<char>,
    other: Seq<char>,
)
    requires
        stem.len() > 0,
        !stem.contains('/'),
        !ending.contains('/') && !ending.contains('.'),
        ending.len() > 0,
    ensures
        path_extension(stem + seq!['.'] + ending) == Some(ending),
        with_path_extension(stem + seq!['.'] + ending, other) == stem + seq!['.'] + other,
        path_name(stem + seq!['.'] + ending) == Some(stem + seq!['.'] + ending),
{
    let path = stem + seq!['.'] + ending;
    let end = path.len() as int;
    assert forall|i: int| 0 <= i < end implies path[i] != '/' by {
        if i < stem.len() {
            assert(path[i] == stem[i]);
        } else if i > stem.len() {
            assert(path[i] == ending[i - stem.len() - 1]);
        }
    }
    assert(path[end - 1] == ending.last());
    assert(path[end - 1] != '.') by {
        assert(ending.contains(ending.last()));
    }
    assert(name_end(path, end) == end);
    starts_after_slash(path, 0, end);
    assert(path.subrange(0, end) =~= path);
    if path == seq!['.', '.'] {
        assert(path[1] == '.');
    }
    assert(name_bounds(path) == Some((0int, end)));
    dot_is_last(path, stem.len() as int, end);
    assert(path.subrange(stem.len() as int + 1, end) =~= ending);
    assert(path.take(stem.len() as int) =~= stem);
}

proof fn dot_is_last(path: Seq<char>, dot: int, end: int)
    requires
        0 <= dot < end <= path.len(),
        path[dot] == '.',
        forall|i: int| dot < i < end ==> path[i] != '.',
    ensures
        last_dot(path, 0, end) == Some(dot),
    decreases end,
{
    if end - 1 > dot {
        assert(path[end - 1] != '.');
        dot_is_last(path, dot, end - 1);
    }
}

/// A path has a file's name exactly if one can be read from it.
pub proof fn names_are_read_where_there_are_any(path: &str, has: bool, name: Option<String>)
    requires
        call_ensures(has_file_name, (path,), has),
        call_ensures(file_name, (path,), name),
    ensures
        has <==> name is Some,
{
}

} // verus!
