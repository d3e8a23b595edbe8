//! File names and extensions of paths, on the bytes of the path.
//!
//! A path is read the way the platform reads it: separated by `/`, with
//! repeated and trailing separators ignored, and a `.` component skipped
//! wherever it is not the first one.

use crate::error::{result_model, ErrorModel, PipelineError};
use crate::text::{bytes_model, decode_text, text_of};
use vstd::prelude::*;

verus! {

/// The byte that separates the components of a path: `/`.
pub const SEPARATOR: u8 = 0x2f;

/// The byte that sets off an extension: `.`.
pub const DOT: u8 = 0x2e;

/// The index of the last `needle` in `bytes`, or -1 if there is none.
pub open spec fn last_index_of(bytes: Seq<u8>, needle: u8) -> int
    decreases bytes.len(),
{
    if bytes.len() == 0 {
        -1
    } else if bytes.last() == needle {
        bytes.len() - 1
    } else {
        last_index_of(bytes.drop_last(), needle)
    }
}

/// `path` without what follows its last component: trailing separators, and
/// trailing `.` components.
pub open spec fn without_trailing_noise(path: Seq<u8>) -> Seq<u8>
    decreases path.len(),
{
    if path.len() >= 1 && path.last() == SEPARATOR {
        without_trailing_noise(path.drop_last())
    } else if path.len() >= 2 && path.last() == DOT && path[path.len() - 2] == SEPARATOR {
        without_trailing_noise(path.take(path.len() - 2))
    } else {
        path
    }
}

/// The last component of `path`, as it is written.
pub open spec fn last_component(path: Seq<u8>) -> Seq<u8> {
    let core = without_trailing_noise(path);
    core.skip(last_index_of(core, SEPARATOR) + 1)
}

/// The file name of `path`: its last component, unless the path has none or
/// ends in `.` or `..`.
pub open spec fn file_name(path: Seq<u8>) -> Option<Seq<u8>> {
    let name = last_component(path);
    if name.len() == 0 || name == seq![DOT] || name == seq![DOT, DOT] {
        None
    } else {
        Some(name)
    }
}

/// The extension of `path`: what follows the last `.` of its file name. There
/// is none if there is no file name, if the file name holds no `.`, or if its
/// only `.` is its first byte. A file name that ends in `.` has the empty
/// extension.
pub open spec fn extension(path: Seq<u8>) -> Option<Seq<u8>> {
    match file_name(path) {
        Some(name) => {
            let dot = last_index_of(name, DOT);
            if dot <= 0 {
                None
            } else {
                Some(name.skip(dot + 1))
            }
        },
        None => None,
    }
}

/// The extension of `path` as text: missing if there is none, an encoding
/// failure if it is not UTF-8.
pub open spec fn text_extension(path: Seq<u8>) -> Result<Seq<char>, ErrorModel> {
    match extension(path) {
        Some(bytes) => match text_of(bytes) {
            Some(text) => Ok(text),
            None => Err(ErrorModel::InvalidEncoding),
        },
        None => Err(ErrorModel::MissingExtension),
    }
}

/// What `last_index_of` finds is a `needle` with none after it, and it is the
/// only index of which that holds.
pub proof fn last_index_of_is_last(bytes: Seq<u8>, needle: u8)
    ensures
        -1 <= last_index_of(bytes, needle) < bytes.len(),
        last_index_of(bytes, needle) >= 0 ==> bytes[last_index_of(bytes, needle)] == needle,
        forall|j: int| last_index_of(bytes, needle) < j < bytes.len() ==> bytes[j] != needle,
    decreases bytes.len(),
{
    if bytes.len() > 0 && bytes.last() != needle {
        let shorter = bytes.drop_last();
        last_index_of_is_last(shorter, needle);
        assert forall|j: int| last_index_of(bytes, needle) < j < bytes.len() implies bytes[j]
            != needle by {
            if j < shorter.len() {
                assert(shorter[j] == bytes[j]);
            }
        }
    }
}

/// An index that holds a `needle` with none after it is the one that
/// `last_index_of` finds; so is -1 if there is no `needle` at all.
pub proof fn last_index_of_is_unique(bytes: Seq<u8>, needle: u8, k: int)
    requires
        -1 <= k < bytes.len(),
        k >= 0 ==> bytes[k] == needle,
        forall|j: int| k < j < bytes.len() ==> bytes[j] != needle,
    ensures
        last_index_of(bytes, needle) == k,
{
    last_index_of_is_last(bytes, needle);
}

/// A file name that is a stem, a `.` and an extension has that extension,
/// in whatever directory it lies: the stem must not be empty, neither part
/// may hold a separator, the extension may hold no `.`, and the name must
/// not be `..`.
pub proof fn extension_of_a_joined_name(directory: Seq<u8>, stem: Seq<u8>, suffix: Seq<u8>)
    requires
        stem.len() > 0,
        !stem.contains(SEPARATOR),
        !suffix.contains(SEPARATOR),
        !suffix.contains(DOT),
        !(stem == seq![DOT] && suffix.len() == 0),
    ensures
        extension(directory + seq![SEPARATOR] + stem + seq![DOT] + suffix) == Some(suffix),
        extension(stem + seq![DOT] + suffix) == Some(suffix),
{
    // The name holds no separator, and its last `.` is the one behind the stem.
    let name = stem + seq![DOT] + suffix;
    assert forall|j: int| 0 <= j < name.len() implies name[j] != SEPARATOR by {}
    assert forall|j: int| stem.len() < j < name.len() implies name[j] != DOT by {}
    last_index_of_is_unique(name, DOT, stem.len() as int);
    // It is neither `.` nor `..`.
    if name == seq![DOT, DOT] {
        assert(stem =~= seq![name[0]]);
    }
    assert(name != seq![DOT]);
    // Nothing follows it that would be passed over, so it is the last
    // component, alone or behind a directory.
    let path = directory + seq![SEPARATOR] + name;
    assert(path =~= directory + seq![SEPARATOR] + stem + seq![DOT] + suffix);
    assert forall|j: int| directory.len() < j < path.len() implies path[j] != SEPARATOR by {}
    last_index_of_is_unique(path, SEPARATOR, directory.len() as int);
    assert(path.skip(directory.len() as int + 1) =~= name);
    last_index_of_is_unique(name, SEPARATOR, -1);
    assert(name.skip(0) =~= name);
}

/// An extension holds neither a separator nor a `.`.
pub proof fn extension_is_one_word(path: Seq<u8>)
    requires
        extension(path) is Some,
    ensures
        !extension(path)->0.contains(SEPARATOR),
        !extension(path)->0.contains(DOT),
{
    let found = extension(path)->0;
    last_index_of_is_last(without_trailing_noise(path), SEPARATOR);
    last_index_of_is_last(last_component(path), DOT);
    assert forall|j: int| 0 <= j < found.len() implies found[j] != SEPARATOR && found[j] != DOT by {}
}

/// The bytes of `bytes` from `from` up to `to`.
fn copy_of_range(bytes: &Vec<u8>, from: usize, to: usize) -> (out: Vec<u8>)
    requires
        from <= to <= bytes.len(),
    ensures
        out@ == bytes@.subrange(from as int, to as int),
{
    let mut out: Vec<u8> = Vec::new();
    let mut i: usize = from;
    while i < to
        invariant
            from <= i <= to <= bytes.len(),
            out@ == bytes@.subrange(from as int, i as int),
        decreases to - i,
    {
        out.push(bytes[i]);
        i += 1;
    }
    out
}

/// Finds where the last component of a path begins and ends.
fn last_component_bounds(path: &Vec<u8>) -> (bounds: (usize, usize))
    ensures
        bounds.0 <= bounds.1 <= path.len(),
        path@.subrange(bounds.0 as int, bounds.1 as int) == last_component(path@),
{
    let mut end: usize = path.len();
    proof {
        assert(path@.take(end as int) =~= path@);
    }
    loop
        invariant
            end <= path.len(),
            without_trailing_noise(path@) == without_trailing_noise(path@.take(end as int)),
        ensures
            end <= path.len(),
            without_trailing_noise(path@) == path@.take(end as int),
        decreases end,
    {
        let ghost head = path@.take(end as int);
        if end >= 1 && path[end - 1] == SEPARATOR {
            proof {
                assert(head.drop_last() =~= path@.take(end - 1));
            }
            end -= 1;
        } else if end >= 2 && path[end - 1] == DOT && path[end - 2] == SEPARATOR {
            proof {
                assert(head.take(head.len() - 2) =~= path@.take(end - 2));
            }
            end -= 2;
        } else {
            break ;
        }
    }
    let ghost core = path@.take(end as int);
    let mut start: usize = end;
    while start > 0 && path[start - 1] != SEPARATOR
        invariant
            start <= end <= path.len(),
            forall|j: int| start <= j < end ==> path@[j] != SEPARATOR,
        decreases start,
    {
        start -= 1;
    }
    proof {
        last_index_of_is_unique(core, SEPARATOR, start - 1);
    }
    (start, end)
}

/// Finds the last `.` of the stretch of `path` from `start` up to `end`:
/// the index just behind it, or `start` if the stretch holds none.
fn behind_last_dot(path: &Vec<u8>, start: usize, end: usize) -> (behind: usize)
    requires
        start <= end <= path.len(),
    ensures
        start <= behind <= end,
        behind - start - 1 == last_index_of(path@.subrange(start as int, end as int), DOT),
{
    let mut dot: usize = end;
    while dot > start && path[dot - 1] != DOT
        invariant
            start <= dot <= end <= path.len(),
            forall|j: int| dot <= j < end ==> path@[j] != DOT,
        decreases dot,
    {
        dot -= 1;
    }
    proof {
        last_index_of_is_unique(path@.subrange(start as int, end as int), DOT, dot - 1 - start);
    }
    dot
}

/// Finds the extension of a path.
pub fn extension_of(path: &Vec<u8>) -> (found: Option<Vec<u8>>)
    ensures
        bytes_model(found) == extension(path@),
{
    let (start, end) = last_component_bounds(path);
    let ghost name = path@.subrange(start as int, end as int);
    let length: usize = end - start;
    if length == 0 {
        return None;
    }
    if length == 1 && path[start] == DOT {
        proof {
            assert(name =~= seq![DOT]);
        }
        return None;
    }
    if length == 2 && path[start] == DOT && path[start + 1] == DOT {
        proof {
            assert(name =~= seq![DOT, DOT]);
        }
        return None;
    }
    proof {
        if name == seq![DOT] {
            assert(name.len() == 1 && name[0] == DOT);
        }
        if name == seq![DOT, DOT] {
            assert(name.len() == 2 && name[0] == DOT && name[1] == DOT);
        }
    }
    let behind: usize = behind_last_dot(path, start, end);
    if behind <= start + 1 {
        return None;
    }
    let found = copy_of_range(path, behind, end);
    Some(found)
}

/// Finds the extension of a path and reads it as text.
pub fn extension_text(path: &Vec<u8>) -> (res: Result<String, PipelineError>)
    ensures
        result_model(res) == text_extension(path@),
{
    match extension_of(path) {
        Some(bytes) => match decode_text(bytes) {
            Some(text) => Ok(text),
            None => Err(PipelineError::InvalidEncoding),
        },
        None => Err(PipelineError::MissingExtension),
    }
}

} // verus!
