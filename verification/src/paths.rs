//! File paths held as text.
//!
//! How a path falls into components is the standard library's business and
//! differs between platforms, so the three operations that depend on it are
//! calls into `std::path` whose results are only named here. What the
//! standard library defines in terms of the file name, the extension and the
//! stem, is computed and proved in this module.

use vstd::prelude::*;
use vstd::string::*;
use crate::text::optional_text;

verus! {

/// The final component of the path written `path`, as
/// `std::path::Path::file_name` gives it on the platform the program is built
/// for; `None` where the path has no such component.
pub uninterp spec fn file_name_of(path: Seq<char>) -> Option<Seq<char>>;

/// The path written `path` without its final component, as
/// `std::path::Path::parent` gives it; `None` where there is none to remove.
pub uninterp spec fn parent_of(path: Seq<char>) -> Option<Seq<char>>;

/// The path written `base` with `part` adjoined, as `std::path::Path::join`
/// gives it.
pub uninterp spec fn join_of(base: Seq<char>, part: Seq<char>) -> Seq<char>;

/// Calls `std::path::Path::file_name` on `path`. The result is the function's
/// own: the contract only gives it its name.
#[verifier::external_body]
pub(crate) fn file_name(path: &str) -> (r: Option<String>)
    ensures
        optional_text(r) == file_name_of(path@),
{
    std::path::Path::new(path).file_name().map(|n| n.to_string_lossy().into_owned())
}

/// Calls `std::path::Path::parent` on `path`. The result is the function's
/// own: the contract only gives it its name.
#[verifier::external_body]
pub(crate) fn parent(path: &str) -> (r: Option<String>)
    ensures
        optional_text(r) == parent_of(path@),
{
    std::path::Path::new(path).parent().map(|p| p.to_string_lossy().into_owned())
}

/// Calls `std::path::Path::join` on `base` with `part`. The result is the
/// function's own: the contract only gives it its name.
#[verifier::external_body]
pub(crate) fn join(base: &str, part: &str) -> (r: String)
    ensures
        r@ == join_of(base@, part@),
{
    std::path::Path::new(base).join(part).to_string_lossy().into_owned()
}

/// The place of the last `.` in `name`, or -1 where it has none.
pub open spec fn final_dot(name: Seq<char>) -> int
    decreases name.len(),
{
    if name.len() == 0 {
        -1
    } else if name.last() == '.' {
        name.len() - 1
    } else {
        final_dot(name.drop_last())
    }
}

/// The extension of a file name: what follows its last `.`, unless the name
/// has no `.` or its only `.` is the first character.
pub open spec fn extension_in(name: Seq<char>) -> Option<Seq<char>> {
    if final_dot(name) <= 0 {
        None
    } else {
        Some(name.skip(final_dot(name) + 1))
    }
}

/// The stem of a file name: what precedes its last `.`, or the whole name
/// where `extension_in` finds no extension.
pub open spec fn stem_in(name: Seq<char>) -> Seq<char> {
    if final_dot(name) <= 0 {
        name
    } else {
        name.take(final_dot(name))
    }
}

/// The extension of the path written `path`: that of its file name.
pub open spec fn extension_of(path: Seq<char>) -> Option<Seq<char>> {
    match file_name_of(path) {
        Some(name) => extension_in(name),
        None => None,
    }
}

/// The stem of the path written `path`: that of its file name.
pub open spec fn stem_of(path: Seq<char>) -> Option<Seq<char>> {
    match file_name_of(path) {
        Some(name) => Some(stem_in(name)),
        None => None,
    }
}

/// `final_dot` finds a `.` after which no other follows, and answers -1 only
/// for a name without any.
pub proof fn lemma_final_dot(name: Seq<char>)
    ensures
        -1 <= final_dot(name) < name.len(),
        final_dot(name) >= 0 ==> name[final_dot(name)] == '.',
        forall|j: int| final_dot(name) < j < name.len() ==> name[j] != '.',
    decreases name.len(),
{
    if name.len() > 0 && name.last() != '.' {
        lemma_final_dot(name.drop_last());
        assert forall|j: int| final_dot(name) < j < name.len() implies name[j] != '.' by {
            if j < name.len() - 1 {
                assert(name.drop_last()[j] == name[j]);
            }
        }
    }
}

/// Stem, `.` and extension put the name together again.
pub proof fn lemma_stem_dot_extension(name: Seq<char>)
    ensures
        match extension_in(name) {
            Some(ext) => name == stem_in(name).push('.') + ext && !ext.contains('.'),
            None => name == stem_in(name),
        },
{
    lemma_final_dot(name);
    if final_dot(name) > 0 {
        let ext = name.skip(final_dot(name) + 1);
        assert(name =~= stem_in(name).push('.') + ext);
        if ext.contains('.') {
            let i = choose|i: int| 0 <= i < ext.len() && ext[i] == '.';
            assert(name[final_dot(name) + 1 + i] == '.');
        }
    }
}

fn final_dot_index(name: &str) -> (r: Option<usize>)
    ensures
        match r {
            Some(i) => i == final_dot(name@),
            None => final_dot(name@) == -1,
        },
{
    let len = name.unicode_len();
    let mut found: Option<usize> = None;
    let mut at: usize = 0;
    for c in it: name.chars()
        invariant
            it.seq() == name@,
            at == it.index(),
            len == name@.len(),
            match found {
                Some(i) => i == final_dot(name@.take(at as int)),
                None => final_dot(name@.take(at as int)) == -1,
            },
    {
        proof {
            let next = name@.take(at + 1);
            assert(next.drop_last() == name@.take(at as int));
            assert(next.last() == c);
        }
        if c == '.' {
            found = Some(at);
        }
        at += 1;
    }
    assert(name@.take(at as int) == name@);
    found
}

/// The extension of the file name `name`.
pub fn extension_of_name(name: &str) -> (r: Option<String>)
    ensures
        optional_text(r) == extension_in(name@),
{
    match final_dot_index(name) {
        Some(i) => {
            if i == 0 {
                None
            } else {
                proof {
                    lemma_final_dot(name@);
                }
                let len = name.unicode_len();
                Some(String::from_str(name.substring_char(i + 1, len)))
            }
        },
        None => None,
    }
}

/// The stem of the file name `name`.
pub fn stem_of_name(name: &str) -> (r: String)
    ensures
        r@ == stem_in(name@),
{
    match final_dot_index(name) {
        Some(i) => {
            if i == 0 {
                String::from_str(name)
            } else {
                proof {
                    lemma_final_dot(name@);
                }
                String::from_str(name.substring_char(0, i))
            }
        },
        None => String::from_str(name),
    }
}

/// The extension of `path`, as `std::path::Path::extension` defines it from
/// the file name.
pub fn extension(path: &str) -> (r: Option<String>)
    ensures
        optional_text(r) == extension_of(path@),
{
    match file_name(path) {
        Some(name) => extension_of_name(name.as_str()),
        None => None,
    }
}

/// The stem of `path`, as `std::path::Path::file_stem` defines it from the
/// file name.
pub fn file_stem(path: &str) -> (r: Option<String>)
    ensures
        optional_text(r) == stem_of(path@),
{
    match file_name(path) {
        Some(name) => Some(stem_of_name(name.as_str())),
        None => None,
    }
}

} // verus!
