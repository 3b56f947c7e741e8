//! How a key that was pressed edits the query.

use vstd::prelude::*;
use vstd::string::StrSliceExecFns;

verus! {

/// Which key was pressed, as far as editing goes.
#[derive(Debug, Clone, Copy, PartialEq, Eq)]
pub enum Key {
    Space,
    Backspace,
    Other,
}

/// What a key does to the query.
#[derive(Debug, Clone, Copy, PartialEq, Eq)]
pub enum Edit {
    /// The character is put at the end.
    Push(char),
    /// The last character is taken away.
    Pop,
    /// The query stays as it is.
    Keep,
}

/// Whether `c` is a letter or a number, as `char::is_alphanumeric` decides
/// it.
pub uninterp spec fn is_alphanumeric(c: char) -> bool;

/// Calls `char::is_alphanumeric`.
///
/// Trusted: the answer depends on the character alone; it is named
/// [`is_alphanumeric`].
#[verifier::external_body]
fn alphanumeric(c: char) -> (yes: bool)
    ensures
        yes == is_alphanumeric(c),
{
    c.is_alphanumeric()
}

/// `c` with an ASCII capital letter turned into the small one, which stands
/// 32 places further on; every other character stays.
pub open spec fn ascii_lowercase(c: char) -> char {
    if 'A' <= c && c <= 'Z' {
        ((c as int) + 32) as char
    } else {
        c
    }
}

/// `c` with an ASCII capital letter turned into the small one.
fn lowercase(c: char) -> (lower: char)
    ensures
        lower == ascii_lowercase(c),
{
    if 'A' <= c && c <= 'Z' {
        ((c as u8) + 32) as char
    } else {
        c
    }
}

/// Calls `String::push`.
///
/// Trusted: the character is appended.
#[verifier::external_body]
fn push_char(text: &mut String, c: char)
    ensures
        final(text)@ == old(text)@.push(c),
{
    text.push(c)
}

/// Calls `String::pop`.
///
/// Trusted: the last character is removed, if there is one.
#[verifier::external_body]
fn pop_char(text: &mut String)
    ensures
        final(text)@ == drop_last_char(old(text)@),
{
    text.pop();
}

/// `text` without its last character; an empty text stays empty.
pub open spec fn drop_last_char(text: Seq<char>) -> Seq<char> {
    if text.len() > 0 {
        text.drop_last()
    } else {
        text
    }
}

/// What the key named `name` does: a key whose name is one letter or number
/// types that character in lower case, the space bar types a space,
/// backspace removes the last character, and any other key does nothing.
pub open spec fn edit_of(name: Seq<char>, key: Key) -> Edit {
    if name.len() == 1 && is_alphanumeric(name[0]) {
        Edit::Push(ascii_lowercase(name[0]))
    } else if key == Key::Space {
        Edit::Push(' ')
    } else if key == Key::Backspace {
        Edit::Pop
    } else {
        Edit::Keep
    }
}

/// The query after `edit`.
pub open spec fn edited(text: Seq<char>, edit: Edit) -> Seq<char> {
    match edit {
        Edit::Push(c) => text.push(c),
        Edit::Pop => drop_last_char(text),
        Edit::Keep => text,
    }
}

/// What pressing the key named `name` does to the query.
pub fn edit_for_key(name: &str, key: Key) -> (edit: Edit)
    requires
        name@.len() > 0,
    ensures
        edit == edit_of(name@, key),
{
    let first = name.get_char(0);
    if name.unicode_len() == 1 && alphanumeric(first) {
        Edit::Push(lowercase(first))
    } else {
        match key {
            Key::Space => Edit::Push(' '),
            Key::Backspace => Edit::Pop,
            Key::Other => Edit::Keep,
        }
    }
}

/// Carries out `edit` on the query.
pub fn apply_edit(input: &mut String, edit: Edit)
    ensures
        final(input)@ == edited(old(input)@, edit),
{
    match edit {
        Edit::Push(c) => push_char(input, c),
        Edit::Pop => pop_char(input),
        Edit::Keep => {},
    }
}

} // verus!
