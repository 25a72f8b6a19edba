use vstd::prelude::*;
use vstd::string::StringSliceAdditionalSpecFns;
use vstd::utf8::is_ascii_chars;
use crate::common::MultilineStringChoiceItem;

verus! {

#[verifier::external_type_specification]
#[verifier::external_body]
#[verifier::reject_recursive_types(T)]
pub struct ExBoundedVec<T, const N: usize>(heapless::Vec<T, N>);

#[verifier::external_type_specification]
#[verifier::external_body]
pub struct ExBoundedString<const N: usize>(heapless::String<N>);

/// The characters that a 50-byte heapless string holds.
pub uninterp spec fn label_chars(s: heapless::String<50>) -> Seq<char>;

/// The characters that a 100-byte heapless string holds.
pub uninterp spec fn lines_chars(s: heapless::String<100>) -> Seq<char>;

/// The items, in order, that the choice list holds.
pub uninterp spec fn choices_of(v: heapless::Vec<MultilineStringChoiceItem, 30>) -> Seq<
    MultilineStringChoiceItem,
>;

/// Relies on heapless's `From<&str>` for `String<50>`: it holds exactly the
/// given text, which must fit in 50 bytes (else it panics).
#[verifier::external_body]
pub(crate) fn label_from_str(t: &str) -> (r: heapless::String<50>)
    requires
        t.spec_bytes().len() <= 50,
    ensures
        label_chars(r) == t@,
{
    heapless::String::from(t)
}

/// Relies on heapless's `String::<50>::new`: an empty string.
#[verifier::external_body]
pub(crate) fn label_new() -> (r: heapless::String<50>)
    ensures
        label_chars(r) == Seq::<char>::empty(),
{
    heapless::String::new()
}

/// Relies on heapless's `String::<50>::push`: appends the character when its
/// bytes fit and leaves the string as it was otherwise; a character (at most
/// four bytes) always fits into an empty string, an ASCII character (one
/// byte) into an ASCII string of fewer than 50 characters, and nothing into
/// an ASCII string of 50.
#[verifier::external_body]
pub(crate) fn label_push(s: &mut heapless::String<50>, c: char) -> (ok: bool)
    ensures
        ok ==> label_chars(*final(s)) == label_chars(*old(s)).push(c),
        !ok ==> *final(s) == *old(s),
        label_chars(*old(s)).len() == 0 ==> ok,
        is_ascii_chars(label_chars(*old(s))) && is_ascii_chars(seq![c]) && label_chars(*old(s)).len()
            < 50 ==> ok,
        is_ascii_chars(label_chars(*old(s))) && label_chars(*old(s)).len() == 50 ==> !ok,
{
    s.push(c).is_ok()
}

/// Relies on heapless's `String::<50>::pop`: removes and returns the last
/// character, or `None` on an empty string.
#[verifier::external_body]
pub(crate) fn label_pop(s: &mut heapless::String<50>) -> (r: Option<char>)
    ensures
        label_chars(*old(s)).len() == 0 ==> r is None && *final(s) == *old(s),
        label_chars(*old(s)).len() > 0 ==> r == Some(label_chars(*old(s)).last())
            && label_chars(*final(s)) == label_chars(*old(s)).drop_last(),
{
    s.pop()
}

/// Relies on heapless's `String::<50>::as_str`: the text held, at most 50
/// bytes and so at most 50 characters.
#[verifier::external_body]
pub(crate) fn label_as_str(s: &heapless::String<50>) -> (r: &str)
    ensures
        r@ == label_chars(*s),
        r@.len() <= 50,
{
    s.as_str()
}

/// Relies on heapless's `From<&str>` for `String<100>`: it holds exactly the
/// given text, which must fit in 100 bytes (else it panics).
#[verifier::external_body]
pub(crate) fn lines_from_str(t: &str) -> (r: heapless::String<100>)
    requires
        t.spec_bytes().len() <= 100,
    ensures
        lines_chars(r) == t@,
{
    heapless::String::from(t)
}

/// Relies on heapless's `String::<100>::new`: an empty string.
#[verifier::external_body]
pub(crate) fn lines_new() -> (r: heapless::String<100>)
    ensures
        lines_chars(r) == Seq::<char>::empty(),
{
    heapless::String::new()
}

/// Relies on heapless's `String::<100>::push`: appends the character when
/// its bytes fit and leaves the string as it was otherwise; a character (at
/// most four bytes) always fits into an empty string, and an ASCII character
/// (one byte) into an ASCII string of fewer than 100 characters.
#[verifier::external_body]
pub(crate) fn lines_push(s: &mut heapless::String<100>, c: char) -> (ok: bool)
    ensures
        ok ==> lines_chars(*final(s)) == lines_chars(*old(s)).push(c),
        !ok ==> *final(s) == *old(s),
        lines_chars(*old(s)).len() == 0 ==> ok,
        is_ascii_chars(lines_chars(*old(s))) && is_ascii_chars(seq![c]) && lines_chars(*old(s)).len()
            < 100 ==> ok,
{
    s.push(c).is_ok()
}

/// Relies on heapless's `String::<100>::as_str`: the text held, at most 100
/// bytes and so at most 100 characters.
#[verifier::external_body]
pub(crate) fn lines_as_str(s: &heapless::String<100>) -> (r: &str)
    ensures
        r@ == lines_chars(*s),
        r@.len() <= 100,
{
    s.as_str()
}

/// Relies on heapless's `Vec::<_, 30>::new`: an empty list.
#[verifier::external_body]
pub(crate) fn choices_new() -> (r: heapless::Vec<MultilineStringChoiceItem, 30>)
    ensures
        choices_of(r) == Seq::<MultilineStringChoiceItem>::empty(),
{
    heapless::Vec::new()
}

/// Relies on heapless's `Vec::<_, 30>::push`: appends while fewer than 30
/// items are held and leaves the list as it was otherwise.
#[verifier::external_body]
pub(crate) fn choices_push(
    v: &mut heapless::Vec<MultilineStringChoiceItem, 30>,
    item: MultilineStringChoiceItem,
) -> (ok: bool)
    ensures
        ok == (choices_of(*old(v)).len() < 30),
        ok ==> choices_of(*final(v)) == choices_of(*old(v)).push(item),
        !ok ==> choices_of(*final(v)) == choices_of(*old(v)),
{
    v.push(item).is_ok()
}

/// Relies on heapless's `Vec::len`: the number of items held, never more
/// than the capacity.
#[verifier::external_body]
pub(crate) fn choices_len(v: &heapless::Vec<MultilineStringChoiceItem, 30>) -> (n: usize)
    ensures
        n == choices_of(*v).len(),
        n <= 30,
{
    v.len()
}

/// Relies on indexing a heapless `Vec` (through its slice): the item at
/// `i`, which must be held (else it panics).
#[verifier::external_body]
pub(crate) fn choices_get(v: &heapless::Vec<MultilineStringChoiceItem, 30>, i: usize) -> (r:
    &MultilineStringChoiceItem)
    requires
        i < choices_of(*v).len(),
    ensures
        *r == choices_of(*v)[i as int],
{
    &v[i]
}

} // verus!
