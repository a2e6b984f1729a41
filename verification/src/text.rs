//! Characters and strings: the few operations of `std` that the rest of the
//! crate builds on, and conversions between strings and character vectors.

use vstd::prelude::*;

verus! {

/// Whether `c` has the Unicode `Uppercase` property, as `char::is_uppercase` reports it.
pub uninterp spec fn is_uppercase_char(c: char) -> bool;

/// The lowercase mapping of `c`: the characters that `char::to_lowercase`
/// yields for it.
pub uninterp spec fn lowercase_mapping(c: char) -> Seq<char>;

/// The characters that an iterator over a lowercase mapping has yet to yield.
pub uninterp spec fn yet_to_yield(mapping: core::char::ToLowercase) -> Seq<char>;

/// The first character of the lowercase mapping of `c`.
pub open spec fn lowercase_head(c: char) -> char {
    lowercase_mapping(c)[0]
}

/// The iterator over the lowercase mapping of a character.
#[verifier::external_type_specification]
#[verifier::external_body]
pub struct ExToLowercase(core::char::ToLowercase);

/// `char::to_lowercase` returns an iterator that yields the lowercase mapping
/// of the character, which is one character or more.
pub assume_specification[ char::to_lowercase ](c: char) -> (mapping: core::char::ToLowercase)
    ensures
        yet_to_yield(mapping) == lowercase_mapping(c),
        yet_to_yield(mapping).len() >= 1,
;

/// `String::push` appends one character to the end of the string.
pub assume_specification[ String::push ](s: &mut String, c: char)
    ensures
        final(s)@ == old(s)@.push(c),
;

/// `String::push_str` appends a string slice to the end of the string.
pub assume_specification[ String::push_str ](s: &mut String, tail: &str)
    ensures
        final(s)@ == old(s)@ + tail@,
;

/// `String::pop` removes the last character of the string and returns it, or
/// returns nothing where the string is empty.
pub assume_specification[ String::pop ](s: &mut String) -> (last: Option<char>)
    ensures
        old(s)@.len() == 0 ==> last is None && final(s)@ == old(s)@,
        old(s)@.len() > 0 ==> last == Some(old(s)@.last()) && final(s)@ == old(s)@.drop_last(),
;

/// A text without the whitespace at its two ends, as `str::trim` cuts it.
pub uninterp spec fn trimmed(s: Seq<char>) -> Seq<char>;

/// `str::trim` returns the slice without leading and trailing whitespace;
/// what it cuts depends on the characters alone.
pub assume_specification<'a>[ str::trim ](s: &'a str) -> (cut: &'a str)
    ensures
        cut@ == trimmed(s@),
;

/// Whether `c` is a letter or a number in the sense of Unicode, as
/// `char::is_alphanumeric` reports it.
pub uninterp spec fn is_alphanumeric_char(c: char) -> bool;

/// Whether `c` is a letter in the sense of Unicode, as `char::is_alphabetic`
/// reports it.
pub uninterp spec fn is_alphabetic_char(c: char) -> bool;

/// `char::is_alphanumeric` is a fixed property of the character.
pub assume_specification[ char::is_alphanumeric ](c: char) -> (b: bool)
    ensures
        b == is_alphanumeric_char(c),
;

/// `char::is_alphabetic` is a fixed property of the character.
pub assume_specification[ char::is_alphabetic ](c: char) -> (b: bool)
    ensures
        b == is_alphabetic_char(c),
;

/// `char::is_uppercase` is a fixed property of the character.
pub assume_specification[ char::is_uppercase ](c: char) -> (b: bool)
    ensures
        b == is_uppercase_char(c),
;

/// Calls `Iterator::next` on the iterator over a lowercase mapping, which
/// yields the next character of the mapping, or nothing once all are yielded.
#[verifier::external_body]
fn next_lowercase(mapping: &mut core::char::ToLowercase) -> (next: Option<char>)
    ensures
        match next {
            Some(c) => yet_to_yield(*old(mapping)).len() > 0 && c == yet_to_yield(*old(mapping))[0]
                && yet_to_yield(*final(mapping)) == yet_to_yield(*old(mapping)).drop_first(),
            None => yet_to_yield(*old(mapping)).len() == 0 && yet_to_yield(*final(mapping))
                == yet_to_yield(*old(mapping)),
        },
{
    mapping.next()
}

/// The first character of the lowercase form of `c`.
pub fn first_lowercase(c: char) -> (head: char)
    ensures
        head == lowercase_head(c),
{
    let mut mapping = c.to_lowercase();
    match next_lowercase(&mut mapping) {
        Some(head) => head,
        None => c,
    }
}

/// The text of `head` followed by that of `tail`.
pub fn concat(head: &str, tail: &str) -> (joined: String)
    ensures
        joined@ == head@ + tail@,
{
    let mut joined = head.to_owned();
    joined.push_str(tail);
    joined
}

/// The decimal digit for a number below ten.
pub open spec fn digit_char(d: int) -> char {
    if d == 0 {
        '0'
    } else if d == 1 {
        '1'
    } else if d == 2 {
        '2'
    } else if d == 3 {
        '3'
    } else if d == 4 {
        '4'
    } else if d == 5 {
        '5'
    } else if d == 6 {
        '6'
    } else if d == 7 {
        '7'
    } else if d == 8 {
        '8'
    } else {
        '9'
    }
}

/// A number in decimal digits, without leading zeros.
pub open spec fn decimal_text(n: nat) -> Seq<char>
    decreases n,
{
    if n < 10 {
        seq![digit_char(n as int)]
    } else {
        decimal_text(n / 10).push(digit_char((n % 10) as int))
    }
}

fn digit(d: u8) -> (c: char)
    requires
        d < 10,
    ensures
        c == digit_char(d as int),
{
    match d {
        0 => '0',
        1 => '1',
        2 => '2',
        3 => '3',
        4 => '4',
        5 => '5',
        6 => '6',
        7 => '7',
        8 => '8',
        _ => '9',
    }
}

/// Writes a number in decimal digits.
pub fn decimal(n: usize) -> (text: String)
    ensures
        text@ == decimal_text(n as nat),
{
    let mut reversed: Vec<char> = Vec::new();
    let mut rest: usize = n;
    while rest >= 10
        invariant
            decimal_text(n as nat) == decimal_text(rest as nat) + reversed@.reverse(),
        decreases rest,
    {
        let ghost before = reversed@;
        reversed.push(digit((rest % 10) as u8));
        assert(reversed@.reverse() =~= seq![before.push(digit_char((rest % 10) as int)).last()]
            + before.reverse());
        assert(decimal_text(rest as nat) == decimal_text((rest / 10) as nat).push(
            digit_char((rest % 10) as int),
        ));
        assert(decimal_text(n as nat) =~= decimal_text((rest / 10) as nat) + reversed@.reverse());
        rest = rest / 10;
    }
    let mut text = String::new();
    text.push(digit(rest as u8));
    let mut i: usize = reversed.len();
    while i > 0
        invariant
            i <= reversed.len(),
            text@ == decimal_text(rest as nat) + reversed@.reverse().take(reversed.len() - i),
            rest < 10,
        decreases i,
    {
        i -= 1;
        text.push(reversed[i]);
        assert(reversed@.reverse()[reversed.len() - 1 - i] == reversed@[i as int]);
        assert(text@ =~= decimal_text(rest as nat) + reversed@.reverse().take(
            reversed.len() - i,
        ));
    }
    assert(reversed@.reverse().take(reversed.len() as int) =~= reversed@.reverse());
    text
}

/// Whether two texts hold the same characters.
pub fn same(a: &str, b: &str) -> (equal: bool)
    ensures
        equal == (a@ == b@),
{
    let left = chars_of(a);
    let right = chars_of(b);
    if left.len() != right.len() {
        return false;
    }
    let mut i: usize = 0;
    while i < left.len()
        invariant
            left@ == a@,
            right@ == b@,
            left.len() == right.len(),
            i <= left.len(),
            forall|j: int| 0 <= j < i ==> left@[j] == right@[j],
        decreases left.len() - i,
    {
        if left[i] != right[i] {
            return false;
        }
        i += 1;
    }
    assert(left@ =~= right@);
    true
}

/// The characters of `s`, in order.
pub fn chars_of(s: &str) -> (v: Vec<char>)
    ensures
        v@ == s@,
{
    let mut v: Vec<char> = Vec::new();
    for c in it: s.chars()
        invariant
            v@ == s@.take(it.index() as int),
            it.seq() == s@,
    {
        v.push(c);
    }
    v
}

/// The string made of the characters of `v`, in order.
pub fn string_of(v: &Vec<char>) -> (s: String)
    ensures
        s@ == v@,
{
    let mut s = String::new();
    let mut i: usize = 0;
    while i < v.len()
        invariant
            i <= v.len(),
            s@ == v@.take(i as int),
        decreases v.len() - i,
    {
        s.push(v[i]);
        i += 1;
    }
    s
}

} // verus!
