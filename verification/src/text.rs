//! Small string helpers with exact contracts: decimal digits, padding and
//! character pushes.

use vstd::prelude::*;
use vstd::string::StrSliceExecFns;
use vstd::utf8::encode_utf8;

verus! {

/// The ASCII digit character for a value below ten.
pub open spec fn digit_char(d: int) -> char {
    ((d + 48) as u8) as char
}

/// Decimal representation of a natural number, without leading zeros.
pub open spec fn decimal(n: nat) -> Seq<char>
    decreases n,
{
    if n < 10 {
        seq![digit_char(n as int)]
    } else {
        decimal(n / 10).push(digit_char((n % 10) as int))
    }
}

/// Appends one character to a string.
/// Trusted: `String::push`, which std documents as appending the character
/// to the end of the string.
#[verifier::external_body]
pub(crate) fn push_char(s: &mut String, c: char)
    ensures
        final(s)@ == old(s)@.push(c),
{
    s.push(c);
}

/// The digit character for `d`.
pub fn digit(d: u64) -> (c: char)
    requires
        d < 10,
    ensures
        c == digit_char(d as int),
{
    let b: u8 = (d as u8) + 48u8;
    b as char
}

/// Appends the decimal digits of `n` to `s`.
pub fn push_decimal(s: &mut String, n: u64)
    ensures
        final(s)@ == old(s)@ + decimal(n as nat),
    decreases n,
{
    if n >= 10 {
        push_decimal(s, n / 10);
    }
    let c = digit(n % 10);
    push_char(s, c);
    proof {
        if n >= 10 {
            assert(decimal(n as nat) == decimal((n / 10) as nat).push(digit_char((n % 10) as int)));
        }
    }
}

/// `n` spaces.
pub open spec fn spaces(n: nat) -> Seq<char> {
    Seq::new(n, |i: int| ' ')
}

/// The number of bytes that a text takes in UTF-8.
pub open spec fn byte_len(s: Seq<char>) -> nat {
    encode_utf8(s).len()
}

/// The byte length as `str::len` reports it.
pub open spec fn str_len(s: Seq<char>) -> int {
    (byte_len(s) as usize) as int
}

/// `a - b`, or zero when `b` is larger.
pub open spec fn minus_or_zero(a: int, b: int) -> nat {
    if a > b { (a - b) as nat } else { 0 }
}

/// Appends `n` spaces to `s`.
pub fn push_spaces(s: &mut String, n: usize)
    ensures
        final(s)@ == old(s)@ + spaces(n as nat),
{
    let ghost start = s@;
    let mut i: usize = 0;
    while i < n
        invariant
            i <= n,
            s@ == start + spaces(i as nat),
        decreases n - i,
    {
        push_char(s, ' ');
        i = i + 1;
        assert(s@ =~= start + spaces(i as nat));
    }
}

/// A text padded on the right with spaces to `width` characters; longer
/// texts stay as they are.
pub open spec fn pad_right_spec(s: Seq<char>, width: nat) -> Seq<char> {
    s + spaces(minus_or_zero(width as int, s.len() as int))
}

/// Pads `s` on the right with spaces to `width` characters.
pub fn pad_right(s: &str, width: usize) -> (r: String)
    ensures
        r@ == pad_right_spec(s@, width as nat),
{
    let n = s.unicode_len();
    let mut r = String::from_str(s);
    if n < width {
        push_spaces(&mut r, width - n);
    } else {
        push_spaces(&mut r, 0);
    }
    r
}

/// A label followed by a colon and padded with spaces so that labels of up
/// to thirteen bytes line up.
pub open spec fn padded_label_spec(label: Seq<char>) -> Seq<char> {
    label + seq![':'] + spaces(minus_or_zero(13, str_len(label)))
}

/// `label:` followed by `13 - label.len()` spaces (none for longer labels).
pub fn padded_label(label: &str) -> (r: String)
    ensures
        r@ == padded_label_spec(label@),
{
    let n = label.len();
    let mut r = String::from_str(label);
    push_char(&mut r, ':');
    if n < 13 {
        push_spaces(&mut r, 13 - n);
    } else {
        push_spaces(&mut r, 0);
    }
    r
}

/// A description cut to `max` characters: a longer one keeps its first
/// `max - 1` characters and ends with an ellipsis.
pub open spec fn truncated_spec(desc: Seq<char>, max: nat) -> Seq<char> {
    if desc.len() > max {
        desc.take(minus_or_zero(max as int, 1) as int).push('…')
    } else {
        desc
    }
}

/// Cuts `desc` to at most `max` characters, ending a cut one with `…`.
pub fn truncated(desc: &str, max: usize) -> (r: String)
    ensures
        r@ == truncated_spec(desc@, max as nat),
{
    let n = desc.unicode_len();
    if n > max {
        let keep: usize = if max >= 1 { max - 1 } else { 0 };
        let mut r = String::from_str(desc.substring_char(0, keep));
        push_char(&mut r, '…');
        assert(desc@.subrange(0, keep as int) =~= desc@.take(keep as int));
        r
    } else {
        String::from_str(desc)
    }
}

/// The texts joined with a separator between neighbours.
pub open spec fn joined(items: Seq<String>, sep: Seq<char>) -> Seq<char>
    decreases items.len(),
{
    if items.len() == 0 {
        Seq::empty()
    } else if items.len() == 1 {
        items[0]@
    } else {
        joined(items.drop_last(), sep) + sep + items.last()@
    }
}

/// Joins the texts with `sep` between neighbours.
pub fn join(items: &Vec<String>, sep: &str) -> (r: String)
    ensures
        r@ == joined(items@, sep@),
{
    let mut r = String::new();
    let n = items.len();
    for i in 0..n
        invariant
            n == items@.len(),
            r@ == joined(items@.take(i as int), sep@),
    {
        if i > 0 {
            r.append(sep);
        }
        r.append(items[i].as_str());
        assert(items@.take(i + 1).drop_last() =~= items@.take(i as int));
    }
    assert(items@.take(n as int) =~= items@);
    r
}

} // verus!
