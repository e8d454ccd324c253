//! Text building blocks: decimal and hexadecimal numerals, padding, and the
//! quoting of text that holds control or whitespace characters.
use unicode_width::UnicodeWidthStr;
use vstd::prelude::*;

verus! {

/// The decimal digit `d` (`d < 10`) as a character.
pub open spec fn digit_char(d: nat) -> char {
    if d == 0 { '0' }
    else if d == 1 { '1' }
    else if d == 2 { '2' }
    else if d == 3 { '3' }
    else if d == 4 { '4' }
    else if d == 5 { '5' }
    else if d == 6 { '6' }
    else if d == 7 { '7' }
    else if d == 8 { '8' }
    else if d == 9 { '9' }
    else if d == 10 { 'A' }
    else if d == 11 { 'B' }
    else if d == 12 { 'C' }
    else if d == 13 { 'D' }
    else if d == 14 { 'E' }
    else { 'F' }
}

/// The numeral of `n` in base `base`, most significant digit first, without
/// leading zeros (zero is written as a single `0`). Digits above nine are
/// upper-case letters.
pub open spec fn numeral(n: nat, base: nat) -> Seq<char>
    decreases n via numeral_decreases
{
    if base < 2 || base > 16 {
        Seq::empty()
    } else if n < base {
        seq![digit_char(n)]
    } else {
        numeral(n / base, base).push(digit_char(n % base))
    }
}

#[via_fn]
proof fn numeral_decreases(n: nat, base: nat) {
    if 2 <= base && n >= base {
        assert(n / base < n) by (nonlinear_arith)
            requires
                2 <= base,
                n >= base,
        ;
    }
}

/// `n` spaces.
pub open spec fn spaces(n: nat) -> Seq<char> {
    Seq::new(n, |i: int| ' ')
}

/// `n` copies of the character `c`.
pub open spec fn repeated(c: char, n: nat) -> Seq<char> {
    Seq::new(n, |i: int| c)
}

/// Relies on `String::push`: appends one character.
#[verifier::external_body]
pub(crate) fn push_char(s: &mut String, c: char)
    ensures
        final(s)@ == old(s)@.push(c),
{
    s.push(c)
}

fn digit(d: u64) -> (c: char)
    requires
        d < 16,
    ensures
        c == digit_char(d as nat),
{
    if d == 0 { '0' }
    else if d == 1 { '1' }
    else if d == 2 { '2' }
    else if d == 3 { '3' }
    else if d == 4 { '4' }
    else if d == 5 { '5' }
    else if d == 6 { '6' }
    else if d == 7 { '7' }
    else if d == 8 { '8' }
    else if d == 9 { '9' }
    else if d == 10 { 'A' }
    else if d == 11 { 'B' }
    else if d == 12 { 'C' }
    else if d == 13 { 'D' }
    else if d == 14 { 'E' }
    else { 'F' }
}

/// Appends the numeral of `n` in base `base` to `out`.
pub fn push_numeral(out: &mut String, n: u64, base: u64)
    requires
        2 <= base <= 16,
    ensures
        final(out)@ == old(out)@ + numeral(n as nat, base as nat),
    decreases n,
{
    let ghost start = out@;
    if n >= base {
        assert(n / base < n) by (nonlinear_arith)
            requires
                2 <= base,
                n >= base,
        ;
        push_numeral(out, n / base, base);
        let ghost mid = out@;
        push_char(out, digit(n % base));
        assert(out@ =~= start + numeral(n as nat, base as nat)) by {
            assert(mid == start + numeral((n / base) as nat, base as nat));
            assert(numeral(n as nat, base as nat) == numeral((n / base) as nat, base as nat).push(
                digit_char((n % base) as nat),
            ));
        }
    } else {
        push_char(out, digit(n));
        assert(out@ =~= start + numeral(n as nat, base as nat));
    }
}

/// Appends `n` copies of `c` to `out`.
pub fn push_repeated(out: &mut String, c: char, n: usize)
    ensures
        final(out)@ == old(out)@ + repeated(c, n as nat),
{
    let ghost start = out@;
    let mut i: usize = 0;
    while i < n
        invariant
            i <= n,
            out@ == start + repeated(c, i as nat),
        decreases n - i,
    {
        push_char(out, c);
        i = i + 1;
        assert(out@ =~= start + repeated(c, i as nat));
    }
}

/// The decimal numeral of `n`.
pub fn decimal(n: u64) -> (r: String)
    ensures
        r@ == numeral(n as nat, 10),
{
    let mut r = String::new();
    push_numeral(&mut r, n, 10);
    assert(r@ =~= numeral(n as nat, 10));
    r
}

/// Whether `c` is a control character (Unicode general category Cc).
pub open spec fn is_control_char(c: char) -> bool {
    (c as u32) <= 0x1F || (0x7F <= (c as u32) && (c as u32) <= 0x9F)
}

/// Whether `c` has the Unicode White_Space property.
pub open spec fn is_whitespace_char(c: char) -> bool {
    let u = c as u32;
    ||| 0x09 <= u <= 0x0D
    ||| u == 0x20
    ||| u == 0x85
    ||| u == 0xA0
    ||| u == 0x1680
    ||| 0x2000 <= u <= 0x200A
    ||| u == 0x2028
    ||| u == 0x2029
    ||| u == 0x202F
    ||| u == 0x205F
    ||| u == 0x3000
}

/// What `{:?}` makes of a string: the string quoted, with escapes.
pub uninterp spec fn debug_str_of(s: Seq<char>) -> Seq<char>;

/// The number of terminal columns that a string takes, after Unicode Annex #11
/// (ambiguous-width characters count as one column).
pub uninterp spec fn display_width_of(s: Seq<char>) -> nat;

/// Whether a string holds a character that would not show plainly in a table
/// cell: a control character or whitespace.
pub open spec fn needs_quoting(s: Seq<char>) -> bool {
    exists|i: int| 0 <= i < s.len() && (is_control_char(s[i]) || is_whitespace_char(s[i]))
}

/// A string as it is shown in a table cell: quoted and escaped where it holds
/// a control or whitespace character, as it is otherwise.
pub open spec fn nice(s: Seq<char>) -> Seq<char> {
    if needs_quoting(s) {
        debug_str_of(s)
    } else {
        s
    }
}

/// Relies on `char::is_control`: true exactly for the general category Cc.
#[verifier::external_body]
fn char_is_control(c: char) -> (r: bool)
    ensures
        r == is_control_char(c),
{
    c.is_control()
}

/// Relies on `char::is_whitespace`: true exactly for the White_Space property.
#[verifier::external_body]
fn char_is_whitespace(c: char) -> (r: bool)
    ensures
        r == is_whitespace_char(c),
{
    c.is_whitespace()
}

/// Relies on the `Debug` impl of `str` (`format!("{:?}")`): the quoted,
/// escaped form of the text, which depends on the text alone.
#[verifier::external_body]
pub(crate) fn debug_text(s: &str) -> (r: String)
    ensures
        r@ == debug_str_of(s@),
{
    format!("{:?}", s)
}

/// Relies on `unicode_width::UnicodeWidthStr::width`: the displayed width of
/// the text, a sum over its characters (zero for the empty text).
#[verifier::external_body]
pub(crate) fn display_width(s: &str) -> (r: usize)
    ensures
        r == display_width_of(s@),
        s@.len() == 0 ==> r == 0,
{
    s.width()
}

/// The text for a table cell: `text` itself, or its quoted, escaped form if it
/// holds a control or whitespace character.
pub fn nice_text(text: &str) -> (r: String)
    ensures
        r@ == nice(text@),
{
    let n = text.unicode_len();
    let mut i: usize = 0;
    let mut found = false;
    while i < n
        invariant
            i <= n,
            n == text@.len(),
            found <==> exists|j: int|
                0 <= j < i && (is_control_char(text@[j]) || is_whitespace_char(text@[j])),
        decreases n - i,
    {
        let c = text.get_char(i);
        if char_is_control(c) || char_is_whitespace(c) {
            found = true;
        }
        i = i + 1;
    }
    if found {
        debug_text(text)
    } else {
        text.to_owned()
    }
}

/// Whether two texts are equal, compared character by character.
pub fn same_text(a: &str, b: &str) -> (r: bool)
    ensures
        r == (a@ == b@),
{
    let n = a.unicode_len();
    if n != b.unicode_len() {
        return false;
    }
    let mut i: usize = 0;
    while i < n
        invariant
            i <= n,
            n == a@.len(),
            n == b@.len(),
            forall|j: int| 0 <= j < i ==> a@[j] == b@[j],
        decreases n - i,
    {
        if a.get_char(i) != b.get_char(i) {
            return false;
        }
        i = i + 1;
    }
    assert(a@ =~= b@);
    true
}

/// Appends `s` to `out`.
pub fn push_text(out: &mut String, s: &str)
    ensures
        final(out)@ == old(out)@ + s@,
{
    out.append(s);
}

} // verus!
