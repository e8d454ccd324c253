//! Labels for the parts of a key event: modifier sets, platform key codes,
//! key states and repeat counts.
use vstd::prelude::*;

use crate::text::{numeral, push_char, push_numeral, push_repeated, push_text, spaces};

verus! {

/// The modifier keys that are held down.
#[derive(Clone, Copy, Debug, PartialEq, Eq, Structural, Default)]
pub struct Modifiers {
    pub alt: bool,
    pub control: bool,
    pub shift: bool,
    /// The "super" key: Windows, Command or Meta.
    pub logo: bool,
}

impl Modifiers {
    /// No modifier held.
    pub fn empty() -> (r: Modifiers)
        ensures
            r.is_none(),
    {
        Modifiers { alt: false, control: false, shift: false, logo: false }
    }

    pub open spec fn is_none(&self) -> bool {
        !self.alt && !self.control && !self.shift && !self.logo
    }

    /// Whether no modifier is held.
    pub fn is_empty(&self) -> (r: bool)
        ensures
            r == self.is_none(),
    {
        !self.alt && !self.control && !self.shift && !self.logo
    }
}

/// The two-letter codes of the held modifiers, in the order alt, control,
/// shift, super.
pub open spec fn modifier_codes(m: Modifiers) -> Seq<Seq<char>> {
    (if m.alt { seq![seq!['A', 'L']] } else { Seq::empty() })
        + (if m.control { seq![seq!['C', 'O']] } else { Seq::empty() })
        + (if m.shift { seq![seq!['S', 'H']] } else { Seq::empty() })
        + (if m.logo { seq![seq!['S', 'U']] } else { Seq::empty() })
}

/// The parts joined with `|` between each two.
pub open spec fn join_bar(parts: Seq<Seq<char>>) -> Seq<char>
    decreases parts.len(),
{
    if parts.len() == 0 {
        Seq::empty()
    } else if parts.len() == 1 {
        parts[0]
    } else {
        join_bar(parts.drop_last()) + seq!['|'] + parts.last()
    }
}

/// The text of a modifier set: `AL|CO|SH|SU` for all four, empty for none.
pub open spec fn modifiers_text(m: Modifiers) -> Seq<char> {
    join_bar(modifier_codes(m))
}

fn push_code(out: &mut String, a: char, b: char, Ghost(parts): Ghost<Seq<Seq<char>>>)
    requires
        old(out)@ == join_bar(parts),
        forall|i: int| 0 <= i < parts.len() ==> (#[trigger] parts[i]).len() == 2,
    ensures
        final(out)@ == join_bar(parts.push(seq![a, b])),
{
    let ghost start = out@;
    let ghost next = parts.push(seq![a, b]);
    assert(next.drop_last() =~= parts);
    proof {
        if parts.len() > 0 {
            assert(parts.last().len() == 2);
            assert(join_bar(parts).len() > 0);
        }
    }
    if out.as_str().is_empty() {
        assert(parts.len() == 0);
    } else {
        push_char(out, '|');
    }
    push_char(out, a);
    push_char(out, b);
    assert(out@ =~= join_bar(next));
}

/// The held modifiers as two-letter codes joined by `|`: `AL`, `CO`, `SH`,
/// `SU`, in that order.
pub fn format_modifiers(modifiers: Modifiers) -> (r: String)
    ensures
        r@ == modifiers_text(modifiers),
{
    let mut string = String::new();
    let ghost mut parts: Seq<Seq<char>> = Seq::empty();
    if modifiers.alt {
        push_code(&mut string, 'A', 'L', Ghost(parts));
        proof { parts = parts.push(seq!['A', 'L']); }
    }
    if modifiers.control {
        push_code(&mut string, 'C', 'O', Ghost(parts));
        proof { parts = parts.push(seq!['C', 'O']); }
    }
    if modifiers.shift {
        push_code(&mut string, 'S', 'H', Ghost(parts));
        proof { parts = parts.push(seq!['S', 'H']); }
    }
    if modifiers.logo {
        push_code(&mut string, 'S', 'U', Ghost(parts));
        proof { parts = parts.push(seq!['S', 'U']); }
    }
    assert(parts =~= modifier_codes(modifiers));
    string
}

/// A platform's own code for a key that has no portable name.
#[derive(Clone, Copy, Debug, PartialEq, Eq, Structural)]
pub enum NativeKeyCode {
    Unidentified,
    Android(u32),
    MacOS(u16),
    Windows(u16),
    Xkb(u32),
}

/// `{:#X}` of `n`: `0x` and the upper-case hexadecimal digits.
pub open spec fn hex_text(n: nat) -> Seq<char> {
    seq!['0', 'x'] + numeral(n, 16)
}

/// The label of a native key code that has a platform name:
/// `Windows(0x1E)`, `MacOS(0x0)`, `XKB(0xFF)`.
pub open spec fn native_key_code_text(code: NativeKeyCode) -> Seq<char> {
    match code {
        NativeKeyCode::Windows(scancode) => "Windows("@ + hex_text(scancode as nat) + seq![')'],
        NativeKeyCode::MacOS(keycode) => "MacOS("@ + hex_text(keycode as nat) + seq![')'],
        NativeKeyCode::Xkb(keycode) => "XKB("@ + hex_text(keycode as nat) + seq![')'],
        _ => Seq::empty(),
    }
}

fn push_hex(out: &mut String, n: u64)
    ensures
        final(out)@ == old(out)@ + hex_text(n as nat),
{
    let ghost start = out@;
    push_char(out, '0');
    push_char(out, 'x');
    push_numeral(out, n, 16);
    assert(out@ =~= start + hex_text(n as nat));
}

/// The label of a Windows, macOS or XKB key code, the number in hexadecimal.
pub fn native_key_code_to_string(native_key_code: NativeKeyCode) -> (r: String)
    requires
        native_key_code is Windows || native_key_code is MacOS || native_key_code is Xkb,
    ensures
        r@ == native_key_code_text(native_key_code),
{
    let mut r = String::new();
    match native_key_code {
        NativeKeyCode::Windows(scancode) => {
            push_text(&mut r, "Windows(");
            push_hex(&mut r, scancode as u64);
        },
        NativeKeyCode::MacOS(keycode) => {
            push_text(&mut r, "MacOS(");
            push_hex(&mut r, keycode as u64);
        },
        NativeKeyCode::Xkb(keycode) => {
            push_text(&mut r, "XKB(");
            push_hex(&mut r, keycode as u64);
        },
        _ => {},
    }
    let ghost before = r@;
    push_char(&mut r, ')');
    assert(r@ =~= before + seq![')']);
    r
}

/// The label of a key without a portable name, given the label of its native
/// code: `Unidentified(<native>)`.
pub fn unidentified_label(native: &str) -> (r: String)
    ensures
        r@ == "Unidentified("@ + native@ + seq![')'],
{
    let mut r = String::new();
    push_text(&mut r, "Unidentified(");
    push_text(&mut r, native);
    push_char(&mut r, ')');
    r
}

/// The label of a key state.
pub open spec fn state_text(pressed: bool) -> Seq<char> {
    if pressed {
        "Pressed"@
    } else {
        "Released"@
    }
}

/// `Pressed` or `Released`.
pub fn state_label(pressed: bool) -> (r: String)
    ensures
        r@ == state_text(pressed),
{
    let mut r = String::new();
    if pressed {
        push_text(&mut r, "Pressed");
    } else {
        push_text(&mut r, "Released");
    }
    r
}

/// `Rpt ` and the count right-aligned in four columns.
pub open spec fn repeat_text(count: nat) -> Seq<char> {
    let digits = numeral(count, 10);
    let pad: nat = if digits.len() < 4 { (4 - digits.len()) as nat } else { 0 };
    "Rpt "@ + spaces(pad) + digits
}

/// The state label of a repeated key: `Rpt    2`, the count right-aligned in
/// four columns.
pub fn repeat_label(count: u64) -> (r: String)
    ensures
        r@ == repeat_text(count as nat),
{
    let mut digits = String::new();
    push_numeral(&mut digits, count, 10);
    let len = digits.as_str().unicode_len();
    let pad: usize = if len < 4 { 4 - len } else { 0 };
    let mut r = String::new();
    push_text(&mut r, "Rpt ");
    push_repeated(&mut r, ' ', pad);
    push_text(&mut r, digits.as_str());
    assert(digits@ =~= numeral(count as nat, 10));
    assert(r@ =~= repeat_text(count as nat));
    r
}

} // verus!
