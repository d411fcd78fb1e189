//! The status line that is sent to the video players when a key is pressed.
use vstd::prelude::*;
use vstd::string::StringExecFns;

verus! {

/// The name that evdev gives a key code when it prints it.
pub uninterp spec fn key_name_of(code: u16) -> Seq<char>;

/// Relies on evdev's `Debug` for `Key`: the constant's name for a known
/// code, `unknown key: <code>` otherwise; either way a function of the code.
#[verifier::external_body]
fn key_name(code: u16) -> (r: String)
    ensures
        r@ == key_name_of(code),
{
    format!("{:?}", evdev::Key::new(code))
}

/// The character of a decimal digit.
pub open spec fn digit_char(d: nat) -> char
    recommends
        d < 10,
{
    (('0' as u32) + d) as char
}

/// The decimal notation of `n`, without leading zeros.
pub open spec fn decimal(n: nat) -> Seq<char>
    decreases n,
{
    if n < 10 {
        seq![digit_char(n)]
    } else {
        decimal(n / 10) + seq![digit_char(n % 10)]
    }
}

/// The command that shows `name`, the code in decimal and the phase on screen.
pub open spec fn status_of(code: u16, name: Seq<char>) -> Seq<char> {
    "show-text \""@ + name + " "@ + decimal(code as nat) + " Pressed\"\n"@
}

fn digit_str(d: u16) -> (r: &'static str)
    requires
        d < 10,
    ensures
        r@ == seq![digit_char(d as nat)],
{
    proof {
        reveal_strlit("0");
        reveal_strlit("1");
        reveal_strlit("2");
        reveal_strlit("3");
        reveal_strlit("4");
        reveal_strlit("5");
        reveal_strlit("6");
        reveal_strlit("7");
        reveal_strlit("8");
        reveal_strlit("9");
    }
    match d {
        0 => "0",
        1 => "1",
        2 => "2",
        3 => "3",
        4 => "4",
        5 => "5",
        6 => "6",
        7 => "7",
        8 => "8",
        _ => "9",
    }
}

/// Appends the decimal notation of `n` to `s`.
pub fn append_decimal(s: &mut String, n: u16)
    ensures
        final(s)@ == old(s)@ + decimal(n as nat),
    decreases n,
{
    if n < 10 {
        s.append(digit_str(n));
    } else {
        append_decimal(s, n / 10);
        s.append(digit_str(n % 10));
        assert(final(s)@ == old(s)@ + decimal(n as nat)) by {
            assert(decimal(n as nat) == decimal((n / 10) as nat) + seq![digit_char((n % 10) as nat)]);
        }
    }
}

/// The status command for `code`, given the key's printed name.
pub fn status_text(code: u16, name: &str) -> (r: String)
    ensures
        r@ == status_of(code, name@),
{
    proof {
        reveal_strlit("show-text \"");
        reveal_strlit(" ");
        reveal_strlit(" Pressed\"\n");
    }
    let mut s = String::from_str("show-text \"");
    s.append(name);
    s.append(" ");
    append_decimal(&mut s, code);
    s.append(" Pressed\"\n");
    s
}

/// The status command that is broadcast when the key `code` is pressed.
pub fn status_message(code: u16) -> (r: String)
    ensures
        r@ == status_of(code, key_name_of(code)),
{
    let name = key_name(code);
    status_text(code, name.as_str())
}

} // verus!
