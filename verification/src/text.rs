//! The diagnostic messages the decoders put in their I/O errors, and the
//! decimal numbers and legacy server-list line they are built from.
use vstd::prelude::*;

verus! {

/// The ASCII digit for `d < 10`.
pub open spec fn digit_char(d: nat) -> char {
    (('0' as u32) + d) as char
}

/// The decimal digits of `n`, as the integers' `Display` writes them.
pub open spec fn decimal(n: nat) -> Seq<char>
    decreases n,
{
    if n < 10 {
        seq![digit_char(n)]
    } else {
        decimal(n / 10).push(digit_char(n % 10))
    }
}

/// The one-digit string of `d`.
fn digit_str(d: u64) -> (r: &'static str)
    requires
        d < 10,
    ensures
        r@ == seq![digit_char(d as nat)],
{
    proof {
        reveal_strlit("0");
        reveal_strlit("1");
        reveal_strlit("2");
        reveal_strlit("3");
        reveal_strlit("4");
        reveal_strlit("5");
        reveal_strlit("6");
        reveal_strlit("7");
        reveal_strlit("8");
        reveal_strlit("9");
    }
    let r = match d {
        0 => "0",
        1 => "1",
        2 => "2",
        3 => "3",
        4 => "4",
        5 => "5",
        6 => "6",
        7 => "7",
        8 => "8",
        _ => "9",
    };
    assert(r@ =~= seq![digit_char(d as nat)]);
    r
}

/// `n` written in decimal.
pub fn decimal_string(n: u64) -> (r: String)
    ensures
        r@ == decimal(n as nat),
    decreases n,
{
    if n < 10 {
        String::from_str(digit_str(n))
    } else {
        let mut s = decimal_string(n / 10);
        s.append(digit_str(n % 10));
        s
    }
}

/// `"Need {n} bytes, have {have}"`.
pub(crate) fn need_have_message(n: usize, have: usize) -> (r: String)
    ensures
        r@ == "Need "@ + decimal(n as nat) + " bytes, have "@ + decimal(have as nat),
{
    let mut s = String::from_str("Need ");
    s.append(decimal_string(n as u64).as_str());
    s.append(" bytes, have ");
    s.append(decimal_string(have as u64).as_str());
    s
}

/// `"need {n} bytes, only {have} remaining"`.
pub(crate) fn need_remaining_message(n: usize, have: usize) -> (r: String)
    ensures
        r@ == "need "@ + decimal(n as nat) + " bytes, only "@ + decimal(have as nat) + " remaining"@,
{
    let mut s = String::from_str("need ");
    s.append(decimal_string(n as u64).as_str());
    s.append(" bytes, only ");
    s.append(decimal_string(have as u64).as_str());
    s.append(" remaining");
    s
}

/// `"Missing bytes for {ctx}"`.
pub(crate) fn missing_bytes_message(ctx: &str) -> (r: String)
    ensures
        r@ == "Missing bytes for "@ + ctx@,
{
    let mut s = String::from_str("Missing bytes for ");
    s.append(ctx);
    s
}

/// `"Invalid UTF-8 in {ctx}"`.
pub(crate) fn invalid_utf8_message(ctx: &str) -> (r: String)
    ensures
        r@ == "Invalid UTF-8 in "@ + ctx@,
{
    let mut s = String::from_str("Invalid UTF-8 in ");
    s.append(ctx);
    s
}

/// The fields of a legacy server-list answer, each after a NUL, behind the
/// `§1` marker.
pub(crate) fn legacy_motd_line(protocol: &str, version: &str, motd: &str, players: &str, max_players: &str) -> (r: String)
    ensures
        r@ == "\u{a7}1\0"@ + protocol@ + "\0"@ + version@ + "\0"@ + motd@ + "\0"@ + players@ + "\0"@
            + max_players@,
{
    let mut s = String::from_str("\u{a7}1\0");
    s.append(protocol);
    s.append("\0");
    s.append(version);
    s.append("\0");
    s.append(motd);
    s.append("\0");
    s.append(players);
    s.append("\0");
    s.append(max_players);
    s
}

} // verus!
