//! Target strings of the form `session:window.pane`.
//!
//! The multiplexer reads `.` and white space as separators inside a target,
//! so session and window names are stored, compared and addressed in a
//! sanitized form in which each such character is replaced by `-`.
use regex::Regex;
use vstd::prelude::*;
use vstd::string::*;

verus! {

/// The character that stands in for a separator in a sanitized name.
pub open spec fn substitute() -> char {
    '-'
}

/// Unicode `White_Space`, by code point.
pub open spec fn is_white_space(c: char) -> bool {
    let n = c as u32;
    ||| 0x09 <= n <= 0x0d
    ||| n == 0x20
    ||| n == 0x85
    ||| n == 0xa0
    ||| n == 0x1680
    ||| 0x2000 <= n <= 0x200a
    ||| n == 0x2028
    ||| n == 0x2029
    ||| n == 0x202f
    ||| n == 0x205f
    ||| n == 0x3000
}

/// Characters that the target grammar treats as structure: `.` and white space.
pub open spec fn is_separator(c: char) -> bool {
    c == '.' || is_white_space(c)
}

/// A separator gives way to the substitute; any other character stays.
pub open spec fn sanitized_char(c: char) -> char {
    if is_separator(c) {
        substitute()
    } else {
        c
    }
}

/// A name with every separator replaced by the substitute.
pub open spec fn sanitized(name: Seq<char>) -> Seq<char> {
    Seq::new(name.len(), |i: int| sanitized_char(name[i]))
}

/// The pattern of a single separator character.
pub open spec fn separator_pattern() -> Seq<char> {
    "[\\.\\s]"@
}

/// The decimal digit `d`, for `0 <= d <= 9`.
pub open spec fn digit(d: int) -> char {
    if d == 0 {
        '0'
    } else if d == 1 {
        '1'
    } else if d == 2 {
        '2'
    } else if d == 3 {
        '3'
    } else if d == 4 {
        '4'
    } else if d == 5 {
        '5'
    } else if d == 6 {
        '6'
    } else if d == 7 {
        '7'
    } else if d == 8 {
        '8'
    } else {
        '9'
    }
}

/// Decimal digits of a natural number, most significant first.
pub open spec fn decimal_nat(n: nat) -> Seq<char>
    decreases n,
{
    if n < 10 {
        seq![digit(n as int)]
    } else {
        decimal_nat(n / 10).push(digit((n % 10) as int))
    }
}

/// Decimal rendering of an integer, with a leading `-` below zero.
pub open spec fn decimal(n: int) -> Seq<char> {
    if n < 0 {
        seq!['-'] + decimal_nat((-n) as nat)
    } else {
        decimal_nat(n as nat)
    }
}

/// The target string `session:window.pane` over sanitized names.
pub open spec fn address(session: Seq<char>, window: Seq<char>, pane: int) -> Seq<char> {
    sanitized(session) + seq![':'] + sanitized(window) + seq!['.'] + decimal(pane)
}

/// Sanitizing is idempotent: a sanitized name holds no separator, so
/// sanitizing it again changes nothing.
pub proof fn lemma_sanitized_idempotent(name: Seq<char>)
    ensures
        sanitized(sanitized(name)) == sanitized(name),
        forall|i: int| 0 <= i < name.len() ==> !is_separator(#[trigger] sanitized(name)[i]),
{
    assert(sanitized(sanitized(name)) =~= sanitized(name));
}

/// A name and its sanitized form address the same target, so a stored name
/// and the name of a request always meet in one place.
pub proof fn lemma_address_of_sanitized(session: Seq<char>, window: Seq<char>, pane: int)
    ensures
        address(sanitized(session), window, pane) == address(session, window, pane),
        address(session, sanitized(window), pane) == address(session, window, pane),
{
    lemma_sanitized_idempotent(session);
    lemma_sanitized_idempotent(window);
}

/// Calls `regex::Regex::new` on `pattern` and `Regex::replace_all` on `text`
/// with `replacement`. Trusted: for the single-character class
/// `[\.\s]` (a literal dot or a Unicode white-space character) and the
/// replacement `-`, which holds no `$` and is therefore copied literally,
/// every matching character of `text` is replaced and every other character
/// is kept, in order.
#[verifier::external_body]
fn replace_all(pattern: &str, text: &str, replacement: &str) -> (res: String)
    requires
        pattern@ == separator_pattern(),
        replacement@ == seq![substitute()],
    ensures
        res@ == sanitized(text@),
{
    Regex::new(pattern).unwrap().replace_all(text, replacement).into_owned()
}

/// Sanitizes a session or window name for use inside a target.
pub fn clean_for_target(string: &str) -> (res: String)
    ensures
        res@ == sanitized(string@),
{
    proof {
        reveal_strlit("-");
    }
    assert("-"@ =~= seq![substitute()]);
    replace_all("[\\.\\s]", string, "-")
}

fn digit_str(d: u32) -> (res: &'static str)
    requires
        d < 10,
    ensures
        res@ == seq![digit(d as int)],
{
    proof {
        reveal_strlit("0");
        reveal_strlit("1");
        reveal_strlit("2");
        reveal_strlit("3");
        reveal_strlit("4");
        reveal_strlit("5");
        reveal_strlit("6");
        reveal_strlit("7");
        reveal_strlit("8");
        reveal_strlit("9");
    }
    let res = match d {
        0 => "0",
        1 => "1",
        2 => "2",
        3 => "3",
        4 => "4",
        5 => "5",
        6 => "6",
        7 => "7",
        8 => "8",
        _ => "9",
    };
    assert(res@ =~= seq![digit(d as int)]);
    res
}

fn append_decimal_nat(out: &mut String, n: u32)
    ensures
        final(out)@ == old(out)@ + decimal_nat(n as nat),
    decreases n,
{
    if n >= 10 {
        append_decimal_nat(out, n / 10);
    }
    out.append(digit_str(n % 10));
    assert(final(out)@ =~= old(out)@ + decimal_nat(n as nat));
}

/// Builds the target string for a pane of a window of a session. Both names
/// are sanitized on the way in, whatever form they arrive in.
pub fn target(session_name: &str, window_name: &str, pane: i32) -> (res: String)
    ensures
        res@ == address(session_name@, window_name@, pane as int),
{
    proof {
        reveal_strlit(":");
        reveal_strlit(".");
        reveal_strlit("-");
    }
    let mut out = clean_for_target(session_name);
    out.append(":");
    let window = clean_for_target(window_name);
    out.append(window.as_str());
    out.append(".");
    if pane < 0 {
        out.append("-");
        let magnitude: u32 = if pane == i32::MIN {
            2147483648u32
        } else {
            (-pane) as u32
        };
        append_decimal_nat(&mut out, magnitude);
    } else {
        append_decimal_nat(&mut out, pane as u32);
    }
    assert(out@ =~= address(session_name@, window_name@, pane as int));
    out
}

} // verus!
