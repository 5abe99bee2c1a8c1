//! What the environment says, and what holds where it says nothing.
use crate::text::{decimal, digit};
use vstd::prelude::*;

verus! {

/// The port of the web server, where none is given.
pub const DEFAULT_WEB_PORT: &'static str = "6001";

/// The language of the bot, where none is given.
pub const DEFAULT_LANG: &'static str = "ru";

/// Whether `c` is a decimal digit.
pub open spec fn is_digit(c: char) -> bool {
    '0' <= c && c <= '9'
}

/// Whether `s` is made of decimal digits.
pub open spec fn all_digits(s: Seq<char>) -> bool {
    forall|i: int| 0 <= i < s.len() ==> is_digit(#[trigger] s[i])
}

/// The number that decimal digits stand for.
pub open spec fn number(s: Seq<char>) -> int
    decreases s.len(),
{
    if s.len() == 0 {
        0
    } else {
        number(s.drop_last()) * 10 + (s.last() as int - '0' as int)
    }
}

/// The number that `s` stands for: an optional `+`, and digits, of a value that
/// fits.
pub open spec fn parsed_u16(s: Seq<char>) -> Option<u16> {
    let digits = if s.len() > 0 && s[0] == '+' {
        s.skip(1)
    } else {
        s
    };
    if digits.len() > 0 && all_digits(digits) && number(digits) <= u16::MAX {
        Some(number(digits) as u16)
    } else {
        None
    }
}

/// `<u16 as FromStr>::from_str`: an optional `+`, followed by digits only, of a
/// value that fits.
#[verifier::external_body]
fn parse_u16(s: &str) -> (r: Option<u16>)
    ensures
        r == parsed_u16(s@),
{
    s.parse::<u16>().ok()
}

/// The port of the web server, given the variable that sets it; `None` where
/// that is no port.
pub fn web_port(variable: Option<String>) -> (r: Option<u16>)
    ensures
        r == parsed_u16(
            match variable {
                Some(v) => v@,
                None => DEFAULT_WEB_PORT@,
            },
        ),
        variable matches Some(v) ==> r == parsed_u16(v@),
        variable is None ==> r == Some(6001u16),
{
    proof {
        law_port_by_default();
    }
    match variable {
        Some(v) => parse_u16(v.as_str()),
        None => parse_u16(DEFAULT_WEB_PORT),
    }
}

/// The language of the bot, given the variable that sets it.
pub fn default_lang(variable: Option<String>) -> (r: String)
    ensures
        r@ == (match variable {
            Some(v) => v@,
            None => DEFAULT_LANG@,
        }),
        variable matches Some(v) ==> r@ == v@,
        variable is None ==> r@ == "ru"@,
{
    match variable {
        Some(v) => v,
        None => DEFAULT_LANG.to_string(),
    }
}

proof fn lemma_decimal(n: nat)
    ensures
        decimal(n).len() > 0,
        all_digits(decimal(n)),
        number(decimal(n)) == n,
    decreases n,
{
    if n < 10 {
        let s = seq![digit(n)];
        assert(s.drop_last() =~= seq![]);
        assert(number(s.drop_last()) == 0);
    } else {
        lemma_decimal(n / 10);
        let s = decimal(n);
        assert(s.drop_last() =~= decimal(n / 10));
        assert forall|i: int| 0 <= i < s.len() implies is_digit(#[trigger] s[i]) by {
            if i < s.len() - 1 {
                assert(decimal(n / 10)[i] == s[i]);
            }
        }
    }
}

/// A port is read as it is written.
pub proof fn law_port_round_trip(port: u16)
    ensures
        parsed_u16(decimal(port as nat)) == Some(port),
{
    lemma_decimal(port as nat);
    assert(is_digit(decimal(port as nat)[0]));
}

/// Where no port is given, the port is 6001.
pub proof fn law_port_by_default()
    ensures
        parsed_u16(DEFAULT_WEB_PORT@) == Some(6001u16),
{
    reveal_strlit("6001");
    let s = DEFAULT_WEB_PORT@;
    assert(s =~= seq!['6', '0', '0', '1']);
    assert(s.drop_last() =~= seq!['6', '0', '0']);
    assert(seq!['6', '0', '0'].drop_last() =~= seq!['6', '0']);
    assert(seq!['6', '0'].drop_last() =~= seq!['6']);
    assert(seq!['6'].drop_last() =~= seq![]);
    reveal_with_fuel(number, 6);
}

} // verus!
