use std::num::ParseIntError;

use vstd::prelude::*;

verus! {

/// Why a text is not an integer.
#[verifier::external_type_specification]
#[verifier::external_body]
pub struct ExParseIntError(ParseIntError);

/// The digits of a text: what follows an optional leading plus sign.
pub open spec fn digits(text: Seq<char>) -> Seq<char> {
    if text.len() > 0 && text[0] == '+' {
        text.drop_first()
    } else {
        text
    }
}

/// Whether a text consists of decimal digits, at least one.
pub open spec fn is_decimal(text: Seq<char>) -> bool {
    &&& text.len() > 0
    &&& forall|i: int| 0 <= i < text.len() ==> '0' <= #[trigger] text[i] <= '9'
}

/// The number that a text of decimal digits stands for.
pub open spec fn decimal_value(text: Seq<char>) -> nat
    decreases text.len(),
{
    if text.len() == 0 {
        0
    } else {
        10 * decimal_value(text.drop_last()) + (text.last() as nat - '0' as nat) as nat
    }
}

/// The port that a text names, if it names one.
pub open spec fn port_of(text: Seq<char>) -> Option<u16> {
    if is_decimal(digits(text)) && decimal_value(digits(text)) <= u16::MAX {
        Some(decimal_value(digits(text)) as u16)
    } else {
        None
    }
}

/// `str::parse::<u16>`: an optional plus sign and decimal digits give their
/// value where it fits into 16 bits; every other text is an error. Which
/// error it is stays unsaid.
#[verifier::external_body]
fn parse_u16(text: &str) -> (number: Result<u16, ParseIntError>)
    ensures
        match number {
            Ok(number) => port_of(text@) == Some(number),
            Err(_) => port_of(text@) is None,
        },
{
    text.parse::<u16>()
}

/// The text of an optional setting, or its default.
pub open spec fn setting(value: Option<String>, default: Seq<char>) -> Seq<char> {
    match value {
        Some(text) => text@,
        None => default,
    }
}

/// The address on which the service listens: that of the setting, or else
/// every address of the machine.
pub fn get_ip(server_addr: Option<String>) -> (ip: String)
    ensures
        ip@ == setting(server_addr, "0.0.0.0"@),
        match server_addr {
            Some(text) => ip@ == text@,
            None => ip@ == "0.0.0.0"@,
        },
{
    match server_addr {
        Some(text) => text,
        None => "0.0.0.0".to_string(),
    }
}

/// The port on which the service listens: that of the setting, which must be
/// a port, or else 3000.
pub fn get_port(server_port: Option<String>) -> (port: Result<u16, ParseIntError>)
    ensures
        match port {
            Ok(port) => port_of(setting(server_port, "3000"@)) == Some(port),
            Err(_) => port_of(setting(server_port, "3000"@)) is None,
        },
        server_port is None ==> (port matches Ok(port) && port == 3000),
        server_port matches Some(text) ==> match port {
            Ok(port) => port_of(text@) == Some(port),
            Err(_) => port_of(text@) is None,
        },
{
    proof {
        reveal_strlit("3000");
        reveal_with_fuel(decimal_value, 5);
        let text = "3000"@;
        assert(text.drop_last().drop_last().drop_last().drop_last().len() == 0);
        assert(port_of(text) == Some(3000u16));
    }
    match server_port {
        Some(text) => parse_u16(text.as_str()),
        None => parse_u16("3000"),
    }
}

} // verus!
