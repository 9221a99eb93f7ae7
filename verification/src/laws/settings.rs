//! Which texts are ports, and which is the address.
use std::num::ParseIntError;

use vstd::prelude::*;

use crate::config::{decimal_value, digits, get_ip, get_port, is_decimal, port_of};

verus! {

/// The digit that a character is.
pub open spec fn digit_of(character: char) -> int {
    character as int - '0' as int
}

/// Whether a character is a decimal digit.
pub open spec fn is_digit(character: char) -> bool {
    '0' <= character && character <= '9'
}

/// The address is the one that was set, or else that of every interface.
pub proof fn address_is_as_set(server_addr: Option<String>, ip: String)
    requires
        call_ensures(get_ip, (server_addr,), ip),
    ensures
        server_addr matches Some(text) ==> ip@ == text@,
        server_addr is None ==> ip@ == "0.0.0.0"@,
{
}

/// The port is the one that was set, which must be a port, or else 3000.
pub proof fn port_is_as_set(server_port: Option<String>, port: Result<u16, ParseIntError>)
    requires
        call_ensures(get_port, (server_port,), port),
    ensures
        server_port is None ==> (port matches Ok(number) && number == 3000),
        server_port matches Some(text) ==> (port is Ok <==> port_of(text@) is Some),
        server_port matches Some(text) ==> (port matches Ok(number) ==> port_of(text@) == Some(
            number,
        )),
{
}

/// The empty text and a lone plus sign are no ports, and a single digit is the
/// port of its value.
pub proof fn short_texts_as_ports(character: char)
    ensures
        port_of(Seq::empty()) is None,
        port_of(seq!['+']) is None,
        is_digit(character) ==> (port_of(seq![character]) matches Some(port) && port as int
            == digit_of(character)),
{
    assert(digits(Seq::<char>::empty()).len() == 0);
    assert(digits(seq!['+']).len() == 0);
    if is_digit(character) {
        let text = seq![character];
        assert(digits(text) == text);
        reveal_with_fuel(decimal_value, 2);
        assert(text.drop_last().len() == 0);
        assert(is_decimal(text));
    }
}

/// One more digit makes ten times the port, and the digit, where that is still a
/// port.
pub proof fn one_more_digit(text: Seq<char>, port: u16, character: char)
    requires
        port_of(text) == Some(port),
    ensures
        is_digit(character) ==> match port_of(text.push(character)) {
            Some(longer) => longer as int == 10 * port + digit_of(character),
            None => 10 * port + digit_of(character) > 65535,
        },
        !is_digit(character) ==> port_of(text.push(character)) is None,
{
    let longer = text.push(character);
    let number = digits(text);
    assert(digits(longer) =~= number.push(character));
    assert(number.push(character).drop_last() =~= number);
    if is_digit(character) {
        assert(is_decimal(number.push(character)));
    } else {
        assert(number.push(character)[number.len() as int] == character);
    }
}

/// A text that is no port does not become one by more characters at its end,
/// but for the empty text and a lone plus sign.
pub proof fn no_port_stays_none(text: Seq<char>, character: char)
    requires
        port_of(text) is None,
        text.len() > 0,
        text != seq!['+'],
    ensures
        port_of(text.push(character)) is None,
{
    let longer = text.push(character);
    let number = digits(text);
    assert(digits(longer) =~= number.push(character));
    assert(number.push(character).drop_last() =~= number);
    if number.len() == 0 {
        assert(text =~= seq!['+']);
    }
    if is_decimal(number.push(character)) {
        assert forall|i: int| 0 <= i < number.len() implies '0' <= #[trigger] number[i] <= '9' by {
            assert(number.push(character)[i] == number[i]);
        }
        assert(is_decimal(number));
    }
}

/// A leading plus sign changes nothing of a text that does not start with one,
/// and a text with two is no port.
pub proof fn leading_plus_changes_nothing(text: Seq<char>)
    ensures
        text.len() > 0 && text[0] != '+' ==> port_of(seq!['+'] + text) == port_of(text),
        text.len() > 0 && text[0] == '+' ==> port_of(seq!['+'] + text) is None,
{
    let signed = seq!['+'] + text;
    assert(signed.drop_first() =~= text);
    assert(digits(signed) == text);
    if text.len() > 0 && text[0] == '+' {
        assert(!is_decimal(text));
    }
}

} // verus!
