//! Text that can be read back.

use crate::network_link::session::{endpoint_text, failure_text};
use crate::text::{byte_text, bytes_text, decimal, digit_char, hex2, hex4};
use vstd::prelude::*;

verus! {

/// What a digit stands for: `0` to `9`, and `A` to `F` for ten to fifteen.
pub open spec fn digit_value(c: char) -> int {
    if '0' <= c && c <= '9' {
        c as int - '0' as int
    } else if 'A' <= c && c <= 'F' {
        10 + (c as int - 'A' as int)
    } else {
        -1
    }
}

/// The number that is written in the given base.
pub open spec fn number_value(text: Seq<char>, base: int) -> int
    decreases text.len(),
{
    if text.len() == 0 {
        0
    } else {
        base * number_value(text.drop_last(), base) + digit_value(text.last())
    }
}

/// Each number below sixteen has a digit of its own.
pub proof fn law_digits(n: int)
    requires
        0 <= n < 16,
    ensures
        digit_value(digit_char(n)) == n,
{
}

/// A number in decimal reads back as the number, and has no leading zero.
pub proof fn law_decimal_reads_back(n: nat)
    ensures
        number_value(decimal(n), 10) == n,
        decimal(n).len() > 0,
        decimal(n).len() == 1 || decimal(n)[0] != '0',
        forall|i: int| 0 <= i < decimal(n).len() ==> '0' <= #[trigger] decimal(n)[i] <= '9',
    decreases n,
{
    if n < 10 {
        assert(decimal(n).drop_last() =~= Seq::<char>::empty());
        assert(number_value(decimal(n).drop_last(), 10) == 0);
    } else {
        law_decimal_reads_back(n / 10);
        let head = decimal(n / 10);
        assert(decimal(n).drop_last() =~= head);
        assert(decimal(n)[0] == head[0]);
        if head.len() == 1 {
            assert(head.drop_last() =~= Seq::<char>::empty());
            assert(digit_value(head[0]) == n / 10) by {
                assert(number_value(head, 10) == 10 * number_value(head.drop_last(), 10)
                    + digit_value(head.last()));
                assert(number_value(head.drop_last(), 10) == 0);
            }
        }
    }
}

/// A byte has two hexadecimal digits, and a word four.
pub proof fn law_hexadecimal_reads_back(byte: u8, word: u16)
    ensures
        hex2(byte).len() == 2,
        16 * digit_value(hex2(byte)[0]) + digit_value(hex2(byte)[1]) == byte,
        hex4(word).len() == 4,
        0x1000 * digit_value(hex4(word)[0]) + 0x100 * digit_value(hex4(word)[1]) + 0x10
            * digit_value(hex4(word)[2]) + digit_value(hex4(word)[3]) == word,
        forall|i: int| 0 <= i < 2 ==> 0 <= digit_value(#[trigger] hex2(byte)[i]) < 16,
        forall|i: int| 0 <= i < 4 ==> 0 <= digit_value(#[trigger] hex4(word)[i]) < 16,
{
    assert(hex2(byte)[0] == digit_char(byte as int / 16));
    assert(hex2(byte)[1] == digit_char(byte as int % 16));
    let high = (word as int / 0x100) as u8;
    let low = (word as int % 0x100) as u8;
    assert(hex4(word)[0] == digit_char(high as int / 16));
    assert(hex4(word)[1] == digit_char(high as int % 16));
    assert(hex4(word)[2] == digit_char(low as int / 16));
    assert(hex4(word)[3] == digit_char(low as int % 16));
}

/// Output of the serial port: a character of ASCII from the space to the tilde
/// stands for itself, any other byte for a backslash, an `x` and its two
/// hexadecimal digits; and nothing comes between bytes.
pub proof fn law_serial_output(data: Seq<u8>, byte: u8)
    ensures
        bytes_text(Seq::<u8>::empty()) == Seq::<char>::empty(),
        bytes_text(data.push(byte)).take(bytes_text(data).len() as int) == bytes_text(data),
        ' ' as int <= byte <= '~' as int ==> bytes_text(data.push(byte)).len() == bytes_text(
            data,
        ).len() + 1 && bytes_text(data.push(byte)).last() as int == byte,
        !(' ' as int <= byte <= '~' as int) ==> {
            let text = bytes_text(data.push(byte)).skip(bytes_text(data).len() as int);
            &&& text.len() == 4
            &&& text[0] == '\\'
            &&& text[1] == 'x'
            &&& 0 <= digit_value(text[2]) < 16
            &&& 0 <= digit_value(text[3]) < 16
            &&& 16 * digit_value(text[2]) + digit_value(text[3]) == byte
        },
{
    let longer = data.push(byte);
    assert(longer.drop_last() =~= data);
    assert(longer.last() == byte);
    let text = bytes_text(longer);
    assert(text == bytes_text(data) + byte_text(byte));
    assert(text.take(bytes_text(data).len() as int) =~= bytes_text(data));
    assert(text.skip(bytes_text(data).len() as int) =~= byte_text(byte));
}

/// An endpoint is written as the host, a colon and the port in decimal.
pub proof fn law_endpoint(host: Seq<char>, port: u16)
    ensures
        endpoint_text(host, port).len() > host.len() + 1,
        endpoint_text(host, port).take(host.len() as int) == host,
        endpoint_text(host, port)[host.len() as int] == ':',
        number_value(endpoint_text(host, port).skip(host.len() as int + 1), 10) == port,
{
    reveal_strlit(":");
    law_decimal_reads_back(port as nat);
    assert(endpoint_text(host, port).take(host.len() as int) =~= host);
    assert(endpoint_text(host, port).skip(host.len() as int + 1) =~= decimal(port as nat));
}

/// A failed connection is reported with its endpoint, the number of attempts,
/// at least one, and what went wrong last.
pub proof fn law_failure(endpoint: Seq<char>, attempts: u32, detail: Seq<char>)
    ensures
        failure_text(endpoint, attempts, Some(detail)) == "Connection to "@ + endpoint
            + " failed after "@ + decimal(
            if attempts > 1 {
                attempts as nat
            } else {
                1
            },
        ) + " attempt(s): "@ + detail,
        failure_text(endpoint, attempts, None) == failure_text(
            endpoint,
            attempts,
            Some("timed out while waiting for peer"@),
        ),
        failure_text(endpoint, 0, Some(detail)) == failure_text(endpoint, 1, Some(detail)),
{
}

} // verus!
