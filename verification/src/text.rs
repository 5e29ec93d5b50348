//! Text for people: numbers, bytes and the output of the serial port.

use vstd::prelude::*;

verus! {

/// `String::push` of std appends the given character.
pub assume_specification[ String::push ](s: &mut String, c: char)
    ensures
        final(s)@ == old(s)@.push(c),
;

/// The character of a digit below sixteen, in upper case.
pub open spec fn digit_char(digit: int) -> char {
    if digit < 10 {
        (0x30 + digit) as char
    } else {
        (0x41 + digit - 10) as char
    }
}

/// A number in decimal digits, without leading zeros.
pub open spec fn decimal(n: nat) -> Seq<char>
    decreases n,
{
    if n < 10 {
        seq![digit_char(n as int)]
    } else {
        decimal(n / 10).push(digit_char(n as int % 10))
    }
}

fn digit(n: u8) -> (c: char)
    requires
        n < 16,
    ensures
        c == digit_char(n as int),
{
    if n < 10 {
        (0x30 + n) as char
    } else {
        (0x41 + (n - 10)) as char
    }
}

/// Append a number in decimal.
pub fn push_decimal(out: &mut String, n: u64)
    ensures
        final(out)@ == old(out)@ + decimal(n as nat),
    decreases n,
{
    if n >= 10 {
        push_decimal(out, n / 10);
    }
    out.push(digit((n % 10) as u8));
    proof {
        assert(out@ =~= old(out)@ + decimal(n as nat));
    }
}

/// A byte in two hexadecimal digits.
pub open spec fn hex2(n: u8) -> Seq<char> {
    seq![digit_char(n as int / 16), digit_char(n as int % 16)]
}

/// A word in four hexadecimal digits.
pub open spec fn hex4(n: u16) -> Seq<char> {
    hex2((n as int / 0x100) as u8) + hex2((n as int % 0x100) as u8)
}

/// Append a byte in two hexadecimal digits.
pub fn push_hex2(out: &mut String, n: u8)
    ensures
        final(out)@ == old(out)@ + hex2(n),
{
    out.push(digit(n / 16));
    out.push(digit(n % 16));
    proof {
        assert(out@ =~= old(out)@ + hex2(n));
    }
}

/// Append a word in four hexadecimal digits.
pub fn push_hex4(out: &mut String, n: u16)
    ensures
        final(out)@ == old(out)@ + hex4(n),
{
    push_hex2(out, (n / 0x100) as u8);
    push_hex2(out, (n % 0x100) as u8);
    proof {
        assert(out@ =~= old(out)@ + hex4(n));
    }
}

/// Whether a byte is printed as it is: a visible ASCII character or a space.
pub open spec fn is_printable(b: u8) -> bool {
    0x20 <= b <= 0x7E
}

/// How a byte is printed: as it is, or as `\xNN` with two upper-case digits.
pub open spec fn byte_text(b: u8) -> Seq<char> {
    if is_printable(b) {
        seq![b as char]
    } else {
        seq!['\\', 'x', digit_char(b as int / 16), digit_char(b as int % 16)]
    }
}

/// How bytes are printed, one after the other.
pub open spec fn bytes_text(data: Seq<u8>) -> Seq<char>
    decreases data.len(),
{
    if data.len() == 0 {
        Seq::empty()
    } else {
        bytes_text(data.drop_last()) + byte_text(data.last())
    }
}

/// The output of the serial port, as it is logged.
pub fn format_serial_bytes(data: &[u8]) -> (out: String)
    ensures
        out@ == bytes_text(data@),
{
    let mut out = String::new();
    let mut i: usize = 0;
    while i < data.len()
        invariant
            i <= data.len(),
            out@ == bytes_text(data@.subrange(0, i as int)),
        decreases data.len() - i,
    {
        let b: u8 = data[i];
        let ghost before = out@;
        if b >= 0x20 && b <= 0x7E {
            out.push(b as char);
        } else {
            out.push('\\');
            out.push('x');
            out.push(digit(b / 16));
            out.push(digit(b % 16));
        }
        proof {
            assert(out@ =~= before + byte_text(b));
            let next = data@.subrange(0, i + 1);
            assert(next.drop_last() =~= data@.subrange(0, i as int));
            assert(next.last() == b);
        }
        i = i + 1;
    }
    proof {
        assert(data@.subrange(0, i as int) =~= data@);
    }
    out
}

/// Text of two stretches of output is the text of the first followed by that
/// of the second.
pub proof fn law_bytes_text_concatenates(a: Seq<u8>, b: Seq<u8>)
    ensures
        bytes_text(a + b) == bytes_text(a) + bytes_text(b),
    decreases b.len(),
{
    if b.len() == 0 {
        assert(a + b =~= a);
        assert(bytes_text(a) + bytes_text(b) =~= bytes_text(a));
    } else {
        law_bytes_text_concatenates(a, b.drop_last());
        assert((a + b).drop_last() =~= a + b.drop_last());
        assert(bytes_text(a + b) =~= bytes_text(a) + bytes_text(b));
    }
}

/// Whatever was sent, its text is printable ASCII.
pub proof fn law_bytes_text_is_printable(data: Seq<u8>)
    ensures
        forall|i: int|
            0 <= i < bytes_text(data).len() ==> 0x20 <= #[trigger] bytes_text(data)[i] as int <= 0x7E,
    decreases data.len(),
{
    if data.len() != 0 {
        law_bytes_text_is_printable(data.drop_last());
        let head = bytes_text(data.drop_last());
        let tail = byte_text(data.last());
        assert forall|i: int| 0 <= i < bytes_text(data).len() implies 0x20 <= #[trigger] bytes_text(
            data,
        )[i] as int <= 0x7E by {
            if i < head.len() {
                assert(bytes_text(data)[i] == head[i]);
            } else {
                assert(bytes_text(data)[i] == tail[i - head.len()]);
            }
        }
    }
}

} // verus!
