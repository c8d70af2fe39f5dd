//! Text building blocks: decimal and hexadecimal notation, joined lists.

use vstd::prelude::*;

verus! {

/// `String::push` appends one character to the end of the string.
pub assume_specification[ String::push ](s: &mut String, ch: char)
    ensures
        final(s)@ == old(s)@.push(ch),
;

/// The character that stands for one byte: the code point of the same number.
pub open spec fn byte_char(b: u8) -> char {
    b as char
}

/// The characters that stand for a run of bytes, one for one.
pub open spec fn text_of(bytes: Seq<u8>) -> Seq<char> {
    Seq::new(bytes.len(), |k: int| byte_char(bytes[k]))
}

/// The decimal digit `d` as a character.
pub open spec fn digit_char(d: nat) -> char
    recommends
        d < 10,
{
    byte_char((48 + d) as u8)
}

/// Decimal notation of `n`, without leading zeros.
pub open spec fn decimal(n: nat) -> Seq<char>
    decreases n,
{
    if n < 10 {
        seq![digit_char(n)]
    } else {
        decimal(n / 10).push(digit_char(n % 10))
    }
}

/// The hexadecimal digit `d` as a character, letters in upper case.
pub open spec fn hex_char(d: nat) -> char
    recommends
        d < 16,
{
    if d < 10 {
        byte_char((48 + d) as u8)
    } else {
        byte_char((55 + d) as u8)
    }
}

/// A byte as two hexadecimal digits.
pub open spec fn hex_pair(b: u8) -> Seq<char> {
    seq![hex_char((b / 16) as nat), hex_char((b % 16) as nat)]
}

/// The parts in order, with `sep` between each two neighbours.
pub open spec fn joined(parts: Seq<Seq<char>>, sep: Seq<char>) -> Seq<char>
    decreases parts.len(),
{
    if parts.len() == 0 {
        Seq::empty()
    } else if parts.len() == 1 {
        parts[0]
    } else {
        joined(parts.drop_last(), sep) + sep + parts.last()
    }
}

/// The decimal notations of 16-bit numbers.
pub open spec fn decimals16(values: Seq<u16>) -> Seq<Seq<char>> {
    Seq::new(values.len(), |k: int| decimal(values[k] as nat))
}

/// The decimal notations of 8-bit numbers.
pub open spec fn decimals8(values: Seq<u8>) -> Seq<Seq<char>> {
    Seq::new(values.len(), |k: int| decimal(values[k] as nat))
}

/// The separator of parameters in a control sequence.
pub open spec fn semicolon() -> Seq<char> {
    seq![byte_char(0x3B)]
}

/// `joined` grows by the separator and one part when a part is added to a
/// list that is not empty, and by the part alone when it is the first.
pub proof fn lemma_joined_push(parts: Seq<Seq<char>>, sep: Seq<char>, part: Seq<char>)
    ensures
        joined(parts.push(part), sep) == if parts.len() == 0 {
            part
        } else {
            joined(parts, sep) + sep + part
        },
{
    let longer = parts.push(part);
    assert(longer.drop_last() =~= parts);
    assert(longer.last() == part);
    if parts.len() == 0 {
        assert(longer[0] == part);
    }
}

/// Appends the decimal notation of `n`.
pub fn push_decimal(s: &mut String, n: u32)
    ensures
        final(s)@ == old(s)@ + decimal(n as nat),
    decreases n,
{
    if n >= 10 {
        push_decimal(s, n / 10);
    }
    let d: u8 = (n % 10) as u8;
    s.push((48u8 + d) as char);
    proof {
        assert(final(s)@ =~= old(s)@ + decimal(n as nat));
    }
}

/// One hexadecimal digit, letters in upper case.
fn hex_digit(d: u8) -> (c: char)
    requires
        d < 16,
    ensures
        c == hex_char(d as nat),
{
    if d < 10 {
        (48u8 + d) as char
    } else {
        (55u8 + d) as char
    }
}

/// Appends a byte as two hexadecimal digits.
pub fn push_hex_pair(s: &mut String, b: u8)
    ensures
        final(s)@ == old(s)@ + hex_pair(b),
{
    s.push(hex_digit(b / 16));
    s.push(hex_digit(b % 16));
    proof {
        assert(final(s)@ =~= old(s)@ + hex_pair(b));
    }
}

/// Appends 16-bit numbers in decimal notation, separated by semicolons.
pub fn push_decimals16(s: &mut String, values: &Vec<u16>)
    ensures
        final(s)@ == old(s)@ + joined(decimals16(values@), semicolon()),
{
    let mut i: usize = 0;
    while i < values.len()
        invariant
            i <= values.len(),
            s@ == old(s)@ + joined(decimals16(values@.take(i as int)), semicolon()),
        decreases values.len() - i,
    {
        let ghost before = s@;
        if i > 0 {
            s.push(';');
        }
        push_decimal(s, values[i] as u32);
        proof {
            let done = decimals16(values@.take(i as int));
            let part = decimal(values[i as int] as nat);
            assert(decimals16(values@.take(i + 1)) =~= done.push(part));
            lemma_joined_push(done, semicolon(), part);
            if i > 0 {
                assert(s@ =~= before + semicolon() + part);
            }
            assert(s@ =~= old(s)@ + joined(decimals16(values@.take(i + 1)), semicolon()));
        }
        i += 1;
    }
    proof {
        assert(values@.take(i as int) =~= values@);
    }
}

/// Appends 8-bit numbers in decimal notation, separated by semicolons.
pub fn push_decimals8(s: &mut String, values: &Vec<u8>)
    ensures
        final(s)@ == old(s)@ + joined(decimals8(values@), semicolon()),
{
    let mut i: usize = 0;
    while i < values.len()
        invariant
            i <= values.len(),
            s@ == old(s)@ + joined(decimals8(values@.take(i as int)), semicolon()),
        decreases values.len() - i,
    {
        let ghost before = s@;
        if i > 0 {
            s.push(';');
        }
        push_decimal(s, values[i] as u32);
        proof {
            let done = decimals8(values@.take(i as int));
            let part = decimal(values[i as int] as nat);
            assert(decimals8(values@.take(i + 1)) =~= done.push(part));
            lemma_joined_push(done, semicolon(), part);
            if i > 0 {
                assert(s@ =~= before + semicolon() + part);
            }
            assert(s@ =~= old(s)@ + joined(decimals8(values@.take(i + 1)), semicolon()));
        }
        i += 1;
    }
    proof {
        assert(values@.take(i as int) =~= values@);
    }
}

/// The texts that a list of strings holds.
pub open spec fn texts(parts: Seq<String>) -> Seq<Seq<char>> {
    Seq::new(parts.len(), |k: int| parts[k]@)
}

/// Writes the parts in order, with `sep` between each two neighbours.
pub fn join_strings(parts: &Vec<String>, sep: &str) -> (out: String)
    ensures
        out@ == joined(texts(parts@), sep@),
{
    let mut out = String::new();
    let mut i: usize = 0;
    while i < parts.len()
        invariant
            i <= parts.len(),
            out@ == joined(texts(parts@.take(i as int)), sep@),
        decreases parts.len() - i,
    {
        if i > 0 {
            out.append(sep);
        }
        out.append(parts[i].as_str());
        proof {
            let done = texts(parts@.take(i as int));
            let part = parts[i as int]@;
            assert(texts(parts@.take(i + 1)) =~= done.push(part));
            lemma_joined_push(done, sep@, part);
            if i == 0 {
                assert(out@ =~= part);
            }
        }
        i += 1;
    }
    proof {
        assert(parts@.take(i as int) =~= parts@);
    }
    out
}

} // verus!
