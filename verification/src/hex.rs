//! The text form of a byte sequence: each byte as two upper-case hexadecimal
//! digits, the bytes separated by a comma and a blank, the whole in square
//! brackets. Four bytes read `[04, 03, 02, 01]`; no bytes read `[]`.

use vstd::prelude::*;

verus! {

/// The upper-case hexadecimal digit for a value below 16.
pub open spec fn hex_digit(nibble: nat) -> char
    recommends
        nibble < 16,
{
    if nibble < 10 {
        ('0' as nat + nibble) as char
    } else {
        ('A' as nat + nibble - 10) as char
    }
}

/// The two digits of a byte, high nibble first.
pub open spec fn hex_pair(byte: u8) -> Seq<char> {
    seq![hex_digit(byte as nat / 16), hex_digit(byte as nat % 16)]
}

/// The digit pairs of `bytes` in order, with `", "` between neighbours.
pub open spec fn hex_items(bytes: Seq<u8>) -> Seq<char>
    decreases bytes.len(),
{
    if bytes.len() == 0 {
        Seq::empty()
    } else if bytes.len() == 1 {
        hex_pair(bytes[0])
    } else {
        hex_items(bytes.drop_last()) + seq![',', ' '] + hex_pair(bytes.last())
    }
}

/// The text form of `bytes`.
pub open spec fn hex_list(bytes: Seq<u8>) -> Seq<char> {
    seq!['['] + hex_items(bytes) + seq![']']
}

/// The text of `n` bytes has two brackets, two digits for each byte and two
/// separator characters between neighbours.
pub proof fn lemma_hex_list_len(bytes: Seq<u8>)
    ensures
        hex_items(bytes).len() == if bytes.len() == 0 {
            0
        } else {
            4 * bytes.len() - 2
        },
        hex_list(bytes).len() == hex_items(bytes).len() + 2,
    decreases bytes.len(),
{
    if bytes.len() > 1 {
        lemma_hex_list_len(bytes.drop_last());
    }
}

/// The upper-case hexadecimal digit for `nibble`.
pub fn hex_char(nibble: u8) -> (c: char)
    requires
        nibble < 16,
    ensures
        c == hex_digit(nibble as nat),
{
    if nibble < 10 {
        ('0' as u8 + nibble) as char
    } else {
        ('A' as u8 + (nibble - 10)) as char
    }
}

/// Renders `bytes` as text.
pub fn format_bytes(bytes: &Vec<u8>) -> (text: String)
    ensures
        text@ == hex_list(bytes@),
{
    let mut text: String = String::new();
    text.push('[');
    let mut i: usize = 0;
    while i < bytes.len()
        invariant
            i <= bytes@.len(),
            text@ == seq!['['] + hex_items(bytes@.take(i as int)),
        decreases bytes@.len() - i,
    {
        let byte: u8 = bytes[i];
        if i > 0 {
            text.push(',');
            text.push(' ');
        }
        text.push(hex_char(byte / 16));
        text.push(hex_char(byte % 16));
        proof {
            assert(bytes@.take(i + 1).drop_last() =~= bytes@.take(i as int));
        }
        i = i + 1;
    }
    text.push(']');
    proof {
        assert(bytes@.take(bytes@.len() as int) =~= bytes@);
    }
    text
}

} // verus!
