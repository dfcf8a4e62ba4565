//! Canonical encoding of a block: the JSON object
//! `{"previous":"...","text":"..."}` with the two fields in that fixed
//! order, string contents escaped as JSON requires. The digest of a
//! block is taken over exactly these bytes.

use vstd::prelude::*;
use crate::chain::{Block, BlockModel};
use vstd::utf8::encode_utf8;

verus! {

/// Lower-case hex digit for a nibble, as a byte.
pub open spec fn hex_digit_byte(n: u8) -> u8 {
    if n < 10 {
        (48 + n) as u8
    } else {
        (87 + n) as u8
    }
}

/// Lower-case hex digit for a nibble, as a character.
pub open spec fn hex_digit_char(n: u8) -> char {
    seq!['0', '1', '2', '3', '4', '5', '6', '7', '8', '9', 'a', 'b', 'c', 'd', 'e', 'f'][n as int]
}

/// Lower-case hex rendering of a byte sequence: two digits per byte,
/// high nibble first.
pub open spec fn hex_of(bytes: Seq<u8>) -> Seq<char>
    decreases bytes.len(),
{
    if bytes.len() == 0 {
        Seq::empty()
    } else {
        hex_of(bytes.drop_last()) + seq![
            hex_digit_char(bytes.last() / 16),
            hex_digit_char(bytes.last() % 16),
        ]
    }
}

pub proof fn lemma_hex_of_len(bytes: Seq<u8>)
    ensures
        hex_of(bytes).len() == 2 * bytes.len(),
    decreases bytes.len(),
{
    if bytes.len() > 0 {
        lemma_hex_of_len(bytes.drop_last());
    }
}

/// JSON escape of one byte of string content. All escaped characters
/// are ASCII, so escaping the UTF-8 bytes of a string one by one equals
/// escaping it character by character.
pub open spec fn escape_byte(b: u8) -> Seq<u8> {
    if b == 34 {
        seq![92u8, 34u8]  // \"
    } else if b == 92 {
        seq![92u8, 92u8]  // \\
    } else if b == 8 {
        seq![92u8, 98u8]  // \b
    } else if b == 9 {
        seq![92u8, 116u8]  // \t
    } else if b == 10 {
        seq![92u8, 110u8]  // \n
    } else if b == 12 {
        seq![92u8, 102u8]  // \f
    } else if b == 13 {
        seq![92u8, 114u8]  // \r
    } else if b < 32 {
        seq![92u8, 117u8, 48u8, 48u8, hex_digit_byte(b / 16), hex_digit_byte(b % 16)]  // \u00..
    } else {
        seq![b]
    }
}

/// JSON escape of a whole byte sequence.
pub open spec fn json_escape(bytes: Seq<u8>) -> Seq<u8>
    decreases bytes.len(),
{
    if bytes.len() == 0 {
        Seq::empty()
    } else {
        json_escape(bytes.drop_last()) + escape_byte(bytes.last())
    }
}

/// The bytes `{"previous":"`.
pub open spec fn object_open() -> Seq<u8> {
    seq![123u8, 34u8, 112u8, 114u8, 101u8, 118u8, 105u8, 111u8, 117u8, 115u8, 34u8, 58u8, 34u8]
}

/// The bytes `","text":"`.
pub open spec fn object_mid() -> Seq<u8> {
    seq![34u8, 44u8, 34u8, 116u8, 101u8, 120u8, 116u8, 34u8, 58u8, 34u8]
}

/// The bytes `"}`.
pub open spec fn object_close() -> Seq<u8> {
    seq![34u8, 125u8]
}

/// Canonical encoding of a block: the UTF-8 bytes of the JSON object
/// holding `previous` then `text`, escaped, with no whitespace.
pub open spec fn block_json(b: BlockModel) -> Seq<u8> {
    object_open() + json_escape(encode_utf8(b.previous)) + object_mid() + json_escape(
        encode_utf8(b.text),
    ) + object_close()
}

/// Appends the JSON escape of one byte of string content.
fn push_escaped_byte(out: &mut Vec<u8>, b: u8)
    ensures
        final(out)@ == old(out)@ + escape_byte(b),
{
    if b == 34 {
        out.push(92);
        out.push(34);
    } else if b == 92 {
        out.push(92);
        out.push(92);
    } else if b == 8 {
        out.push(92);
        out.push(98);
    } else if b == 9 {
        out.push(92);
        out.push(116);
    } else if b == 10 {
        out.push(92);
        out.push(110);
    } else if b == 12 {
        out.push(92);
        out.push(102);
    } else if b == 13 {
        out.push(92);
        out.push(114);
    } else if b < 32 {
        out.push(92);
        out.push(117);
        out.push(48);
        out.push(48);
        out.push(if b / 16 < 10 { 48 + b / 16 } else { 87 + b / 16 });
        out.push(if b % 16 < 10 { 48 + b % 16 } else { 87 + b % 16 });
    } else {
        out.push(b);
    }
    proof {
        assert(out@ =~= old(out)@ + escape_byte(b));
    }
}

/// Appends the JSON escape of a string's UTF-8 bytes.
fn append_escaped(out: &mut Vec<u8>, s: &str)
    ensures
        final(out)@ == old(out)@ + json_escape(encode_utf8(s@)),
{
    let bytes: &[u8] = s.as_bytes();
    let n: usize = bytes.len();
    let mut i: usize = 0;
    while i < n
        invariant
            n == bytes@.len(),
            i <= n,
            bytes@ == encode_utf8(s@),
            out@ == old(out)@ + json_escape(bytes@.take(i as int)),
        decreases n - i,
    {
        let b = bytes[i];
        push_escaped_byte(out, b);
        proof {
            assert(bytes@.take(i + 1).drop_last() =~= bytes@.take(i as int));
            assert(bytes@.take(i + 1).last() == b);
        }
        i = i + 1;
    }
    proof {
        assert(bytes@.take(n as int) =~= bytes@);
    }
}

/// Canonical encoding of a block: exactly the bytes described by
/// [`block_json`].
pub fn encoding(block: &Block) -> (r: Vec<u8>)
    ensures
        r@ == block_json(block.deep_view()),
{
    let mut out: Vec<u8> = Vec::new();
    out.push(123);
    out.push(34);
    out.push(112);
    out.push(114);
    out.push(101);
    out.push(118);
    out.push(105);
    out.push(111);
    out.push(117);
    out.push(115);
    out.push(34);
    out.push(58);
    out.push(34);
    proof {
        assert(out@ =~= object_open());
    }
    append_escaped(&mut out, block.previous.as_str());
    let ghost after_previous = out@;
    out.push(34);
    out.push(44);
    out.push(34);
    out.push(116);
    out.push(101);
    out.push(120);
    out.push(116);
    out.push(34);
    out.push(58);
    out.push(34);
    proof {
        assert(out@ =~= after_previous + object_mid());
    }
    append_escaped(&mut out, block.text.as_str());
    out.push(34);
    out.push(125);
    proof {
        assert(out@ =~= block_json(block.deep_view()));
    }
    out
}

} // verus!
