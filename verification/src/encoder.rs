//! The byte/string encoder: expands a byte sequence into one register write
//! per byte, and writes text as its raw byte encoding.

use vstd::prelude::*;

use crate::transport::Channel;
use vstd::string::StringSliceAdditionalSpecFns;
use vstd::utf8::encode_utf8;

verus! {

/// The word the transport carries for one byte: the byte zero-extended to 32
/// bits, its value in the low 8 bits and the high 24 bits zero.
pub open spec fn word_of_byte(b: u8) -> u32 {
    b as u32
}

/// The word sequence the transport carries for a byte sequence: exactly one
/// word per byte, each byte zero-extended, in the same order as the bytes.
pub open spec fn words_of_bytes(bs: Seq<u8>) -> Seq<u32> {
    Seq::new(bs.len(), |i: int| word_of_byte(bs[i]))
}

/// Writes the bytes to the DCC, each as one blocking word transfer, strictly
/// left to right — no reordering, no batching, no buffering and no
/// truncation. The host reconstructs the byte stream in arrival order, so
/// this ordering is the entire correctness contract.
///
/// Each byte blocks until accepted, so past the first byte the handshake can
/// only complete with an attached consumer draining the channel.
pub fn write_all(ch: &mut Channel, bytes: &[u8])
    requires
        old(ch).mode.is_enabled() ==> old(ch).attached || (!old(ch).busy && bytes@.len() <= 1),
    ensures
        final(ch).mode == old(ch).mode,
        final(ch).attached == old(ch).attached,
        old(ch).mode is Disabled ==> *final(ch) == *old(ch),
        old(ch).mode.is_enabled() ==> {
            &&& final(ch).words@ == old(ch).words@ + words_of_bytes(bytes@)
            &&& (bytes@.len() == 0 ==> *final(ch) == *old(ch))
            &&& (bytes@.len() > 0 ==> final(ch).busy)
        },
{
    let n = bytes.len();
    let mut idx: usize = 0;
    while idx < n
        invariant
            n == bytes@.len(),
            idx <= n,
            ch.mode == old(ch).mode,
            ch.attached == old(ch).attached,
            old(ch).mode.is_enabled() ==> old(ch).attached || (!old(ch).busy && n <= 1),
            old(ch).mode is Disabled ==> *ch == *old(ch),
            old(ch).mode.is_enabled() ==> {
                &&& ch.words@ == old(ch).words@ + words_of_bytes(bytes@.take(idx as int))
                &&& (idx == 0 ==> *ch == *old(ch))
                &&& (idx > 0 ==> ch.busy)
            },
        decreases n - idx,
    {
        let b = bytes[idx];
        crate::transport::write(ch, b as u32);
        proof {
            assert(bytes@.take(idx + 1).drop_last() =~= bytes@.take(idx as int));
            assert(words_of_bytes(bytes@.take(idx + 1)) =~= words_of_bytes(
                bytes@.take(idx as int),
            ).push(word_of_byte(bytes@[idx as int])));
        }
        idx = idx + 1;
    }
    proof {
        assert(bytes@.take(n as int) =~= bytes@);
    }
}

/// Writes the text to the DCC as its raw byte encoding — its UTF-8 bytes,
/// with no escaping, no length prefix and no terminator. The word sequence is
/// exactly the one [`write_all`] produces for those bytes.
pub fn write_str(ch: &mut Channel, s: &str)
    requires
        old(ch).mode.is_enabled() ==> old(ch).attached || (!old(ch).busy && encode_utf8(s@).len()
            <= 1),
    ensures
        final(ch).mode == old(ch).mode,
        final(ch).attached == old(ch).attached,
        old(ch).mode is Disabled ==> *final(ch) == *old(ch),
        old(ch).mode.is_enabled() ==> {
            &&& final(ch).words@ == old(ch).words@ + words_of_bytes(encode_utf8(s@))
            &&& (encode_utf8(s@).len() == 0 ==> *final(ch) == *old(ch))
            &&& (encode_utf8(s@).len() > 0 ==> final(ch).busy)
        },
{
    write_all(ch, s.as_bytes());
}

/// The string path is a pure composition on top of the byte path: the word
/// sequence for a text string is exactly the word sequence for its raw bytes,
/// with no extra framing.
pub proof fn lemma_string_words_are_byte_words(s: &str)
    ensures
        words_of_bytes(encode_utf8(s@)) == words_of_bytes(s.spec_bytes()),
{
}

/// Writes a single bare newline: exactly one word transfer, carrying the
/// newline byte `0x0a` zero-extended and nothing else.
pub fn newline(ch: &mut Channel)
    requires
        old(ch).mode.is_enabled() ==> old(ch).attached || !old(ch).busy,
    ensures
        final(ch).mode == old(ch).mode,
        final(ch).attached == old(ch).attached,
        old(ch).mode is Disabled ==> *final(ch) == *old(ch),
        old(ch).mode.is_enabled() ==> {
            &&& final(ch).words@ == old(ch).words@.push(0x0au32)
            &&& final(ch).busy
        },
{
    crate::transport::write(ch, 0x0a);
}

/// Writes the text followed by a single trailing newline byte: the word
/// sequence for the text's raw bytes, then the newline word.
pub fn write_line(ch: &mut Channel, s: &str)
    requires
        old(ch).mode.is_enabled() ==> old(ch).attached || (!old(ch).busy && encode_utf8(s@).len()
            == 0),
    ensures
        final(ch).mode == old(ch).mode,
        final(ch).attached == old(ch).attached,
        old(ch).mode is Disabled ==> *final(ch) == *old(ch),
        old(ch).mode.is_enabled() ==> {
            &&& final(ch).words@ == (old(ch).words@ + words_of_bytes(encode_utf8(s@))).push(
                0x0au32,
            )
            &&& final(ch).busy
        },
{
    write_str(ch, s);
    newline(ch);
}

} // verus!
