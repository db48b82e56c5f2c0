//! The formatter adapter: a sink that streams text fragments straight to the
//! encoder, presenting an always-successful result to the formatting
//! machinery so that formatted output needs no intermediate buffer.

use vstd::prelude::*;

use crate::encoder::words_of_bytes;
use crate::transport::Channel;
use vstd::utf8::encode_utf8;

verus! {

/// The word sequence for a run of text fragments: the words of each
/// fragment's raw bytes, concatenated in fragment order. Fragment boundaries
/// leave no trace in the word stream.
pub open spec fn words_of_fragments(frags: Seq<&str>) -> Seq<u32>
    decreases frags.len(),
{
    if frags.len() == 0 {
        Seq::empty()
    } else {
        words_of_fragments(frags.drop_last()) + words_of_bytes(encode_utf8(frags.last()@))
    }
}

/// The sink capability the text-formatting machinery writes through: every
/// fragment it is handed is forwarded immediately to the string encoder. On
/// the hardware this sink is zero-sized — the registers are the only state —
/// whereas this model carries the channel it drives.
pub struct Writer {
    /// The channel every fragment is forwarded to.
    pub channel: Channel,
}

impl Writer {
    /// A sink over the given channel.
    pub fn new(channel: Channel) -> (w: Writer)
        ensures
            w.channel == channel,
    {
        Writer { channel }
    }

    /// Forwards one text fragment to the channel. The `Result` is demanded by
    /// the formatting interface; the underlying write never fails, so the
    /// call always succeeds and callers discard the value.
    pub fn write_str(&mut self, s: &str) -> (r: Result<(), ()>)
        requires
            old(self).channel.mode.is_enabled() ==> old(self).channel.attached || (!old(
                self,
            ).channel.busy && encode_utf8(s@).len() <= 1),
        ensures
            r is Ok,
            final(self).channel.mode == old(self).channel.mode,
            final(self).channel.attached == old(self).channel.attached,
            old(self).channel.mode is Disabled ==> *final(self) == *old(self),
            old(self).channel.mode.is_enabled() ==> {
                &&& final(self).channel.words@ == old(self).channel.words@ + words_of_bytes(
                    encode_utf8(s@),
                )
                &&& (encode_utf8(s@).len() == 0 ==> *final(self) == *old(self))
            },
    {
        crate::encoder::write_str(&mut self.channel, s);
        Ok(())
    }
}

/// Streams a run of already-formatted text fragments to the sink, one
/// [`Writer::write_str`] per fragment in order, discarding each always-Ok
/// result. The fragments are whatever the caller's formatting machinery
/// chose to flush; their boundaries do not affect the word stream.
pub fn write_fmt(w: &mut Writer, fragments: &[&str])
    requires
        old(w).channel.mode.is_enabled() ==> old(w).channel.attached || (!old(w).channel.busy
            && fragments@.len() == 0),
    ensures
        final(w).channel.mode == old(w).channel.mode,
        final(w).channel.attached == old(w).channel.attached,
        old(w).channel.mode is Disabled ==> *final(w) == *old(w),
        old(w).channel.mode.is_enabled() ==> {
            &&& final(w).channel.words@ == old(w).channel.words@ + words_of_fragments(fragments@)
            &&& (fragments@.len() == 0 ==> *final(w) == *old(w))
        },
{
    let n = fragments.len();
    let mut idx: usize = 0;
    while idx < n
        invariant
            n == fragments@.len(),
            idx <= n,
            w.channel.mode == old(w).channel.mode,
            w.channel.attached == old(w).channel.attached,
            old(w).channel.mode.is_enabled() ==> old(w).channel.attached || (!old(w).channel.busy
                && n == 0),
            old(w).channel.mode is Disabled ==> *w == *old(w),
            old(w).channel.mode.is_enabled() ==> {
                &&& w.channel.words@ == old(w).channel.words@ + words_of_fragments(
                    fragments@.take(idx as int),
                )
                &&& (idx == 0 ==> *w == *old(w))
            },
        decreases n - idx,
    {
        let frag = fragments[idx];
        let _ = w.write_str(frag);
        proof {
            assert(fragments@.take(idx + 1).drop_last() =~= fragments@.take(idx as int));
        }
        idx = idx + 1;
    }
    proof {
        assert(fragments@.take(n as int) =~= fragments@);
    }
}

/// Streams a run of formatted fragments and then a single trailing newline
/// byte: the word sequence of the fragments, followed by the newline word.
pub fn write_fmt_line(w: &mut Writer, fragments: &[&str])
    requires
        old(w).channel.mode.is_enabled() ==> old(w).channel.attached || (!old(w).channel.busy
            && fragments@.len() == 0),
    ensures
        final(w).channel.mode == old(w).channel.mode,
        final(w).channel.attached == old(w).channel.attached,
        old(w).channel.mode is Disabled ==> *final(w) == *old(w),
        old(w).channel.mode.is_enabled() ==> {
            &&& final(w).channel.words@ == (old(w).channel.words@ + words_of_fragments(
                fragments@,
            )).push(0x0au32)
            &&& final(w).channel.busy
        },
{
    write_fmt(w, fragments);
    crate::encoder::newline(&mut w.channel);
}

} // verus!
