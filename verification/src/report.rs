//! The panic reporter: on an unrecoverable fault it transports one final
//! diagnostic line over the debug channel, best-effort, and then parks the
//! processor forever.

use vstd::prelude::*;

use crate::encoder::words_of_bytes;
use crate::fmtsink::Writer;
use crate::transport::Channel;
use vstd::utf8::encode_utf8;

verus! {

/// The reporter's lifecycle. The only transitions are `Running` to `Faulted`,
/// exactly once, when the runtime's fault handler invokes the reporter, and
/// `Faulted` to `Halted` once the diagnostic is out; `Halted` is terminal.
#[derive(Clone, Copy, Debug, PartialEq, Eq)]
pub enum Phase {
    /// No fault yet: the reporter has not been invoked.
    Running,
    /// A fault has arrived and its diagnostic is being reported.
    Faulted,
    /// Terminal: control never leaves the idle loop, and no software-visible
    /// state changes again.
    Halted,
}

/// The panic reporter. It is invoked at most once, with the formatted
/// diagnostic payload (message and source location, where available); it
/// writes the payload and a terminating newline through the formatter sink,
/// and then only idles.
pub struct Reporter {
    /// Where the reporter stands in its `Running -> Faulted -> Halted` life.
    pub phase: Phase,
    /// The sink the diagnostic is written through.
    pub writer: Writer,
}

impl Reporter {
    /// A reporter over the given channel, not yet invoked.
    pub fn new(channel: Channel) -> (r: Reporter)
        ensures
            r.phase is Running,
            r.writer.channel == channel,
    {
        Reporter { phase: Phase::Running, writer: Writer::new(channel) }
    }

    /// Handles the fatal fault: transports exactly the payload's bytes
    /// followed by a single newline byte, then halts. Reporting is
    /// best-effort — the sink's always-Ok result is discarded, never
    /// escalated, and a disabled channel swallows the text — and halting is
    /// unconditional: the reporter ends `Halted` whatever the channel did.
    pub fn report(&mut self, payload: &str)
        requires
            old(self).phase is Running,
            old(self).writer.channel.mode.is_enabled() ==> old(self).writer.channel.attached || (
            !old(self).writer.channel.busy && encode_utf8(payload@).len() == 0),
        ensures
            final(self).phase is Halted,
            final(self).writer.channel.mode == old(self).writer.channel.mode,
            final(self).writer.channel.attached == old(self).writer.channel.attached,
            old(self).writer.channel.mode is Disabled ==> final(self).writer.channel == old(
                self,
            ).writer.channel,
            old(self).writer.channel.mode.is_enabled() ==> final(self).writer.channel.words@ == (
            old(self).writer.channel.words@ + words_of_bytes(encode_utf8(payload@))).push(0x0au32),
    {
        self.phase = Phase::Faulted;
        crate::encoder::write_line(&mut self.writer.channel, payload);
        self.phase = Phase::Halted;
    }

    /// One iteration of the terminal idle loop. On hardware every iteration
    /// carries a compiler-visible barrier so an optimizing compiler cannot
    /// collapse the loop into anything that terminates; what the iteration
    /// observably does is captured here: nothing — in particular, the halted
    /// reporter never reaches the transport again.
    pub fn idle_step(&mut self)
        requires
            old(self).phase is Halted,
        ensures
            *final(self) == *old(self),
    {
    }
}

} // verus!
