//! The register transport: a blocking single-word handshake against a model
//! of the DCC status/data register pair.

use vstd::prelude::*;

verus! {

/// The build-time transport configuration. Exactly one variant is active per
/// build of the firmware; it is never switched at run time.
///
/// `Inline` and `Delegated` differ only in how the two register operations are
/// emitted (inline coprocessor instructions versus a call into an externally
/// linked routine); they are observably equivalent, and every contract in this
/// crate distinguishes only [`Mode::is_enabled`]. `Disabled` turns every write
/// into a pure no-operation, for targets whose debug channel is absent or
/// unused, where a write would otherwise block forever.
#[derive(Clone, Copy, Debug, PartialEq, Eq)]
pub enum Mode {
    /// The channel is disabled: writes are no-operations.
    Disabled,
    /// Poll and write are issued as inline coprocessor register operations.
    Inline,
    /// Poll and write are performed by an externally supplied routine with
    /// the identical blocking contract.
    Delegated,
}

impl Mode {
    /// Whether this configuration actually drives the hardware.
    pub open spec fn is_enabled(self) -> bool {
        !(self is Disabled)
    }
}

/// The poll counter after one more status read: it saturates at `u64::MAX`
/// instead of wrapping, so an unbounded spin stays well defined.
pub open spec fn polled_once(p: u64) -> u64 {
    if p < u64::MAX {
        (p + 1) as u64
    } else {
        u64::MAX
    }
}

/// A model of the debug channel: the hardware register pair together with the
/// externally visible history of the handshake.
///
/// - `busy` is status-register bit 29: set while the last accepted word has
///   not been drained by the host tool.
/// - `attached` models the host-side consumer: when a host tool is attached it
///   drains every accepted word promptly, so each poll of the status register
///   may observe the busy bit cleared; when no consumer is attached the busy
///   bit, once set, stays set forever.
/// - `words` is the sequence of words accepted by the data register, in
///   acceptance order — exactly the stream an attached host reconstructs.
/// - `polls` counts the status-register reads performed so far; it saturates
///   rather than wrap, so an unbounded spin stays well defined.
pub struct Channel {
    /// The build-time configuration this channel was built with.
    pub mode: Mode,
    /// Whether a host tool is attached and draining accepted words.
    pub attached: bool,
    /// Status-register bit 29: the last accepted word is not yet drained.
    pub busy: bool,
    /// Every word accepted by the data register, in order.
    pub words: Vec<u32>,
    /// How many times the status register has been polled (saturating).
    pub polls: u64,
}

impl Channel {
    /// A freshly powered channel with a host tool attached: the busy bit is
    /// clear and nothing has been transported yet.
    pub fn new(mode: Mode) -> (c: Channel)
        ensures
            c.mode == mode,
            c.attached,
            !c.busy,
            c.words@ == Seq::<u32>::empty(),
            c.polls == 0,
    {
        Channel { mode, attached: true, busy: false, words: Vec::new(), polls: 0 }
    }

    /// A channel in an arbitrary hardware situation, for driving the
    /// transport through states a powered-on channel would only reach with a
    /// particular host behaviour (for instance a permanently set busy bit,
    /// from `attached: false, busy: true`).
    pub fn simulated(mode: Mode, attached: bool, busy: bool) -> (c: Channel)
        ensures
            c.mode == mode,
            c.attached == attached,
            c.busy == busy,
            c.words@ == Seq::<u32>::empty(),
            c.polls == 0,
    {
        Channel { mode, attached, busy, words: Vec::new(), polls: 0 }
    }
}

/// Writes a single word to the DCC, blocking until the hardware has accepted
/// it.
///
/// Under a disabled configuration this is a pure no-operation: it returns at
/// once, polls nothing and changes nothing, whatever the status register
/// holds. Under an enabled configuration it polls the status register until
/// bit 29 reads clear — at least once, with no backoff — then latches the word
/// into the data register, which sets the busy bit again. On return the word
/// has been accepted; there is no acknowledgment that the host has read it.
///
/// On real hardware, if no consumer ever drains the channel while the busy
/// bit is set, the poll loop spins forever: absence of a consumer is never
/// reported as an error, only as indefinite blocking. A call that spins
/// forever never returns, so this blocking entry point demands a situation in
/// which the handshake completes — a clear busy bit, or an attached consumer
/// to clear it; [`write_bounded`] exhibits the endless spin itself, one
/// bounded run of polls at a time.
pub fn write(ch: &mut Channel, word: u32)
    requires
        old(ch).mode.is_enabled() ==> old(ch).attached || !old(ch).busy,
    ensures
        final(ch).mode == old(ch).mode,
        final(ch).attached == old(ch).attached,
        old(ch).mode is Disabled ==> *final(ch) == *old(ch),
        old(ch).mode.is_enabled() ==> {
            &&& final(ch).words@ == old(ch).words@.push(word)
            &&& final(ch).busy
            &&& final(ch).polls == polled_once(old(ch).polls)
        },
{
    match ch.mode {
        Mode::Disabled => {
            return;
        },
        _ => {},
    }
    loop
        invariant_except_break
            ch.attached || !ch.busy,
            ch.polls == old(ch).polls,
        invariant
            old(ch).mode.is_enabled(),
            ch.mode == old(ch).mode,
            ch.attached == old(ch).attached,
            ch.words@ == old(ch).words@,
        ensures
            !ch.busy,
            ch.mode == old(ch).mode,
            ch.attached == old(ch).attached,
            ch.words@ == old(ch).words@,
            ch.polls == polled_once(old(ch).polls),
        decreases (if ch.busy {
            1int
        } else {
            0int
        }),
    {
        // An attached host drains the data register between polls.
        if ch.attached {
            ch.busy = false;
        }
        if ch.polls < u64::MAX {
            ch.polls = ch.polls + 1;
        }
        if !ch.busy {
            break;
        }
    }
    ch.words.push(word);
    ch.busy = true;
}

/// One bounded attempt at the same handshake: polls the status register at
/// most `max_polls` times and gives up, leaving the channel untouched, if the
/// busy bit never reads clear.
///
/// This makes the transport's blocking behaviour observable without blocking:
/// a disabled channel accepts at once with zero polls; an enabled channel
/// whose busy bit is clear, or whose host drains it, accepts after exactly one
/// poll; and a channel whose busy bit is permanently set (set, with no
/// consumer attached) is still spinning after all `max_polls` polls, with
/// nothing transported.
pub fn write_bounded(ch: &mut Channel, word: u32, max_polls: u64) -> (accepted: bool)
    requires
        old(ch).polls + max_polls <= u64::MAX,
    ensures
        final(ch).mode == old(ch).mode,
        final(ch).attached == old(ch).attached,
        old(ch).mode is Disabled ==> accepted && *final(ch) == *old(ch),
        old(ch).mode.is_enabled() ==> {
            if max_polls > 0 && (old(ch).attached || !old(ch).busy) {
                &&& accepted
                &&& final(ch).words@ == old(ch).words@.push(word)
                &&& final(ch).busy
                &&& final(ch).polls == old(ch).polls + 1
            } else {
                &&& !accepted
                &&& final(ch).words@ == old(ch).words@
                &&& final(ch).busy == old(ch).busy
                &&& final(ch).polls == old(ch).polls + max_polls
            }
        },
{
    match ch.mode {
        Mode::Disabled => {
            return true;
        },
        _ => {},
    }
    let mut i: u64 = 0;
    while i < max_polls
        invariant
            old(ch).mode.is_enabled(),
            old(ch).polls + max_polls <= u64::MAX,
            ch.mode == old(ch).mode,
            ch.attached == old(ch).attached,
            ch.busy == old(ch).busy,
            ch.words@ == old(ch).words@,
            i <= max_polls,
            ch.polls == old(ch).polls + i,
            i > 0 ==> old(ch).busy && !old(ch).attached,
        decreases max_polls - i,
    {
        if ch.attached {
            ch.busy = false;
        }
        ch.polls = ch.polls + 1;
        i = i + 1;
        if !ch.busy {
            ch.words.push(word);
            ch.busy = true;
            return true;
        }
    }
    false
}

} // verus!
