use arm_dcc::transport;
use arm_dcc::{Channel, Mode};

#[test]
fn write_latches_word() {
    let mut ch = Channel::new(Mode::Inline);
    transport::write(&mut ch, 0xDEAD_BEEF);
    assert_eq!(ch.words, vec![0xDEAD_BEEF]);
    assert!(ch.busy);
    assert_eq!(ch.polls, 1);
}

#[test]
fn write_accepts_every_word_value() {
    let mut ch = Channel::new(Mode::Delegated);
    transport::write(&mut ch, 0);
    transport::write(&mut ch, u32::MAX);
    transport::write(&mut ch, 1 << 29);
    assert_eq!(ch.words, vec![0, u32::MAX, 1 << 29]);
}

#[test]
fn disabled_write_is_a_no_op_even_when_busy() {
    // No-op configuration: the call returns immediately regardless of the
    // status register's content, with zero blocking iterations.
    let mut ch = Channel::simulated(Mode::Disabled, false, true);
    transport::write(&mut ch, 42);
    assert_eq!(ch.words, Vec::<u32>::new());
    assert_eq!(ch.polls, 0);
    assert!(ch.busy);
}

#[test]
fn disabled_bounded_write_polls_nothing() {
    let mut ch = Channel::simulated(Mode::Disabled, true, false);
    let accepted = transport::write_bounded(&mut ch, 42, 1_000);
    assert!(accepted);
    assert_eq!(ch.polls, 0);
    assert_eq!(ch.words, Vec::<u32>::new());
}

#[test]
fn stuck_busy_bit_spins_forever() {
    // Busy bit permanently set, no consumer: after N polls the transport is
    // still spinning and nothing has been accepted.
    let mut ch = Channel::simulated(Mode::Inline, false, true);
    let accepted = transport::write_bounded(&mut ch, 7, 1_000);
    assert!(!accepted);
    assert_eq!(ch.polls, 1_000);
    assert_eq!(ch.words, Vec::<u32>::new());
    assert!(ch.busy);

    // Keep spinning: still no progress after many more polls.
    let accepted = transport::write_bounded(&mut ch, 7, 100_000);
    assert!(!accepted);
    assert_eq!(ch.polls, 101_000);
    assert_eq!(ch.words, Vec::<u32>::new());
}

#[test]
fn detached_channel_accepts_one_word_then_sticks() {
    let mut ch = Channel::simulated(Mode::Inline, false, false);
    let accepted = transport::write_bounded(&mut ch, 1, 10);
    assert!(accepted);
    assert_eq!(ch.words, vec![1]);
    assert!(ch.busy);
    // Nobody drains the first word, so the second never goes through.
    let accepted = transport::write_bounded(&mut ch, 2, 10);
    assert!(!accepted);
    assert_eq!(ch.words, vec![1]);
}

#[test]
fn bounded_write_accepts_after_one_poll() {
    let mut ch = Channel::new(Mode::Inline);
    let accepted = transport::write_bounded(&mut ch, 9, 5);
    assert!(accepted);
    assert_eq!(ch.polls, 1);
    assert_eq!(ch.words, vec![9]);
}

#[test]
fn bounded_write_with_zero_polls_gives_up() {
    let mut ch = Channel::new(Mode::Inline);
    let accepted = transport::write_bounded(&mut ch, 9, 0);
    assert!(!accepted);
    assert_eq!(ch.words, Vec::<u32>::new());
    assert_eq!(ch.polls, 0);
}

#[test]
fn inline_and_delegated_modes_are_equivalent() {
    let mut a = Channel::new(Mode::Inline);
    let mut b = Channel::new(Mode::Delegated);
    for word in [3u32, 1 << 29, 0, 77] {
        transport::write(&mut a, word);
        transport::write(&mut b, word);
    }
    assert_eq!(a.words, b.words);
    assert_eq!(a.busy, b.busy);
    assert_eq!(a.polls, b.polls);
}
