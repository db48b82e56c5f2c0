use arm_dcc::{write_fmt, write_fmt_line, Channel, Mode, Phase, Reporter, Writer};

fn zero_extended(bytes: &[u8]) -> Vec<u32> {
    bytes.iter().map(|b| u32::from(*b)).collect()
}

#[test]
fn sink_forwards_fragments_and_always_succeeds() {
    let mut w = Writer::new(Channel::new(Mode::Inline));
    assert_eq!(w.write_str("Hello, "), Ok(()));
    assert_eq!(w.write_str("world!"), Ok(()));
    assert_eq!(w.channel.words, zero_extended("Hello, world!".as_bytes()));
}

#[test]
fn write_fmt_streams_fragments_in_order() {
    // Fragment boundaries come from the caller's formatting machinery and
    // leave no trace in the word stream.
    let mut split = Writer::new(Channel::new(Mode::Inline));
    write_fmt(&mut split, &["answer", " = ", "42"]);
    let mut whole = Writer::new(Channel::new(Mode::Inline));
    write_fmt(&mut whole, &["answer = 42"]);
    assert_eq!(split.channel.words, whole.channel.words);
    assert_eq!(split.channel.words, zero_extended("answer = 42".as_bytes()));
}

#[test]
fn write_fmt_of_no_fragments_sends_nothing() {
    let mut w = Writer::new(Channel::new(Mode::Inline));
    write_fmt(&mut w, &[]);
    assert_eq!(w.channel.words, Vec::<u32>::new());
    assert_eq!(w.channel.polls, 0);
}

#[test]
fn write_fmt_line_appends_one_newline_word() {
    let mut w = Writer::new(Channel::new(Mode::Delegated));
    write_fmt_line(&mut w, &["x: ", "3"]);
    assert_eq!(w.channel.words, zero_extended("x: 3\n".as_bytes()));
}

#[test]
fn write_fmt_line_without_fragments_is_bare_newline() {
    let mut w = Writer::new(Channel::new(Mode::Inline));
    write_fmt_line(&mut w, &[]);
    assert_eq!(w.channel.words, vec![0x0a]);
}

#[test]
fn reporter_transports_payload_then_goes_quiet() {
    let mut r = Reporter::new(Channel::new(Mode::Inline));
    assert_eq!(r.phase, Phase::Running);
    r.report("Oops at line 4");
    assert_eq!(r.phase, Phase::Halted);
    assert_eq!(r.writer.channel.words, zero_extended("Oops at line 4\n".as_bytes()));

    // Idle-loop steady state: no further transport calls ever occur.
    let words_at_halt = r.writer.channel.words.clone();
    let polls_at_halt = r.writer.channel.polls;
    for _ in 0..5 {
        r.idle_step();
        assert_eq!(r.writer.channel.words, words_at_halt);
        assert_eq!(r.writer.channel.polls, polls_at_halt);
        assert_eq!(r.phase, Phase::Halted);
    }
}

#[test]
fn reporter_on_disabled_channel_still_halts() {
    let mut r = Reporter::new(Channel::new(Mode::Disabled));
    r.report("Oops at line 4");
    assert_eq!(r.phase, Phase::Halted);
    assert_eq!(r.writer.channel.words, Vec::<u32>::new());
}
