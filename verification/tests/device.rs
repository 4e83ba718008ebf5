//! Tests against real devices: a pseudo-terminal pair and a pipe.

use nix::pty::openpty;
use nix::sys::termios::{
    tcgetattr, tcsetattr, ControlFlags, InputFlags, LocalFlags, OutputFlags, SetArg,
    SpecialCharacterIndices, Termios,
};
use nix::unistd::pipe;

use ptyrelay::errors::TerminalError;
use ptyrelay::relay::{LineRelay, RelayAction};
use ptyrelay::termmode::{classify_attr_errno, make_raw, TermMode};

fn mode_of(t: &Termios) -> TermMode {
    TermMode {
        iflag: t.input_flags.bits(),
        oflag: t.output_flags.bits(),
        cflag: t.control_flags.bits(),
        lflag: t.local_flags.bits(),
        vmin: t.control_chars[SpecialCharacterIndices::VMIN as usize],
        vtime: t.control_chars[SpecialCharacterIndices::VTIME as usize],
    }
}

fn with_mode(t: &Termios, m: TermMode) -> Termios {
    let mut out = t.clone();
    out.input_flags = InputFlags::from_bits_retain(m.iflag);
    out.output_flags = OutputFlags::from_bits_retain(m.oflag);
    out.control_flags = ControlFlags::from_bits_retain(m.cflag);
    out.local_flags = LocalFlags::from_bits_retain(m.lflag);
    out.control_chars[SpecialCharacterIndices::VMIN as usize] = m.vmin;
    out.control_chars[SpecialCharacterIndices::VTIME as usize] = m.vtime;
    out
}

#[test]
fn pty_pair_carries_bytes_in_order() {
    let pty = openpty(None, None).unwrap();
    let sent: &[u8] = b"abc\n";
    let n = nix::unistd::write(&pty.master, sent).unwrap();
    assert_eq!(n, sent.len());
    let mut buf = [0u8; 64];
    let m = nix::unistd::read(&pty.slave, &mut buf).unwrap();
    assert_eq!(&buf[..m], sent);
}

#[test]
fn relay_emits_one_stripped_line_from_the_slave() {
    let pty = openpty(None, None).unwrap();
    nix::unistd::write(&pty.master, b"hello\n").unwrap();
    let mut buf = [0u8; 64];
    let n = nix::unistd::read(&pty.slave, &mut buf).unwrap();
    let chunk: Vec<u8> = buf[..n].to_vec();
    let mut relay = LineRelay::new();
    match relay.on_read(&chunk) {
        RelayAction::EmitLines(lines) => assert_eq!(lines, vec![b"hello".to_vec()]),
        RelayAction::EndOfStream => panic!("the stream ended on a non-empty read"),
    }
    assert!(relay.finish().is_none());
}

#[test]
fn raw_mode_on_a_real_terminal_is_idempotent() {
    let pty = openpty(None, None).unwrap();
    let initial = tcgetattr(&pty.slave).unwrap();

    let first = with_mode(&initial, make_raw(mode_of(&initial)));
    tcsetattr(&pty.slave, SetArg::TCSANOW, &first).unwrap();
    let after_once = tcgetattr(&pty.slave).unwrap();

    let second = with_mode(&after_once, make_raw(mode_of(&after_once)));
    tcsetattr(&pty.slave, SetArg::TCSANOW, &second).unwrap();
    let after_twice = tcgetattr(&pty.slave).unwrap();

    assert_eq!(mode_of(&after_once), mode_of(&after_twice));
}

#[test]
fn a_pipe_is_not_a_terminal() {
    let (reader, writer) = pipe().unwrap();
    let e = tcgetattr(&writer).unwrap_err();
    assert_eq!(classify_attr_errno(e as i32), TerminalError::NotATerminal);
    drop(reader);
}
