//! Raw-mode terminal configuration.
//!
//! A terminal's mode is modelled as the plain flag words and control
//! characters that the configuration logic reads and writes: the input,
//! output, control and local flag words, and the minimum-read and timeout
//! control characters.  The unverified rim queries the device for these
//! values, hands them here, and writes the transformed values back with an
//! apply-now call.  The flag bit values are the conventional ones of Linux
//! terminals.

use vstd::prelude::*;

use crate::errors::TerminalError;

verus! {

/// Input flag: ignore break condition.
pub const IGNBRK: u32 = 0x0000_0001;
/// Input flag: signal interrupt on break.
pub const BRKINT: u32 = 0x0000_0002;
/// Input flag: mark parity errors.
pub const PARMRK: u32 = 0x0000_0008;
/// Input flag: strip the eighth bit.
pub const ISTRIP: u32 = 0x0000_0020;
/// Input flag: map newline to carriage return on input.
pub const INLCR: u32 = 0x0000_0040;
/// Input flag: ignore carriage return on input.
pub const IGNCR: u32 = 0x0000_0080;
/// Input flag: map carriage return to newline on input.
pub const ICRNL: u32 = 0x0000_0100;
/// Input flag: enable output flow control.
pub const IXON: u32 = 0x0000_0400;

/// Output flag: enable output post-processing.
pub const OPOST: u32 = 0x0000_0001;

/// Control flag: character size mask.
pub const CSIZE: u32 = 0x0000_0030;
/// Control flag: eight-bit characters.
pub const CS8: u32 = 0x0000_0030;
/// Control flag: enable parity generation and checking.
pub const PARENB: u32 = 0x0000_0100;

/// Local flag: generate signals from control characters.
pub const ISIG: u32 = 0x0000_0001;
/// Local flag: canonical (line-buffered) input.
pub const ICANON: u32 = 0x0000_0002;
/// Local flag: echo input characters.
pub const ECHO: u32 = 0x0000_0008;
/// Local flag: echo newline even when echo is off.
pub const ECHONL: u32 = 0x0000_0040;
/// Local flag: enable extended input processing.
pub const IEXTEN: u32 = 0x0000_8000;

/// The errno a terminal-attribute call fails with on a descriptor that is
/// not a terminal device.
pub const NOT_A_TTY_ERRNO: i32 = 25;

/// The terminal mode state of a descriptor: the four flag words and the two
/// control characters that raw-mode configuration touches.
#[derive(Clone, Copy, Debug, PartialEq, Eq, Structural)]
pub struct TermMode {
    /// Input processing flags.
    pub iflag: u32,
    /// Output processing flags.
    pub oflag: u32,
    /// Hardware control flags.
    pub cflag: u32,
    /// Local (line discipline) flags.
    pub lflag: u32,
    /// Minimum number of bytes a non-canonical read waits for.
    pub vmin: u8,
    /// Timeout of a non-canonical read, in deciseconds.
    pub vtime: u8,
}

/// The raw mode derived from a terminal mode: every input-processing and
/// output-processing flag cleared, echo, canonical processing, signal
/// generation and extended processing disabled, eight-bit characters
/// without parity, and a non-canonical read returning byte by byte.
pub open spec fn spec_make_raw(m: TermMode) -> TermMode {
    TermMode {
        iflag: 0,
        oflag: 0,
        cflag: (m.cflag & !(CSIZE | PARENB)) | CS8,
        lflag: m.lflag & !(ECHO | ECHONL | ICANON | ISIG | IEXTEN),
        vmin: 1,
        vtime: 0,
    }
}

/// Transform a terminal mode into raw mode.
///
/// The flag manipulation first clears the conventional raw-mode set from
/// each word and then masks the input and output words down to the output
/// post-processing bit; since that bit is itself cleared by the first step,
/// both words come out empty.
pub fn make_raw(m: TermMode) -> (r: TermMode)
    ensures
        r == spec_make_raw(m),
{
    let i0 = m.iflag;
    let o0 = m.oflag;
    let iflag_cleared = i0 & !(IGNBRK | BRKINT | PARMRK | ISTRIP | INLCR | IGNCR | ICRNL | IXON);
    let oflag_cleared = o0 & !OPOST;
    let iflag = iflag_cleared & OPOST;
    let oflag = oflag_cleared & OPOST;
    proof {
        assert((i0 & !(IGNBRK | BRKINT | PARMRK | ISTRIP | INLCR | IGNCR | ICRNL | IXON))
            & OPOST == 0) by (bit_vector);
        assert((o0 & !OPOST) & OPOST == 0) by (bit_vector);
    }
    TermMode {
        iflag,
        oflag,
        cflag: (m.cflag & !(CSIZE | PARENB)) | CS8,
        lflag: m.lflag & !(ECHO | ECHONL | ICANON | ISIG | IEXTEN),
        vmin: 1,
        vtime: 0,
    }
}

/// Law: raw-mode configuration is idempotent.  Applying the transformation
/// to a mode that is already its result changes nothing, so configuring a
/// descriptor twice leaves the same observable mode as configuring it once.
pub proof fn lemma_make_raw_idempotent(m: TermMode)
    ensures
        spec_make_raw(spec_make_raw(m)) == spec_make_raw(m),
{
    let c0 = m.cflag;
    let l0 = m.lflag;
    assert(((((c0 & !(CSIZE | PARENB)) | CS8) & !(CSIZE | PARENB)) | CS8)
        == ((c0 & !(CSIZE | PARENB)) | CS8)) by (bit_vector);
    assert(((l0 & !(ECHO | ECHONL | ICANON | ISIG | IEXTEN))
        & !(ECHO | ECHONL | ICANON | ISIG | IEXTEN))
        == (l0 & !(ECHO | ECHONL | ICANON | ISIG | IEXTEN))) by (bit_vector);
}

/// Classify the errno of a failed terminal-attribute call: the
/// not-a-terminal errno means the descriptor is no terminal device, and any
/// other cause is reported as a failed attribute call.
pub open spec fn spec_classify_attr_errno(errno: i32) -> TerminalError {
    if errno == NOT_A_TTY_ERRNO {
        TerminalError::NotATerminal
    } else {
        TerminalError::IoctlFailed
    }
}

/// Map the errno of a failed terminal-attribute get or set call to the
/// error reported for the connection.
pub fn classify_attr_errno(errno: i32) -> (e: TerminalError)
    ensures
        e == spec_classify_attr_errno(errno),
{
    if errno == NOT_A_TTY_ERRNO {
        TerminalError::NotATerminal
    } else {
        TerminalError::IoctlFailed
    }
}

} // verus!
