//! Terminal mode opcodes for pty-allocation requests.
//!
//! A remote-shell protocol encodes requested terminal modes as a sequence of
//! (opcode byte, value) pairs ended by a terminator byte. This crate owns the
//! opcode vocabulary alone: a closed enumeration of the published opcodes and
//! lossless, panic-free conversion between an opcode and its wire byte.
//! Walking the pair sequence, and the values themselves, belong to the caller.

use vstd::prelude::*;

verus! {

/// The reserved terminator byte marking the end of an encoded-modes list.
/// It is not an opcode: no `Pty` variant has it as its canonical byte.
pub const TTY_OP_END: u8 = 0;

/// Standard pseudo-terminal mode opcodes, one variant per published opcode
/// byte. The set is closed: only these values are constructible, so encoding
/// cannot fail. The terminator byte 0 is deliberately not a variant.
#[allow(non_camel_case_types)]
#[derive(Debug, Copy, Clone, PartialEq, Eq, Structural)]
pub enum Pty {
    /// Interrupt character; 255 if none.
    VINTR,
    /// The quit character (sends SIGQUIT signal on POSIX systems).
    VQUIT,
    /// Erase the character to left of the cursor.
    VERASE,
    /// Kill the current input line.
    VKILL,
    /// End-of-file character (sends EOF from the terminal).
    VEOF,
    /// End-of-line character in addition to carriage return and/or line-feed.
    VEOL,
    /// Additional end-of-line character.
    VEOL2,
    /// Continues paused output (normally control-Q).
    VSTART,
    /// Pauses output (normally control-S).
    VSTOP,
    /// Suspends the current program.
    VSUSP,
    /// Another suspend character.
    VDSUSP,
    /// Reprints the current input line.
    VREPRINT,
    /// Erases a word left of cursor.
    VWERASE,
    /// Enter the next character typed literally, even if it is a special character.
    VLNEXT,
    /// Character to flush output.
    VFLUSH,
    /// Switch to a different shell layer.
    VSWTCH,
    /// Prints system status line (load, command, pid, etc).
    VSTATUS,
    /// Toggles the flushing of terminal output.
    VDISCARD,
    /// The ignore parity flag.
    IGNPAR,
    /// Mark parity and framing errors.
    PARMRK,
    /// Enable checking of parity errors.
    INPCK,
    /// Strip 8th bit off characters.
    ISTRIP,
    /// Map NL into CR on input.
    INLCR,
    /// Ignore CR on input.
    IGNCR,
    /// Map CR to NL on input.
    ICRNL,
    /// Translate uppercase characters to lowercase.
    IUCLC,
    /// Enable output flow control.
    IXON,
    /// Any char will restart after stop.
    IXANY,
    /// Enable input flow control.
    IXOFF,
    /// Ring bell on input queue full.
    IMAXBEL,
    /// I/O uses the UTF-8 character encoding.
    IUTF8,
    /// Enable signals INTR, QUIT, [D]SUSP.
    ISIG,
    /// Canonicalize input lines.
    ICANON,
    /// Enable input and output of uppercase characters by preceding their
    /// lowercase equivalents with "\".
    XCASE,
    /// Enable echoing.
    ECHO,
    /// Visually erase chars.
    ECHOE,
    /// Kill character discards current line.
    ECHOK,
    /// Echo NL even if ECHO is off.
    ECHONL,
    /// Don't flush after interrupt.
    NOFLSH,
    /// Stop background jobs from output.
    TOSTOP,
    /// Enable extensions.
    IEXTEN,
    /// Echo control characters as ^(Char).
    ECHOCTL,
    /// Visual erase for line kill.
    ECHOKE,
    /// Retype pending input.
    PENDIN,
    /// Enable output processing.
    OPOST,
    /// Convert lowercase to uppercase.
    OLCUC,
    /// Map NL to CR-NL.
    ONLCR,
    /// Translate carriage return to newline (output).
    OCRNL,
    /// Translate newline to carriage return-newline (output).
    ONOCR,
    /// Newline performs a carriage return (output).
    ONLRET,
    /// 7-bit mode.
    CS7,
    /// 8-bit mode.
    CS8,
    /// Parity enable.
    PARENB,
    /// Odd parity, else even.
    PARODD,
    /// Specifies the input baud rate in bits per second.
    TTY_OP_ISPEED,
    /// Specifies the output baud rate in bits per second.
    TTY_OP_OSPEED,
}

/// The canonical wire byte of each opcode, exactly as the published protocol
/// numbering assigns it. This table is the single source of truth that both
/// conversion directions are specified against.
pub open spec fn byte_of(p: Pty) -> u8 {
    match p {
        Pty::VINTR => 1,
        Pty::VQUIT => 2,
        Pty::VERASE => 3,
        Pty::VKILL => 4,
        Pty::VEOF => 5,
        Pty::VEOL => 6,
        Pty::VEOL2 => 7,
        Pty::VSTART => 8,
        Pty::VSTOP => 9,
        Pty::VSUSP => 10,
        Pty::VDSUSP => 11,
        Pty::VREPRINT => 12,
        Pty::VWERASE => 13,
        Pty::VLNEXT => 14,
        Pty::VFLUSH => 15,
        Pty::VSWTCH => 16,
        Pty::VSTATUS => 17,
        Pty::VDISCARD => 18,
        Pty::IGNPAR => 30,
        Pty::PARMRK => 31,
        Pty::INPCK => 32,
        Pty::ISTRIP => 33,
        Pty::INLCR => 34,
        Pty::IGNCR => 35,
        Pty::ICRNL => 36,
        Pty::IUCLC => 37,
        Pty::IXON => 38,
        Pty::IXANY => 39,
        Pty::IXOFF => 40,
        Pty::IMAXBEL => 41,
        Pty::IUTF8 => 42,
        Pty::ISIG => 50,
        Pty::ICANON => 51,
        Pty::XCASE => 52,
        Pty::ECHO => 53,
        Pty::ECHOE => 54,
        Pty::ECHOK => 55,
        Pty::ECHONL => 56,
        Pty::NOFLSH => 57,
        Pty::TOSTOP => 58,
        Pty::IEXTEN => 59,
        Pty::ECHOCTL => 60,
        Pty::ECHOKE => 61,
        Pty::PENDIN => 62,
        Pty::OPOST => 70,
        Pty::OLCUC => 71,
        Pty::ONLCR => 72,
        Pty::OCRNL => 73,
        Pty::ONOCR => 74,
        Pty::ONLRET => 75,
        Pty::CS7 => 90,
        Pty::CS8 => 91,
        Pty::PARENB => 92,
        Pty::PARODD => 93,
        Pty::TTY_OP_ISPEED => 128,
        Pty::TTY_OP_OSPEED => 129,
    }
}

/// Whether a byte lies in one of the published opcode ranges: control
/// characters 1-18, input flags 30-42, local flags 50-62, output flags 70-75,
/// control flags 90-93, and the baud-rate markers 128 and 129.
pub open spec fn is_opcode_byte(x: u8) -> bool {
    ||| 1 <= x <= 18
    ||| 30 <= x <= 42
    ||| 50 <= x <= 62
    ||| 70 <= x <= 75
    ||| 90 <= x <= 93
    ||| x == 128
    ||| x == 129
}

/// What decoding a byte must yield: the opcode whose canonical byte it is,
/// or nothing when no opcode is assigned that byte (the terminator 0, every
/// gap between the published ranges, and everything above 129).
pub open spec fn decodes_to(x: u8, r: Option<Pty>) -> bool {
    match r {
        Some(p) => byte_of(p) == x,
        None => forall|p: Pty| byte_of(p) != x,
    }
}

impl Pty {
    /// Decodes a raw wire byte. Returns the opcode whose canonical byte it
    /// is, and `None` both for the terminator byte 0 and for any byte that
    /// no published opcode is assigned; the caller decides how to tell those
    /// two apart. Total over all 256 byte values and never panics.
    pub fn from_u8(x: u8) -> (r: Option<Pty>)
        ensures
            decodes_to(x, r),
    {
        match x {
            1 => Some(Pty::VINTR),
            2 => Some(Pty::VQUIT),
            3 => Some(Pty::VERASE),
            4 => Some(Pty::VKILL),
            5 => Some(Pty::VEOF),
            6 => Some(Pty::VEOL),
            7 => Some(Pty::VEOL2),
            8 => Some(Pty::VSTART),
            9 => Some(Pty::VSTOP),
            10 => Some(Pty::VSUSP),
            11 => Some(Pty::VDSUSP),
            12 => Some(Pty::VREPRINT),
            13 => Some(Pty::VWERASE),
            14 => Some(Pty::VLNEXT),
            15 => Some(Pty::VFLUSH),
            16 => Some(Pty::VSWTCH),
            17 => Some(Pty::VSTATUS),
            18 => Some(Pty::VDISCARD),
            30 => Some(Pty::IGNPAR),
            31 => Some(Pty::PARMRK),
            32 => Some(Pty::INPCK),
            33 => Some(Pty::ISTRIP),
            34 => Some(Pty::INLCR),
            35 => Some(Pty::IGNCR),
            36 => Some(Pty::ICRNL),
            37 => Some(Pty::IUCLC),
            38 => Some(Pty::IXON),
            39 => Some(Pty::IXANY),
            40 => Some(Pty::IXOFF),
            41 => Some(Pty::IMAXBEL),
            42 => Some(Pty::IUTF8),
            50 => Some(Pty::ISIG),
            51 => Some(Pty::ICANON),
            52 => Some(Pty::XCASE),
            53 => Some(Pty::ECHO),
            54 => Some(Pty::ECHOE),
            55 => Some(Pty::ECHOK),
            56 => Some(Pty::ECHONL),
            57 => Some(Pty::NOFLSH),
            58 => Some(Pty::TOSTOP),
            59 => Some(Pty::IEXTEN),
            60 => Some(Pty::ECHOCTL),
            61 => Some(Pty::ECHOKE),
            62 => Some(Pty::PENDIN),
            70 => Some(Pty::OPOST),
            71 => Some(Pty::OLCUC),
            72 => Some(Pty::ONLCR),
            73 => Some(Pty::OCRNL),
            74 => Some(Pty::ONOCR),
            75 => Some(Pty::ONLRET),
            90 => Some(Pty::CS7),
            91 => Some(Pty::CS8),
            92 => Some(Pty::PARENB),
            93 => Some(Pty::PARODD),
            128 => Some(Pty::TTY_OP_ISPEED),
            129 => Some(Pty::TTY_OP_OSPEED),
            _ => None,
        }
    }

    /// Encodes an opcode as its canonical wire byte. Total and pure: the
    /// enumeration is closed, so there is no failure path.
    pub fn encode(self) -> (b: u8)
        ensures
            b == byte_of(self),
    {
        match self {
            Pty::VINTR => 1,
            Pty::VQUIT => 2,
            Pty::VERASE => 3,
            Pty::VKILL => 4,
            Pty::VEOF => 5,
            Pty::VEOL => 6,
            Pty::VEOL2 => 7,
            Pty::VSTART => 8,
            Pty::VSTOP => 9,
            Pty::VSUSP => 10,
            Pty::VDSUSP => 11,
            Pty::VREPRINT => 12,
            Pty::VWERASE => 13,
            Pty::VLNEXT => 14,
            Pty::VFLUSH => 15,
            Pty::VSWTCH => 16,
            Pty::VSTATUS => 17,
            Pty::VDISCARD => 18,
            Pty::IGNPAR => 30,
            Pty::PARMRK => 31,
            Pty::INPCK => 32,
            Pty::ISTRIP => 33,
            Pty::INLCR => 34,
            Pty::IGNCR => 35,
            Pty::ICRNL => 36,
            Pty::IUCLC => 37,
            Pty::IXON => 38,
            Pty::IXANY => 39,
            Pty::IXOFF => 40,
            Pty::IMAXBEL => 41,
            Pty::IUTF8 => 42,
            Pty::ISIG => 50,
            Pty::ICANON => 51,
            Pty::XCASE => 52,
            Pty::ECHO => 53,
            Pty::ECHOE => 54,
            Pty::ECHOK => 55,
            Pty::ECHONL => 56,
            Pty::NOFLSH => 57,
            Pty::TOSTOP => 58,
            Pty::IEXTEN => 59,
            Pty::ECHOCTL => 60,
            Pty::ECHOKE => 61,
            Pty::PENDIN => 62,
            Pty::OPOST => 70,
            Pty::OLCUC => 71,
            Pty::ONLCR => 72,
            Pty::OCRNL => 73,
            Pty::ONOCR => 74,
            Pty::ONLRET => 75,
            Pty::CS7 => 90,
            Pty::CS8 => 91,
            Pty::PARENB => 92,
            Pty::PARODD => 93,
            Pty::TTY_OP_ISPEED => 128,
            Pty::TTY_OP_OSPEED => 129,
        }
    }
}

/// Injectivity: distinct opcodes are assigned distinct canonical bytes, so
/// encoding never confuses two modes on the wire.
pub proof fn lemma_encode_injective(a: Pty, b: Pty)
    requires
        a != b,
    ensures
        byte_of(a) != byte_of(b),
{
}

/// Every canonical byte lies in one of the published opcode ranges; in
/// particular none of them is the terminator 0.
pub proof fn lemma_byte_of_in_range(p: Pty)
    ensures
        is_opcode_byte(byte_of(p)),
        byte_of(p) != TTY_OP_END,
{
}

/// Round trip: decoding the canonical byte of an opcode yields exactly that
/// opcode again. Stated over the decoder's contract: any result admissible
/// for the byte `byte_of(o)` is `Some(o)`.
pub proof fn lemma_round_trip(o: Pty, r: Option<Pty>)
    requires
        decodes_to(byte_of(o), r),
    ensures
        r == Some(o),
{
    match r {
        Some(p) => {
            if p != o {
                lemma_encode_injective(p, o);
            }
        }
        None => {
            assert(byte_of(o) == byte_of(o));
        }
    }
}

/// Determinism: the decoder's contract admits exactly one result per byte,
/// so repeated decodes of the same byte, from any thread, agree.
pub proof fn lemma_decode_deterministic(x: u8, r1: Option<Pty>, r2: Option<Pty>)
    requires
        decodes_to(x, r1),
        decodes_to(x, r2),
    ensures
        r1 == r2,
{
    match (r1, r2) {
        (Some(p1), Some(p2)) => {
            if p1 != p2 {
                lemma_encode_injective(p1, p2);
            }
        }
        (Some(p1), None) => {
            assert(byte_of(p1) == x);
        }
        (None, Some(p2)) => {
            assert(byte_of(p2) == x);
        }
        (None, None) => {}
    }
}

/// Terminator: the byte 0 is assigned to no opcode, so decoding it yields
/// nothing.
pub proof fn lemma_terminator()
    ensures
        decodes_to(TTY_OP_END, None),
{
    assert forall|p: Pty| byte_of(p) != TTY_OP_END by {
        lemma_byte_of_in_range(p);
    }
}

/// Gaps: a byte outside every published range — the terminator 0, each gap
/// between the ranges, and everything above 129 — is assigned to no opcode,
/// so decoding it yields nothing.
pub proof fn lemma_gap_byte(x: u8)
    requires
        !is_opcode_byte(x),
    ensures
        decodes_to(x, None),
{
    assert forall|p: Pty| byte_of(p) != x by {
        lemma_byte_of_in_range(p);
    }
}

/// Coverage: every byte inside the published ranges is the canonical byte of
/// some opcode, so decoding it yields that opcode rather than nothing.
pub proof fn lemma_covered_byte(x: u8)
    requires
        is_opcode_byte(x),
    ensures
        exists|p: Pty| byte_of(p) == x,
{
    if 1 <= x <= 18 {
        if x == 1 { assert(byte_of(Pty::VINTR) == x); }
        if x == 2 { assert(byte_of(Pty::VQUIT) == x); }
        if x == 3 { assert(byte_of(Pty::VERASE) == x); }
        if x == 4 { assert(byte_of(Pty::VKILL) == x); }
        if x == 5 { assert(byte_of(Pty::VEOF) == x); }
        if x == 6 { assert(byte_of(Pty::VEOL) == x); }
        if x == 7 { assert(byte_of(Pty::VEOL2) == x); }
        if x == 8 { assert(byte_of(Pty::VSTART) == x); }
        if x == 9 { assert(byte_of(Pty::VSTOP) == x); }
        if x == 10 { assert(byte_of(Pty::VSUSP) == x); }
        if x == 11 { assert(byte_of(Pty::VDSUSP) == x); }
        if x == 12 { assert(byte_of(Pty::VREPRINT) == x); }
        if x == 13 { assert(byte_of(Pty::VWERASE) == x); }
        if x == 14 { assert(byte_of(Pty::VLNEXT) == x); }
        if x == 15 { assert(byte_of(Pty::VFLUSH) == x); }
        if x == 16 { assert(byte_of(Pty::VSWTCH) == x); }
        if x == 17 { assert(byte_of(Pty::VSTATUS) == x); }
        if x == 18 { assert(byte_of(Pty::VDISCARD) == x); }
    } else if 30 <= x <= 42 {
        if x == 30 { assert(byte_of(Pty::IGNPAR) == x); }
        if x == 31 { assert(byte_of(Pty::PARMRK) == x); }
        if x == 32 { assert(byte_of(Pty::INPCK) == x); }
        if x == 33 { assert(byte_of(Pty::ISTRIP) == x); }
        if x == 34 { assert(byte_of(Pty::INLCR) == x); }
        if x == 35 { assert(byte_of(Pty::IGNCR) == x); }
        if x == 36 { assert(byte_of(Pty::ICRNL) == x); }
        if x == 37 { assert(byte_of(Pty::IUCLC) == x); }
        if x == 38 { assert(byte_of(Pty::IXON) == x); }
        if x == 39 { assert(byte_of(Pty::IXANY) == x); }
        if x == 40 { assert(byte_of(Pty::IXOFF) == x); }
        if x == 41 { assert(byte_of(Pty::IMAXBEL) == x); }
        if x == 42 { assert(byte_of(Pty::IUTF8) == x); }
    } else if 50 <= x <= 62 {
        if x == 50 { assert(byte_of(Pty::ISIG) == x); }
        if x == 51 { assert(byte_of(Pty::ICANON) == x); }
        if x == 52 { assert(byte_of(Pty::XCASE) == x); }
        if x == 53 { assert(byte_of(Pty::ECHO) == x); }
        if x == 54 { assert(byte_of(Pty::ECHOE) == x); }
        if x == 55 { assert(byte_of(Pty::ECHOK) == x); }
        if x == 56 { assert(byte_of(Pty::ECHONL) == x); }
        if x == 57 { assert(byte_of(Pty::NOFLSH) == x); }
        if x == 58 { assert(byte_of(Pty::TOSTOP) == x); }
        if x == 59 { assert(byte_of(Pty::IEXTEN) == x); }
        if x == 60 { assert(byte_of(Pty::ECHOCTL) == x); }
        if x == 61 { assert(byte_of(Pty::ECHOKE) == x); }
        if x == 62 { assert(byte_of(Pty::PENDIN) == x); }
    } else if 70 <= x <= 75 {
        if x == 70 { assert(byte_of(Pty::OPOST) == x); }
        if x == 71 { assert(byte_of(Pty::OLCUC) == x); }
        if x == 72 { assert(byte_of(Pty::ONLCR) == x); }
        if x == 73 { assert(byte_of(Pty::OCRNL) == x); }
        if x == 74 { assert(byte_of(Pty::ONOCR) == x); }
        if x == 75 { assert(byte_of(Pty::ONLRET) == x); }
    } else if 90 <= x <= 93 {
        if x == 90 { assert(byte_of(Pty::CS7) == x); }
        if x == 91 { assert(byte_of(Pty::CS8) == x); }
        if x == 92 { assert(byte_of(Pty::PARENB) == x); }
        if x == 93 { assert(byte_of(Pty::PARODD) == x); }
    } else if x == 128 {
        assert(byte_of(Pty::TTY_OP_ISPEED) == x);
    } else {
        assert(byte_of(Pty::TTY_OP_OSPEED) == x);
    }
}

} // verus!
