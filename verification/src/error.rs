//! The crate's own refusals, as stable codes.

use vstd::prelude::*;
use vstd::string::*;

verus! {

/// The decimal digit `d` as a character.
pub open spec fn digit_char(d: nat) -> char {
    if d == 0 { '0' }
    else if d == 1 { '1' }
    else if d == 2 { '2' }
    else if d == 3 { '3' }
    else if d == 4 { '4' }
    else if d == 5 { '5' }
    else if d == 6 { '6' }
    else if d == 7 { '7' }
    else if d == 8 { '8' }
    else { '9' }
}

/// `n` written in decimal, without leading zeros.
pub open spec fn decimal(n: nat) -> Seq<char>
    decreases n,
{
    if n < 10 {
        seq![digit_char(n)]
    } else {
        decimal(n / 10).push(digit_char(n % 10))
    }
}

/// `n` in decimal, padded with leading zeros to at least four digits.
pub open spec fn padded4(n: nat) -> Seq<char> {
    let d = decimal(n);
    if d.len() >= 4 {
        d
    } else {
        Seq::new((4 - d.len()) as nat, |i: int| '0') + d
    }
}

/// The prefix every code of this crate carries.
pub open spec fn mine_prefix() -> Seq<char> {
    seq!['M', 'I', 'N', 'E']
}

/// How a coded message is rendered: `[<prefix><id, four digits>] <message>`.
pub open spec fn rendered(prefix: Seq<char>, id: nat, msg: Seq<char>) -> Seq<char> {
    seq!['['] + prefix + padded4(id) + seq![']', ' '] + msg
}

/// Why this crate refused, as a stable code.
#[derive(Debug, Clone, PartialEq, Eq)]
pub enum MineCode {
    /// A symlink sits at the socket path; it is neither followed nor removed.
    RefusedSymlink {
        /// The path in question.
        path: String,
    },
    /// Something that is not a socket sits at the socket path.
    NotASocket {
        /// The path in question.
        path: String,
    },
    /// A config asked for non-blocking sockets and timeouts at once.
    NonblockingWithTimeout,
    /// A connecting process was not covered by the admit policy.
    PeerRefused {
        /// The peer's effective uid.
        uid: u32,
        /// The peer's effective gid.
        gid: u32,
    },
    /// A datagram went out shorter than the frame.
    ShortDatagram {
        /// Bytes the kernel accepted.
        sent: usize,
        /// Bytes in the frame.
        len: usize,
    },
}

impl MineCode {
    /// The numeric code of each refusal.
    pub open spec fn spec_id(&self) -> nat {
        match self {
            MineCode::RefusedSymlink { .. } => 1,
            MineCode::NotASocket { .. } => 2,
            MineCode::NonblockingWithTimeout => 3,
            MineCode::PeerRefused { .. } => 4,
            MineCode::ShortDatagram { .. } => 5,
        }
    }

    /// The message of each refusal, with its fields filled in.
    pub open spec fn spec_message(&self) -> Seq<char> {
        match self {
            MineCode::RefusedSymlink { path } => "Refusing to unlink a symlink at the socket path "@ + path@,
            MineCode::NotASocket { path } => path@ + " exists and is not a unix socket"@,
            MineCode::NonblockingWithTimeout => "nonblocking is incompatible with read_timeout and write_timeout"@,
            MineCode::PeerRefused { uid, gid } =>
                "Refused connection from uid "@ + decimal(*uid as nat) + " gid "@ + decimal(*gid as nat),
            MineCode::ShortDatagram { sent, len } =>
                "Short datagram send: "@ + decimal(*sent as nat) + " of "@ + decimal(*len as nat) + " bytes"@,
        }
    }

    /// The whole rendering, `[MINE0004] Refused connection from uid 1000 gid 1000`.
    pub open spec fn spec_rendered(&self) -> Seq<char> {
        rendered(mine_prefix(), self.spec_id(), self.spec_message())
    }

    /// The numeric code: 1 to 5.
    pub fn code_id(&self) -> (id: u16)
        ensures
            id == self.spec_id(),
    {
        match self {
            MineCode::RefusedSymlink { .. } => 1,
            MineCode::NotASocket { .. } => 2,
            MineCode::NonblockingWithTimeout => 3,
            MineCode::PeerRefused { .. } => 4,
            MineCode::ShortDatagram { .. } => 5,
        }
    }
}


/// The digit `d` as a one-character string.
fn digit_str(d: u64) -> (s: &'static str)
    requires
        d < 10,
    ensures
        s@ == seq![digit_char(d as nat)],
{
    proof {
        reveal_strlit("0");
        reveal_strlit("1");
        reveal_strlit("2");
        reveal_strlit("3");
        reveal_strlit("4");
        reveal_strlit("5");
        reveal_strlit("6");
        reveal_strlit("7");
        reveal_strlit("8");
        reveal_strlit("9");
    }
    if d == 0 { "0" }
    else if d == 1 { "1" }
    else if d == 2 { "2" }
    else if d == 3 { "3" }
    else if d == 4 { "4" }
    else if d == 5 { "5" }
    else if d == 6 { "6" }
    else if d == 7 { "7" }
    else if d == 8 { "8" }
    else { "9" }
}

/// Append `n` in decimal to `out`.
pub fn push_decimal(out: &mut String, n: u64)
    ensures
        final(out)@ == old(out)@ + decimal(n as nat),
    decreases n,
{
    if n >= 10 {
        push_decimal(out, n / 10);
        out.append(digit_str(n % 10));
        assert(decimal(n as nat) == decimal((n / 10) as nat).push(digit_char((n % 10) as nat)));
    } else {
        out.append(digit_str(n));
    }
}

/// A decimal has at least one digit, and at most `k + 1` when `n < 10^(k+1)`.
pub(crate) proof fn lemma_decimal_len(n: nat)
    ensures
        decimal(n).len() >= 1,
        n < 10 ==> decimal(n).len() == 1,
        n < 100 ==> decimal(n).len() <= 2,
        n < 1000 ==> decimal(n).len() <= 3,
        n >= 10 ==> decimal(n).len() >= 2,
        n >= 100 ==> decimal(n).len() >= 3,
        n >= 1000 ==> decimal(n).len() >= 4,
    decreases n,
{
    if n >= 10 {
        lemma_decimal_len(n / 10);
    }
}

/// The zeros that pad `n` to four digits.
pub open spec fn zero_pad(n: nat) -> Seq<char> {
    let d = decimal(n);
    if d.len() >= 4 {
        Seq::<char>::empty()
    } else {
        Seq::new((4 - d.len()) as nat, |i: int| '0')
    }
}

fn zeros_for(n: u16) -> (s: &'static str)
    ensures
        s@ == zero_pad(n as nat),
{
    proof {
        lemma_decimal_len(n as nat);
        reveal_strlit("000");
        reveal_strlit("00");
        reveal_strlit("0");
        reveal_strlit("");
    }
    if n < 10 {
        assert("000"@ =~= zero_pad(n as nat));
        "000"
    } else if n < 100 {
        assert("00"@ =~= zero_pad(n as nat));
        "00"
    } else if n < 1000 {
        assert("0"@ =~= zero_pad(n as nat));
        "0"
    } else {
        assert(""@ =~= zero_pad(n as nat));
        ""
    }
}

/// Append `n` in decimal, zero-padded to at least four digits.
pub(crate) fn push_padded4(out: &mut String, n: u16)
    ensures
        final(out)@ == old(out)@ + padded4(n as nat),
{
    out.append(zeros_for(n));
    push_decimal(out, n as u64);
    assert(zero_pad(n as nat) + decimal(n as nat) =~= padded4(n as nat));
}

impl MineCode {
    /// The message, with the code's fields filled in.
    pub fn message(&self) -> (s: String)
        ensures
            s@ == self.spec_message(),
    {
        match self {
            MineCode::RefusedSymlink { path } => {
                let mut s = "Refusing to unlink a symlink at the socket path ".to_owned();
                s.append(path.as_str());
                s
            },
            MineCode::NotASocket { path } => {
                let mut s = path.as_str().to_owned();
                s.append(" exists and is not a unix socket");
                s
            },
            MineCode::NonblockingWithTimeout => {
                "nonblocking is incompatible with read_timeout and write_timeout".to_owned()
            },
            MineCode::PeerRefused { uid, gid } => {
                let mut s = "Refused connection from uid ".to_owned();
                push_decimal(&mut s, *uid as u64);
                s.append(" gid ");
                push_decimal(&mut s, *gid as u64);
                s
            },
            MineCode::ShortDatagram { sent, len } => {
                let mut s = "Short datagram send: ".to_owned();
                push_decimal(&mut s, *sent as u64);
                s.append(" of ");
                push_decimal(&mut s, *len as u64);
                s.append(" bytes");
                s
            },
        }
    }

    /// The code as text, `MINE0004`.
    pub fn code(&self) -> (s: String)
        ensures
            s@ == mine_prefix() + padded4(self.spec_id()),
    {
        proof { reveal_strlit("MINE"); }
        let mut s = "MINE".to_owned();
        push_padded4(&mut s, self.code_id());
        s
    }

    /// The whole rendering, `[MINE0004] Refused connection from uid 1000 gid 1000`.
    pub fn render(&self) -> (s: String)
        ensures
            s@ == self.spec_rendered(),
    {
        render_coded(self.code_id(), self.message().as_str())
    }

    /// The rendering, as the error prints.
    pub fn to_string(&self) -> (s: String)
        ensures
            s@ == self.spec_rendered(),
    {
        self.render()
    }
}

/// Render a message under this crate's prefix and the numeric code `id`.
pub fn render_coded(id: u16, msg: &str) -> (s: String)
    ensures
        s@ == rendered(mine_prefix(), id as nat, msg@),
{
    proof {
        reveal_strlit("[MINE");
        reveal_strlit("] ");
    }
    let mut s = "[MINE".to_owned();
    push_padded4(&mut s, id);
    s.append("] ");
    s.append(msg);
    proof {
        assert(s@ =~= rendered(mine_prefix(), id as nat, msg@));
    }
    s
}

/// The class of a refusal, as the caller's I/O error kind names it.
#[derive(Clone, Copy, Debug, PartialEq, Eq, Structural)]
pub enum RefusalKind {
    /// Something is already at the path.
    AlreadyExists,
    /// The request itself is inconsistent.
    InvalidInput,
    /// The peer is not admitted.
    PermissionDenied,
    /// Fewer bytes went out than were handed over.
    WriteZero,
}

/// A refusal: its kind and the code that says why.
#[derive(Debug, Clone, PartialEq, Eq)]
pub struct MineError {
    /// The class of the refusal.
    pub kind: RefusalKind,
    /// Why.
    pub code: MineCode,
}

impl MineError {
    /// The class of the refusal.
    pub fn kind(&self) -> (k: RefusalKind)
        ensures
            k == self.kind,
    {
        self.kind
    }

    /// The rendering of the code, `[MINE0003] nonblocking is incompatible ...`.
    pub fn to_string(&self) -> (s: String)
        ensures
            s@ == self.code.spec_rendered(),
    {
        self.code.render()
    }
}

/// A refusal of `kind` carrying `code`.
pub(crate) fn refuse(kind: RefusalKind, code: MineCode) -> (e: MineError)
    ensures
        e == (MineError { kind, code }),
{
    MineError { kind, code }
}

/// The code inside a refusal.
pub fn code_of(err: &MineError) -> (c: Option<&MineCode>)
    ensures
        c == Some(&err.code),
{
    Some(&err.code)
}

} // verus!
