//! Fixed-width command frames, the commands they carry, and the replies.

use vstd::prelude::*;

verus! {

/// Width in bytes of every request frame.
pub const FRAME_LEN: usize = 20;

/// A decoded request.
#[derive(Debug, Clone, PartialEq, Eq)]
pub enum Command {
    Req1,
    Enqueue,
    Close,
    /// Anything else, holding the frame's text without its padding.
    Unrecognized(Vec<u8>),
}

/// The mathematical value of a [`Command`].
pub enum CommandView {
    Req1,
    Enqueue,
    Close,
    Unrecognized(Seq<u8>),
}

impl View for Command {
    type V = CommandView;

    open spec fn view(&self) -> CommandView {
        match self {
            Command::Req1 => CommandView::Req1,
            Command::Enqueue => CommandView::Enqueue,
            Command::Close => CommandView::Close,
            Command::Unrecognized(t) => CommandView::Unrecognized(t@),
        }
    }
}

/// `req1`
pub open spec fn req1_text() -> Seq<u8> {
    seq![114u8, 101, 113, 49]
}

/// `enqueue`
pub open spec fn enqueue_text() -> Seq<u8> {
    seq![101u8, 110, 113, 117, 101, 117, 101]
}

/// `close`
pub open spec fn close_text() -> Seq<u8> {
    seq![99u8, 108, 111, 115, 101]
}

/// `ans1`
pub open spec fn answer_text() -> Seq<u8> {
    seq![97u8, 110, 115, 49]
}

/// `Queued`
pub open spec fn queued_text() -> Seq<u8> {
    seq![81u8, 117, 101, 117, 101, 100]
}

/// `Terminating`
pub open spec fn terminating_text() -> Seq<u8> {
    seq![84u8, 101, 114, 109, 105, 110, 97, 116, 105, 110, 103]
}

/// `Nope`
pub open spec fn refusal_text() -> Seq<u8> {
    seq![78u8, 111, 112, 101]
}

/// The frame's bytes with every trailing NUL removed.
pub open spec fn stripped(f: Seq<u8>) -> Seq<u8>
    decreases f.len(),
{
    if f.len() > 0 && f.last() == 0 {
        stripped(f.drop_last())
    } else {
        f
    }
}

/// The command a frame carries: its stripped text compared byte for byte with
/// the known names.
pub open spec fn command_of(f: Seq<u8>) -> CommandView {
    let t = stripped(f);
    if t == req1_text() {
        CommandView::Req1
    } else if t == enqueue_text() {
        CommandView::Enqueue
    } else if t == close_text() {
        CommandView::Close
    } else {
        CommandView::Unrecognized(t)
    }
}

/// The name under which a command is sent.
pub open spec fn name_of(c: CommandView) -> Seq<u8> {
    match c {
        CommandView::Req1 => req1_text(),
        CommandView::Enqueue => enqueue_text(),
        CommandView::Close => close_text(),
        CommandView::Unrecognized(t) => t,
    }
}

/// The reply written back for a command.
pub open spec fn reply_text(c: CommandView) -> Seq<u8> {
    match c {
        CommandView::Req1 => answer_text(),
        CommandView::Enqueue => queued_text(),
        CommandView::Close => terminating_text(),
        CommandView::Unrecognized(_) => refusal_text(),
    }
}

/// `text` left-justified in a frame and filled up with NULs.
pub open spec fn padded(text: Seq<u8>) -> Seq<u8>
    recommends
        text.len() <= FRAME_LEN,
{
    text + Seq::new((FRAME_LEN - text.len()) as nat, |i: int| 0u8)
}

/// Stripping ignores any number of NULs added at the end.
pub proof fn lemma_stripped_ignores_nuls(t: Seq<u8>, k: nat)
    ensures
        stripped(t + Seq::new(k, |i: int| 0u8)) == stripped(t),
    decreases k,
{
    let z = Seq::new(k, |i: int| 0u8);
    if k == 0 {
        assert(t + z =~= t);
    } else {
        let shorter = Seq::new((k - 1) as nat, |i: int| 0u8);
        assert((t + z).drop_last() =~= t + shorter);
        lemma_stripped_ignores_nuls(t, (k - 1) as nat);
    }
}

/// A text without a trailing NUL comes back whole from its padded frame.
pub proof fn lemma_padded_round_trip(t: Seq<u8>)
    requires
        t.len() <= FRAME_LEN,
        t.len() == 0 || t.last() != 0,
    ensures
        stripped(padded(t)) == t,
        padded(t).len() == FRAME_LEN,
{
    lemma_stripped_ignores_nuls(t, (FRAME_LEN - t.len()) as nat);
}

/// Whether two byte strings are equal.
fn same_bytes(a: &[u8], b: &[u8]) -> (r: bool)
    ensures
        r == (a@ == b@),
{
    if a.len() != b.len() {
        return false;
    }
    let mut i: usize = 0;
    while i < a.len()
        invariant
            a@.len() == b@.len(),
            i <= a@.len(),
            forall|j: int| 0 <= j < i ==> a@[j] == b@[j],
        decreases a@.len() - i,
    {
        if a[i] != b[i] {
            return false;
        }
        i = i + 1;
    }
    assert(a@ =~= b@);
    true
}

/// The frame's bytes without their trailing NUL padding.
pub fn strip_padding(frame: &[u8]) -> (r: Vec<u8>)
    ensures
        r@ == stripped(frame@),
{
    let mut end: usize = frame.len();
    assert(frame@.subrange(0, end as int) =~= frame@);
    while end > 0 && frame[end - 1] == 0
        invariant
            end <= frame@.len(),
            stripped(frame@) == stripped(frame@.subrange(0, end as int)),
        decreases end,
    {
        assert(frame@.subrange(0, end as int).drop_last() =~= frame@.subrange(0, end - 1));
        end = end - 1;
    }
    let mut r: Vec<u8> = Vec::new();
    let mut i: usize = 0;
    while i < end
        invariant
            end <= frame@.len(),
            i <= end,
            r@ =~= frame@.subrange(0, i as int),
        decreases end - i,
    {
        r.push(frame[i]);
        i = i + 1;
    }
    r
}

/// The bytes of a command's name; an unrecognized command sends its text.
pub fn name_bytes(c: &Command) -> (r: Vec<u8>)
    ensures
        r@ == name_of(c@),
{
    let r = match c {
        Command::Req1 => vec![114u8, 101, 113, 49],
        Command::Enqueue => vec![101u8, 110, 113, 117, 101, 117, 101],
        Command::Close => vec![99u8, 108, 111, 115, 101],
        Command::Unrecognized(t) => t.clone(),
    };
    assert(r@ =~= name_of(c@));
    r
}

/// Decodes one frame: the text before the NUL padding, matched exactly and
/// case-sensitively against the known command names.
pub fn decode(frame: &[u8]) -> (c: Command)
    ensures
        c@ == command_of(frame@),
{
    let t = strip_padding(frame);
    if same_bytes(t.as_slice(), name_bytes(&Command::Req1).as_slice()) {
        Command::Req1
    } else if same_bytes(t.as_slice(), name_bytes(&Command::Enqueue).as_slice()) {
        Command::Enqueue
    } else if same_bytes(t.as_slice(), name_bytes(&Command::Close).as_slice()) {
        Command::Close
    } else {
        Command::Unrecognized(t)
    }
}

/// The reply frame for a command: exactly the bytes of its reply text.
pub fn reply_for(c: &Command) -> (r: Vec<u8>)
    ensures
        r@ == reply_text(c@),
{
    let r = match c {
        Command::Req1 => vec![97u8, 110, 115, 49],
        Command::Enqueue => vec![81u8, 117, 101, 117, 101, 100],
        Command::Close => vec![84u8, 101, 114, 109, 105, 110, 97, 116, 105, 110, 103],
        Command::Unrecognized(_) => vec![78u8, 111, 112, 101],
    };
    assert(r@ =~= reply_text(c@));
    r
}

/// Lays `text` out as a request frame, or `None` where it does not fit.
pub fn encode(text: &[u8]) -> (r: Option<Vec<u8>>)
    ensures
        r is Some <==> text@.len() <= FRAME_LEN,
        r matches Some(f) ==> f@ == padded(text@),
{
    if text.len() > FRAME_LEN {
        return None;
    }
    let mut f: Vec<u8> = Vec::new();
    let mut i: usize = 0;
    while i < text.len()
        invariant
            i <= text@.len(),
            f@ =~= text@.subrange(0, i as int),
        decreases text@.len() - i,
    {
        f.push(text[i]);
        i = i + 1;
    }
    while i < FRAME_LEN
        invariant
            text@.len() <= i <= FRAME_LEN,
            f@ =~= text@ + Seq::new((i - text@.len()) as nat, |j: int| 0u8),
        decreases FRAME_LEN - i,
    {
        f.push(0u8);
        i = i + 1;
    }
    Some(f)
}

} // verus!
