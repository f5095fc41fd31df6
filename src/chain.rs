//! One pass of an event through the handler chain.
//!
//! The handlers run in the order they were registered. A handler that fails
//! for any reason but an expired token leaves a diagnostic in the chat, and
//! the next handler still runs. An expired token ends the pass: no handler
//! after it runs, the bot is asked to log out, and no further event is taken.
use vstd::prelude::*;
use vstd::string::StringExecFns;

verus! {

/// Why a handler could not handle an event.
#[derive(Debug, Clone, PartialEq, Eq)]
pub enum HandlerError {
    /// The API refused the bearer token.
    Unauthorized,
    /// Any other failure, with its description.
    Other(String),
}

/// A message from the handlers to the socket.
#[derive(Debug, Clone, PartialEq, Eq)]
pub enum ApiMessage {
    /// Log out and close the socket.
    Exit,
    /// Say this in chat.
    SendChat(String),
}

/// What a message to the socket says.
pub enum MessageView {
    Exit,
    SendChat(Seq<char>),
}

impl View for ApiMessage {
    type V = MessageView;

    open spec fn view(&self) -> MessageView {
        match self {
            ApiMessage::Exit => MessageView::Exit,
            ApiMessage::SendChat(text) => MessageView::SendChat(text@),
        }
    }
}

/// What the message `m`, if any, says.
pub open spec fn view_of(m: Option<ApiMessage>) -> Option<MessageView> {
    match m {
        Some(x) => Some(x@),
        None => None,
    }
}

/// The chat text that reports a failure described by `desc`.
pub open spec fn diagnostic(desc: Seq<char>) -> Seq<char> {
    "Could not handle message: "@ + desc
}

/// Where a pass of one event through `len` handlers stands: the handler that
/// runs next, and whether the pass was cut short.
#[derive(Debug, Clone, Copy, PartialEq, Eq)]
pub struct ChainPass {
    pub len: usize,
    pub next: usize,
    pub aborted: bool,
}

/// The pass runs handler `p.next` now.
pub open spec fn runs_next(p: ChainPass) -> bool {
    !p.aborted && p.next < p.len
}

/// The pass after handler `p.next` ended with `outcome`, and what goes out
/// to the socket.
pub open spec fn step(p: ChainPass, outcome: Result<(), HandlerError>) -> (
    ChainPass,
    Option<MessageView>,
) {
    match outcome {
        Ok(()) => (ChainPass { next: (p.next + 1) as usize, ..p }, None),
        Err(HandlerError::Unauthorized) => (ChainPass { aborted: true, ..p }, Some(MessageView::Exit)),
        Err(HandlerError::Other(desc)) => (
            ChainPass { next: (p.next + 1) as usize, ..p },
            Some(MessageView::SendChat(diagnostic(desc@))),
        ),
    }
}

/// The messages of `m`, none or one.
pub open spec fn sent(m: Option<MessageView>) -> Seq<MessageView> {
    match m {
        Some(x) => seq![x],
        None => Seq::empty(),
    }
}

/// The pass from `p` on, where the handlers that run end with `outcomes`,
/// in order: where it stops, and what it sends.
pub open spec fn run_from(p: ChainPass, outcomes: Seq<Result<(), HandlerError>>) -> (
    ChainPass,
    Seq<MessageView>,
)
    decreases outcomes.len(),
{
    if outcomes.len() == 0 || !runs_next(p) {
        (p, Seq::empty())
    } else {
        let (q, m) = step(p, outcomes[0]);
        let (last, rest) = run_from(q, outcomes.drop_first());
        (last, sent(m) + rest)
    }
}

/// A pass through `len` handlers that has not begun.
pub open spec fn start(len: usize) -> ChainPass {
    ChainPass { len, next: 0, aborted: false }
}

/// The outcome is a failure other than an expired token.
pub open spec fn is_other_failure(o: Result<(), HandlerError>) -> bool {
    o matches Err(HandlerError::Other(_))
}

/// The number of messages `Exit` in `ms`.
pub open spec fn exits(ms: Seq<MessageView>) -> nat
    decreases ms.len(),
{
    if ms.len() == 0 {
        0
    } else {
        (if ms[0] == MessageView::Exit {
            1nat
        } else {
            0nat
        }) + exits(ms.drop_first())
    }
}

proof fn lemma_exits_concat(a: Seq<MessageView>, b: Seq<MessageView>)
    ensures
        exits(a + b) == exits(a) + exits(b),
    decreases a.len(),
{
    if a.len() > 0 {
        lemma_exits_concat(a.drop_first(), b);
        assert((a + b).drop_first() =~= a.drop_first() + b);
    } else {
        assert(a + b =~= b);
    }
}

proof fn lemma_exits_sent(m: Option<MessageView>)
    ensures
        exits(sent(m)) == (if m == Some(MessageView::Exit) {
            1nat
        } else {
            0nat
        }),
{
    if let Some(x) = m {
        assert(seq![x].drop_first() =~= Seq::<MessageView>::empty());
        assert(exits(Seq::<MessageView>::empty()) == 0);
        assert(seq![x][0] == x);
        assert(exits(seq![x]) == (if x == MessageView::Exit {
            1nat
        } else {
            0nat
        }) + exits(seq![x].drop_first()));
    } else {
        assert(exits(Seq::<MessageView>::empty()) == 0);
    }
}

/// A pass from handler `p.next` on where no handler's token expires: every
/// handler runs, the pass is not cut short, and nothing asks to log out.
proof fn lemma_run_without_expiry(p: ChainPass, outcomes: Seq<Result<(), HandlerError>>)
    requires
        !p.aborted,
        p.next <= p.len,
        outcomes.len() == p.len - p.next,
        forall|i: int| 0 <= i < outcomes.len() ==> outcomes[i] != Err::<(), HandlerError>(HandlerError::Unauthorized),
    ensures
        run_from(p, outcomes).0.next == p.len,
        !run_from(p, outcomes).0.aborted,
        exits(run_from(p, outcomes).1) == 0,
        run_from(p, outcomes).1.len() == failures(outcomes),
    decreases outcomes.len(),
{
    if outcomes.len() > 0 {
        let (q, m) = step(p, outcomes[0]);
        assert(outcomes[0] != Err::<(), HandlerError>(HandlerError::Unauthorized));
        lemma_run_without_expiry(q, outcomes.drop_first());
        lemma_exits_concat(sent(m), run_from(q, outcomes.drop_first()).1);
        lemma_exits_sent(m);
    }
}

/// The number of failures other than an expired token in `outcomes`.
pub open spec fn failures(outcomes: Seq<Result<(), HandlerError>>) -> nat
    decreases outcomes.len(),
{
    if outcomes.len() == 0 {
        0
    } else {
        (if is_other_failure(outcomes[0]) {
            1nat
        } else {
            0nat
        }) + failures(outcomes.drop_first())
    }
}

/// Failures are isolated: where no handler's token expires, a pass through
/// `len` handlers runs all of them, each failure sends one diagnostic to the
/// chat, nothing asks to log out, and the next event is taken.
pub proof fn lemma_failures_isolated(len: usize, outcomes: Seq<Result<(), HandlerError>>)
    requires
        outcomes.len() == len,
        forall|i: int| 0 <= i < outcomes.len() ==> outcomes[i] != Err::<(), HandlerError>(HandlerError::Unauthorized),
    ensures
        run_from(start(len), outcomes).0.next == len,
        !run_from(start(len), outcomes).0.aborted,
        run_from(start(len), outcomes).1.len() == failures(outcomes),
        exits(run_from(start(len), outcomes).1) == 0,
{
    lemma_run_without_expiry(start(len), outcomes);
}

/// An expired token ends the pass: where handler `k` is the first whose
/// token expired, no handler after it runs, the pass is cut short, and
/// exactly one message asks to log out, the last one sent.
pub proof fn lemma_expiry_aborts(len: usize, outcomes: Seq<Result<(), HandlerError>>, k: int)
    requires
        outcomes.len() == len,
        0 <= k < len,
        outcomes[k] == Err::<(), HandlerError>(HandlerError::Unauthorized),
        forall|i: int| 0 <= i < k ==> outcomes[i] != Err::<(), HandlerError>(HandlerError::Unauthorized),
    ensures
        run_from(start(len), outcomes).0.next == k,
        run_from(start(len), outcomes).0.aborted,
        exits(run_from(start(len), outcomes).1) == 1,
        run_from(start(len), outcomes).1.last() == MessageView::Exit,
{
    lemma_expiry_aborts_from(start(len), outcomes, k);
}

proof fn lemma_expiry_aborts_from(p: ChainPass, outcomes: Seq<Result<(), HandlerError>>, k: int)
    requires
        !p.aborted,
        p.next + outcomes.len() == p.len,
        0 <= k < outcomes.len(),
        outcomes[k] == Err::<(), HandlerError>(HandlerError::Unauthorized),
        forall|i: int| 0 <= i < k ==> outcomes[i] != Err::<(), HandlerError>(HandlerError::Unauthorized),
    ensures
        run_from(p, outcomes).0.next == p.next + k,
        run_from(p, outcomes).0.aborted,
        exits(run_from(p, outcomes).1) == 1,
        run_from(p, outcomes).1.len() > 0,
        run_from(p, outcomes).1.last() == MessageView::Exit,
    decreases outcomes.len(),
{
    let (q, m) = step(p, outcomes[0]);
    if k == 0 {
        assert(run_from(q, outcomes.drop_first()).1 =~= Seq::<MessageView>::empty());
        lemma_exits_sent(m);
        assert(sent(m) + Seq::<MessageView>::empty() =~= seq![MessageView::Exit]);
    } else {
        let rest = outcomes.drop_first();
        assert(rest[k - 1] == outcomes[k]);
        assert forall|i: int| 0 <= i < k - 1 implies rest[i] != Err::<(), HandlerError>(
            HandlerError::Unauthorized,
        ) by {
            assert(rest[i] == outcomes[i + 1]);
        }
        lemma_expiry_aborts_from(q, rest, k - 1);
        lemma_exits_concat(sent(m), run_from(q, rest).1);
        lemma_exits_sent(m);
        assert(outcomes[0] != Err::<(), HandlerError>(HandlerError::Unauthorized));
        match m {
            Some(MessageView::Exit) => {},
            _ => {},
        }
    }
}

impl ChainPass {
    /// A pass through `len` handlers, about to run the first.
    pub fn new(len: usize) -> (r: ChainPass)
        ensures
            r == start(len),
    {
        ChainPass { len, next: 0, aborted: false }
    }

    /// The handler that runs now, if the pass goes on.
    pub fn current(&self) -> (r: Option<usize>)
        ensures
            r == (if runs_next(*self) {
                Some(self.next)
            } else {
                None
            }),
    {
        if !self.aborted && self.next < self.len {
            Some(self.next)
        } else {
            None
        }
    }

    /// Records how the handler that ran ended, and returns the message that
    /// goes out to the socket because of it, if any.
    pub fn record(&mut self, outcome: &Result<(), HandlerError>) -> (r: Option<ApiMessage>)
        requires
            runs_next(*old(self)),
        ensures
            (*final(self), view_of(r)) == step(*old(self), *outcome),
    {
        match outcome {
            Ok(()) => {
                self.next = self.next + 1;
                None
            },
            Err(HandlerError::Unauthorized) => {
                self.aborted = true;
                Some(ApiMessage::Exit)
            },
            Err(HandlerError::Other(desc)) => {
                self.next = self.next + 1;
                let text = "Could not handle message: ".to_owned().concat(desc.as_str());
                Some(ApiMessage::SendChat(text))
            },
        }
    }

    /// Whether the bot goes on to the next event after this pass.
    pub fn keeps_running(&self) -> (r: bool)
        ensures
            r == !self.aborted,
    {
        !self.aborted
    }
}

} // verus!
