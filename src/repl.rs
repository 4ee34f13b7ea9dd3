//! The read-eval-print driver as a state machine.
//!
//! Each state names at most one piece of outside work (`action`). The caller
//! performs it against the runtime and hands back the handle that the call
//! returned (`step`); for work that yields nothing the reply is ignored. The
//! loop is strictly sequential: read, then eval, then print, then the next
//! prompt.
use vstd::prelude::*;
use crate::handle::Handle;

verus! {

/// Where the driver stands.
#[derive(Clone, Copy, Debug, PartialEq, Eq, Structural)]
pub enum ReplState {
    /// Show the prompt.
    Prompt,
    /// Read the next form.
    Read,
    /// Decide on the form just read.
    CheckEof(Handle),
    /// Evaluate the form.
    Eval(Handle),
    /// Print the result, unless it is the void sentinel.
    Print(Handle),
    /// Go back to the prompt.
    Loop,
    /// Input has ended: write a final newline.
    Terminate,
    /// Tear the runtime down.
    Teardown,
    /// Nothing more to do.
    Stopped,
}

/// The outside work that a state asks for.
#[derive(Clone, Copy, Debug, PartialEq, Eq, Structural)]
pub enum Action {
    /// Display the prompt string through the runtime's `display`.
    ShowPrompt,
    /// Call the runtime's `read` with no argument.
    CallRead,
    /// Call the runtime's `eval` on the form.
    CallEval(Handle),
    /// Call the runtime's `pretty-print` on the result.
    CallPrettyPrint(Handle),
    /// Call the runtime's `newline`.
    CallNewline,
    /// Tear the runtime down.
    Deinitialize,
    /// No outside work in this state.
    Nothing,
    /// Leave the loop.
    Stop,
}

/// The work that `s` asks for.
pub open spec fn action_of(s: ReplState) -> Action {
    match s {
        ReplState::Prompt => Action::ShowPrompt,
        ReplState::Read => Action::CallRead,
        ReplState::CheckEof(_) => Action::Nothing,
        ReplState::Eval(form) => Action::CallEval(form),
        ReplState::Print(res) => if res.spec_is_void() {
            Action::Nothing
        } else {
            Action::CallPrettyPrint(res)
        },
        ReplState::Loop => Action::Nothing,
        ReplState::Terminate => Action::CallNewline,
        ReplState::Teardown => Action::Deinitialize,
        ReplState::Stopped => Action::Stop,
    }
}

/// The state after `s`, once its work has returned `reply`.
pub open spec fn next_state(s: ReplState, reply: Handle) -> ReplState {
    match s {
        ReplState::Prompt => ReplState::Read,
        ReplState::Read => ReplState::CheckEof(reply),
        ReplState::CheckEof(form) => if form.spec_is_eof() {
            ReplState::Terminate
        } else {
            ReplState::Eval(form)
        },
        ReplState::Eval(_) => ReplState::Print(reply),
        ReplState::Print(_) => ReplState::Loop,
        ReplState::Loop => ReplState::Prompt,
        ReplState::Terminate => ReplState::Teardown,
        ReplState::Teardown => ReplState::Stopped,
        ReplState::Stopped => ReplState::Stopped,
    }
}

/// The state reached from `s` after one step for each reply in turn.
pub open spec fn run(s: ReplState, replies: Seq<Handle>) -> ReplState
    decreases replies.len(),
{
    if replies.len() == 0 {
        s
    } else {
        run(next_state(s, replies[0]), replies.drop_first())
    }
}

/// The work asked for on the way, one action for each step taken.
pub open spec fn performed(s: ReplState, replies: Seq<Handle>) -> Seq<Action>
    decreases replies.len(),
{
    if replies.len() == 0 {
        Seq::empty()
    } else {
        seq![action_of(s)] + performed(next_state(s, replies[0]), replies.drop_first())
    }
}

/// How many times the runtime is torn down on the way.
pub open spec fn teardowns(s: ReplState, replies: Seq<Handle>) -> nat
    decreases replies.len(),
{
    if replies.len() == 0 {
        0
    } else {
        (if action_of(s) == Action::Deinitialize {
            1nat
        } else {
            0nat
        }) + teardowns(next_state(s, replies[0]), replies.drop_first())
    }
}

impl ReplState {
    /// The state in which the driver starts.
    pub fn start() -> (s: ReplState)
        ensures
            s == ReplState::Prompt,
    {
        ReplState::Prompt
    }

    /// The outside work that this state asks for.
    pub fn action(&self) -> (a: Action)
        ensures
            a == action_of(*self),
    {
        match *self {
            ReplState::Prompt => Action::ShowPrompt,
            ReplState::Read => Action::CallRead,
            ReplState::CheckEof(_) => Action::Nothing,
            ReplState::Eval(form) => Action::CallEval(form),
            ReplState::Print(res) => if res.is_void() {
                Action::Nothing
            } else {
                Action::CallPrettyPrint(res)
            },
            ReplState::Loop => Action::Nothing,
            ReplState::Terminate => Action::CallNewline,
            ReplState::Teardown => Action::Deinitialize,
            ReplState::Stopped => Action::Stop,
        }
    }

    /// The next state, given what this state's work returned.
    pub fn step(&self, reply: Handle) -> (n: ReplState)
        ensures
            n == next_state(*self, reply),
    {
        match *self {
            ReplState::Prompt => ReplState::Read,
            ReplState::Read => ReplState::CheckEof(reply),
            ReplState::CheckEof(form) => if form.is_eof() {
                ReplState::Terminate
            } else {
                ReplState::Eval(form)
            },
            ReplState::Eval(_) => ReplState::Print(reply),
            ReplState::Print(_) => ReplState::Loop,
            ReplState::Loop => ReplState::Prompt,
            ReplState::Terminate => ReplState::Teardown,
            ReplState::Teardown => ReplState::Stopped,
            ReplState::Stopped => ReplState::Stopped,
        }
    }

    /// Is the loop over?
    pub fn is_stopped(&self) -> (r: bool)
        ensures
            r == (*self == ReplState::Stopped),
    {
        match *self {
            ReplState::Stopped => true,
            _ => false,
        }
    }
}

/// Is `a` an evaluation or a print?
pub open spec fn evaluates_or_prints(a: Action) -> bool {
    a is CallEval || a is CallPrettyPrint
}

proof fn lemma_after_input_ends(s: ReplState, replies: Seq<Handle>)
    requires
        s == ReplState::Terminate || s == ReplState::Teardown || s == ReplState::Stopped,
    ensures
        forall|i: int| 0 <= i < performed(s, replies).len()
            ==> !evaluates_or_prints(#[trigger] performed(s, replies)[i]),
    decreases replies.len(),
{
    if replies.len() > 0 {
        let n = next_state(s, replies[0]);
        let rest = performed(n, replies.drop_first());
        lemma_after_input_ends(n, replies.drop_first());
        assert forall|i: int| 0 <= i < performed(s, replies).len() implies !evaluates_or_prints(
            #[trigger] performed(s, replies)[i],
        ) by {
            if i > 0 {
                assert(performed(s, replies)[i] == rest[i - 1]);
            }
        }
    }
}

/// An end-of-input reply to a read ends the loop: the driver checks it and
/// goes straight to termination, and from then on it neither evaluates nor
/// prints, whatever replies follow.
pub proof fn lemma_end_of_input_terminates(replies: Seq<Handle>)
    requires
        replies.len() >= 2,
        replies[0].spec_is_eof(),
    ensures
        run(ReplState::Read, replies.take(2)) == ReplState::Terminate,
        forall|i: int| 0 <= i < performed(ReplState::Read, replies).len()
            ==> !evaluates_or_prints(#[trigger] performed(ReplState::Read, replies)[i]),
{
    reveal_with_fuel(run, 3);
    reveal_with_fuel(performed, 3);
    let r1 = replies.drop_first();
    let r2 = r1.drop_first();
    assert(replies.take(2).drop_first().drop_first().len() == 0);
    assert(replies.take(2).drop_first() =~= r1.take(1));
    lemma_after_input_ends(ReplState::Terminate, r2);
    let p = performed(ReplState::Read, replies);
    assert(p =~= seq![Action::CallRead, Action::Nothing] + performed(ReplState::Terminate, r2));
}

/// A result that is the void sentinel is not printed, and the driver still
/// goes back to the prompt.
pub proof fn lemma_void_result_skips_print(form: Handle, replies: Seq<Handle>)
    requires
        replies.len() == 3,
        replies[0].spec_is_void(),
    ensures
        run(ReplState::Eval(form), replies) == ReplState::Prompt,
        performed(ReplState::Eval(form), replies) == seq![
            Action::CallEval(form),
            Action::Nothing,
            Action::Nothing,
        ],
{
    reveal_with_fuel(run, 4);
    reveal_with_fuel(performed, 4);
    let r1 = replies.drop_first();
    let r2 = r1.drop_first();
    let r3 = r2.drop_first();
    assert(r3.len() == 0);
    assert(performed(ReplState::Eval(form), replies) =~= seq![
        Action::CallEval(form),
        Action::Nothing,
        Action::Nothing,
    ]);
}

proof fn lemma_stopped_stays(replies: Seq<Handle>)
    ensures
        run(ReplState::Stopped, replies) == ReplState::Stopped,
        teardowns(ReplState::Stopped, replies) == 0,
    decreases replies.len(),
{
    if replies.len() > 0 {
        lemma_stopped_stays(replies.drop_first());
    }
}

/// The runtime is torn down at most once in any run, and exactly once in a
/// run that ends stopped without having started there.
pub proof fn lemma_teardown_at_most_once(s: ReplState, replies: Seq<Handle>)
    ensures
        teardowns(s, replies) <= 1,
        run(s, replies) == ReplState::Stopped && s != ReplState::Stopped
            ==> teardowns(s, replies) == 1,
    decreases replies.len(),
{
    if replies.len() > 0 {
        let n = next_state(s, replies[0]);
        lemma_teardown_at_most_once(n, replies.drop_first());
        if s == ReplState::Teardown {
            lemma_stopped_stays(replies.drop_first());
        }
    }
}

/// Input that ends at the first read: the prompt is shown, the read returns
/// end of input, a newline is written and the runtime is torn down once, and
/// the loop stops.
pub proof fn lemma_empty_input_session(replies: Seq<Handle>)
    requires
        replies.len() == 5,
        replies[1].spec_is_eof(),
    ensures
        run(ReplState::Prompt, replies) == ReplState::Stopped,
        performed(ReplState::Prompt, replies) == seq![
            Action::ShowPrompt,
            Action::CallRead,
            Action::Nothing,
            Action::CallNewline,
            Action::Deinitialize,
        ],
        teardowns(ReplState::Prompt, replies) == 1,
{
    reveal_with_fuel(run, 6);
    reveal_with_fuel(performed, 6);
    reveal_with_fuel(teardowns, 6);
    let r1 = replies.drop_first();
    let r2 = r1.drop_first();
    let r3 = r2.drop_first();
    let r4 = r3.drop_first();
    let r5 = r4.drop_first();
    assert(r1[0] == replies[1]);
    assert(r5.len() == 0);
    assert(performed(ReplState::Prompt, replies) =~= seq![
        Action::ShowPrompt,
        Action::CallRead,
        Action::Nothing,
        Action::CallNewline,
        Action::Deinitialize,
    ]);
}

} // verus!
