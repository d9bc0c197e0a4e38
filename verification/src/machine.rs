//! The retry supervisor's decision logic.
//!
//! One run of the wrapper alternates two kinds of outside work: invoking the
//! external mail command, and holding a short dialogue on the controlling
//! terminal. The library decides, from the outcome of each, what happens
//! next; the caller performs the work and feeds the outcome back. A run is
//! therefore a walk through [`State`]: it starts at [`State::Attempt`] and
//! ends when a [`State::Done`] names the process's exit code.

use vstd::prelude::*;

use crate::answer::Answer;
use crate::answer::answer_of;

verus! {

/// What one invocation of the external command came to.
#[derive(Clone, Copy, Debug, PartialEq, Eq, Structural)]
pub enum AttemptOutcome {
    /// The command could not be started at all (missing binary, permissions).
    SpawnError,
    /// Writing the captured input to the command's input pipe failed.
    WriteError,
    /// The command's termination status could not be collected.
    WaitError,
    /// The command ran and terminated; `code` is its exit code, or -1 when
    /// the code could not be determined (the command died from a signal).
    Exited { code: i32 },
}

/// What one prompt cycle on the controlling terminal came to.
#[derive(Debug, PartialEq, Eq)]
pub enum PromptOutcome {
    /// The terminal could not be opened, written or read.
    TtyError,
    /// One line was read from the terminal.
    Line { bytes: Vec<u8> },
}

/// Where the supervisor stands between two pieces of outside work.
#[derive(Clone, Copy, Debug, PartialEq, Eq, Structural)]
pub enum State {
    /// Invoke the external command with the captured arguments and input.
    Attempt,
    /// The command failed with exit code `code` (never 0): ask the terminal
    /// whether to retry.
    Prompt { code: i32 },
    /// Terminate the process with `exit_code`.
    Done { exit_code: i32 },
}

/// The step the supervisor takes after an invocation of the external
/// command: success terminates the process with 0, a local error terminates
/// it with 1, and any non-zero exit code opens the retry dialogue with that
/// code.
pub open spec fn spec_after_attempt(o: AttemptOutcome) -> State {
    match o {
        AttemptOutcome::Exited { code } => {
            if code == 0 {
                State::Done { exit_code: 0 }
            } else {
                State::Prompt { code }
            }
        },
        _ => State::Done { exit_code: 1 },
    }
}

/// The decision carried by a prompt outcome: `None` for a terminal failure,
/// otherwise the classification of the line that was read.
pub open spec fn line_answer(o: PromptOutcome) -> Option<Answer> {
    match o {
        PromptOutcome::TtyError => None,
        PromptOutcome::Line { bytes } => Some(answer_of(bytes@)),
    }
}

/// The step the supervisor takes after one prompt cycle: a terminal failure
/// terminates the process with 1, `y` re-enters the attempt, `n` terminates
/// with the failing command's own exit code, and anything else asks again.
pub open spec fn spec_after_prompt(code: i32, o: PromptOutcome) -> State {
    match line_answer(o) {
        None => State::Done { exit_code: 1 },
        Some(Answer::Yes) => State::Attempt,
        Some(Answer::No) => State::Done { exit_code: code },
        Some(Answer::Other) => State::Prompt { code },
    }
}

/// A reached `Prompt` state always carries a non-zero code.
pub open spec fn prompt_code_nonzero(s: State) -> bool {
    match s {
        State::Prompt { code } => code != 0,
        _ => true,
    }
}

/// Decide the next state after an invocation of the external command.
pub fn after_attempt(o: AttemptOutcome) -> (s: State)
    ensures
        s == spec_after_attempt(o),
        prompt_code_nonzero(s),
{
    match o {
        AttemptOutcome::Exited { code } => {
            if code == 0 {
                State::Done { exit_code: 0 }
            } else {
                State::Prompt { code }
            }
        },
        _ => State::Done { exit_code: 1 },
    }
}

/// Decide the next state after one prompt cycle of the retry dialogue.
pub fn after_prompt(code: i32, o: &PromptOutcome) -> (s: State)
    requires
        code != 0,
    ensures
        s == spec_after_prompt(code, *o),
        prompt_code_nonzero(s),
{
    match o {
        PromptOutcome::TtyError => State::Done { exit_code: 1 },
        PromptOutcome::Line { bytes } => {
            match crate::answer::classify_answer(bytes.as_slice()) {
                Answer::Yes => State::Attempt,
                Answer::No => State::Done { exit_code: code },
                Answer::Other => State::Prompt { code },
            }
        },
    }
}

/// The whole run, played over given outcomes: from `s`, each `Attempt`
/// consumes the next attempt outcome and each `Prompt` the next prompt
/// outcome, until a `Done` state gives the exit code. The result pairs that
/// exit code with how often the external command was invoked (`made` counts
/// the invocations already behind `s`); it is `None` when the given
/// outcomes run out first.
pub open spec fn run_from(
    s: State,
    attempts: Seq<AttemptOutcome>,
    prompts: Seq<PromptOutcome>,
    made: nat,
) -> Option<(int, nat)>
    decreases attempts.len() + prompts.len(),
{
    match s {
        State::Done { exit_code } => Some((exit_code as int, made)),
        State::Attempt => {
            if attempts.len() == 0 {
                None
            } else {
                run_from(spec_after_attempt(attempts[0]), attempts.drop_first(), prompts, made + 1)
            }
        },
        State::Prompt { code } => {
            if prompts.len() == 0 {
                None
            } else {
                run_from(spec_after_prompt(code, prompts[0]), attempts, prompts.drop_first(), made)
            }
        },
    }
}

/// `run_from`'s result, as `run_trace` returns it.
pub open spec fn lift_outcome(r: Option<(i32, usize)>) -> Option<(int, nat)> {
    match r {
        Some(p) => Some((p.0 as int, p.1 as nat)),
        None => None,
    }
}

/// Play a whole run over recorded outcomes: the exit code the process would
/// terminate with, and how often the external command would be invoked, or
/// `None` where the recorded outcomes run out first.
pub fn run_trace(attempts: &Vec<AttemptOutcome>, prompts: &Vec<PromptOutcome>) -> (r: Option<
    (i32, usize),
>)
    ensures
        lift_outcome(r) == run_from(State::Attempt, attempts@, prompts@, 0),
{
    let mut state = State::Attempt;
    let mut ai: usize = 0;
    let mut pi: usize = 0;
    let mut made: usize = 0;
    proof {
        assert(attempts@.skip(0) =~= attempts@);
        assert(prompts@.skip(0) =~= prompts@);
    }
    loop
        invariant
            ai <= attempts@.len(),
            pi <= prompts@.len(),
            made <= ai,
            prompt_code_nonzero(state),
            run_from(State::Attempt, attempts@, prompts@, 0) == run_from(
                state,
                attempts@.skip(ai as int),
                prompts@.skip(pi as int),
                made as nat,
            ),
        decreases attempts@.len() - ai + prompts@.len() - pi,
    {
        match state {
            State::Done { exit_code } => {
                return Some((exit_code, made));
            },
            State::Attempt => {
                if ai == attempts.len() {
                    return None;
                }
                proof {
                    assert(attempts@.skip(ai as int)[0] == attempts@[ai as int]);
                    assert(attempts@.skip(ai as int).drop_first() =~= attempts@.skip(
                        ai as int + 1,
                    ));
                }
                state = after_attempt(attempts[ai]);
                ai = ai + 1;
                made = made + 1;
            },
            State::Prompt { code } => {
                if pi == prompts.len() {
                    return None;
                }
                proof {
                    assert(prompts@.skip(pi as int)[0] == prompts@[pi as int]);
                    assert(prompts@.skip(pi as int).drop_first() =~= prompts@.skip(pi as int + 1));
                }
                state = after_prompt(code, &prompts[pi]);
                pi = pi + 1;
            },
        }
    }
}

/// If the external command's first invocation exits 0, the run terminates
/// with exit code 0 after exactly one invocation, whatever the terminal
/// would have answered.
pub proof fn lemma_first_success(attempts: Seq<AttemptOutcome>, prompts: Seq<PromptOutcome>)
    requires
        attempts.len() > 0,
        attempts[0] == (AttemptOutcome::Exited { code: 0i32 }),
    ensures
        run_from(State::Attempt, attempts, prompts, 0) == Some((0 as int, 1 as nat)),
{
    let next = spec_after_attempt(attempts[0]);
    assert(next == (State::Done { exit_code: 0i32 }));
    assert(run_from(State::Attempt, attempts, prompts, 0) == run_from(
        next,
        attempts.drop_first(),
        prompts,
        1,
    ));
    assert(run_from(next, attempts.drop_first(), prompts, 1) == Some((0 as int, 1 as nat)));
}

/// If the dialogue's next answer is `n`, the run terminates at once with
/// the failing command's own exit code, and no further invocation is made.
pub proof fn lemma_decline_keeps_code(
    code: i32,
    attempts: Seq<AttemptOutcome>,
    prompts: Seq<PromptOutcome>,
    made: nat,
)
    requires
        code != 0,
        prompts.len() > 0,
        line_answer(prompts[0]) == Some(Answer::No),
    ensures
        run_from(State::Prompt { code }, attempts, prompts, made) == Some((code as int, made)),
{
    let next = spec_after_prompt(code, prompts[0]);
    assert(next == (State::Done { exit_code: code }));
    assert(run_from(State::Prompt { code }, attempts, prompts, made) == run_from(
        next,
        attempts,
        prompts.drop_first(),
        made,
    ));
    assert(run_from(next, attempts, prompts.drop_first(), made) == Some((code as int, made)));
}

/// If the dialogue's next answer is `y`, the run re-enters the attempt
/// state: the external command is invoked again, and with the same
/// arguments and input bytes, since an attempt always uses the one argument
/// list and input buffer captured at startup, which no transition touches.
pub proof fn lemma_accept_retries(
    code: i32,
    attempts: Seq<AttemptOutcome>,
    prompts: Seq<PromptOutcome>,
    made: nat,
)
    requires
        code != 0,
        prompts.len() > 0,
        line_answer(prompts[0]) == Some(Answer::Yes),
    ensures
        spec_after_prompt(code, prompts[0]) == State::Attempt,
        run_from(State::Prompt { code }, attempts, prompts, made) == run_from(
            State::Attempt,
            attempts,
            prompts.drop_first(),
            made,
        ),
{
}

/// The dialogue never ends on indecisive input: as long as every answer is
/// neither `y` nor `n`, the run stays at the prompt and terminates on none
/// of them, however many there are.
pub proof fn lemma_reprompt_forever(
    code: i32,
    attempts: Seq<AttemptOutcome>,
    prompts: Seq<PromptOutcome>,
    made: nat,
)
    requires
        code != 0,
        forall|k: int| 0 <= k < prompts.len() ==> line_answer(prompts[k]) == Some(Answer::Other),
    ensures
        run_from(State::Prompt { code }, attempts, prompts, made) is None,
    decreases prompts.len(),
{
    if prompts.len() == 0 {
    } else {
        assert(spec_after_prompt(code, prompts[0]) == (State::Prompt { code }));
        assert(forall|k: int|
            0 <= k < prompts.drop_first().len() ==> line_answer(prompts.drop_first()[k])
                == Some(Answer::Other));
        lemma_reprompt_forever(code, attempts, prompts.drop_first(), made);
    }
}

} // verus!
