use msmtp_retry::answer::{classify_answer, Answer};
use msmtp_retry::machine::{
    after_attempt, after_prompt, run_trace, AttemptOutcome, PromptOutcome, State,
};
use msmtp_retry::prompt::prompt_message;

fn line(bytes: &[u8]) -> PromptOutcome {
    PromptOutcome::Line {
        bytes: bytes.to_vec(),
    }
}

#[test]
fn classify_plain_yes_and_no() {
    assert_eq!(classify_answer(b"y"), Answer::Yes);
    assert_eq!(classify_answer(b"n"), Answer::No);
}

#[test]
fn classify_is_case_insensitive() {
    assert_eq!(classify_answer(b"Y\n"), Answer::Yes);
    assert_eq!(classify_answer(b"N\n"), Answer::No);
}

#[test]
fn classify_trims_whitespace() {
    assert_eq!(classify_answer(b"  y \t\r\n"), Answer::Yes);
    assert_eq!(classify_answer(b"\t n \n"), Answer::No);
}

#[test]
fn classify_rejects_everything_else() {
    assert_eq!(classify_answer(b"maybe\n"), Answer::Other);
    assert_eq!(classify_answer(b""), Answer::Other);
    assert_eq!(classify_answer(b"\n"), Answer::Other);
    assert_eq!(classify_answer(b"yes\n"), Answer::Other);
    assert_eq!(classify_answer(b"yy"), Answer::Other);
    assert_eq!(classify_answer(b"y n"), Answer::Other);
}

#[test]
fn attempt_success_terminates_with_zero() {
    assert_eq!(
        after_attempt(AttemptOutcome::Exited { code: 0 }),
        State::Done { exit_code: 0 }
    );
}

#[test]
fn attempt_failure_opens_dialogue_with_its_code() {
    assert_eq!(
        after_attempt(AttemptOutcome::Exited { code: 75 }),
        State::Prompt { code: 75 }
    );
    assert_eq!(
        after_attempt(AttemptOutcome::Exited { code: -1 }),
        State::Prompt { code: -1 }
    );
}

#[test]
fn local_errors_terminate_with_one() {
    assert_eq!(
        after_attempt(AttemptOutcome::SpawnError),
        State::Done { exit_code: 1 }
    );
    assert_eq!(
        after_attempt(AttemptOutcome::WriteError),
        State::Done { exit_code: 1 }
    );
    assert_eq!(
        after_attempt(AttemptOutcome::WaitError),
        State::Done { exit_code: 1 }
    );
}

#[test]
fn prompt_yes_reenters_attempt() {
    assert_eq!(after_prompt(75, &line(b"y\n")), State::Attempt);
    assert_eq!(after_prompt(75, &line(b"Y\n")), State::Attempt);
}

#[test]
fn prompt_no_keeps_the_failing_code() {
    assert_eq!(after_prompt(75, &line(b"n\n")), State::Done { exit_code: 75 });
    assert_eq!(after_prompt(-1, &line(b"N")), State::Done { exit_code: -1 });
}

#[test]
fn prompt_indecisive_asks_again() {
    assert_eq!(after_prompt(75, &line(b"maybe\n")), State::Prompt { code: 75 });
    assert_eq!(after_prompt(75, &line(b"")), State::Prompt { code: 75 });
}

#[test]
fn prompt_terminal_error_terminates_with_one() {
    assert_eq!(
        after_prompt(75, &PromptOutcome::TtyError),
        State::Done { exit_code: 1 }
    );
}

#[test]
fn prompt_message_names_the_code() {
    assert_eq!(
        prompt_message(75).as_str(),
        "msmtp failed with exit code 75. Retry? (y/n): "
    );
    assert_eq!(
        prompt_message(1).as_str(),
        "msmtp failed with exit code 1. Retry? (y/n): "
    );
    assert_eq!(
        prompt_message(-1).as_str(),
        "msmtp failed with exit code -1. Retry? (y/n): "
    );
    assert_eq!(
        prompt_message(i32::MIN).as_str(),
        "msmtp failed with exit code -2147483648. Retry? (y/n): "
    );
}

#[test]
fn scenario_immediate_success() {
    let attempts = vec![AttemptOutcome::Exited { code: 0 }];
    let prompts = vec![];
    assert_eq!(run_trace(&attempts, &prompts), Some((0, 1)));
}

#[test]
fn scenario_two_failures_then_success() {
    let attempts = vec![
        AttemptOutcome::Exited { code: 1 },
        AttemptOutcome::Exited { code: 1 },
        AttemptOutcome::Exited { code: 0 },
    ];
    let prompts = vec![line(b"y\n"), line(b"y\n")];
    assert_eq!(run_trace(&attempts, &prompts), Some((0, 3)));
}

#[test]
fn scenario_user_declines() {
    let attempts = vec![AttemptOutcome::Exited { code: 75 }];
    let prompts = vec![line(b"n\n")];
    assert_eq!(run_trace(&attempts, &prompts), Some((75, 1)));
}

#[test]
fn scenario_missing_binary() {
    let attempts = vec![AttemptOutcome::SpawnError];
    let prompts = vec![];
    assert_eq!(run_trace(&attempts, &prompts), Some((1, 1)));
}

#[test]
fn scenario_indecision_then_decline() {
    let attempts = vec![AttemptOutcome::Exited { code: 2 }];
    let prompts = vec![line(b"maybe\n"), line(b"\n"), line(b"n\n")];
    assert_eq!(run_trace(&attempts, &prompts), Some((2, 1)));
}

#[test]
fn scenario_terminal_failure_during_dialogue() {
    let attempts = vec![AttemptOutcome::Exited { code: 75 }];
    let prompts = vec![PromptOutcome::TtyError];
    assert_eq!(run_trace(&attempts, &prompts), Some((1, 1)));
}

#[test]
fn trace_runs_out_without_a_decision() {
    let attempts = vec![AttemptOutcome::Exited { code: 1 }];
    let prompts = vec![line(b"maybe\n")];
    assert_eq!(run_trace(&attempts, &prompts), None);
}
