use sekshibot::chain::{ApiMessage, ChainPass, HandlerError};

/// Runs a pass through as many handlers as `outcomes` holds, and returns the
/// handlers that ran, the messages sent, and whether the bot goes on.
fn run(outcomes: Vec<Result<(), HandlerError>>) -> (Vec<usize>, Vec<ApiMessage>, bool) {
    let mut pass = ChainPass::new(outcomes.len());
    let mut ran = vec![];
    let mut sent = vec![];
    while let Some(i) = pass.current() {
        ran.push(i);
        if let Some(m) = pass.record(&outcomes[i]) {
            sent.push(m);
        }
    }
    (ran, sent, pass.keeps_running())
}

#[test]
fn failure_does_not_stop_later_handlers() {
    let (ran, sent, goes_on) =
        run(vec![Ok(()), Err(HandlerError::Other("no such emote".to_string())), Ok(()), Ok(())]);
    assert_eq!(ran, vec![0, 1, 2, 3]);
    assert_eq!(
        sent,
        vec![ApiMessage::SendChat("Could not handle message: no such emote".to_string())]
    );
    assert!(goes_on);
}

#[test]
fn expired_token_aborts_the_pass() {
    let (ran, sent, goes_on) = run(vec![
        Err(HandlerError::Other("x".to_string())),
        Err(HandlerError::Unauthorized),
        Ok(()),
        Err(HandlerError::Unauthorized),
    ]);
    assert_eq!(ran, vec![0, 1]);
    assert_eq!(
        sent,
        vec![
            ApiMessage::SendChat("Could not handle message: x".to_string()),
            ApiMessage::Exit
        ]
    );
    assert_eq!(sent.iter().filter(|m| **m == ApiMessage::Exit).count(), 1);
    assert!(!goes_on);
}

#[test]
fn empty_chain_runs_nothing() {
    let (ran, sent, goes_on) = run(vec![]);
    assert!(ran.is_empty());
    assert!(sent.is_empty());
    assert!(goes_on);
}

#[test]
fn next_event_after_failures() {
    for _ in 0..2 {
        let (ran, _, goes_on) = run(vec![Err(HandlerError::Other("e".to_string())), Ok(())]);
        assert_eq!(ran, vec![0, 1]);
        assert!(goes_on);
    }
}
