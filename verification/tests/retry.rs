use undermoon::resp::Resp;
use undermoon::retry::{
    keep_sending_step, retry_handle_func, retry_step, ClientError, I64Retriever, RetryAction,
    RetryEvent, RetryState,
};

// A scripted client: the first `max_count` sends succeed, later ones fail
// with `Closed`.
struct Counter {
    count: u32,
    max_count: u32,
}

impl Counter {
    fn execute(&mut self) -> Result<Resp, ClientError> {
        if self.count < self.max_count {
            self.count += 1;
            Ok(Resp::Simple(b"OK".to_vec()))
        } else {
            Err(ClientError::Closed)
        }
    }
}

#[test]
fn test_keep_sending_cmd() {
    // One client, predicate always continues: the loop ends with the send
    // failure after exactly three successful sends.
    let mut client = Counter { count: 0, max_count: 3 };
    let mut outcome: Option<ClientError> = None;
    for _ in 0..100 {
        let event = match client.execute() {
            Ok(resp) => match retry_handle_func(&resp) {
                Ok(()) => RetryEvent::ResponseOk,
                Err(e) => RetryEvent::ResponseTerminal(e),
            },
            Err(_) => RetryEvent::SendFailed,
        };
        outcome = keep_sending_step(event);
        if outcome.is_some() {
            break;
        }
    }
    assert!(outcome.is_some());
    assert_ne!(outcome, Some(ClientError::Done));
    assert_eq!(client.count, 3);
}

#[test]
fn test_keep_connecting_and_sending() {
    // The outer loop reconnects on send failure; the predicate terminates
    // with Done after it has observed two responses.
    let mut client = Counter { count: 0, max_count: 3 };
    let mut handled: u32 = 0;
    let max_handled: u32 = 2;
    let mut state = RetryState::NeedClient;
    let mut action = RetryAction::Connect;
    let mut finished: Option<ClientError> = None;
    for _ in 0..100 {
        let event = match action {
            RetryAction::Connect => RetryEvent::ConnectSucceeded,
            RetryAction::ExecuteAndDelay => match client.execute() {
                Ok(_resp) => {
                    if handled < max_handled {
                        handled += 1;
                        RetryEvent::ResponseOk
                    } else {
                        RetryEvent::ResponseTerminal(ClientError::Done)
                    }
                }
                Err(_) => RetryEvent::SendFailed,
            },
            RetryAction::Finish(e) => {
                finished = Some(e);
                break;
            }
        };
        let (next_state, next_action) = retry_step(state, event);
        state = next_state;
        action = next_action;
    }
    assert_eq!(finished, Some(ClientError::Done));
    assert_eq!(client.count, 3);
    assert_eq!(handled, 2);
}

#[test]
fn test_retry_reconnects_after_send_failure() {
    let (state, action) = retry_step(RetryState::HasClient, RetryEvent::SendFailed);
    assert_eq!(state, RetryState::NeedClient);
    assert_eq!(action, RetryAction::Connect);
    // a predicate error other than Done also drops the client and reconnects
    let (state2, action2) = retry_step(
        RetryState::HasClient,
        RetryEvent::ResponseTerminal(ClientError::InvalidReply),
    );
    assert_eq!(state2, RetryState::NeedClient);
    assert_eq!(action2, RetryAction::Connect);
}

#[test]
fn test_stop_fires_done() {
    let (_, action) = retry_step(RetryState::HasClient, RetryEvent::StopFired);
    assert_eq!(action, RetryAction::Finish(ClientError::Done));
    let (_, action2) = retry_step(RetryState::NeedClient, RetryEvent::StopFired);
    assert_eq!(action2, RetryAction::Finish(ClientError::Done));
}

#[test]
fn test_retry_handle_func_always_continues() {
    assert!(retry_handle_func(&Resp::Simple(b"OK".to_vec())).is_ok());
    assert!(retry_handle_func(&Resp::Error(b"ERR busy".to_vec())).is_ok());
}

#[test]
fn test_i64_retriever_observation() {
    let mut r = I64Retriever::new(233);
    assert_eq!(r.get_data(), 233);
    r.update(666);
    assert_eq!(r.get_data(), 666);
}

#[test]
fn test_stop_idempotence() {
    let mut r = I64Retriever::new(0);
    assert!(r.try_stop());
    assert!(!r.try_stop());
    assert!(!r.try_stop());
    r.stop();
    assert_eq!(r.get_data(), 0);
}
