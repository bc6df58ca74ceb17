use nimiq_consensus::response::{PollOutcome, Response, ResponseError};

#[test]
fn fresh_response_is_not_ready() {
    let mut r: Response<u32> = Response::new();
    assert!(matches!(r.poll(), Ok(PollOutcome::NotReady)));
    // Polling a pending cell leaves it pending.
    assert!(matches!(r.poll(), Ok(PollOutcome::NotReady)));
}

#[test]
fn set_then_poll_hands_the_value_out() {
    let mut r: Response<u32> = Response::new();
    r.set(Ok(42));
    match r.poll() {
        Ok(PollOutcome::Ready(v)) => assert_eq!(v, 42),
        _ => panic!("resolved response did not hand its value out"),
    }
}

#[test]
fn set_error_then_poll_propagates_the_error() {
    let mut r: Response<u32> = Response::new();
    r.set(Err(ResponseError::InvalidValue));
    assert!(matches!(r.poll(), Err(ResponseError::InvalidValue)));
}

#[test]
fn first_resolution_wins_the_race() {
    // A reply and a timeout racing to resolve one request must not produce
    // two different observed outcomes: the first write is the outcome.
    let mut r: Response<u32> = Response::new();
    r.set(Ok(7));
    r.set(Err(ResponseError::Timeout));
    match r.poll() {
        Ok(PollOutcome::Ready(v)) => assert_eq!(v, 7),
        _ => panic!("a later resolution attempt overwrote the first outcome"),
    }

    let mut r2: Response<u32> = Response::new();
    r2.set(Err(ResponseError::Timeout));
    r2.set(Ok(7));
    assert!(matches!(r2.poll(), Err(ResponseError::Timeout)));
}

#[test]
fn outcome_is_observed_exactly_once() {
    let mut r: Response<u32> = Response::new();
    r.set(Ok(9));
    assert!(matches!(r.poll(), Ok(PollOutcome::Ready(9))));
    // The slot is spent: later polls report not-ready, never a second value.
    assert!(matches!(r.poll(), Ok(PollOutcome::NotReady)));
    assert!(matches!(r.poll(), Ok(PollOutcome::NotReady)));
}
