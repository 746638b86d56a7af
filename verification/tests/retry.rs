use retry_backoff::{checked_retry, retry, BackoffSettings};
use std::cell::{Cell, RefCell};
use std::error::Error;
use std::future::Future;
use std::io;
use std::task::{Context, Poll, Waker};
use std::time::{Duration, Instant};
use zduny_wasm_timer::Delay;

#[derive(Debug, PartialEq)]
enum Failure {
    Operation(usize),
    Timer(String),
}

impl From<io::Error> for Failure {
    fn from(error: io::Error) -> Self {
        Failure::Timer(error.to_string())
    }
}

fn settings(millis: u64, total_retries: usize) -> BackoffSettings {
    BackoffSettings {
        initial_backoff: Duration::from_millis(millis),
        total_retries,
    }
}

fn millis(list: &[u64]) -> Vec<Duration> {
    list.iter().map(|m| Duration::from_millis(*m)).collect()
}

/// Polls a future until it is ready.
fn block_on<F: Future>(future: F) -> F::Output {
    let mut future = Box::pin(future);
    let mut context = Context::from_waker(Waker::noop());
    loop {
        if let Poll::Ready(output) = future.as_mut().poll(&mut context) {
            return output;
        }
        std::hint::spin_loop();
    }
}

#[test]
fn test_retry() {
    retry(
        || Ok::<_, Box<dyn Error>>(5),
        |_| Ok::<(), io::Error>(()),
        BackoffSettings::default(),
    )
    .unwrap();
}

#[test]
fn test_retry_fails() {
    let res = retry(
        || Err::<usize, Box<dyn Error>>(Box::from("error")),
        |_| Ok::<(), io::Error>(()),
        BackoffSettings::default(),
    );

    assert!(res.is_err());
    assert_eq!(res.unwrap_err().to_string(), "error");
}

#[test]
fn succeeding_operation_runs_once_under_default_settings() {
    let calls = Cell::new(0usize);
    let waits = RefCell::new(Vec::new());
    let result = retry(
        || {
            calls.set(calls.get() + 1);
            Ok::<i32, &str>(5)
        },
        |backoff| {
            waits.borrow_mut().push(backoff);
            Ok::<(), &str>(())
        },
        BackoffSettings::default(),
    );
    assert_eq!(result, Ok(5));
    assert_eq!(calls.get(), 1);
    assert!(waits.borrow().is_empty());
}

#[test]
fn failing_operation_runs_six_times_under_default_settings() {
    let calls = Cell::new(0usize);
    let waits = RefCell::new(Vec::new());
    let result = retry(
        || {
            calls.set(calls.get() + 1);
            Err::<i32, &str>("boom")
        },
        |backoff| {
            waits.borrow_mut().push(backoff);
            Ok::<(), &str>(())
        },
        BackoffSettings::default(),
    );
    assert_eq!(result, Err("boom"));
    assert_eq!(calls.get(), 6);
    assert_eq!(*waits.borrow(), millis(&[50, 100, 200, 400, 800]));
}

#[test]
fn failing_operation_runs_once_without_retries() {
    let calls = Cell::new(0usize);
    let waits = RefCell::new(Vec::new());
    let result = retry(
        || {
            calls.set(calls.get() + 1);
            Err::<i32, &str>("boom")
        },
        |backoff| {
            waits.borrow_mut().push(backoff);
            Ok::<(), &str>(())
        },
        settings(50, 0),
    );
    assert_eq!(result, Err("boom"));
    assert_eq!(calls.get(), 1);
    assert!(waits.borrow().is_empty());
}

#[test]
fn persistent_failure_is_invoked_once_more_than_retries_and_returns_the_last_error() {
    for total_retries in [0usize, 1, 2, 3, 7, 12] {
        let calls = Cell::new(0usize);
        let waits = RefCell::new(Vec::new());
        let result = retry(
            || {
                calls.set(calls.get() + 1);
                Err::<(), Failure>(Failure::Operation(calls.get()))
            },
            |backoff| {
                waits.borrow_mut().push(backoff);
                Ok::<(), io::Error>(())
            },
            settings(1, total_retries),
        );
        assert_eq!(calls.get(), total_retries + 1);
        assert_eq!(result, Err(Failure::Operation(total_retries + 1)));
        assert_eq!(waits.borrow().len(), total_retries);
    }
}

#[test]
fn first_success_is_invoked_once_without_delay() {
    for total_retries in [0usize, 1, 5, 60] {
        let calls = Cell::new(0usize);
        let waits = Cell::new(0usize);
        let result = retry(
            || {
                calls.set(calls.get() + 1);
                Ok::<&str, Failure>("fine")
            },
            |_| {
                waits.set(waits.get() + 1);
                Ok::<(), io::Error>(())
            },
            settings(50, total_retries),
        );
        assert_eq!(result, Ok("fine"));
        assert_eq!(calls.get(), 1);
        assert_eq!(waits.get(), 0);
    }
}

#[test]
fn success_after_failures_is_invoked_once_more_than_it_failed() {
    let total_retries = 5usize;
    for failures in 0..=total_retries {
        let calls = Cell::new(0usize);
        let waits = RefCell::new(Vec::new());
        let result = retry(
            || {
                calls.set(calls.get() + 1);
                if calls.get() <= failures {
                    Err(Failure::Operation(calls.get()))
                } else {
                    Ok(calls.get() * 10)
                }
            },
            |backoff| {
                waits.borrow_mut().push(backoff);
                Ok::<(), io::Error>(())
            },
            settings(10, total_retries),
        );
        assert_eq!(result, Ok((failures + 1) * 10));
        assert_eq!(calls.get(), failures + 1);
        assert_eq!(waits.borrow().len(), failures);
    }
}

#[test]
fn requested_delays_double_from_the_initial_backoff() {
    let waits = RefCell::new(Vec::new());
    let result = retry(
        || Err::<(), &str>("no"),
        |backoff| {
            waits.borrow_mut().push(backoff);
            Ok::<(), &str>(())
        },
        BackoffSettings {
            initial_backoff: Duration::from_micros(7),
            total_retries: 10,
        },
    );
    assert_eq!(result, Err("no"));
    let expected: Vec<Duration> = (0u32..10)
        .map(|j| Duration::from_micros(7 * 2u64.pow(j)))
        .collect();
    assert_eq!(*waits.borrow(), expected);
    assert_eq!(waits.borrow()[0], Duration::from_micros(7));
    assert_eq!(waits.borrow()[9], Duration::from_micros(3584));
}

#[test]
fn backoff_is_not_capped() {
    let waits = RefCell::new(Vec::new());
    let result = retry(
        || Err::<(), &str>("no"),
        |backoff| {
            waits.borrow_mut().push(backoff);
            Ok::<(), &str>(())
        },
        BackoffSettings {
            initial_backoff: Duration::from_secs(1),
            total_retries: 40,
        },
    );
    assert_eq!(result, Err("no"));
    assert_eq!(waits.borrow().len(), 40);
    assert_eq!(waits.borrow()[39], Duration::from_secs(1 << 39));
}

#[test]
fn first_attempt_is_never_delayed() {
    // The log holds what happened, in order: 'a' for an attempt, 'w' for a wait.
    let log = RefCell::new(String::new());
    let result = retry(
        || {
            log.borrow_mut().push('a');
            Err::<(), &str>("no")
        },
        |_| {
            log.borrow_mut().push('w');
            Ok::<(), &str>(())
        },
        settings(1, 3),
    );
    assert_eq!(result, Err("no"));
    assert_eq!(*log.borrow(), "awawawa");
}

#[test]
fn failed_delay_stops_the_retry_at_once() {
    let total_retries = 5usize;
    for failing in 1..=total_retries {
        let calls = Cell::new(0usize);
        let waits = RefCell::new(Vec::new());
        let result = retry(
            || {
                calls.set(calls.get() + 1);
                Err::<(), Failure>(Failure::Operation(calls.get()))
            },
            |backoff| {
                waits.borrow_mut().push(backoff);
                if waits.borrow().len() == failing {
                    Err(io::Error::new(io::ErrorKind::Other, "timer has gone away"))
                } else {
                    Ok(())
                }
            },
            settings(50, total_retries),
        );
        assert_eq!(result, Err(Failure::Timer(String::from("timer has gone away"))));
        assert_eq!(calls.get(), failing);
        assert_eq!(waits.borrow().len(), failing);
    }
}

#[test]
fn failed_delay_is_not_told_apart_from_a_failed_attempt() {
    let from_timer = retry(
        || Err::<(), String>(String::from("operation")),
        |_| Err::<(), String>(String::from("same")),
        settings(50, 5),
    );
    let from_operation = retry(
        || Err::<(), String>(String::from("same")),
        |_| Ok::<(), String>(()),
        settings(50, 5),
    );
    assert_eq!(from_timer, from_operation);
}

#[test]
fn intermediate_failures_are_dropped() {
    let calls = Cell::new(0usize);
    let result = retry(
        || {
            calls.set(calls.get() + 1);
            if calls.get() < 3 {
                Err(format!("failure {}", calls.get()))
            } else {
                Ok(format!("success {}", calls.get()))
            }
        },
        |_| Ok::<(), String>(()),
        BackoffSettings::default(),
    );
    assert_eq!(result, Ok(String::from("success 3")));
}

#[test]
fn retry_waits_on_a_real_timer() {
    let calls = Cell::new(0usize);
    let started = Instant::now();
    let result = retry(
        || {
            calls.set(calls.get() + 1);
            if calls.get() <= 3 {
                Err(Failure::Operation(calls.get()))
            } else {
                Ok(started.elapsed())
            }
        },
        |backoff| block_on(Delay::new(backoff)),
        settings(5, 5),
    );
    // Three delays were waited out: 5 ms, 10 ms and 20 ms.
    let elapsed = result.unwrap();
    assert_eq!(calls.get(), 4);
    assert!(elapsed >= Duration::from_millis(35));
}

#[test]
fn checked_retry_returns_what_retry_returns_where_the_schedule_fits() {
    let calls = Cell::new(0usize);
    let waits = RefCell::new(Vec::new());
    let outcome = checked_retry(
        || {
            calls.set(calls.get() + 1);
            Err::<i32, &str>("boom")
        },
        |backoff| {
            waits.borrow_mut().push(backoff);
            Ok::<(), &str>(())
        },
        BackoffSettings::default(),
    );
    assert_eq!(outcome, Some(Err("boom")));
    assert_eq!(calls.get(), 6);
    assert_eq!(*waits.borrow(), millis(&[50, 100, 200, 400, 800]));
}

#[test]
fn checked_retry_returns_a_first_success_whatever_the_settings() {
    let calls = Cell::new(0usize);
    let waits = Cell::new(0usize);
    let outcome = checked_retry(
        || {
            calls.set(calls.get() + 1);
            Ok::<i32, &str>(5)
        },
        |_| {
            waits.set(waits.get() + 1);
            Ok::<(), &str>(())
        },
        BackoffSettings {
            initial_backoff: Duration::MAX,
            total_retries: usize::MAX,
        },
    );
    assert_eq!(outcome, Some(Ok(5)));
    assert_eq!(calls.get(), 1);
    assert_eq!(waits.get(), 0);
}

#[test]
fn checked_retry_goes_on_for_as_long_as_the_backoff_can_be_doubled() {
    // With retries without end the schedule does not fit, but the operation
    // succeeds long before the backoff has outgrown a `Duration`.
    let settings = BackoffSettings {
        initial_backoff: Duration::from_millis(50),
        total_retries: usize::MAX,
    };
    assert!(!settings.schedule_fits());
    let calls = Cell::new(0usize);
    let waits = RefCell::new(Vec::new());
    let outcome = checked_retry(
        || {
            calls.set(calls.get() + 1);
            if calls.get() <= 10 {
                Err(Failure::Operation(calls.get()))
            } else {
                Ok("at last")
            }
        },
        |backoff| {
            waits.borrow_mut().push(backoff);
            Ok::<(), io::Error>(())
        },
        settings,
    );
    assert_eq!(outcome, Some(Ok("at last")));
    assert_eq!(calls.get(), 11);
    assert_eq!(waits.borrow().len(), 10);
    assert_eq!(waits.borrow()[9], Duration::from_millis(50 * 512));
}

#[test]
fn checked_retry_gives_up_when_the_backoff_cannot_be_doubled() {
    // Half of Duration::MAX, rounded down, can be doubled once.
    let half = Duration::new(u64::MAX / 2, 999_999_999);
    let doubled = Duration::MAX - Duration::from_nanos(1);
    let calls = Cell::new(0usize);
    let waits = RefCell::new(Vec::new());
    let outcome = checked_retry(
        || {
            calls.set(calls.get() + 1);
            Err::<(), Failure>(Failure::Operation(calls.get()))
        },
        |backoff| {
            waits.borrow_mut().push(backoff);
            Ok::<(), io::Error>(())
        },
        BackoffSettings {
            initial_backoff: half,
            total_retries: 5,
        },
    );
    assert_eq!(outcome, None);
    assert_eq!(calls.get(), 2);
    assert_eq!(*waits.borrow(), vec![half, doubled]);
}

#[test]
fn checked_retry_doubles_as_often_as_there_are_retries_and_no_more() {
    // Two retries take two doublings, which the backoff allows just so: the
    // third attempt is made and its failure returned.
    let quarter = Duration::new(u64::MAX / 4, 0);
    let calls = Cell::new(0usize);
    let waits = RefCell::new(Vec::new());
    let outcome = checked_retry(
        || {
            calls.set(calls.get() + 1);
            Err::<(), Failure>(Failure::Operation(calls.get()))
        },
        |backoff| {
            waits.borrow_mut().push(backoff);
            Ok::<(), io::Error>(())
        },
        BackoffSettings {
            initial_backoff: quarter,
            total_retries: 2,
        },
    );
    assert_eq!(outcome, Some(Err(Failure::Operation(3))));
    assert_eq!(calls.get(), 3);
    assert_eq!(*waits.borrow(), vec![quarter, quarter * 2]);
}

#[test]
fn checked_retry_takes_a_failed_delay_even_where_nothing_can_be_doubled() {
    let outcome = checked_retry(
        || Err::<(), Failure>(Failure::Operation(1)),
        |_| Err(io::Error::new(io::ErrorKind::Other, "timer has gone away")),
        BackoffSettings {
            initial_backoff: Duration::MAX,
            total_retries: 3,
        },
    );
    assert_eq!(
        outcome,
        Some(Err(Failure::Timer(String::from("timer has gone away"))))
    );
}
