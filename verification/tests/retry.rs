use std::time::Duration;

use mom_rpc::retry::{after_attempt, jitter_with};
use mom_rpc::{apply_jitter, RetryAction, RetryConfig, RetryState, RpcError};

/// Runs `op` under the retry policy, summing the waits instead of sleeping.
fn drive<T>(
    config: Option<&RetryConfig>,
    mut op: impl FnMut() -> Result<T, RpcError>,
) -> (Result<T, RpcError>, Duration) {
    let mut state = match config {
        Some(c) => RetryState::start(c),
        None => RetryState { attempt: 0, current_delay_nanos: 0 },
    };
    let mut waited = Duration::ZERO;
    loop {
        let outcome = op();
        match after_attempt(config, &mut state, &outcome) {
            RetryAction::Finish => return (outcome, waited),
            RetryAction::Wait { delay_nanos } => waited += Duration::from_nanos(delay_nanos),
        }
    }
}

fn ms(n: u64) -> u64 {
    Duration::from_millis(n).as_nanos() as u64
}

#[test]
fn test_no_retry_on_success() {
    let config = RetryConfig::default();
    let mut call_count = 0;
    let (result, _) = drive(Some(&config), || {
        call_count += 1;
        Ok::<i32, RpcError>(42)
    });
    assert_eq!(result.unwrap(), 42);
    assert_eq!(call_count, 1);
}

#[test]
fn test_none_config_executes_once() {
    let mut call_count = 0;
    let (result, _) = drive(None, || {
        call_count += 1;
        Err::<i32, _>(RpcError::TransportRetryable("fail".into()))
    });
    assert!(matches!(result, Err(RpcError::TransportRetryable(_))));
    assert_eq!(call_count, 1);
}

#[test]
fn test_retry_on_retryable_error() {
    let retry_config = RetryConfig {
        max_attempts: 3,
        multiplier_permille: 2000,
        initial_delay_nanos: ms(10),
        max_delay_nanos: ms(100),
    };
    let mut call_count = 0;
    let (result, _) = drive(Some(&retry_config), || {
        call_count += 1;
        if call_count < 3 {
            Err(RpcError::TransportRetryable("simulated failure".into()))
        } else {
            Ok(42)
        }
    });
    assert_eq!(result.unwrap(), 42);
    assert_eq!(call_count, 3);
}

#[test]
fn test_retry_exhaustion() {
    let retry_config = RetryConfig {
        max_attempts: 2,
        multiplier_permille: 2000,
        initial_delay_nanos: ms(10),
        max_delay_nanos: ms(100),
    };
    let mut call_count = 0;
    let (result, _) = drive(Some(&retry_config), || {
        call_count += 1;
        Err::<i32, _>(RpcError::TransportRetryable("always fails".into()))
    });
    assert!(matches!(result, Err(RpcError::TransportRetryable(_))));
    // Initial attempt + 2 retries = 3 total calls
    assert_eq!(call_count, 3);
}

#[test]
fn test_no_retry_on_non_retryable_error() {
    let config = RetryConfig::default();
    let mut call_count = 0;
    let (result, _) = drive(Some(&config), || {
        call_count += 1;
        Err::<i32, _>(RpcError::Transport("non-retryable".into()))
    });
    assert!(matches!(result, Err(RpcError::Transport(_))));
    assert_eq!(call_count, 1);
}

#[test]
fn test_exponential_backoff_timing() {
    let retry_config = RetryConfig {
        max_attempts: 3,
        multiplier_permille: 2000,
        initial_delay_nanos: ms(50),
        max_delay_nanos: ms(500),
    };
    let (_result, elapsed) = drive(Some(&retry_config), || {
        Err::<i32, _>(RpcError::TransportRetryable("test".into()))
    });
    // 50 ms, 100 ms, 200 ms, each scaled by 0.75..1.25: 262.5 ms .. 437.5 ms.
    assert!(elapsed >= Duration::from_millis(200), "elapsed too short: {elapsed:?}");
    assert!(elapsed < Duration::from_millis(500), "elapsed too long: {elapsed:?}");
}

#[test]
fn test_max_delay_cap() {
    let retry_config = RetryConfig {
        max_attempts: 5,
        multiplier_permille: 10000,
        initial_delay_nanos: ms(10),
        max_delay_nanos: ms(50),
    };
    let (_result, elapsed) = drive(Some(&retry_config), || {
        Err::<i32, _>(RpcError::TransportRetryable("test".into()))
    });
    assert!(elapsed < Duration::from_millis(400), "max_delay cap not working: {elapsed:?}");
}

#[test]
fn test_jitter_range() {
    let delay = Duration::from_millis(100);

    for _ in 0..100 {
        let jittered = Duration::from_nanos(apply_jitter(delay.as_nanos() as u64));

        // Should be 75ms..125ms (±25%)
        assert!(jittered >= Duration::from_millis(75), "jitter too low: {jittered:?}");
        assert!(jittered <= Duration::from_millis(125), "jitter too high: {jittered:?}");
    }
}

#[test]
fn retry_jitter_exact_values() {
    assert_eq!(jitter_with(ms(100), 0), ms(75));
    assert_eq!(jitter_with(ms(100), 500), ms(100));
    assert_eq!(jitter_with(ms(100), 999), 124_950_000);
    assert_eq!(jitter_with(u64::MAX, 999), u64::MAX);
}

#[test]
fn retry_backoff_sequence_doubles_then_caps() {
    let cfg = RetryConfig {
        max_attempts: 10,
        multiplier_permille: 2000,
        initial_delay_nanos: ms(100),
        max_delay_nanos: ms(500),
    };
    assert_eq!(cfg.next_delay(ms(100)), ms(200));
    assert_eq!(cfg.next_delay(ms(200)), ms(400));
    assert_eq!(cfg.next_delay(ms(400)), ms(500));
    assert_eq!(cfg.next_delay(ms(500)), ms(500));
    let half = RetryConfig { multiplier_permille: 1500, ..cfg };
    assert_eq!(half.next_delay(ms(100)), ms(150));
}

#[test]
fn retry_default_config() {
    let cfg = RetryConfig::default();
    assert_eq!(cfg.max_attempts, 3);
    assert_eq!(cfg.multiplier_permille, 2000);
    assert_eq!(cfg.initial_delay_nanos, ms(100));
    assert_eq!(cfg.max_delay_nanos, Duration::from_secs(5).as_nanos() as u64);
}

#[test]
fn retry_state_advances_on_retryable_failure() {
    let cfg = RetryConfig {
        max_attempts: 1,
        multiplier_permille: 2000,
        initial_delay_nanos: ms(10),
        max_delay_nanos: ms(100),
    };
    let mut state = RetryState::start(&cfg);
    let failure: Result<(), RpcError> = Err(RpcError::TransportRetryable("x".into()));
    match after_attempt(Some(&cfg), &mut state, &failure) {
        RetryAction::Wait { delay_nanos } => {
            assert!(delay_nanos >= ms(10) * 3 / 4 && delay_nanos <= ms(10) * 5 / 4);
        }
        RetryAction::Finish => panic!("expected a wait"),
    }
    assert_eq!(state.attempt, 1);
    assert_eq!(state.current_delay_nanos, ms(20));
    assert_eq!(after_attempt(Some(&cfg), &mut state, &failure), RetryAction::Finish);
    assert_eq!(state.attempt, 2);
}
