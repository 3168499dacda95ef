//! The pool operations, run against a scripted native side.
//!
//! The scripted side answers as the native library does: it rejects bad
//! arguments at once, and schedules everything else, to complete through the
//! dispatch adapter after a fixed latency.

use std::sync::mpsc::{channel, Receiver, Sender};
use std::time::Duration;

use indy::bridge::{Bridge, Dispatch};
use indy::native::{NativeCall, Operation};
use indy::pool::Pool;
use indy::results::{Received, ResultHandler};
use indy::waiter::{Next, Wait};
use indy::{ErrorCode, IndyHandle, Outcome, ResultShape};

type Continuation = Box<dyn FnMut(Outcome)>;

const VALID_TIMEOUT: Duration = Duration::from_millis(500);

/// The time the scripted side takes to complete an operation.
const LATENCY: Duration = Duration::from_millis(5);

const SAMPLE_GENESIS: &str = "storage/sample_genesis_txn.txn";

struct Scheduled {
    token: IndyHandle,
    status: i32,
    creates: Option<String>,
}

struct Native {
    files: Vec<(String, Vec<u8>)>,
    pools: Vec<String>,
    scheduled: Vec<Scheduled>,
}

struct Harness {
    bridge: Bridge<Sender<Outcome>, Continuation>,
    native: Native,
}

fn harness() -> Harness {
    let sample = b"{\"reqSignature\":{},\"txn\":{\"type\":\"0\"},\"ver\":\"1\"}".to_vec();
    Harness {
        bridge: Bridge::new(),
        native: Native {
            files: vec![(SAMPLE_GENESIS.to_string(), sample)],
            pools: Vec::new(),
            scheduled: Vec::new(),
        },
    }
}

fn pool_name() -> String {
    format!("TestPool{}", "q7Rk2mZx0a")
}

fn config_json(key: &str, path: &str) -> String {
    format!("{{\"{}\":\"{}\"}}", key, path)
}

fn sample_genesis_config() -> String {
    config_json("genesis_txn", SAMPLE_GENESIS)
}

fn genesis_path(config: &str) -> Option<String> {
    let key = "\"genesis_txn\":\"";
    let start = config.find(key)? + key.len();
    let end = config[start..].find('"')? + start;
    Some(config[start..end].to_string())
}

impl Native {
    /// The immediate status of the native function for `call`.
    fn invoke(&mut self, call: &NativeCall) -> i32 {
        match call.operation {
            Operation::CreateLedgerConfig { pool_name, pool_config } => {
                if pool_name.is_empty() {
                    return 101;
                }
                let path = match genesis_path(pool_config) {
                    Some(path) => path,
                    None => return 113,
                };
                let status = if self.pools.iter().any(|p| p == pool_name) {
                    306
                } else {
                    match self.files.iter().find(|(name, _)| *name == path) {
                        None => 114,
                        Some((_, content)) if !content.starts_with(b"{") => 113,
                        Some(_) => 0,
                    }
                };
                let creates = if status == 0 { Some(pool_name.to_string()) } else { None };
                self.scheduled.push(Scheduled { token: call.token, status, creates });
                0
            }
            Operation::Delete { pool_name } => {
                let status = if self.pools.iter().any(|p| p == pool_name) { 0 } else { 300 };
                self.pools.retain(|p| p != pool_name);
                self.scheduled.push(Scheduled { token: call.token, status, creates: None });
                0
            }
            _ => 112,
        }
    }

    fn pool_exists(&self, name: &str) -> bool {
        self.pools.iter().any(|p| p == name)
    }
}

/// Fires every scheduled completion through the dispatch adapter and carries
/// out what the bridge decides.
fn complete_scheduled(h: &mut Harness) {
    let scheduled: Vec<Scheduled> = h.native.scheduled.drain(..).collect();
    for done in scheduled {
        if let Some(name) = done.creates {
            h.native.pools.push(name);
        }
        match h.bridge.dispatch_empty(done.token, done.status) {
            Dispatch::Send { sender, outcome } => {
                let _ = sender.send(outcome);
            }
            Dispatch::Invoke { mut continuation, outcome } => continuation(outcome),
            Dispatch::Violation(v) => panic!("protocol violation: {:?}", v),
        }
    }
}

/// Waits as a blocking caller does; the scripted side completes after its
/// latency, before or after the caller's deadline.
fn wait(h: &mut Harness, wait: Wait, receiver: Receiver<Outcome>) -> Received {
    let in_time = match wait {
        Wait::Indefinitely => true,
        Wait::AtMost { nanos } => nanos >= LATENCY.as_nanos() as i128,
    };
    if in_time {
        complete_scheduled(h);
        Received::Delivered(receiver.try_recv().unwrap())
    } else {
        let nanos = match wait {
            Wait::AtMost { nanos } => nanos as u64,
            Wait::Indefinitely => unreachable!(),
        };
        assert!(receiver.recv_timeout(Duration::from_nanos(nanos)).is_err());
        drop(receiver);
        complete_scheduled(h);
        Received::Expired
    }
}

fn finish_empty(h: &mut Harness, call: NativeCall, receiver: Receiver<Outcome>) -> Result<(), ErrorCode> {
    assert_eq!(ResultShape::Empty, call.adapter);
    let raw = h.native.invoke(&call);
    match h.bridge.settle(call.token, call.style, raw) {
        Next::Return(status) => Err(status),
        Next::Wait(how) => {
            let received = wait(h, how, receiver);
            assert!(received.carries(ResultShape::Empty));
            ResultHandler::empty(received)
        }
    }
}

fn create_ledger_config(h: &mut Harness, pool_name: &str, pool_config: &str) -> Result<(), ErrorCode> {
    let (sender, receiver) = channel();
    let call = Pool::create_ledger_config(&mut h.bridge, pool_name, pool_config, sender).unwrap();
    finish_empty(h, call, receiver)
}

fn create_ledger_config_timeout(
    h: &mut Harness,
    pool_name: &str,
    pool_config: &str,
    timeout: Duration,
) -> Result<(), ErrorCode> {
    let (sender, receiver) = channel();
    let nanos = timeout.as_nanos() as i128;
    let call =
        Pool::create_ledger_config_timeout(&mut h.bridge, pool_name, pool_config, nanos, sender).unwrap();
    finish_empty(h, call, receiver)
}

fn create_ledger_config_async<C: FnMut(ErrorCode) + 'static>(
    h: &mut Harness,
    pool_name: &str,
    pool_config: &str,
    mut closure: C,
) -> ErrorCode {
    let continuation: Continuation = Box::new(move |outcome: Outcome| closure(outcome.status));
    let call =
        Pool::create_ledger_config_async(&mut h.bridge, pool_name, pool_config, continuation).unwrap();
    let raw = h.native.invoke(&call);
    match h.bridge.settle(call.token, call.style, raw) {
        Next::Return(status) => status,
        Next::Wait(_) => unreachable!(),
    }
}

fn delete(h: &mut Harness, pool_name: &str) -> Result<(), ErrorCode> {
    let (sender, receiver) = channel();
    let call = Pool::delete(&mut h.bridge, pool_name, sender).unwrap();
    finish_empty(h, call, receiver)
}

fn assert_pool_exists_delete(h: &mut Harness, name: String) {
    assert!(h.native.pool_exists(&name));
    delete(h, &name).unwrap();
}

fn assert_pool_not_exists(h: &Harness, name: String) {
    assert!(!h.native.pool_exists(&name));
}

/* Create a valid config with custom genesis txn. */
#[test]
fn config_with_genesis_txn() {
    let mut h = harness();
    let name = pool_name();
    let config = sample_genesis_config();
    let result = create_ledger_config(&mut h, &name, &config);

    assert_eq!((), result.unwrap());
    assert_pool_exists_delete(&mut h, name);
    assert!(h.bridge.is_idle());
}

/* Config options missing genesis_txn */
#[test]
fn config_missing_genesis_txn() {
    let mut h = harness();
    let name = pool_name();
    let result = create_ledger_config(&mut h, &name, "{}");

    assert_eq!(ErrorCode::CommonInvalidStructure, result.unwrap_err());
    assert_pool_not_exists(&h, name);
    assert!(h.bridge.is_idle());
}

/* A path which doesn't exists results in error. */
#[test]
fn config_with_unknown_path_genesis_txn() {
    let mut h = harness();
    let name = pool_name();
    let config = config_json("genesis_txn", "/nonexist15794345");
    let result = create_ledger_config(&mut h, &name, &config);

    assert_eq!(ErrorCode::CommonIOError, result.unwrap_err());
    assert_pool_not_exists(&h, name);
}

/* Error with an incorrectly formed gensis txn. */
#[test]
fn config_with_bad_genesis_txn() {
    let mut h = harness();
    let name = pool_name();
    let file = "/tmp/bad_genesis_txn.txn".to_string();
    h.native.files.push((file.clone(), b"Some nonsensical data".to_vec()));
    let config = config_json("genesis_txn", &file);

    let result = create_ledger_config(&mut h, &name, &config);

    assert_eq!(ErrorCode::CommonInvalidStructure, result.unwrap_err());
    assert_pool_not_exists(&h, name);
}

/* Must specify pool name when config is created. */
#[test]
fn config_with_empty_pool_name() {
    let mut h = harness();
    let name = pool_name();
    let config = sample_genesis_config();
    let result = create_ledger_config(&mut h, "", &config);

    assert_eq!(ErrorCode::CommonInvalidParam2, result.unwrap_err());
    assert_pool_not_exists(&h, name);
}

/* Error when creating a pool that already exists */
#[test]
fn config_already_exists() {
    let mut h = harness();
    let name = pool_name();
    let config = sample_genesis_config();

    let result = create_ledger_config(&mut h, &name, &config);
    assert_eq!((), result.unwrap());

    let result = create_ledger_config(&mut h, &name, &config);
    assert_eq!(ErrorCode::PoolLedgerConfigAlreadyExistsError, result.unwrap_err());

    assert_pool_exists_delete(&mut h, name);
}

/* Create a config async. */
#[test]
fn config_async() {
    let mut h = harness();
    let name = pool_name();
    let config = sample_genesis_config();

    let (sender, receiver) = channel();
    let result = create_ledger_config_async(&mut h, &name, &config, move |ec| sender.send(ec).unwrap());
    assert_eq!(ErrorCode::Success, result);

    complete_scheduled(&mut h);
    let result = receiver.recv_timeout(VALID_TIMEOUT).unwrap();
    assert_eq!(ErrorCode::Success, result);

    assert_pool_exists_delete(&mut h, name);
}

/* Create a config async resulting in an early error: callback isn't called. */
#[test]
fn config_async_with_early_error() {
    let mut h = harness();
    let name = pool_name();
    let (sender, receiver) = channel();
    let result = create_ledger_config_async(&mut h, &name, "{}", move |ec| sender.send(ec).unwrap());

    assert_eq!(ErrorCode::CommonInvalidStructure, result);
    complete_scheduled(&mut h);
    assert!(receiver.recv_timeout(VALID_TIMEOUT).is_err());
    assert_pool_not_exists(&h, name);
    assert!(h.bridge.is_idle());
}

/* Create a config async resulting in a late error: callback is called. */
#[test]
fn config_async_with_late_error() {
    let mut h = harness();
    let name = pool_name();
    let config = config_json("genesis_txn", "/nonexist15794345");

    let (sender, receiver) = channel();
    let result = create_ledger_config_async(&mut h, &name, &config, move |ec| sender.send(ec).unwrap());
    assert_eq!(ErrorCode::Success, result);
    assert!(receiver.try_recv().is_err());

    complete_scheduled(&mut h);
    let result = receiver.recv_timeout(VALID_TIMEOUT).unwrap();
    assert_eq!(ErrorCode::CommonIOError, result);
    assert!(receiver.try_recv().is_err());

    assert_pool_not_exists(&h, name);
    assert!(h.bridge.is_idle());
}

/* Create a config with timeout. */
#[test]
fn config_timeout() {
    let mut h = harness();
    let name = pool_name();
    let config = sample_genesis_config();
    let result = create_ledger_config_timeout(&mut h, &name, &config, VALID_TIMEOUT);

    assert_eq!((), result.unwrap());
    assert_pool_exists_delete(&mut h, name);
}

/* Create a config timeout resulting in an error. */
#[test]
fn config_timeout_with_error() {
    let mut h = harness();
    let name = pool_name();
    let result = create_ledger_config_timeout(&mut h, &name, "{}", VALID_TIMEOUT);

    assert_eq!(ErrorCode::CommonInvalidStructure, result.unwrap_err());
    assert_pool_not_exists(&h, name);
}

/* Timeout occurs while creating config. Pool is still created. */
#[test]
fn config_timeout_timeouts() {
    let mut h = harness();
    let name = pool_name();
    let config = sample_genesis_config();
    let result = create_ledger_config_timeout(&mut h, &name, &config, Duration::from_micros(1));

    assert_eq!(ErrorCode::TimeoutExpired, result.unwrap_err());
    assert_pool_exists_delete(&mut h, name);
    assert!(h.bridge.is_idle());
}

/* A deadline of zero has passed before the wait begins. */
#[test]
fn config_timeout_of_zero_expires_at_once() {
    let mut h = harness();
    let name = pool_name();
    let config = sample_genesis_config();
    let result = create_ledger_config_timeout(&mut h, &name, &config, Duration::from_nanos(0));

    assert_eq!(ErrorCode::TimeoutExpired, result.unwrap_err());
    assert_eq!(1, h.bridge.pending_count());
    complete_scheduled(&mut h);
    assert_pool_exists_delete(&mut h, name);
}
