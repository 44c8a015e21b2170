use chocho_session::device::DeviceIdentity;
use chocho_session::engine::{Engine, Protocol};
use chocho_session::errors::{AuthRejected, IoError, LoginError};
use chocho_session::password::LoginResponse;
use chocho_session::qrcode::QrCodeEvent;
use chocho_session::reconnect::{
    fast_login_step, reconnect_attempt, reconnect_precheck, run_reconnect, token_step,
    ReconnectObserver,
};
use chocho_session::retry::{retry, RetryAction, RetryDecision, RetryState};
use chocho_session::session::AliveHandle;
use chocho_session::store::{FileRead, SessionToken, Store};
use chocho_session::ConnStatus;

fn s(x: &str) -> String {
    x.to_string()
}

/// An action that fails a fixed number of times and counts its observer
/// invocations.
struct FailingAction {
    errors_to_give: Vec<String>,
    then: Option<u32>,
    reports: Vec<(String, usize)>,
}

impl RetryAction<u32, String> for FailingAction {
    fn attempt(&mut self) -> Result<u32, String> {
        if self.errors_to_give.is_empty() {
            Err(s("the script ran out"))
        } else {
            let e = self.errors_to_give.remove(0);
            if e.is_empty() {
                match self.then {
                    Some(v) => Ok(v),
                    None => Err(s("no success value")),
                }
            } else {
                Err(e)
            }
        }
    }

    fn on_failure(&mut self, err: &String, remaining: usize) {
        self.reports.push((err.clone(), remaining));
    }
}

#[test]
fn retry_budget_is_exact() {
    // Eleven consecutive failures against a budget of ten: exactly ten
    // observer invocations, and the eleventh failure's error is returned
    // to the caller, not swallowed.
    let errors: Vec<String> = (1..=11).map(|i| format!("failure {}", i)).collect();
    let mut action = FailingAction { errors_to_give: errors, then: None, reports: Vec::new() };
    let mut state = RetryState::new(10);
    let r = retry(&mut state, &mut action);
    assert_eq!(r, Err(s("failure 11")));
    assert_eq!(state.remaining, 0);
    assert_eq!(action.reports.len(), 10);
    // The observer sees the shrinking budget: 9, 8, ..., 0.
    for (i, (err, remaining)) in action.reports.iter().enumerate() {
        assert_eq!(err, &format!("failure {}", i + 1));
        assert_eq!(*remaining, 9 - i);
    }
}

#[test]
fn retry_returns_the_first_success() {
    let mut action = FailingAction {
        errors_to_give: vec![s("once"), s("twice"), s("")],
        then: Some(77),
        reports: Vec::new(),
    };
    let mut state = RetryState::new(10);
    let r = retry(&mut state, &mut action);
    assert_eq!(r, Ok(77));
    assert_eq!(state.remaining, 8);
    assert_eq!(action.reports.len(), 2);
}

#[test]
fn retry_with_zero_budget_reports_nothing() {
    let mut action = FailingAction {
        errors_to_give: vec![s("only")],
        then: None,
        reports: Vec::new(),
    };
    let mut state = RetryState::new(0);
    let r = retry(&mut state, &mut action);
    assert_eq!(r, Err(s("only")));
    assert!(action.reports.is_empty());
}

#[test]
fn retry_state_decisions_are_exact() {
    let mut state = RetryState::new(1);
    let d: RetryDecision<u32, String> = state.on_outcome(Err(s("a")));
    assert_eq!(d, RetryDecision::Report { err: s("a"), remaining: 0 });
    let d: RetryDecision<u32, String> = state.on_outcome(Err(s("b")));
    assert_eq!(d, RetryDecision::GiveUp(s("b")));
    let d: RetryDecision<u32, String> = state.on_outcome(Ok(5));
    assert_eq!(d, RetryDecision::Done(5));
}

/// A reconnection engine that counts the protocol steps.
struct ReconnectEngine {
    status: ConnStatus,
    token_outcomes: Vec<Result<LoginResponse, IoError>>,
    waits: Vec<u64>,
    connects: usize,
    stops: usize,
    yields: usize,
    registers: usize,
    next_task: u32,
}

impl ReconnectEngine {
    fn new(status: ConnStatus) -> ReconnectEngine {
        ReconnectEngine {
            status,
            token_outcomes: Vec::new(),
            waits: Vec::new(),
            connects: 0,
            stops: 0,
            yields: 0,
            registers: 0,
            next_task: 41,
        }
    }
}

impl Engine for ReconnectEngine {
    type Stream = ();
    type Task = u32;

    fn prepare(&mut self, _device: &DeviceIdentity, _protocol: Protocol) {}

    fn connect(&mut self) -> Result<(), IoError> {
        self.connects += 1;
        Ok(())
    }

    fn start(&mut self, _stream: ()) -> u32 {
        self.next_task += 1;
        self.next_task
    }

    fn yield_once(&mut self) {
        self.yields += 1;
    }

    fn wait_seconds(&mut self, seconds: u64) {
        self.waits.push(seconds);
    }

    fn status(&self) -> ConnStatus {
        self.status
    }

    fn stop(&mut self) {
        self.stops += 1;
    }

    fn uin(&self) -> i64 {
        10001
    }

    fn password_login(&mut self, _uin: i64, _password: &str) -> Result<LoginResponse, IoError> {
        panic!("no password login during reconnection");
    }

    fn submit_ticket(&mut self, _ticket: &str) -> Result<LoginResponse, IoError> {
        panic!("no ticket during reconnection");
    }

    fn device_lock_login(&mut self) -> Result<LoginResponse, IoError> {
        panic!("no device lock during reconnection");
    }

    fn token_login(&mut self, _token: &SessionToken) -> Result<LoginResponse, IoError> {
        assert!(!self.token_outcomes.is_empty(), "unexpected token login");
        self.token_outcomes.remove(0)
    }

    fn fetch_qrcode(&mut self) -> Result<QrCodeEvent, IoError> {
        panic!("no QR code during reconnection");
    }

    fn query_qrcode_result(&mut self, _sig: &Vec<u8>) -> Result<QrCodeEvent, IoError> {
        panic!("no QR poll during reconnection");
    }

    fn qrcode_login(
        &mut self,
        _tmp_pwd: &Vec<u8>,
        _tmp_no_pic_sig: &Vec<u8>,
        _tgt_qr: &Vec<u8>,
    ) -> Result<LoginResponse, IoError> {
        panic!("no QR login during reconnection");
    }

    fn register_after_login(&mut self) {
        self.registers += 1;
    }

    fn gen_token(&mut self) -> SessionToken {
        SessionToken { raw: s("fresh") }
    }
}

struct TokenStore {
    token: Option<SessionToken>,
}

impl Store for TokenStore {
    fn ensure_account_dir(&mut self, _uin: i64) -> Result<(), IoError> {
        Ok(())
    }

    fn read_device(&mut self, _uin: i64) -> Result<FileRead<chocho_session::json::JsonValue>, IoError> {
        Ok(FileRead::Missing)
    }

    fn write_device(
        &mut self,
        _uin: i64,
        _doc: &chocho_session::json::JsonValue,
    ) -> Result<(), IoError> {
        Ok(())
    }

    fn read_token(&mut self, _uin: i64) -> Result<FileRead<SessionToken>, IoError> {
        match &self.token {
            Some(t) => Ok(FileRead::Present(t.clone())),
            None => Ok(FileRead::Missing),
        }
    }

    fn write_token(&mut self, _uin: i64, token: &SessionToken) -> Result<(), IoError> {
        self.token = Some(token.clone());
        Ok(())
    }

    fn delete_token(&mut self, _uin: i64) -> Result<(), IoError> {
        self.token = None;
        Ok(())
    }
}

struct CountingObserver {
    failures: Vec<usize>,
}

impl ReconnectObserver for CountingObserver {
    fn attempt_failed(&mut self, _err: &LoginError, remaining: usize) {
        self.failures.push(remaining);
    }
}

#[test]
fn only_network_offline_allows_reconnection() {
    assert_eq!(reconnect_precheck(ConnStatus::NetworkOffline), Ok(()));
    assert_eq!(
        reconnect_precheck(ConnStatus::Online),
        Err(LoginError::NonRecoverableDisconnect)
    );
    assert_eq!(
        reconnect_precheck(ConnStatus::Other),
        Err(LoginError::NonRecoverableDisconnect)
    );
}

#[test]
fn non_network_disconnect_fails_before_any_step() {
    let mut engine = ReconnectEngine::new(ConnStatus::Other);
    let mut store = TokenStore { token: None };
    let r = reconnect_attempt(&mut engine, &mut store, 10001, ConnStatus::Other);
    assert_eq!(r, Err(LoginError::NonRecoverableDisconnect));
    // It failed immediately: no sleep, no stop, no transport restart.
    assert!(engine.waits.is_empty());
    assert_eq!(engine.stops, 0);
    assert_eq!(engine.connects, 0);
}

#[test]
fn token_file_decides_the_attempt() {
    assert_eq!(
        token_step(FileRead::Missing),
        Err(LoginError::ResumeUnavailable)
    );
    assert_eq!(
        token_step(FileRead::Malformed),
        Err(LoginError::ResumeUnavailable)
    );
    let t = SessionToken { raw: s("persisted") };
    assert_eq!(token_step(FileRead::Present(t.clone())), Ok(t));
}

#[test]
fn fast_login_outcome_decides_the_attempt() {
    assert_eq!(
        fast_login_step(Ok(LoginResponse::Success { uin: 10001 })),
        Ok(())
    );
    assert_eq!(
        fast_login_step(Ok(LoginResponse::AccountFrozen)),
        Err(LoginError::Auth(AuthRejected::Unknown {
            description: s("the account is frozen"),
        }))
    );
    assert_eq!(
        fast_login_step(Ok(LoginResponse::Unknown { description: s("odd reply") })),
        Err(LoginError::Auth(AuthRejected::Unknown { description: s("odd reply") }))
    );
    assert_eq!(
        fast_login_step(Err(IoError { detail: s("link down") })),
        Err(LoginError::Io(IoError { detail: s("link down") }))
    );
}

#[test]
fn successful_attempt_follows_the_strict_order() {
    let mut engine = ReconnectEngine::new(ConnStatus::NetworkOffline);
    engine.token_outcomes = vec![Ok(LoginResponse::Success { uin: 10001 })];
    let mut store = TokenStore { token: Some(SessionToken { raw: s("persisted") }) };
    let r = reconnect_attempt(&mut engine, &mut store, 10001, ConnStatus::NetworkOffline);
    assert_eq!(r, Ok(42));
    assert_eq!(engine.stops, 1);
    assert_eq!(engine.waits, vec![10]);
    assert_eq!(engine.connects, 1);
    assert_eq!(engine.yields, 1);
    assert_eq!(engine.registers, 1);
    // The resumed session's fresh token replaced the one used to resume.
    assert_eq!(store.token, Some(SessionToken { raw: s("fresh") }));
}

#[test]
fn missing_token_makes_resume_unavailable() {
    let mut engine = ReconnectEngine::new(ConnStatus::NetworkOffline);
    let mut store = TokenStore { token: None };
    let r = reconnect_attempt(&mut engine, &mut store, 10001, ConnStatus::NetworkOffline);
    assert_eq!(r, Err(LoginError::ResumeUnavailable));
}

#[test]
fn rejected_token_stops_the_fresh_connection() {
    let mut engine = ReconnectEngine::new(ConnStatus::NetworkOffline);
    engine.token_outcomes = vec![Ok(LoginResponse::Unknown { description: s("no") })];
    let mut store = TokenStore { token: Some(SessionToken { raw: s("persisted") }) };
    let r = reconnect_attempt(&mut engine, &mut store, 10001, ConnStatus::NetworkOffline);
    // The rejection error carries the response.
    assert_eq!(
        r,
        Err(LoginError::Auth(AuthRejected::Unknown { description: s("no") }))
    );
    // Stopped once before the restart and once after the rejection.
    assert_eq!(engine.stops, 2);
    // No fresh token was written.
    assert_eq!(store.token, Some(SessionToken { raw: s("persisted") }));
}

#[test]
fn reconnection_budget_reports_ten_failures_and_returns_the_last() {
    // Eleven consecutive resume failures against the budget of ten.
    let mut engine = ReconnectEngine::new(ConnStatus::NetworkOffline);
    engine.token_outcomes = (0..11)
        .map(|_| Ok(LoginResponse::Unknown { description: s("no") }))
        .collect();
    let mut store = TokenStore { token: Some(SessionToken { raw: s("persisted") }) };
    let mut observer = CountingObserver { failures: Vec::new() };
    let mut budget = RetryState::new(10);
    let r = run_reconnect(&mut engine, &mut store, &mut observer, 10001, &mut budget);
    assert_eq!(
        r,
        Err(LoginError::Auth(AuthRejected::Unknown { description: s("no") }))
    );
    assert_eq!(budget.remaining, 0);
    assert_eq!(observer.failures, vec![9, 8, 7, 6, 5, 4, 3, 2, 1, 0]);
    assert_eq!(engine.token_outcomes.len(), 0);
}

#[test]
fn handle_reconnect_is_a_noop_while_a_task_runs() {
    let mut engine = ReconnectEngine::new(ConnStatus::NetworkOffline);
    let mut store = TokenStore { token: None };
    let mut observer = CountingObserver { failures: Vec::new() };
    let mut handle: AliveHandle<u32> = AliveHandle::new(10001, 7);
    let r = handle.reconnect(&mut engine, &mut store, &mut observer, 10);
    assert_eq!(r, Ok(()));
    // Nothing was attempted.
    assert_eq!(engine.connects, 0);
    assert_eq!(handle.take_task(), Some(7));
}

#[test]
fn handle_reconnect_installs_the_new_task() {
    let mut engine = ReconnectEngine::new(ConnStatus::NetworkOffline);
    engine.token_outcomes = vec![Ok(LoginResponse::Success { uin: 10001 })];
    let mut store = TokenStore { token: Some(SessionToken { raw: s("persisted") }) };
    let mut observer = CountingObserver { failures: Vec::new() };
    let mut handle: AliveHandle<u32> = AliveHandle::new(10001, 7);
    // The task ended; the caller took it out and awaited it.
    assert_eq!(handle.take_task(), Some(7));
    assert_eq!(handle.take_task(), None);
    let r = handle.reconnect(&mut engine, &mut store, &mut observer, 10);
    assert_eq!(r, Ok(()));
    assert_eq!(handle.take_task(), Some(42));
}
