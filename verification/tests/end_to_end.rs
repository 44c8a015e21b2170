use chocho_session::device::DeviceIdentity;
use chocho_session::engine::{CaptchaPrompt, Engine, Protocol, QrDisplay};
use chocho_session::errors::{AuthRejected, IoError, LoginError};
use chocho_session::json::JsonValue;
use chocho_session::lifespan::Lifecycle;
use chocho_session::login::{
    login, login_with_password, resume_decision, LoginMethod, ResumeDecision,
};
use chocho_session::password::LoginResponse;
use chocho_session::qrcode::QrCodeEvent;
use chocho_session::reconnect::ReconnectObserver;
use chocho_session::store::{FileRead, SessionToken, Store};
use chocho_session::ConnStatus;

fn s(x: &str) -> String {
    x.to_string()
}

fn clone_json(v: &JsonValue) -> JsonValue {
    match v {
        JsonValue::Null => JsonValue::Null,
        JsonValue::Bool(b) => JsonValue::Bool(*b),
        JsonValue::Int(i) => JsonValue::Int(*i),
        JsonValue::Str(x) => JsonValue::Str(x.clone()),
        JsonValue::Arr(a) => JsonValue::Arr(a.iter().map(clone_json).collect()),
        JsonValue::Obj(o) => {
            JsonValue::Obj(o.iter().map(|(k, x)| (k.clone(), clone_json(x))).collect())
        }
        JsonValue::Other => JsonValue::Other,
    }
}

struct MemStore {
    device: Option<JsonValue>,
    token: Option<SessionToken>,
    token_writes: usize,
    token_deletes: usize,
}

impl Store for MemStore {
    fn ensure_account_dir(&mut self, _uin: i64) -> Result<(), IoError> {
        Ok(())
    }

    fn read_device(&mut self, _uin: i64) -> Result<FileRead<JsonValue>, IoError> {
        match &self.device {
            Some(v) => Ok(FileRead::Present(clone_json(v))),
            None => Ok(FileRead::Missing),
        }
    }

    fn write_device(&mut self, _uin: i64, doc: &JsonValue) -> Result<(), IoError> {
        self.device = Some(clone_json(doc));
        Ok(())
    }

    fn read_token(&mut self, _uin: i64) -> Result<FileRead<SessionToken>, IoError> {
        match &self.token {
            Some(t) => Ok(FileRead::Present(t.clone())),
            None => Ok(FileRead::Missing),
        }
    }

    fn write_token(&mut self, _uin: i64, token: &SessionToken) -> Result<(), IoError> {
        self.token = Some(token.clone());
        self.token_writes += 1;
        Ok(())
    }

    fn delete_token(&mut self, _uin: i64) -> Result<(), IoError> {
        self.token = None;
        self.token_deletes += 1;
        Ok(())
    }
}

struct MockEngine {
    status: ConnStatus,
    prepared_displays: Vec<String>,
    fetch_script: Vec<Result<QrCodeEvent, IoError>>,
    query_script: Vec<Result<QrCodeEvent, IoError>>,
    auth_script: Vec<Result<LoginResponse, IoError>>,
    token_script: Vec<Result<LoginResponse, IoError>>,
    token_logins: usize,
    waits: Vec<u64>,
    token_counter: u32,
    next_task: u32,
}

impl MockEngine {
    fn new() -> MockEngine {
        MockEngine {
            status: ConnStatus::Online,
            prepared_displays: Vec::new(),
            fetch_script: Vec::new(),
            query_script: Vec::new(),
            auth_script: Vec::new(),
            token_script: Vec::new(),
            token_logins: 0,
            waits: Vec::new(),
            token_counter: 0,
            next_task: 0,
        }
    }
}

impl Engine for MockEngine {
    type Stream = ();
    type Task = u32;

    fn prepare(&mut self, device: &DeviceIdentity, _protocol: Protocol) {
        self.prepared_displays.push(device.display.clone());
    }

    fn connect(&mut self) -> Result<(), IoError> {
        Ok(())
    }

    fn start(&mut self, _stream: ()) -> u32 {
        self.next_task += 1;
        self.next_task
    }

    fn yield_once(&mut self) {}

    fn wait_seconds(&mut self, seconds: u64) {
        self.waits.push(seconds);
    }

    fn status(&self) -> ConnStatus {
        self.status
    }

    fn stop(&mut self) {}

    fn uin(&self) -> i64 {
        10001
    }

    fn password_login(&mut self, _uin: i64, _password: &str) -> Result<LoginResponse, IoError> {
        assert!(!self.auth_script.is_empty(), "unexpected password login");
        self.auth_script.remove(0)
    }

    fn submit_ticket(&mut self, _ticket: &str) -> Result<LoginResponse, IoError> {
        assert!(!self.auth_script.is_empty(), "unexpected ticket");
        self.auth_script.remove(0)
    }

    fn device_lock_login(&mut self) -> Result<LoginResponse, IoError> {
        assert!(!self.auth_script.is_empty(), "unexpected device lock");
        self.auth_script.remove(0)
    }

    fn token_login(&mut self, _token: &SessionToken) -> Result<LoginResponse, IoError> {
        self.token_logins += 1;
        assert!(!self.token_script.is_empty(), "unexpected token login");
        self.token_script.remove(0)
    }

    fn fetch_qrcode(&mut self) -> Result<QrCodeEvent, IoError> {
        assert!(!self.fetch_script.is_empty(), "unexpected QR fetch");
        self.fetch_script.remove(0)
    }

    fn query_qrcode_result(&mut self, _sig: &Vec<u8>) -> Result<QrCodeEvent, IoError> {
        assert!(!self.query_script.is_empty(), "unexpected QR poll");
        self.query_script.remove(0)
    }

    fn qrcode_login(
        &mut self,
        _tmp_pwd: &Vec<u8>,
        _tmp_no_pic_sig: &Vec<u8>,
        _tgt_qr: &Vec<u8>,
    ) -> Result<LoginResponse, IoError> {
        assert!(!self.auth_script.is_empty(), "unexpected QR login");
        self.auth_script.remove(0)
    }

    fn register_after_login(&mut self) {}

    fn gen_token(&mut self) -> SessionToken {
        self.token_counter += 1;
        SessionToken { raw: format!("token-{}", self.token_counter) }
    }
}

struct NoPrompt;

impl CaptchaPrompt for NoPrompt {
    fn submit(&mut self, _verify_url: &str) -> Result<String, IoError> {
        panic!("no captcha expected");
    }
}

struct CountingDisplay {
    shown: usize,
    mismatches: usize,
}

impl QrDisplay for CountingDisplay {
    fn show(&mut self, _image: &Vec<u8>, _sig: &Vec<u8>) -> Result<(), IoError> {
        self.shown += 1;
        Ok(())
    }

    fn note_mismatch(&mut self, _expected: i64, _actual: i64) {
        self.mismatches += 1;
    }
}

struct CountingObserver {
    failures: usize,
}

impl ReconnectObserver for CountingObserver {
    fn attempt_failed(&mut self, _err: &LoginError, _remaining: usize) {
        self.failures += 1;
    }
}

#[test]
fn fresh_account_logs_in_with_a_qr_code() {
    // Fresh account, empty data root, QR-code method.
    let mut engine = MockEngine::new();
    engine.fetch_script = vec![Ok(QrCodeEvent::ImageFetch { image: vec![1, 2], sig: vec![9] })];
    engine.query_script = vec![
        Ok(QrCodeEvent::WaitingForScan),
        Ok(QrCodeEvent::Confirmed {
            tmp_pwd: vec![1],
            tmp_no_pic_sig: vec![2],
            tgt_qr: vec![3],
        }),
    ];
    engine.auth_script = vec![Ok(LoginResponse::Success { uin: 10001 })];
    let mut store = MemStore { device: None, token: None, token_writes: 0, token_deletes: 0 };
    let mut prompt = NoPrompt;
    let mut display = CountingDisplay { shown: 0, mismatches: 0 };

    let handle = login(
        &mut engine,
        &mut store,
        &mut prompt,
        &mut display,
        10001,
        LoginMethod::QrCode,
        100,
    )
    .expect("the login must succeed");

    // The device document was created, and the engine was prepared with
    // the identity it holds.
    assert!(store.device.is_some());
    assert_eq!(engine.prepared_displays.len(), 1);
    // The token was persisted from the registered session.
    assert_eq!(store.token, Some(SessionToken { raw: s("token-1") }));
    // The handle reports the live session.
    assert_eq!(handle.account(), 10001);
    assert!(matches!(engine.status(), ConnStatus::Online));
    assert_eq!(display.shown, 1);
    assert_eq!(display.mismatches, 0);
}

#[test]
fn persisted_token_resume_and_manual_reconnect() {
    // The account holds a valid persisted token, but the engine rejects
    // the fast resume once (the token is treated as expired and the
    // account falls back to full authentication), then accepts it on the
    // manual reconnect.
    let mut engine = MockEngine::new();
    engine.token_script = vec![
        Err(IoError { detail: s("the server rejected the token") }),
        Ok(LoginResponse::Success { uin: 10001 }),
    ];
    engine.auth_script = vec![Ok(LoginResponse::Success { uin: 10001 })];
    let mut store = MemStore {
        device: None,
        token: Some(SessionToken { raw: s("stale") }),
        token_writes: 0,
        token_deletes: 0,
    };
    let mut prompt = NoPrompt;

    let mut handle = login_with_password(
        &mut engine,
        &mut store,
        &mut prompt,
        10001,
        "pw",
        Protocol::IPad,
        100,
    )
    .expect("the login must succeed");

    // The stale token was deleted on the transport-level rejection, the
    // account fell back to full authentication, and the fresh token was
    // persisted: replaced wholesale.
    assert_eq!(store.token_deletes, 1);
    assert_eq!(store.token, Some(SessionToken { raw: s("token-1") }));
    assert_eq!(store.token_writes, 1);
    assert_eq!(engine.token_logins, 1);

    // The connection drops for network reasons; the task ends.
    engine.status = ConnStatus::NetworkOffline;
    let task = handle.take_task();
    assert!(task.is_some());

    let mut observer = CountingObserver { failures: 0 };
    handle
        .reconnect(&mut engine, &mut store, &mut observer, 10)
        .expect("the reconnect must succeed");

    // Exactly one reconnection attempt was made, none failed, and the
    // token file was rewritten with the resumed session's fresh token.
    assert_eq!(engine.token_logins, 2);
    assert_eq!(observer.failures, 0);
    assert_eq!(engine.waits, vec![10]);
    assert_eq!(store.token, Some(SessionToken { raw: s("token-2") }));
    assert_eq!(store.token_writes, 2);
    assert!(handle.take_task().is_some());
}

#[test]
fn rejected_token_response_aborts_the_login() {
    // The persisted token is answered with a response other than
    // success: the whole login aborts with an error carrying that
    // response, and the token file is left in place.
    let mut engine = MockEngine::new();
    engine.token_script = vec![Ok(LoginResponse::AccountFrozen)];
    let mut store = MemStore {
        device: None,
        token: Some(SessionToken { raw: s("kept") }),
        token_writes: 0,
        token_deletes: 0,
    };
    let mut prompt = NoPrompt;
    let r = login_with_password(
        &mut engine,
        &mut store,
        &mut prompt,
        10001,
        "pw",
        Protocol::IPad,
        100,
    );
    assert!(matches!(
        r,
        Err(LoginError::Auth(AuthRejected::Unknown { description }))
            if description == "the account is frozen"
    ));
    assert_eq!(store.token_deletes, 0);
    assert_eq!(store.token, Some(SessionToken { raw: s("kept") }));
    assert_eq!(store.token_writes, 0);
}

struct BadTokenStore;

impl Store for BadTokenStore {
    fn ensure_account_dir(&mut self, _uin: i64) -> Result<(), IoError> {
        Ok(())
    }

    fn read_device(&mut self, _uin: i64) -> Result<FileRead<JsonValue>, IoError> {
        Ok(FileRead::Missing)
    }

    fn write_device(&mut self, _uin: i64, _doc: &JsonValue) -> Result<(), IoError> {
        Ok(())
    }

    fn read_token(&mut self, _uin: i64) -> Result<FileRead<SessionToken>, IoError> {
        Ok(FileRead::Malformed)
    }

    fn write_token(&mut self, _uin: i64, _token: &SessionToken) -> Result<(), IoError> {
        Ok(())
    }

    fn delete_token(&mut self, _uin: i64) -> Result<(), IoError> {
        Ok(())
    }
}

#[test]
fn malformed_token_file_aborts_the_login() {
    let mut engine = MockEngine::new();
    let mut store = BadTokenStore;
    let mut prompt = NoPrompt;
    let r = login_with_password(
        &mut engine,
        &mut store,
        &mut prompt,
        10001,
        "pw",
        Protocol::IPad,
        100,
    );
    assert!(matches!(r, Err(LoginError::TokenMalformed)));
}

#[test]
fn resume_decisions_are_exact() {
    assert_eq!(
        resume_decision(Ok(LoginResponse::Success { uin: 10001 })),
        ResumeDecision::Accepted
    );
    assert_eq!(
        resume_decision(Ok(LoginResponse::AccountFrozen)),
        ResumeDecision::Rejected(LoginResponse::AccountFrozen)
    );
    assert_eq!(
        resume_decision(Ok(LoginResponse::Unknown { description: s("raw") })),
        ResumeDecision::Rejected(LoginResponse::Unknown { description: s("raw") })
    );
    assert_eq!(
        resume_decision(Err(IoError { detail: s("link down") })),
        ResumeDecision::TokenExpired
    );
}

#[test]
fn finalizers_run_in_reverse_registration_order() {
    let mut lifecycle: Lifecycle<String> = Lifecycle::new();
    lifecycle.finalizer(s("close the store"));
    lifecycle.finalizer(s("stop the engine"));
    lifecycle.finalizer(s("flush the log"));
    let hooks = lifecycle.do_finalize();
    assert_eq!(
        hooks,
        vec![s("flush the log"), s("stop the engine"), s("close the store")]
    );
    // The registry is empty afterwards.
    assert_eq!(lifecycle.do_finalize(), Vec::<String>::new());
}
