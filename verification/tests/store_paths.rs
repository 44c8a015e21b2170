use chocho_session::device::FormatError;
use chocho_session::errors::{IoError, LoginError};
use chocho_session::gen::random_from_uin;
use chocho_session::json::JsonValue;
use chocho_session::store::{
    account_dir, device_path, load_or_create_identity, token_from_file, token_path,
    try_load_token, FileRead, SessionToken, Store,
};

fn clone_json(v: &JsonValue) -> JsonValue {
    match v {
        JsonValue::Null => JsonValue::Null,
        JsonValue::Bool(b) => JsonValue::Bool(*b),
        JsonValue::Int(i) => JsonValue::Int(*i),
        JsonValue::Str(s) => JsonValue::Str(s.clone()),
        JsonValue::Arr(a) => JsonValue::Arr(a.iter().map(clone_json).collect()),
        JsonValue::Obj(o) => {
            JsonValue::Obj(o.iter().map(|(k, x)| (k.clone(), clone_json(x))).collect())
        }
        JsonValue::Other => JsonValue::Other,
    }
}

/// An in-memory store for one account.
struct MemStore {
    dir_exists: bool,
    device: Option<JsonValue>,
    device_malformed: bool,
    token: Option<SessionToken>,
    token_malformed: bool,
    device_writes: usize,
    token_writes: usize,
}

impl MemStore {
    fn empty() -> MemStore {
        MemStore {
            dir_exists: false,
            device: None,
            device_malformed: false,
            token: None,
            token_malformed: false,
            device_writes: 0,
            token_writes: 0,
        }
    }
}

impl Store for MemStore {
    fn ensure_account_dir(&mut self, _uin: i64) -> Result<(), IoError> {
        self.dir_exists = true;
        Ok(())
    }

    fn read_device(&mut self, _uin: i64) -> Result<FileRead<JsonValue>, IoError> {
        if self.device_malformed {
            return Ok(FileRead::Malformed);
        }
        match &self.device {
            Some(v) => Ok(FileRead::Present(clone_json(v))),
            None => Ok(FileRead::Missing),
        }
    }

    fn write_device(&mut self, _uin: i64, doc: &JsonValue) -> Result<(), IoError> {
        self.device = Some(clone_json(doc));
        self.device_writes += 1;
        Ok(())
    }

    fn read_token(&mut self, _uin: i64) -> Result<FileRead<SessionToken>, IoError> {
        if self.token_malformed {
            return Ok(FileRead::Malformed);
        }
        match &self.token {
            Some(t) => Ok(FileRead::Present(t.clone())),
            None => Ok(FileRead::Missing),
        }
    }

    fn write_token(&mut self, _uin: i64, token: &SessionToken) -> Result<(), IoError> {
        self.token = Some(token.clone());
        self.token_writes += 1;
        Ok(())
    }

    fn delete_token(&mut self, _uin: i64) -> Result<(), IoError> {
        self.token = None;
        Ok(())
    }
}

#[test]
fn paths_follow_the_account_layout() {
    assert_eq!(account_dir("data", 10001), "data/10001");
    assert_eq!(account_dir("/var/lib/bot", 1), "/var/lib/bot/1");
    assert_eq!(account_dir("data", 0), "data/0");
    assert_eq!(account_dir("data", -42), "data/-42");
    assert_eq!(device_path("data", 10001), "data/10001/device.json");
    assert_eq!(token_path("data", 10001), "data/10001/token.json");
    assert_eq!(
        account_dir("d", i64::MIN),
        format!("d/{}", i64::MIN)
    );
    assert_eq!(account_dir("d", i64::MAX), format!("d/{}", i64::MAX));
}

#[test]
fn absent_token_file_is_no_token() {
    // A missing token file yields `None`, not an error.
    let mut store = MemStore::empty();
    assert_eq!(try_load_token(&mut store, 10001), Ok(None));
}

#[test]
fn malformed_token_file_is_an_error() {
    assert_eq!(
        token_from_file(FileRead::Malformed),
        Err(LoginError::TokenMalformed)
    );
    let t = SessionToken { raw: "opaque".to_string() };
    assert_eq!(
        token_from_file(FileRead::Present(t.clone())),
        Ok(Some(t))
    );
    let mut store = MemStore::empty();
    store.token_malformed = true;
    assert_eq!(
        try_load_token(&mut store, 10001),
        Err(LoginError::TokenMalformed)
    );
}

#[test]
fn missing_device_file_is_generated_and_written() {
    let mut store = MemStore::empty();
    let d = load_or_create_identity(&mut store, 10001).expect("creation must succeed");
    assert!(store.dir_exists);
    assert_eq!(store.device_writes, 1);
    assert_eq!(d, random_from_uin(10001));
    // A second load reads the persisted document back to the same
    // identity without rewriting it.
    let again = load_or_create_identity(&mut store, 10001).expect("reload must succeed");
    assert_eq!(store.device_writes, 1);
    assert_eq!(again, d);
}

#[test]
fn persisted_device_file_wins_over_generation() {
    let mut store = MemStore::empty();
    store.device = Some(JsonValue::Obj(vec![(
        "display".to_string(),
        JsonValue::Str("persisted".to_string()),
    )]));
    let d = load_or_create_identity(&mut store, 10001).expect("load must succeed");
    assert_eq!(d.display, "persisted");
    // Absent fields come from the generated fallback.
    assert_eq!(d.imei, random_from_uin(10001).imei);
    assert_eq!(store.device_writes, 0);
}

#[test]
fn malformed_device_file_aborts() {
    let mut store = MemStore::empty();
    store.device_malformed = true;
    assert_eq!(
        load_or_create_identity(&mut store, 10001),
        Err(LoginError::Format(FormatError::NotAnObject))
    );
    let mut store = MemStore::empty();
    store.device = Some(JsonValue::Obj(vec![(
        "deviceInfoVersion".to_string(),
        JsonValue::Int(99),
    )]));
    assert_eq!(
        load_or_create_identity(&mut store, 10001),
        Err(LoginError::Format(FormatError::UnknownVersion(99)))
    );
}
