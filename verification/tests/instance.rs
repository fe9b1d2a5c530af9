use mmkv_sys::call::{Call, Reply, Value};
use mmkv_sys::codes::{LogSeverity, ModeFlags};
use mmkv_sys::instance::{
    initialize, open_default, open_named, opened, set_log_level, OpenError,
};
use mmkv_sys::view::NulError;

#[test]
fn initialize_carries_directory_and_threshold() {
    match initialize("/tmp/store", LogSeverity::Info).unwrap() {
        Call::Initialize { root_dir, level } => {
            assert_eq!(root_dir.as_bytes_with_nul(), b"/tmp/store\0");
            assert_eq!(level, 1);
        }
        other => panic!("unexpected call {:?}", other),
    }
}

#[test]
fn initialize_refuses_a_directory_with_a_zero_byte() {
    let refused = initialize("/tmp\0/store", LogSeverity::Debug).unwrap_err();
    assert_eq!(refused, NulError { position: 4 });
}

#[test]
fn set_log_level_carries_the_code() {
    for (level, code) in [
        (LogSeverity::Debug, 0),
        (LogSeverity::Info, 1),
        (LogSeverity::Warning, 2),
        (LogSeverity::Error, 3),
        (LogSeverity::Off, 4),
    ] {
        match set_log_level(level) {
            Call::SetLogLevel { level } => assert_eq!(level, code),
            other => panic!("unexpected call {:?}", other),
        }
    }
}

#[test]
fn open_default_names_no_store_and_no_path() {
    match open_default(ModeFlags::single_process(), None) {
        Call::Open { id, mode, crypt_key, root_path, expected_capacity } => {
            assert!(id.is_none());
            assert_eq!(mode, 1);
            assert!(crypt_key.is_none());
            assert!(root_path.is_none());
            assert_eq!(expected_capacity, 0);
        }
        other => panic!("unexpected call {:?}", other),
    }
}

#[test]
fn open_default_lends_the_encryption_key() {
    let secret = String::from("s3cret");
    match open_default(ModeFlags::multi_process().with_read_only(), Some(&secret)) {
        Call::Open { mode, crypt_key, .. } => {
            assert_eq!(mode, 34);
            let key = crypt_key.unwrap();
            assert_eq!(key.as_bytes(), b"s3cret");
            assert_eq!(key.as_bytes().as_ptr(), secret.as_ptr());
        }
        other => panic!("unexpected call {:?}", other),
    }
}

#[test]
fn open_named_carries_every_argument() {
    let call = open_named(
        "settings",
        ModeFlags::multi_process(),
        Some("key"),
        Some("/data/stores"),
        4096,
    )
    .unwrap();
    match call {
        Call::Open { id, mode, crypt_key, root_path, expected_capacity } => {
            assert_eq!(id.unwrap().as_bytes_with_nul(), b"settings\0");
            assert_eq!(mode, 2);
            assert_eq!(crypt_key.unwrap().as_bytes(), b"key");
            assert_eq!(root_path.unwrap().as_bytes_with_nul(), b"/data/stores\0");
            assert_eq!(expected_capacity, 4096);
        }
        other => panic!("unexpected call {:?}", other),
    }
}

#[test]
fn open_named_without_key_and_path() {
    match open_named("plain", ModeFlags::single_process().with_read_only(), None, None, 0).unwrap()
    {
        Call::Open { id, mode, crypt_key, root_path, expected_capacity } => {
            assert_eq!(id.unwrap().text(), b"plain");
            assert_eq!(mode, 33);
            assert!(crypt_key.is_none());
            assert!(root_path.is_none());
            assert_eq!(expected_capacity, 0);
        }
        other => panic!("unexpected call {:?}", other),
    }
}

#[test]
fn open_named_refuses_an_identifier_with_a_zero_byte() {
    let refused = open_named("bad\0id", ModeFlags::single_process(), None, None, 0).unwrap_err();
    assert_eq!(refused, OpenError::Identifier(NulError { position: 3 }));
}

#[test]
fn open_named_refuses_a_path_with_a_zero_byte() {
    let refused =
        open_named("good", ModeFlags::single_process(), None, Some("\0"), 0).unwrap_err();
    assert_eq!(refused, OpenError::RootPath(NulError { position: 0 }));
}

#[test]
fn open_named_reports_the_identifier_first() {
    let refused =
        open_named("a\0", ModeFlags::single_process(), None, Some("b\0"), 0).unwrap_err();
    assert_eq!(refused, OpenError::Identifier(NulError { position: 1 }));
}

#[test]
fn open_named_lets_a_zero_byte_pass_in_the_encryption_key() {
    let call = open_named("id", ModeFlags::single_process(), Some("k\0ey"), None, 0).unwrap();
    match call {
        Call::Open { crypt_key, .. } => assert_eq!(crypt_key.unwrap().as_bytes(), b"k\0ey"),
        other => panic!("unexpected call {:?}", other),
    }
}

#[test]
fn opened_takes_a_token_that_is_not_zero() {
    let handle = opened(&Reply::Handle(7)).unwrap();
    match handle.close() {
        Call::Close { handle } => assert_eq!(handle, 7),
        other => panic!("unexpected call {:?}", other),
    }
    assert!(opened(&Reply::Handle(usize::MAX)).is_some());
}

#[test]
fn opened_is_absent_for_zero_and_for_other_replies() {
    assert!(opened(&Reply::Handle(0)).is_none());
    assert!(opened(&Reply::Done).is_none());
    assert!(opened(&Reply::Flag(true)).is_none());
    assert!(opened(&Reply::Read(None)).is_none());
    assert!(opened(&Reply::Read(Some(Value::U64(7)))).is_none());
}
