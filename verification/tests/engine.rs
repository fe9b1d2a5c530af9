use mmkv_sys::accessor::{
    clear_all, contains_key, flag, get_bool, get_f32, get_f64, get_i32, get_i64, get_string,
    get_u32, get_u64, read_bool, read_f32, read_f64, read_i32, read_i64, read_string, read_u32,
    read_u64, remove_key, set_bool, set_f32, set_f64, set_i32, set_i64, set_string, set_u32,
    set_u64,
};
use mmkv_sys::call::{Call, Kind, Payload, Reply, Value};
use mmkv_sys::codes::{LogSeverity, ModeFlags};
use mmkv_sys::engine::MemoryEngine;
use mmkv_sys::instance::{initialize, open_default, open_named, opened, set_log_level, StoreHandle};
use mmkv_sys::view::StringView;

fn ready_engine() -> MemoryEngine {
    let mut engine = MemoryEngine::new();
    let reply = engine.perform(&initialize("/tmp/store", LogSeverity::Info).unwrap());
    assert_eq!(reply, Reply::Done);
    engine
}

fn open_store(engine: &mut MemoryEngine, id: &str, mode: ModeFlags) -> Option<StoreHandle> {
    opened(&engine.perform(&open_named(id, mode, None, None, 0).unwrap()))
}

fn writable_store(engine: &mut MemoryEngine, id: &str) -> StoreHandle {
    open_store(engine, id, ModeFlags::single_process()).unwrap()
}

#[test]
fn count_is_written_read_removed_and_missed() {
    let mut engine = MemoryEngine::new();
    engine.perform(&initialize("/tmp/store", LogSeverity::Info).unwrap());
    let h = opened(&engine.perform(&open_default(ModeFlags::single_process(), None))).unwrap();
    assert!(flag(&engine.perform(&set_i32(&h, "count", 42))));
    assert_eq!(read_i32(&engine.perform(&get_i32(&h, "count")), 0), (42, true));
    assert!(flag(&engine.perform(&remove_key(&h, "count"))));
    assert_eq!(read_i32(&engine.perform(&get_i32(&h, "count")), 0), (0, false));
}

#[test]
fn new_engine_is_not_set_up() {
    let engine = MemoryEngine::new();
    assert!(!engine.is_initialized());
    assert_eq!(engine.log_level(), LogSeverity::Debug);
    assert_eq!(engine.live_handles(), 0);
}

#[test]
fn initialize_sets_the_threshold_once() {
    let mut engine = MemoryEngine::new();
    engine.perform(&initialize("/first", LogSeverity::Warning).unwrap());
    assert!(engine.is_initialized());
    assert_eq!(engine.log_level(), LogSeverity::Warning);
    engine.perform(&initialize("/second", LogSeverity::Error).unwrap());
    assert!(engine.is_initialized());
    assert_eq!(engine.log_level(), LogSeverity::Warning);
}

#[test]
fn initialize_leaves_open_stores_alone() {
    let mut engine = ready_engine();
    let h = writable_store(&mut engine, "kept");
    engine.perform(&set_u32(&h, "k", 1));
    engine.perform(&initialize("/elsewhere", LogSeverity::Off).unwrap());
    assert_eq!(read_u32(&engine.perform(&get_u32(&h, "k")), 0), (1, true));
    assert_eq!(engine.live_handles(), 1);
}

#[test]
fn set_log_level_changes_the_threshold() {
    let mut engine = ready_engine();
    for level in [
        LogSeverity::Off,
        LogSeverity::Debug,
        LogSeverity::Error,
        LogSeverity::Warning,
        LogSeverity::Info,
    ] {
        assert_eq!(engine.perform(&set_log_level(level)), Reply::Done);
        assert_eq!(engine.log_level(), level);
    }
}

#[test]
fn calls_with_unknown_codes_change_nothing() {
    let mut engine = ready_engine();
    engine.perform(&Call::SetLogLevel { level: 9 });
    assert_eq!(engine.log_level(), LogSeverity::Info);
    for mode in [0u32, 3, 32, 35, 64] {
        let reply = engine.perform(&Call::Open {
            id: None,
            mode,
            crypt_key: None,
            root_path: None,
            expected_capacity: 0,
        });
        assert_eq!(reply, Reply::Handle(0));
    }
    assert_eq!(engine.live_handles(), 0);
}

#[test]
fn nothing_opens_before_the_engine_is_set_up() {
    let mut engine = MemoryEngine::new();
    let reply = engine.perform(&open_default(ModeFlags::single_process(), None));
    assert_eq!(reply, Reply::Handle(0));
    assert!(opened(&reply).is_none());
    assert!(open_store(&mut engine, "named", ModeFlags::multi_process()).is_none());
    assert_eq!(engine.live_handles(), 0);
}

#[test]
fn a_missing_store_does_not_open_for_reading_only() {
    let mut engine = ready_engine();
    assert!(open_store(&mut engine, "absent", ModeFlags::single_process().with_read_only())
        .is_none());
    assert!(opened(
        &engine.perform(&open_default(ModeFlags::multi_process().with_read_only(), None))
    )
    .is_none());
    assert_eq!(engine.live_handles(), 0);
    let writer = writable_store(&mut engine, "absent");
    assert!(open_store(&mut engine, "absent", ModeFlags::single_process().with_read_only())
        .is_some());
    engine.perform(&writer.close());
}

#[test]
fn tokens_count_from_one_and_free_places_are_taken_first() {
    let mut engine = ready_engine();
    let first = engine.perform(&open_default(ModeFlags::single_process(), None));
    let second = engine.perform(&open_default(ModeFlags::single_process(), None));
    let third = engine.perform(&open_default(ModeFlags::single_process(), None));
    assert_eq!(first, Reply::Handle(1));
    assert_eq!(second, Reply::Handle(2));
    assert_eq!(third, Reply::Handle(3));
    engine.perform(&opened(&second).unwrap().close());
    assert_eq!(engine.live_handles(), 2);
    assert_eq!(engine.perform(&open_default(ModeFlags::single_process(), None)), Reply::Handle(2));
    engine.perform(&opened(&first).unwrap().close());
    engine.perform(&opened(&third).unwrap().close());
    assert_eq!(engine.perform(&open_default(ModeFlags::single_process(), None)), Reply::Handle(1));
}

#[test]
fn every_type_is_read_back_as_written() {
    let mut engine = ready_engine();
    let h = writable_store(&mut engine, "types");
    assert!(flag(&engine.perform(&set_bool(&h, "b", true))));
    assert_eq!(read_bool(&engine.perform(&get_bool(&h, "b")), false), (true, true));
    assert!(flag(&engine.perform(&set_i32(&h, "i", i32::MIN))));
    assert_eq!(read_i32(&engine.perform(&get_i32(&h, "i")), 0), (i32::MIN, true));
    assert!(flag(&engine.perform(&set_u32(&h, "u", u32::MAX))));
    assert_eq!(read_u32(&engine.perform(&get_u32(&h, "u")), 0), (u32::MAX, true));
    assert!(flag(&engine.perform(&set_i64(&h, "l", i64::MIN))));
    assert_eq!(read_i64(&engine.perform(&get_i64(&h, "l")), 0), (i64::MIN, true));
    assert!(flag(&engine.perform(&set_u64(&h, "ul", u64::MAX))));
    assert_eq!(read_u64(&engine.perform(&get_u64(&h, "ul")), 0), (u64::MAX, true));
    assert!(flag(&engine.perform(&set_f32(&h, "f", 3.25f32.to_bits()))));
    let (bits, present) = read_f32(&engine.perform(&get_f32(&h, "f")), 0);
    assert_eq!((f32::from_bits(bits), present), (3.25f32, true));
    assert!(flag(&engine.perform(&set_f64(&h, "d", (-1e300f64).to_bits()))));
    let (bits, present) = read_f64(&engine.perform(&get_f64(&h, "d")), 0);
    assert_eq!((f64::from_bits(bits), present), (-1e300f64, true));
    assert!(flag(&engine.perform(&set_string(&h, "s", "héllo"))));
    assert_eq!(
        read_string(&engine.perform(&get_string(&h, "s")), "none"),
        (String::from("héllo"), true)
    );
}

#[test]
fn a_float_that_is_no_number_keeps_its_bits() {
    let mut engine = ready_engine();
    let h = writable_store(&mut engine, "nan");
    let bits = f64::NAN.to_bits() | 0x5;
    assert!(flag(&engine.perform(&set_f64(&h, "nan", bits))));
    let (read, present) = read_f64(&engine.perform(&get_f64(&h, "nan")), 0);
    assert!(present);
    assert_eq!(read, bits);
    assert!(f64::from_bits(read).is_nan());
}

#[test]
fn a_value_equal_to_the_default_is_still_present() {
    let mut engine = ready_engine();
    let h = writable_store(&mut engine, "zero");
    engine.perform(&set_i32(&h, "zero", 0));
    assert_eq!(read_i32(&engine.perform(&get_i32(&h, "zero")), 0), (0, true));
    engine.perform(&set_string(&h, "empty", ""));
    assert_eq!(read_string(&engine.perform(&get_string(&h, "empty")), ""), (String::new(), true));
}

#[test]
fn a_later_write_replaces_the_earlier_one() {
    let mut engine = ready_engine();
    let h = writable_store(&mut engine, "twice");
    engine.perform(&set_i32(&h, "k", 1));
    engine.perform(&set_i32(&h, "k", 2));
    assert_eq!(read_i32(&engine.perform(&get_i32(&h, "k")), 0), (2, true));
    engine.perform(&set_string(&h, "k", "now text"));
    assert_eq!(read_i32(&engine.perform(&get_i32(&h, "k")), 7), (7, false));
    assert_eq!(
        read_string(&engine.perform(&get_string(&h, "k")), ""),
        (String::from("now text"), true)
    );
}

#[test]
fn a_write_leaves_other_keys_alone() {
    let mut engine = ready_engine();
    let h = writable_store(&mut engine, "many");
    engine.perform(&set_u64(&h, "a", 1));
    engine.perform(&set_u64(&h, "b", 2));
    engine.perform(&set_u64(&h, "c", 3));
    engine.perform(&set_u64(&h, "b", 20));
    engine.perform(&remove_key(&h, "a"));
    assert_eq!(read_u64(&engine.perform(&get_u64(&h, "a")), 0), (0, false));
    assert_eq!(read_u64(&engine.perform(&get_u64(&h, "b")), 0), (20, true));
    assert_eq!(read_u64(&engine.perform(&get_u64(&h, "c")), 0), (3, true));
}

#[test]
fn keys_that_were_never_written_give_the_default() {
    let mut engine = ready_engine();
    let h = writable_store(&mut engine, "fresh");
    assert_eq!(read_bool(&engine.perform(&get_bool(&h, "k")), true), (true, false));
    assert_eq!(read_i32(&engine.perform(&get_i32(&h, "k")), -5), (-5, false));
    assert_eq!(read_u32(&engine.perform(&get_u32(&h, "k")), 5), (5, false));
    assert_eq!(read_i64(&engine.perform(&get_i64(&h, "k")), -6), (-6, false));
    assert_eq!(read_u64(&engine.perform(&get_u64(&h, "k")), 6), (6, false));
    assert_eq!(read_f32(&engine.perform(&get_f32(&h, "k")), 7), (7, false));
    assert_eq!(read_f64(&engine.perform(&get_f64(&h, "k")), 8), (8, false));
    assert_eq!(
        read_string(&engine.perform(&get_string(&h, "k")), "dflt"),
        (String::from("dflt"), false)
    );
    assert!(!flag(&engine.perform(&contains_key(&h, "k"))));
}

#[test]
fn a_read_of_another_type_gives_the_default() {
    let mut engine = ready_engine();
    let h = writable_store(&mut engine, "typed");
    engine.perform(&set_i32(&h, "k", 5));
    assert_eq!(engine.perform(&get_u32(&h, "k")), Reply::Read(None));
    assert_eq!(read_u32(&engine.perform(&get_u32(&h, "k")), 1), (1, false));
    assert_eq!(read_bool(&engine.perform(&get_bool(&h, "k")), false), (false, false));
    assert!(flag(&engine.perform(&contains_key(&h, "k"))));
}

#[test]
fn stored_bytes_that_spell_no_text_read_as_missing() {
    let mut engine = ready_engine();
    let h = writable_store(&mut engine, "raw");
    let token = match contains_key(&h, "k") {
        Call::ContainsKey { handle, .. } => handle,
        other => panic!("unexpected call {:?}", other),
    };
    let raw = [0xffu8, 0xfe];
    let reply = engine.perform(&Call::Put {
        handle: token,
        key: StringView::new("k"),
        value: Payload::Text(StringView::from_bytes(&raw)),
    });
    assert!(flag(&reply));
    assert_eq!(
        engine.perform(&get_string(&h, "k")),
        Reply::Read(Some(Value::Text(vec![0xff, 0xfe])))
    );
    assert_eq!(
        read_string(&engine.perform(&get_string(&h, "k")), "dflt"),
        (String::from("dflt"), false)
    );
}

#[test]
fn contains_follows_writes_and_removals() {
    let mut engine = ready_engine();
    let h = writable_store(&mut engine, "c");
    assert!(!flag(&engine.perform(&contains_key(&h, "k"))));
    engine.perform(&set_bool(&h, "k", false));
    assert!(flag(&engine.perform(&contains_key(&h, "k"))));
    assert!(flag(&engine.perform(&remove_key(&h, "k"))));
    assert!(!flag(&engine.perform(&contains_key(&h, "k"))));
}

#[test]
fn removing_a_missing_key_says_no_and_changes_nothing() {
    let mut engine = ready_engine();
    let h = writable_store(&mut engine, "r");
    engine.perform(&set_i32(&h, "kept", 1));
    assert!(!flag(&engine.perform(&remove_key(&h, "missing"))));
    assert!(!flag(&engine.perform(&contains_key(&h, "missing"))));
    assert_eq!(read_i32(&engine.perform(&get_i32(&h, "kept")), 0), (1, true));
}

#[test]
fn clear_all_removes_every_key() {
    for keep_space in [true, false] {
        let mut engine = ready_engine();
        let h = writable_store(&mut engine, "cleared");
        let keys = ["a", "b", "c", "", "long key with spaces"];
        for (i, key) in keys.iter().enumerate() {
            assert!(flag(&engine.perform(&set_u64(&h, key, i as u64))));
        }
        assert_eq!(engine.perform(&clear_all(&h, keep_space)), Reply::Done);
        for key in keys {
            assert!(!flag(&engine.perform(&contains_key(&h, key))));
            assert_eq!(read_u64(&engine.perform(&get_u64(&h, key)), 77), (77, false));
        }
        assert!(flag(&engine.perform(&set_u64(&h, "a", 5))));
        assert_eq!(read_u64(&engine.perform(&get_u64(&h, "a")), 0), (5, true));
    }
}

#[test]
fn a_handle_for_reading_only_cannot_change_the_store() {
    let mut engine = ready_engine();
    let writer = writable_store(&mut engine, "shared");
    engine.perform(&set_i32(&writer, "k", 1));
    let reader =
        open_store(&mut engine, "shared", ModeFlags::single_process().with_read_only()).unwrap();
    assert!(!flag(&engine.perform(&set_i32(&reader, "k", 2))));
    assert!(!flag(&engine.perform(&set_i32(&reader, "new", 2))));
    assert!(!flag(&engine.perform(&remove_key(&reader, "k"))));
    engine.perform(&clear_all(&reader, true));
    assert_eq!(read_i32(&engine.perform(&get_i32(&reader, "k")), 0), (1, true));
    assert!(flag(&engine.perform(&contains_key(&reader, "k"))));
    assert!(!flag(&engine.perform(&contains_key(&reader, "new"))));
    engine.perform(&set_i32(&writer, "k", 3));
    assert_eq!(read_i32(&engine.perform(&get_i32(&reader, "k")), 0), (3, true));
}

#[test]
fn two_handles_on_one_identifier_share_the_store() {
    let mut engine = ready_engine();
    let first = open_store(&mut engine, "same", ModeFlags::multi_process()).unwrap();
    let second = open_store(&mut engine, "same", ModeFlags::multi_process()).unwrap();
    assert!(flag(&engine.perform(&set_string(&first, "k", "seen"))));
    assert_eq!(
        read_string(&engine.perform(&get_string(&second, "k")), ""),
        (String::from("seen"), true)
    );
    assert!(flag(&engine.perform(&remove_key(&second, "k"))));
    assert!(!flag(&engine.perform(&contains_key(&first, "k"))));
    assert_eq!(engine.live_handles(), 2);
}

#[test]
fn two_handles_on_the_default_store_share_it() {
    let mut engine = ready_engine();
    let first = opened(&engine.perform(&open_default(ModeFlags::single_process(), None))).unwrap();
    let second =
        opened(&engine.perform(&open_default(ModeFlags::single_process(), None))).unwrap();
    engine.perform(&set_u32(&first, "k", 11));
    assert_eq!(read_u32(&engine.perform(&get_u32(&second, "k")), 0), (11, true));
}

#[test]
fn stores_with_different_identifiers_are_apart() {
    let mut engine = ready_engine();
    let a = writable_store(&mut engine, "a");
    let b = writable_store(&mut engine, "b");
    let default = opened(&engine.perform(&open_default(ModeFlags::single_process(), None)))
        .unwrap();
    let empty = writable_store(&mut engine, "");
    engine.perform(&set_i32(&a, "k", 1));
    engine.perform(&set_i32(&default, "k", 3));
    assert_eq!(read_i32(&engine.perform(&get_i32(&a, "k")), 0), (1, true));
    assert_eq!(read_i32(&engine.perform(&get_i32(&b, "k")), 0), (0, false));
    assert_eq!(read_i32(&engine.perform(&get_i32(&default, "k")), 0), (3, true));
    assert_eq!(read_i32(&engine.perform(&get_i32(&empty, "k")), 0), (0, false));
}

#[test]
fn a_store_outlives_its_handles() {
    let mut engine = ready_engine();
    let h = writable_store(&mut engine, "durable");
    engine.perform(&set_i64(&h, "k", -9));
    assert_eq!(engine.perform(&h.close()), Reply::Done);
    assert_eq!(engine.live_handles(), 0);
    let again =
        open_store(&mut engine, "durable", ModeFlags::single_process().with_read_only()).unwrap();
    assert_eq!(read_i64(&engine.perform(&get_i64(&again, "k")), 0), (-9, true));
}

#[test]
fn a_token_that_names_nothing_reads_nothing_and_writes_nothing() {
    let mut engine = ready_engine();
    let h = writable_store(&mut engine, "real");
    engine.perform(&set_i32(&h, "k", 1));
    for token in [0usize, 2, 99, usize::MAX] {
        let key = StringView::new("k");
        assert_eq!(
            engine.perform(&Call::Put { handle: token, key, value: Payload::I32(5) }),
            Reply::Flag(false)
        );
        assert_eq!(
            engine.perform(&Call::Get { handle: token, key, kind: Kind::I32 }),
            Reply::Read(None)
        );
        assert_eq!(engine.perform(&Call::ContainsKey { handle: token, key }), Reply::Flag(false));
        assert_eq!(engine.perform(&Call::RemoveKey { handle: token, key }), Reply::Flag(false));
        assert_eq!(
            engine.perform(&Call::ClearAll { handle: token, keep_space: true }),
            Reply::Done
        );
        assert_eq!(engine.perform(&Call::Close { handle: token }), Reply::Done);
    }
    assert_eq!(engine.live_handles(), 1);
    assert_eq!(read_i32(&engine.perform(&get_i32(&h, "k")), 0), (1, true));
}

#[test]
fn open_and_close_count_handles() {
    let mut engine = ready_engine();
    assert_eq!(engine.live_handles(), 0);
    let a = writable_store(&mut engine, "a");
    assert_eq!(engine.live_handles(), 1);
    let b = writable_store(&mut engine, "b");
    let c = writable_store(&mut engine, "a");
    assert_eq!(engine.live_handles(), 3);
    engine.perform(&b.close());
    assert_eq!(engine.live_handles(), 2);
    engine.perform(&a.close());
    engine.perform(&c.close());
    assert_eq!(engine.live_handles(), 0);
}

#[test]
fn ten_thousand_handles_come_and_go_without_a_leak() {
    let mut engine = ready_engine();
    let keeper = writable_store(&mut engine, "cycle");
    for round in 0..10_000u32 {
        let reply = engine.perform(&open_named("cycle", ModeFlags::single_process(), None, None, 0)
            .unwrap());
        assert_eq!(reply, Reply::Handle(2));
        let h = opened(&reply).unwrap();
        assert_eq!(engine.live_handles(), 2);
        assert!(flag(&engine.perform(&set_u32(&h, "round", round))));
        assert_eq!(read_u32(&engine.perform(&get_u32(&h, "round")), 0), (round, true));
        assert_eq!(engine.perform(&h.close()), Reply::Done);
        assert_eq!(engine.live_handles(), 1);
    }
    assert_eq!(read_u32(&engine.perform(&get_u32(&keeper, "round")), 0), (9_999, true));
    engine.perform(&keeper.close());
    assert_eq!(engine.live_handles(), 0);
}

#[test]
fn failed_opens_leave_nothing_to_release() {
    let mut engine = ready_engine();
    for _ in 0..100 {
        assert!(open_store(&mut engine, "nowhere", ModeFlags::multi_process().with_read_only())
            .is_none());
    }
    assert_eq!(engine.live_handles(), 0);
    assert_eq!(
        engine.perform(&open_named("next", ModeFlags::single_process(), None, None, 0).unwrap()),
        Reply::Handle(1)
    );
}

#[test]
fn hints_do_not_change_what_a_store_holds() {
    let mut engine = ready_engine();
    let plain = opened(&engine.perform(
        &open_named("hinted", ModeFlags::single_process(), None, None, 0).unwrap(),
    ))
    .unwrap();
    engine.perform(&set_i32(&plain, "k", 4));
    let hinted = opened(&engine.perform(
        &open_named("hinted", ModeFlags::single_process(), Some("key"), Some("/other"), 1 << 20)
            .unwrap(),
    ))
    .unwrap();
    assert_eq!(read_i32(&engine.perform(&get_i32(&hinted, "k")), 0), (4, true));
}
