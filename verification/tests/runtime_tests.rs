use riko::config::{Config, ConfigCachedFields, JniConfig};
use riko::iterator::ReturningIterator;
use riko::object::Pool;
use riko::returned::{Error, Returned};
use riko::sample;

#[test]
fn store_then_peek_observes_the_object() {
    let mut pool: Pool<String> = Pool::new();
    let love = pool.store("love".to_string());
    let work = pool.store("work".to_string());
    assert_ne!(love, work);
    assert_eq!((love, work), (0, 1));
    assert!(pool.alive(love) && pool.alive(work));
    assert_eq!(pool.peek(love, |text| text.clone()), "love");
    assert_eq!(pool.peek(work, |text| text.len()), 4);
    assert_eq!(pool.get(work), Some(&"work".to_string()));
}

#[test]
fn drop_then_not_alive() {
    let mut pool: Pool<i64> = Pool::new();
    let first = pool.store(7);
    let second = pool.store(8);
    pool.drop(first);
    assert!(!pool.alive(first));
    assert!(pool.alive(second));
    assert_eq!(pool.get(first), None);
    pool.drop(first);
    assert!(!pool.alive(first));
    assert_eq!(pool.get(second), Some(&8));
    let third = pool.store(9);
    assert_eq!(third, 2);
    assert!(!pool.alive(99));
    assert_eq!(pool.get(99), None);
}

#[test]
fn peek_mut_changes_the_object() {
    let mut pool: Pool<Vec<u8>> = Pool::new();
    let handle = pool.store(vec![1, 2]);
    let length = pool.peek_mut(handle, |mut bytes| {
        bytes.push(3);
        let n = bytes.len();
        (bytes, n)
    });
    assert_eq!(length, 3);
    assert_eq!(pool.get(handle), Some(&vec![1, 2, 3]));
    assert_eq!(pool.try_store(vec![]), Ok(1));
    assert!(!pool.exhausted());
}

#[test]
fn shelving_hands_out_handles() {
    let mut pool: Pool<String> = Pool::new();
    assert_eq!(pool.shelve_option(None), Returned { error: None, value: None });
    assert_eq!(pool.shelve_option(Some("a".into())), Returned { error: None, value: Some(0) });
    assert_eq!(pool.shelve_result(Ok("b".into())), Returned { error: None, value: Some(1) });
    let failure = Error::new("Canceled".into(), "oneshot canceled".into());
    assert_eq!(
        pool.shelve_result(Err(failure)),
        Returned {
            error: Some(Error { debug: "Canceled".into(), message: "oneshot canceled".into() }),
            value: None
        }
    );
    assert!(pool.alive(0) && pool.alive(1) && !pool.alive(2));
}

#[test]
fn sequence_in_the_pool() {
    let mut pool: Pool<ReturningIterator> = Pool::new();
    let handle = pool.store(ReturningIterator::new(vec![vec![1], vec![2, 3]]));
    let pull = |mut iterator: ReturningIterator| {
        let item = iterator.next();
        (iterator, item)
    };
    assert_eq!(pool.peek(handle, |iterator| iterator.remaining()), 2);
    assert_eq!(pool.peek_mut(handle, pull), Some(vec![1]));
    assert_eq!(pool.peek_mut(handle, pull), Some(vec![2, 3]));
    assert_eq!(pool.peek_mut(handle, pull), None);
    assert_eq!(pool.peek_mut(handle, pull), None);
    pool.drop(handle);
    assert!(!pool.alive(handle));
}

#[test]
fn cancel_after_completion_is_silent() {
    let mut tasks: riko::future::Pool<&'static str> = riko::future::Pool::new();
    let first = tasks.spawn(|_| "first");
    let second = tasks.spawn(|_| "second");
    assert_ne!(first, second);
    assert!(tasks.outstanding(first) && tasks.outstanding(second));

    assert_eq!(tasks.complete(first), Some("first"));
    assert!(!tasks.outstanding(first));
    tasks.cancel(first);
    assert!(!tasks.outstanding(first));
    assert!(tasks.outstanding(second));
    assert_eq!(tasks.complete(first), None);

    tasks.cancel(second);
    assert_eq!(tasks.complete(second), None);
    tasks.cancel(1000);

    let third = tasks.spawn(|handle| if handle == 2 { "third" } else { "other" });
    assert_eq!(third, 2);
    assert_eq!(tasks.complete(third), Some("third"));
    assert_eq!(tasks.new_handle(), 3);
    assert!(!tasks.exhausted());
}

#[test]
fn adding_two_numbers_end_to_end() {
    assert_eq!(sample::bridged_i32(2, 3), Returned { value: Some(5), error: None });
    assert_eq!(sample::_i32(-2, 2), 0);
    assert!(sample::_bool(true, true) && !sample::_bool(true, false));
}

#[test]
fn fallible_string_end_to_end() {
    let success: Result<String, Error> = Ok(sample::string("x".into(), "".into()));
    assert_eq!(Returned::from_result(success), Returned { value: Some("x".to_string()), error: None });
    let failure: Result<String, Error> = Err(Error::new("Canceled".into(), "oneshot canceled".into()));
    let envelope = Returned::from_result(failure);
    assert_eq!(envelope.value, None);
    assert_eq!(envelope.error.as_ref().unwrap().message, "oneshot canceled");
    assert!(envelope.is_failure());
}

#[test]
fn envelopes() {
    assert_eq!(Returned::from_value(1), Returned { value: Some(1), error: None });
    assert_eq!(Returned::<i32>::from_option(None), Returned { value: None, error: None });
    assert_eq!(Returned::from_option(Some(1)), Returned { value: Some(1), error: None });
    assert_eq!(Returned::<i32>::default(), Returned { value: None, error: None });
    assert!(!Returned::<i32>::default().is_failure());
    assert_eq!(
        Returned::from_result_option(sample::result_option(Some(1), Some(2))),
        Returned { value: Some(3), error: None }
    );
    assert_eq!(
        Returned::from_result_option(sample::result_option(Some(1), None)),
        Returned { value: None, error: None }
    );
    assert_eq!(
        Returned::from_result_option(sample::result_option(None, None)),
        Returned {
            value: None,
            error: Some(Error {
                debug: "Error".into(),
                message: "an error occurred when formatting".into()
            })
        }
    );
}

#[test]
fn structs() {
    let happy = sample::structs(sample::Love { target: "you".into() }, sample::Work { salary: 1 });
    assert!(happy.happy);
    let alone = sample::structs(sample::Love { target: "".into() }, sample::Work { salary: 1 });
    assert!(!alone.happy);
    let poor = sample::structs(sample::Love { target: "you".into() }, sample::Work { salary: 0 });
    assert!(!poor.happy);
    let unmarked = sample::ignored();
    assert_eq!(unmarked.ident, "ignored");
    assert!(unmarked.attrs.is_empty());
}

#[test]
fn configuration() {
    let mut config = Config::default();
    assert!(config.targets.is_empty());
    assert_eq!(config.jni, JniConfig { enabled: false });
    assert_eq!(config.cached, ConfigCachedFields::default());
    assert_eq!(config.cached.output_directory, vec!["target", "riko"]);
    config.targets.push("jni".into());
    let entry = vec!["crate".to_string(), "src".to_string(), "lib.rs".to_string()];
    config.expand_all_fields("sample", &vec!["workspace".into(), "target".into()], Some(&entry));
    assert_eq!(config.cached.crate_name, "sample");
    assert_eq!(config.cached.output_directory, vec!["workspace", "target", "riko"]);
    assert_eq!(config.cached.entry, entry);
    assert_eq!(config.targets, vec!["jni"]);
    config.expand_all_fields("other", &vec![], None);
    assert!(config.cached.entry.is_empty());
    assert_eq!(config.cached.output_directory, vec!["riko"]);
}

#[test]
fn module_of_a_source_file() {
    let segments = |path: &[&str]| path.iter().map(|s| s.to_string()).collect::<Vec<String>>();
    let mut config = Config::default();
    let entry = segments(&["crate", "src", "lib.rs"]);
    assert_eq!(config.guess_module(&entry).unwrap_err().message, "Unknown crate name.");
    config.expand_all_fields("sample", &vec![], None);
    assert_eq!(config.guess_module(&entry).unwrap_err().message, "Unknown crate entry.");
    config.expand_all_fields("sample", &vec![], Some(&entry));
    assert_eq!(config.guess_module(&entry), Ok(segments(&["sample"])));
    assert_eq!(
        config.guess_module(&segments(&["crate", "src", "util.rs"])),
        Ok(segments(&["sample", "util"]))
    );
    assert_eq!(
        config.guess_module(&segments(&["crate", "src", "util", "unix.rs"])),
        Ok(segments(&["sample", "util", "unix"]))
    );
    assert_eq!(
        config.guess_module(&segments(&["crate", "src", "util", "mod.rs"])),
        Ok(segments(&["sample", "util"]))
    );
    assert_eq!(
        config.guess_module(&segments(&["crate", "src", "util", "notes.txt"])),
        Ok(segments(&["sample", "util"]))
    );
    assert_eq!(
        config.guess_module(&segments(&["crate", "src", "a.rs.rs"])),
        Ok(segments(&["sample", "a"]))
    );
    assert_eq!(
        config.guess_module(&segments(&["other", "src", "util.rs"])).unwrap_err().message,
        "Source file outside of current crate"
    );
    assert_eq!(
        config.guess_module(&segments(&["crate"])).unwrap_err().message,
        "Source file outside of current crate"
    );
    assert_eq!(config.guess_module(&segments(&["crate", "src"])), Ok(vec![]));
    assert!(riko::config::ends_with("lib.rs", ".rs") && !riko::config::ends_with("rs", ".rs"));
    assert_eq!(riko::config::trim_end_matches("a.rs.rs", ".rs"), "a");
    assert_eq!(riko::config::trim_end_matches("a.rs", ""), "a.rs");
    assert_eq!(riko::config::trim_end_matches(".rs", ".rs"), "");
    assert_eq!(
        riko::config::locate(&segments(&["home", "crate", "src"])),
        vec![
            segments(&["home", "crate", "src", "Riko.toml"]),
            segments(&["home", "crate", "Riko.toml"]),
            segments(&["home", "Riko.toml"]),
        ]
    );
    assert!(riko::config::locate(&vec![]).is_empty());
}

#[test]
fn shelving_optional_results() {
    let mut pool: Pool<u8> = Pool::new();
    assert_eq!(pool.shelve_result_option(Ok(Some(7))), Returned { error: None, value: Some(0) });
    assert_eq!(pool.shelve_result_option(Ok(None)), Returned { error: None, value: None });
    let failure = Error::new("Failed".into(), "it failed".into());
    let envelope = pool.shelve_result_option(Err(failure));
    assert_eq!(envelope.value, None);
    assert_eq!(envelope.error.unwrap().debug, "Failed");
    assert_eq!(pool.get(0), Some(&7));
    assert!(!pool.alive(1));
}

fn on_the_wire(envelope: &Returned<i32>) -> Vec<u8> {
    let mut fields = std::collections::BTreeMap::new();
    let error = match &envelope.error {
        Some(error) => {
            let mut inner = std::collections::BTreeMap::new();
            inner.insert(
                serde_cbor::Value::Text("debug".into()),
                serde_cbor::Value::Text(error.debug.clone()),
            );
            inner.insert(
                serde_cbor::Value::Text("message".into()),
                serde_cbor::Value::Text(error.message.clone()),
            );
            serde_cbor::Value::Map(inner)
        }
        None => serde_cbor::Value::Null,
    };
    let value = match envelope.value {
        Some(value) => serde_cbor::Value::Integer(value.into()),
        None => serde_cbor::Value::Null,
    };
    fields.insert(serde_cbor::Value::Text("error".into()), error);
    fields.insert(serde_cbor::Value::Text("value".into()), value);
    serde_cbor::to_vec(&serde_cbor::Value::Map(fields)).unwrap()
}

#[test]
fn adding_encoded_numbers() {
    let a: i32 = serde_cbor::from_slice(&serde_cbor::to_vec(&2).unwrap()).unwrap();
    let b: i32 = serde_cbor::from_slice(&serde_cbor::to_vec(&3).unwrap()).unwrap();
    let envelope = sample::bridged_i32(a, b);
    assert_eq!(envelope, Returned { value: Some(5), error: None });
    let decoded: serde_cbor::Value = serde_cbor::from_slice(&on_the_wire(&envelope)).unwrap();
    match decoded {
        serde_cbor::Value::Map(fields) => {
            assert_eq!(
                fields.get(&serde_cbor::Value::Text("value".into())),
                Some(&serde_cbor::Value::Integer(5))
            );
            assert_eq!(
                fields.get(&serde_cbor::Value::Text("error".into())),
                Some(&serde_cbor::Value::Null)
            );
            assert_eq!(fields.len(), 2);
        }
        other => panic!("not a document: {:?}", other),
    }
}
