use lattice_storage::{
    ConnectReply, Deleting, Entry, LatticeState, LatticeStorage, NatsKvStorageConfig,
    NatsKvStorageEngine, Reading, Reply, Request, StorageError, Store, StoreOptions, StoreRead,
    StoreWrite, Writing, LATTICE_BUCKET_HISTORY, LATTICE_BUCKET_STATE_KEY,
};
use serde_json::Value;

fn engine(prefix: Option<&str>) -> NatsKvStorageEngine {
    let connecting = NatsKvStorageEngine::new(NatsKvStorageConfig {
        nats_url: "nats://127.0.0.1:4222".to_string(),
        lattice_bucket_prefix: prefix.map(|p| p.to_string()),
        auth: None,
    });
    connecting
        .next(ConnectReply::Connected(Ok(())))
        .into_result()
        .expect("the connection is over")
        .expect("the connection was made")
}

fn state(id: &str) -> LatticeState {
    LatticeState {
        id: id.to_string(),
        document: Value::String("hosts".to_string()),
    }
}

fn json_error() -> serde_json::Error {
    serde_json::from_slice::<Value>(b"").expect_err("no JSON value is empty")
}

fn shown(request: Option<Request<'_>>) -> String {
    match request {
        None => "nothing".to_string(),
        Some(Request::LookUpBucket { bucket }) => format!("look up {bucket}"),
        Some(Request::CreateBucket { bucket, history }) => format!("create {bucket} {history}"),
        Some(Request::FetchEntry { bucket, key }) => format!("fetch {bucket}.{key}"),
        Some(Request::Decode { value }) => format!("decode {value:?}"),
        Some(Request::Encode { state }) => format!("encode {} {}", state.id, state.document),
        Some(Request::Put { bucket, key, value }) => format!("put {bucket}.{key} {value:?}"),
        Some(Request::Update {
            bucket,
            key,
            value,
            revision,
        }) => format!("update {bucket}.{key} {value:?} at {revision}"),
        Some(Request::Delete { bucket, key }) => format!("delete {bucket}.{key}"),
    }
}

fn opened_read(id: &str) -> Reading {
    engine(None)
        .read(id.to_string())
        .next(Reply::LookedUp { found: true })
}

fn opened_write(state: &LatticeState, opts: StoreOptions) -> Writing<'_> {
    engine(None)
        .write(state, None, opts)
        .next(Reply::LookedUp { found: true })
}

fn opened_delete(id: &str) -> Deleting {
    engine(None)
        .delete(id.to_string())
        .next(Reply::LookedUp { found: true })
}

#[test]
fn bucket_name_without_prefix() {
    assert_eq!(engine(None).build_lattice_bucket_name("1".to_string()), "lattice_1");
}

#[test]
fn bucket_name_with_prefix() {
    assert_eq!(
        engine(Some("wadm")).build_lattice_bucket_name("default".to_string()),
        "wadm_lattice_default"
    );
}

#[test]
fn bucket_name_with_empty_prefix_and_empty_id() {
    assert_eq!(engine(Some("")).build_lattice_bucket_name(String::new()), "_lattice_");
}

#[test]
fn different_lattices_have_different_buckets() {
    for prefix in [None, Some("p")] {
        assert_ne!(
            engine(prefix).build_lattice_bucket_name("a".to_string()),
            engine(prefix).build_lattice_bucket_name("b".to_string())
        );
    }
}

#[test]
fn state_is_found_under_one_key_of_the_bucket() {
    assert_eq!(LATTICE_BUCKET_STATE_KEY, "state");
    assert_eq!(LATTICE_BUCKET_HISTORY, 10);
    assert_eq!(shown(opened_read("1").request()), "fetch lattice_1.state");
}

#[test]
fn read_uses_a_bucket_that_is_there() {
    let reading = engine(None).read("1".to_string());
    assert_eq!(shown(reading.request()), "look up lattice_1");
    let reading = reading.next(Reply::LookedUp { found: true });
    assert_eq!(shown(reading.request()), "fetch lattice_1.state");
    let reading = reading.next(Reply::Fetched(Ok(Some(Entry {
        value: vec![1, 2],
        revision: 9,
        deleted: false,
    }))));
    assert_eq!(shown(reading.request()), "decode [1, 2]");
    let reading = reading.next(Reply::decoded(Ok(state("1"))));
    assert_eq!(shown(reading.request()), "nothing");
    let found = reading.into_result().unwrap().unwrap();
    assert_eq!(found.revision, Some(9));
    assert_eq!(found.state.id, "1");
    assert_eq!(found.state.document, Value::String("hosts".to_string()));
}

#[test]
fn read_creates_a_bucket_that_is_missing() {
    let reading = engine(Some("p"))
        .read("1".to_string())
        .next(Reply::LookedUp { found: false });
    assert_eq!(shown(reading.request()), "create p_lattice_1 10");
    let reading = reading.next(Reply::Created(Ok(())));
    assert_eq!(shown(reading.request()), "fetch p_lattice_1.state");
}

#[test]
fn read_of_an_empty_bucket_fails() {
    let reading = opened_read("1").next(Reply::Fetched(Ok(None)));
    match reading.into_result() {
        Some(Err(StorageError::Engine(text))) => {
            assert_eq!(text, "No lattice state in bucket [lattice_1]")
        }
        other => panic!("{other:?}"),
    }
}

#[test]
fn read_reports_a_fetch_that_fails() {
    let reading = opened_read("1").next(Reply::Fetched(Err("timed out".to_string())));
    match reading.into_result() {
        Some(Err(StorageError::Unknown(text))) => {
            assert_eq!(text, "de/serialization error occurred: timed out")
        }
        other => panic!("{other:?}"),
    }
}

#[test]
fn read_reports_a_value_that_is_no_state() {
    let reading = opened_read("1")
        .next(Reply::Fetched(Ok(Some(Entry {
            value: vec![],
            revision: 1,
            deleted: false,
        }))))
        .next(Reply::decoded(Err(json_error())));
    match reading.into_result() {
        Some(Err(StorageError::Unknown(text))) => assert_eq!(
            text,
            "de/serialization error occurred: EOF while parsing a value at line 1 column 0"
        ),
        other => panic!("{other:?}"),
    }
}

#[test]
fn read_refuses_what_a_deletion_left() {
    let entry = |value: Vec<u8>, deleted| {
        Reply::Fetched(Ok(Some(Entry {
            value,
            revision: 3,
            deleted,
        })))
    };
    let reading = opened_read("1").next(entry(vec![], true));
    assert_eq!(shown(reading.request()), "nothing");
    match reading.into_result() {
        Some(Err(StorageError::Unknown(text))) => {
            assert_eq!(text, format!("de/serialization error occurred: {}", json_error()))
        }
        other => panic!("{other:?}"),
    }
    assert_eq!(shown(opened_read("1").next(entry(vec![], false)).request()), "decode []");
    assert_eq!(shown(opened_read("1").next(entry(vec![7], true)).request()), "decode [7]");
}

#[test]
fn every_operation_reports_a_bucket_that_cannot_be_created() {
    let state = state("1");
    let missing = || Reply::LookedUp { found: false };
    let refused = || Reply::Created(Err("no quota".to_string()));
    let mut engine = engine(None);
    let reading = engine.read("1".to_string()).next(missing()).next(refused());
    let deleting = engine.delete("1".to_string()).next(missing()).next(refused());
    let writing = engine
        .write(&state, None, StoreOptions::default())
        .next(missing())
        .next(refused());
    assert_eq!(shown(reading.request()), "nothing");
    assert_eq!(shown(writing.request()), "nothing");
    assert_eq!(shown(deleting.request()), "nothing");
    let errors = [
        reading.into_result().unwrap().unwrap_err(),
        writing.into_result().unwrap().unwrap_err(),
        deleting.into_result().unwrap().unwrap_err(),
    ];
    for error in errors {
        assert!(matches!(error, StorageError::Engine(_)));
        assert_eq!(
            error.to_string(),
            "Storage error: failed to create jetstream kv: no quota"
        );
    }
}

#[test]
fn stray_replies_are_ignored() {
    let reading = engine(None)
        .read("1".to_string())
        .next(Reply::Stored(Ok(3)))
        .next(Reply::Created(Ok(())))
        .next(Reply::decoded(Ok(state("1"))));
    assert_eq!(shown(reading.request()), "look up lattice_1");
    assert!(reading.into_result().is_none());
    let reading = opened_read("1").next(Reply::LookedUp { found: false });
    assert_eq!(shown(reading.request()), "fetch lattice_1.state");
    let deleting = opened_delete("1").next(Reply::Stored(Ok(3)));
    assert_eq!(shown(deleting.request()), "delete lattice_1.state");
    let state = state("1");
    let writing = opened_write(&state, StoreOptions::default()).next(Reply::Stored(Ok(3)));
    assert_eq!(shown(writing.request()), "encode 1 \"hosts\"");
}

#[test]
fn result_is_final() {
    let reading = opened_read("1")
        .next(Reply::Fetched(Ok(None)))
        .next(Reply::LookedUp { found: true })
        .next(Reply::Fetched(Ok(Some(Entry {
            value: vec![1],
            revision: 1,
            deleted: false,
        }))));
    assert!(matches!(reading.into_result(), Some(Err(StorageError::Engine(_)))));
}

#[test]
fn write_with_default_options_is_best_effort() {
    let state = state("1");
    let mut engine = engine(None);
    let writing = engine.write(&state, None, StoreOptions::default());
    assert_eq!(shown(writing.request()), "look up lattice_1");
    let writing = writing.next(Reply::LookedUp { found: false });
    assert_eq!(shown(writing.request()), "create lattice_1 10");
    let writing = writing.next(Reply::Created(Ok(())));
    assert_eq!(shown(writing.request()), "encode 1 \"hosts\"");
    let writing = writing.next(Reply::encoded(Ok(vec![4, 5])));
    assert_eq!(shown(writing.request()), "put lattice_1.state [4, 5]");
    let stored = writing
        .next(Reply::Stored(Ok(12)))
        .into_result()
        .unwrap()
        .unwrap();
    assert_eq!(stored.state, "1");
    assert_eq!(stored.revision, Some(12));
}

fn storing_request(require_cas: bool, revision: Option<u64>) -> String {
    let state = state("1");
    let opts = StoreOptions {
        require_cas,
        revision,
    };
    let writing = opened_write(&state, opts).next(Reply::encoded(Ok(vec![6])));
    shown(writing.request())
}

#[test]
fn write_compares_exactly_when_asked() {
    assert_eq!(storing_request(true, Some(7)), "update lattice_1.state [6] at 7");
    assert_eq!(storing_request(true, None), "put lattice_1.state [6]");
    assert_eq!(storing_request(false, Some(7)), "put lattice_1.state [6]");
    assert_eq!(storing_request(false, None), "put lattice_1.state [6]");
}

#[test]
fn expected_revision_needs_both_options() {
    let expected = |require_cas, revision| {
        StoreOptions {
            require_cas,
            revision,
        }
        .expected_revision()
    };
    assert_eq!(expected(true, Some(0)), Some(0));
    assert_eq!(expected(true, None), None);
    assert_eq!(expected(false, Some(0)), None);
}

#[test]
fn default_options() {
    let opts = StoreOptions::default();
    assert!(!opts.require_cas);
    assert_eq!(opts.revision, None);
}

#[test]
fn write_under_a_given_identifier() {
    let state = state("1");
    let mut engine = engine(None);
    let writing = engine.write(&state, Some("2".to_string()), StoreOptions::default());
    assert_eq!(shown(writing.request()), "look up lattice_2");
    let writing = writing.next(Reply::LookedUp { found: true });
    assert_eq!(shown(writing.request()), "encode 1 \"hosts\"");
    let stored = writing
        .next(Reply::encoded(Ok(vec![])))
        .next(Reply::Stored(Ok(1)))
        .into_result()
        .unwrap()
        .unwrap();
    assert_eq!(stored.state, "2");
}

#[test]
fn write_reports_a_state_that_cannot_be_encoded() {
    let state = state("1");
    let writing = opened_write(&state, StoreOptions::default())
        .next(Reply::encoded(Err(json_error())));
    match writing.into_result() {
        Some(Err(StorageError::Unknown(text))) => assert_eq!(
            text,
            "de/serialization error occurred: EOF while parsing a value at line 1 column 0"
        ),
        other => panic!("{other:?}"),
    }
}

#[test]
fn write_reports_a_store_that_is_refused() {
    let state = state("1");
    let opts = StoreOptions {
        require_cas: true,
        revision: Some(7),
    };
    let writing = opened_write(&state, opts)
        .next(Reply::encoded(Ok(vec![6])))
        .next(Reply::Stored(Err("wrong last sequence: 8".to_string())));
    match writing.into_result() {
        Some(Err(StorageError::Unknown(text))) => assert_eq!(
            text,
            "de/serialization error occurred: wrong last sequence: 8"
        ),
        other => panic!("{other:?}"),
    }
}

#[test]
fn delete_removes_the_state_of_the_lattice() {
    let deleting = engine(Some("p")).delete("1".to_string());
    assert_eq!(shown(deleting.request()), "look up p_lattice_1");
    let deleting = deleting.next(Reply::LookedUp { found: true });
    assert_eq!(shown(deleting.request()), "delete p_lattice_1.state");
    let deleting = deleting.next(Reply::Deleted(Ok(())));
    assert_eq!(shown(deleting.request()), "nothing");
    assert!(matches!(deleting.into_result(), Some(Ok(()))));
}

#[test]
fn delete_reports_a_refusal() {
    let deleting = opened_delete("1").next(Reply::Deleted(Err("no stream".to_string())));
    match deleting.into_result() {
        Some(Err(StorageError::Engine(text))) => {
            assert_eq!(text, "failed to delete lattice state: no stream")
        }
        other => panic!("{other:?}"),
    }
}

fn is_lattice_storage<E: LatticeStorage>(_: &E) {}

#[test]
fn get_reads_and_store_writes() {
    let state = state("1");
    let mut engine = engine(None);
    is_lattice_storage(&engine);
    assert_eq!(shown(engine.get("1".to_string()).request()), "look up lattice_1");
    let opts = StoreOptions {
        require_cas: true,
        revision: Some(2),
    };
    let writing = engine
        .store(&state, opts)
        .next(Reply::LookedUp { found: true })
        .next(Reply::encoded(Ok(vec![3])));
    assert_eq!(shown(writing.request()), "update lattice_1.state [3] at 2");
}

#[test]
fn read_gives_back_what_was_written() {
    let written = state("1");
    let mut engine = engine(Some("p"));
    let writing = engine
        .store(&written, StoreOptions::default())
        .next(Reply::LookedUp { found: false })
        .next(Reply::Created(Ok(())))
        .next(Reply::encoded(serde_json::to_vec(&written.document)));
    let (place, value) = match writing.request() {
        Some(Request::Put { bucket, key, value }) => (format!("{bucket}.{key}"), value.clone()),
        other => panic!("{other:?}"),
    };
    let stored = writing
        .next(Reply::Stored(Ok(5)))
        .into_result()
        .unwrap()
        .unwrap();

    let reading = engine
        .get(stored.state)
        .next(Reply::LookedUp { found: true });
    match reading.request() {
        Some(Request::FetchEntry { bucket, key }) => assert_eq!(format!("{bucket}.{key}"), place),
        other => panic!("{other:?}"),
    }
    let reading = reading.next(Reply::Fetched(Ok(Some(Entry {
        value,
        revision: 5,
        deleted: false,
    }))));
    let decoded = match reading.request() {
        Some(Request::Decode { value }) => {
            serde_json::from_slice(value).map(|document| LatticeState {
                id: "1".to_string(),
                document,
            })
        }
        other => panic!("{other:?}"),
    };
    let found = reading
        .next(Reply::decoded(decoded))
        .into_result()
        .unwrap()
        .unwrap();
    assert_eq!(found.state.id, written.id);
    assert_eq!(found.state.document, written.document);
    assert_eq!(found.revision, stored.revision);
}

#[test]
fn operations_end_after_their_last_answer() {
    let state = state("1");
    let mut engine = engine(None);
    let missing = || Reply::LookedUp { found: false };
    let reading = engine
        .read("1".to_string())
        .next(missing())
        .next(Reply::Created(Ok(())))
        .next(Reply::Fetched(Ok(Some(Entry {
            value: vec![],
            revision: 1,
            deleted: false,
        }))));
    assert!(reading.request().is_some());
    assert!(reading.next(Reply::decoded(Err(json_error()))).request().is_none());
    let deleting = engine
        .delete("1".to_string())
        .next(missing())
        .next(Reply::Created(Ok(())));
    assert!(deleting.request().is_some());
    assert!(deleting.next(Reply::Deleted(Ok(()))).request().is_none());
    let writing = engine
        .store(&state, StoreOptions::default())
        .next(missing())
        .next(Reply::Created(Ok(())))
        .next(Reply::encoded(Ok(vec![])));
    assert!(writing.request().is_some());
    assert!(writing.next(Reply::Stored(Ok(1))).request().is_none());
}
