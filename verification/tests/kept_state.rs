//! Runs operations to their end against a service that keeps what it is given.
use lattice_storage::{
    ConnectReply, DeleteResult, Entry, LatticeState, NatsKvStorageConfig, NatsKvStorageEngine,
    ReadResult, Reply, Request, StorageError, Store, StoreOptions, StoreRead, StoreWrite,
    WriteResult,
};
use serde_json::Value;
use std::collections::HashMap;

#[derive(Default)]
struct Bucket {
    entries: HashMap<String, (Vec<u8>, u64, bool)>,
    last: u64,
}

impl Bucket {
    fn set(&mut self, key: &str, value: Vec<u8>) -> u64 {
        self.last += 1;
        self.entries.insert(key.to_string(), (value, self.last, false));
        self.last
    }

    fn delete(&mut self, key: &str) {
        self.last += 1;
        self.entries.insert(key.to_string(), (vec![], self.last, true));
    }

    fn revision(&self, key: &str) -> u64 {
        self.entries.get(key).map(|entry| entry.1).unwrap_or(0)
    }
}

#[derive(Default)]
struct Service {
    buckets: HashMap<String, Bucket>,
    served: Vec<&'static str>,
}

impl Service {
    fn serve(&mut self, request: Request<'_>) -> Reply {
        match request {
            Request::LookUpBucket { bucket } => {
                self.served.push("look up");
                Reply::LookedUp {
                    found: self.buckets.contains_key(bucket),
                }
            }
            Request::CreateBucket { bucket, history } => {
                self.served.push("create");
                assert_eq!(history, 10);
                self.buckets.insert(bucket.to_string(), Bucket::default());
                Reply::Created(Ok(()))
            }
            Request::FetchEntry { bucket, key } => {
                self.served.push("fetch");
                Reply::Fetched(Ok(self.buckets[bucket].entries.get(key).map(|entry| Entry {
                    value: entry.0.clone(),
                    revision: entry.1,
                    deleted: entry.2,
                })))
            }
            Request::Decode { value } => {
                self.served.push("decode");
                Reply::decoded(
                    serde_json::from_slice::<(String, Value)>(value)
                        .map(|(id, document)| LatticeState { id, document }),
                )
            }
            Request::Encode { state } => {
                self.served.push("encode");
                Reply::encoded(serde_json::to_vec(&(&state.id, &state.document)))
            }
            Request::Put { bucket, key, value } => {
                self.served.push("put");
                let bucket = self.buckets.get_mut(bucket).unwrap();
                Reply::Stored(Ok(bucket.set(key, value.clone())))
            }
            Request::Update {
                bucket,
                key,
                value,
                revision,
            } => {
                self.served.push("update");
                let bucket = self.buckets.get_mut(bucket).unwrap();
                if bucket.revision(key) == revision {
                    Reply::Stored(Ok(bucket.set(key, value.clone())))
                } else {
                    Reply::Stored(Err("wrong last sequence".to_string()))
                }
            }
            Request::Delete { bucket, key } => {
                self.served.push("delete");
                self.buckets.get_mut(bucket).unwrap().delete(key);
                Reply::Deleted(Ok(()))
            }
        }
    }

    fn read(&mut self, engine: &NatsKvStorageEngine, id: &str) -> ReadResult {
        let mut op = engine.read(id.to_string());
        loop {
            let reply = match op.request() {
                Some(request) => self.serve(request),
                None => return op.into_result().unwrap(),
            };
            op = op.next(reply);
        }
    }

    fn write(
        &mut self,
        engine: &mut NatsKvStorageEngine,
        state: &LatticeState,
        revision: Option<u64>,
    ) -> WriteResult {
        let opts = StoreOptions {
            require_cas: revision.is_some(),
            revision,
        };
        let mut op = engine.write(state, None, opts);
        loop {
            let reply = match op.request() {
                Some(request) => self.serve(request),
                None => return op.into_result().unwrap(),
            };
            op = op.next(reply);
        }
    }

    fn delete(&mut self, engine: &NatsKvStorageEngine, id: &str) -> DeleteResult {
        let mut op = engine.delete(id.to_string());
        loop {
            let reply = match op.request() {
                Some(request) => self.serve(request),
                None => return op.into_result().unwrap(),
            };
            op = op.next(reply);
        }
    }
}

fn engine() -> NatsKvStorageEngine {
    NatsKvStorageEngine::new(NatsKvStorageConfig {
        nats_url: "nats://127.0.0.1:4222".to_string(),
        lattice_bucket_prefix: None,
        auth: None,
    })
    .next(ConnectReply::Connected(Ok(())))
    .into_result()
    .unwrap()
    .unwrap()
}

fn state(id: &str, text: &str) -> LatticeState {
    LatticeState {
        id: id.to_string(),
        document: Value::String(text.to_string()),
    }
}

fn text(result: ReadResult) -> String {
    match result.unwrap().state.document {
        Value::String(text) => text,
        other => panic!("{other}"),
    }
}

#[test]
fn a_read_after_a_write_gives_the_written_state() {
    let (mut service, mut engine) = (Service::default(), engine());
    let stored = service.write(&mut engine, &state("a", "one"), None).unwrap();
    let found = service.read(&engine, "a").unwrap();
    assert_eq!(found.revision, stored.revision);
    assert_eq!(found.state.id, "a");
    assert_eq!(found.state.document, Value::String("one".to_string()));
    assert_eq!(
        service.served,
        ["look up", "create", "encode", "put", "look up", "fetch", "decode"]
    );
    let stored = service.write(&mut engine, &state("a", "two"), stored.revision).unwrap();
    assert_eq!(stored.revision, Some(2));
    assert_eq!(text(service.read(&engine, "a")), "two");
}

#[test]
fn no_update_is_lost() {
    let (mut service, mut engine) = (Service::default(), engine());
    service.write(&mut engine, &state("a", "one"), None).unwrap();
    let read = service.read(&engine, "a").unwrap().revision;
    service.write(&mut engine, &state("a", "first"), read).unwrap();
    match service.write(&mut engine, &state("a", "second"), read) {
        Err(StorageError::Unknown(text)) => assert_eq!(
            text,
            "de/serialization error occurred: wrong last sequence"
        ),
        other => panic!("{other:?}"),
    }
    assert_eq!(text(service.read(&engine, "a")), "first");
}

#[test]
fn no_update_is_lost_when_writers_interleave() {
    let (mut service, mut engine) = (Service::default(), engine());
    service.write(&mut engine, &state("a", "one"), None).unwrap();
    let (first, second) = (state("a", "first"), state("a", "second"));
    let opts = || StoreOptions {
        require_cas: true,
        revision: Some(1),
    };
    let mut one = engine.write(&first, None, opts());
    let mut two = engine.write(&second, None, opts());
    for _ in 0..2 {
        let reply = service.serve(one.request().unwrap());
        one = one.next(reply);
        let reply = service.serve(two.request().unwrap());
        two = two.next(reply);
    }
    assert!(matches!(one.request(), Some(Request::Update { revision: 1, .. })));
    assert!(matches!(two.request(), Some(Request::Update { revision: 1, .. })));
    let reply = service.serve(one.request().unwrap());
    assert_eq!(one.next(reply).into_result().unwrap().unwrap().revision, Some(2));
    service.write(&mut engine, &state("b", "other"), None).unwrap();
    service.read(&engine, "a").unwrap();
    let reply = service.serve(two.request().unwrap());
    match two.next(reply).into_result() {
        Some(Err(StorageError::Unknown(text))) => assert_eq!(
            text,
            "de/serialization error occurred: wrong last sequence"
        ),
        other => panic!("{other:?}"),
    }
    let found = service.read(&engine, "a").unwrap();
    assert_eq!(found.revision, Some(2));
    assert_eq!(found.state.document, Value::String("first".to_string()));
}

#[test]
fn a_read_of_an_unknown_lattice_finds_nothing_and_creates_the_bucket() {
    let (mut service, engine) = (Service::default(), engine());
    assert!(matches!(service.read(&engine, "a"), Err(StorageError::Engine(_))));
    assert!(service.buckets.contains_key("lattice_a"));
    assert_eq!(service.served, ["look up", "create", "fetch"]);
}

#[test]
fn a_deleted_state_is_not_read_back() {
    let (mut service, mut engine) = (Service::default(), engine());
    service.write(&mut engine, &state("a", "one"), None).unwrap();
    service.delete(&engine, "a").unwrap();
    match service.read(&engine, "a") {
        Err(StorageError::Unknown(text)) => assert_eq!(
            text,
            "de/serialization error occurred: EOF while parsing a value at line 1 column 0"
        ),
        other => panic!("{other:?}"),
    }
    service.write(&mut engine, &state("a", "again"), None).unwrap();
    assert_eq!(text(service.read(&engine, "a")), "again");
}

#[test]
fn a_write_stores_at_most_once() {
    let (mut service, mut engine) = (Service::default(), engine());
    service.write(&mut engine, &state("a", "one"), None).unwrap();
    service.write(&mut engine, &state("a", "two"), Some(1)).unwrap();
    service.write(&mut engine, &state("a", "three"), Some(1)).unwrap_err();
    let stores = |kind: &str| service.served.iter().filter(|served| **served == kind).count();
    assert_eq!(stores("put"), 1);
    assert_eq!(stores("update"), 2);
    assert_eq!(service.buckets["lattice_a"].last, 2);
}

#[test]
fn other_lattices_are_untouched() {
    let (mut service, mut engine) = (Service::default(), engine());
    service.write(&mut engine, &state("a", "one"), None).unwrap();
    service.write(&mut engine, &state("b", "two"), None).unwrap();
    service.delete(&engine, "b").unwrap();
    let found = service.read(&engine, "a").unwrap();
    assert_eq!(found.revision, Some(1));
    assert_eq!(found.state.document, Value::String("one".to_string()));
}
