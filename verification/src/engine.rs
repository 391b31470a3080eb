//! The storage engine backed by NATS KV.
use crate::bucket::lattice_bucket_name;
use crate::config::NatsKvStorageConfig;
use crate::connect::{Connecting, ConnectingView};
use crate::delete::{Deleting, DeletingView};
use crate::outside::{build_metadata_text, prerelease_text};
use crate::read::{Reading, ReadingView};
use crate::state::{LatticeState, LatticeStateBuilder};
use crate::store::{
    EngineMetadata, LatticeStorage, Store, StoreOptions, StoreRead, StoreReadWrite, StoreWrite,
};
use crate::write::{Writing, WritingView};
use vstd::prelude::*;

verus! {

/// Name of the storage engine
pub const STORAGE_ENGINE_NAME: &'static str = "nats_kv";

/// Storage engine that keeps lattice state in NATS KV
///
/// For every lattice the engine stores all lattice state under a single key of a bucket of its
/// own. For example, for a lattice bucket "lattice_1", you can find serialized lattice state at
/// "lattice_1.state".
#[derive(Debug)]
pub struct NatsKvStorageEngine {
    /// Configuration for the NATS KV storage engine
    config: NatsKvStorageConfig,
}

impl NatsKvStorageEngine {
    /// The configuration of the engine.
    pub closed spec fn config(self) -> NatsKvStorageConfig {
        self.config
    }

    /// The bucket that holds the state of the lattice `id`.
    pub open spec fn bucket(self, id: Seq<char>) -> Seq<char> {
        lattice_bucket_name(self.config().bucket_prefix(), id)
    }

    /// Begins the connection of an engine with the given configuration
    pub fn new(config: NatsKvStorageConfig) -> (connecting: Connecting)
        ensures
            connecting@ == ConnectingView::begin(config),
    {
        Connecting::begin(config)
    }

    /// The engine with the given configuration
    pub(crate) fn with_config(config: NatsKvStorageConfig) -> (engine: NatsKvStorageEngine)
        ensures
            engine.config() == config,
    {
        NatsKvStorageEngine { config }
    }

    /// Build the top level bucket for the lattice
    pub fn build_lattice_bucket_name(&self, lattice_id: String) -> (bucket: String)
        ensures
            bucket@ == self.bucket(lattice_id@),
            match self.config().lattice_bucket_prefix {
                Some(prefix) => bucket@ == prefix@ + "_"@ + "lattice_"@ + lattice_id@,
                None => bucket@ == "lattice_"@ + lattice_id@,
            },
    {
        let mut bucket = "lattice_".to_owned().concat(lattice_id.as_str());
        if let Some(prefix) = &self.config.lattice_bucket_prefix {
            bucket = prefix.clone().concat("_").concat(bucket.as_str());
        }
        bucket
    }
}

impl EngineMetadata for NatsKvStorageEngine {
    fn name() -> (name: String)
        ensures
            name@ == STORAGE_ENGINE_NAME@,
            name@ == "nats_kv"@,
    {
        STORAGE_ENGINE_NAME.to_owned()
    }

    fn version() -> (version: semver::Version)
        ensures
            version.major == 0,
            version.minor == 1,
            version.patch == 0,
            prerelease_text(version.pre) == Seq::<char>::empty(),
            build_metadata_text(version.build) == Seq::<char>::empty(),
    {
        semver::Version::new(0, 1, 0)
    }
}

impl StoreRead<LatticeState, String> for NatsKvStorageEngine {
    type Reading = Reading;

    fn read(&self, id: String) -> (reading: Reading)
        ensures
            reading@ == ReadingView::begin(self.bucket(id@)),
    {
        Reading::begin(self.build_lattice_bucket_name(id))
    }
}

impl StoreWrite<LatticeState, String> for NatsKvStorageEngine {
    type Writing<'a> = Writing<'a>;

    fn write<'a>(
        &mut self,
        obj: &'a LatticeState,
        id: Option<String>,
        opts: StoreOptions,
    ) -> (writing: Writing<'a>)
        ensures
            *final(self) == *old(self),
            ({
                let id = match id {
                    Some(id) => id@,
                    None => obj.id@,
                };
                writing@ == WritingView::begin(
                    *obj,
                    id,
                    old(self).bucket(id),
                    opts.expected_revision(),
                )
            }),
    {
        let id: String = match id {
            Some(id) => id,
            None => obj.id.clone(),
        };
        let bucket: String = self.build_lattice_bucket_name(id.clone());
        Writing::begin(obj, id, bucket, opts)
    }
}

impl StoreReadWrite<LatticeState, String> for NatsKvStorageEngine {

}

impl Store for NatsKvStorageEngine {
    type State = LatticeState;

    type StateId = String;

    type StateUpdate = LatticeStateBuilder;

    type Deleting = Deleting;

    fn get(&self, id: String) -> (reading: Reading)
        ensures
            reading@ == ReadingView::begin(self.bucket(id@)),
    {
        self.read(id)
    }

    fn store<'a>(&mut self, state: &'a LatticeState, opts: StoreOptions) -> (writing: Writing<'a>)
        ensures
            *final(self) == *old(self),
            writing@ == WritingView::begin(
                *state,
                state.id@,
                old(self).bucket(state.id@),
                opts.expected_revision(),
            ),
    {
        self.write(state, None, opts)
    }

    fn delete(&self, id: String) -> (deleting: Deleting)
        ensures
            deleting@ == DeletingView::begin(self.bucket(id@)),
    {
        Deleting::begin(self.build_lattice_bucket_name(id))
    }
}

impl LatticeStorage for NatsKvStorageEngine {

}

} // verus!
