//! Configuration of the NATS key-value storage engine.
use std::path::PathBuf;
use vstd::prelude::*;

verus! {

/// Configuration for the NATS KV storage engine
#[derive(Debug)]
pub struct NatsKvStorageConfig {
    /// URL to the nats instance
    pub nats_url: String,
    /// Prefix to use with lattice buckets
    pub lattice_bucket_prefix: Option<String>,
    /// Authentication config for use with NATS
    pub auth: Option<NatsAuthConfig>,
}

/// How to authenticate with NATS
///
/// A JWT file together with a seed is preferred over a credentials file. A JWT file without a
/// seed, or a seed without a JWT file, is not used.
#[derive(Debug, Clone)]
pub struct NatsAuthConfig {
    /// Path of a credentials file
    pub creds_file: Option<String>,
    /// Encoded seed of the key that signs the nonces of the server
    pub jwt_seed: Option<String>,
    /// Path of a file that holds a user JWT
    pub jwt_path: Option<PathBuf>,
}

impl NatsKvStorageConfig {
    /// The prefix of lattice buckets, as a sequence of characters.
    pub open spec fn bucket_prefix(self) -> Option<Seq<char>> {
        match self.lattice_bucket_prefix {
            Some(prefix) => Some(prefix@),
            None => None,
        }
    }
}

} // verus!
