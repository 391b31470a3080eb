//! Traits of storage engines, and the options and results of storage operations.
//!
//! An operation of these traits is not carried out by the call that begins it: the call returns
//! the operation, which then names its requests one after the other.
use crate::state::{LatticeState, LatticeStateBuilder};
use vstd::prelude::*;

verus! {

/// Pluggable engines can be asked for their metadata
/// to enable generic usage
pub trait EngineMetadata {
    /// Get the name of the lattice storage
    fn name() -> String;

    /// Get the version of the lattice storage
    fn version() -> semver::Version;
}

/// Options and metadata that can be used to improve store operations
#[derive(Debug)]
pub struct StoreOptions {
    /// Whether to force a store with compare-and-set semantics
    pub require_cas: bool,
    /// version identifier that enables stores to perform compare-and-set semantics
    pub revision: Option<u64>,
}

impl StoreOptions {
    /// The revision that a store must find in place: with compare-and-set semantics the given
    /// one, otherwise none.
    pub open spec fn spec_expected_revision(&self) -> Option<u64> {
        if self.require_cas {
            self.revision
        } else {
            None
        }
    }

    /// The revision that a store must find in place, if it is to compare before it sets
    #[verifier::when_used_as_spec(spec_expected_revision)]
    pub fn expected_revision(&self) -> (r: Option<u64>)
        ensures
            r == self.expected_revision(),
            r is Some <==> self.require_cas && self.revision is Some,
            r is Some ==> r == self.revision,
    {
        match self {
            StoreOptions { require_cas: true, revision: Some(revision) } => Some(*revision),
            _ => None,
        }
    }
}

impl Default for StoreOptions {
    fn default() -> (r: StoreOptions)
        ensures
            r == (StoreOptions { require_cas: false, revision: None }),
    {
        StoreOptions { require_cas: false, revision: None }
    }
}

/// A piece of state, or its identifier, together with the revision it was found or stored under
#[derive(Debug)]
pub struct WithStateMetadata<T> {
    /// Revision (if supported), often used for compare-and-set-semantics
    pub revision: Option<u64>,
    /// The state that was returned
    pub state: T,
}

/// A trait that represents whether some struct can be read from a given store
pub trait StoreRead<State, Id> {
    /// A read in progress, which ends in a [`WithStateMetadata`] of `State`
    type Reading;

    /// Read a given piece of state from the store
    fn read(&self, id: Id) -> Self::Reading;
}

/// A trait that represents whether some struct can be written to a given store
pub trait StoreWrite<State, Id> {
    /// A write in progress, which ends in a [`WithStateMetadata`] of `Id`
    type Writing<'a> where State: 'a;

    /// Write to a given store
    fn write<'a>(&mut self, obj: &'a State, id: Option<Id>, opts: StoreOptions) -> Self::Writing<
        'a,
    >;
}

/// Trait for objects that can read and write some piece of state with a given identifier
pub trait StoreReadWrite<State, Id>: StoreRead<State, Id> + StoreWrite<State, Id> {

}

/// A trait that indicates the ability of a struct to store state
///
/// Objects that implement Store can save some given State, identifiable by StateId, and updatable
/// with the given StateUpdate
pub trait Store: EngineMetadata + StoreRead<Self::State, Self::StateId> + StoreWrite<
    Self::State,
    Self::StateId,
> {
    /// What is stored
    type State;

    /// What identifies it
    type StateId;

    /// What updates it
    type StateUpdate;

    /// A deletion in progress
    type Deleting;

    /// Get a particular piece of state
    fn get(&self, id: Self::StateId) -> <Self as StoreRead<Self::State, Self::StateId>>::Reading;

    /// Store a piece of state
    fn store<'a>(&mut self, state: &'a Self::State, opts: StoreOptions) -> <Self as StoreWrite<
        Self::State,
        Self::StateId,
    >>::Writing<'a>;

    /// Delete an existing piece of state
    fn delete(&self, id: String) -> Self::Deleting;
}

/// LatticeStorages are state stores that support storing lattice information
pub trait LatticeStorage: Store<
    State = LatticeState,
    StateId = String,
    StateUpdate = LatticeStateBuilder,
> {

}

} // verus!
