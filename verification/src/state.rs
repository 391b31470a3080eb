//! The state of a lattice, as far as storage looks at it.
use crate::error::{StorageError, StorageErrorView};
use vstd::prelude::*;
use vstd::std_specs::convert::FromSpecImpl;

verus! {

/// The state of a lattice
#[derive(Debug)]
pub struct LatticeState {
    /// Identifier of the lattice, which decides where its state is kept
    pub id: String,
    /// Everything else that is known of the lattice, carried and never looked into
    pub document: serde_json::Value,
}

/// Builder of a [`LatticeState`]
#[derive(Debug)]
pub struct LatticeStateBuilder {
    /// The identifier, once it is set
    pub id: Option<String>,
    /// The rest of the state, once it is set
    pub document: Option<serde_json::Value>,
}

/// Why a [`LatticeStateBuilder`] gave no state
#[derive(Debug)]
pub enum LatticeStateBuilderError {
    /// The field of this name was not set
    UninitializedField(String),
    /// The state did not pass a validation
    ValidationError(String),
}

/// A [`LatticeStateBuilderError`] with its text taken as a sequence of characters.
pub enum LatticeStateBuilderErrorView {
    UninitializedField(Seq<char>),
    ValidationError(Seq<char>),
}

impl View for LatticeStateBuilderError {
    type V = LatticeStateBuilderErrorView;

    open spec fn view(&self) -> LatticeStateBuilderErrorView {
        match self {
            LatticeStateBuilderError::UninitializedField(
                field,
            ) => LatticeStateBuilderErrorView::UninitializedField(field@),
            LatticeStateBuilderError::ValidationError(
                text,
            ) => LatticeStateBuilderErrorView::ValidationError(text@),
        }
    }
}

impl LatticeStateBuilderErrorView {
    /// The message of the error.
    pub open spec fn message(self) -> Seq<char> {
        match self {
            LatticeStateBuilderErrorView::UninitializedField(field) => "`"@ + field
                + "` must be initialized"@,
            LatticeStateBuilderErrorView::ValidationError(text) => text,
        }
    }
}

impl LatticeStateBuilderError {
    /// The message of the error
    pub fn to_string(&self) -> (message: String)
        ensures
            message@ == self@.message(),
    {
        match self {
            LatticeStateBuilderError::UninitializedField(field) => "`".to_owned().concat(
                field.as_str(),
            ).concat("` must be initialized"),
            LatticeStateBuilderError::ValidationError(text) => text.clone(),
        }
    }
}

impl LatticeStateBuilder {
    /// Builds the state, once both of its parts are set
    pub fn build(self) -> (r: Result<LatticeState, LatticeStateBuilderError>)
        ensures
            match (self.id, self.document) {
                (None, _) => r matches Err(e) && e@
                    == LatticeStateBuilderErrorView::UninitializedField("id"@),
                (Some(_), None) => r matches Err(e) && e@
                    == LatticeStateBuilderErrorView::UninitializedField("document"@),
                (Some(id), Some(document)) => r == Ok::<LatticeState, LatticeStateBuilderError>(
                    (LatticeState { id, document }),
                ),
            },
    {
        match (self.id, self.document) {
            (Some(id), Some(document)) => Ok(LatticeState { id, document }),
            (None, _) => Err(LatticeStateBuilderError::UninitializedField("id".to_owned())),
            (Some(_), None) => Err(
                LatticeStateBuilderError::UninitializedField("document".to_owned()),
            ),
        }
    }
}

impl From<LatticeStateBuilderError> for StorageError {
    fn from(e: LatticeStateBuilderError) -> (r: StorageError)
        ensures
            r@ == StorageErrorView::not_built(e@.message()),
    {
        StorageError::Unknown(
            "failed to build lattice: ".to_owned().concat(e.to_string().as_str()),
        )
    }
}

/// The contract of the conversion speaks of the text of the error, not of the string that holds it.
impl FromSpecImpl<LatticeStateBuilderError> for StorageError {
    open spec fn obeys_from_spec() -> bool {
        false
    }

    open spec fn from_spec(e: LatticeStateBuilderError) -> StorageError {
        arbitrary()
    }
}

} // verus!
