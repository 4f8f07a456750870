//! Errors of the orchestration layer.
use vstd::prelude::*;

use crate::id::Urn;
use crate::refs::{NamespacedRef, RefView};

verus! {

/// A failure reported by the storage substrate.
#[derive(Clone, Debug, PartialEq, Eq)]
pub enum StorageError {
    /// An identity document with this identifier is already stored.
    AlreadyExists(Urn),
    /// Any other failure, described.
    Other(String),
}

/// The errors of the orchestration layer.
#[derive(Clone, Debug, PartialEq, Eq)]
pub enum Error {
    /// The storage substrate failed.
    Storage(StorageError),
    /// The requested reference is not in the store.
    MissingRef { reference: NamespacedRef },
    /// Neither the local owner nor the first listed peer has the default branch.
    NoDefaultBranch { name: String, urn: Urn },
    /// Signing an identity document failed.
    Signing(String),
    /// A freshly created identity did not verify.
    Verification(String),
    /// Setting up or checking out a working copy failed.
    Checkout(String),
    /// No default owner is configured on this peer.
    MissingOwner,
    /// A background transport task crashed.
    TransportPanicked,
}

/// The view of an error's kind, with the values the logic reads.
pub enum ErrorView {
    AlreadyExists(Seq<u8>),
    StorageOther(Seq<char>),
    MissingRef(RefView),
    NoDefaultBranch(Seq<char>, Seq<u8>),
    Signing(Seq<char>),
    Verification(Seq<char>),
    Checkout(Seq<char>),
    MissingOwner,
    TransportPanicked,
}

impl View for Error {
    type V = ErrorView;

    open spec fn view(&self) -> ErrorView {
        match self {
            Error::Storage(StorageError::AlreadyExists(u)) => ErrorView::AlreadyExists(u@),
            Error::Storage(StorageError::Other(s)) => ErrorView::StorageOther(s@),
            Error::MissingRef { reference } => ErrorView::MissingRef(reference@),
            Error::NoDefaultBranch { name, urn } => ErrorView::NoDefaultBranch(name@, urn@),
            Error::Signing(s) => ErrorView::Signing(s@),
            Error::Verification(s) => ErrorView::Verification(s@),
            Error::Checkout(s) => ErrorView::Checkout(s@),
            Error::MissingOwner => ErrorView::MissingOwner,
            Error::TransportPanicked => ErrorView::TransportPanicked,
        }
    }
}

impl Error {
    /// Whether this is a missing-reference error.
    pub fn is_missing_ref(&self) -> (r: bool)
        ensures
            r == (self@ is MissingRef),
    {
        match self {
            Error::MissingRef { .. } => true,
            _ => false,
        }
    }
}

} // verus!
