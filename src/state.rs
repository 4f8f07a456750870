//! The facade through which one peer drives its identities and projects.
use vstd::prelude::*;

use crate::error::{Error, ErrorView, StorageError};
use crate::id::PeerId;
use crate::identity::{Project, User};

verus! {

/// Seconds that the transport is given to settle after a storage mutation.
pub const TRANSPORT_WAIT_SECS: u64 = 3;

/// This peer's view of the orchestration layer.
#[derive(Clone, Debug, PartialEq, Eq)]
pub struct State {
    pub peer_id: PeerId,
}

/// The store's guard against duplicate identities, as assumed of the outside
/// store: creating a document whose identifier is among `stored` fails with
/// that identifier; otherwise the identifier is taken from then on.
pub open spec fn store_create(stored: Set<Seq<u8>>, urn: Seq<u8>) -> (Set<Seq<u8>>, Result<
    (),
    ErrorView,
>) {
    if stored.contains(urn) {
        (stored, Err(ErrorView::AlreadyExists(urn)))
    } else {
        (stored.insert(urn), Ok(()))
    }
}

/// The view of the store's answer to a create.
pub open spec fn answer_view(a: Result<(), StorageError>) -> Result<(), ErrorView> {
    match a {
        Ok(()) => Ok(()),
        Err(e) => Err(Error::Storage(e)@),
    }
}

/// Creating a document hands it back when the store took it, else the store's error.
pub open spec fn created<D>(doc: D, answer: Result<(), ErrorView>) -> Result<D, ErrorView> {
    match answer {
        Ok(()) => Ok(doc),
        Err(e) => Err(e),
    }
}

pub open spec fn doc_result_view<D>(r: Result<D, Error>) -> Result<D, ErrorView> {
    match r {
        Ok(d) => Ok(d),
        Err(e) => Err(e@),
    }
}

impl State {
    pub fn new(peer_id: PeerId) -> (r: State)
        ensures
            r.peer_id@ == peer_id@,
    {
        State { peer_id }
    }

    /// The local machine's peer identifier.
    pub fn peer_id(&self) -> (r: PeerId)
        ensures
            r@ == self.peer_id@,
    {
        self.peer_id.copy()
    }

    /// The default owner of this peer, from the store's answer to reading it;
    /// a failed read means that no owner is configured yet.
    pub fn default_owner(&self, read: Result<User, StorageError>) -> (r: Option<User>)
        ensures
            match read {
                Ok(u) => r == Some(u),
                Err(_) => r.is_none(),
            },
    {
        match read {
            Ok(u) => Some(u),
            Err(_) => None,
        }
    }

    /// Finishes creating a signed user document, given the store's answer to
    /// persisting it.
    pub fn init_user(&self, user: User, stored: Result<(), StorageError>) -> (r: Result<User, Error>)
        ensures
            doc_result_view(r) == created(user, answer_view(stored)),
    {
        match stored {
            Ok(()) => Ok(user),
            Err(e) => Err(Error::Storage(e)),
        }
    }

    /// Finishes creating a signed project document, given the store's answer to
    /// persisting it.
    pub fn init_project(&self, project: Project, stored: Result<(), StorageError>) -> (r: Result<
        Project,
        Error,
    >)
        ensures
            doc_result_view(r) == created(project, answer_view(stored)),
    {
        match stored {
            Ok(()) => Ok(project),
            Err(e) => Err(Error::Storage(e)),
        }
    }
}

/// Creating a user twice with the same handle, and so the same identifier,
/// succeeds once and then fails with the first user's identifier: given store
/// answers `first` and `second` as `store_create` describes them, the results
/// that `State::init_user` promises are `Ok` of the user and then
/// `AlreadyExists` of its identifier.
pub proof fn user_created_once(
    stored: Set<Seq<u8>>,
    user: User,
    first: Result<(), StorageError>,
    second: Result<(), StorageError>,
)
    requires
        !stored.contains(user.urn@),
        answer_view(first) == store_create(stored, user.urn@).1,
        answer_view(second) == store_create(store_create(stored, user.urn@).0, user.urn@).1,
    ensures
        created(user, answer_view(first)) == Ok::<User, ErrorView>(user),
        created(user, answer_view(second)) == Err::<User, ErrorView>(
            ErrorView::AlreadyExists(user.urn@),
        ),
{
}

/// Creating a project twice under the same name and path, and so the same
/// identifier, fails the second time with the project's identifier: given store
/// answers as `store_create` describes them, the results that
/// `State::init_project` promises are `Ok` and then `AlreadyExists`.
pub proof fn project_created_once(
    stored: Set<Seq<u8>>,
    project: Project,
    first: Result<(), StorageError>,
    second: Result<(), StorageError>,
)
    requires
        !stored.contains(project.urn@),
        answer_view(first) == store_create(stored, project.urn@).1,
        answer_view(second) == store_create(store_create(stored, project.urn@).0, project.urn@).1,
    ensures
        created(project, answer_view(first)) == Ok::<Project, ErrorView>(project),
        created(project, answer_view(second)) == Err::<Project, ErrorView>(
            ErrorView::AlreadyExists(project.urn@),
        ),
{
}

} // verus!
