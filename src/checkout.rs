//! Descriptions of working copies to materialise.
use vstd::prelude::*;

use crate::id::{PeerId, Urn};
use crate::identity::Project;
use crate::state::State;

verus! {

/// Whose view of the project a working copy is based on.
#[derive(Clone, Debug, PartialEq, Eq)]
pub enum Ownership {
    /// This peer's own view.
    Local(PeerId),
    /// A remote peer's view, named after the handle that peer claims.
    Remote { handle: String, remote: PeerId, local: PeerId },
}

pub enum OwnershipView {
    Local(Seq<u8>),
    Remote(Seq<char>, Seq<u8>, Seq<u8>),
}

impl View for Ownership {
    type V = OwnershipView;

    open spec fn view(&self) -> OwnershipView {
        match self {
            Ownership::Local(p) => OwnershipView::Local(p@),
            Ownership::Remote { handle, remote, local } => OwnershipView::Remote(
                handle@,
                remote@,
                local@,
            ),
        }
    }
}

/// A request to materialise a working copy of a project.
#[derive(Clone, Debug, PartialEq, Eq)]
pub struct Checkout {
    pub urn: Urn,
    pub name: String,
    pub default_branch: String,
    /// The directory that receives the working copy.
    pub path: String,
    /// The include file that lists the project's fetch sources.
    pub include_path: String,
    pub ownership: Ownership,
}

/// A remote checkout: the peer whose view is taken and the handle its
/// self-reference claims.
#[derive(Clone, Debug, PartialEq, Eq)]
pub struct RemoteView {
    pub peer_id: PeerId,
    pub handle: String,
}

pub open spec fn ownership_of(local: Seq<u8>, remote: Option<RemoteView>) -> OwnershipView {
    match remote {
        None => OwnershipView::Local(local),
        Some(r) => OwnershipView::Remote(r.handle@, r.peer_id@, local),
    }
}

impl State {
    /// Describes the working copy of `project` to create at `destination`:
    /// from this peer's view when `remote` is absent, else from the remote's.
    pub fn checkout(
        &self,
        project: &Project,
        remote: Option<RemoteView>,
        destination: String,
        include_path: String,
    ) -> (r: Checkout)
        ensures
            r.urn@ == project.urn@,
            r.name@ == project.name@,
            r.default_branch@ == project.default_branch@,
            r.path@ == destination@,
            r.include_path@ == include_path@,
            r.ownership@ == ownership_of(self.peer_id@, remote),
    {
        let ownership = match remote {
            None => Ownership::Local(self.peer_id.copy()),
            Some(rv) => Ownership::Remote {
                handle: rv.handle,
                remote: rv.peer_id,
                local: self.peer_id.copy(),
            },
        };
        Checkout {
            urn: project.urn.copy(),
            name: project.name.clone(),
            default_branch: project.default_branch.clone(),
            path: destination,
            include_path,
            ownership,
        }
    }
}

} // verus!
