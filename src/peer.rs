//! Participants of a project and their replication status.
use vstd::prelude::*;

use crate::error::Error;
use crate::id::PeerId;
use crate::identity::{is_maintainer, Project, User, UserView};
use crate::state::State;

verus! {

/// The part a replicating peer plays in a project.
#[derive(Clone, Copy, Debug, PartialEq, Eq, Structural)]
pub enum Role {
    /// Its identity is in the project's maintainer set.
    Maintainer,
    /// It has branches of its own but maintains nothing.
    Contributor,
    /// It only follows the project.
    Tracker,
}

/// Whether a peer's view of a project is present locally, and as whom.
#[derive(Clone, Debug, PartialEq, Eq)]
pub enum Status {
    NotReplicated,
    Replicated { role: Role, user: User },
}

pub enum StatusView {
    NotReplicated,
    Replicated(Role, UserView),
}

impl View for Status {
    type V = StatusView;

    open spec fn view(&self) -> StatusView {
        match self {
            Status::NotReplicated => StatusView::NotReplicated,
            Status::Replicated { role, user } => StatusView::Replicated(*role, user@),
        }
    }
}

/// A participant of a project: this peer, or a tracked remote one.
#[derive(Clone, Debug, PartialEq, Eq)]
pub enum Peer {
    Local { peer_id: PeerId, status: Status },
    Remote { peer_id: PeerId, status: Status },
}

pub enum PeerView {
    Local(Seq<u8>, StatusView),
    Remote(Seq<u8>, StatusView),
}

impl View for Peer {
    type V = PeerView;

    open spec fn view(&self) -> PeerView {
        match self {
            Peer::Local { peer_id, status } => PeerView::Local(peer_id@, status@),
            Peer::Remote { peer_id, status } => PeerView::Remote(peer_id@, status@),
        }
    }
}

pub open spec fn peers_view(s: Seq<Peer>) -> Seq<PeerView> {
    s.map_values(|p: Peer| p@)
}

/// What the store reports of one tracked peer: its id, the user its
/// self-reference claims when that reference exists, and how many branch heads
/// the peer has of the project.
#[derive(Clone, Debug, PartialEq, Eq)]
pub struct RemoteReport {
    pub peer_id: PeerId,
    pub self_user: Option<User>,
    pub heads: usize,
}

/// A remote is replicated once its self-reference exists; it maintains the
/// project when its user is in the maintainer set, else it tracks while it
/// has no branch of the project, else it contributes.
pub open spec fn remote_status(project: Project, self_user: Option<User>, has_heads: bool) -> StatusView {
    match self_user {
        Some(u) => if is_maintainer(project, u.urn@) {
            StatusView::Replicated(Role::Maintainer, u@)
        } else if !has_heads {
            StatusView::Replicated(Role::Tracker, u@)
        } else {
            StatusView::Replicated(Role::Contributor, u@)
        },
        None => StatusView::NotReplicated,
    }
}

/// The local peer is always replicated: it tracks while it has no branch of
/// the project, else it maintains or contributes.
pub open spec fn local_status(project: Project, owner: User, has_heads: bool) -> StatusView {
    if !has_heads {
        StatusView::Replicated(Role::Tracker, owner@)
    } else if is_maintainer(project, owner.urn@) {
        StatusView::Replicated(Role::Maintainer, owner@)
    } else {
        StatusView::Replicated(Role::Contributor, owner@)
    }
}

pub open spec fn tracked_view(project: Project, reports: Seq<RemoteReport>) -> Seq<PeerView> {
    reports.map_values(
        |r: RemoteReport| PeerView::Remote(r.peer_id@, remote_status(project, r.self_user, r.heads > 0)),
    )
}

/// The status of one tracked remote peer, which has `heads` branches of the project.
pub fn status_of_remote(project: &Project, self_user: &Option<User>, heads: usize) -> (r: Status)
    ensures
        r@ == remote_status(*project, *self_user, heads > 0),
{
    match self_user {
        Some(u) => if project.has_maintainer(&u.urn) {
            Status::Replicated { role: Role::Maintainer, user: u.copy() }
        } else if heads == 0 {
            Status::Replicated { role: Role::Tracker, user: u.copy() }
        } else {
            Status::Replicated { role: Role::Contributor, user: u.copy() }
        },
        None => Status::NotReplicated,
    }
}

/// The status of the local peer, whose owner has `heads` branches of the project.
pub fn status_of_local(project: &Project, owner: User, heads: usize) -> (r: Status)
    ensures
        r@ == local_status(*project, owner, heads > 0),
{
    if heads == 0 {
        Status::Replicated { role: Role::Tracker, user: owner }
    } else if project.has_maintainer(&owner.urn) {
        Status::Replicated { role: Role::Maintainer, user: owner }
    } else {
        Status::Replicated { role: Role::Contributor, user: owner }
    }
}

/// The tracked peers of a project, one remote entry per report, in report order.
pub fn tracked_peers(project: &Project, reports: &Vec<RemoteReport>) -> (r: Vec<Peer>)
    ensures
        peers_view(r@) == tracked_view(*project, reports@),
{
    let mut peers: Vec<Peer> = Vec::new();
    let mut i: usize = 0;
    while i < reports.len()
        invariant
            0 <= i <= reports@.len(),
            peers_view(peers@) =~= tracked_view(*project, reports@.take(i as int)),
        decreases reports@.len() - i,
    {
        let report = &reports[i];
        let status = status_of_remote(project, &report.self_user, report.heads);
        let peer = Peer::Remote { peer_id: report.peer_id.copy(), status };
        let ghost before = peers@;
        let ghost pv = peer@;
        peers.push(peer);
        assert(peers_view(peers@) =~= peers_view(before).push(pv));
        assert(reports@.take(i + 1) =~= reports@.take(i as int).push(reports@[i as int]));
        assert(tracked_view(*project, reports@.take(i + 1)) =~= tracked_view(
            *project,
            reports@.take(i as int),
        ).push(pv));
        i = i + 1;
    }
    assert(reports@.take(i as int) =~= reports@);
    peers
}

impl State {
    /// The participants of a project: the local peer first, then the tracked remotes.
    /// Without a default owner on this peer there is no local entry to make.
    pub fn list_project_peers(
        &self,
        project: &Project,
        owner: Option<User>,
        owner_heads: usize,
        remotes: Vec<Peer>,
    ) -> (r: Result<Vec<Peer>, Error>)
        ensures
            owner.is_none() ==> r == Err::<Vec<Peer>, Error>(Error::MissingOwner),
            owner.is_some() ==> r.is_ok() && peers_view(r.unwrap()@) == seq![
                PeerView::Local(self.peer_id@, local_status(*project, owner.unwrap(), owner_heads > 0)),
            ] + peers_view(remotes@),
    {
        match owner {
            None => Err(Error::MissingOwner),
            Some(owner) => {
                let status = status_of_local(project, owner, owner_heads);
                let mut peers: Vec<Peer> = Vec::new();
                peers.push(Peer::Local { peer_id: self.peer_id.copy(), status });
                let mut remotes = remotes;
                let ghost before = peers@;
                let ghost rest = remotes@;
                peers.append(&mut remotes);
                assert(peers@ == before + rest);
                assert(peers_view(peers@) =~= peers_view(before) + peers_view(rest));
                Ok(peers)
            },
        }
    }
}

/// The local peer always comes first; it is a tracker while its owner has no
/// branch of the project, whatever the maintainer set says, and otherwise a
/// maintainer exactly when the owner is in the maintainer set.
pub proof fn local_peer_comes_first(
    local: Seq<u8>,
    project: Project,
    owner: User,
    heads: nat,
    remotes: Seq<PeerView>,
)
    ensures
        ({
            let peers = seq![PeerView::Local(local, local_status(project, owner, heads > 0))]
                + remotes;
            &&& peers.len() == remotes.len() + 1
            &&& peers[0] is Local
            &&& heads == 0 ==> peers[0] == PeerView::Local(
                local,
                StatusView::Replicated(Role::Tracker, owner@),
            )
            &&& heads > 0 && is_maintainer(project, owner.urn@) ==> peers[0] == PeerView::Local(
                local,
                StatusView::Replicated(Role::Maintainer, owner@),
            )
            &&& heads > 0 && !is_maintainer(project, owner.urn@) ==> peers[0] == PeerView::Local(
                local,
                StatusView::Replicated(Role::Contributor, owner@),
            )
            &&& forall|i: int| 0 <= i < remotes.len() ==> peers[i + 1] == remotes[i]
        }),
{
}

} // verus!
