//! The tracking relation of a project and the include file derived from it.
use vstd::prelude::*;

use crate::id::{PeerId, Urn};
use crate::identity::{Project, User, UserView};
use crate::state::State;
use crate::peer::{peers_view, tracked_view, Peer, PeerView, RemoteReport, StatusView};

verus! {

/// One fetch source of the include file: a replicated remote peer and the user
/// it claims to be.
#[derive(Clone, Debug, PartialEq, Eq)]
pub struct IncludeRemote {
    pub user: User,
    pub peer_id: PeerId,
}

impl View for IncludeRemote {
    type V = (UserView, Seq<u8>);

    open spec fn view(&self) -> (UserView, Seq<u8>) {
        (self.user@, self.peer_id@)
    }
}

/// The include file of a project: its identifier, the local peer, and one
/// fetch source per replicated remote.
#[derive(Clone, Debug, PartialEq, Eq)]
pub struct Include {
    pub urn: Urn,
    pub local: PeerId,
    pub remotes: Vec<IncludeRemote>,
}

/// The replicated remotes among `peers`, in order.
pub open spec fn include_view(peers: Seq<PeerView>) -> Seq<(UserView, Seq<u8>)>
    decreases peers.len(),
{
    if peers.len() == 0 {
        seq![]
    } else {
        let rest = include_view(peers.drop_last());
        match peers.last() {
            PeerView::Remote(p, StatusView::Replicated(_, u)) => rest.push((u, p)),
            _ => rest,
        }
    }
}

pub open spec fn remotes_view(s: Seq<IncludeRemote>) -> Seq<(UserView, Seq<u8>)> {
    s.map_values(|r: IncludeRemote| r@)
}

/// The fetch sources for the include file: every replicated remote of `peers`.
pub fn include_remotes(peers: &Vec<Peer>) -> (r: Vec<IncludeRemote>)
    ensures
        remotes_view(r@) == include_view(peers_view(peers@)),
{
    let mut out: Vec<IncludeRemote> = Vec::new();
    let mut i: usize = 0;
    while i < peers.len()
        invariant
            0 <= i <= peers@.len(),
            remotes_view(out@) == include_view(peers_view(peers@.take(i as int))),
        decreases peers@.len() - i,
    {
        let ghost before = out@;
        assert(peers@.take(i + 1) =~= peers@.take(i as int).push(peers@[i as int]));
        assert(peers_view(peers@.take(i + 1)) =~= peers_view(peers@.take(i as int)).push(
            peers@[i as int]@,
        ));
        assert(peers_view(peers@.take(i + 1)).drop_last() =~= peers_view(
            peers@.take(i as int),
        ));
        match &peers[i] {
            Peer::Remote { peer_id, status: crate::peer::Status::Replicated { role: _, user } } => {
                let entry = IncludeRemote { user: user.copy(), peer_id: peer_id.copy() };
                let ghost ev = entry@;
                out.push(entry);
                assert(remotes_view(out@) =~= remotes_view(before).push(ev));
            },
            _ => {},
        }
        i = i + 1;
    }
    assert(peers@.take(i as int) =~= peers@);
    out
}

/// The store's tracking relation of one project after tracking `p`.
pub open spec fn after_track(s: Set<Seq<u8>>, p: Seq<u8>) -> Set<Seq<u8>> {
    s.insert(p)
}

/// The store's tracking relation of one project after untracking `p`.
pub open spec fn after_untrack(s: Set<Seq<u8>>, p: Seq<u8>) -> Set<Seq<u8>> {
    s.remove(p)
}

/// What the store answers to untracking `p`: whether a relation was removed.
pub open spec fn untrack_removed(s: Set<Seq<u8>>, p: Seq<u8>) -> bool {
    s.contains(p)
}

impl State {
    /// Builds the include file of the project at `urn` from the peers it tracks.
    pub fn update_include(&self, urn: &Urn, peers: &Vec<Peer>) -> (r: Include)
        ensures
            r.urn@ == urn@,
            r.local@ == self.peer_id@,
            remotes_view(r.remotes@) == include_view(peers_view(peers@)),
    {
        Include { urn: urn.copy(), local: self.peer_id.copy(), remotes: include_remotes(peers) }
    }

    /// Decides, from the store's answer to an untrack, whether the include file
    /// must be rewritten: only when a relation was actually removed.
    pub fn untrack(&self, removed: bool) -> (r: bool)
        ensures
            r == removed,
    {
        removed
    }
}

/// Untracking a peer that was never tracked reports nothing removed, leaves the
/// relation as it was, and so (by `State::untrack`) does not rewrite the include
/// file. Untracking a tracked peer reports the removal, so the include file is
/// rewritten; and when the store then reports only peers of the new relation,
/// the rewritten file has no fetch source for that peer. `after_untrack` and
/// `untrack_removed` state what is assumed of the outside store.
pub proof fn untrack_effect(
    s: Set<Seq<u8>>,
    p: Seq<u8>,
    project: Project,
    reports_after: Seq<RemoteReport>,
)
    requires
        forall|i: int|
            0 <= i < reports_after.len() ==> after_untrack(s, p).contains(
                #[trigger] reports_after[i].peer_id@,
            ),
    ensures
        !s.contains(p) ==> !untrack_removed(s, p) && after_untrack(s, p) == s,
        s.contains(p) ==> untrack_removed(s, p) && !after_untrack(s, p).contains(p),
        forall|j: int|
            0 <= j < include_view(tracked_view(project, reports_after)).len() ==> (
            #[trigger] include_view(tracked_view(project, reports_after))[j]).1 != p,
{
    if !s.contains(p) {
        assert(s.remove(p) =~= s);
    }
    assert forall|i: int| 0 <= i < reports_after.len() implies #[trigger] reports_after[i].peer_id@
        != p by {
        assert(after_untrack(s, p).contains(reports_after[i].peer_id@));
    }
    include_without_peer(project, reports_after, p);
}

/// An include file built from reports in which `p` does not occur has no
/// fetch source for `p`.
pub proof fn include_without_peer(project: Project, reports: Seq<RemoteReport>, p: Seq<u8>)
    requires
        forall|i: int| 0 <= i < reports.len() ==> #[trigger] reports[i].peer_id@ != p,
    ensures
        forall|j: int|
            0 <= j < include_view(tracked_view(project, reports)).len() ==> (#[trigger] include_view(
                tracked_view(project, reports),
            )[j]).1 != p,
    decreases reports.len(),
{
    if reports.len() > 0 {
        let rest = reports.drop_last();
        assert forall|i: int| 0 <= i < rest.len() implies #[trigger] rest[i].peer_id@ != p by {
            assert(rest[i] == reports[i]);
        }
        include_without_peer(project, rest, p);
        let tv = tracked_view(project, reports);
        assert(tv.drop_last() =~= tracked_view(project, rest));
        assert(reports[reports.len() - 1].peer_id@ != p);
        assert(tv.last() is Remote);
        let whole = include_view(tv);
        let part = include_view(tv.drop_last());
        assert forall|j: int| 0 <= j < whole.len() implies (#[trigger] whole[j]).1 != p by {
            if j < part.len() {
                assert(whole[j] == part[j]);
            }
        }
    }
}

/// Tracking a peer that was not tracked and then untracking it restores the
/// tracking relation, and the untrack reports a removal, so the include file is
/// rewritten from the restored relation. `after_track`, `after_untrack` and
/// `untrack_removed` state what is assumed of the outside store; that the
/// rewritten file equals the earlier one holds as far as the store reports the
/// same peers for the same relation, which nothing here can check.
pub proof fn track_untrack_round_trip(s: Set<Seq<u8>>, p: Seq<u8>)
    requires
        !s.contains(p),
    ensures
        untrack_removed(after_track(s, p), p),
        after_untrack(after_track(s, p), p) == s,
{
    assert(s.insert(p).remove(p) =~= s);
}

} // verus!
