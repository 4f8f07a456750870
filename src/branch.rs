//! Resolution of branch references, with the maintainer fallback for the default branch.
use vstd::prelude::*;

use crate::error::{Error, ErrorView};
use crate::id::{PeerId, Urn};
use crate::identity::Project;
use crate::refs::{peer_opt_view, NamespacedRef, RefView};
use crate::state::State;

verus! {

/// A remote equal to the local peer means the local namespace.
pub open spec fn normalized_remote(remote: Option<Seq<u8>>, local: Seq<u8>) -> Option<Seq<u8>> {
    match remote {
        Some(p) => if p == local {
            None
        } else {
            Some(p)
        },
        None => None,
    }
}

/// The reference that a branch lookup checks for.
pub open spec fn branch_candidate(
    urn: Seq<u8>,
    remote: Option<Seq<u8>>,
    local: Seq<u8>,
    name: Seq<char>,
) -> RefView {
    RefView { namespace: urn, remote: normalized_remote(remote, local), name }
}

/// The outcome of a lookup, given whether the store has the reference.
pub open spec fn lookup_outcome(reference: RefView, exists: bool) -> Result<RefView, ErrorView> {
    if exists {
        Ok(reference)
    } else {
        Err(ErrorView::MissingRef(reference))
    }
}

pub open spec fn ref_result_view(r: Result<NamespacedRef, Error>) -> Result<RefView, ErrorView> {
    match r {
        Ok(x) => Ok(x@),
        Err(e) => Err(e@),
    }
}

/// Prefer the owner's branch; only when the owner's is missing fall back to
/// the first peer's. Two missing references become one missing default
/// branch, and any other error of either lookup passes unchanged.
pub open spec fn default_branch_outcome(
    name: Seq<char>,
    urn: Seq<u8>,
    owner: Result<RefView, ErrorView>,
    peer: Result<RefView, ErrorView>,
) -> Result<RefView, ErrorView> {
    match owner {
        Ok(r) => Ok(r),
        Err(ErrorView::MissingRef(_)) => match peer {
            Ok(r) => Ok(r),
            Err(ErrorView::MissingRef(_)) => Err(ErrorView::NoDefaultBranch(name, urn)),
            Err(e) => Err(e),
        },
        Err(e) => Err(e),
    }
}

/// The first peer of the project's key set, as an optional view.
pub open spec fn first_key_view(project: Project) -> Option<Seq<u8>> {
    if project.keys@.len() > 0 {
        Some(project.keys@[0]@)
    } else {
        None
    }
}

/// Drops a remote that is the local peer itself.
pub fn normalize_remote(remote: Option<PeerId>, local: &PeerId) -> (r: Option<PeerId>)
    ensures
        peer_opt_view(r) == normalized_remote(peer_opt_view(remote), local@),
{
    match remote {
        Some(p) => if p.same(local) {
            None
        } else {
            Some(p)
        },
        None => None,
    }
}

impl State {
    /// Builds the reference for branch `branch_name` of the project at `urn`, seen
    /// from `remote`; without a name, the default branch of `project` is taken,
    /// and without either there is no reference to build.
    pub fn get_branch(
        &self,
        urn: &Urn,
        remote: Option<PeerId>,
        branch_name: Option<String>,
        project: Option<&Project>,
    ) -> (r: Option<NamespacedRef>)
        ensures
            branch_name.is_none() && project.is_none() <==> r.is_none(),
            r.is_some() ==> r.unwrap()@ == branch_candidate(
                urn@,
                peer_opt_view(remote),
                self.peer_id@,
                match branch_name {
                    Some(n) => n@,
                    None => project.unwrap().default_branch@,
                },
            ),
    {
        let name = match branch_name {
            Some(n) => n,
            None => match project {
                Some(p) => p.default_branch.clone(),
                None => {
                    return None;
                },
            },
        };
        let remote = normalize_remote(remote, &self.peer_id);
        Some(NamespacedRef::head(urn.copy(), remote, name))
    }

    /// The two references that default-branch resolution looks up: the default
    /// branch in the local owner's namespace, and in that of the project's first peer.
    pub fn find_default_branch(&self, urn: &Urn, project: &Project) -> (r: (
        NamespacedRef,
        NamespacedRef,
    ))
        ensures
            r.0@ == branch_candidate(urn@, None, self.peer_id@, project.default_branch@),
            r.1@ == branch_candidate(urn@, first_key_view(*project), self.peer_id@, project.default_branch@),
    {
        let owner = NamespacedRef::head(urn.copy(), None, project.default_branch.clone());
        let first = normalize_remote(project.first_key(), &self.peer_id);
        let peer = NamespacedRef::head(urn.copy(), first, project.default_branch.clone());
        (owner, peer)
    }
}

/// Hands back the reference if the store has it, else a missing-reference error.
pub fn resolve_reference(reference: NamespacedRef, exists: bool) -> (r: Result<NamespacedRef, Error>)
    ensures
        ref_result_view(r) == lookup_outcome(reference@, exists),
{
    if exists {
        Ok(reference)
    } else {
        Err(Error::MissingRef { reference })
    }
}

/// Combines the two lookups of default-branch resolution.
pub fn choose_default_branch(
    urn: &Urn,
    project: &Project,
    owner: Result<NamespacedRef, Error>,
    peer: Result<NamespacedRef, Error>,
) -> (r: Result<NamespacedRef, Error>)
    ensures
        ref_result_view(r) == default_branch_outcome(
            project.name@,
            urn@,
            ref_result_view(owner),
            ref_result_view(peer),
        ),
{
    match owner {
        Ok(reference) => Ok(reference),
        Err(owner_err) => if !owner_err.is_missing_ref() {
            Err(owner_err)
        } else {
            match peer {
                Ok(reference) => Ok(reference),
                Err(e) => if e.is_missing_ref() {
                    Err(Error::NoDefaultBranch { name: project.name.clone(), urn: urn.copy() })
                } else {
                    Err(e)
                },
            }
        },
    }
}

/// When the owner lacks the default branch and the project's first peer has it,
/// resolution yields the peer's reference; when neither has it, resolution fails
/// with a missing default branch that names the project; and an error of either
/// lookup other than a missing reference is what resolution fails with.
pub proof fn default_branch_falls_back(
    local: Seq<u8>,
    urn: Seq<u8>,
    project: Project,
    owner_exists: bool,
    peer_exists: bool,
    failure: ErrorView,
)
    ensures
        ({
            let owner = branch_candidate(urn, None, local, project.default_branch@);
            let peer = branch_candidate(
                urn,
                first_key_view(project),
                local,
                project.default_branch@,
            );
            let out = default_branch_outcome(
                project.name@,
                urn,
                lookup_outcome(owner, owner_exists),
                lookup_outcome(peer, peer_exists),
            );
            &&& owner_exists ==> out == Ok::<RefView, ErrorView>(owner)
            &&& !owner_exists && peer_exists ==> out == Ok::<RefView, ErrorView>(peer)
            &&& !owner_exists && !peer_exists ==> out == Err::<RefView, ErrorView>(
                ErrorView::NoDefaultBranch(project.name@, urn),
            )
            &&& !(failure is MissingRef) ==> default_branch_outcome(
                project.name@,
                urn,
                Err(failure),
                lookup_outcome(peer, peer_exists),
            ) == Err::<RefView, ErrorView>(failure)
            &&& !(failure is MissingRef) ==> default_branch_outcome(
                project.name@,
                urn,
                lookup_outcome(owner, false),
                Err(failure),
            ) == Err::<RefView, ErrorView>(failure)
        }),
{
}

} // verus!
