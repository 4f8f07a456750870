//! Enumeration of the identity documents in the store.
use vstd::prelude::*;

use crate::error::StorageError;
use crate::id::Urn;
use crate::identity::{Project, User};

verus! {

/// An identity document of either kind.
#[derive(Clone, Debug, PartialEq, Eq)]
pub enum Entity {
    User(User),
    Project(Project),
}

/// What the store reports of one stored document: the document, or the
/// failure to read it, and the identity its self-reference names, if that
/// could be read.
#[derive(Debug, PartialEq, Eq)]
pub struct MetadataReport {
    pub entity: Result<Entity, StorageError>,
    pub rad_self: Option<Urn>,
}

/// Whether the report is a readable project whose self-reference is `owner`.
pub open spec fn owned_by(owner: Seq<u8>, r: MetadataReport) -> bool {
    &&& r.entity is Ok
    &&& r.entity->Ok_0 is Project
    &&& r.rad_self is Some
    &&& r.rad_self->Some_0@ == owner
}

pub open spec fn project_of(r: MetadataReport) -> Project {
    r.entity->Ok_0->Project_0
}

/// The projects owned by `owner`, in the order of the reports.
pub open spec fn owned_projects(owner: Seq<u8>, reports: Seq<MetadataReport>) -> Seq<Project>
    decreases reports.len(),
{
    if reports.len() == 0 {
        seq![]
    } else {
        let rest = owned_projects(owner, reports.drop_last());
        if owned_by(owner, reports.last()) {
            rest.push(project_of(reports.last()))
        } else {
            rest
        }
    }
}

/// The users among the documents, in order; unreadable documents are skipped.
pub open spec fn listed_users(entities: Seq<Result<Entity, StorageError>>) -> Seq<User>
    decreases entities.len(),
{
    if entities.len() == 0 {
        seq![]
    } else {
        let rest = listed_users(entities.drop_last());
        match entities.last() {
            Ok(Entity::User(u)) => rest.push(u),
            _ => rest,
        }
    }
}

/// The projects that this peer owns: those whose self-reference names
/// `owner`. Unreadable documents and unreadable self-references are skipped.
pub fn list_projects(owner: &Urn, reports: Vec<MetadataReport>) -> (r: Vec<Project>)
    ensures
        r@ == owned_projects(owner@, reports@),
{
    let ghost all = reports@;
    let n: usize = reports.len();
    let mut reports = reports;
    let mut out: Vec<Project> = Vec::new();
    let mut k: usize = 0;
    while reports.len() > 0
        invariant
            0 <= k <= all.len(),
            all.len() == n,
            reports@ == all.skip(k as int),
            out@ == owned_projects(owner@, all.take(k as int)),
        decreases reports@.len(),
    {
        let report = reports.remove(0);
        assert(report == all[k as int]);
        assert(reports@ =~= all.skip(k + 1));
        assert(all.take(k + 1).drop_last() =~= all.take(k as int));
        assert(all.take(k + 1).last() == all[k as int]);
        let keep = match &report.rad_self {
            Some(u) => u.same(owner),
            None => false,
        };
        if keep {
            match report.entity {
                Ok(Entity::Project(p)) => {
                    out.push(p);
                },
                _ => {},
            }
        }
        k = k + 1;
    }
    assert(all.take(k as int) =~= all);
    out
}

/// The users in the store, in order. Documents that could not be read are
/// skipped, as are projects.
pub fn list_users(entities: Vec<Result<Entity, StorageError>>) -> (r: Vec<User>)
    ensures
        r@ == listed_users(entities@),
{
    let ghost all = entities@;
    let n: usize = entities.len();
    let mut rest = entities;
    let mut out: Vec<User> = Vec::new();
    let mut k: usize = 0;
    while rest.len() > 0
        invariant
            0 <= k <= all.len(),
            all.len() == n,
            rest@ == all.skip(k as int),
            all == entities@,
            listed_users(all.take(k as int)) == out@,
        decreases rest@.len(),
    {
        let entity = rest.remove(0);
        assert(entity == all[k as int]);
        assert(rest@ =~= all.skip(k + 1));
        assert(all.take(k + 1).drop_last() =~= all.take(k as int));
        assert(all.take(k + 1).last() == all[k as int]);
        match entity {
            Ok(Entity::User(u)) => {
                out.push(u);
            },
            _ => {},
        }
        k = k + 1;
    }
    assert(all.take(k as int) =~= all);
    out
}

/// The listed projects are exactly the owned ones: every project owned by
/// `owner` is listed, and every listed project is the project of a report whose
/// self-reference is `owner`.
pub proof fn owned_projects_exact(owner: Seq<u8>, reports: Seq<MetadataReport>)
    ensures
        forall|j: int|
            0 <= j < reports.len() && owned_by(owner, #[trigger] reports[j]) ==> owned_projects(
                owner,
                reports,
            ).contains(project_of(reports[j])),
        forall|x: Project|
            #[trigger] owned_projects(owner, reports).contains(x) ==> exists|j: int|
                0 <= j < reports.len() && owned_by(owner, #[trigger] reports[j]) && project_of(
                    reports[j],
                ) == x,
    decreases reports.len(),
{
    if reports.len() > 0 {
        let rest = reports.drop_last();
        owned_projects_exact(owner, rest);
        let out = owned_projects(owner, reports);
        let part = owned_projects(owner, rest);
        assert forall|j: int|
            0 <= j < reports.len() && owned_by(owner, #[trigger] reports[j]) implies out.contains(
            project_of(reports[j]),
        ) by {
            if j < reports.len() - 1 {
                assert(rest[j] == reports[j]);
                let i = choose|i: int| 0 <= i < part.len() && part[i] == project_of(rest[j]);
                assert(out[i] == part[i]);
            } else {
                assert(out[out.len() - 1] == project_of(reports[j]));
            }
        }
        assert forall|x: Project| #[trigger] out.contains(x) implies exists|j: int|
            0 <= j < reports.len() && owned_by(owner, #[trigger] reports[j]) && project_of(
                reports[j],
            ) == x by {
            let i = choose|i: int| 0 <= i < out.len() && out[i] == x;
            if i < part.len() {
                assert(part[i] == x);
                assert(part.contains(x));
                let j = choose|j: int|
                    0 <= j < rest.len() && owned_by(owner, #[trigger] rest[j]) && project_of(
                        rest[j],
                    ) == x;
                assert(reports[j] == rest[j]);
            } else {
                assert(owned_by(owner, reports[reports.len() - 1]));
            }
        }
    }
}

} // verus!
