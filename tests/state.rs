use coco_state::branch::{choose_default_branch, normalize_remote, resolve_reference};
use coco_state::checkout::{Ownership, RemoteView};
use coco_state::error::{Error, StorageError};
use coco_state::id::{PeerId, Urn};
use coco_state::identity::{Project, User};
use coco_state::listing::{Entity, MetadataReport};
use coco_state::peer::{tracked_peers, Peer, RemoteReport, Role, Status};
use coco_state::refs::{BrowserBranch, NamespacedRef};
use coco_state::state::State;
use coco_state::tracking::{include_remotes, IncludeRemote};
use coco_state::transport::{process_transport_results, TaskOutcome};

fn urn(b: u8) -> Urn {
    Urn::new(vec![b; 4])
}

fn peer(b: u8) -> PeerId {
    PeerId::new(vec![b; 4])
}

fn user(b: u8, handle: &str) -> User {
    User::new(urn(b), handle.to_string())
}

fn project(b: u8, name: &str, maintainers: Vec<Urn>, keys: Vec<PeerId>) -> Project {
    Project {
        urn: urn(b),
        name: name.to_string(),
        description: "the people".to_string(),
        default_branch: "power".to_string(),
        maintainers,
        keys,
    }
}

#[test]
fn can_create_user() {
    let state = State::new(peer(1));
    let annie = state.init_user(user(10, "annie_are_you_ok?"), Ok(()));
    assert!(annie.is_ok());
}

#[test]
fn cannot_create_user_twice() {
    let state = State::new(peer(1));
    let first = state.init_user(user(10, "cloudhead"), Ok(())).unwrap();
    let err = state.init_user(
        user(10, "cloudhead"),
        Err(StorageError::AlreadyExists(first.urn().clone())),
    );
    if let Err(Error::Storage(StorageError::AlreadyExists(u))) = err {
        assert_eq!(&u, first.urn());
    } else {
        panic!("unexpected error when creating the user a second time: {:?}", err);
    }
}

#[test]
fn can_create_project() {
    let state = State::new(peer(1));
    let p = state.init_project(project(20, "radicalise", vec![urn(10)], vec![peer(1)]), Ok(()));
    assert!(p.is_ok());
    assert_eq!(p.unwrap().name, "radicalise");
}

#[test]
fn cannot_create_project_twice() {
    let state = State::new(peer(1));
    let p = state
        .init_project(project(20, "radicle", vec![urn(10)], vec![peer(1)]), Ok(()))
        .unwrap();
    let err = state.init_project(
        project(20, "radicle", vec![urn(10)], vec![peer(1)]),
        Err(StorageError::AlreadyExists(p.urn.clone())),
    );
    if let Err(Error::Storage(StorageError::AlreadyExists(u))) = err {
        assert_eq!(u, p.urn);
    } else {
        panic!("unexpected error when creating the project a second time: {:?}", err);
    }
}

fn owned(p: Project, owner: &Urn) -> MetadataReport {
    MetadataReport { entity: Ok(Entity::Project(p)), rad_self: Some(owner.clone()) }
}

#[test]
fn list_projects() {
    let cloudhead = urn(10);
    let kalt = urn(11);
    let reports = vec![
        owned(project(20, "radicle", vec![cloudhead.clone()], vec![]), &cloudhead),
        owned(project(21, "monokel", vec![cloudhead.clone()], vec![]), &cloudhead),
        owned(project(22, "Monadic", vec![cloudhead.clone()], vec![]), &cloudhead),
        owned(project(23, "open source coin", vec![cloudhead.clone()], vec![]), &cloudhead),
        owned(project(24, "fakie-nose-kickflip-backside-180-to-handplant", vec![kalt.clone()], vec![]), &kalt),
        MetadataReport { entity: Ok(Entity::User(user(10, "cloudhead"))), rad_self: Some(cloudhead.clone()) },
        MetadataReport { entity: Err(StorageError::Other("unreadable".to_string())), rad_self: None },
        MetadataReport { entity: Ok(Entity::Project(project(25, "lost", vec![], vec![]))), rad_self: None },
    ];
    let projects = coco_state::listing::list_projects(&cloudhead, reports);
    let mut names = projects.into_iter().map(|p| p.name).collect::<Vec<_>>();
    names.sort();
    assert_eq!(names, vec!["Monadic", "monokel", "open source coin", "radicle"]);
    assert!(!names.contains(&"fakie-nose-kickflip-backside-180-to-handplant".to_string()));
}

#[test]
fn list_projects_excludes_other_owner() {
    let a_owner = urn(10);
    let reports = vec![
        owned(project(20, "A", vec![], vec![]), &a_owner),
        owned(project(21, "B", vec![], vec![]), &a_owner),
        owned(project(22, "C", vec![], vec![]), &urn(11)),
    ];
    let names = coco_state::listing::list_projects(&a_owner, reports).into_iter().map(|p| p.name).collect::<Vec<_>>();
    assert_eq!(names, vec!["A", "B"]);
}

#[test]
fn list_users() {
    let entities = vec![
        Ok(Entity::User(user(10, "cloudhead"))),
        Ok(Entity::Project(project(20, "radicle", vec![], vec![]))),
        Ok(Entity::User(user(11, "kalt"))),
    ];
    let users = coco_state::listing::list_users(entities);
    let mut handles = users.into_iter().map(|u| u.handle).collect::<Vec<_>>();
    handles.sort();
    assert_eq!(handles, vec!["cloudhead", "kalt"]);
}

#[test]
fn list_users_skips_unreadable_document() {
    let entities = vec![
        Ok(Entity::User(user(10, "cloudhead"))),
        Err(StorageError::Other("broken".to_string())),
        Ok(Entity::User(user(11, "kalt"))),
        Err(StorageError::Other("later".to_string())),
    ];
    assert_eq!(
        coco_state::listing::list_users(entities),
        vec![user(10, "cloudhead"), user(11, "kalt")]
    );
    assert_eq!(coco_state::listing::list_users(vec![]), vec![]);
}

#[test]
fn get_branch_defaults_and_normalises_remote() {
    let state = State::new(peer(1));
    let p = project(20, "radicle", vec![], vec![peer(2)]);
    let r = state.get_branch(&p.urn, Some(peer(1)), None, Some(&p));
    assert_eq!(r, Some(NamespacedRef::head(urn(20), None, "power".to_string())));
    let r = state.get_branch(&p.urn, Some(peer(3)), Some("dope".to_string()), None);
    assert_eq!(r, Some(NamespacedRef::head(urn(20), Some(peer(3)), "dope".to_string())));
    assert_eq!(state.get_branch(&p.urn, None, None, None), None);
    assert_eq!(normalize_remote(None, &peer(1)), None);
}

#[test]
fn resolve_reference_missing() {
    let r = NamespacedRef::head(urn(20), None, "power".to_string());
    assert_eq!(resolve_reference(r.clone(), true), Ok(r.clone()));
    assert_eq!(resolve_reference(r.clone(), false), Err(Error::MissingRef { reference: r }));
}

#[test]
fn default_branch_falls_back_to_first_peer() {
    let state = State::new(peer(1));
    let p = project(20, "radicle", vec![], vec![peer(2), peer(3)]);
    let (owner, first) = state.find_default_branch(&p.urn, &p);
    assert_eq!(owner, NamespacedRef::head(urn(20), None, "power".to_string()));
    assert_eq!(first, NamespacedRef::head(urn(20), Some(peer(2)), "power".to_string()));
    let out = choose_default_branch(
        &p.urn,
        &p,
        resolve_reference(owner.clone(), false),
        resolve_reference(first.clone(), true),
    );
    assert_eq!(out, Ok(first.clone()));
    let out = choose_default_branch(
        &p.urn,
        &p,
        resolve_reference(owner.clone(), true),
        resolve_reference(first.clone(), true),
    );
    assert_eq!(out, Ok(owner.clone()));
}

#[test]
fn default_branch_missing_everywhere() {
    let state = State::new(peer(1));
    let p = project(20, "radicle", vec![], vec![peer(2)]);
    let (owner, first) = state.find_default_branch(&p.urn, &p);
    let out = choose_default_branch(
        &p.urn,
        &p,
        resolve_reference(owner, false),
        resolve_reference(first, false),
    );
    assert_eq!(out, Err(Error::NoDefaultBranch { name: "radicle".to_string(), urn: urn(20) }));
}

#[test]
fn default_branch_other_error_passes() {
    let p = project(20, "radicle", vec![], vec![]);
    let owner = NamespacedRef::head(urn(20), None, "power".to_string());
    let storage = Error::Storage(StorageError::Other("io".to_string()));
    let out = choose_default_branch(&p.urn, &p, Err(Error::MissingRef { reference: owner }), Err(storage.clone()));
    assert_eq!(out, Err(storage));
}

#[test]
fn default_branch_owner_error_passes() {
    let p = project(20, "radicle", vec![], vec![peer(2)]);
    let first = NamespacedRef::head(urn(20), Some(peer(2)), "power".to_string());
    let storage = Error::Storage(StorageError::Other("io".to_string()));
    let out = choose_default_branch(&p.urn, &p, Err(storage.clone()), Err(Error::MissingRef { reference: first.clone() }));
    assert_eq!(out, Err(storage.clone()));
    let out = choose_default_branch(&p.urn, &p, Err(storage.clone()), Ok(first));
    assert_eq!(out, Err(storage));
}

#[test]
fn default_branch_without_keys_looks_locally_twice() {
    let state = State::new(peer(1));
    let p = project(20, "radicle", vec![], vec![]);
    let (owner, first) = state.find_default_branch(&p.urn, &p);
    assert_eq!(owner, first);
}

#[test]
fn tracked_peer_roles() {
    let p = project(20, "radicle", vec![urn(10)], vec![]);
    let reports = vec![
        RemoteReport { peer_id: peer(2), self_user: Some(user(10, "cloudhead")), heads: 1 },
        RemoteReport { peer_id: peer(3), self_user: Some(user(11, "kalt")), heads: 1 },
        RemoteReport { peer_id: peer(4), self_user: None, heads: 1 },
        RemoteReport { peer_id: peer(5), self_user: Some(user(12, "tracker")), heads: 0 },
        RemoteReport { peer_id: peer(6), self_user: Some(user(10, "cloudhead")), heads: 0 },
    ];
    let peers = tracked_peers(&p, &reports);
    assert_eq!(
        peers,
        vec![
            Peer::Remote { peer_id: peer(2), status: Status::Replicated { role: Role::Maintainer, user: user(10, "cloudhead") } },
            Peer::Remote { peer_id: peer(3), status: Status::Replicated { role: Role::Contributor, user: user(11, "kalt") } },
            Peer::Remote { peer_id: peer(4), status: Status::NotReplicated },
            Peer::Remote { peer_id: peer(5), status: Status::Replicated { role: Role::Tracker, user: user(12, "tracker") } },
            Peer::Remote { peer_id: peer(6), status: Status::Replicated { role: Role::Maintainer, user: user(10, "cloudhead") } },
        ]
    );
}

#[test]
fn local_peer_first_with_role() {
    let state = State::new(peer(1));
    let p = project(20, "radicle", vec![urn(10)], vec![]);
    let remotes = vec![Peer::Remote { peer_id: peer(2), status: Status::NotReplicated }];
    let peers = state.list_project_peers(&p, Some(user(10, "cloudhead")), 3, remotes.clone()).unwrap();
    assert_eq!(peers.len(), 2);
    assert_eq!(
        peers[0],
        Peer::Local { peer_id: peer(1), status: Status::Replicated { role: Role::Maintainer, user: user(10, "cloudhead") } }
    );
    assert_eq!(peers[1], remotes[0]);
    let peers = state.list_project_peers(&p, Some(user(10, "cloudhead")), 0, vec![]).unwrap();
    assert_eq!(
        peers,
        vec![Peer::Local { peer_id: peer(1), status: Status::Replicated { role: Role::Tracker, user: user(10, "cloudhead") } }]
    );
    let peers = state.list_project_peers(&p, Some(user(11, "kalt")), 1, vec![]).unwrap();
    assert_eq!(
        peers,
        vec![Peer::Local { peer_id: peer(1), status: Status::Replicated { role: Role::Contributor, user: user(11, "kalt") } }]
    );
}

#[test]
fn list_project_peers_without_owner() {
    let state = State::new(peer(1));
    let p = project(20, "radicle", vec![], vec![]);
    assert_eq!(state.list_project_peers(&p, None, 1, vec![]), Err(Error::MissingOwner));
}

#[test]
fn include_lists_replicated_remotes_only() {
    let state = State::new(peer(1));
    let p = project(20, "radicle", vec![urn(10)], vec![]);
    let reports = vec![
        RemoteReport { peer_id: peer(2), self_user: Some(user(10, "cloudhead")), heads: 1 },
        RemoteReport { peer_id: peer(4), self_user: None, heads: 1 },
        RemoteReport { peer_id: peer(3), self_user: Some(user(11, "kalt")), heads: 1 },
    ];
    let peers = tracked_peers(&p, &reports);
    let inc = state.update_include(&p.urn, &peers);
    assert_eq!(inc.urn, urn(20));
    assert_eq!(inc.local, peer(1));
    assert_eq!(
        inc.remotes,
        vec![
            IncludeRemote { user: user(10, "cloudhead"), peer_id: peer(2) },
            IncludeRemote { user: user(11, "kalt"), peer_id: peer(3) },
        ]
    );
    let local_only = vec![Peer::Local { peer_id: peer(1), status: Status::Replicated { role: Role::Tracker, user: user(10, "c") } }];
    assert_eq!(include_remotes(&local_only), vec![]);
}

#[test]
fn untrack_rewrites_include_only_on_removal() {
    let state = State::new(peer(1));
    assert!(!state.untrack(false));
    assert!(state.untrack(true));
    // After removal the store no longer reports the peer, so the include has no entry for it.
    let p = project(20, "radicle", vec![], vec![]);
    let before = vec![
        RemoteReport { peer_id: peer(2), self_user: Some(user(10, "cloudhead")), heads: 1 },
        RemoteReport { peer_id: peer(3), self_user: Some(user(11, "kalt")), heads: 1 },
    ];
    let after = vec![RemoteReport { peer_id: peer(3), self_user: Some(user(11, "kalt")), heads: 1 }];
    let inc_before = state.update_include(&p.urn, &tracked_peers(&p, &before));
    let inc_after = state.update_include(&p.urn, &tracked_peers(&p, &after));
    assert!(inc_before.remotes.iter().any(|r| r.peer_id == peer(2)));
    assert!(inc_after.remotes.iter().all(|r| r.peer_id != peer(2)));
}

#[test]
fn track_untrack_round_trip_include() {
    let state = State::new(peer(1));
    let p = project(20, "radicle", vec![], vec![]);
    let before = vec![RemoteReport { peer_id: peer(3), self_user: Some(user(11, "kalt")), heads: 1 }];
    let inc_before = state.update_include(&p.urn, &tracked_peers(&p, &before));
    // Tracking peer 2 and untracking it again leaves the store reporting what it did before.
    assert!(state.untrack(true));
    let restored = vec![RemoteReport { peer_id: peer(3), self_user: Some(user(11, "kalt")), heads: 1 }];
    let inc_after = state.update_include(&p.urn, &tracked_peers(&p, &restored));
    assert_eq!(inc_before, inc_after);
}

#[test]
fn checkout_local_and_remote() {
    let state = State::new(peer(1));
    let p = project(20, "radicalise", vec![], vec![]);
    let c = state.checkout(&p, None, "/tmp/radicle".to_string(), "/inc/20.inc".to_string());
    assert_eq!(c.urn, urn(20));
    assert_eq!(c.name, "radicalise");
    assert_eq!(c.default_branch, "power");
    assert_eq!(c.path, "/tmp/radicle");
    assert_eq!(c.include_path, "/inc/20.inc");
    assert_eq!(c.ownership, Ownership::Local(peer(1)));
    let c = state.checkout(
        &p,
        Some(RemoteView { peer_id: peer(2), handle: "kalt".to_string() }),
        "/tmp/radicle".to_string(),
        "/inc/20.inc".to_string(),
    );
    assert_eq!(c.ownership, Ownership::Remote { handle: "kalt".to_string(), remote: peer(2), local: peer(1) });
}

#[test]
fn transport_results_judged() {
    assert_eq!(process_transport_results(None), Ok(false));
    assert_eq!(process_transport_results(Some(vec![])), Ok(true));
    assert_eq!(process_transport_results(Some(vec![TaskOutcome::Done, TaskOutcome::Done])), Ok(true));
    assert_eq!(
        process_transport_results(Some(vec![TaskOutcome::Done, TaskOutcome::Failed("x".to_string()), TaskOutcome::Panicked])),
        Err(Error::Storage(StorageError::Other("x".to_string())))
    );
    assert_eq!(
        process_transport_results(Some(vec![TaskOutcome::Panicked, TaskOutcome::Failed("x".to_string())])),
        Err(Error::TransportPanicked)
    );
}

#[test]
fn default_owner_hides_read_failure() {
    let state = State::new(peer(1));
    assert_eq!(state.default_owner(Ok(user(10, "cloudhead"))), Some(user(10, "cloudhead")));
    assert_eq!(state.default_owner(Err(StorageError::Other("no rad/self".to_string()))), None);
}

#[test]
fn ids_compare_by_bytes() {
    assert!(urn(1).same(&urn(1)));
    assert!(!urn(1).same(&Urn::new(vec![1, 1, 1])));
    assert!(!peer(1).same(&peer(2)));
    assert_eq!(peer(7).copy(), peer(7));
    let p = project(20, "radicle", vec![urn(10), urn(11)], vec![peer(5)]);
    assert!(p.has_maintainer(&urn(11)));
    assert!(!p.has_maintainer(&urn(12)));
    assert_eq!(p.first_key(), Some(peer(5)));
}

#[test]
fn browser_branch_local_and_remote() {
    let local = NamespacedRef::head(urn(20), None, "power".to_string());
    assert_eq!(local.browser_branch(), BrowserBranch::Local("power".to_string()));
    let remote = NamespacedRef::head(urn(20), Some(peer(2)), "power".to_string());
    assert_eq!(
        remote.browser_branch(),
        BrowserBranch::Remote { name: "heads/power".to_string(), peer: peer(2) }
    );
}
