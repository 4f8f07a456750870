//! References into the store's namespaces.
use vstd::prelude::*;

use crate::id::{PeerId, Urn};

verus! {

/// What a reference points at: a project namespace, an optional remote peer in
/// it, and a one-level branch name.
pub struct RefView {
    pub namespace: Seq<u8>,
    pub remote: Option<Seq<u8>>,
    pub name: Seq<char>,
}

/// The view of an optional peer.
pub open spec fn peer_opt_view(p: Option<PeerId>) -> Option<Seq<u8>> {
    match p {
        Some(q) => Some(q@),
        None => None,
    }
}

/// A branch head scoped by project and, for a remote view, by peer.
#[derive(Clone, Debug, PartialEq, Eq)]
pub struct NamespacedRef {
    pub namespace: Urn,
    pub remote: Option<PeerId>,
    pub name: String,
}

impl View for NamespacedRef {
    type V = RefView;

    open spec fn view(&self) -> RefView {
        RefView { namespace: self.namespace@, remote: peer_opt_view(self.remote), name: self.name@ }
    }
}

pub fn copy_peer_opt(p: &Option<PeerId>) -> (r: Option<PeerId>)
    ensures
        peer_opt_view(r) == peer_opt_view(*p),
{
    match p {
        Some(q) => Some(q.copy()),
        None => None,
    }
}

/// The branch a repository browser opens for a reference: a local branch by
/// its name, or a remote one under `heads/` of the remote peer.
#[derive(Clone, Debug, PartialEq, Eq)]
pub enum BrowserBranch {
    Local(String),
    Remote { name: String, peer: PeerId },
}

pub enum BrowserBranchView {
    Local(Seq<char>),
    Remote(Seq<char>, Seq<u8>),
}

impl View for BrowserBranch {
    type V = BrowserBranchView;

    open spec fn view(&self) -> BrowserBranchView {
        match self {
            BrowserBranch::Local(n) => BrowserBranchView::Local(n@),
            BrowserBranch::Remote { name, peer } => BrowserBranchView::Remote(name@, peer@),
        }
    }
}

/// The browser branch of a reference.
pub open spec fn browser_branch_of(r: RefView) -> BrowserBranchView {
    match r.remote {
        None => BrowserBranchView::Local(r.name),
        Some(p) => BrowserBranchView::Remote(seq!['h', 'e', 'a', 'd', 's', '/'] + r.name, p),
    }
}

impl NamespacedRef {
    /// The branch that a repository browser opens for this reference.
    pub fn browser_branch(&self) -> (r: BrowserBranch)
        ensures
            r@ == browser_branch_of(self@),
    {
        match &self.remote {
            None => BrowserBranch::Local(self.name.clone()),
            Some(p) => {
                let mut name = String::from_str("heads/");
                proof {
                    reveal_strlit("heads/");
                }
                name.append(self.name.as_str());
                assert(name@ =~= seq!['h', 'e', 'a', 'd', 's', '/'] + self.name@);
                BrowserBranch::Remote { name, peer: p.copy() }
            },
        }
    }

    /// The head of branch `name` in the namespace of `namespace`, under `remote` if given.
    pub fn head(namespace: Urn, remote: Option<PeerId>, name: String) -> (r: NamespacedRef)
        ensures
            r@ == (RefView {
                namespace: namespace@,
                remote: peer_opt_view(remote),
                name: name@,
            }),
    {
        NamespacedRef { namespace, remote, name }
    }

    pub fn copy(&self) -> (r: NamespacedRef)
        ensures
            r@ == self@,
    {
        NamespacedRef {
            namespace: self.namespace.copy(),
            remote: copy_peer_opt(&self.remote),
            name: self.name.clone(),
        }
    }
}

} // verus!
