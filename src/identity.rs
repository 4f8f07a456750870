//! Signed identity documents: users and projects.
use vstd::prelude::*;

use crate::id::{PeerId, Urn};

verus! {

/// What a user document holds for this crate's logic.
pub struct UserView {
    pub urn: Seq<u8>,
    pub handle: Seq<char>,
}

/// A user identity document.
#[derive(Clone, Debug, PartialEq, Eq)]
pub struct User {
    pub urn: Urn,
    pub handle: String,
}

impl View for User {
    type V = UserView;

    open spec fn view(&self) -> UserView {
        UserView { urn: self.urn@, handle: self.handle@ }
    }
}

impl User {
    pub fn new(urn: Urn, handle: String) -> (r: User)
        ensures
            r.urn@ == urn@,
            r.handle@ == handle@,
    {
        User { urn, handle }
    }

    pub fn copy(&self) -> (r: User)
        ensures
            r@ == self@,
    {
        User { urn: self.urn.copy(), handle: self.handle.clone() }
    }

    pub fn urn(&self) -> (r: &Urn)
        ensures
            r@ == self.urn@,
    {
        &self.urn
    }

    pub fn name(&self) -> (r: &String)
        ensures
            r@ == self.handle@,
    {
        &self.handle
    }
}

/// A project identity document.
#[derive(Clone, Debug, PartialEq, Eq)]
pub struct Project {
    pub urn: Urn,
    pub name: String,
    pub description: String,
    pub default_branch: String,
    /// Identifiers of the users that maintain the project.
    pub maintainers: Vec<Urn>,
    /// The peers whose keys were known when the project was created, in that order.
    pub keys: Vec<PeerId>,
}

/// Whether `u` is in the maintainer set of `p`.
pub open spec fn is_maintainer(p: Project, u: Seq<u8>) -> bool {
    exists|i: int| 0 <= i < p.maintainers@.len() && #[trigger] p.maintainers@[i]@ == u
}

impl Project {
    /// Whether the user identified by `u` maintains this project.
    pub fn has_maintainer(&self, u: &Urn) -> (r: bool)
        ensures
            r == is_maintainer(*self, u@),
    {
        let mut i: usize = 0;
        while i < self.maintainers.len()
            invariant
                0 <= i <= self.maintainers@.len(),
                forall|j: int| 0 <= j < i ==> #[trigger] self.maintainers@[j]@ != u@,
            decreases self.maintainers@.len() - i,
        {
            if self.maintainers[i].same(u) {
                return true;
            }
            i = i + 1;
        }
        false
    }

    /// The first peer listed in the project's key set, if there is one.
    pub fn first_key(&self) -> (r: Option<PeerId>)
        ensures
            self.keys@.len() == 0 ==> r.is_none(),
            self.keys@.len() > 0 ==> r.is_some() && r.unwrap()@ == self.keys@[0]@,
    {
        if self.keys.len() == 0 {
            None
        } else {
            Some(self.keys[0].copy())
        }
    }
}

} // verus!
