//! Identifiers of identity documents and of network participants.
use vstd::prelude::*;

verus! {

/// Compares two byte strings.
pub fn bytes_eq(a: &Vec<u8>, b: &Vec<u8>) -> (r: bool)
    ensures
        r == (a@ == b@),
{
    if a.len() != b.len() {
        return false;
    }
    let mut i: usize = 0;
    while i < a.len()
        invariant
            a@.len() == b@.len(),
            0 <= i <= a@.len(),
            forall|j: int| 0 <= j < i ==> a@[j] == b@[j],
        decreases a@.len() - i,
    {
        if a[i] != b[i] {
            return false;
        }
        i = i + 1;
    }
    assert(a@ =~= b@);
    true
}

/// Copies a byte string.
pub fn bytes_copy(a: &Vec<u8>) -> (r: Vec<u8>)
    ensures
        r@ == a@,
{
    a.clone()
}

/// Content-derived identifier of a user or project identity document.
#[derive(Clone, Debug, PartialEq, Eq)]
pub struct Urn {
    pub id: Vec<u8>,
}

impl View for Urn {
    type V = Seq<u8>;

    open spec fn view(&self) -> Seq<u8> {
        self.id@
    }
}

impl Urn {
    pub fn new(id: Vec<u8>) -> (r: Urn)
        ensures
            r@ == id@,
    {
        Urn { id }
    }

    /// Whether both identifiers name the same document.
    pub fn same(&self, other: &Urn) -> (r: bool)
        ensures
            r == (self@ == other@),
    {
        bytes_eq(&self.id, &other.id)
    }

    pub fn copy(&self) -> (r: Urn)
        ensures
            r@ == self@,
    {
        Urn { id: bytes_copy(&self.id) }
    }
}

/// Public-key-derived identifier of a network participant.
#[derive(Clone, Debug, PartialEq, Eq)]
pub struct PeerId {
    pub key: Vec<u8>,
}

impl View for PeerId {
    type V = Seq<u8>;

    open spec fn view(&self) -> Seq<u8> {
        self.key@
    }
}

impl PeerId {
    pub fn new(key: Vec<u8>) -> (r: PeerId)
        ensures
            r@ == key@,
    {
        PeerId { key }
    }

    /// Whether both identifiers name the same participant.
    pub fn same(&self, other: &PeerId) -> (r: bool)
        ensures
            r == (self@ == other@),
    {
        bytes_eq(&self.key, &other.key)
    }

    pub fn copy(&self) -> (r: PeerId)
        ensures
            r@ == self@,
    {
        PeerId { key: bytes_copy(&self.key) }
    }
}

} // verus!
