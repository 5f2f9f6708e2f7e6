//! The content-addressed byte store at the host boundary, and the content
//! identifiers it hands out.
//!
//! A content identifier is modelled by the content it addresses: the store
//! records which blobs have been persisted, and a reference resolves exactly
//! when its bytes were stored. This keeps the defining property of content
//! addressing — the identifier determines the bytes — while staying a plain
//! value the dispatcher's contracts can speak about.

use vstd::prelude::*;

verus! {

/// A content identifier: resolves through a [`ByteStore`] to the bytes it
/// was derived from.
#[derive(Debug)]
pub struct ContentId {
    pub bytes: Vec<u8>,
}

impl ContentId {
    /// The addressed content.
    pub open spec fn view(&self) -> Seq<u8> {
        self.bytes@
    }

    /// An identical copy of the reference.
    pub fn duplicate(&self) -> (r: ContentId)
        ensures
            r@ == self@,
    {
        ContentId { bytes: clone_bytes(&self.bytes) }
    }

    /// Whether two references address the same content.
    pub fn same_as(&self, other: &ContentId) -> (r: bool)
        ensures
            r <==> self@ == other@,
    {
        bytes_eq(&self.bytes, &other.bytes)
    }
}

/// An identical copy of a byte vector.
pub fn clone_bytes(v: &Vec<u8>) -> (r: Vec<u8>)
    ensures
        r@ == v@,
{
    let mut r: Vec<u8> = Vec::new();
    let mut i: usize = 0;
    while i < v.len()
        invariant
            i <= v.len(),
            r@ == v@.subrange(0, i as int),
        decreases v.len() - i,
    {
        r.push(v[i]);
        i = i + 1;
        assert(r@ =~= v@.subrange(0, i as int));
    }
    assert(r@ =~= v@);
    r
}

/// Whether two byte vectors hold the same bytes.
pub fn bytes_eq(a: &Vec<u8>, b: &Vec<u8>) -> (r: bool)
    ensures
        r <==> a@ == b@,
{
    if a.len() != b.len() {
        assert(a@ !~= b@);
        return false;
    }
    let mut i: usize = 0;
    while i < a.len()
        invariant
            i <= a.len(),
            a.len() == b.len(),
            forall|j: int| 0 <= j < i ==> a@[j] == b@[j],
        decreases a.len() - i,
    {
        if a[i] != b[i] {
            return false;
        }
        i = i + 1;
    }
    assert(a@ =~= b@);
    true
}

/// The content-addressed byte store: the set of blobs persisted so far,
/// viewed as the sequence of their contents in storage order.
#[derive(Debug)]
pub struct ByteStore {
    pub blobs: Vec<Vec<u8>>,
}

impl ByteStore {
    /// The stored blobs.
    pub open spec fn view(&self) -> Seq<Seq<u8>> {
        self.blobs@.map_values(|b: Vec<u8>| b@)
    }

    /// Whether a reference resolves: its content has been stored.
    pub open spec fn resolves(&self, content: Seq<u8>) -> bool {
        self@.contains(content)
    }

    /// An empty store.
    pub fn new() -> (r: ByteStore)
        ensures
            r@ == Seq::<Seq<u8>>::empty(),
    {
        ByteStore { blobs: Vec::new() }
    }

    /// Persist a blob and hand back the reference its content derives.
    pub fn put(&mut self, content: Vec<u8>) -> (r: ContentId)
        ensures
            r@ == content@,
            final(self)@ == old(self)@.push(content@),
            final(self).resolves(content@),
    {
        let ghost old_view = self@;
        let id = ContentId { bytes: clone_bytes(&content) };
        self.blobs.push(content);
        proof {
            assert(self@ =~= old_view.push(id@));
            assert(self@[old_view.len() as int] == id@);
        }
        id
    }

    /// Fetch the content a reference addresses, or nothing if it was never
    /// stored.
    pub fn get(&self, id: &ContentId) -> (r: Option<Vec<u8>>)
        ensures
            match r {
                Some(v) => self.resolves(id@) && v@ == id@,
                None => !self.resolves(id@),
            },
    {
        let mut i: usize = 0;
        while i < self.blobs.len()
            invariant
                i <= self.blobs.len(),
                forall|j: int| 0 <= j < i ==> self@[j] != id@,
            decreases self.blobs.len() - i,
        {
            if bytes_eq(&self.blobs[i], &id.bytes) {
                assert(self@[i as int] == id@);
                return Some(clone_bytes(&self.blobs[i]));
            }
            i = i + 1;
        }
        None
    }
}

} // verus!
