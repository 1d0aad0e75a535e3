//! Resolved execution context for one invocation.
//!
//! Resolving a contract address yields three things: the identity of the
//! compiled code, a storage cursor scoped to an address, and a querier
//! session scoped to the same address.  The two handles stand for host-owned
//! resources: they cannot be duplicated, only constructed by the resolver
//! and destroyed by giving them back to the host.

use vstd::prelude::*;
use vstd::slice::slice_to_vec;

verus! {

/// Number of bytes in a code identity: a content checksum of compiled
/// bytecode.
pub const CODE_IDENTITY_LENGTH: usize = 32;

/// Content-addressed identity of compiled contract bytecode.  Always exactly
/// [`CODE_IDENTITY_LENGTH`] bytes; a host answer of any other length is a
/// protocol violation, never truncated or padded into validity.
pub struct CodeIdentity {
    bytes: Vec<u8>,
}

impl View for CodeIdentity {
    type V = Seq<u8>;

    closed spec fn view(&self) -> Seq<u8> {
        self.bytes@
    }
}

impl CodeIdentity {
    #[verifier::type_invariant]
    spec fn wf(self) -> bool {
        self.bytes@.len() == CODE_IDENTITY_LENGTH
    }

    /// Accepts a host-reported checksum only when it has exactly the
    /// required length.
    pub fn from_bytes(bytes: Vec<u8>) -> (r: Option<CodeIdentity>)
        ensures
            bytes@.len() == CODE_IDENTITY_LENGTH ==> (r matches Some(c) && c@ == bytes@),
            bytes@.len() != CODE_IDENTITY_LENGTH ==> r is None,
    {
        if bytes.len() == CODE_IDENTITY_LENGTH {
            Some(CodeIdentity { bytes })
        } else {
            None
        }
    }

    /// The checksum bytes.
    pub fn as_bytes(&self) -> (r: &Vec<u8>)
        ensures
            r@ == self@,
            r@.len() == CODE_IDENTITY_LENGTH,
    {
        proof {
            use_type_invariant(self);
        }
        &self.bytes
    }

    /// A code identity is never any length but the required one.
    pub fn length_is_fixed(&self)
        ensures
            self@.len() == CODE_IDENTITY_LENGTH,
    {
        proof {
            use_type_invariant(self);
        }
    }
}

/// The mathematical content of a key-value entry list: per-key lookup where
/// the earliest entry for a key wins.
pub open spec fn spec_lookup(entries: Seq<(Seq<u8>, Seq<u8>)>, key: Seq<u8>) -> Option<Seq<u8>>
    decreases entries.len(),
{
    if entries.len() == 0 {
        None
    } else if entries[0].0 == key {
        Some(entries[0].1)
    } else {
        spec_lookup(entries.drop_first(), key)
    }
}

/// View of an entry list as a sequence of byte-sequence pairs.
pub open spec fn spec_entries_view(entries: Seq<(Vec<u8>, Vec<u8>)>) -> Seq<(Seq<u8>, Seq<u8>)> {
    entries.map_values(|p: (Vec<u8>, Vec<u8>)| (p.0@, p.1@))
}

/// Compares two byte strings.
pub fn bytes_equal(a: &[u8], b: &[u8]) -> (r: bool)
    ensures
        r == (a@ == b@),
{
    if a.len() != b.len() {
        proof {
            assert(a@ != b@);
        }
        return false;
    }
    let n = a.len();
    let mut i: usize = 0;
    while i < n
        invariant
            0 <= i <= n,
            n == a@.len() == b@.len(),
            forall|j: int| 0 <= j < i ==> a@[j] == b@[j],
        decreases n - i,
    {
        if *vstd::slice::slice_index_get(a, i) != *vstd::slice::slice_index_get(b, i) {
            return false;
        }
        i = i + 1;
    }
    proof {
        assert(a@ =~= b@);
    }
    true
}

/// Host-owned storage cursor scoped to one contract address.
///
/// The entries are the key-value pairs visible through this cursor for the
/// duration of one invocation.  Only the resolver constructs handles, and
/// they cannot be cloned, so each one is released at most once and a release
/// always refers to a handle the host really handed out.
pub struct StorageHandle {
    id: u64,
    owner: String,
    entries: Vec<(Vec<u8>, Vec<u8>)>,
}

impl StorageHandle {
    /// Host-assigned identifier of this resource.
    pub closed spec fn spec_id(self) -> u64 {
        self.id
    }

    /// Address whose storage this cursor exposes.
    pub closed spec fn spec_owner(self) -> Seq<char> {
        self.owner@
    }

    /// The entries visible through this cursor.
    pub closed spec fn spec_entries(self) -> Seq<(Seq<u8>, Seq<u8>)> {
        spec_entries_view(self.entries@)
    }

    /// What a read of `key` through this cursor observes.
    pub open spec fn spec_get(self, key: Seq<u8>) -> Option<Seq<u8>> {
        spec_lookup(self.spec_entries(), key)
    }

    pub(crate) fn new(id: u64, owner: String, entries: Vec<(Vec<u8>, Vec<u8>)>) -> (r: StorageHandle)
        ensures
            r.spec_id() == id,
            r.spec_owner() == owner@,
            r.spec_entries() == spec_entries_view(entries@),
    {
        StorageHandle { id, owner, entries }
    }

    /// Host-assigned identifier of this resource.
    pub fn id(&self) -> (r: u64)
        ensures
            r == self.spec_id(),
    {
        self.id
    }

    /// Reads one key through the cursor.
    pub fn get(&self, key: &[u8]) -> (r: Option<&Vec<u8>>)
        ensures
            match r {
                Some(v) => self.spec_get(key@) == Some(v@),
                None => self.spec_get(key@) is None,
            },
    {
        let n = self.entries.len();
        let mut i: usize = 0;
        proof {
            assert(self.spec_entries().skip(0) =~= self.spec_entries());
        }
        while i < n
            invariant
                0 <= i <= n,
                n == self.entries@.len(),
                spec_lookup(self.spec_entries().skip(i as int), key@) == self.spec_get(key@),
                forall|j: int| 0 <= j < i ==> self.spec_entries()[j].0 != key@,
            decreases n - i,
        {
            proof {
                assert(self.spec_entries().skip(i as int)[0] == self.spec_entries()[i as int]);
                assert(self.spec_entries().skip(i as int).drop_first() =~= self.spec_entries().skip(
                    i as int + 1,
                ));
            }
            if bytes_equal(self.entries[i].0.as_slice(), key) {
                return Some(&self.entries[i].1);
            }
            i = i + 1;
        }
        proof {
            assert(self.spec_entries().skip(n as int) =~= Seq::empty());
        }
        None
    }
}

/// Host-owned querier session scoped to one contract address.  Like the
/// storage cursor, it can only be produced by the resolver and released
/// once.
pub struct QuerierHandle {
    id: u64,
    owner: String,
}

impl QuerierHandle {
    /// Host-assigned identifier of this resource.
    pub closed spec fn spec_id(self) -> u64 {
        self.id
    }

    /// Address this session is scoped to.
    pub closed spec fn spec_owner(self) -> Seq<char> {
        self.owner@
    }

    pub(crate) fn new(id: u64, owner: String) -> (r: QuerierHandle)
        ensures
            r.spec_id() == id,
            r.spec_owner() == owner@,
    {
        QuerierHandle { id, owner }
    }

    /// Host-assigned identifier of this resource.
    pub fn id(&self) -> (r: u64)
        ensures
            r == self.spec_id(),
    {
        self.id
    }
}

/// Everything one invocation needs from the resolver: the code to run and
/// the storage and querier context to run it against.  Owned exclusively by
/// the invocation that resolved it and destroyed, with its handles released,
/// before that invocation returns.
pub struct CallContext {
    pub code_identity: CodeIdentity,
    pub storage: StorageHandle,
    pub querier: QuerierHandle,
}

/// Copies one byte string into an owned value.
pub fn clone_bytes(v: &Vec<u8>) -> (r: Vec<u8>)
    ensures
        r@ == v@,
{
    slice_to_vec(v.as_slice())
}

/// Copies a key-value entry list into an owned value with the same view.
pub fn clone_entries(entries: &Vec<(Vec<u8>, Vec<u8>)>) -> (r: Vec<(Vec<u8>, Vec<u8>)>)
    ensures
        spec_entries_view(r@) == spec_entries_view(entries@),
{
    let n = entries.len();
    let mut out: Vec<(Vec<u8>, Vec<u8>)> = Vec::new();
    let mut i: usize = 0;
    while i < n
        invariant
            0 <= i <= n,
            n == entries@.len(),
            out@.len() == i,
            forall|j: int|
                0 <= j < i ==> out@[j].0@ == entries@[j].0@ && out@[j].1@ == entries@[j].1@,
        decreases n - i,
    {
        let key = clone_bytes(&entries[i].0);
        let value = clone_bytes(&entries[i].1);
        out.push((key, value));
        i = i + 1;
    }
    proof {
        assert(spec_entries_view(out@) =~= spec_entries_view(entries@));
    }
    out
}

} // verus!
