//! The plain values that the registry stores: accounts, heights and
//! fingerprints.

use std::marker::PhantomData;
use vstd::prelude::*;
use crate::config::Config;

verus! {

/// The position of a block in the ledger. It is recorded, never compared.
pub type Height = u64;

/// Whether two byte strings hold the same bytes.
pub(crate) fn bytes_eq(a: &[u8], b: &[u8]) -> (same: bool)
    ensures
        same == (a@ == b@),
{
    if a.len() != b.len() {
        return false;
    }
    let mut i: usize = 0;
    while i < a.len()
        invariant
            a@.len() == b@.len(),
            0 <= i <= a@.len(),
            forall|j: int| 0 <= j < i ==> a@[j] == b@[j],
        decreases a@.len() - i,
    {
        if a[i] != b[i] {
            return false;
        }
        i += 1;
    }
    assert(a@ =~= b@);
    true
}

/// A copy of a byte string.
pub(crate) fn bytes_clone(a: &[u8]) -> (copy: Vec<u8>)
    ensures
        copy@ == a@,
{
    let mut copy: Vec<u8> = Vec::with_capacity(a.len());
    let mut i: usize = 0;
    while i < a.len()
        invariant
            0 <= i <= a@.len(),
            copy@ == a@.take(i as int),
        decreases a@.len() - i,
    {
        copy.push(a[i]);
        i += 1;
    }
    copy
}

/// The identifier of an account, already authenticated by the caller.
///
/// The registry looks at nothing in it but whether two identifiers are the
/// same bytes.
#[derive(Debug)]
pub struct AccountId {
    bytes: Vec<u8>,
}

impl View for AccountId {
    type V = Seq<u8>;

    closed spec fn view(&self) -> Seq<u8> {
        self.bytes@
    }
}

impl AccountId {
    /// The account that `bytes` identify.
    pub fn new(bytes: Vec<u8>) -> (account: Self)
        ensures
            account@ == bytes@,
    {
        AccountId { bytes }
    }

    /// The bytes of the identifier.
    pub fn as_slice(&self) -> (bytes: &[u8])
        ensures
            bytes@ == self@,
    {
        self.bytes.as_slice()
    }
}

impl Clone for AccountId {
    fn clone(&self) -> (copy: Self)
        ensures
            copy@ == self@,
    {
        AccountId { bytes: bytes_clone(self.bytes.as_slice()) }
    }
}

impl PartialEq for AccountId {
    fn eq(&self, other: &Self) -> (same: bool) {
        bytes_eq(self.bytes.as_slice(), other.bytes.as_slice())
    }
}

impl vstd::std_specs::cmp::PartialEqSpecImpl for AccountId {
    open spec fn obeys_eq_spec() -> bool {
        true
    }

    open spec fn eq_spec(&self, other: &Self) -> bool {
        self@ == other@
    }
}

impl Eq for AccountId {}

/// The fingerprint of a piece of content: at most
/// `T::MAX_BYTES_IN_HASH` bytes, compared byte by byte.
///
/// The bound is checked once, when the value is made.
#[derive(Debug)]
pub struct Fingerprint<T: Config> {
    bytes: Vec<u8>,
    config: PhantomData<T>,
}

impl<T: Config> View for Fingerprint<T> {
    type V = Seq<u8>;

    closed spec fn view(&self) -> Seq<u8> {
        self.bytes@
    }
}

impl<T: Config> Fingerprint<T> {
    #[verifier::type_invariant]
    spec fn within_bound(self) -> bool {
        self.bytes@.len() <= T::MAX_BYTES_IN_HASH
    }

    /// The fingerprint that holds `bytes`, or `bytes` handed back where they
    /// are more than the configuration allows.
    pub fn new(bytes: Vec<u8>) -> (made: Result<Self, Vec<u8>>)
        ensures
            made is Ok <==> bytes@.len() <= T::MAX_BYTES_IN_HASH,
            made matches Ok(fingerprint) ==> fingerprint@ == bytes@,
            made matches Err(rejected) ==> rejected@ == bytes@,
    {
        let bound: u32 = T::MAX_BYTES_IN_HASH;
        if bytes.len() <= bound as usize {
            Ok(Fingerprint { bytes, config: PhantomData })
        } else {
            Err(bytes)
        }
    }

    /// The bytes of the fingerprint.
    pub fn as_slice(&self) -> (bytes: &[u8])
        ensures
            bytes@ == self@,
            bytes@.len() <= T::MAX_BYTES_IN_HASH,
    {
        proof {
            use_type_invariant(self);
        }
        self.bytes.as_slice()
    }

    /// The number of bytes, never above the configured bound.
    pub fn len(&self) -> (n: usize)
        ensures
            n == self@.len(),
            n <= T::MAX_BYTES_IN_HASH,
    {
        proof {
            use_type_invariant(self);
        }
        self.bytes.len()
    }
}

impl<T: Config> Clone for Fingerprint<T> {
    fn clone(&self) -> (copy: Self)
        ensures
            copy@ == self@,
    {
        proof {
            use_type_invariant(self);
        }
        Fingerprint { bytes: bytes_clone(self.bytes.as_slice()), config: PhantomData }
    }
}

impl<T: Config> PartialEq for Fingerprint<T> {
    fn eq(&self, other: &Self) -> (same: bool) {
        bytes_eq(self.bytes.as_slice(), other.bytes.as_slice())
    }
}

impl<T: Config> vstd::std_specs::cmp::PartialEqSpecImpl for Fingerprint<T> {
    open spec fn obeys_eq_spec() -> bool {
        true
    }

    open spec fn eq_spec(&self, other: &Self) -> bool {
        self@ == other@
    }
}

impl<T: Config> Eq for Fingerprint<T> {}

} // verus!
