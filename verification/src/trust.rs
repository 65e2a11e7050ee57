//! Certificate pinning: a presented certificate is trusted exactly when its
//! bytes equal those of one certificate in a fixed set.
//!
//! Nothing else is looked at: no chain, no issuer, no expiry, no revocation
//! and no host name. Whoever relies on this must pin the server's address by
//! other means.

use vstd::prelude::*;
use vstd::string::*;

verus! {

/// The certificates that a client trusts, in the order in which they were
/// given. The set is fixed once it is built.
pub struct PinnedCertificates {
    certificates: Vec<Vec<u8>>,
}

impl View for PinnedCertificates {
    type V = Seq<Seq<u8>>;

    closed spec fn view(&self) -> Seq<Seq<u8>> {
        Seq::new(self.certificates@.len(), |i: int| self.certificates@[i]@)
    }
}

/// What the verifier says of a presented certificate.
#[derive(Debug, Clone, PartialEq, Eq)]
pub enum Verdict {
    /// The certificate is one of the pinned ones.
    Trusted,
    /// It is not; the text says so.
    Untrusted(String),
}

/// Whether `presented` is, byte for byte, one of `pinned`.
pub open spec fn is_pinned(presented: Seq<u8>, pinned: Seq<Seq<u8>>) -> bool {
    exists|i: int| 0 <= i < pinned.len() && #[trigger] pinned[i] == presented
}

/// Whether `index` is the place of the first of `pinned` that equals
/// `presented`.
pub open spec fn is_first_match(presented: Seq<u8>, pinned: Seq<Seq<u8>>, index: int) -> bool {
    &&& 0 <= index < pinned.len()
    &&& pinned[index] == presented
    &&& forall|i: int| 0 <= i < index ==> #[trigger] pinned[i] != presented
}

/// The reason given for every certificate that is not pinned.
pub open spec fn unknown_issuer() -> Seq<char> {
    "Unknown issuer"@
}

/// Whether the two byte strings are the same, byte for byte.
pub fn same_bytes(left: &[u8], right: &[u8]) -> (same: bool)
    ensures
        same == (left@ == right@),
{
    if left.len() != right.len() {
        return false;
    }
    let mut i: usize = 0;
    while i < left.len()
        invariant
            left@.len() == right@.len(),
            i <= left@.len(),
            forall|k: int| 0 <= k < i ==> left@[k] == right@[k],
        decreases left@.len() - i,
    {
        if left[i] != right[i] {
            return false;
        }
        i += 1;
    }
    assert(left@ =~= right@);
    true
}

impl PinnedCertificates {
    /// The set that holds the given certificates, in their order.
    pub fn new(certificates: Vec<Vec<u8>>) -> (pinned: PinnedCertificates)
        ensures
            pinned@.len() == certificates@.len(),
            forall|i: int| 0 <= i < certificates@.len() ==> pinned@[i] == certificates@[i]@,
    {
        PinnedCertificates { certificates }
    }

    /// How many certificates are pinned.
    pub fn len(&self) -> (count: usize)
        ensures
            count == self@.len(),
    {
        self.certificates.len()
    }

    /// The place of the first pinned certificate that equals `presented`,
    /// or `None` where none does.
    pub fn first_match(&self, presented: &[u8]) -> (found: Option<usize>)
        ensures
            match found {
                Some(index) => is_first_match(presented@, self@, index as int),
                None => !is_pinned(presented@, self@),
            },
    {
        let mut i: usize = 0;
        while i < self.certificates.len()
            invariant
                i <= self.certificates@.len(),
                self@.len() == self.certificates@.len(),
                forall|k: int| 0 <= k < i ==> #[trigger] self@[k] != presented@,
            decreases self.certificates@.len() - i,
        {
            if same_bytes(self.certificates[i].as_slice(), presented) {
                return Some(i);
            }
            i += 1;
        }
        None
    }
}

/// Decides whether a presented certificate is trusted: `Trusted` where it
/// equals a pinned certificate byte for byte, `Untrusted("Unknown issuer")`
/// where it equals none.
pub fn verify(presented: &[u8], pinned: &PinnedCertificates) -> (verdict: Verdict)
    ensures
        verdict is Trusted <==> is_pinned(presented@, pinned@),
        verdict matches Verdict::Untrusted(reason) ==> reason@ == unknown_issuer(),
{
    match pinned.first_match(presented) {
        Some(_) => Verdict::Trusted,
        None => Verdict::Untrusted(String::from_str("Unknown issuer")),
    }
}

/// A certificate that differs from a pinned one in a single byte is not
/// that certificate; where it differs so from every pinned certificate, it is
/// not pinned.
pub proof fn lemma_one_byte_off_is_not_pinned(presented: Seq<u8>, pinned: Seq<Seq<u8>>)
    requires
        forall|i: int|
            0 <= i < pinned.len() ==> exists|at: int|
                0 <= at < presented.len() && 0 <= at < (#[trigger] pinned[i]).len()
                    && pinned[i][at] != presented[at],
    ensures
        !is_pinned(presented, pinned),
{
    if is_pinned(presented, pinned) {
        let i = choose|i: int| 0 <= i < pinned.len() && #[trigger] pinned[i] == presented;
        let at = choose|at: int|
            0 <= at < presented.len() && 0 <= at < pinned[i].len() && pinned[i][at]
                != presented[at];
        assert(false);
    }
}

/// A pinned certificate is found wherever in the set it stands.
pub proof fn lemma_member_is_pinned(pinned: Seq<Seq<u8>>, index: int)
    requires
        0 <= index < pinned.len(),
    ensures
        is_pinned(pinned[index], pinned),
{
}

} // verus!
