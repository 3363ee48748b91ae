//! The two record kinds of the store — `Case` and `Evidence` — together with
//! the identity type and the per-field byte budgets that every record must
//! respect.

use vstd::prelude::*;

verus! {

/// Maximum serialized length of a case id, in bytes.
pub const MAX_CASE_ID_LEN: usize = 32;

/// Maximum serialized length of a case title, in bytes.
pub const MAX_TITLE_LEN: usize = 64;

/// Maximum serialized length of a description, in bytes (both record kinds).
pub const MAX_DESCRIPTION_LEN: usize = 256;

/// Maximum serialized length of an evidence metadata locator, in bytes.
pub const MAX_URI_LEN: usize = 128;

/// A caller identity, as handed over by the host's signer verification: a
/// 32-byte public key. The core trusts the claim and never re-verifies
/// signatures.
#[derive(Clone, Copy, Debug, PartialEq, Eq)]
pub struct Identity {
    pub bytes: [u8; 32],
}

impl View for Identity {
    type V = Seq<u8>;

    open spec fn view(&self) -> Seq<u8> {
        self.bytes@
    }
}

/// Lifecycle state of a case. Every case starts `Open`; `Archived` is a
/// reserved status value that no transition currently assigns.
#[derive(Clone, Copy, Debug, PartialEq, Eq, Structural)]
pub enum CaseStatus {
    Open,
    Closed,
    Archived,
}

/// Classification of an evidence submission.
#[derive(Clone, Copy, Debug, PartialEq, Eq, Structural)]
pub enum EvidenceType {
    TransactionTrace,
    WalletCluster,
    ThreatAlert,
    Report,
    External,
}

/// The durable state of one investigation. A case is addressed by the pair
/// `(case_id, investigator)`, which must be unique across the store.
#[derive(Debug)]
pub struct Case {
    /// Identity of the creating investigator; set once, immutable.
    pub investigator: Identity,
    /// Caller-chosen key, immutable after creation; at most 32 bytes.
    pub case_id: Vec<u8>,
    /// Mutable metadata, set at creation; at most 64 bytes.
    pub title: Vec<u8>,
    /// Mutable metadata, set at creation; at most 256 bytes.
    pub description: Vec<u8>,
    /// Lifecycle state; starts `Open`.
    pub status: CaseStatus,
    /// Number of evidence records ever created under this case; never
    /// decreases, and doubles as the ordinal of the next evidence record.
    pub evidence_count: u32,
    /// Final report digest; unset until the case is closed.
    pub report_hash: Option<[u8; 32]>,
    /// Host clock value at creation.
    pub created_at: i64,
    /// Host clock value of the latest mutating transition.
    pub updated_at: i64,
}

impl Case {
    /// Field budgets hold, and the report digest is absent while the case is
    /// still open.
    pub open spec fn valid(self) -> bool {
        &&& self.case_id@.len() <= MAX_CASE_ID_LEN
        &&& self.title@.len() <= MAX_TITLE_LEN
        &&& self.description@.len() <= MAX_DESCRIPTION_LEN
        &&& self.status is Open ==> self.report_hash is None
    }
}

/// One immutable submission attached to a case; never mutated or deleted
/// after creation. An evidence record is addressed by the pair
/// `(case_id, evidence_id)`, which must be unique across the store.
#[derive(Debug)]
pub struct Evidence {
    /// Back-reference to the parent case — a lookup key for auditing, not an
    /// ownership relation.
    pub case_id: Vec<u8>,
    /// The parent case's `evidence_count` at creation time; sequential within
    /// a case.
    pub evidence_id: u32,
    /// Classification of the submission.
    pub evidence_type: EvidenceType,
    /// 32-byte content digest of the payload (the payload itself is stored
    /// off-system).
    pub data_hash: [u8; 32],
    /// Locator for the off-system payload; at most 128 bytes.
    pub metadata_uri: Vec<u8>,
    /// Free-form description; at most 256 bytes.
    pub description: Vec<u8>,
    /// Identity that created the record.
    pub submitter: Identity,
    /// Host clock value at creation.
    pub timestamp: i64,
}

impl Evidence {
    /// Field budgets hold.
    pub open spec fn valid(self) -> bool {
        &&& self.case_id@.len() <= MAX_CASE_ID_LEN
        &&& self.metadata_uri@.len() <= MAX_URI_LEN
        &&& self.description@.len() <= MAX_DESCRIPTION_LEN
    }
}

/// Byte-wise equality of two byte strings.
pub fn bytes_eq(a: &Vec<u8>, b: &Vec<u8>) -> (r: bool)
    ensures
        r <==> a@ == b@,
{
    if a.len() != b.len() {
        return false;
    }
    let mut i: usize = 0;
    while i < a.len()
        invariant
            i <= a.len(),
            a.len() == b.len(),
            forall|k: int| 0 <= k < i ==> a@[k] == b@[k],
        decreases a.len() - i,
    {
        if a[i] != b[i] {
            return false;
        }
        i += 1;
    }
    proof {
        assert(a@ =~= b@);
    }
    true
}

/// Byte-wise equality of two 32-byte digests or keys.
pub fn bytes32_eq(a: &[u8; 32], b: &[u8; 32]) -> (r: bool)
    ensures
        r <==> a@ == b@,
{
    let mut i: usize = 0;
    while i < 32
        invariant
            i <= 32,
            forall|k: int| 0 <= k < i ==> a@[k] == b@[k],
        decreases 32 - i,
    {
        if a[i] != b[i] {
            return false;
        }
        i += 1;
    }
    proof {
        assert(a@ =~= b@);
    }
    true
}

/// Equality of two caller identities, byte for byte.
pub fn identity_eq(a: &Identity, b: &Identity) -> (r: bool)
    ensures
        r <==> a@ == b@,
{
    bytes32_eq(&a.bytes, &b.bytes)
}

/// A fresh byte string with the same contents.
pub fn copy_bytes(v: &Vec<u8>) -> (r: Vec<u8>)
    ensures
        r@ == v@,
{
    let mut r: Vec<u8> = Vec::new();
    let mut i: usize = 0;
    while i < v.len()
        invariant
            i <= v.len(),
            r@ =~= v@.subrange(0, i as int),
        decreases v.len() - i,
    {
        r.push(v[i]);
        i += 1;
    }
    proof {
        assert(r@ =~= v@);
    }
    r
}

} // verus!
