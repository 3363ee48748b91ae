//! Store-wide laws. Each transition's own contract pins its effect; these
//! proof functions state what the well-formedness invariant guarantees of
//! every reachable store as a whole.

use vstd::prelude::*;

use crate::vault::EvidenceVault;
use crate::vault::has_evidence_key;

verus! {

/// Law: in a well-formed store, the ordinals claimed under a case's id below
/// its `evidence_count` are exactly `{0, ..., evidence_count - 1}` — every
/// such ordinal is claimed by an evidence record carrying that case id (no
/// gaps), and no two evidence records claim the same ordinal under one case
/// id (no repeats).
pub proof fn lemma_evidence_ordinals_exact(v: EvidenceVault, i: int)
    requires
        v.wf(),
        0 <= i < v.cases@.len(),
    ensures
        forall|k: u32|
            k < v.cases@[i].evidence_count ==> #[trigger] v.evidence_key_taken(
                v.cases@[i].case_id@,
                k,
            ),
        forall|j1: int, j2: int| #![trigger v.evidence@[j1], v.evidence@[j2]]
            0 <= j1 < v.evidence@.len() && 0 <= j2 < v.evidence@.len() && j1 != j2 ==> !(
            v.evidence@[j1].case_id@ == v.evidence@[j2].case_id@ && v.evidence@[j1].evidence_id
                == v.evidence@[j2].evidence_id),
{
}

/// Law: in a well-formed store, at most one evidence record lives at any
/// derived address — the record a lookup returns is the record that was
/// created there.
pub proof fn lemma_evidence_address_unique(v: EvidenceVault, case_id: Seq<u8>, ordinal: u32, j1: int, j2: int)
    requires
        v.wf(),
        0 <= j1 < v.evidence@.len(),
        0 <= j2 < v.evidence@.len(),
        has_evidence_key(v.evidence@[j1], case_id, ordinal),
        has_evidence_key(v.evidence@[j2], case_id, ordinal),
    ensures
        j1 == j2,
{
}

/// Law: in a well-formed store, at most one case lives at any derived
/// address `(case_id, owner)`.
pub proof fn lemma_case_address_unique(v: EvidenceVault, case_id: Seq<u8>, owner: Seq<u8>, i1: int, i2: int)
    requires
        v.wf(),
        0 <= i1 < v.cases@.len(),
        0 <= i2 < v.cases@.len(),
        v.cases@[i1].case_id@ == case_id && v.cases@[i1].investigator@ == owner,
        v.cases@[i2].case_id@ == case_id && v.cases@[i2].investigator@ == owner,
    ensures
        i1 == i2,
{
}

} // verus!
