//! The record store and its four transitions.
//!
//! The host ledger's "no two records at one derived address" rule is kept
//! here as an explicit keyed lookup: a case is addressed by the pair
//! `(case_id, investigator)`, an evidence record by the pair
//! `(case_id, ordinal)`, and a record is only ever created at an address
//! that no record holds yet. Each transition validates every precondition
//! before touching any state, so a rejection leaves the store exactly as it
//! was.

use vstd::prelude::*;

use crate::digest::digest_of;
use crate::digest::sha256_digest;
use crate::errors::ForensicError;
use crate::errors::TransitionError;
use crate::events::CaseClosed;
use crate::events::CaseCreated;
use crate::events::FindingRecorded;
use crate::events::is_case_closed;
use crate::events::is_finding_recorded;
use crate::events::EvidenceAdded;
use crate::events::Notification;
use crate::events::is_case_created;
use crate::events::is_evidence_added;
use crate::records::EvidenceType;
use crate::records::Case;
use crate::records::CaseStatus;
use crate::records::Evidence;
use crate::records::Identity;
use crate::records::MAX_CASE_ID_LEN;
use crate::records::MAX_DESCRIPTION_LEN;
use crate::records::MAX_TITLE_LEN;
use crate::records::MAX_URI_LEN;
use crate::records::bytes_eq;
use crate::records::copy_bytes;
use crate::records::identity_eq;

verus! {

/// `c` is the case stored at the derived address `(case_id, owner)`.
pub open spec fn has_case_key(c: Case, case_id: Seq<u8>, owner: Seq<u8>) -> bool {
    c.case_id@ == case_id && c.investigator@ == owner
}

/// `e` is the evidence record stored at the derived address
/// `(case_id, ordinal)`.
pub open spec fn has_evidence_key(e: Evidence, case_id: Seq<u8>, ordinal: u32) -> bool {
    e.case_id@ == case_id && e.evidence_id == ordinal
}

/// Some case in `cases` holds the address `(case_id, owner)`.
pub open spec fn case_key_taken_in(cases: Seq<Case>, case_id: Seq<u8>, owner: Seq<u8>) -> bool {
    exists|i: int| 0 <= i < cases.len() && has_case_key(#[trigger] cases[i], case_id, owner)
}

/// Some evidence record in `ev` holds the address `(case_id, ordinal)`.
pub open spec fn evidence_key_taken_in(ev: Seq<Evidence>, case_id: Seq<u8>, ordinal: u32) -> bool {
    exists|j: int| 0 <= j < ev.len() && has_evidence_key(#[trigger] ev[j], case_id, ordinal)
}

/// No two cases share a derived address.
pub open spec fn case_keys_unique(cases: Seq<Case>) -> bool {
    forall|i: int, j: int| #![trigger cases[i], cases[j]]
        0 <= i < cases.len() && 0 <= j < cases.len() && i != j ==> !(cases[i].case_id@
            == cases[j].case_id@ && cases[i].investigator@ == cases[j].investigator@)
}

/// No two evidence records share a derived address.
pub open spec fn evidence_keys_unique(ev: Seq<Evidence>) -> bool {
    forall|i: int, j: int| #![trigger ev[i], ev[j]]
        0 <= i < ev.len() && 0 <= j < ev.len() && i != j ==> !(ev[i].case_id@ == ev[j].case_id@
            && ev[i].evidence_id == ev[j].evidence_id)
}

/// Every case respects its field budgets and report-digest rule.
pub open spec fn cases_all_valid(cases: Seq<Case>) -> bool {
    forall|i: int| 0 <= i < cases.len() ==> (#[trigger] cases[i]).valid()
}

/// Every evidence record respects its field budgets.
pub open spec fn evidence_all_valid(ev: Seq<Evidence>) -> bool {
    forall|j: int| 0 <= j < ev.len() ==> (#[trigger] ev[j]).valid()
}

/// No gaps: every ordinal below a case's `evidence_count` is claimed by an
/// evidence record carrying that case id.
pub open spec fn ordinals_complete(cases: Seq<Case>, ev: Seq<Evidence>) -> bool {
    forall|i: int, k: u32|
        0 <= i < cases.len() && k < cases[i].evidence_count ==> #[trigger] evidence_key_taken_in(
            ev,
            cases[i].case_id@,
            k,
        )
}

/// `ev[j]`'s ordinal lies below the evidence count of some case with its
/// case id.
pub open spec fn ordinal_covered(cases: Seq<Case>, ev: Seq<Evidence>, j: int) -> bool {
    exists|i: int|
        0 <= i < cases.len() && (#[trigger] cases[i]).case_id@ == ev[j].case_id@
            && ev[j].evidence_id < cases[i].evidence_count
}

/// No strays: every evidence record's ordinal was claimed from the counter
/// of some case with its case id.
pub open spec fn ordinals_covered(cases: Seq<Case>, ev: Seq<Evidence>) -> bool {
    forall|j: int| 0 <= j < ev.len() ==> #[trigger] ordinal_covered(cases, ev, j)
}

/// What a case-creation request names: the signing creator. The new case's
/// address is derived from the supplied case id and this identity.
#[derive(Debug)]
pub struct CreateCase {
    /// The signing creator; becomes the case's owner.
    pub investigator: Identity,
}

/// What an evidence-attachment request names: the addressed case and the
/// signing submitter.
#[derive(Debug)]
pub struct AddEvidence {
    /// Case id half of the target case's address.
    pub case_id: Vec<u8>,
    /// Owner half of the target case's address.
    pub case_investigator: Identity,
    /// The signing submitter; any identity may submit.
    pub submitter: Identity,
}

/// What a case-closure request names: the addressed case and the signing
/// closer.
#[derive(Debug)]
pub struct CloseCase {
    /// Case id half of the target case's address.
    pub case_id: Vec<u8>,
    /// Owner half of the target case's address.
    pub case_investigator: Identity,
    /// The signing closer; must match the case's owner.
    pub investigator: Identity,
}

/// What a finding-recording request names: the addressed case and the
/// signing recorder.
#[derive(Debug)]
pub struct AddFinding {
    /// Case id half of the target case's address.
    pub case_id: Vec<u8>,
    /// Owner half of the target case's address.
    pub case_investigator: Identity,
    /// The signing recorder; any identity may record.
    pub recorder: Identity,
}

/// The append-mostly record store: case records, evidence records, and the
/// append-only notification log.
pub struct EvidenceVault {
    pub cases: Vec<Case>,
    pub evidence: Vec<Evidence>,
    pub log: Vec<Notification>,
}

impl EvidenceVault {
    /// Some stored case holds the address `(case_id, owner)`.
    pub open spec fn case_key_taken(self, case_id: Seq<u8>, owner: Seq<u8>) -> bool {
        case_key_taken_in(self.cases@, case_id, owner)
    }

    /// Some stored evidence record holds the address `(case_id, ordinal)`.
    pub open spec fn evidence_key_taken(self, case_id: Seq<u8>, ordinal: u32) -> bool {
        evidence_key_taken_in(self.evidence@, case_id, ordinal)
    }

    /// The index of the case stored at `(case_id, owner)`; meaningful only
    /// when that address is taken.
    pub open spec fn case_index_of(self, case_id: Seq<u8>, owner: Seq<u8>) -> int {
        choose|i: int| 0 <= i < self.cases@.len() && has_case_key(#[trigger] self.cases@[i], case_id, owner)
    }

    /// Well-formedness: derived addresses are unique, every record respects
    /// its budgets, and each case's `evidence_count` counts exactly the
    /// ordinals claimed under its case id — no gaps, no repeats, no strays.
    pub open spec fn wf(self) -> bool {
        &&& case_keys_unique(self.cases@)
        &&& evidence_keys_unique(self.evidence@)
        &&& cases_all_valid(self.cases@)
        &&& evidence_all_valid(self.evidence@)
        &&& ordinals_complete(self.cases@, self.evidence@)
        &&& ordinals_covered(self.cases@, self.evidence@)
    }

    /// An empty store: no records, an empty log.
    pub fn new() -> (v: EvidenceVault)
        ensures
            v.wf(),
            v.cases@.len() == 0,
            v.evidence@.len() == 0,
            v.log@.len() == 0,
    {
        EvidenceVault { cases: Vec::new(), evidence: Vec::new(), log: Vec::new() }
    }

    /// Open a new investigation case at the address derived from the supplied
    /// case id and the creator's identity. The new record starts `Open`, with
    /// no evidence and no report digest, and both timestamps set to `now`;
    /// one `CaseCreated` notice is appended to the log. Creation fails — and
    /// the store stays exactly as it was — when a field exceeds its byte
    /// budget or when the address is already occupied.
    pub fn create_case(
        &mut self,
        ctx: CreateCase,
        case_id: Vec<u8>,
        title: Vec<u8>,
        description: Vec<u8>,
        now: i64,
    ) -> (r: Result<(), TransitionError>)
        requires
            old(self).wf(),
        ensures
            final(self).wf(),
            r == (if case_id@.len() > MAX_CASE_ID_LEN || title@.len() > MAX_TITLE_LEN
                || description@.len() > MAX_DESCRIPTION_LEN {
                Err::<(), TransitionError>(TransitionError::OverLength)
            } else if old(self).case_key_taken(case_id@, ctx.investigator@) {
                Err::<(), TransitionError>(TransitionError::RecordExists)
            } else {
                Ok::<(), TransitionError>(())
            }),
            r is Err ==> *final(self) == *old(self),
            r is Ok ==> {
                &&& final(self).cases@.len() == old(self).cases@.len() + 1
                &&& forall|i: int|
                    0 <= i < old(self).cases@.len() ==> final(self).cases@[i] == old(
                        self,
                    ).cases@[i]
                &&& final(self).cases@.last().investigator@ == ctx.investigator@
                &&& final(self).cases@.last().case_id@ == case_id@
                &&& final(self).cases@.last().title@ == title@
                &&& final(self).cases@.last().description@ == description@
                &&& final(self).cases@.last().status is Open
                &&& final(self).cases@.last().evidence_count == 0
                &&& final(self).cases@.last().report_hash is None
                &&& final(self).cases@.last().created_at == now
                &&& final(self).cases@.last().updated_at == now
                &&& final(self).evidence == old(self).evidence
                &&& final(self).log@.len() == old(self).log@.len() + 1
                &&& forall|i: int|
                    0 <= i < old(self).log@.len() ==> final(self).log@[i] == old(self).log@[i]
                &&& is_case_created(final(self).log@.last(), case_id@, ctx.investigator@, now)
            },
    {
        if case_id.len() > MAX_CASE_ID_LEN || title.len() > MAX_TITLE_LEN || description.len()
            > MAX_DESCRIPTION_LEN {
            return Err(TransitionError::OverLength);
        }
        match self.find_case(&case_id, &ctx.investigator) {
            Some(hit) => {
                proof {
                    assert(has_case_key(self.cases@[hit as int], case_id@, ctx.investigator@));
                }
                return Err(TransitionError::RecordExists);
            },
            None => {},
        }
        let c = Case {
            investigator: ctx.investigator,
            case_id: copy_bytes(&case_id),
            title,
            description,
            status: CaseStatus::Open,
            evidence_count: 0,
            report_hash: None,
            created_at: now,
            updated_at: now,
        };
        self.cases.push(c);
        self.log.push(
            Notification::CaseCreated(
                CaseCreated { case_id, investigator: ctx.investigator, timestamp: now },
            ),
        );
        proof {
            let oldc = old(self).cases@;
            let newc = self.cases@;
            let ev = self.evidence@;
            assert forall|i: int, j: int| #![trigger newc[i], newc[j]]
                0 <= i < newc.len() && 0 <= j < newc.len() && i != j implies !(newc[i].case_id@
                == newc[j].case_id@ && newc[i].investigator@ == newc[j].investigator@) by {
                if j == oldc.len() && newc[i].case_id@ == newc[j].case_id@ && newc[i].investigator@
                    == newc[j].investigator@ {
                    assert(has_case_key(oldc[i], case_id@, ctx.investigator@));
                    assert(old(self).case_key_taken(case_id@, ctx.investigator@));
                } else if i == oldc.len() && newc[i].case_id@ == newc[j].case_id@
                    && newc[i].investigator@ == newc[j].investigator@ {
                    assert(has_case_key(oldc[j], case_id@, ctx.investigator@));
                    assert(old(self).case_key_taken(case_id@, ctx.investigator@));
                }
            }
            assert forall|i: int| 0 <= i < newc.len() implies (#[trigger] newc[i]).valid() by {
                if i < oldc.len() {
                    assert(oldc[i].valid());
                }
            }
            assert forall|i: int, k: u32|
                0 <= i < newc.len() && k < newc[i].evidence_count implies #[trigger] evidence_key_taken_in(
                ev,
                newc[i].case_id@,
                k,
            ) by {
                if i < oldc.len() {
                    assert(evidence_key_taken_in(ev, oldc[i].case_id@, k));
                }
            }
            assert forall|j: int| 0 <= j < ev.len() implies #[trigger] ordinal_covered(
                newc,
                ev,
                j,
            ) by {
                assert(ordinal_covered(oldc, ev, j));
                let i = choose|i: int|
                    0 <= i < oldc.len() && (#[trigger] oldc[i]).case_id@ == ev[j].case_id@
                        && ev[j].evidence_id < oldc[i].evidence_count;
                assert(newc[i] == oldc[i]);
            }
        }
        Ok(())
    }

    /// Attach one immutable evidence record to the addressed case. Any
    /// identity may submit; the case must be `Open`. The new record is
    /// created at the address derived from the case id and the case's
    /// current `evidence_count`, which becomes its ordinal; the counter is
    /// then incremented and the case's `updated_at` refreshed, atomically
    /// with the record creation. One `EvidenceAdded` notice is appended to
    /// the log. A rejected attachment leaves the store exactly as it was.
    pub fn add_evidence(
        &mut self,
        ctx: AddEvidence,
        evidence_type: EvidenceType,
        data_hash: [u8; 32],
        metadata_uri: Vec<u8>,
        description: Vec<u8>,
        now: i64,
    ) -> (r: Result<(), TransitionError>)
        requires
            old(self).wf(),
        ensures
            final(self).wf(),
            r is Err ==> *final(self) == *old(self),
            r == ({
                let i = old(self).case_index_of(ctx.case_id@, ctx.case_investigator@);
                let c = old(self).cases@[i];
                if metadata_uri@.len() > MAX_URI_LEN || description@.len() > MAX_DESCRIPTION_LEN {
                    Err::<(), TransitionError>(TransitionError::OverLength)
                } else if !old(self).case_key_taken(ctx.case_id@, ctx.case_investigator@) {
                    Err::<(), TransitionError>(TransitionError::RecordMissing)
                } else if !(c.status is Open) {
                    Err::<(), TransitionError>(TransitionError::Rule(ForensicError::CaseClosed))
                } else if old(self).evidence_key_taken(ctx.case_id@, c.evidence_count) {
                    Err::<(), TransitionError>(TransitionError::RecordExists)
                } else if c.evidence_count == u32::MAX {
                    Err::<(), TransitionError>(TransitionError::CounterOverflow)
                } else {
                    Ok::<(), TransitionError>(())
                }
            }),
            r is Ok ==> ({
                let i = old(self).case_index_of(ctx.case_id@, ctx.case_investigator@);
                let c = old(self).cases@[i];
                &&& 0 <= i < old(self).cases@.len()
                &&& final(self).cases@.len() == old(self).cases@.len()
                &&& forall|k: int|
                    0 <= k < old(self).cases@.len() && k != i ==> final(self).cases@[k] == old(
                        self,
                    ).cases@[k]
                &&& final(self).cases@[i].investigator == c.investigator
                &&& final(self).cases@[i].case_id == c.case_id
                &&& final(self).cases@[i].title == c.title
                &&& final(self).cases@[i].description == c.description
                &&& final(self).cases@[i].status == c.status
                &&& final(self).cases@[i].evidence_count == c.evidence_count + 1
                &&& final(self).cases@[i].report_hash == c.report_hash
                &&& final(self).cases@[i].created_at == c.created_at
                &&& final(self).cases@[i].updated_at == now
                &&& final(self).evidence@.len() == old(self).evidence@.len() + 1
                &&& forall|k: int|
                    0 <= k < old(self).evidence@.len() ==> final(self).evidence@[k] == old(
                        self,
                    ).evidence@[k]
                &&& final(self).evidence@.last().case_id@ == ctx.case_id@
                &&& final(self).evidence@.last().evidence_id == c.evidence_count
                &&& final(self).evidence@.last().evidence_type == evidence_type
                &&& final(self).evidence@.last().data_hash == data_hash
                &&& final(self).evidence@.last().metadata_uri@ == metadata_uri@
                &&& final(self).evidence@.last().description@ == description@
                &&& final(self).evidence@.last().submitter@ == ctx.submitter@
                &&& final(self).evidence@.last().timestamp == now
                &&& final(self).log@.len() == old(self).log@.len() + 1
                &&& forall|k: int|
                    0 <= k < old(self).log@.len() ==> final(self).log@[k] == old(self).log@[k]
                &&& is_evidence_added(
                    final(self).log@.last(),
                    ctx.case_id@,
                    c.evidence_count,
                    evidence_type,
                    ctx.submitter@,
                    now,
                )
            }),
    {
        if metadata_uri.len() > MAX_URI_LEN || description.len() > MAX_DESCRIPTION_LEN {
            return Err(TransitionError::OverLength);
        }
        let idx = match self.find_case(&ctx.case_id, &ctx.case_investigator) {
            None => { return Err(TransitionError::RecordMissing); },
            Some(i) => i,
        };
        proof {
            assert(has_case_key(self.cases@[idx as int], ctx.case_id@, ctx.case_investigator@));
            assert(self.case_key_taken(ctx.case_id@, ctx.case_investigator@));
            let i0 = self.case_index_of(ctx.case_id@, ctx.case_investigator@);
            assert(has_case_key(self.cases@[i0], ctx.case_id@, ctx.case_investigator@));
            assert(i0 == idx as int);
        }
        if self.cases[idx].status != CaseStatus::Open {
            return Err(TransitionError::Rule(ForensicError::CaseClosed));
        }
        let count = self.cases[idx].evidence_count;
        match self.find_evidence(&ctx.case_id, count) {
            Some(hit) => {
                proof {
                    assert(has_evidence_key(self.evidence@[hit as int], ctx.case_id@, count));
                }
                return Err(TransitionError::RecordExists);
            },
            None => {},
        }
        if count == u32::MAX {
            return Err(TransitionError::CounterOverflow);
        }
        let e = Evidence {
            case_id: copy_bytes(&ctx.case_id),
            evidence_id: count,
            evidence_type,
            data_hash,
            metadata_uri,
            description,
            submitter: ctx.submitter,
            timestamp: now,
        };
        self.evidence.push(e);
        let case_ref = &mut self.cases[idx];
        case_ref.evidence_count = count + 1;
        case_ref.updated_at = now;
        self.log.push(
            Notification::EvidenceAdded(
                EvidenceAdded {
                    case_id: ctx.case_id,
                    evidence_id: count,
                    evidence_type,
                    submitter: ctx.submitter,
                    timestamp: now,
                },
            ),
        );
        proof {
            let oldc = old(self).cases@;
            let newc = self.cases@;
            let oldev = old(self).evidence@;
            let newev = self.evidence@;
            let cid = ctx.case_id@;
            let ii = idx as int;
            assert(newc =~= oldc.update(ii, newc[ii]));
            assert forall|a: int, b: int| #![trigger newc[a], newc[b]]
                0 <= a < newc.len() && 0 <= b < newc.len() && a != b implies !(newc[a].case_id@
                == newc[b].case_id@ && newc[a].investigator@ == newc[b].investigator@) by {
                assert(newc[a].case_id@ == oldc[a].case_id@ && newc[a].investigator@
                    == oldc[a].investigator@);
                assert(newc[b].case_id@ == oldc[b].case_id@ && newc[b].investigator@
                    == oldc[b].investigator@);
            }
            assert forall|a: int, b: int| #![trigger newev[a], newev[b]]
                0 <= a < newev.len() && 0 <= b < newev.len() && a != b implies !(newev[a].case_id@
                == newev[b].case_id@ && newev[a].evidence_id == newev[b].evidence_id) by {
                if b == oldev.len() && newev[a].case_id@ == newev[b].case_id@
                    && newev[a].evidence_id == newev[b].evidence_id {
                    assert(has_evidence_key(oldev[a], cid, count));
                    assert(evidence_key_taken_in(oldev, cid, count));
                } else if a == oldev.len() && newev[a].case_id@ == newev[b].case_id@
                    && newev[a].evidence_id == newev[b].evidence_id {
                    assert(has_evidence_key(oldev[b], cid, count));
                    assert(evidence_key_taken_in(oldev, cid, count));
                }
            }
            assert forall|a: int| 0 <= a < newc.len() implies (#[trigger] newc[a]).valid() by {
                assert(oldc[a].valid());
            }
            assert forall|b: int| 0 <= b < newev.len() implies (#[trigger] newev[b]).valid() by {
                if b < oldev.len() {
                    assert(oldev[b].valid());
                } else {
                    assert(oldc[ii].valid());
                }
            }
            assert forall|a: int, k: u32|
                0 <= a < newc.len() && k < newc[a].evidence_count implies #[trigger] evidence_key_taken_in(
                newev,
                newc[a].case_id@,
                k,
            ) by {
                if a == ii && k == count {
                    assert(has_evidence_key(newev[oldev.len() as int], cid, count));
                } else {
                    assert(k < oldc[a].evidence_count);
                    assert(evidence_key_taken_in(oldev, oldc[a].case_id@, k));
                    let j = choose|j: int|
                        0 <= j < oldev.len() && has_evidence_key(#[trigger] oldev[j], oldc[a].case_id@, k);
                    assert(newev[j] == oldev[j]);
                    assert(has_evidence_key(newev[j], newc[a].case_id@, k));
                }
            }
            assert forall|b: int| 0 <= b < newev.len() implies #[trigger] ordinal_covered(
                newc,
                newev,
                b,
            ) by {
                if b < oldev.len() {
                    assert(ordinal_covered(oldc, oldev, b));
                    let a = choose|a: int|
                        0 <= a < oldc.len() && (#[trigger] oldc[a]).case_id@ == oldev[b].case_id@
                            && oldev[b].evidence_id < oldc[a].evidence_count;
                    assert(newc[a].case_id@ == oldc[a].case_id@);
                    assert(oldc[a].evidence_count <= newc[a].evidence_count);
                    assert(newev[b] == oldev[b]);
                } else {
                    assert(newc[ii].case_id@ == newev[b].case_id@);
                    assert(newev[b].evidence_id < newc[ii].evidence_count);
                }
            }
        }
        Ok(())
    }

    /// Close the addressed case and record its final report digest. Closure
    /// is owner-only regardless of the case's current status, and a repeated
    /// closure by the owner is permitted: it overwrites the report digest
    /// and refreshes `updated_at` again. On success the case's status
    /// becomes `Closed` and one `CaseClosed` notice is appended to the log.
    /// A rejected closure leaves the store exactly as it was.
    pub fn close_case(
        &mut self,
        ctx: CloseCase,
        report_hash: [u8; 32],
        now: i64,
    ) -> (r: Result<(), TransitionError>)
        requires
            old(self).wf(),
        ensures
            final(self).wf(),
            r is Err ==> *final(self) == *old(self),
            r == ({
                let i = old(self).case_index_of(ctx.case_id@, ctx.case_investigator@);
                let c = old(self).cases@[i];
                if !old(self).case_key_taken(ctx.case_id@, ctx.case_investigator@) {
                    Err::<(), TransitionError>(TransitionError::RecordMissing)
                } else if ctx.investigator@ != c.investigator@ {
                    Err::<(), TransitionError>(TransitionError::Rule(ForensicError::Unauthorized))
                } else {
                    Ok::<(), TransitionError>(())
                }
            }),
            r is Ok ==> ({
                let i = old(self).case_index_of(ctx.case_id@, ctx.case_investigator@);
                let c = old(self).cases@[i];
                &&& 0 <= i < old(self).cases@.len()
                &&& final(self).cases@.len() == old(self).cases@.len()
                &&& forall|k: int|
                    0 <= k < old(self).cases@.len() && k != i ==> final(self).cases@[k] == old(
                        self,
                    ).cases@[k]
                &&& final(self).cases@[i].investigator == c.investigator
                &&& final(self).cases@[i].case_id == c.case_id
                &&& final(self).cases@[i].title == c.title
                &&& final(self).cases@[i].description == c.description
                &&& final(self).cases@[i].status is Closed
                &&& final(self).cases@[i].evidence_count == c.evidence_count
                &&& final(self).cases@[i].report_hash == Some(report_hash)
                &&& final(self).cases@[i].created_at == c.created_at
                &&& final(self).cases@[i].updated_at == now
                &&& final(self).evidence == old(self).evidence
                &&& final(self).log@.len() == old(self).log@.len() + 1
                &&& forall|k: int|
                    0 <= k < old(self).log@.len() ==> final(self).log@[k] == old(self).log@[k]
                &&& is_case_closed(final(self).log@.last(), ctx.case_id@, report_hash@, now)
            }),
    {
        let idx = match self.find_case(&ctx.case_id, &ctx.case_investigator) {
            None => { return Err(TransitionError::RecordMissing); },
            Some(i) => i,
        };
        proof {
            assert(has_case_key(self.cases@[idx as int], ctx.case_id@, ctx.case_investigator@));
            assert(self.case_key_taken(ctx.case_id@, ctx.case_investigator@));
            let i0 = self.case_index_of(ctx.case_id@, ctx.case_investigator@);
            assert(has_case_key(self.cases@[i0], ctx.case_id@, ctx.case_investigator@));
            assert(i0 == idx as int);
        }
        if !identity_eq(&ctx.investigator, &self.cases[idx].investigator) {
            return Err(TransitionError::Rule(ForensicError::Unauthorized));
        }
        let case_ref = &mut self.cases[idx];
        case_ref.status = CaseStatus::Closed;
        case_ref.report_hash = Some(report_hash);
        case_ref.updated_at = now;
        self.log.push(
            Notification::CaseClosed(
                CaseClosed { case_id: ctx.case_id, report_hash, timestamp: now },
            ),
        );
        proof {
            let oldc = old(self).cases@;
            let newc = self.cases@;
            let ev = self.evidence@;
            let ii = idx as int;
            assert forall|a: int, b: int| #![trigger newc[a], newc[b]]
                0 <= a < newc.len() && 0 <= b < newc.len() && a != b implies !(newc[a].case_id@
                == newc[b].case_id@ && newc[a].investigator@ == newc[b].investigator@) by {
                assert(newc[a].case_id@ == oldc[a].case_id@ && newc[a].investigator@
                    == oldc[a].investigator@);
                assert(newc[b].case_id@ == oldc[b].case_id@ && newc[b].investigator@
                    == oldc[b].investigator@);
            }
            assert forall|a: int| 0 <= a < newc.len() implies (#[trigger] newc[a]).valid() by {
                assert(oldc[a].valid());
            }
            assert forall|a: int, k: u32|
                0 <= a < newc.len() && k < newc[a].evidence_count implies #[trigger] evidence_key_taken_in(
                ev,
                newc[a].case_id@,
                k,
            ) by {
                assert(k < oldc[a].evidence_count);
                assert(evidence_key_taken_in(ev, oldc[a].case_id@, k));
                let j = choose|j: int|
                    0 <= j < ev.len() && has_evidence_key(#[trigger] ev[j], oldc[a].case_id@, k);
                assert(has_evidence_key(ev[j], newc[a].case_id@, k));
            }
            assert forall|b: int| 0 <= b < ev.len() implies #[trigger] ordinal_covered(
                newc,
                ev,
                b,
            ) by {
                assert(ordinal_covered(oldc, ev, b));
                let a = choose|a: int|
                    0 <= a < oldc.len() && (#[trigger] oldc[a]).case_id@ == ev[b].case_id@
                        && ev[b].evidence_id < oldc[a].evidence_count;
                assert(newc[a].case_id@ == oldc[a].case_id@);
                assert(newc[a].evidence_count == oldc[a].evidence_count);
            }
        }
        Ok(())
    }

    /// Record a finding against the addressed case without storing it: the
    /// finding text is hashed and only the digest leaves the handler, inside
    /// a `FindingRecorded` notice — a write-only commitment to having seen
    /// exactly this text. Any identity may record; the case must be `Open`.
    /// No record is created or mutated — in particular the case's
    /// `updated_at` is not refreshed — and a rejected recording leaves the
    /// log unchanged too.
    pub fn add_finding(
        &mut self,
        ctx: AddFinding,
        finding: Vec<u8>,
        now: i64,
    ) -> (r: Result<(), TransitionError>)
        requires
            old(self).wf(),
        ensures
            final(self).wf(),
            final(self).cases == old(self).cases,
            final(self).evidence == old(self).evidence,
            r is Err ==> *final(self) == *old(self),
            r == ({
                let i = old(self).case_index_of(ctx.case_id@, ctx.case_investigator@);
                let c = old(self).cases@[i];
                if !old(self).case_key_taken(ctx.case_id@, ctx.case_investigator@) {
                    Err::<(), TransitionError>(TransitionError::RecordMissing)
                } else if !(c.status is Open) {
                    Err::<(), TransitionError>(TransitionError::Rule(ForensicError::CaseClosed))
                } else {
                    Ok::<(), TransitionError>(())
                }
            }),
            r is Ok ==> ({
                &&& final(self).log@.len() == old(self).log@.len() + 1
                &&& forall|k: int|
                    0 <= k < old(self).log@.len() ==> final(self).log@[k] == old(self).log@[k]
                &&& is_finding_recorded(
                    final(self).log@.last(),
                    ctx.case_id@,
                    digest_of(finding@),
                    ctx.recorder@,
                    now,
                )
            }),
    {
        let idx = match self.find_case(&ctx.case_id, &ctx.case_investigator) {
            None => { return Err(TransitionError::RecordMissing); },
            Some(i) => i,
        };
        proof {
            assert(has_case_key(self.cases@[idx as int], ctx.case_id@, ctx.case_investigator@));
            assert(self.case_key_taken(ctx.case_id@, ctx.case_investigator@));
            let i0 = self.case_index_of(ctx.case_id@, ctx.case_investigator@);
            assert(has_case_key(self.cases@[i0], ctx.case_id@, ctx.case_investigator@));
            assert(i0 == idx as int);
        }
        if self.cases[idx].status != CaseStatus::Open {
            return Err(TransitionError::Rule(ForensicError::CaseClosed));
        }
        let finding_hash = sha256_digest(&finding);
        self.log.push(
            Notification::FindingRecorded(
                FindingRecorded {
                    case_id: ctx.case_id,
                    finding_hash,
                    recorder: ctx.recorder,
                    timestamp: now,
                },
            ),
        );
        Ok(())
    }

    /// Locate the case stored at the derived address `(case_id, owner)`.
    pub fn find_case(&self, case_id: &Vec<u8>, owner: &Identity) -> (r: Option<usize>)
        ensures
            match r {
                Some(i) => i < self.cases@.len() && has_case_key(
                    self.cases@[i as int],
                    case_id@,
                    owner@,
                ),
                None => !self.case_key_taken(case_id@, owner@),
            },
    {
        let mut i: usize = 0;
        while i < self.cases.len()
            invariant
                i <= self.cases@.len(),
                forall|k: int|
                    0 <= k < i ==> !has_case_key(#[trigger] self.cases@[k], case_id@, owner@),
            decreases self.cases@.len() - i,
        {
            if bytes_eq(&self.cases[i].case_id, case_id) && identity_eq(
                &self.cases[i].investigator,
                owner,
            ) {
                return Some(i);
            }
            i += 1;
        }
        None
    }

    /// Locate the evidence record stored at the derived address
    /// `(case_id, ordinal)`. Evidence outlives its case logically: this
    /// lookup works whatever the case's status.
    pub fn find_evidence(&self, case_id: &Vec<u8>, ordinal: u32) -> (r: Option<usize>)
        ensures
            match r {
                Some(j) => j < self.evidence@.len() && has_evidence_key(
                    self.evidence@[j as int],
                    case_id@,
                    ordinal,
                ),
                None => !self.evidence_key_taken(case_id@, ordinal),
            },
    {
        let mut j: usize = 0;
        while j < self.evidence.len()
            invariant
                j <= self.evidence@.len(),
                forall|k: int|
                    0 <= k < j ==> !has_evidence_key(#[trigger] self.evidence@[k], case_id@, ordinal),
            decreases self.evidence@.len() - j,
        {
            if bytes_eq(&self.evidence[j].case_id, case_id) && self.evidence[j].evidence_id
                == ordinal {
                return Some(j);
            }
            j += 1;
        }
        None
    }
}

} // verus!
