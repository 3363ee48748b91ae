//! Ordinal assignment, address-collision semantics, field budgets, and the
//! hash-only commitment of findings.

use evidence_vault::AddEvidence;
use evidence_vault::AddFinding;
use evidence_vault::CaseStatus;
use evidence_vault::CreateCase;
use evidence_vault::EvidenceType;
use evidence_vault::EvidenceVault;
use evidence_vault::Identity;
use evidence_vault::Notification;
use evidence_vault::TransitionError;
use evidence_vault::bytes32_eq;
use evidence_vault::bytes_eq;
use evidence_vault::copy_bytes;
use evidence_vault::identity_eq;

fn id(b: u8) -> Identity {
    Identity { bytes: [b; 32] }
}

fn bs(s: &str) -> Vec<u8> {
    s.as_bytes().to_vec()
}

fn create(v: &mut EvidenceVault, owner: Identity, cid: &str, now: i64) {
    let r = v.create_case(
        CreateCase { investigator: owner },
        bs(cid),
        bs("title"),
        bs("description"),
        now,
    );
    assert!(r.is_ok());
}

fn attach(v: &mut EvidenceVault, owner: Identity, cid: &str, now: i64) -> Result<(), TransitionError> {
    v.add_evidence(
        AddEvidence { case_id: bs(cid), case_investigator: owner, submitter: id(9) },
        EvidenceType::External,
        [0xabu8; 32],
        bs("uri"),
        bs("d"),
        now,
    )
}

#[test]
fn three_attachments_assign_sequential_ordinals() {
    let mut v = EvidenceVault::new();
    let a = id(1);
    create(&mut v, a, "C", 1);
    assert!(attach(&mut v, a, "C", 2).is_ok());
    assert!(attach(&mut v, a, "C", 3).is_ok());
    assert!(attach(&mut v, a, "C", 4).is_ok());
    assert_eq!(v.cases[0].evidence_count, 3);
    assert_eq!(v.evidence.len(), 3);
    for k in 0u32..3 {
        let j = v.find_evidence(&bs("C"), k).expect("ordinal should be present");
        assert_eq!(v.evidence[j].evidence_id, k);
        assert_eq!(v.evidence[j].case_id, bs("C"));
    }
    assert!(v.find_evidence(&bs("C"), 3).is_none());
}

#[test]
fn duplicate_case_address_rejected() {
    let mut v = EvidenceVault::new();
    let a = id(1);
    create(&mut v, a, "C", 1);
    let r = v.create_case(CreateCase { investigator: a }, bs("C"), bs("t"), bs("d"), 2);
    assert_eq!(r, Err(TransitionError::RecordExists));
    assert_eq!(v.cases.len(), 1);
    assert_eq!(v.log.len(), 1);
}

#[test]
fn same_case_id_under_two_owners_is_two_addresses() {
    let mut v = EvidenceVault::new();
    let a = id(1);
    let b = id(2);
    create(&mut v, a, "C", 1);
    create(&mut v, b, "C", 2);
    assert_eq!(v.cases.len(), 2);
    assert!(v.find_case(&bs("C"), &a).is_some());
    assert!(v.find_case(&bs("C"), &b).is_some());
    // Evidence addresses are derived from the case id alone, so the two
    // cases race for the same ordinals: the second claim of ordinal 0
    // collides.
    assert!(attach(&mut v, a, "C", 3).is_ok());
    assert_eq!(attach(&mut v, b, "C", 4), Err(TransitionError::RecordExists));
    assert_eq!(v.cases[1].evidence_count, 0);
}

#[test]
fn over_length_fields_rejected() {
    let mut v = EvidenceVault::new();
    let a = id(1);
    let long33 = vec![b'x'; 33];
    let r = v.create_case(CreateCase { investigator: a }, long33, bs("t"), bs("d"), 1);
    assert_eq!(r, Err(TransitionError::OverLength));
    let long65 = vec![b'x'; 65];
    let r = v.create_case(CreateCase { investigator: a }, bs("C"), long65, bs("d"), 1);
    assert_eq!(r, Err(TransitionError::OverLength));
    let long257 = vec![b'x'; 257];
    let r = v.create_case(CreateCase { investigator: a }, bs("C"), bs("t"), long257.clone(), 1);
    assert_eq!(r, Err(TransitionError::OverLength));
    assert!(v.cases.is_empty());
    create(&mut v, a, "C", 1);
    let long129 = vec![b'x'; 129];
    let r = v.add_evidence(
        AddEvidence { case_id: bs("C"), case_investigator: a, submitter: a },
        EvidenceType::Report,
        [0u8; 32],
        long129,
        bs("d"),
        2,
    );
    assert_eq!(r, Err(TransitionError::OverLength));
    let r = v.add_evidence(
        AddEvidence { case_id: bs("C"), case_investigator: a, submitter: a },
        EvidenceType::Report,
        [0u8; 32],
        bs("u"),
        long257,
        2,
    );
    assert_eq!(r, Err(TransitionError::OverLength));
    assert_eq!(v.cases[0].evidence_count, 0);
}

#[test]
fn missing_case_address_rejected() {
    let mut v = EvidenceVault::new();
    let a = id(1);
    assert_eq!(attach(&mut v, a, "C", 1), Err(TransitionError::RecordMissing));
    let r = v.add_finding(
        AddFinding { case_id: bs("C"), case_investigator: a, recorder: a },
        bs("f"),
        1,
    );
    assert_eq!(r, Err(TransitionError::RecordMissing));
    create(&mut v, a, "C", 1);
    assert_eq!(attach(&mut v, id(2), "C", 2), Err(TransitionError::RecordMissing));
}

#[test]
fn finding_stores_nothing_and_commits_to_digest() {
    let mut v = EvidenceVault::new();
    let a = id(1);
    create(&mut v, a, "C", 1);
    let updated_at_before = v.cases[0].updated_at;
    let r = v.add_finding(
        AddFinding { case_id: bs("C"), case_investigator: a, recorder: id(7) },
        bs("abc"),
        5,
    );
    assert!(r.is_ok());
    // No record was created or touched; in particular `updated_at` is not
    // refreshed by a finding.
    assert_eq!(v.cases.len(), 1);
    assert_eq!(v.evidence.len(), 0);
    assert_eq!(v.cases[0].updated_at, updated_at_before);
    // The only trace is a notice carrying the SHA-256 digest of the exact
    // finding text.
    let sha256_abc: [u8; 32] = [
        0xba, 0x78, 0x16, 0xbf, 0x8f, 0x01, 0xcf, 0xea, 0x41, 0x41, 0x40, 0xde, 0x5d, 0xae,
        0x22, 0x23, 0xb0, 0x03, 0x61, 0xa3, 0x96, 0x17, 0x7a, 0x9c, 0xb4, 0x10, 0xff, 0x61,
        0xf2, 0x00, 0x15, 0xad,
    ];
    assert_eq!(v.log.len(), 2);
    match &v.log[1] {
        Notification::FindingRecorded(n) => {
            assert_eq!(n.case_id, bs("C"));
            assert_eq!(n.finding_hash, sha256_abc);
            assert_eq!(n.recorder, id(7));
            assert_eq!(n.timestamp, 5);
        }
        _ => panic!("expected a FindingRecorded notice"),
    }
}

#[test]
fn lookup_misses_and_hits() {
    let mut v = EvidenceVault::new();
    let a = id(1);
    assert!(v.find_case(&bs("C"), &a).is_none());
    create(&mut v, a, "C", 1);
    let i = v.find_case(&bs("C"), &a).expect("case should be present");
    assert_eq!(v.cases[i].case_id, bs("C"));
    assert!(v.find_case(&bs("D"), &a).is_none());
    assert!(v.find_case(&bs("C"), &id(2)).is_none());
    assert!(v.find_evidence(&bs("C"), 0).is_none());
}

#[test]
fn byte_helpers_compare_and_copy() {
    assert!(bytes_eq(&bs("abc"), &bs("abc")));
    assert!(!bytes_eq(&bs("abc"), &bs("abd")));
    assert!(!bytes_eq(&bs("abc"), &bs("ab")));
    assert!(bytes32_eq(&[5u8; 32], &[5u8; 32]));
    let mut other = [5u8; 32];
    other[31] = 6;
    assert!(!bytes32_eq(&[5u8; 32], &other));
    assert!(identity_eq(&id(3), &id(3)));
    assert!(!identity_eq(&id(3), &id(4)));
    let v = bs("hello");
    let c = copy_bytes(&v);
    assert_eq!(v, c);
}

#[test]
fn ordinals_are_independent_per_case_id() {
    let mut v = EvidenceVault::new();
    let a = id(1);
    create(&mut v, a, "C1", 1);
    create(&mut v, a, "C2", 2);
    assert!(attach(&mut v, a, "C1", 3).is_ok());
    assert!(attach(&mut v, a, "C1", 4).is_ok());
    assert!(attach(&mut v, a, "C2", 5).is_ok());
    assert_eq!(v.cases[0].evidence_count, 2);
    assert_eq!(v.cases[1].evidence_count, 1);
    assert!(v.find_evidence(&bs("C1"), 1).is_some());
    assert!(v.find_evidence(&bs("C2"), 0).is_some());
    assert!(v.find_evidence(&bs("C2"), 1).is_none());
}

#[test]
fn saturated_counter_rejected_defensively() {
    // Simulate a case whose counter cannot be incremented without wrapping:
    // the attachment is rejected before any record is created.
    let mut v = EvidenceVault::new();
    let a = id(1);
    create(&mut v, a, "C", 1);
    v.cases[0].evidence_count = u32::MAX;
    assert_eq!(attach(&mut v, a, "C", 2), Err(TransitionError::CounterOverflow));
    assert_eq!(v.evidence.len(), 0);
    assert_eq!(v.cases[0].evidence_count, u32::MAX);
}

#[test]
fn archived_status_also_blocks_attachment() {
    // `Archived` is a reserved status no transition assigns; the attachment
    // rule requires `Open`, so a non-open case rejects evidence whatever the
    // non-open status is.
    let mut v = EvidenceVault::new();
    let a = id(1);
    create(&mut v, a, "C", 1);
    v.cases[0].status = CaseStatus::Archived;
    assert_eq!(
        attach(&mut v, a, "C", 2),
        Err(TransitionError::Rule(evidence_vault::ForensicError::CaseClosed))
    );
    assert_eq!(v.cases[0].evidence_count, 0);
}
