use dicom_transfer::client::{interpret_negotiation_reply, plan_store};
use dicom_transfer::error::DicomError;
use dicom_transfer::negotiation::{
    any_accepted, negotiate_contexts, zip_negotiation, RESULT_ABSTRACT_SYNTAX_NOT_SUPPORTED,
    RESULT_ACCEPTANCE, RESULT_TRANSFER_SYNTAXES_NOT_SUPPORTED,
};
use dicom_transfer::pdu::{AcceptedContext, AssociationAccept, Pdu, ProposedContext};
use dicom_transfer::types::DicomFile;

fn uids(list: &[&str]) -> Vec<Vec<u8>> {
    list.iter().map(|s| s.as_bytes().to_vec()).collect()
}

fn proposed(id: u8, abstract_syntax: &str, ts: &[&str]) -> ProposedContext {
    ProposedContext {
        id,
        abstract_syntax: abstract_syntax.as_bytes().to_vec(),
        transfer_syntaxes: uids(ts),
    }
}

#[test]
fn reply_pairs_with_request_by_id() {
    let requested = vec![
        proposed(1, "1.2.840.10008.5.1.4.1.1.2", &["1.2.840.10008.1.2.1", "1.2.840.10008.1.2"]),
        proposed(3, "1.2.840.10008.5.1.4.1.1.4", &["1.2.840.10008.1.2"]),
        proposed(5, "9.9.9", &["1.2.840.10008.1.2"]),
    ];
    let supported_abstract = uids(&["1.2.840.10008.5.1.4.1.1.2", "1.2.840.10008.5.1.4.1.1.4"]);
    let supported_transfer = uids(&["1.2.840.10008.1.2.1", "1.2.840.10008.1.2"]);
    let replies = negotiate_contexts(&requested, &supported_abstract, &supported_transfer, false);

    // One PC-AC per PC-RQ, paired by id.
    assert_eq!(replies.len(), requested.len());
    for (rq, ac) in requested.iter().zip(replies.iter()) {
        assert_eq!(rq.id, ac.id);
        // An accepted transfer syntax is one that was offered.
        if ac.result == RESULT_ACCEPTANCE {
            assert!(rq.transfer_syntaxes.contains(&ac.transfer_syntax));
        }
    }
    assert_eq!(replies[0].result, RESULT_ACCEPTANCE);
    assert_eq!(replies[1].result, RESULT_ACCEPTANCE);
    assert_eq!(replies[2].result, RESULT_ABSTRACT_SYNTAX_NOT_SUPPORTED);
}

#[test]
fn unknown_sop_class_rejected_but_association_proceeds() {
    // One unknown abstract syntax is answered with result 3; the other
    // context is still accepted, so the association is established.
    let requested = vec![
        proposed(1, "9.9.9.9.9", &["1.2.840.10008.1.2"]),
        proposed(3, "1.2.840.10008.5.1.4.1.1.2", &["1.2.840.10008.1.2"]),
    ];
    let supported_abstract = uids(&["1.2.840.10008.5.1.4.1.1.2"]);
    let supported_transfer = uids(&["1.2.840.10008.1.2.1", "1.2.840.10008.1.2"]);
    let replies = negotiate_contexts(&requested, &supported_abstract, &supported_transfer, false);
    assert_eq!(replies[0].result, RESULT_ABSTRACT_SYNTAX_NOT_SUPPORTED);
    assert_eq!(replies[1].result, RESULT_ACCEPTANCE);

    let table = zip_negotiation(&requested, &replies).unwrap();
    assert!(any_accepted(&table));
}

#[test]
fn promiscuous_accepts_unknown_sop_class() {
    let requested = vec![proposed(1, "9.9.9.9.9", &["1.2.840.10008.1.2"])];
    let supported_abstract = uids(&["1.2.840.10008.5.1.4.1.1.2"]);
    let supported_transfer = uids(&["1.2.840.10008.1.2.1", "1.2.840.10008.1.2"]);

    let replies = negotiate_contexts(&requested, &supported_abstract, &supported_transfer, true);
    assert_eq!(replies[0].result, RESULT_ACCEPTANCE);
    assert_eq!(replies[0].transfer_syntax, b"1.2.840.10008.1.2".to_vec());

    // Still needs a supportable transfer syntax.
    let odd = vec![proposed(1, "9.9.9.9.9", &["5.5.5"])];
    let replies = negotiate_contexts(&odd, &supported_abstract, &supported_transfer, true);
    assert_eq!(replies[0].result, RESULT_TRANSFER_SYNTAXES_NOT_SUPPORTED);
}

#[test]
fn explicit_vr_preferred_over_implicit() {
    // Implicit VR LE offered first, but Explicit VR LE also offered and
    // supported: the acceptor picks Explicit.
    let requested = vec![proposed(
        1,
        "1.2.840.10008.5.1.4.1.1.2",
        &["1.2.840.10008.1.2", "1.2.840.10008.1.2.1"],
    )];
    let supported_abstract = uids(&["1.2.840.10008.5.1.4.1.1.2"]);
    let supported_transfer = uids(&["1.2.840.10008.1.2.1", "1.2.840.10008.1.2"]);
    let replies = negotiate_contexts(&requested, &supported_abstract, &supported_transfer, false);
    assert_eq!(replies[0].result, RESULT_ACCEPTANCE);
    assert_eq!(replies[0].transfer_syntax, b"1.2.840.10008.1.2.1".to_vec());
}

#[test]
fn zip_pairs_by_id_across_reordered_replies() {
    // Replies may arrive in any order; each proposal takes the reply with
    // its own id, and the table is owed on every conforming reply list.
    let requested = vec![
        proposed(1, "1.2.840.10008.5.1.4.1.1.2", &["1.2.840.10008.1.2.1"]),
        proposed(3, "1.2.840.10008.5.1.4.1.1.4", &["1.2.840.10008.1.2"]),
    ];
    let replies = vec![
        AcceptedContext {
            id: 3,
            result: RESULT_ACCEPTANCE,
            transfer_syntax: b"1.2.840.10008.1.2".to_vec(),
        },
        AcceptedContext {
            id: 1,
            result: RESULT_TRANSFER_SYNTAXES_NOT_SUPPORTED,
            transfer_syntax: b"1.2.840.10008.1.2.1".to_vec(),
        },
    ];
    let table = zip_negotiation(&requested, &replies).unwrap();
    assert_eq!(table.len(), 2);
    assert_eq!(table[0].id, 1);
    assert_eq!(table[0].result, RESULT_TRANSFER_SYNTAXES_NOT_SUPPORTED);
    assert_eq!(table[1].id, 3);
    assert_eq!(table[1].result, RESULT_ACCEPTANCE);
    assert_eq!(table[1].transfer_syntax, b"1.2.840.10008.1.2".to_vec());
}

#[test]
fn zip_rejects_unanswered_context() {
    let requested = vec![proposed(1, "1.2.840.10008.5.1.4.1.1.2", &["1.2.840.10008.1.2"])];
    let replies = vec![AcceptedContext {
        id: 99,
        result: 0,
        transfer_syntax: b"1.2.840.10008.1.2".to_vec(),
    }];
    assert_eq!(
        zip_negotiation(&requested, &replies).err(),
        Some(DicomError::ProtocolViolation)
    );

    // An accepted transfer syntax the requestor never offered is a protocol
    // violation too.
    let replies = vec![AcceptedContext {
        id: 1,
        result: 0,
        transfer_syntax: b"5.5.5".to_vec(),
    }];
    assert_eq!(
        zip_negotiation(&requested, &replies).err(),
        Some(DicomError::ProtocolViolation)
    );
}

fn ct_file() -> DicomFile {
    DicomFile {
        path: String::from("ct1.dcm"),
        study_instance_uid: String::from("1.2.3.4"),
        series_instance_uid: String::from("1.2.3.4.1"),
        sop_instance_uid: String::from("1.2.3.4.1.1"),
        sop_class_uid: String::from("1.2.840.10008.5.1.4.1.1.2"),
        file_size: 1000,
        modality: Some(String::from("CT")),
        patient_id: None,
        study_date: None,
    }
}

#[test]
fn rejected_negotiation_reply_surfaces_fields() {
    let requested = vec![proposed(1, "1.2.840.10008.5.1.4.1.1.2", &["1.2.840.10008.1.2"])];
    let reply = Pdu::AssociateRj {
        result: 1,
        source: 2,
        reason: 1,
    };
    match interpret_negotiation_reply(&requested, &reply) {
        Err(DicomError::Rejected {
            result,
            source,
            reason,
        }) => assert_eq!((result, source, reason), (1, 2, 1)),
        other => panic!("unexpected: {:?}", other.is_ok()),
    }

    let reply = Pdu::Abort {
        source: 1,
        reason: 0,
    };
    match interpret_negotiation_reply(&requested, &reply) {
        Err(DicomError::Aborted { source, reason }) => assert_eq!((source, reason), (1, 0)),
        other => panic!("unexpected: {:?}", other.is_ok()),
    }

    let reply = Pdu::ReleaseRq;
    assert_eq!(
        interpret_negotiation_reply(&requested, &reply).err(),
        Some(DicomError::ProtocolViolation)
    );
}

#[test]
fn unsupported_sop_class_yields_no_accepted_context() {
    // Scenario: propose context id 1 with an unknown abstract syntax; the
    // non-promiscuous peer answers result 3; the sender detects that no
    // context was accepted and fails the file, counting failed = 1.
    let requested = vec![proposed(1, "9.9.9.9.9", &["1.2.840.10008.1.2"])];
    let supported_abstract = uids(&["1.2.840.10008.5.1.4.1.1.2"]);
    let supported_transfer = uids(&["1.2.840.10008.1.2.1", "1.2.840.10008.1.2"]);
    let replies = negotiate_contexts(&requested, &supported_abstract, &supported_transfer, false);
    assert_eq!(replies[0].result, RESULT_ABSTRACT_SYNTAX_NOT_SUPPORTED);

    let ac = AssociationAccept {
        called_ae: b"SCP".to_vec(),
        calling_ae: b"SCU".to_vec(),
        max_pdu_length: 16384,
        contexts: replies,
    };
    assert_eq!(
        interpret_negotiation_reply(&requested, &Pdu::AssociateAc(ac)).err(),
        Some(DicomError::NoAcceptedContext)
    );

    let results = vec![dicom_transfer::types::FileTransferResult {
        file_path: String::from("unknown.dcm"),
        success: false,
        error_message: Some(String::from("no accepted presentation context")),
        transfer_time_ms: 0,
        file_size: 1000,
    }];
    let stats = dicom_transfer::types::summarize_results(&results, 5);
    assert_eq!(stats.total_files, 1);
    assert_eq!(stats.successful_transfers, 0);
    assert_eq!(stats.failed_transfers, 1);
}

#[test]
fn plan_store_picks_matching_accepted_context() {
    let table = vec![
        dicom_transfer::negotiation::NegotiatedContext {
            id: 1,
            abstract_syntax: b"1.2.840.10008.5.1.4.1.1.4".to_vec(),
            result: RESULT_ACCEPTANCE,
            transfer_syntax: b"1.2.840.10008.1.2".to_vec(),
        },
        dicom_transfer::negotiation::NegotiatedContext {
            id: 3,
            abstract_syntax: b"1.2.840.10008.5.1.4.1.1.2".to_vec(),
            result: RESULT_ACCEPTANCE,
            transfer_syntax: b"1.2.840.10008.1.2.1".to_vec(),
        },
    ];
    let plan = plan_store(&ct_file(), &table).unwrap();
    assert_eq!(plan.context_id, 3);
    assert_eq!(plan.transfer_syntax, b"1.2.840.10008.1.2.1".to_vec());

    // A table whose only matching context was refused cannot carry the file.
    let table = vec![dicom_transfer::negotiation::NegotiatedContext {
        id: 1,
        abstract_syntax: b"1.2.840.10008.5.1.4.1.1.2".to_vec(),
        result: RESULT_ABSTRACT_SYNTAX_NOT_SUPPORTED,
        transfer_syntax: b"1.2.840.10008.1.2".to_vec(),
    }];
    assert_eq!(
        plan_store(&ct_file(), &table).err(),
        Some(DicomError::NoContextForSopClass)
    );
}
