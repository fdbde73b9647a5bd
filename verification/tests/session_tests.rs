use dicom_transfer::client::{
    build_association_request, build_presentation_contexts, interpret_negotiation_reply,
    plan_store, DicomClient, DicomClientConfig,
};
use dicom_transfer::negotiation::negotiate_contexts;
use dicom_transfer::pdu::{decode_pdu, encode_pdu, Pdu};
use dicom_transfer::receiver::{accept_association, AcceptDecision, ReceiverSession};
use dicom_transfer::session::{group_by_study, partition_studies};
use dicom_transfer::sop_classes::SopClassRegistry;
use dicom_transfer::transport::{assemble_chunks, build_message_pdus, fragment_message};
use dicom_transfer::types::{summarize_results, DicomFile, FileTransferResult, TransferStats};

fn file(path: &str, study: &str, instance: &str, class: &str, size: u64) -> DicomFile {
    DicomFile {
        path: String::from(path),
        study_instance_uid: String::from(study),
        series_instance_uid: format!("{}.1", study),
        sop_instance_uid: String::from(instance),
        sop_class_uid: String::from(class),
        file_size: size,
        modality: None,
        patient_id: None,
        study_date: None,
    }
}

const CT: &str = "1.2.840.10008.5.1.4.1.1.2";
const MR: &str = "1.2.840.10008.5.1.4.1.1.4";

#[test]
fn grouping_partitions_files_by_study() {
    let files = vec![
        file("a.dcm", "1.1", "1.1.1", CT, 10),
        file("b.dcm", "2.2", "2.2.1", CT, 20),
        file("c.dcm", "1.1", "1.1.2", MR, 30),
    ];
    let groups = group_by_study(&files);
    assert_eq!(groups.len(), 2);
    let total: usize = groups.iter().map(|g| g.files.len()).sum();
    assert_eq!(total, 3);
    for g in &groups {
        for f in &g.files {
            assert_eq!(f.study_instance_uid, g.study_uid);
        }
    }
    let sizes: Vec<usize> = groups.iter().map(|g| g.files.len()).collect();
    assert!(sizes.contains(&2));
    assert!(sizes.contains(&1));
}

#[test]
fn studies_are_dealt_out_to_workers() {
    let files: Vec<DicomFile> = (0..5)
        .map(|i| file(&format!("f{i}.dcm"), &format!("{i}.{i}"), "1", CT, 1))
        .collect();
    let groups = group_by_study(&files);
    assert_eq!(groups.len(), 5);
    let queues = partition_studies(groups, 2);
    assert!(queues.len() <= 2);
    let total: usize = queues.iter().map(|q| q.len()).sum();
    assert_eq!(total, 5);

    let files: Vec<DicomFile> = (0..3)
        .map(|i| file(&format!("f{i}.dcm"), &format!("{i}.{i}"), "1", CT, 1))
        .collect();
    let queues = partition_studies(group_by_study(&files), 8);
    assert!(queues.len() <= 8);
    let total: usize = queues.iter().map(|q| q.len()).sum();
    assert_eq!(total, 3);
}

#[test]
fn stats_account_for_every_file() {
    let results = vec![
        FileTransferResult {
            file_path: String::from("a.dcm"),
            success: true,
            error_message: None,
            transfer_time_ms: 12,
            file_size: 100,
        },
        FileTransferResult {
            file_path: String::from("b.dcm"),
            success: false,
            error_message: Some(String::from("store rejected by peer")),
            transfer_time_ms: 5,
            file_size: 200,
        },
        FileTransferResult {
            file_path: String::from("c.dcm"),
            success: true,
            error_message: None,
            transfer_time_ms: 30,
            file_size: 300,
        },
    ];
    let stats = summarize_results(&results, 60);
    assert_eq!(stats.total_files, 3);
    assert_eq!(stats.successful_transfers, 2);
    assert_eq!(stats.failed_transfers, 1);
    assert_eq!(stats.successful_transfers + stats.failed_transfers, stats.total_files);
    assert_eq!(stats.total_bytes, 400);
    assert_eq!(stats.transfer_times_ms, vec![12, 30]);
    let spent: u64 = stats.transfer_times_ms.iter().sum();
    assert!(spent <= stats.total_time_ms);

    let mut counters = TransferStats::new();
    counters.increment_success(100);
    counters.increment_success(50);
    counters.increment_failure();
    assert_eq!(counters.successful_transfers, 2);
    assert_eq!(counters.failed_transfers, 1);
    assert_eq!(counters.total_bytes, 150);
}

#[test]
fn client_proposes_one_context_per_sop_class() {
    let registry = SopClassRegistry::new();
    let files = vec![
        file("a.dcm", "1.1", "1.1.1", CT, 10),
        file("b.dcm", "1.1", "1.1.2", CT, 10),
        file("c.dcm", "1.1", "1.1.3", MR, 10),
    ];
    let contexts = build_presentation_contexts(&files, &registry);
    assert_eq!(contexts.len(), 2);
    assert_eq!(contexts[0].id, 1);
    assert_eq!(contexts[1].id, 3);
    assert_eq!(contexts[0].abstract_syntax, CT.as_bytes().to_vec());
    assert_eq!(contexts[1].abstract_syntax, MR.as_bytes().to_vec());
    // CT proposes the compressed policy list.
    assert_eq!(contexts[0].transfer_syntaxes.len(), 10);
    // An unknown class still gets a context, with the basic list.
    let files = vec![file("u.dcm", "1.1", "1.1.9", "9.9.9.9.9", 10)];
    let contexts = build_presentation_contexts(&files, &registry);
    assert_eq!(contexts.len(), 1);
    assert_eq!(contexts[0].transfer_syntaxes.len(), 2);
}

#[test]
fn happy_path_single_ct_file() {
    // Scenario: one CT file. The sender proposes context id 1 for the CT
    // SOP class with [Explicit VR LE, Implicit VR LE]; the peer accepts id 1
    // with Explicit VR LE; the sender transmits C-STORE-RQ with message id 1
    // and receives status 0x0000; the session counts successful = 1.
    let config = DicomClientConfig {
        calling_ae: String::from("RUST_SCU"),
        called_ae: String::from("RUST_SCP"),
        host: String::from("127.0.0.1"),
        port: 4242,
        timeout_ms: 30_000,
    };
    let client = DicomClient::new(config);
    let ct_file = file("ct.dcm", "1.1", "1.2.3.4.1.1", CT, 40_000);

    // Build the request, with the basic proposal list as in the scenario.
    let rq = dicom_transfer::pdu::AssociationRequest {
        called_ae: client.config.called_ae.as_bytes().to_vec(),
        calling_ae: client.config.calling_ae.as_bytes().to_vec(),
        max_pdu_length: 16_384,
        contexts: vec![dicom_transfer::pdu::ProposedContext {
            id: 1,
            abstract_syntax: CT.as_bytes().to_vec(),
            transfer_syntaxes: vec![
                b"1.2.840.10008.1.2.1".to_vec(),
                b"1.2.840.10008.1.2".to_vec(),
            ],
        }],
    };

    // The peer (acceptor) answers over the wire.
    let wire = encode_pdu(&Pdu::AssociateRq(rq));
    let decoded_rq = match decode_pdu(&wire).unwrap() {
        Pdu::AssociateRq(rq) => rq,
        _ => panic!("wrong variant"),
    };
    let supported_abstract = vec![CT.as_bytes().to_vec()];
    let supported_transfer = vec![
        b"1.2.840.10008.1.2.1".to_vec(),
        b"1.2.840.10008.1.2".to_vec(),
    ];
    let decision = accept_association(
        &decoded_rq,
        b"RUST_SCP",
        true,
        &supported_abstract,
        &supported_transfer,
        false,
        16_384,
    );
    let ac = match decision {
        AcceptDecision::Accept(ac) => ac,
        AcceptDecision::Reject { .. } => panic!("rejected"),
    };
    let ac_wire = encode_pdu(&Pdu::AssociateAc(ac));
    let reply = decode_pdu(&ac_wire).unwrap();

    // The sender interprets the reply and plans the store.
    let proposed = match decode_pdu(&wire).unwrap() {
        Pdu::AssociateRq(rq) => rq.contexts,
        _ => panic!("wrong variant"),
    };
    let established = interpret_negotiation_reply(&proposed, &reply).unwrap();
    let plan = plan_store(&ct_file, &established.contexts).unwrap();
    assert_eq!(plan.context_id, 1);
    assert_eq!(plan.transfer_syntax, b"1.2.840.10008.1.2.1".to_vec());

    // Command and data set travel; the receiver reassembles and answers.
    let command = dicom_transfer::cstore::encode_cstore_rq(
        CT.as_bytes(),
        ct_file.sop_instance_uid.as_bytes(),
        1,
    );
    let dataset = vec![0x42u8; 40_000];
    let limit = dicom_transfer::client::pdv_payload_limit(established.peer_max_pdu, 16_012);
    let pdus = build_message_pdus(plan.context_id, &command, Some(&dataset), limit);

    let mut session = ReceiverSession::new();
    let mut stored = None;
    for pdu in &pdus {
        let wire = encode_pdu(pdu);
        match decode_pdu(&wire).unwrap() {
            Pdu::PData(values) => {
                for pdv in &values {
                    if let Some(done) = session.handle_pdv(pdv).unwrap() {
                        stored = Some(done);
                    }
                }
            }
            _ => panic!("wrong variant"),
        }
    }
    let stored = stored.expect("dataset completed");
    assert_eq!(stored.data, dataset);

    // The receiver answers with status 0 echoing the instance.
    let rsp_pdu = dicom_transfer::receiver::build_store_response_pdu(
        stored.context_id,
        CT.as_bytes(),
        ct_file.sop_instance_uid.as_bytes(),
        1,
        0,
    );
    let rsp_wire = encode_pdu(&rsp_pdu);
    let rsp_values = match decode_pdu(&rsp_wire).unwrap() {
        Pdu::PData(values) => values,
        _ => panic!("wrong variant"),
    };
    let rsp_bytes = assemble_chunks(&rsp_values);
    let status = dicom_transfer::client::evaluate_store_reply(
        &rsp_bytes,
        1,
        ct_file.sop_instance_uid.as_bytes(),
    )
    .unwrap();
    assert_eq!(dicom_transfer::client::judge_status(status), Ok(0));

    let results = vec![FileTransferResult {
        file_path: ct_file.path.clone(),
        success: true,
        error_message: None,
        transfer_time_ms: 3,
        file_size: ct_file.file_size,
    }];
    let stats = summarize_results(&results, 10);
    assert_eq!(stats.successful_transfers, 1);
    assert_eq!(stats.failed_transfers, 0);
}

#[test]
fn acceptor_rejects_wrong_called_ae() {
    let registry = SopClassRegistry::new();
    let files = vec![file("a.dcm", "1.1", "1.1.1", CT, 10)];
    let config = DicomClientConfig {
        calling_ae: String::from("RUST_SCU"),
        called_ae: String::from("WRONG_AE"),
        host: String::from("127.0.0.1"),
        port: 4242,
        timeout_ms: 30_000,
    };
    let rq = build_association_request(&config, &files, &registry, 16_384);
    let decision = accept_association(
        &rq,
        b"RUST_SCP",
        true,
        &vec![CT.as_bytes().to_vec()],
        &vec![b"1.2.840.10008.1.2".to_vec()],
        false,
        16_384,
    );
    match decision {
        AcceptDecision::Reject {
            result,
            source,
            reason,
        } => assert_eq!((result, source, reason), (1, 1, 7)),
        AcceptDecision::Accept(_) => panic!("accepted"),
    }
}

#[test]
fn negotiation_over_the_wire_keeps_counts() {
    let registry = SopClassRegistry::new();
    let files = vec![
        file("a.dcm", "1.1", "1.1.1", CT, 10),
        file("b.dcm", "1.1", "1.1.2", MR, 10),
    ];
    let config = DicomClientConfig {
        calling_ae: String::from("SCU"),
        called_ae: String::from("SCP"),
        host: String::from("127.0.0.1"),
        port: 104,
        timeout_ms: 1000,
    };
    let rq = build_association_request(&config, &files, &registry, 32_768);
    let replies = negotiate_contexts(
        &rq.contexts,
        &vec![CT.as_bytes().to_vec()],
        &vec![b"1.2.840.10008.1.2".to_vec()],
        false,
    );
    assert_eq!(replies.len(), rq.contexts.len());
    for (p, a) in rq.contexts.iter().zip(replies.iter()) {
        assert_eq!(p.id, a.id);
    }
    // Reassembling the command stream of a fragmented message is lossless.
    let payload: Vec<u8> = (0..1000u32).map(|i| (i * 7 % 256) as u8).collect();
    let fragments = fragment_message(1, true, &payload, 64);
    assert_eq!(assemble_chunks(&fragments), payload);
}
