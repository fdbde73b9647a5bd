use dicom_transfer::client::pdv_payload_limit;
use dicom_transfer::error::DicomError;
use dicom_transfer::pdu::Pdu;
use dicom_transfer::receiver::ReceiverSession;
use dicom_transfer::transport::{assemble_chunks, build_message_pdus, fragment_message};

#[test]
fn fragment_assemble_round_trip() {
    for limit in [1usize, 2, 7, 100, 100_000] {
        let data: Vec<u8> = (0..500u32).map(|i| (i % 251) as u8).collect();
        let fragments = fragment_message(7, false, &data, limit);
        assert!(fragments.len() >= 1);
        for (i, f) in fragments.iter().enumerate() {
            assert_eq!(f.context_id, 7);
            assert!(!f.is_command);
            assert!(f.data.len() <= limit);
            assert_eq!(f.is_last, i == fragments.len() - 1);
            if i < fragments.len() - 1 {
                assert_eq!(f.data.len(), limit);
            }
        }
        let back = assemble_chunks(&fragments);
        assert_eq!(back, data);
    }
}

#[test]
fn empty_message_still_yields_one_final_fragment() {
    let fragments = fragment_message(1, true, &[], 16_000);
    assert_eq!(fragments.len(), 1);
    assert!(fragments[0].is_command);
    assert!(fragments[0].is_last);
    assert!(fragments[0].data.is_empty());
    assert_eq!(assemble_chunks(&fragments), Vec::<u8>::new());
}

#[test]
fn multi_pdv_dataset_fragment_sizes() {
    // A 40 000-byte data set under a 16 000-byte payload cap travels as
    // three data PDVs of 16 000, 16 000 and 8 000 bytes; only the third is
    // final. The receiver reassembles the exact input.
    let data: Vec<u8> = (0..40_000u32).map(|i| (i % 193) as u8).collect();
    let fragments = fragment_message(1, false, &data, 16_000);
    assert_eq!(fragments.len(), 3);
    assert_eq!(fragments[0].data.len(), 16_000);
    assert_eq!(fragments[1].data.len(), 16_000);
    assert_eq!(fragments[2].data.len(), 8_000);
    assert!(!fragments[0].is_last);
    assert!(!fragments[1].is_last);
    assert!(fragments[2].is_last);

    let mut session = ReceiverSession::new();
    let command = fragment_message(1, true, &[0u8; 10], 16_000);
    assert!(session.handle_pdv(&command[0]).unwrap().is_none());
    assert!(session.handle_pdv(&fragments[0]).unwrap().is_none());
    assert!(session.handle_pdv(&fragments[1]).unwrap().is_none());
    let done = session.handle_pdv(&fragments[2]).unwrap().unwrap();
    assert_eq!(done.context_id, 1);
    assert_eq!(done.data, data);
}

#[test]
fn data_before_command_is_a_protocol_violation() {
    let mut session = ReceiverSession::new();
    let fragments = fragment_message(1, false, &[1, 2, 3], 16_000);
    assert_eq!(
        session.handle_pdv(&fragments[0]).err(),
        Some(DicomError::ProtocolViolation)
    );
}

#[test]
fn message_pdus_carry_command_then_data() {
    let command = vec![9u8; 10];
    let dataset = vec![7u8; 25];
    let pdus = build_message_pdus(1, &command, Some(&dataset), 10);
    // One command PDV, then three data PDVs, one per P-DATA-TF.
    assert_eq!(pdus.len(), 4);
    match &pdus[0] {
        Pdu::PData(values) => {
            assert_eq!(values.len(), 1);
            assert!(values[0].is_command);
            assert!(values[0].is_last);
            assert_eq!(values[0].data, command);
        }
        _ => panic!("not a P-DATA-TF"),
    }
    match &pdus[3] {
        Pdu::PData(values) => {
            assert!(!values[0].is_command);
            assert!(values[0].is_last);
            assert_eq!(values[0].data, vec![7u8; 5]);
        }
        _ => panic!("not a P-DATA-TF"),
    }
}

#[test]
fn payload_limit_leaves_room_for_headers() {
    // min(peer, local) minus the six-byte PDU header and six-byte PDV header.
    assert_eq!(pdv_payload_limit(16_384, 65_536), 16_372);
    assert_eq!(pdv_payload_limit(65_536, 16_012), 16_000);
    // Degenerate offers still allow one byte of progress.
    assert_eq!(pdv_payload_limit(4, 65_536), 1);
}

#[test]
fn abort_mid_transfer_ends_the_association() {
    // Scenario: while a data set is in flight, the peer sends
    // A-ABORT{source=1, reason=0}. The sender records the file as failed
    // with `Aborted`, and the error class ends the association, so the
    // worker must open a fresh one for its remaining studies.
    let bytes = dicom_transfer::pdu::encode_pdu(&Pdu::Abort {
        source: 1,
        reason: 0,
    });
    let err = match dicom_transfer::pdu::decode_pdu(&bytes).unwrap() {
        Pdu::Abort { source, reason } => DicomError::Aborted { source, reason },
        _ => panic!("wrong variant"),
    };
    assert_eq!(err, DicomError::Aborted { source: 1, reason: 0 });
    assert!(err.terminates_association());
    // A per-file store failure, by contrast, lets the association carry on.
    assert!(!DicomError::StoreFailed { status: 0xA700 }.terminates_association());
}

#[test]
fn release_handshake_round_trips() {
    // Scenario: after the last file the sender writes A-RELEASE-RQ and the
    // peer answers A-RELEASE-RP; both PDUs survive the wire exactly.
    let rq = dicom_transfer::pdu::encode_pdu(&Pdu::ReleaseRq);
    assert!(matches!(
        dicom_transfer::pdu::decode_pdu(&rq).unwrap(),
        Pdu::ReleaseRq
    ));
    let rp = dicom_transfer::pdu::encode_pdu(&Pdu::ReleaseRp);
    assert!(matches!(
        dicom_transfer::pdu::decode_pdu(&rp).unwrap(),
        Pdu::ReleaseRp
    ));
}

#[test]
fn pending_transfers_are_flushed_on_failure() {
    let mut session = ReceiverSession::new();
    let command = fragment_message(1, true, &[0u8; 4], 16_000);
    session.handle_pdv(&command[0]).unwrap();
    let fragments = fragment_message(1, false, &[1, 2, 3, 4, 5], 2);
    session.handle_pdv(&fragments[0]).unwrap();
    session.handle_pdv(&fragments[1]).unwrap();
    // The connection dies before the final fragment: the partial data can
    // still be flushed for inspection.
    let pending = session.pending();
    assert_eq!(pending.len(), 1);
    assert_eq!(pending[0].context_id, 1);
    assert_eq!(pending[0].data, vec![1, 2, 3, 4]);
}
