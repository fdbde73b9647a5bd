use dicom_transfer::client::{evaluate_store_reply, judge_status};
use dicom_transfer::cstore::{
    classify_status, encode_cstore_rq, encode_cstore_rsp, parse_command, StoreOutcome,
    COMMAND_FIELD_C_STORE_RQ, COMMAND_FIELD_C_STORE_RSP, DATA_SET_ABSENT, DATA_SET_PRESENT,
};
use dicom_transfer::error::DicomError;
use dicom_transfer::pdu::Pdu;
use dicom_transfer::receiver::build_store_response_pdu;

const CT: &[u8] = b"1.2.840.10008.5.1.4.1.1.2";
const INSTANCE: &[u8] = b"1.2.3.4.5.6.7.8.9";

#[test]
fn cstore_rq_round_trips_through_parse() {
    let bytes = encode_cstore_rq(CT, INSTANCE, 1);
    let cs = parse_command(&bytes).unwrap();
    assert_eq!(cs.command_field, Some(COMMAND_FIELD_C_STORE_RQ));
    assert_eq!(cs.message_id, Some(1));
    assert_eq!(cs.message_id_responded, None);
    assert_eq!(cs.data_set_type, Some(DATA_SET_PRESENT));
    assert_eq!(cs.status, None);
    assert_eq!(cs.sop_class_uid, Some(CT.to_vec()));
    assert_eq!(cs.sop_instance_uid, Some(INSTANCE.to_vec()));
}

#[test]
fn cstore_rsp_echoes_the_instance() {
    let bytes = encode_cstore_rsp(CT, INSTANCE, 42, 0);
    let cs = parse_command(&bytes).unwrap();
    assert_eq!(cs.command_field, Some(COMMAND_FIELD_C_STORE_RSP));
    assert_eq!(cs.message_id_responded, Some(42));
    assert_eq!(cs.data_set_type, Some(DATA_SET_ABSENT));
    assert_eq!(cs.status, Some(0));
    // The affected SOP instance the sender stored comes back unchanged.
    assert_eq!(cs.sop_instance_uid, Some(INSTANCE.to_vec()));
}

#[test]
fn sender_accepts_only_its_own_echo() {
    let bytes = encode_cstore_rsp(CT, INSTANCE, 7, 0);
    assert_eq!(evaluate_store_reply(&bytes, 7, INSTANCE), Ok(0));

    // Wrong message id.
    assert_eq!(
        evaluate_store_reply(&bytes, 8, INSTANCE),
        Err(DicomError::ProtocolViolation)
    );
    // Wrong echoed instance.
    assert_eq!(
        evaluate_store_reply(&bytes, 7, b"9.9.9"),
        Err(DicomError::ProtocolViolation)
    );
    // Not a response at all.
    let rq = encode_cstore_rq(CT, INSTANCE, 7);
    assert_eq!(
        evaluate_store_reply(&rq, 7, INSTANCE),
        Err(DicomError::ProtocolViolation)
    );
    // Broken bytes.
    assert_eq!(
        evaluate_store_reply(&bytes[..5], 7, INSTANCE),
        Err(DicomError::Malformed)
    );
}

#[test]
fn status_classification() {
    assert_eq!(classify_status(0x0000), StoreOutcome::Success);
    assert_eq!(classify_status(0xB000), StoreOutcome::Warning);
    assert_eq!(classify_status(0xB007), StoreOutcome::Warning);
    assert_eq!(classify_status(0xA700), StoreOutcome::Failure);
    assert_eq!(classify_status(0xA900), StoreOutcome::Failure);
    assert_eq!(classify_status(0xC000), StoreOutcome::Failure);

    assert_eq!(judge_status(0x0000), Ok(0x0000));
    assert_eq!(judge_status(0xB005), Ok(0xB005));
    assert_eq!(
        judge_status(0xC001),
        Err(DicomError::StoreFailed { status: 0xC001 })
    );
}

#[test]
fn store_response_pdu_is_one_final_command_pdv() {
    let pdu = build_store_response_pdu(3, CT, INSTANCE, 5, 0);
    match pdu {
        Pdu::PData(values) => {
            assert_eq!(values.len(), 1);
            assert_eq!(values[0].context_id, 3);
            assert!(values[0].is_command);
            assert!(values[0].is_last);
            let cs = parse_command(&values[0].data).unwrap();
            assert_eq!(cs.command_field, Some(COMMAND_FIELD_C_STORE_RSP));
            assert_eq!(cs.message_id_responded, Some(5));
            assert_eq!(cs.status, Some(0));
            assert_eq!(cs.sop_instance_uid, Some(INSTANCE.to_vec()));
        }
        _ => panic!("not a P-DATA-TF"),
    }
}

#[test]
fn receiver_rejects_non_store_commands() {
    let rq = encode_cstore_rq(CT, INSTANCE, 1);
    let cs = parse_command(&rq).unwrap();
    assert_eq!(dicom_transfer::receiver::response_status_for(&cs), 0x0000);

    // A response command set, or one without a command field, cannot be
    // handled as a store and is answered with 0xC000.
    let rsp = encode_cstore_rsp(CT, INSTANCE, 1, 0);
    let cs = parse_command(&rsp).unwrap();
    assert_eq!(dicom_transfer::receiver::response_status_for(&cs), 0xC000);
    let empty = parse_command(&[]).unwrap();
    assert_eq!(dicom_transfer::receiver::response_status_for(&empty), 0xC000);
}

#[test]
fn group_length_element_counts_the_rest() {
    let bytes = encode_cstore_rq(CT, INSTANCE, 1);
    // The first element is (0000,0000) UL with the byte count of the rest.
    assert_eq!(&bytes[0..4], &[0, 0, 0, 0]);
    assert_eq!(&bytes[4..8], &[4, 0, 0, 0]);
    let glen = u32::from_le_bytes([bytes[8], bytes[9], bytes[10], bytes[11]]) as usize;
    assert_eq!(glen, bytes.len() - 12);
}
