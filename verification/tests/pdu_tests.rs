use dicom_transfer::pdu::{
    decode_pdu, encode_pdu, AcceptedContext, AssociationAccept, AssociationRequest, DecodeError,
    Pdu, Pdv, ProposedContext,
};

fn sample_request() -> AssociationRequest {
    AssociationRequest {
        called_ae: b"RUST_SCP".to_vec(),
        calling_ae: b"RUST_SCU".to_vec(),
        max_pdu_length: 65536,
        contexts: vec![
            ProposedContext {
                id: 1,
                abstract_syntax: b"1.2.840.10008.5.1.4.1.1.2".to_vec(),
                transfer_syntaxes: vec![
                    b"1.2.840.10008.1.2.1".to_vec(),
                    b"1.2.840.10008.1.2".to_vec(),
                ],
            },
            ProposedContext {
                id: 3,
                abstract_syntax: b"1.2.840.10008.5.1.4.1.1.4".to_vec(),
                transfer_syntaxes: vec![b"1.2.840.10008.1.2".to_vec()],
            },
        ],
    }
}

#[test]
fn associate_rq_round_trip() {
    let bytes = encode_pdu(&Pdu::AssociateRq(sample_request()));
    assert_eq!(bytes[0], 0x01);
    match decode_pdu(&bytes).unwrap() {
        Pdu::AssociateRq(rq) => {
            assert_eq!(rq.called_ae, b"RUST_SCP".to_vec());
            assert_eq!(rq.calling_ae, b"RUST_SCU".to_vec());
            assert_eq!(rq.max_pdu_length, 65536);
            assert_eq!(rq.contexts.len(), 2);
            assert_eq!(rq.contexts[0].id, 1);
            assert_eq!(
                rq.contexts[0].abstract_syntax,
                b"1.2.840.10008.5.1.4.1.1.2".to_vec()
            );
            assert_eq!(rq.contexts[0].transfer_syntaxes.len(), 2);
            assert_eq!(
                rq.contexts[0].transfer_syntaxes[0],
                b"1.2.840.10008.1.2.1".to_vec()
            );
            assert_eq!(rq.contexts[1].id, 3);
        }
        other => panic!("wrong variant: {:?}", discriminant_name(&other)),
    }
}

#[test]
fn associate_ac_round_trip() {
    let ac = AssociationAccept {
        called_ae: b"SCP".to_vec(),
        calling_ae: b"SCU".to_vec(),
        max_pdu_length: 16384,
        contexts: vec![
            AcceptedContext {
                id: 1,
                result: 0,
                transfer_syntax: b"1.2.840.10008.1.2.1".to_vec(),
            },
            AcceptedContext {
                id: 3,
                result: 3,
                transfer_syntax: b"1.2.840.10008.1.2".to_vec(),
            },
        ],
    };
    let bytes = encode_pdu(&Pdu::AssociateAc(ac));
    assert_eq!(bytes[0], 0x02);
    match decode_pdu(&bytes).unwrap() {
        Pdu::AssociateAc(got) => {
            assert_eq!(got.called_ae, b"SCP".to_vec());
            assert_eq!(got.contexts.len(), 2);
            assert_eq!(got.contexts[0].result, 0);
            assert_eq!(got.contexts[1].result, 3);
            assert_eq!(
                got.contexts[0].transfer_syntax,
                b"1.2.840.10008.1.2.1".to_vec()
            );
            assert_eq!(got.max_pdu_length, 16384);
        }
        other => panic!("wrong variant: {:?}", discriminant_name(&other)),
    }
}

#[test]
fn reject_release_abort_round_trip() {
    let bytes = encode_pdu(&Pdu::AssociateRj {
        result: 1,
        source: 1,
        reason: 7,
    });
    match decode_pdu(&bytes).unwrap() {
        Pdu::AssociateRj {
            result,
            source,
            reason,
        } => {
            assert_eq!((result, source, reason), (1, 1, 7));
        }
        _ => panic!("wrong variant"),
    }

    let bytes = encode_pdu(&Pdu::ReleaseRq);
    assert_eq!(bytes, vec![0x05, 0, 0, 0, 0, 4, 0, 0, 0, 0]);
    assert!(matches!(decode_pdu(&bytes).unwrap(), Pdu::ReleaseRq));

    let bytes = encode_pdu(&Pdu::ReleaseRp);
    assert_eq!(bytes, vec![0x06, 0, 0, 0, 0, 4, 0, 0, 0, 0]);
    assert!(matches!(decode_pdu(&bytes).unwrap(), Pdu::ReleaseRp));

    let bytes = encode_pdu(&Pdu::Abort {
        source: 1,
        reason: 0,
    });
    assert_eq!(bytes, vec![0x07, 0, 0, 0, 0, 4, 0, 0, 1, 0]);
    match decode_pdu(&bytes).unwrap() {
        Pdu::Abort { source, reason } => assert_eq!((source, reason), (1, 0)),
        _ => panic!("wrong variant"),
    }
}

#[test]
fn pdata_round_trip() {
    let values = vec![
        Pdv {
            context_id: 1,
            is_command: true,
            is_last: true,
            data: vec![1, 2, 3],
        },
        Pdv {
            context_id: 1,
            is_command: false,
            is_last: false,
            data: vec![4, 5],
        },
        Pdv {
            context_id: 1,
            is_command: false,
            is_last: true,
            data: vec![6],
        },
    ];
    let bytes = encode_pdu(&Pdu::PData(values));
    match decode_pdu(&bytes).unwrap() {
        Pdu::PData(got) => {
            assert_eq!(got.len(), 3);
            assert!(got[0].is_command && got[0].is_last);
            assert_eq!(got[0].data, vec![1, 2, 3]);
            assert!(!got[1].is_command && !got[1].is_last);
            assert_eq!(got[1].data, vec![4, 5]);
            assert!(got[2].is_last);
            assert_eq!(got[2].data, vec![6]);
        }
        _ => panic!("wrong variant"),
    }
}

#[test]
fn empty_pdv_is_legal_and_round_trips() {
    // Only the two-byte control header, no data.
    let values = vec![Pdv {
        context_id: 5,
        is_command: false,
        is_last: true,
        data: Vec::new(),
    }];
    let bytes = encode_pdu(&Pdu::PData(values));
    // Header + one PDV of length 2.
    assert_eq!(bytes.len(), 6 + 6);
    assert_eq!(&bytes[6..12], &[0, 0, 0, 2, 5, 0x02]);
    match decode_pdu(&bytes).unwrap() {
        Pdu::PData(got) => {
            assert_eq!(got.len(), 1);
            assert_eq!(got[0].context_id, 5);
            assert!(!got[0].is_command);
            assert!(got[0].is_last);
            assert!(got[0].data.is_empty());
        }
        _ => panic!("wrong variant"),
    }
}

#[test]
fn short_ae_titles_are_space_padded_on_the_wire() {
    let bytes = encode_pdu(&Pdu::AssociateRq(sample_request()));
    // Fixed part: type(1) reserved(1) length(4) version(2) reserved(2), then
    // the called AE title's 16-byte field.
    let called_field = &bytes[10..26];
    assert_eq!(&called_field[..8], b"RUST_SCP");
    assert_eq!(&called_field[8..], b"        ");
    let calling_field = &bytes[26..42];
    assert_eq!(&calling_field[..8], b"RUST_SCU");
    assert_eq!(&calling_field[8..], b"        ");

    // Equality of AE titles ignores the trailing spaces.
    assert!(dicom_transfer::uid::padded_eq(b"RUST_SCP", b"RUST_SCP        "));
    assert!(dicom_transfer::uid::padded_eq(b"RUST_SCP        ", b"RUST_SCP"));
    assert!(!dicom_transfer::uid::padded_eq(b"RUST_SCP", b"OTHER_AE"));
}

#[test]
fn decode_error_classification() {
    // Too short for a header.
    assert!(matches!(decode_pdu(&[0x01, 0, 0, 0]), Err(DecodeError::Framing)));
    // Length field does not match the buffer.
    assert!(matches!(
        decode_pdu(&[0x05, 0, 0, 0, 0, 9, 0, 0, 0, 0]),
        Err(DecodeError::Framing)
    ));
    // Unknown type byte on a well-framed buffer.
    assert!(matches!(
        decode_pdu(&[0x7F, 0, 0, 0, 0, 4, 0, 0, 0, 0]),
        Err(DecodeError::UnknownPduType)
    ));
    // A P-DATA-TF whose PDV length overruns the payload.
    assert!(matches!(
        decode_pdu(&[0x04, 0, 0, 0, 0, 6, 0, 0, 0, 99, 1, 0]),
        Err(DecodeError::Malformed)
    ));
    // A PDV length below the two mandatory bytes.
    assert!(matches!(
        decode_pdu(&[0x04, 0, 0, 0, 0, 6, 0, 0, 0, 1, 1, 0]),
        Err(DecodeError::Malformed)
    ));
}

#[test]
fn uid_padding_on_the_wire_is_stripped_on_decode() {
    // An odd-length abstract syntax is NUL-padded inside the item but comes
    // back without the padding.
    let rq = AssociationRequest {
        called_ae: b"A".to_vec(),
        calling_ae: b"B".to_vec(),
        max_pdu_length: 16384,
        contexts: vec![ProposedContext {
            id: 1,
            abstract_syntax: b"1.2.840.10008.5.1.4.1.1.2".to_vec(), // 25 bytes, odd
            transfer_syntaxes: vec![b"1.2.840.10008.1.2".to_vec()], // 17 bytes, odd
        }],
    };
    let bytes = encode_pdu(&Pdu::AssociateRq(rq));
    match decode_pdu(&bytes).unwrap() {
        Pdu::AssociateRq(got) => {
            assert_eq!(
                got.contexts[0].abstract_syntax,
                b"1.2.840.10008.5.1.4.1.1.2".to_vec()
            );
            assert_eq!(
                got.contexts[0].transfer_syntaxes[0],
                b"1.2.840.10008.1.2".to_vec()
            );
        }
        _ => panic!("wrong variant"),
    }
}


#[test]
fn large_pdata_round_trips() {
    // A near-maximal P-DATA-TF for a 64 KiB PDU budget.
    let big: Vec<u8> = (0..65_000u32).map(|i| (i % 255) as u8).collect();
    let values = vec![Pdv {
        context_id: 1,
        is_command: false,
        is_last: true,
        data: big.clone(),
    }];
    let bytes = encode_pdu(&Pdu::PData(values));
    assert_eq!(bytes.len(), 6 + 6 + big.len());
    match decode_pdu(&bytes).unwrap() {
        Pdu::PData(got) => {
            assert_eq!(got.len(), 1);
            assert_eq!(got[0].data, big);
        }
        _ => panic!("wrong variant"),
    }
}

#[test]
fn transfer_bookkeeping_reconstructs_chunks() {
    let mut t = dicom_transfer::receiver::DicomTransfer::new(9);
    assert_eq!(t.presentation_context_id, 9);
    assert!(!t.command_received);
    t.add_chunk(vec![1, 2, 3]);
    t.add_chunk(vec![]);
    t.add_chunk(vec![4, 5]);
    assert_eq!(t.total_bytes, 5);
    assert_eq!(t.reconstruct_dataset(), vec![1, 2, 3, 4, 5]);
}

#[test]
fn checked_encoder_refuses_ill_formed_values() {
    // Well-formed values encode as the plain encoder does.
    let p = Pdu::AssociateRq(sample_request());
    let checked = dicom_transfer::pdu::encode_pdu_checked(&p).unwrap();
    assert_eq!(checked, encode_pdu(&p));
    assert!(dicom_transfer::pdu::pdu_wf_check(&p));

    // An empty abstract syntax cannot stand in a PC-RQ item.
    let bad = Pdu::AssociateRq(AssociationRequest {
        called_ae: b"A".to_vec(),
        calling_ae: b"B".to_vec(),
        max_pdu_length: 16384,
        contexts: vec![ProposedContext {
            id: 1,
            abstract_syntax: Vec::new(),
            transfer_syntaxes: vec![b"1.2.840.10008.1.2".to_vec()],
        }],
    });
    assert!(!dicom_transfer::pdu::pdu_wf_check(&bad));
    assert!(dicom_transfer::pdu::encode_pdu_checked(&bad).is_none());

    // An AE title over its 16-byte field is refused too.
    let bad = Pdu::AssociateAc(AssociationAccept {
        called_ae: b"MUCH_TOO_LONG_AE_TITLE".to_vec(),
        calling_ae: b"B".to_vec(),
        max_pdu_length: 16384,
        contexts: vec![],
    });
    assert!(dicom_transfer::pdu::encode_pdu_checked(&bad).is_none());

    // A reject with out-of-range fields is not a well-formed PDU.
    let bad = Pdu::AssociateRj {
        result: 0,
        source: 9,
        reason: 1,
    };
    assert!(!dicom_transfer::pdu::pdu_wf_check(&bad));
}

fn discriminant_name(p: &Pdu) -> &'static str {
    match p {
        Pdu::AssociateRq(_) => "AssociateRq",
        Pdu::AssociateAc(_) => "AssociateAc",
        Pdu::AssociateRj { .. } => "AssociateRj",
        Pdu::PData(_) => "PData",
        Pdu::ReleaseRq => "ReleaseRq",
        Pdu::ReleaseRp => "ReleaseRp",
        Pdu::Abort { .. } => "Abort",
    }
}
