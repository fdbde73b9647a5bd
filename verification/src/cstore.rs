//! The C-STORE service: building and reading the command sets of C-STORE-RQ
//! and C-STORE-RSP, always encoded in Implicit VR Little Endian, and the
//! classification of response statuses.

use vstd::prelude::*;

use crate::byteorder::{
    push_u16_le, push_u32_le, read_u16_le, read_u32_le, spec_u16_le, spec_u32_le,
};
use crate::error::DicomError;
use crate::uid::{spec_pad_uid, spec_trim, spec_trimmed};

verus! {

/// Command Field value of a C-STORE-RQ.
pub const COMMAND_FIELD_C_STORE_RQ: u16 = 0x0001;

/// Command Field value of a C-STORE-RSP.
pub const COMMAND_FIELD_C_STORE_RSP: u16 = 0x8001;

/// Command Data Set Type value announcing a data set.
pub const DATA_SET_PRESENT: u16 = 0x0001;

/// Command Data Set Type value announcing none.
pub const DATA_SET_ABSENT: u16 = 0x0101;

/// The elements of a group-0000 command set that this service reads. A field
/// is `None` when its element is absent.
pub struct CommandSet {
    pub command_field: Option<u16>,
    pub message_id: Option<u16>,
    pub message_id_responded: Option<u16>,
    pub data_set_type: Option<u16>,
    pub status: Option<u16>,
    pub sop_class_uid: Option<Vec<u8>>,
    pub sop_instance_uid: Option<Vec<u8>>,
}

/// The mathematical value of a `CommandSet`.
#[verifier::ext_equal]
pub struct CommandSetView {
    pub command_field: Option<u16>,
    pub message_id: Option<u16>,
    pub message_id_responded: Option<u16>,
    pub data_set_type: Option<u16>,
    pub status: Option<u16>,
    pub sop_class_uid: Option<Seq<u8>>,
    pub sop_instance_uid: Option<Seq<u8>>,
}

impl View for CommandSet {
    type V = CommandSetView;

    open spec fn view(&self) -> CommandSetView {
        CommandSetView {
            command_field: self.command_field,
            message_id: self.message_id,
            message_id_responded: self.message_id_responded,
            data_set_type: self.data_set_type,
            status: self.status,
            sop_class_uid: match self.sop_class_uid {
                Option::Some(v) => Some(v@),
                Option::None => None,
            },
            sop_instance_uid: match self.sop_instance_uid {
                Option::Some(v) => Some(v@),
                Option::None => None,
            },
        }
    }
}

/// A command set with every element absent.
pub open spec fn spec_empty_command_set() -> CommandSetView {
    CommandSetView {
        command_field: None,
        message_id: None,
        message_id_responded: None,
        data_set_type: None,
        status: None,
        sop_class_uid: None,
        sop_instance_uid: None,
    }
}

/// One Implicit VR Little Endian element: group, element, 32-bit value
/// length, value.
pub open spec fn spec_element(group: u16, elem: u16, value: Seq<u8>) -> Seq<u8> {
    spec_u16_le(group) + spec_u16_le(elem) + spec_u32_le(value.len() as u32) + value
}

/// One element applied to the fields read so far. The earlier occurrence of
/// a tag wins; a two-byte tag with the wrong length is ignored.
pub open spec fn spec_apply_element(
    cs: CommandSetView,
    group: u16,
    elem: u16,
    value: Seq<u8>,
) -> CommandSetView {
    if group != 0u16 {
        cs
    } else if elem == 0x0100u16 && value.len() == 2 {
        CommandSetView { command_field: Some(crate::byteorder::spec_u16_from_le(value[0], value[1])), ..cs }
    } else if elem == 0x0110u16 && value.len() == 2 {
        CommandSetView { message_id: Some(crate::byteorder::spec_u16_from_le(value[0], value[1])), ..cs }
    } else if elem == 0x0120u16 && value.len() == 2 {
        CommandSetView {
            message_id_responded: Some(crate::byteorder::spec_u16_from_le(value[0], value[1])),
            ..cs
        }
    } else if elem == 0x0800u16 && value.len() == 2 {
        CommandSetView { data_set_type: Some(crate::byteorder::spec_u16_from_le(value[0], value[1])), ..cs }
    } else if elem == 0x0900u16 && value.len() == 2 {
        CommandSetView { status: Some(crate::byteorder::spec_u16_from_le(value[0], value[1])), ..cs }
    } else if elem == 0x0002u16 {
        CommandSetView { sop_class_uid: Some(spec_trim(value)), ..cs }
    } else if elem == 0x1000u16 {
        CommandSetView { sop_instance_uid: Some(spec_trim(value)), ..cs }
    } else {
        cs
    }
}

/// Parses a run of Implicit VR Little Endian elements into the fields this
/// service reads. An element that overruns the buffer makes the whole
/// command set unreadable.
pub open spec fn spec_parse_command(s: Seq<u8>) -> Option<CommandSetView>
    decreases s.len(),
{
    if s.len() == 0 {
        Some(spec_empty_command_set())
    } else if s.len() < 8 {
        None
    } else {
        let group = crate::byteorder::spec_u16_from_le(s[0], s[1]);
        let elem = crate::byteorder::spec_u16_from_le(s[2], s[3]);
        let len = crate::byteorder::spec_u32_from_le(s[4], s[5], s[6], s[7]) as int;
        if 8 + len > s.len() {
            None
        } else {
            let value = s.subrange(8, 8 + len);
            match spec_parse_command(s.subrange(8 + len, s.len() as int)) {
                None => None,
                Some(cs) => Some(spec_apply_element(cs, group, elem, value)),
            }
        }
    }
}

/// One parse step: an element followed by more bytes parses to the rest's
/// fields with this element applied on top.
pub proof fn lemma_parse_element_step(group: u16, elem: u16, value: Seq<u8>, rest: Seq<u8>)
    requires
        value.len() <= 0xFFFF_FFFF,
    ensures
        spec_parse_command(spec_element(group, elem, value) + rest) == match spec_parse_command(
            rest,
        ) {
            Option::None => None::<CommandSetView>,
            Option::Some(cs) => Some(spec_apply_element(cs, group, elem, value)),
        },
{
    let s = spec_element(group, elem, value) + rest;
    let head = spec_element(group, elem, value);
    assert(head.len() == 8 + value.len());
    crate::byteorder::lemma_u16_le_round_trip(group);
    crate::byteorder::lemma_u16_le_round_trip(elem);
    crate::byteorder::lemma_u32_le_round_trip(value.len() as u32);
    assert(s[0] == spec_u16_le(group)[0] && s[1] == spec_u16_le(group)[1]);
    assert(s[2] == spec_u16_le(elem)[0] && s[3] == spec_u16_le(elem)[1]);
    assert(s[4] == spec_u32_le(value.len() as u32)[0]);
    assert(s[5] == spec_u32_le(value.len() as u32)[1]);
    assert(s[6] == spec_u32_le(value.len() as u32)[2]);
    assert(s[7] == spec_u32_le(value.len() as u32)[3]);
    let len = crate::byteorder::spec_u32_from_le(s[4], s[5], s[6], s[7]) as int;
    assert(len == value.len());
    assert(s.subrange(8, 8 + len) =~= value);
    assert(s.subrange(8 + len, s.len() as int) =~= rest);
}

/// The command set of a C-STORE-RQ: group length, affected SOP class,
/// command field 0x0001, message id, priority medium, data set present,
/// affected SOP instance.
pub open spec fn spec_cstore_rq_elements(
    sop_class_uid: Seq<u8>,
    sop_instance_uid: Seq<u8>,
    message_id: u16,
) -> Seq<u8> {
    spec_element(0u16, 0x0002u16, spec_pad_uid(sop_class_uid)) + (spec_element(
        0u16,
        0x0100u16,
        spec_u16_le(COMMAND_FIELD_C_STORE_RQ),
    ) + (spec_element(0u16, 0x0110u16, spec_u16_le(message_id)) + (spec_element(
        0u16,
        0x0700u16,
        spec_u16_le(0u16),
    ) + (spec_element(0u16, 0x0800u16, spec_u16_le(DATA_SET_PRESENT)) + spec_element(
        0u16,
        0x1000u16,
        spec_pad_uid(sop_instance_uid),
    )))))
}

/// The full C-STORE-RQ command bytes: the group-length element, then the
/// elements it counts.
pub open spec fn spec_cstore_rq_bytes(
    sop_class_uid: Seq<u8>,
    sop_instance_uid: Seq<u8>,
    message_id: u16,
) -> Seq<u8> {
    spec_element(
        0u16,
        0u16,
        spec_u32_le(spec_cstore_rq_elements(sop_class_uid, sop_instance_uid, message_id).len() as u32),
    ) + spec_cstore_rq_elements(sop_class_uid, sop_instance_uid, message_id)
}

/// The command set of a C-STORE-RSP: group length, affected SOP class,
/// command field 0x8001, message id being responded to, data set absent,
/// status, affected SOP instance.
pub open spec fn spec_cstore_rsp_elements(
    sop_class_uid: Seq<u8>,
    sop_instance_uid: Seq<u8>,
    message_id_responded: u16,
    status: u16,
) -> Seq<u8> {
    spec_element(0u16, 0x0002u16, spec_pad_uid(sop_class_uid)) + (spec_element(
        0u16,
        0x0100u16,
        spec_u16_le(COMMAND_FIELD_C_STORE_RSP),
    ) + (spec_element(0u16, 0x0120u16, spec_u16_le(message_id_responded)) + (spec_element(
        0u16,
        0x0800u16,
        spec_u16_le(DATA_SET_ABSENT),
    ) + (spec_element(0u16, 0x0900u16, spec_u16_le(status)) + spec_element(
        0u16,
        0x1000u16,
        spec_pad_uid(sop_instance_uid),
    )))))
}

/// The full C-STORE-RSP command bytes.
pub open spec fn spec_cstore_rsp_bytes(
    sop_class_uid: Seq<u8>,
    sop_instance_uid: Seq<u8>,
    message_id_responded: u16,
    status: u16,
) -> Seq<u8> {
    spec_element(
        0u16,
        0u16,
        spec_u32_le(
            spec_cstore_rsp_elements(
                sop_class_uid,
                sop_instance_uid,
                message_id_responded,
                status,
            ).len() as u32,
        ),
    ) + spec_cstore_rsp_elements(sop_class_uid, sop_instance_uid, message_id_responded, status)
}

/// What a C-STORE-RQ command parses back to.
#[verifier::rlimit(100)]
pub proof fn lemma_parse_cstore_rq(sop_class_uid: Seq<u8>, sop_instance_uid: Seq<u8>, message_id: u16)
    requires
        spec_trimmed(sop_class_uid),
        spec_trimmed(sop_instance_uid),
        sop_class_uid.len() <= 64,
        sop_instance_uid.len() <= 64,
    ensures
        spec_parse_command(spec_cstore_rq_bytes(sop_class_uid, sop_instance_uid, message_id))
            == Some(
            CommandSetView {
                command_field: Some(COMMAND_FIELD_C_STORE_RQ),
                message_id: Some(message_id),
                message_id_responded: None,
                data_set_type: Some(DATA_SET_PRESENT),
                status: None,
                sop_class_uid: Some(sop_class_uid),
                sop_instance_uid: Some(sop_instance_uid),
            },
        ),
{
    crate::uid::lemma_trim_pad_uid(sop_class_uid);
    crate::uid::lemma_trim_pad_uid(sop_instance_uid);
    crate::byteorder::lemma_u16_le_round_trip(COMMAND_FIELD_C_STORE_RQ);
    crate::byteorder::lemma_u16_le_round_trip(message_id);
    crate::byteorder::lemma_u16_le_round_trip(0u16);
    crate::byteorder::lemma_u16_le_round_trip(DATA_SET_PRESENT);
    let e_inst = spec_element(0u16, 0x1000u16, spec_pad_uid(sop_instance_uid));
    let e_dst = spec_element(0u16, 0x0800u16, spec_u16_le(DATA_SET_PRESENT));
    let e_pri = spec_element(0u16, 0x0700u16, spec_u16_le(0u16));
    let e_mid = spec_element(0u16, 0x0110u16, spec_u16_le(message_id));
    let e_cf = spec_element(0u16, 0x0100u16, spec_u16_le(COMMAND_FIELD_C_STORE_RQ));
    let e_cls = spec_element(0u16, 0x0002u16, spec_pad_uid(sop_class_uid));
    let elements = spec_cstore_rq_elements(sop_class_uid, sop_instance_uid, message_id);
    assert(e_inst + Seq::<u8>::empty() =~= e_inst);
    lemma_parse_element_step(0u16, 0x1000u16, spec_pad_uid(sop_instance_uid), Seq::empty());
    lemma_parse_element_step(0u16, 0x0800u16, spec_u16_le(DATA_SET_PRESENT), e_inst);
    lemma_parse_element_step(0u16, 0x0700u16, spec_u16_le(0u16), e_dst + e_inst);
    lemma_parse_element_step(0u16, 0x0110u16, spec_u16_le(message_id), e_pri + (e_dst + e_inst));
    lemma_parse_element_step(
        0u16,
        0x0100u16,
        spec_u16_le(COMMAND_FIELD_C_STORE_RQ),
        e_mid + (e_pri + (e_dst + e_inst)),
    );
    lemma_parse_element_step(
        0u16,
        0x0002u16,
        spec_pad_uid(sop_class_uid),
        e_cf + (e_mid + (e_pri + (e_dst + e_inst))),
    );
    assert(elements =~= e_cls + (e_cf + (e_mid + (e_pri + (e_dst + e_inst)))));
    lemma_parse_element_step(0u16, 0u16, spec_u32_le(elements.len() as u32), elements);
}

/// What a C-STORE-RSP command parses back to.
#[verifier::rlimit(100)]
pub proof fn lemma_parse_cstore_rsp(
    sop_class_uid: Seq<u8>,
    sop_instance_uid: Seq<u8>,
    message_id_responded: u16,
    status: u16,
)
    requires
        spec_trimmed(sop_class_uid),
        spec_trimmed(sop_instance_uid),
        sop_class_uid.len() <= 64,
        sop_instance_uid.len() <= 64,
    ensures
        spec_parse_command(
            spec_cstore_rsp_bytes(sop_class_uid, sop_instance_uid, message_id_responded, status),
        ) == Some(
            CommandSetView {
                command_field: Some(COMMAND_FIELD_C_STORE_RSP),
                message_id: None,
                message_id_responded: Some(message_id_responded),
                data_set_type: Some(DATA_SET_ABSENT),
                status: Some(status),
                sop_class_uid: Some(sop_class_uid),
                sop_instance_uid: Some(sop_instance_uid),
            },
        ),
{
    crate::uid::lemma_trim_pad_uid(sop_class_uid);
    crate::uid::lemma_trim_pad_uid(sop_instance_uid);
    crate::byteorder::lemma_u16_le_round_trip(COMMAND_FIELD_C_STORE_RSP);
    crate::byteorder::lemma_u16_le_round_trip(message_id_responded);
    crate::byteorder::lemma_u16_le_round_trip(status);
    crate::byteorder::lemma_u16_le_round_trip(DATA_SET_ABSENT);
    let e_inst = spec_element(0u16, 0x1000u16, spec_pad_uid(sop_instance_uid));
    let e_st = spec_element(0u16, 0x0900u16, spec_u16_le(status));
    let e_dst = spec_element(0u16, 0x0800u16, spec_u16_le(DATA_SET_ABSENT));
    let e_mid = spec_element(0u16, 0x0120u16, spec_u16_le(message_id_responded));
    let e_cf = spec_element(0u16, 0x0100u16, spec_u16_le(COMMAND_FIELD_C_STORE_RSP));
    let e_cls = spec_element(0u16, 0x0002u16, spec_pad_uid(sop_class_uid));
    let elements = spec_cstore_rsp_elements(
        sop_class_uid,
        sop_instance_uid,
        message_id_responded,
        status,
    );
    assert(e_inst + Seq::<u8>::empty() =~= e_inst);
    lemma_parse_element_step(0u16, 0x1000u16, spec_pad_uid(sop_instance_uid), Seq::empty());
    lemma_parse_element_step(0u16, 0x0900u16, spec_u16_le(status), e_inst);
    lemma_parse_element_step(0u16, 0x0800u16, spec_u16_le(DATA_SET_ABSENT), e_st + e_inst);
    lemma_parse_element_step(
        0u16,
        0x0120u16,
        spec_u16_le(message_id_responded),
        e_dst + (e_st + e_inst),
    );
    lemma_parse_element_step(
        0u16,
        0x0100u16,
        spec_u16_le(COMMAND_FIELD_C_STORE_RSP),
        e_mid + (e_dst + (e_st + e_inst)),
    );
    lemma_parse_element_step(
        0u16,
        0x0002u16,
        spec_pad_uid(sop_class_uid),
        e_cf + (e_mid + (e_dst + (e_st + e_inst))),
    );
    assert(elements =~= e_cls + (e_cf + (e_mid + (e_dst + (e_st + e_inst)))));
    lemma_parse_element_step(0u16, 0u16, spec_u32_le(elements.len() as u32), elements);
}

/// The store's identity is echoed: the C-STORE-RSP built for a request
/// carries the request's affected SOP instance UID, and a reader of the
/// response recovers exactly that UID.
pub proof fn lemma_response_echoes_instance(
    sop_class_uid: Seq<u8>,
    sop_instance_uid: Seq<u8>,
    message_id_responded: u16,
    status: u16,
)
    requires
        spec_trimmed(sop_class_uid),
        spec_trimmed(sop_instance_uid),
        sop_class_uid.len() <= 64,
        sop_instance_uid.len() <= 64,
    ensures
        ({
            let parsed = spec_parse_command(
                spec_cstore_rsp_bytes(
                    sop_class_uid,
                    sop_instance_uid,
                    message_id_responded,
                    status,
                ),
            );
            &&& parsed is Some
            &&& parsed->0.sop_instance_uid == Some(sop_instance_uid)
            &&& parsed->0.message_id_responded == Some(message_id_responded)
            &&& parsed->0.status == Some(status)
        }),
{
    lemma_parse_cstore_rsp(sop_class_uid, sop_instance_uid, message_id_responded, status);
}

/// Appends one Implicit VR Little Endian element to `out`.
fn push_element(out: &mut Vec<u8>, group: u16, elem: u16, value: &[u8])
    requires
        value@.len() <= 0xFFFF_FFFF,
    ensures
        final(out)@ == old(out)@ + spec_element(group, elem, value@),
{
    let ghost before = out@;
    push_u16_le(out, group);
    push_u16_le(out, elem);
    push_u32_le(out, value.len() as u32);
    out.extend_from_slice(value);
    assert(out@ =~= before + spec_element(group, elem, value@));
}

/// Builds the command set of a C-STORE-RQ for one SOP instance.
pub fn encode_cstore_rq(sop_class_uid: &[u8], sop_instance_uid: &[u8], message_id: u16) -> (r:
    Vec<u8>)
    requires
        sop_class_uid@.len() <= 64,
        sop_instance_uid@.len() <= 64,
    ensures
        r@ == spec_cstore_rq_bytes(sop_class_uid@, sop_instance_uid@, message_id),
{
    let cls = crate::uid::pad_uid(sop_class_uid);
    let inst = crate::uid::pad_uid(sop_instance_uid);
    let mut elements: Vec<u8> = Vec::new();
    push_element(&mut elements, 0u16, 0x0002u16, cls.as_slice());
    let mut two: Vec<u8> = Vec::new();
    push_u16_le(&mut two, COMMAND_FIELD_C_STORE_RQ);
    push_element(&mut elements, 0u16, 0x0100u16, two.as_slice());
    let mut mid: Vec<u8> = Vec::new();
    push_u16_le(&mut mid, message_id);
    push_element(&mut elements, 0u16, 0x0110u16, mid.as_slice());
    let mut pri: Vec<u8> = Vec::new();
    push_u16_le(&mut pri, 0u16);
    push_element(&mut elements, 0u16, 0x0700u16, pri.as_slice());
    let mut dst: Vec<u8> = Vec::new();
    push_u16_le(&mut dst, DATA_SET_PRESENT);
    push_element(&mut elements, 0u16, 0x0800u16, dst.as_slice());
    push_element(&mut elements, 0u16, 0x1000u16, inst.as_slice());
    assert(elements@ =~= spec_cstore_rq_elements(
        sop_class_uid@,
        sop_instance_uid@,
        message_id,
    ));
    let mut r: Vec<u8> = Vec::new();
    let mut glen: Vec<u8> = Vec::new();
    push_u32_le(&mut glen, elements.len() as u32);
    push_element(&mut r, 0u16, 0u16, glen.as_slice());
    r.append(&mut elements);
    assert(r@ =~= spec_cstore_rq_bytes(sop_class_uid@, sop_instance_uid@, message_id));
    r
}

/// Builds the command set of a C-STORE-RSP answering one request.
pub fn encode_cstore_rsp(
    sop_class_uid: &[u8],
    sop_instance_uid: &[u8],
    message_id_responded: u16,
    status: u16,
) -> (r: Vec<u8>)
    requires
        sop_class_uid@.len() <= 64,
        sop_instance_uid@.len() <= 64,
    ensures
        r@ == spec_cstore_rsp_bytes(
            sop_class_uid@,
            sop_instance_uid@,
            message_id_responded,
            status,
        ),
{
    let cls = crate::uid::pad_uid(sop_class_uid);
    let inst = crate::uid::pad_uid(sop_instance_uid);
    let mut elements: Vec<u8> = Vec::new();
    push_element(&mut elements, 0u16, 0x0002u16, cls.as_slice());
    let mut two: Vec<u8> = Vec::new();
    push_u16_le(&mut two, COMMAND_FIELD_C_STORE_RSP);
    push_element(&mut elements, 0u16, 0x0100u16, two.as_slice());
    let mut mid: Vec<u8> = Vec::new();
    push_u16_le(&mut mid, message_id_responded);
    push_element(&mut elements, 0u16, 0x0120u16, mid.as_slice());
    let mut dst: Vec<u8> = Vec::new();
    push_u16_le(&mut dst, DATA_SET_ABSENT);
    push_element(&mut elements, 0u16, 0x0800u16, dst.as_slice());
    let mut st: Vec<u8> = Vec::new();
    push_u16_le(&mut st, status);
    push_element(&mut elements, 0u16, 0x0900u16, st.as_slice());
    push_element(&mut elements, 0u16, 0x1000u16, inst.as_slice());
    assert(elements@ =~= spec_cstore_rsp_elements(
        sop_class_uid@,
        sop_instance_uid@,
        message_id_responded,
        status,
    ));
    let mut r: Vec<u8> = Vec::new();
    let mut glen: Vec<u8> = Vec::new();
    push_u32_le(&mut glen, elements.len() as u32);
    push_element(&mut r, 0u16, 0u16, glen.as_slice());
    r.append(&mut elements);
    assert(r@ =~= spec_cstore_rsp_bytes(
        sop_class_uid@,
        sop_instance_uid@,
        message_id_responded,
        status,
    ));
    r
}

/// Reads the fields of a group-0000 command set.
pub fn parse_command(b: &[u8]) -> (r: Result<CommandSet, DicomError>)
    ensures
        match r {
            Ok(cs) => spec_parse_command(b@) == Some(cs@),
            Err(e) => spec_parse_command(b@) is None && e == DicomError::Malformed,
        },
{
    let n = b.len();
    let mut cs = CommandSet {
        command_field: None,
        message_id: None,
        message_id_responded: None,
        data_set_type: None,
        status: None,
        sop_class_uid: None,
        sop_instance_uid: None,
    };
    assert(cs@ =~= spec_empty_command_set());
    let mut i: usize = 0;
    proof {
        assert(b@.subrange(0, n as int) =~= b@);
        match spec_parse_command(b@) {
            Option::None => {},
            Option::Some(rest) => {
                assert(spec_apply_first(cs@, rest) =~= rest);
            },
        }
    }
    while i < n
        invariant
            i <= n == b@.len(),
            spec_parse_command(b@) == match spec_parse_command(
                b@.subrange(i as int, n as int),
            ) {
                Option::None => None::<CommandSetView>,
                Option::Some(rest) => Some(spec_apply_first(cs@, rest)),
            },
        decreases n - i,
    {
        let ghost suffix = b@.subrange(i as int, n as int);
        proof {
            assert(forall|k: int| 0 <= k < suffix.len() ==> suffix[k] == b@[i + k]);
        }
        if n - i < 8 {
            assert(spec_parse_command(suffix) is None);
            return Err(DicomError::Malformed);
        }
        let group = read_u16_le(b, i);
        let elem = read_u16_le(b, i + 2);
        let len32 = read_u32_le(b, i + 4);
        assert(group == crate::byteorder::spec_u16_from_le(suffix[0], suffix[1]));
        assert(elem == crate::byteorder::spec_u16_from_le(suffix[2], suffix[3]));
        assert(len32 == crate::byteorder::spec_u32_from_le(
            suffix[4],
            suffix[5],
            suffix[6],
            suffix[7],
        ));
        if (len32 as usize) > n - i - 8 {
            assert(spec_parse_command(suffix) is None);
            return Err(DicomError::Malformed);
        }
        let len = len32 as usize;
        let ghost liv = len as int;
        let ghost value = suffix.subrange(8, 8 + liv);
        proof {
            assert(value =~= b@.subrange(i + 8, i + 8 + liv));
            assert(suffix.subrange(8 + liv, suffix.len() as int) =~= b@.subrange(
                i + 8 + liv,
                n as int,
            ));
        }
        let ghost cs_before = cs@;
        if group == 0u16 {
            if elem == 0x0100u16 && len == 2 {
                if cs.command_field.is_none() {
                    cs.command_field = Some(read_u16_le(b, i + 8));
                }
            } else if elem == 0x0110u16 && len == 2 {
                if cs.message_id.is_none() {
                    cs.message_id = Some(read_u16_le(b, i + 8));
                }
            } else if elem == 0x0120u16 && len == 2 {
                if cs.message_id_responded.is_none() {
                    cs.message_id_responded = Some(read_u16_le(b, i + 8));
                }
            } else if elem == 0x0800u16 && len == 2 {
                if cs.data_set_type.is_none() {
                    cs.data_set_type = Some(read_u16_le(b, i + 8));
                }
            } else if elem == 0x0900u16 && len == 2 {
                if cs.status.is_none() {
                    cs.status = Some(read_u16_le(b, i + 8));
                }
            } else if elem == 0x0002u16 {
                if cs.sop_class_uid.is_none() {
                    cs.sop_class_uid = Some(crate::pdu::trim_bytes_range(b, i + 8, i + 8 + len));
                }
            } else if elem == 0x1000u16 {
                if cs.sop_instance_uid.is_none() {
                    cs.sop_instance_uid = Some(crate::pdu::trim_bytes_range(b, i + 8, i + 8 + len));
                }
            }
        }
        proof {
            assert(liv >= 1 ==> value[0] == b@[i + 8]);
            assert(liv >= 2 ==> value[1] == b@[i + 8 + 1]);
            match spec_parse_command(b@.subrange(i + 8 + liv, n as int)) {
                Option::None => {
                    assert(spec_parse_command(suffix) is None);
                },
                Option::Some(rest_cs) => {
                    assert(spec_parse_command(suffix) == Some(
                        spec_apply_element(rest_cs, group, elem, value),
                    ));
                    assert(spec_apply_first(cs_before, spec_apply_element(rest_cs, group, elem, value))
                        =~= spec_apply_first(cs@, rest_cs));
                },
            }
        }
        i = i + 8 + len;
    }
    assert(b@.subrange(i as int, n as int) =~= Seq::<u8>::empty());
    assert(spec_parse_command(b@.subrange(i as int, n as int)) == Some(spec_empty_command_set()));
    assert(spec_apply_first(cs@, spec_empty_command_set()) =~= cs@);
    assert(b@.subrange(0, n as int) =~= b@);
    Ok(cs)
}

/// The fields read so far laid over those an element run will yield: a field
/// already read keeps its value.
pub open spec fn spec_apply_first(sofar: CommandSetView, rest: CommandSetView) -> CommandSetView {
    CommandSetView {
        command_field: match sofar.command_field {
            Option::Some(v) => Some(v),
            Option::None => rest.command_field,
        },
        message_id: match sofar.message_id {
            Option::Some(v) => Some(v),
            Option::None => rest.message_id,
        },
        message_id_responded: match sofar.message_id_responded {
            Option::Some(v) => Some(v),
            Option::None => rest.message_id_responded,
        },
        data_set_type: match sofar.data_set_type {
            Option::Some(v) => Some(v),
            Option::None => rest.data_set_type,
        },
        status: match sofar.status {
            Option::Some(v) => Some(v),
            Option::None => rest.status,
        },
        sop_class_uid: match sofar.sop_class_uid {
            Option::Some(v) => Some(v),
            Option::None => rest.sop_class_uid,
        },
        sop_instance_uid: match sofar.sop_instance_uid {
            Option::Some(v) => Some(v),
            Option::None => rest.sop_instance_uid,
        },
    }
}

/// How a C-STORE response status is acted on: success and warning statuses
/// count the file as transferred; anything else fails it.
#[derive(Clone, Copy, Debug, PartialEq, Eq, Structural)]
pub enum StoreOutcome {
    Success,
    Warning,
    Failure,
}

/// Classifies a C-STORE response status: `0x0000` is success, `0xB0xx` is a
/// warning (counted as success), anything else a failure.
pub fn classify_status(status: u16) -> (r: StoreOutcome)
    ensures
        (r == StoreOutcome::Success) == (status == 0u16),
        (r == StoreOutcome::Warning) == (0xB000u16 <= status <= 0xB0FFu16),
        (r == StoreOutcome::Failure) == (status != 0u16 && !(0xB000u16 <= status <= 0xB0FFu16)),
{
    if status == 0u16 {
        StoreOutcome::Success
    } else if 0xB000u16 <= status && status <= 0xB0FFu16 {
        StoreOutcome::Warning
    } else {
        StoreOutcome::Failure
    }
}

/// The whole judgment of a C-STORE response against the request it should
/// answer: `Malformed` exactly when a required element (command field,
/// message id being responded to, status) is absent; `ProtocolViolation`
/// exactly when a present element does not answer this exchange (the command
/// field is not C-STORE-RSP, the echoed message id differs, or the named
/// instance differs after trimming); the status otherwise.
pub open spec fn spec_check_store_response(
    cs: CommandSetView,
    expected_message_id: u16,
    expected_instance_uid: Seq<u8>,
) -> Result<u16, DicomError> {
    match cs.command_field {
        None => Err(DicomError::Malformed),
        Some(cf) => if cf != COMMAND_FIELD_C_STORE_RSP {
            Err(DicomError::ProtocolViolation)
        } else {
            match cs.message_id_responded {
                None => Err(DicomError::Malformed),
                Some(mid) => if mid != expected_message_id {
                    Err(DicomError::ProtocolViolation)
                } else if match cs.sop_instance_uid {
                    Some(u) => spec_trim(u) != spec_trim(expected_instance_uid),
                    None => false,
                } {
                    Err(DicomError::ProtocolViolation)
                } else {
                    match cs.status {
                        None => Err(DicomError::Malformed),
                        Some(status) => Ok(status),
                    }
                },
            }
        },
    }
}

/// Validates a C-STORE response against the request it should answer, and
/// hands back its status: exactly what `spec_check_store_response` decides,
/// so success is owed whenever the response is a well-formed match.
pub fn check_store_response(
    rsp: &CommandSet,
    expected_message_id: u16,
    expected_instance_uid: &[u8],
) -> (r: Result<u16, DicomError>)
    ensures
        r == spec_check_store_response(rsp@, expected_message_id, expected_instance_uid@),
{
    match rsp.command_field {
        None => Err(DicomError::Malformed),
        Some(cf) => {
            if cf != COMMAND_FIELD_C_STORE_RSP {
                return Err(DicomError::ProtocolViolation);
            }
            match rsp.message_id_responded {
                None => Err(DicomError::Malformed),
                Some(mid) => {
                    if mid != expected_message_id {
                        return Err(DicomError::ProtocolViolation);
                    }
                    match &rsp.sop_instance_uid {
                        Some(uid) => {
                            if !crate::uid::padded_eq(uid.as_slice(), expected_instance_uid) {
                                return Err(DicomError::ProtocolViolation);
                            }
                        },
                        None => {},
                    }
                    match rsp.status {
                        None => Err(DicomError::Malformed),
                        Some(status) => Ok(status),
                    }
                },
            }
        },
    }
}

} // verus!
