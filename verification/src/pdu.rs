//! The Upper Layer PDU codec: the tagged PDU variants, their exact byte
//! layout on the wire, an encoder and a decoder, and the proof that decoding
//! inverts encoding for every well-formed PDU.
//!
//! Every PDU on the wire is `[type][reserved][u32 big-endian length][payload]`.

use vstd::prelude::*;

use crate::byteorder::{
    push_u16_be, push_u32_be, read_u16_be, read_u32_be, spec_u16_be, spec_u32_be,
};
use crate::uid::{
    pad_ae, pad_uid, spec_ae_wf, spec_pad_ae, spec_pad_uid, spec_trim, spec_uid_wf, trim_bytes,
};

verus! {

/// One Presentation Data Value: a fragment of a command or data set stream
/// within a P-DATA-TF PDU.
pub struct Pdv {
    pub context_id: u8,
    pub is_command: bool,
    pub is_last: bool,
    pub data: Vec<u8>,
}

/// The mathematical value of a `Pdv`.
#[verifier::ext_equal]
pub struct PdvView {
    pub context_id: u8,
    pub is_command: bool,
    pub is_last: bool,
    pub data: Seq<u8>,
}

impl View for Pdv {
    type V = PdvView;

    open spec fn view(&self) -> PdvView {
        PdvView {
            context_id: self.context_id,
            is_command: self.is_command,
            is_last: self.is_last,
            data: self.data@,
        }
    }
}

impl Pdv {
    /// A copy of this PDV.
    pub fn clone_pdv(&self) -> (r: Pdv)
        ensures
            r@ == self@,
    {
        let data = self.data.clone();
        assert(data@ =~= self.data@);
        Pdv {
            context_id: self.context_id,
            is_command: self.is_command,
            is_last: self.is_last,
            data,
        }
    }
}

/// A presentation context as proposed in an A-ASSOCIATE-RQ.
pub struct ProposedContext {
    pub id: u8,
    pub abstract_syntax: Vec<u8>,
    pub transfer_syntaxes: Vec<Vec<u8>>,
}

/// The mathematical value of a `ProposedContext`.
#[verifier::ext_equal]
pub struct ProposedContextView {
    pub id: u8,
    pub abstract_syntax: Seq<u8>,
    pub transfer_syntaxes: Seq<Seq<u8>>,
}

impl View for ProposedContext {
    type V = ProposedContextView;

    open spec fn view(&self) -> ProposedContextView {
        ProposedContextView {
            id: self.id,
            abstract_syntax: self.abstract_syntax@,
            transfer_syntaxes: self.transfer_syntaxes@.map_values(|v: Vec<u8>| v@),
        }
    }
}

/// A presentation context as answered in an A-ASSOCIATE-AC. The transfer
/// syntax is echoed even when `result` is not acceptance.
pub struct AcceptedContext {
    pub id: u8,
    pub result: u8,
    pub transfer_syntax: Vec<u8>,
}

/// The mathematical value of an `AcceptedContext`.
#[verifier::ext_equal]
pub struct AcceptedContextView {
    pub id: u8,
    pub result: u8,
    pub transfer_syntax: Seq<u8>,
}

impl View for AcceptedContext {
    type V = AcceptedContextView;

    open spec fn view(&self) -> AcceptedContextView {
        AcceptedContextView {
            id: self.id,
            result: self.result,
            transfer_syntax: self.transfer_syntax@,
        }
    }
}

/// The body of an A-ASSOCIATE-RQ: both AE titles (stored without their wire
/// padding), the offered maximum PDU length, and the proposed contexts.
pub struct AssociationRequest {
    pub called_ae: Vec<u8>,
    pub calling_ae: Vec<u8>,
    pub max_pdu_length: u32,
    pub contexts: Vec<ProposedContext>,
}

/// The mathematical value of an `AssociationRequest`.
#[verifier::ext_equal]
pub struct AssociationRequestView {
    pub called_ae: Seq<u8>,
    pub calling_ae: Seq<u8>,
    pub max_pdu_length: u32,
    pub contexts: Seq<ProposedContextView>,
}

impl View for AssociationRequest {
    type V = AssociationRequestView;

    open spec fn view(&self) -> AssociationRequestView {
        AssociationRequestView {
            called_ae: self.called_ae@,
            calling_ae: self.calling_ae@,
            max_pdu_length: self.max_pdu_length,
            contexts: self.contexts@.map_values(|c: ProposedContext| c@),
        }
    }
}

/// The body of an A-ASSOCIATE-AC, mirroring the request it answers.
pub struct AssociationAccept {
    pub called_ae: Vec<u8>,
    pub calling_ae: Vec<u8>,
    pub max_pdu_length: u32,
    pub contexts: Vec<AcceptedContext>,
}

/// The mathematical value of an `AssociationAccept`.
#[verifier::ext_equal]
pub struct AssociationAcceptView {
    pub called_ae: Seq<u8>,
    pub calling_ae: Seq<u8>,
    pub max_pdu_length: u32,
    pub contexts: Seq<AcceptedContextView>,
}

impl View for AssociationAccept {
    type V = AssociationAcceptView;

    open spec fn view(&self) -> AssociationAcceptView {
        AssociationAcceptView {
            called_ae: self.called_ae@,
            calling_ae: self.calling_ae@,
            max_pdu_length: self.max_pdu_length,
            contexts: self.contexts@.map_values(|c: AcceptedContext| c@),
        }
    }
}

/// One Upper Layer PDU.
pub enum Pdu {
    AssociateRq(AssociationRequest),
    AssociateAc(AssociationAccept),
    AssociateRj { result: u8, source: u8, reason: u8 },
    PData(Vec<Pdv>),
    ReleaseRq,
    ReleaseRp,
    Abort { source: u8, reason: u8 },
}

/// The mathematical value of a `Pdu`.
#[verifier::ext_equal]
pub enum PduView {
    AssociateRq(AssociationRequestView),
    AssociateAc(AssociationAcceptView),
    AssociateRj { result: u8, source: u8, reason: u8 },
    PData(Seq<PdvView>),
    ReleaseRq,
    ReleaseRp,
    Abort { source: u8, reason: u8 },
}

impl View for Pdu {
    type V = PduView;

    open spec fn view(&self) -> PduView {
        match self {
            Pdu::AssociateRq(rq) => PduView::AssociateRq(rq@),
            Pdu::AssociateAc(ac) => PduView::AssociateAc(ac@),
            Pdu::AssociateRj { result, source, reason } => PduView::AssociateRj {
                result: *result,
                source: *source,
                reason: *reason,
            },
            Pdu::PData(values) => PduView::PData(values@.map_values(|p: Pdv| p@)),
            Pdu::ReleaseRq => PduView::ReleaseRq,
            Pdu::ReleaseRp => PduView::ReleaseRp,
            Pdu::Abort { source, reason } => PduView::Abort { source: *source, reason: *reason },
        }
    }
}

/// Why a byte string failed to decode as a PDU.
#[derive(Clone, Copy, Debug, PartialEq, Eq, Structural)]
pub enum DecodeError {
    /// The buffer is shorter than a PDU header, or its length field does not
    /// match the bytes supplied.
    Framing,
    /// The type byte names no known PDU.
    UnknownPduType,
    /// The payload's internal structure is broken: an item overruns its
    /// enclosure, or a mandatory sub-item is missing.
    Malformed,
}

// ---------------------------------------------------------------------------
// Byte layout, as specification functions.
// ---------------------------------------------------------------------------

/// The concatenation of `f` applied to every element of `s`, in order.
pub open spec fn spec_concat_map<T>(s: Seq<T>, f: spec_fn(T) -> Seq<u8>) -> Seq<u8>
    decreases s.len(),
{
    if s.len() == 0 {
        Seq::empty()
    } else {
        f(s[0]) + spec_concat_map(s.drop_first(), f)
    }
}

/// Appending one element extends the concatenation on the right.
pub proof fn lemma_concat_map_snoc<T>(s: Seq<T>, x: T, f: spec_fn(T) -> Seq<u8>)
    ensures
        spec_concat_map(s.push(x), f) == spec_concat_map(s, f) + f(x),
    decreases s.len(),
{
    if s.len() == 0 {
        assert(s.push(x) =~= seq![x]);
        assert(seq![x].drop_first() =~= Seq::<T>::empty());
        assert(spec_concat_map(Seq::<T>::empty(), f) =~= Seq::<u8>::empty());
        assert(spec_concat_map(s.push(x), f) =~= f(x) + Seq::<u8>::empty());
        assert(spec_concat_map(s.push(x), f) =~= spec_concat_map(s, f) + f(x));
    } else {
        assert(s.push(x).drop_first() =~= s.drop_first().push(x));
        lemma_concat_map_snoc(s.drop_first(), x, f);
        assert(spec_concat_map(s.push(x), f) =~= spec_concat_map(s, f) + f(x));
    }
}

/// A concatenation splits at any index into the concatenation of the prefix
/// and that of the suffix.
pub proof fn lemma_concat_map_split<T>(s: Seq<T>, i: int, f: spec_fn(T) -> Seq<u8>)
    requires
        0 <= i <= s.len(),
    ensures
        spec_concat_map(s, f) == spec_concat_map(s.take(i), f) + spec_concat_map(s.skip(i), f),
    decreases i,
{
    if i == 0 {
        assert(s.take(0) =~= Seq::<T>::empty());
        assert(s.skip(0) =~= s);
        assert(spec_concat_map(s.take(0), f) =~= Seq::<u8>::empty());
        assert(spec_concat_map(s.take(0), f) + spec_concat_map(s.skip(0), f) =~= spec_concat_map(
            s,
            f,
        ));
    } else {
        let df = s.drop_first();
        lemma_concat_map_split(df, i - 1, f);
        assert(df.take(i - 1) =~= s.take(i).drop_first());
        assert(df.skip(i - 1) =~= s.skip(i));
        assert(s.take(i)[0] == s[0]);
        assert(spec_concat_map(s.take(i), f) == f(s[0]) + spec_concat_map(
            s.take(i).drop_first(),
            f,
        ));
        assert(spec_concat_map(s, f) =~= spec_concat_map(s.take(i), f) + spec_concat_map(
            s.skip(i),
            f,
        ));
    }
}

/// A prefix of a concatenation is never longer than the whole.
pub proof fn lemma_concat_map_take_le<T>(s: Seq<T>, i: int, f: spec_fn(T) -> Seq<u8>)
    requires
        0 <= i <= s.len(),
    ensures
        spec_concat_map(s.take(i), f).len() <= spec_concat_map(s, f).len(),
{
    lemma_concat_map_split(s, i, f);
}

/// A variable item holding one UID, padded to even length: the layout shared
/// by the application-context (0x10), abstract-syntax (0x30) and
/// transfer-syntax (0x40) items.
pub open spec fn spec_uid_item(item_type: u8, uid: Seq<u8>) -> Seq<u8> {
    seq![item_type, 0u8] + spec_u16_be(spec_pad_uid(uid).len() as u16) + spec_pad_uid(uid)
}

/// The transfer-syntax sub-items of a proposed context, in order.
pub open spec fn spec_ts_items(tss: Seq<Seq<u8>>) -> Seq<u8> {
    spec_concat_map(tss, |u: Seq<u8>| spec_uid_item(0x40u8, u))
}

/// The content of a PC-RQ item: id, three reserved bytes, the abstract-syntax
/// sub-item, then one transfer-syntax sub-item per offered syntax.
pub open spec fn spec_pc_rq_content(pc: ProposedContextView) -> Seq<u8> {
    seq![pc.id, 0u8, 0u8, 0u8] + spec_uid_item(0x30u8, pc.abstract_syntax) + spec_ts_items(
        pc.transfer_syntaxes,
    )
}

/// A full PC-RQ item (type 0x20) with its header.
pub open spec fn spec_pc_rq_item(pc: ProposedContextView) -> Seq<u8> {
    seq![0x20u8, 0u8] + spec_u16_be(spec_pc_rq_content(pc).len() as u16) + spec_pc_rq_content(pc)
}

/// The content of a PC-AC item: id, reserved, result, reserved, then exactly
/// one transfer-syntax sub-item.
pub open spec fn spec_pc_ac_content(c: AcceptedContextView) -> Seq<u8> {
    seq![c.id, 0u8, c.result, 0u8] + spec_uid_item(0x40u8, c.transfer_syntax)
}

/// A full PC-AC item (type 0x21) with its header.
pub open spec fn spec_pc_ac_item(c: AcceptedContextView) -> Seq<u8> {
    seq![0x21u8, 0u8] + spec_u16_be(spec_pc_ac_content(c).len() as u16) + spec_pc_ac_content(c)
}

/// All PC-RQ items of a request, in order.
pub open spec fn spec_pc_rq_items(pcs: Seq<ProposedContextView>) -> Seq<u8> {
    spec_concat_map(pcs, |pc: ProposedContextView| spec_pc_rq_item(pc))
}

/// All PC-AC items of an accept, in order.
pub open spec fn spec_pc_ac_items(cs: Seq<AcceptedContextView>) -> Seq<u8> {
    spec_concat_map(cs, |c: AcceptedContextView| spec_pc_ac_item(c))
}

/// The DICOM application context UID, `1.2.840.10008.3.1.1.1`, as bytes.
pub open spec fn spec_app_context_uid() -> Seq<u8> {
    seq![
        0x31u8, 0x2eu8, 0x32u8, 0x2eu8, 0x38u8, 0x34u8, 0x30u8, 0x2eu8, 0x31u8, 0x30u8, 0x30u8,
        0x30u8, 0x38u8, 0x2eu8, 0x33u8, 0x2eu8, 0x31u8, 0x2eu8, 0x31u8, 0x2eu8, 0x31u8,
    ]
}

/// The application-context item every association PDU opens its variable
/// items with.
pub open spec fn spec_app_context_item() -> Seq<u8> {
    spec_uid_item(0x10u8, spec_app_context_uid())
}

/// The user-information item (0x50) carrying the maximum-length sub-item
/// (0x51) with the sender's maximum PDU length.
pub open spec fn spec_user_info_item(max_pdu_length: u32) -> Seq<u8> {
    seq![0x50u8, 0u8] + spec_u16_be(8u16) + seq![0x51u8, 0u8] + spec_u16_be(4u16) + spec_u32_be(
        max_pdu_length,
    )
}

/// The fixed 68-byte head of an association request or accept payload:
/// protocol version 1, two reserved bytes, both AE titles space-padded to 16
/// bytes, then 32 reserved zero bytes.
pub open spec fn spec_assoc_fixed(called_ae: Seq<u8>, calling_ae: Seq<u8>) -> Seq<u8> {
    spec_u16_be(1u16) + spec_u16_be(0u16) + spec_pad_ae(called_ae) + spec_pad_ae(calling_ae)
        + Seq::new(32, |i: int| 0u8)
}

/// The payload of an A-ASSOCIATE-RQ.
pub open spec fn spec_associate_rq_payload(v: AssociationRequestView) -> Seq<u8> {
    spec_assoc_fixed(v.called_ae, v.calling_ae) + spec_app_context_item() + spec_pc_rq_items(
        v.contexts,
    ) + spec_user_info_item(v.max_pdu_length)
}

/// The payload of an A-ASSOCIATE-AC.
pub open spec fn spec_associate_ac_payload(v: AssociationAcceptView) -> Seq<u8> {
    spec_assoc_fixed(v.called_ae, v.calling_ae) + spec_app_context_item() + spec_pc_ac_items(
        v.contexts,
    ) + spec_user_info_item(v.max_pdu_length)
}

/// The message-control byte of a PDV: bit 0 set for a command fragment, bit 1
/// set on the final fragment of its stream.
pub open spec fn spec_pdv_control(is_command: bool, is_last: bool) -> u8 {
    ((if is_command {
        1u8
    } else {
        0u8
    }) + (if is_last {
        2u8
    } else {
        0u8
    })) as u8
}

/// One PDV on the wire: a length covering context id, control byte and data,
/// then those three.
pub open spec fn spec_pdv(p: PdvView) -> Seq<u8> {
    spec_u32_be((p.data.len() + 2) as u32) + seq![
        p.context_id,
        spec_pdv_control(p.is_command, p.is_last),
    ] + p.data
}

/// The payload of a P-DATA-TF: its PDVs, back to back.
pub open spec fn spec_pdvs(ps: Seq<PdvView>) -> Seq<u8> {
    spec_concat_map(ps, |p: PdvView| spec_pdv(p))
}

/// The type byte of each PDU variant.
pub open spec fn spec_pdu_type(v: PduView) -> u8 {
    match v {
        PduView::AssociateRq(_) => 0x01u8,
        PduView::AssociateAc(_) => 0x02u8,
        PduView::AssociateRj { .. } => 0x03u8,
        PduView::PData(_) => 0x04u8,
        PduView::ReleaseRq => 0x05u8,
        PduView::ReleaseRp => 0x06u8,
        PduView::Abort { .. } => 0x07u8,
    }
}

/// The payload of each PDU variant.
pub open spec fn spec_pdu_payload(v: PduView) -> Seq<u8> {
    match v {
        PduView::AssociateRq(rq) => spec_associate_rq_payload(rq),
        PduView::AssociateAc(ac) => spec_associate_ac_payload(ac),
        PduView::AssociateRj { result, source, reason } => seq![0u8, result, source, reason],
        PduView::PData(ps) => spec_pdvs(ps),
        PduView::ReleaseRq => seq![0u8, 0u8, 0u8, 0u8],
        PduView::ReleaseRp => seq![0u8, 0u8, 0u8, 0u8],
        PduView::Abort { source, reason } => seq![0u8, 0u8, source, reason],
    }
}

/// A whole PDU on the wire: type byte, reserved byte, big-endian length, then
/// the payload that length covers.
pub open spec fn spec_encode_pdu(v: PduView) -> Seq<u8> {
    seq![spec_pdu_type(v), 0u8] + spec_u32_be(spec_pdu_payload(v).len() as u32) + spec_pdu_payload(
        v,
    )
}

// ---------------------------------------------------------------------------
// Well-formedness: the values the encoder accepts, and the wire can carry.
// ---------------------------------------------------------------------------

/// A proposed context the wire can carry: well-formed UIDs, at least one
/// transfer syntax, and a content that fits its 16-bit item length.
pub open spec fn spec_pc_rq_wf(pc: ProposedContextView) -> bool {
    &&& spec_uid_wf(pc.abstract_syntax)
    &&& pc.transfer_syntaxes.len() >= 1
    &&& forall|i: int|
        0 <= i < pc.transfer_syntaxes.len() ==> spec_uid_wf(#[trigger] pc.transfer_syntaxes[i])
    &&& spec_pc_rq_content(pc).len() <= 0xFFFF
}

/// An answered context the wire can carry.
pub open spec fn spec_pc_ac_wf(c: AcceptedContextView) -> bool {
    &&& c.result <= 4
    &&& spec_uid_wf(c.transfer_syntax)
}

/// A well-formed association request: AE titles within their fields, every
/// context well-formed, and a payload whose length fits the PDU header.
pub open spec fn spec_associate_rq_wf(v: AssociationRequestView) -> bool {
    &&& spec_ae_wf(v.called_ae)
    &&& spec_ae_wf(v.calling_ae)
    &&& forall|i: int| 0 <= i < v.contexts.len() ==> spec_pc_rq_wf(#[trigger] v.contexts[i])
    &&& spec_associate_rq_payload(v).len() <= 0xFFFF_FFFF
}

/// A well-formed association accept.
pub open spec fn spec_associate_ac_wf(v: AssociationAcceptView) -> bool {
    &&& spec_ae_wf(v.called_ae)
    &&& spec_ae_wf(v.calling_ae)
    &&& forall|i: int| 0 <= i < v.contexts.len() ==> spec_pc_ac_wf(#[trigger] v.contexts[i])
    &&& spec_associate_ac_payload(v).len() <= 0xFFFF_FFFF
}

/// A PDV whose length field fits its 32 bits.
pub open spec fn spec_pdv_wf(p: PdvView) -> bool {
    p.data.len() + 6 <= 0xFFFF_FFFF
}

/// A well-formed PDU: the values the encoder accepts. Everything the decoder
/// hands back satisfies this.
pub open spec fn spec_pdu_wf(v: PduView) -> bool {
    match v {
        PduView::AssociateRq(rq) => spec_associate_rq_wf(rq),
        PduView::AssociateAc(ac) => spec_associate_ac_wf(ac),
        PduView::AssociateRj { result, source, reason } => 1 <= result <= 2 && 1 <= source <= 3,
        PduView::PData(ps) => {
            &&& forall|i: int| 0 <= i < ps.len() ==> spec_pdv_wf(#[trigger] ps[i])
            &&& spec_pdvs(ps).len() <= 0xFFFF_FFFF
        },
        PduView::ReleaseRq => true,
        PduView::ReleaseRp => true,
        PduView::Abort { .. } => true,
    }
}

// ---------------------------------------------------------------------------
// The encoder.
// ---------------------------------------------------------------------------

/// Encodes one UID-bearing variable item.
fn encode_uid_item(item_type: u8, uid: &[u8]) -> (r: Vec<u8>)
    requires
        spec_pad_uid(uid@).len() <= 0xFFFF,
    ensures
        r@ == spec_uid_item(item_type, uid@),
{
    let padded = pad_uid(uid);
    let mut r: Vec<u8> = Vec::new();
    r.push(item_type);
    r.push(0u8);
    assert(r@ =~= seq![item_type, 0u8]);
    push_u16_be(&mut r, padded.len() as u16);
    r.extend_from_slice(padded.as_slice());
    assert(r@ =~= spec_uid_item(item_type, uid@));
    r
}

/// Encodes the content of a PC-RQ item.
fn encode_pc_rq_content(pc: &ProposedContext) -> (r: Vec<u8>)
    requires
        spec_pc_rq_wf(pc@),
    ensures
        r@ == spec_pc_rq_content(pc@),
{
    let mut r: Vec<u8> = Vec::new();
    r.push(pc.id);
    r.push(0u8);
    r.push(0u8);
    r.push(0u8);
    assert(r@ =~= seq![pc@.id, 0u8, 0u8, 0u8]);
    let mut abs_item = encode_uid_item(0x30u8, pc.abstract_syntax.as_slice());
    r.append(&mut abs_item);
    let ghost head = seq![pc@.id, 0u8, 0u8, 0u8] + spec_uid_item(0x30u8, pc@.abstract_syntax);
    let ghost tss = pc@.transfer_syntaxes;
    let n = pc.transfer_syntaxes.len();
    let mut i: usize = 0;
    assert(tss.take(0) =~= Seq::<Seq<u8>>::empty());
    assert(r@ =~= head + spec_ts_items(tss.take(0)));
    while i < n
        invariant
            n == pc.transfer_syntaxes@.len(),
            tss == pc@.transfer_syntaxes,
            head == seq![pc@.id, 0u8, 0u8, 0u8] + spec_uid_item(0x30u8, pc@.abstract_syntax),
            spec_pc_rq_wf(pc@),
            i <= n,
            r@ == head + spec_ts_items(tss.take(i as int)),
        decreases n - i,
    {
        assert(tss[i as int] == pc.transfer_syntaxes@[i as int]@);
        assert(spec_uid_wf(tss[i as int]));
        let mut item = encode_uid_item(0x40u8, pc.transfer_syntaxes[i].as_slice());
        r.append(&mut item);
        proof {
            lemma_concat_map_snoc(
                tss.take(i as int),
                tss[i as int],
                |u: Seq<u8>| spec_uid_item(0x40u8, u),
            );
            assert(tss.take(i + 1) =~= tss.take(i as int).push(tss[i as int]));
        }
        i = i + 1;
    }
    assert(tss.take(n as int) =~= tss);
    r
}

/// Encodes a full PC-RQ item.
fn encode_pc_rq_item(pc: &ProposedContext) -> (r: Vec<u8>)
    requires
        spec_pc_rq_wf(pc@),
    ensures
        r@ == spec_pc_rq_item(pc@),
{
    let mut content = encode_pc_rq_content(pc);
    let mut r: Vec<u8> = Vec::new();
    r.push(0x20u8);
    r.push(0u8);
    assert(r@ =~= seq![0x20u8, 0u8]);
    push_u16_be(&mut r, content.len() as u16);
    r.append(&mut content);
    assert(r@ =~= spec_pc_rq_item(pc@));
    r
}

/// Encodes a full PC-AC item.
fn encode_pc_ac_item(c: &AcceptedContext) -> (r: Vec<u8>)
    requires
        spec_pc_ac_wf(c@),
    ensures
        r@ == spec_pc_ac_item(c@),
{
    let mut content: Vec<u8> = Vec::new();
    content.push(c.id);
    content.push(0u8);
    content.push(c.result);
    content.push(0u8);
    assert(content@ =~= seq![c@.id, 0u8, c@.result, 0u8]);
    let mut ts_item = encode_uid_item(0x40u8, c.transfer_syntax.as_slice());
    content.append(&mut ts_item);
    assert(content@ =~= spec_pc_ac_content(c@));
    let mut r: Vec<u8> = Vec::new();
    r.push(0x21u8);
    r.push(0u8);
    assert(r@ =~= seq![0x21u8, 0u8]);
    push_u16_be(&mut r, content.len() as u16);
    r.append(&mut content);
    assert(r@ =~= spec_pc_ac_item(c@));
    r
}

/// Encodes the user-information item with the maximum-length sub-item.
fn encode_user_info_item(max_pdu_length: u32) -> (r: Vec<u8>)
    ensures
        r@ == spec_user_info_item(max_pdu_length),
{
    let mut r: Vec<u8> = Vec::new();
    r.push(0x50u8);
    r.push(0u8);
    assert(r@ =~= seq![0x50u8, 0u8]);
    push_u16_be(&mut r, 8u16);
    r.push(0x51u8);
    r.push(0u8);
    push_u16_be(&mut r, 4u16);
    push_u32_be(&mut r, max_pdu_length);
    assert(r@ =~= spec_user_info_item(max_pdu_length));
    r
}

/// Encodes the fixed 68-byte head shared by A-ASSOCIATE-RQ and -AC payloads.
fn encode_assoc_fixed(called_ae: &[u8], calling_ae: &[u8]) -> (r: Vec<u8>)
    requires
        called_ae@.len() <= 16,
        calling_ae@.len() <= 16,
    ensures
        r@ == spec_assoc_fixed(called_ae@, calling_ae@),
{
    let mut r: Vec<u8> = Vec::new();
    push_u16_be(&mut r, 1u16);
    push_u16_be(&mut r, 0u16);
    let mut called = pad_ae(called_ae);
    r.append(&mut called);
    let mut calling = pad_ae(calling_ae);
    r.append(&mut calling);
    let mut i: usize = 0;
    let ghost before = r@;
    while i < 32
        invariant
            i <= 32,
            r@ == before + Seq::new(i as nat, |j: int| 0u8),
        decreases 32 - i,
    {
        r.push(0u8);
        proof {
            assert(Seq::new((i + 1) as nat, |j: int| 0u8) =~= Seq::new(i as nat, |j: int| 0u8)
                + seq![0u8]);
        }
        assert(r@ =~= before + Seq::new((i + 1) as nat, |j: int| 0u8));
        i = i + 1;
    }
    assert(r@ =~= spec_assoc_fixed(called_ae@, calling_ae@));
    r
}

/// Encodes the application-context item.
fn encode_app_context_item() -> (r: Vec<u8>)
    ensures
        r@ == spec_app_context_item(),
{
    let uid: Vec<u8> = vec![
        0x31u8, 0x2eu8, 0x32u8, 0x2eu8, 0x38u8, 0x34u8, 0x30u8, 0x2eu8, 0x31u8, 0x30u8, 0x30u8,
        0x30u8, 0x38u8, 0x2eu8, 0x33u8, 0x2eu8, 0x31u8, 0x2eu8, 0x31u8, 0x2eu8, 0x31u8,
    ];
    assert(uid@ =~= spec_app_context_uid());
    encode_uid_item(0x10u8, uid.as_slice())
}

/// Encodes the payload of an A-ASSOCIATE-RQ.
fn encode_associate_rq_payload(rq: &AssociationRequest) -> (r: Vec<u8>)
    requires
        spec_associate_rq_wf(rq@),
    ensures
        r@ == spec_associate_rq_payload(rq@),
{
    let mut r = encode_assoc_fixed(rq.called_ae.as_slice(), rq.calling_ae.as_slice());
    let mut app = encode_app_context_item();
    r.append(&mut app);
    let ghost head = spec_assoc_fixed(rq@.called_ae, rq@.calling_ae) + spec_app_context_item();
    let ghost pcs = rq@.contexts;
    let n = rq.contexts.len();
    let mut i: usize = 0;
    assert(pcs.take(0) =~= Seq::<ProposedContextView>::empty());
    assert(r@ =~= head + spec_pc_rq_items(pcs.take(0)));
    while i < n
        invariant
            n == rq.contexts@.len(),
            pcs == rq@.contexts,
            head == spec_assoc_fixed(rq@.called_ae, rq@.calling_ae) + spec_app_context_item(),
            spec_associate_rq_wf(rq@),
            i <= n,
            r@ == head + spec_pc_rq_items(pcs.take(i as int)),
        decreases n - i,
    {
        assert(pcs[i as int] == rq.contexts@[i as int]@);
        assert(spec_pc_rq_wf(pcs[i as int]));
        let mut item = encode_pc_rq_item(&rq.contexts[i]);
        r.append(&mut item);
        proof {
            lemma_concat_map_snoc(
                pcs.take(i as int),
                pcs[i as int],
                |pc: ProposedContextView| spec_pc_rq_item(pc),
            );
            assert(pcs.take(i + 1) =~= pcs.take(i as int).push(pcs[i as int]));
        }
        i = i + 1;
    }
    assert(pcs.take(n as int) =~= pcs);
    let mut user = encode_user_info_item(rq.max_pdu_length);
    r.append(&mut user);
    assert(r@ =~= spec_associate_rq_payload(rq@));
    r
}

/// Encodes the payload of an A-ASSOCIATE-AC.
fn encode_associate_ac_payload(ac: &AssociationAccept) -> (r: Vec<u8>)
    requires
        spec_associate_ac_wf(ac@),
    ensures
        r@ == spec_associate_ac_payload(ac@),
{
    let mut r = encode_assoc_fixed(ac.called_ae.as_slice(), ac.calling_ae.as_slice());
    let mut app = encode_app_context_item();
    r.append(&mut app);
    let ghost head = spec_assoc_fixed(ac@.called_ae, ac@.calling_ae) + spec_app_context_item();
    let ghost cs = ac@.contexts;
    let n = ac.contexts.len();
    let mut i: usize = 0;
    assert(cs.take(0) =~= Seq::<AcceptedContextView>::empty());
    assert(r@ =~= head + spec_pc_ac_items(cs.take(0)));
    while i < n
        invariant
            n == ac.contexts@.len(),
            cs == ac@.contexts,
            head == spec_assoc_fixed(ac@.called_ae, ac@.calling_ae) + spec_app_context_item(),
            spec_associate_ac_wf(ac@),
            i <= n,
            r@ == head + spec_pc_ac_items(cs.take(i as int)),
        decreases n - i,
    {
        assert(cs[i as int] == ac.contexts@[i as int]@);
        assert(spec_pc_ac_wf(cs[i as int]));
        let mut item = encode_pc_ac_item(&ac.contexts[i]);
        r.append(&mut item);
        proof {
            lemma_concat_map_snoc(
                cs.take(i as int),
                cs[i as int],
                |c: AcceptedContextView| spec_pc_ac_item(c),
            );
            assert(cs.take(i + 1) =~= cs.take(i as int).push(cs[i as int]));
        }
        i = i + 1;
    }
    assert(cs.take(n as int) =~= cs);
    let mut user = encode_user_info_item(ac.max_pdu_length);
    r.append(&mut user);
    assert(r@ =~= spec_associate_ac_payload(ac@));
    r
}

/// Encodes the payload of a P-DATA-TF: every PDV, back to back.
fn encode_pdvs(values: &Vec<Pdv>) -> (r: Vec<u8>)
    requires
        forall|i: int| 0 <= i < values@.len() ==> spec_pdv_wf(#[trigger] values@[i]@),
    ensures
        r@ == spec_pdvs(values@.map_values(|p: Pdv| p@)),
{
    let ghost ps = values@.map_values(|p: Pdv| p@);
    let mut r: Vec<u8> = Vec::new();
    let n = values.len();
    let mut i: usize = 0;
    assert(ps.take(0) =~= Seq::<PdvView>::empty());
    assert(r@ =~= spec_pdvs(ps.take(0)));
    while i < n
        invariant
            n == values@.len(),
            ps == values@.map_values(|p: Pdv| p@),
            forall|j: int| 0 <= j < values@.len() ==> spec_pdv_wf(#[trigger] values@[j]@),
            i <= n,
            r@ == spec_pdvs(ps.take(i as int)),
        decreases n - i,
    {
        let pdv = &values[i];
        assert(ps[i as int] == values@[i as int]@);
        assert(spec_pdv_wf(ps[i as int]));
        let data_len = pdv.data.len();
        push_u32_be(&mut r, (data_len + 2) as u32);
        r.push(pdv.context_id);
        let control: u8 = (if pdv.is_command {
            1u8
        } else {
            0u8
        }) + (if pdv.is_last {
            2u8
        } else {
            0u8
        });
        r.push(control);
        r.extend_from_slice(pdv.data.as_slice());
        proof {
            lemma_concat_map_snoc(ps.take(i as int), ps[i as int], |p: PdvView| spec_pdv(p));
            assert(ps.take(i + 1) =~= ps.take(i as int).push(ps[i as int]));
            assert(r@ =~= spec_pdvs(ps.take(i + 1)));
        }
        i = i + 1;
    }
    assert(ps.take(n as int) =~= ps);
    r
}

/// Encodes one PDU for the wire: the six-byte header, then the payload.
pub fn encode_pdu(p: &Pdu) -> (r: Vec<u8>)
    requires
        spec_pdu_wf(p@),
    ensures
        r@ == spec_encode_pdu(p@),
{
    let (pdu_type, mut payload): (u8, Vec<u8>) = match p {
        Pdu::AssociateRq(rq) => (0x01u8, encode_associate_rq_payload(rq)),
        Pdu::AssociateAc(ac) => (0x02u8, encode_associate_ac_payload(ac)),
        Pdu::AssociateRj { result, source, reason } => {
            let v: Vec<u8> = vec![0u8, *result, *source, *reason];
            (0x03u8, v)
        },
        Pdu::PData(values) => {
            proof {
                let ps = values@.map_values(|p: Pdv| p@);
                assert(forall|i: int|
                    0 <= i < values@.len() ==> #[trigger] values@[i]@ == ps[i]);
            }
            (0x04u8, encode_pdvs(values))
        },
        Pdu::ReleaseRq => {
            let v: Vec<u8> = vec![0u8, 0u8, 0u8, 0u8];
            (0x05u8, v)
        },
        Pdu::ReleaseRp => {
            let v: Vec<u8> = vec![0u8, 0u8, 0u8, 0u8];
            (0x06u8, v)
        },
        Pdu::Abort { source, reason } => {
            let v: Vec<u8> = vec![0u8, 0u8, *source, *reason];
            (0x07u8, v)
        },
    };
    assert(pdu_type == spec_pdu_type(p@));
    assert(payload@ == spec_pdu_payload(p@));
    let mut r: Vec<u8> = Vec::new();
    r.push(pdu_type);
    r.push(0u8);
    assert(r@ =~= seq![spec_pdu_type(p@), 0u8]);
    push_u32_be(&mut r, payload.len() as u32);
    r.append(&mut payload);
    assert(r@ =~= spec_encode_pdu(p@));
    r
}

// ---------------------------------------------------------------------------
// The decoder, as specification functions.
// ---------------------------------------------------------------------------

/// The maximum PDU length assumed for a peer that offers none.
pub const DEFAULT_MAX_PDU_LENGTH: u32 = 16384;

/// Parses the payload of a P-DATA-TF into its PDVs.
pub open spec fn spec_parse_pdvs(s: Seq<u8>) -> Option<Seq<PdvView>>
    decreases s.len(),
{
    if s.len() == 0 {
        Some(Seq::empty())
    } else if s.len() < 6 {
        None
    } else {
        let len = crate::byteorder::spec_u32_from_be(s[0], s[1], s[2], s[3]) as int;
        if len < 2 || 4 + len > s.len() {
            None
        } else {
            let control = s[5];
            let pdv = PdvView {
                context_id: s[4],
                is_command: control % 2 == 1,
                is_last: (control / 2) % 2 == 1,
                data: s.subrange(6, 4 + len),
            };
            match spec_parse_pdvs(s.subrange(4 + len, s.len() as int)) {
                None => None,
                Some(tail) => Some(seq![pdv] + tail),
            }
        }
    }
}

/// Parses the sub-items of a presentation-context item, collecting the
/// abstract syntax (first 0x30 wins) and the transfer syntaxes in order.
/// UID values are stripped of their padding. Unknown sub-items are skipped.
pub open spec fn spec_parse_pc_sub_items(s: Seq<u8>) -> Option<(Option<Seq<u8>>, Seq<Seq<u8>>)>
    decreases s.len(),
{
    if s.len() == 0 {
        Some((None, Seq::empty()))
    } else if s.len() < 4 {
        None
    } else {
        let sub_len = crate::byteorder::spec_u16_from_be(s[2], s[3]) as int;
        if 4 + sub_len > s.len() {
            None
        } else {
            let content = s.subrange(4, 4 + sub_len);
            match spec_parse_pc_sub_items(s.subrange(4 + sub_len, s.len() as int)) {
                None => None,
                Some((abs, tss)) => if s[0] == 0x30 {
                    Some((Some(spec_trim(content)), tss))
                } else if s[0] == 0x40 {
                    Some((abs, seq![spec_trim(content)] + tss))
                } else {
                    Some((abs, tss))
                },
            }
        }
    }
}

/// Parses the content of a PC-RQ item: id, three reserved bytes, then the
/// sub-items, which must include an abstract syntax and a transfer syntax.
pub open spec fn spec_parse_pc_rq_content(c: Seq<u8>) -> Option<ProposedContextView> {
    if c.len() < 4 {
        None
    } else {
        match spec_parse_pc_sub_items(c.subrange(4, c.len() as int)) {
            None => None,
            Some((abs, tss)) => match abs {
                None => None,
                Some(abstract_syntax) => if tss.len() >= 1 {
                    Some(ProposedContextView { id: c[0], abstract_syntax, transfer_syntaxes: tss })
                } else {
                    None
                },
            },
        }
    }
}

/// Parses the content of a PC-AC item: id, reserved, result, reserved, then
/// the sub-items, of which the first transfer syntax is taken.
pub open spec fn spec_parse_pc_ac_content(c: Seq<u8>) -> Option<AcceptedContextView> {
    if c.len() < 4 {
        None
    } else {
        match spec_parse_pc_sub_items(c.subrange(4, c.len() as int)) {
            None => None,
            Some((_abs, tss)) => if tss.len() >= 1 {
                Some(AcceptedContextView { id: c[0], result: c[2], transfer_syntax: tss[0] })
            } else {
                None
            },
        }
    }
}

/// Scans a user-information item for the first maximum-length sub-item.
pub open spec fn spec_parse_user_info(s: Seq<u8>) -> Option<u32>
    decreases s.len(),
{
    if s.len() < 4 {
        None
    } else {
        let sub_len = crate::byteorder::spec_u16_from_be(s[2], s[3]) as int;
        if 4 + sub_len > s.len() {
            None
        } else if s[0] == 0x51 && sub_len == 4 {
            Some(crate::byteorder::spec_u32_from_be(s[4], s[5], s[6], s[7]))
        } else {
            spec_parse_user_info(s.subrange(4 + sub_len, s.len() as int))
        }
    }
}

/// Walks the variable items of an A-ASSOCIATE-RQ payload: collects the PC-RQ
/// items in order and the first maximum length offered; skips anything else.
pub open spec fn spec_parse_rq_items(s: Seq<u8>) -> Option<
    (Seq<ProposedContextView>, Option<u32>),
>
    decreases s.len(),
{
    if s.len() == 0 {
        Some((Seq::empty(), None))
    } else if s.len() < 4 {
        None
    } else {
        let item_len = crate::byteorder::spec_u16_from_be(s[2], s[3]) as int;
        if 4 + item_len > s.len() {
            None
        } else {
            let content = s.subrange(4, 4 + item_len);
            match spec_parse_rq_items(s.subrange(4 + item_len, s.len() as int)) {
                None => None,
                Some((pcs, maxlen)) => if s[0] == 0x20 {
                    match spec_parse_pc_rq_content(content) {
                        None => None,
                        Some(pc) => Some((seq![pc] + pcs, maxlen)),
                    }
                } else if s[0] == 0x50 {
                    match spec_parse_user_info(content) {
                        None => Some((pcs, maxlen)),
                        Some(m) => Some((pcs, Some(m))),
                    }
                } else {
                    Some((pcs, maxlen))
                },
            }
        }
    }
}

/// Walks the variable items of an A-ASSOCIATE-AC payload.
pub open spec fn spec_parse_ac_items(s: Seq<u8>) -> Option<
    (Seq<AcceptedContextView>, Option<u32>),
>
    decreases s.len(),
{
    if s.len() == 0 {
        Some((Seq::empty(), None))
    } else if s.len() < 4 {
        None
    } else {
        let item_len = crate::byteorder::spec_u16_from_be(s[2], s[3]) as int;
        if 4 + item_len > s.len() {
            None
        } else {
            let content = s.subrange(4, 4 + item_len);
            match spec_parse_ac_items(s.subrange(4 + item_len, s.len() as int)) {
                None => None,
                Some((cs, maxlen)) => if s[0] == 0x21 {
                    match spec_parse_pc_ac_content(content) {
                        None => None,
                        Some(c) => Some((seq![c] + cs, maxlen)),
                    }
                } else if s[0] == 0x50 {
                    match spec_parse_user_info(content) {
                        None => Some((cs, maxlen)),
                        Some(m) => Some((cs, Some(m))),
                    }
                } else {
                    Some((cs, maxlen))
                },
            }
        }
    }
}

/// Parses an A-ASSOCIATE-RQ payload: the fixed head with both AE titles
/// (trimmed of their field padding), then the variable items.
pub open spec fn spec_parse_associate_rq(s: Seq<u8>) -> Option<AssociationRequestView> {
    if s.len() < 68 {
        None
    } else {
        match spec_parse_rq_items(s.subrange(68, s.len() as int)) {
            None => None,
            Some((pcs, maxlen)) => Some(
                AssociationRequestView {
                    called_ae: spec_trim(s.subrange(4, 20)),
                    calling_ae: spec_trim(s.subrange(20, 36)),
                    max_pdu_length: match maxlen {
                        Some(m) => m,
                        None => DEFAULT_MAX_PDU_LENGTH,
                    },
                    contexts: pcs,
                },
            ),
        }
    }
}

/// Parses an A-ASSOCIATE-AC payload.
pub open spec fn spec_parse_associate_ac(s: Seq<u8>) -> Option<AssociationAcceptView> {
    if s.len() < 68 {
        None
    } else {
        match spec_parse_ac_items(s.subrange(68, s.len() as int)) {
            None => None,
            Some((cs, maxlen)) => Some(
                AssociationAcceptView {
                    called_ae: spec_trim(s.subrange(4, 20)),
                    calling_ae: spec_trim(s.subrange(20, 36)),
                    max_pdu_length: match maxlen {
                        Some(m) => m,
                        None => DEFAULT_MAX_PDU_LENGTH,
                    },
                    contexts: cs,
                },
            ),
        }
    }
}

/// Decodes one framed PDU: the six-byte header whose length must match the
/// bytes supplied, then the payload of the variant the type byte names.
pub open spec fn spec_decode_pdu(s: Seq<u8>) -> Option<PduView> {
    if s.len() < 6 {
        None
    } else {
        let len = crate::byteorder::spec_u32_from_be(s[2], s[3], s[4], s[5]) as int;
        if s.len() != 6 + len {
            None
        } else {
            let payload = s.subrange(6, s.len() as int);
            if s[0] == 0x01 {
                match spec_parse_associate_rq(payload) {
                    None => None,
                    Some(rq) => Some(PduView::AssociateRq(rq)),
                }
            } else if s[0] == 0x02 {
                match spec_parse_associate_ac(payload) {
                    None => None,
                    Some(ac) => Some(PduView::AssociateAc(ac)),
                }
            } else if s[0] == 0x03 {
                if payload.len() == 4 {
                    Some(
                        PduView::AssociateRj {
                            result: payload[1],
                            source: payload[2],
                            reason: payload[3],
                        },
                    )
                } else {
                    None
                }
            } else if s[0] == 0x04 {
                match spec_parse_pdvs(payload) {
                    None => None,
                    Some(ps) => Some(PduView::PData(ps)),
                }
            } else if s[0] == 0x05 {
                if payload.len() == 4 {
                    Some(PduView::ReleaseRq)
                } else {
                    None
                }
            } else if s[0] == 0x06 {
                if payload.len() == 4 {
                    Some(PduView::ReleaseRp)
                } else {
                    None
                }
            } else if s[0] == 0x07 {
                if payload.len() == 4 {
                    Some(PduView::Abort { source: payload[2], reason: payload[3] })
                } else {
                    None
                }
            } else {
                None
            }
        }
    }
}

// ---------------------------------------------------------------------------
// Decoding inverts encoding.
// ---------------------------------------------------------------------------

/// Parsing the encoded PDVs of a P-DATA-TF payload yields them back.
#[verifier::rlimit(100)]
#[verifier::spinoff_prover]
pub proof fn lemma_parse_pdvs_round_trip(ps: Seq<PdvView>)
    requires
        forall|i: int| 0 <= i < ps.len() ==> spec_pdv_wf(#[trigger] ps[i]),
    ensures
        spec_parse_pdvs(spec_pdvs(ps)) == Some(ps),
    decreases ps.len(),
{
    if ps.len() == 0 {
        assert(spec_pdvs(ps) =~= Seq::<u8>::empty());
        assert(Some(Seq::<PdvView>::empty()) =~~= Some(ps));
    } else {
        let p = ps[0];
        let tail = ps.drop_first();
        let head = spec_pdv(p);
        let s = spec_pdvs(ps);
        assert(s == head + spec_pdvs(tail));
        let lenv = (p.data.len() + 2) as u32;
        assert(head.len() == 6 + p.data.len());
        crate::byteorder::lemma_u32_be_round_trip(lenv);
        assert(s[0] == spec_u32_be(lenv)[0]);
        assert(s[1] == spec_u32_be(lenv)[1]);
        assert(s[2] == spec_u32_be(lenv)[2]);
        assert(s[3] == spec_u32_be(lenv)[3]);
        let len = crate::byteorder::spec_u32_from_be(s[0], s[1], s[2], s[3]) as int;
        assert(len == p.data.len() + 2);
        assert(s.subrange(6, 4 + len) =~= p.data);
        let control = spec_pdv_control(p.is_command, p.is_last);
        assert(s[4] == p.context_id);
        assert(s[5] == control);
        assert((control % 2 == 1) == p.is_command);
        assert(((control / 2) % 2 == 1) == p.is_last);
        assert(s.subrange(4 + len, s.len() as int) =~= spec_pdvs(tail));
        assert(forall|i: int| 0 <= i < tail.len() ==> tail[i] == ps[i + 1]);
        lemma_parse_pdvs_round_trip(tail);
        let parsed = PdvView {
            context_id: s[4],
            is_command: control % 2 == 1,
            is_last: (control / 2) % 2 == 1,
            data: s.subrange(6, 4 + len),
        };
        assert(parsed =~= p);
        assert(seq![parsed] + tail =~= ps);
    }
}

/// Parsing a run of encoded transfer-syntax sub-items yields the list back,
/// with no abstract syntax seen.
pub proof fn lemma_parse_ts_items_round_trip(tss: Seq<Seq<u8>>)
    requires
        forall|i: int| 0 <= i < tss.len() ==> spec_uid_wf(#[trigger] tss[i]),
    ensures
        spec_parse_pc_sub_items(spec_ts_items(tss)) == Some((None::<Seq<u8>>, tss)),
    decreases tss.len(),
{
    if tss.len() == 0 {
        assert(spec_ts_items(tss) =~= Seq::<u8>::empty());
        assert(Seq::<Seq<u8>>::empty() =~= tss);
    } else {
        let u = tss[0];
        let tail = tss.drop_first();
        let head = spec_uid_item(0x40u8, u);
        let s = spec_ts_items(tss);
        assert(s == head + spec_ts_items(tail));
        let padded = spec_pad_uid(u);
        let plen = padded.len() as u16;
        crate::byteorder::lemma_u16_be_round_trip(plen);
        assert(s[0] == 0x40u8);
        assert(s[2] == spec_u16_be(plen)[0]);
        assert(s[3] == spec_u16_be(plen)[1]);
        let sub_len = crate::byteorder::spec_u16_from_be(s[2], s[3]) as int;
        assert(sub_len == padded.len());
        assert(head.len() == 4 + padded.len());
        assert(s.subrange(4, 4 + sub_len) =~= padded);
        crate::uid::lemma_trim_pad_uid(u);
        assert(s.subrange(4 + sub_len, s.len() as int) =~= spec_ts_items(tail));
        assert(forall|i: int| 0 <= i < tail.len() ==> tail[i] == tss[i + 1]);
        lemma_parse_ts_items_round_trip(tail);
        assert(seq![spec_trim(padded)] + tail =~= tss);
    }
}

/// Parsing an abstract-syntax sub-item followed by transfer-syntax sub-items
/// yields both back.
pub proof fn lemma_parse_pc_sub_items_round_trip(abs: Seq<u8>, tss: Seq<Seq<u8>>)
    requires
        spec_uid_wf(abs),
        forall|i: int| 0 <= i < tss.len() ==> spec_uid_wf(#[trigger] tss[i]),
    ensures
        spec_parse_pc_sub_items(spec_uid_item(0x30u8, abs) + spec_ts_items(tss)) == Some(
            (Some(abs), tss),
        ),
{
    let head = spec_uid_item(0x30u8, abs);
    let s = head + spec_ts_items(tss);
    let padded = spec_pad_uid(abs);
    let plen = padded.len() as u16;
    crate::byteorder::lemma_u16_be_round_trip(plen);
    assert(s[0] == 0x30u8);
    assert(s[2] == spec_u16_be(plen)[0]);
    assert(s[3] == spec_u16_be(plen)[1]);
    let sub_len = crate::byteorder::spec_u16_from_be(s[2], s[3]) as int;
    assert(sub_len == padded.len());
    assert(head.len() == 4 + padded.len());
    assert(s.subrange(4, 4 + sub_len) =~= padded);
    crate::uid::lemma_trim_pad_uid(abs);
    assert(s.subrange(4 + sub_len, s.len() as int) =~= spec_ts_items(tss));
    lemma_parse_ts_items_round_trip(tss);
}

/// Parsing the content of an encoded PC-RQ item yields the context back.
pub proof fn lemma_parse_pc_rq_content_round_trip(pc: ProposedContextView)
    requires
        spec_pc_rq_wf(pc),
    ensures
        spec_parse_pc_rq_content(spec_pc_rq_content(pc)) == Some(pc),
{
    let c = spec_pc_rq_content(pc);
    assert(c[0] == pc.id);
    assert(c.subrange(4, c.len() as int) =~= spec_uid_item(0x30u8, pc.abstract_syntax)
        + spec_ts_items(pc.transfer_syntaxes));
    lemma_parse_pc_sub_items_round_trip(pc.abstract_syntax, pc.transfer_syntaxes);
    let parsed = spec_parse_pc_rq_content(c);
    assert(parsed is Some);
    assert(parsed->0 =~= pc);
}

/// Parsing the content of an encoded PC-AC item yields the context back.
pub proof fn lemma_parse_pc_ac_content_round_trip(c: AcceptedContextView)
    requires
        spec_pc_ac_wf(c),
    ensures
        spec_parse_pc_ac_content(spec_pc_ac_content(c)) == Some(c),
{
    let b = spec_pc_ac_content(c);
    assert(b[0] == c.id);
    assert(b[2] == c.result);
    let one = seq![c.transfer_syntax];
    assert(one.drop_first() =~= Seq::<Seq<u8>>::empty());
    assert(spec_ts_items(one.drop_first()) =~= Seq::<u8>::empty());
    assert(spec_ts_items(one) =~= spec_uid_item(0x40u8, c.transfer_syntax));
    assert(b.subrange(4, b.len() as int) =~= spec_ts_items(one));
    lemma_parse_ts_items_round_trip(one);
    let parsed = spec_parse_pc_ac_content(b);
    assert(parsed is Some);
    assert(parsed->0 =~= c);
}

/// Parsing the content of the user-information item yields the maximum PDU
/// length back.
pub proof fn lemma_parse_user_info_round_trip(m: u32)
    ensures
        spec_parse_user_info(spec_user_info_item(m).subrange(4, 12)) == Some(m),
{
    let item = spec_user_info_item(m);
    assert(item.len() == 12);
    let c = item.subrange(4, 12);
    assert(c =~= seq![0x51u8, 0u8] + spec_u16_be(4u16) + spec_u32_be(m));
    assert(c.len() == 8);
    assert(c[0] == 0x51u8);
    crate::byteorder::lemma_u16_be_round_trip(4u16);
    assert(c[2] == spec_u16_be(4u16)[0]);
    assert(c[3] == spec_u16_be(4u16)[1]);
    assert(crate::byteorder::spec_u16_from_be(c[2], c[3]) == 4u16);
    crate::byteorder::lemma_u32_be_round_trip(m);
    assert(c[4] == spec_u32_be(m)[0]);
    assert(c[5] == spec_u32_be(m)[1]);
    assert(c[6] == spec_u32_be(m)[2]);
    assert(c[7] == spec_u32_be(m)[3]);
    assert(crate::byteorder::spec_u32_from_be(c[4], c[5], c[6], c[7]) == m);
    assert(spec_parse_user_info(c) == Some(m));
}

/// Parsing encoded PC-RQ items followed by the user-information item yields
/// the contexts and the maximum length back.
#[verifier::rlimit(100)]
pub proof fn lemma_parse_rq_items_tail_round_trip(pcs: Seq<ProposedContextView>, m: u32)
    requires
        forall|i: int| 0 <= i < pcs.len() ==> spec_pc_rq_wf(#[trigger] pcs[i]),
    ensures
        spec_parse_rq_items(spec_pc_rq_items(pcs) + spec_user_info_item(m)) == Some(
            (pcs, Some(m)),
        ),
    decreases pcs.len(),
{
    if pcs.len() == 0 {
        let s = spec_pc_rq_items(pcs) + spec_user_info_item(m);
        assert(s =~= spec_user_info_item(m));
        assert(s[0] == 0x50u8);
        crate::byteorder::lemma_u16_be_round_trip(8u16);
        assert(s[2] == spec_u16_be(8u16)[0]);
        assert(s[3] == spec_u16_be(8u16)[1]);
        let item_len = crate::byteorder::spec_u16_from_be(s[2], s[3]) as int;
        assert(item_len == 8);
        assert(s.len() == 12);
        assert(s.subrange(12, 12) =~= Seq::<u8>::empty());
        assert(spec_parse_rq_items(s.subrange(12, 12)) == Some(
            (Seq::<ProposedContextView>::empty(), None::<u32>),
        ));
        lemma_parse_user_info_round_trip(m);
        assert(s.subrange(4, 12) =~= spec_user_info_item(m).subrange(4, 12));
        assert(spec_parse_user_info(s.subrange(4, 12)) == Some(m));
        assert(Seq::<ProposedContextView>::empty() =~= pcs);
        assert(spec_parse_rq_items(s) == Some((pcs, Some(m))));
    } else {
        let pc = pcs[0];
        let tail = pcs.drop_first();
        let head = spec_pc_rq_item(pc);
        let s = spec_pc_rq_items(pcs) + spec_user_info_item(m);
        assert(spec_pc_rq_items(pcs) == head + spec_pc_rq_items(tail));
        let rest = spec_pc_rq_items(tail) + spec_user_info_item(m);
        assert(s =~= head + rest);
        let content = spec_pc_rq_content(pc);
        let clen = content.len() as u16;
        crate::byteorder::lemma_u16_be_round_trip(clen);
        assert(s[0] == 0x20u8);
        assert(s[2] == spec_u16_be(clen)[0]);
        assert(s[3] == spec_u16_be(clen)[1]);
        let item_len = crate::byteorder::spec_u16_from_be(s[2], s[3]) as int;
        assert(item_len == content.len());
        assert(head.len() == 4 + content.len());
        assert(s.subrange(4, 4 + item_len) =~= content);
        assert(s.subrange(4 + item_len, s.len() as int) =~= rest);
        assert(forall|i: int| 0 <= i < tail.len() ==> tail[i] == pcs[i + 1]);
        lemma_parse_rq_items_tail_round_trip(tail, m);
        lemma_parse_pc_rq_content_round_trip(pc);
        assert(seq![pc] + tail =~= pcs);
    }
}

/// Parsing encoded PC-AC items followed by the user-information item yields
/// the contexts and the maximum length back.
#[verifier::rlimit(100)]
pub proof fn lemma_parse_ac_items_tail_round_trip(cs: Seq<AcceptedContextView>, m: u32)
    requires
        forall|i: int| 0 <= i < cs.len() ==> spec_pc_ac_wf(#[trigger] cs[i]),
    ensures
        spec_parse_ac_items(spec_pc_ac_items(cs) + spec_user_info_item(m)) == Some(
            (cs, Some(m)),
        ),
    decreases cs.len(),
{
    if cs.len() == 0 {
        let s = spec_pc_ac_items(cs) + spec_user_info_item(m);
        assert(s =~= spec_user_info_item(m));
        assert(s[0] == 0x50u8);
        crate::byteorder::lemma_u16_be_round_trip(8u16);
        assert(s[2] == spec_u16_be(8u16)[0]);
        assert(s[3] == spec_u16_be(8u16)[1]);
        let item_len = crate::byteorder::spec_u16_from_be(s[2], s[3]) as int;
        assert(item_len == 8);
        assert(s.len() == 12);
        assert(s.subrange(12, 12) =~= Seq::<u8>::empty());
        assert(spec_parse_ac_items(s.subrange(12, 12)) == Some(
            (Seq::<AcceptedContextView>::empty(), None::<u32>),
        ));
        lemma_parse_user_info_round_trip(m);
        assert(s.subrange(4, 12) =~= spec_user_info_item(m).subrange(4, 12));
        assert(spec_parse_user_info(s.subrange(4, 12)) == Some(m));
        assert(Seq::<AcceptedContextView>::empty() =~= cs);
        assert(spec_parse_ac_items(s) == Some((cs, Some(m))));
    } else {
        let c = cs[0];
        let tail = cs.drop_first();
        let head = spec_pc_ac_item(c);
        let s = spec_pc_ac_items(cs) + spec_user_info_item(m);
        assert(spec_pc_ac_items(cs) == head + spec_pc_ac_items(tail));
        let rest = spec_pc_ac_items(tail) + spec_user_info_item(m);
        assert(s =~= head + rest);
        let content = spec_pc_ac_content(c);
        let clen = content.len() as u16;
        assert(content.len() <= 0xFFFF);
        crate::byteorder::lemma_u16_be_round_trip(clen);
        assert(s[0] == 0x21u8);
        assert(s[2] == spec_u16_be(clen)[0]);
        assert(s[3] == spec_u16_be(clen)[1]);
        let item_len = crate::byteorder::spec_u16_from_be(s[2], s[3]) as int;
        assert(item_len == content.len());
        assert(head.len() == 4 + content.len());
        assert(s.subrange(4, 4 + item_len) =~= content);
        assert(s.subrange(4 + item_len, s.len() as int) =~= rest);
        assert(forall|i: int| 0 <= i < tail.len() ==> tail[i] == cs[i + 1]);
        lemma_parse_ac_items_tail_round_trip(tail, m);
        lemma_parse_pc_ac_content_round_trip(c);
        assert(seq![c] + tail =~= cs);
    }
}

/// Parsing an encoded A-ASSOCIATE-RQ payload yields the request back.
#[verifier::rlimit(100)]
pub proof fn lemma_parse_associate_rq_round_trip(v: AssociationRequestView)
    requires
        spec_associate_rq_wf(v),
    ensures
        spec_parse_associate_rq(spec_associate_rq_payload(v)) == Some(v),
{
    let s = spec_associate_rq_payload(v);
    let fixed = spec_assoc_fixed(v.called_ae, v.calling_ae);
    assert(fixed.len() == 68);
    assert(s.subrange(4, 20) =~= spec_pad_ae(v.called_ae));
    assert(s.subrange(20, 36) =~= spec_pad_ae(v.calling_ae));
    crate::uid::lemma_trim_pad_ae(v.called_ae);
    crate::uid::lemma_trim_pad_ae(v.calling_ae);
    let items = spec_app_context_item() + (spec_pc_rq_items(v.contexts) + spec_user_info_item(
        v.max_pdu_length,
    ));
    assert(s.subrange(68, s.len() as int) =~= items);
    // The application-context item at the head of the item run is skipped.
    let app = spec_app_context_item();
    assert(spec_pad_uid(spec_app_context_uid()).len() == 22);
    crate::byteorder::lemma_u16_be_round_trip(22u16);
    assert(items[0] == 0x10u8);
    assert(items[2] == spec_u16_be(22u16)[0]);
    assert(items[3] == spec_u16_be(22u16)[1]);
    let item_len = crate::byteorder::spec_u16_from_be(items[2], items[3]) as int;
    assert(item_len == 22);
    assert(app.len() == 26);
    let rest = spec_pc_rq_items(v.contexts) + spec_user_info_item(v.max_pdu_length);
    assert(items.subrange(4 + item_len, items.len() as int) =~= rest);
    lemma_parse_rq_items_tail_round_trip(v.contexts, v.max_pdu_length);
    assert(spec_parse_rq_items(items) == Some((v.contexts, Some(v.max_pdu_length))));
    let parsed = spec_parse_associate_rq(s);
    assert(parsed is Some);
    assert(parsed->0 =~= v);
}

/// Parsing an encoded A-ASSOCIATE-AC payload yields the accept back.
#[verifier::rlimit(100)]
pub proof fn lemma_parse_associate_ac_round_trip(v: AssociationAcceptView)
    requires
        spec_associate_ac_wf(v),
    ensures
        spec_parse_associate_ac(spec_associate_ac_payload(v)) == Some(v),
{
    let s = spec_associate_ac_payload(v);
    let fixed = spec_assoc_fixed(v.called_ae, v.calling_ae);
    assert(fixed.len() == 68);
    assert(s.subrange(4, 20) =~= spec_pad_ae(v.called_ae));
    assert(s.subrange(20, 36) =~= spec_pad_ae(v.calling_ae));
    crate::uid::lemma_trim_pad_ae(v.called_ae);
    crate::uid::lemma_trim_pad_ae(v.calling_ae);
    let items = spec_app_context_item() + (spec_pc_ac_items(v.contexts) + spec_user_info_item(
        v.max_pdu_length,
    ));
    assert(s.subrange(68, s.len() as int) =~= items);
    let app = spec_app_context_item();
    assert(spec_pad_uid(spec_app_context_uid()).len() == 22);
    crate::byteorder::lemma_u16_be_round_trip(22u16);
    assert(items[0] == 0x10u8);
    assert(items[2] == spec_u16_be(22u16)[0]);
    assert(items[3] == spec_u16_be(22u16)[1]);
    let item_len = crate::byteorder::spec_u16_from_be(items[2], items[3]) as int;
    assert(item_len == 22);
    assert(app.len() == 26);
    let rest = spec_pc_ac_items(v.contexts) + spec_user_info_item(v.max_pdu_length);
    assert(items.subrange(4 + item_len, items.len() as int) =~= rest);
    lemma_parse_ac_items_tail_round_trip(v.contexts, v.max_pdu_length);
    assert(spec_parse_ac_items(items) == Some((v.contexts, Some(v.max_pdu_length))));
    let parsed = spec_parse_associate_ac(s);
    assert(parsed is Some);
    assert(parsed->0 =~= v);
}

/// Decoding inverts encoding: every well-formed PDU written to the wire and
/// read back is recovered exactly.
#[verifier::rlimit(100)]
pub proof fn lemma_pdu_round_trip(v: PduView)
    requires
        spec_pdu_wf(v),
    ensures
        spec_decode_pdu(spec_encode_pdu(v)) == Some(v),
{
    let s = spec_encode_pdu(v);
    let payload = spec_pdu_payload(v);
    let plen = payload.len() as u32;
    crate::byteorder::lemma_u32_be_round_trip(plen);
    assert(s[0] == spec_pdu_type(v));
    assert(s[2] == spec_u32_be(plen)[0]);
    assert(s[3] == spec_u32_be(plen)[1]);
    assert(s[4] == spec_u32_be(plen)[2]);
    assert(s[5] == spec_u32_be(plen)[3]);
    let len = crate::byteorder::spec_u32_from_be(s[2], s[3], s[4], s[5]) as int;
    assert(len == payload.len());
    assert(s.len() == 6 + len);
    assert(s.subrange(6, s.len() as int) =~= payload);
    match v {
        PduView::AssociateRq(rq) => {
            lemma_parse_associate_rq_round_trip(rq);
        },
        PduView::AssociateAc(ac) => {
            lemma_parse_associate_ac_round_trip(ac);
        },
        PduView::AssociateRj { result, source, reason } => {
            assert(payload.len() == 4);
            assert(payload[1] == result);
            assert(payload[2] == source);
            assert(payload[3] == reason);
        },
        PduView::PData(ps) => {
            lemma_parse_pdvs_round_trip(ps);
        },
        PduView::ReleaseRq => {
            assert(payload.len() == 4);
        },
        PduView::ReleaseRp => {
            assert(payload.len() == 4);
        },
        PduView::Abort { source, reason } => {
            assert(payload.len() == 4);
            assert(payload[2] == source);
            assert(payload[3] == reason);
        },
    }
}

/// A PDV carrying only its two-byte control header and no data is legal: a
/// P-DATA-TF made of such PDVs is well-formed and survives the wire round
/// trip.
pub proof fn lemma_empty_pdv_round_trip(context_id: u8, is_command: bool, is_last: bool)
    ensures
        ({
            let pdv = PdvView { context_id, is_command, is_last, data: Seq::empty() };
            let p = PduView::PData(seq![pdv]);
            spec_pdu_wf(p) && spec_decode_pdu(spec_encode_pdu(p)) == Some(p)
        }),
{
    let pdv = PdvView { context_id, is_command, is_last, data: Seq::empty() };
    let p = PduView::PData(seq![pdv]);
    assert(seq![pdv].drop_first() =~= Seq::<PdvView>::empty());
    assert(spec_pdvs(Seq::<PdvView>::empty()) =~= Seq::<u8>::empty());
    assert(spec_pdvs(seq![pdv]) =~= spec_pdv(pdv) + Seq::<u8>::empty());
    assert(spec_pdvs(seq![pdv]).len() == 6);
    assert(spec_pdu_wf(p));
    lemma_pdu_round_trip(p);
}

// ---------------------------------------------------------------------------
// The decoder, as executable code.
// ---------------------------------------------------------------------------

/// A copy of `b[from..to]`.
pub fn copy_range(b: &[u8], from: usize, to: usize) -> (r: Vec<u8>)
    requires
        from <= to <= b@.len(),
    ensures
        r@ == b@.subrange(from as int, to as int),
{
    let mut r: Vec<u8> = Vec::new();
    let mut i: usize = from;
    while i < to
        invariant
            from <= i <= to <= b@.len(),
            r@ =~= b@.subrange(from as int, i as int),
        decreases to - i,
    {
        r.push(b[i]);
        assert(r@ =~= b@.subrange(from as int, i + 1));
        i = i + 1;
    }
    r
}

/// Parses the PDVs of a P-DATA-TF payload, `b[start..]`.
fn parse_pdvs(b: &[u8], start: usize) -> (r: Result<Vec<Pdv>, DecodeError>)
    requires
        start <= b@.len(),
    ensures
        match r {
            Ok(ps) => spec_parse_pdvs(b@.subrange(start as int, b@.len() as int)) == Some(
                ps@.map_values(|p: Pdv| p@),
            ),
            Err(e) => spec_parse_pdvs(b@.subrange(start as int, b@.len() as int)) is None && e
                == DecodeError::Malformed,
        },
{
    let n = b.len();
    let ghost whole = b@.subrange(start as int, n as int);
    let mut acc: Vec<Pdv> = Vec::new();
    let mut i: usize = start;
    while i < n
        invariant
            start <= i <= n == b@.len(),
            whole == b@.subrange(start as int, n as int),
            spec_parse_pdvs(whole) == match spec_parse_pdvs(
                b@.subrange(i as int, n as int),
            ) {
                Option::None => None::<Seq<PdvView>>,
                Option::Some(t) => Some(acc@.map_values(|p: Pdv| p@) + t),
            },
        decreases n - i,
    {
        let ghost suffix = b@.subrange(i as int, n as int);
        proof {
            assert(forall|k: int| 0 <= k < suffix.len() ==> suffix[k] == b@[i + k]);
        }
        if n - i < 6 {
            assert(suffix.len() > 0 && suffix.len() < 6);
            assert(spec_parse_pdvs(suffix) is None);
            return Err(DecodeError::Malformed);
        }
        let len32 = read_u32_be(b, i);
        assert(len32 == crate::byteorder::spec_u32_from_be(
            suffix[0],
            suffix[1],
            suffix[2],
            suffix[3],
        ));
        if len32 < 2 || (len32 as usize) > n - i - 4 {
            assert(spec_parse_pdvs(suffix) is None);
            return Err(DecodeError::Malformed);
        }
        let len = len32 as usize;
        let context_id = b[i + 4];
        let control = b[i + 5];
        let data = copy_range(b, i + 6, i + 4 + len);
        let pdv = Pdv {
            context_id,
            is_command: control % 2 == 1,
            is_last: (control / 2) % 2 == 1,
            data,
        };
        proof {
            let liv = len as int;
            assert(suffix.subrange(6, 4 + liv) =~= b@.subrange(i + 6, i + 4 + liv));
            assert(suffix.subrange(4 + liv, suffix.len() as int) =~= b@.subrange(
                i + 4 + liv,
                n as int,
            ));
            assert(suffix[4] == b@[i + 4] && suffix[5] == b@[i + 5]);
            let accv = acc@.map_values(|p: Pdv| p@);
            let accv2 = acc@.push(pdv).map_values(|p: Pdv| p@);
            assert(accv2 =~= accv.push(pdv@));
            match spec_parse_pdvs(b@.subrange(i + 4 + liv, n as int)) {
                Option::None => {
                    assert(spec_parse_pdvs(suffix) is None);
                },
                Option::Some(t) => {
                    assert(spec_parse_pdvs(suffix) == Some(seq![pdv@] + t));
                    assert(accv + (seq![pdv@] + t) =~= accv2 + t);
                },
            }
        }
        acc.push(pdv);
        i = i + 4 + len;
    }
    assert(b@.subrange(i as int, n as int) =~= Seq::<u8>::empty());
    assert(spec_parse_pdvs(b@.subrange(i as int, n as int)) == Some(Seq::<PdvView>::empty()));
    assert(acc@.map_values(|p: Pdv| p@) + Seq::<PdvView>::empty() =~= acc@.map_values(
        |p: Pdv| p@,
    ));
    Ok(acc)
}

/// Scans `b[start..end]`, the content of a user-information item, for the
/// first maximum-length sub-item.
fn parse_user_info(b: &[u8], start: usize, end: usize) -> (r: Option<u32>)
    requires
        start <= end <= b@.len(),
    ensures
        r == spec_parse_user_info(b@.subrange(start as int, end as int)),
{
    let ghost whole = b@.subrange(start as int, end as int);
    let mut i: usize = start;
    while end - i >= 4
        invariant
            start <= i <= end <= b@.len(),
            whole == b@.subrange(start as int, end as int),
            spec_parse_user_info(whole) == spec_parse_user_info(
                b@.subrange(i as int, end as int),
            ),
        decreases end - i,
    {
        let ghost suffix = b@.subrange(i as int, end as int);
        proof {
            assert(forall|k: int| 0 <= k < suffix.len() ==> suffix[k] == b@[i + k]);
        }
        let sub_len16 = read_u16_be(b, i + 2);
        assert(sub_len16 == crate::byteorder::spec_u16_from_be(suffix[2], suffix[3]));
        let sub_len = sub_len16 as usize;
        if sub_len > end - i - 4 {
            assert(spec_parse_user_info(suffix) is None);
            return None;
        }
        if b[i] == 0x51u8 && sub_len == 4 {
            let m = read_u32_be(b, i + 4);
            assert(m == crate::byteorder::spec_u32_from_be(
                suffix[4],
                suffix[5],
                suffix[6],
                suffix[7],
            ));
            assert(spec_parse_user_info(suffix) == Some(m));
            return Some(m);
        }
        proof {
            let liv = sub_len as int;
            assert(suffix.subrange(4 + liv, suffix.len() as int) =~= b@.subrange(
                i + 4 + liv,
                end as int,
            ));
        }
        i = i + 4 + sub_len;
    }
    assert(spec_parse_user_info(b@.subrange(i as int, end as int)) is None);
    None
}

/// Parses the sub-items of a presentation-context item in `b[start..end]`.
fn parse_pc_sub_items(b: &[u8], start: usize, end: usize) -> (r: Result<
    (Option<Vec<u8>>, Vec<Vec<u8>>),
    DecodeError,
>)
    requires
        start <= end <= b@.len(),
    ensures
        match r {
            Ok((abs, tss)) => spec_parse_pc_sub_items(b@.subrange(start as int, end as int))
                == Some(
                (
                    match abs {
                        Option::Some(a) => Some(a@),
                        Option::None => None,
                    },
                    tss@.map_values(|v: Vec<u8>| v@),
                ),
            ),
            Err(e) => spec_parse_pc_sub_items(b@.subrange(start as int, end as int)) is None
                && e == DecodeError::Malformed,
        },
{
    let ghost whole = b@.subrange(start as int, end as int);
    let mut abs: Option<Vec<u8>> = None;
    let mut tss: Vec<Vec<u8>> = Vec::new();
    let mut i: usize = start;
    while i < end
        invariant
            start <= i <= end <= b@.len(),
            whole == b@.subrange(start as int, end as int),
            spec_parse_pc_sub_items(whole) == match spec_parse_pc_sub_items(
                b@.subrange(i as int, end as int),
            ) {
                Option::None => None::<(Option<Seq<u8>>, Seq<Seq<u8>>)>,
                Option::Some((a2, t2)) => Some(
                    (
                        match abs {
                            Option::Some(a) => Some(a@),
                            Option::None => a2,
                        },
                        tss@.map_values(|v: Vec<u8>| v@) + t2,
                    ),
                ),
            },
        decreases end - i,
    {
        let ghost suffix = b@.subrange(i as int, end as int);
        proof {
            assert(forall|k: int| 0 <= k < suffix.len() ==> suffix[k] == b@[i + k]);
        }
        if end - i < 4 {
            assert(spec_parse_pc_sub_items(suffix) is None);
            return Err(DecodeError::Malformed);
        }
        let sub_len16 = read_u16_be(b, i + 2);
        assert(sub_len16 == crate::byteorder::spec_u16_from_be(suffix[2], suffix[3]));
        let sub_len = sub_len16 as usize;
        if sub_len > end - i - 4 {
            assert(spec_parse_pc_sub_items(suffix) is None);
            return Err(DecodeError::Malformed);
        }
        let item_type = b[i];
        let ghost liv = sub_len as int;
        proof {
            assert(suffix.subrange(4, 4 + liv) =~= b@.subrange(i + 4, i + 4 + liv));
            assert(suffix.subrange(4 + liv, suffix.len() as int) =~= b@.subrange(
                i + 4 + liv,
                end as int,
            ));
        }
        if item_type == 0x30u8 {
            let value = trim_bytes_range(b, i + 4, i + 4 + sub_len);
            if abs.is_none() {
                abs = Some(value);
            }
        } else if item_type == 0x40u8 {
            let value = trim_bytes_range(b, i + 4, i + 4 + sub_len);
            proof {
                let tssv = tss@.map_values(|v: Vec<u8>| v@);
                let tssv2 = tss@.push(value).map_values(|v: Vec<u8>| v@);
                assert(tssv2 =~= tssv.push(value@));
                match spec_parse_pc_sub_items(b@.subrange(i + 4 + liv, end as int)) {
                    Option::None => {},
                    Option::Some((a2, t2)) => {
                        assert(tssv + (seq![value@] + t2) =~= tssv2 + t2);
                    },
                }
            }
            tss.push(value);
        }
        i = i + 4 + sub_len;
    }
    assert(b@.subrange(i as int, end as int) =~= Seq::<u8>::empty());
    assert(spec_parse_pc_sub_items(b@.subrange(i as int, end as int)) == Some(
        (None::<Seq<u8>>, Seq::<Seq<u8>>::empty()),
    ));
    assert(tss@.map_values(|v: Vec<u8>| v@) + Seq::<Seq<u8>>::empty() =~= tss@.map_values(
        |v: Vec<u8>| v@,
    ));
    Ok((abs, tss))
}

/// A trimmed copy of `b[from..to]`.
pub fn trim_bytes_range(b: &[u8], from: usize, to: usize) -> (r: Vec<u8>)
    requires
        from <= to <= b@.len(),
    ensures
        r@ == spec_trim(b@.subrange(from as int, to as int)),
{
    let raw = copy_range(b, from, to);
    trim_bytes(raw.as_slice())
}

/// Parses the content of a PC-RQ item in `b[start..end]`.
fn parse_pc_rq_content(b: &[u8], start: usize, end: usize) -> (r: Result<
    ProposedContext,
    DecodeError,
>)
    requires
        start <= end <= b@.len(),
    ensures
        match r {
            Ok(pc) => spec_parse_pc_rq_content(b@.subrange(start as int, end as int)) == Some(
                pc@,
            ),
            Err(e) => spec_parse_pc_rq_content(b@.subrange(start as int, end as int)) is None
                && e == DecodeError::Malformed,
        },
{
    let ghost whole = b@.subrange(start as int, end as int);
    proof {
        assert(forall|k: int| 0 <= k < whole.len() ==> whole[k] == b@[start + k]);
    }
    if end - start < 4 {
        return Err(DecodeError::Malformed);
    }
    let id = b[start];
    proof {
        assert(whole.subrange(4, whole.len() as int) =~= b@.subrange(start + 4, end as int));
    }
    match parse_pc_sub_items(b, start + 4, end) {
        Err(e) => Err(e),
        Ok((abs_opt, tss)) => match abs_opt {
            None => Err(DecodeError::Malformed),
            Some(abstract_syntax) => {
                if tss.len() == 0 {
                    return Err(DecodeError::Malformed);
                }
                let pc = ProposedContext { id, abstract_syntax, transfer_syntaxes: tss };
                assert(spec_parse_pc_rq_content(whole) == Some(pc@));
                Ok(pc)
            },
        },
    }
}

/// Parses the content of a PC-AC item in `b[start..end]`.
fn parse_pc_ac_content(b: &[u8], start: usize, end: usize) -> (r: Result<
    AcceptedContext,
    DecodeError,
>)
    requires
        start <= end <= b@.len(),
    ensures
        match r {
            Ok(c) => spec_parse_pc_ac_content(b@.subrange(start as int, end as int)) == Some(
                c@,
            ),
            Err(e) => spec_parse_pc_ac_content(b@.subrange(start as int, end as int)) is None
                && e == DecodeError::Malformed,
        },
{
    let ghost whole = b@.subrange(start as int, end as int);
    proof {
        assert(forall|k: int| 0 <= k < whole.len() ==> whole[k] == b@[start + k]);
    }
    if end - start < 4 {
        return Err(DecodeError::Malformed);
    }
    let id = b[start];
    let result = b[start + 2];
    proof {
        assert(whole.subrange(4, whole.len() as int) =~= b@.subrange(start + 4, end as int));
    }
    match parse_pc_sub_items(b, start + 4, end) {
        Err(e) => Err(e),
        Ok((_abs, mut tss)) => {
            if tss.len() == 0 {
                return Err(DecodeError::Malformed);
            }
            let ghost tssv = tss@.map_values(|v: Vec<u8>| v@);
            let transfer_syntax = tss.remove(0);
            assert(transfer_syntax@ == tssv[0]);
            let c = AcceptedContext { id, result, transfer_syntax };
            assert(spec_parse_pc_ac_content(whole) == Some(c@));
            Ok(c)
        },
    }
}

/// Walks the variable items of an A-ASSOCIATE-RQ payload, `b[start..]`.
fn parse_rq_items(b: &[u8], start: usize) -> (r: Result<
    (Vec<ProposedContext>, Option<u32>),
    DecodeError,
>)
    requires
        start <= b@.len(),
    ensures
        match r {
            Ok((pcs, m)) => spec_parse_rq_items(b@.subrange(start as int, b@.len() as int))
                == Some((pcs@.map_values(|pc: ProposedContext| pc@), m)),
            Err(e) => spec_parse_rq_items(b@.subrange(start as int, b@.len() as int)) is None
                && e == DecodeError::Malformed,
        },
{
    let n = b.len();
    let ghost whole = b@.subrange(start as int, n as int);
    let mut pcs: Vec<ProposedContext> = Vec::new();
    let mut maxlen: Option<u32> = None;
    let mut i: usize = start;
    while i < n
        invariant
            start <= i <= n == b@.len(),
            whole == b@.subrange(start as int, n as int),
            spec_parse_rq_items(whole) == match spec_parse_rq_items(
                b@.subrange(i as int, n as int),
            ) {
                Option::None => None::<(Seq<ProposedContextView>, Option<u32>)>,
                Option::Some((p2, m2)) => Some(
                    (
                        pcs@.map_values(|pc: ProposedContext| pc@) + p2,
                        match maxlen {
                            Option::Some(m) => Some(m),
                            Option::None => m2,
                        },
                    ),
                ),
            },
        decreases n - i,
    {
        let ghost suffix = b@.subrange(i as int, n as int);
        proof {
            assert(forall|k: int| 0 <= k < suffix.len() ==> suffix[k] == b@[i + k]);
        }
        if n - i < 4 {
            assert(spec_parse_rq_items(suffix) is None);
            return Err(DecodeError::Malformed);
        }
        let item_len16 = read_u16_be(b, i + 2);
        assert(item_len16 == crate::byteorder::spec_u16_from_be(suffix[2], suffix[3]));
        let item_len = item_len16 as usize;
        if item_len > n - i - 4 {
            assert(spec_parse_rq_items(suffix) is None);
            return Err(DecodeError::Malformed);
        }
        let item_type = b[i];
        let ghost liv = item_len as int;
        proof {
            assert(suffix.subrange(4, 4 + liv) =~= b@.subrange(i + 4, i + 4 + liv));
            assert(suffix.subrange(4 + liv, suffix.len() as int) =~= b@.subrange(
                i + 4 + liv,
                n as int,
            ));
        }
        if item_type == 0x20u8 {
            match parse_pc_rq_content(b, i + 4, i + 4 + item_len) {
                Err(_) => {
                    assert(spec_parse_rq_items(suffix) is None);
                    return Err(DecodeError::Malformed);
                },
                Ok(pc) => {
                    proof {
                        let pcsv = pcs@.map_values(|c: ProposedContext| c@);
                        let pcsv2 = pcs@.push(pc).map_values(|c: ProposedContext| c@);
                        assert(pcsv2 =~= pcsv.push(pc@));
                        match spec_parse_rq_items(b@.subrange(i + 4 + liv, n as int)) {
                            Option::None => {},
                            Option::Some((p2, m2)) => {
                                assert(pcsv + (seq![pc@] + p2) =~= pcsv2 + p2);
                            },
                        }
                    }
                    pcs.push(pc);
                },
            }
        } else if item_type == 0x50u8 {
            let m = parse_user_info(b, i + 4, i + 4 + item_len);
            match m {
                Some(v) => {
                    if maxlen.is_none() {
                        maxlen = Some(v);
                    }
                },
                None => {},
            }
        }
        i = i + 4 + item_len;
    }
    assert(b@.subrange(i as int, n as int) =~= Seq::<u8>::empty());
    assert(spec_parse_rq_items(b@.subrange(i as int, n as int)) == Some(
        (Seq::<ProposedContextView>::empty(), None::<u32>),
    ));
    assert(pcs@.map_values(|pc: ProposedContext| pc@) + Seq::<ProposedContextView>::empty()
        =~= pcs@.map_values(|pc: ProposedContext| pc@));
    Ok((pcs, maxlen))
}

/// Walks the variable items of an A-ASSOCIATE-AC payload, `b[start..]`.
fn parse_ac_items(b: &[u8], start: usize) -> (r: Result<
    (Vec<AcceptedContext>, Option<u32>),
    DecodeError,
>)
    requires
        start <= b@.len(),
    ensures
        match r {
            Ok((cs, m)) => spec_parse_ac_items(b@.subrange(start as int, b@.len() as int))
                == Some((cs@.map_values(|c: AcceptedContext| c@), m)),
            Err(e) => spec_parse_ac_items(b@.subrange(start as int, b@.len() as int)) is None
                && e == DecodeError::Malformed,
        },
{
    let n = b.len();
    let ghost whole = b@.subrange(start as int, n as int);
    let mut cs: Vec<AcceptedContext> = Vec::new();
    let mut maxlen: Option<u32> = None;
    let mut i: usize = start;
    while i < n
        invariant
            start <= i <= n == b@.len(),
            whole == b@.subrange(start as int, n as int),
            spec_parse_ac_items(whole) == match spec_parse_ac_items(
                b@.subrange(i as int, n as int),
            ) {
                Option::None => None::<(Seq<AcceptedContextView>, Option<u32>)>,
                Option::Some((c2, m2)) => Some(
                    (
                        cs@.map_values(|c: AcceptedContext| c@) + c2,
                        match maxlen {
                            Option::Some(m) => Some(m),
                            Option::None => m2,
                        },
                    ),
                ),
            },
        decreases n - i,
    {
        let ghost suffix = b@.subrange(i as int, n as int);
        proof {
            assert(forall|k: int| 0 <= k < suffix.len() ==> suffix[k] == b@[i + k]);
        }
        if n - i < 4 {
            assert(spec_parse_ac_items(suffix) is None);
            return Err(DecodeError::Malformed);
        }
        let item_len16 = read_u16_be(b, i + 2);
        assert(item_len16 == crate::byteorder::spec_u16_from_be(suffix[2], suffix[3]));
        let item_len = item_len16 as usize;
        if item_len > n - i - 4 {
            assert(spec_parse_ac_items(suffix) is None);
            return Err(DecodeError::Malformed);
        }
        let item_type = b[i];
        let ghost liv = item_len as int;
        proof {
            assert(suffix.subrange(4, 4 + liv) =~= b@.subrange(i + 4, i + 4 + liv));
            assert(suffix.subrange(4 + liv, suffix.len() as int) =~= b@.subrange(
                i + 4 + liv,
                n as int,
            ));
        }
        if item_type == 0x21u8 {
            match parse_pc_ac_content(b, i + 4, i + 4 + item_len) {
                Err(_) => {
                    assert(spec_parse_ac_items(suffix) is None);
                    return Err(DecodeError::Malformed);
                },
                Ok(c) => {
                    proof {
                        let csv = cs@.map_values(|x: AcceptedContext| x@);
                        let csv2 = cs@.push(c).map_values(|x: AcceptedContext| x@);
                        assert(csv2 =~= csv.push(c@));
                        match spec_parse_ac_items(b@.subrange(i + 4 + liv, n as int)) {
                            Option::None => {},
                            Option::Some((c2, m2)) => {
                                assert(csv + (seq![c@] + c2) =~= csv2 + c2);
                            },
                        }
                    }
                    cs.push(c);
                },
            }
        } else if item_type == 0x50u8 {
            let m = parse_user_info(b, i + 4, i + 4 + item_len);
            match m {
                Some(v) => {
                    if maxlen.is_none() {
                        maxlen = Some(v);
                    }
                },
                None => {},
            }
        }
        i = i + 4 + item_len;
    }
    assert(b@.subrange(i as int, n as int) =~= Seq::<u8>::empty());
    assert(spec_parse_ac_items(b@.subrange(i as int, n as int)) == Some(
        (Seq::<AcceptedContextView>::empty(), None::<u32>),
    ));
    assert(cs@.map_values(|c: AcceptedContext| c@) + Seq::<AcceptedContextView>::empty()
        =~= cs@.map_values(|c: AcceptedContext| c@));
    Ok((cs, maxlen))
}

/// Parses an A-ASSOCIATE-RQ payload, `b[start..]`.
fn parse_associate_rq(b: &[u8], start: usize) -> (r: Result<AssociationRequest, DecodeError>)
    requires
        start <= b@.len(),
    ensures
        match r {
            Ok(rq) => spec_parse_associate_rq(b@.subrange(start as int, b@.len() as int))
                == Some(rq@),
            Err(e) => spec_parse_associate_rq(b@.subrange(start as int, b@.len() as int))
                is None && e == DecodeError::Malformed,
        },
{
    let n = b.len();
    let ghost payload = b@.subrange(start as int, n as int);
    proof {
        assert(forall|k: int| 0 <= k < payload.len() ==> payload[k] == b@[start + k]);
    }
    if n - start < 68 {
        return Err(DecodeError::Malformed);
    }
    let called_ae = trim_bytes_range(b, start + 4, start + 20);
    let calling_ae = trim_bytes_range(b, start + 20, start + 36);
    proof {
        assert(payload.subrange(4, 20) =~= b@.subrange(start + 4, start + 20));
        assert(payload.subrange(20, 36) =~= b@.subrange(start + 20, start + 36));
        assert(payload.subrange(68, payload.len() as int) =~= b@.subrange(
            start + 68,
            n as int,
        ));
    }
    match parse_rq_items(b, start + 68) {
        Err(e) => Err(e),
        Ok((contexts, maxlen)) => {
            let max_pdu_length = match maxlen {
                Some(m) => m,
                None => DEFAULT_MAX_PDU_LENGTH,
            };
            let rq = AssociationRequest { called_ae, calling_ae, max_pdu_length, contexts };
            assert(spec_parse_associate_rq(payload) == Some(rq@));
            Ok(rq)
        },
    }
}

/// Parses an A-ASSOCIATE-AC payload, `b[start..]`.
fn parse_associate_ac(b: &[u8], start: usize) -> (r: Result<AssociationAccept, DecodeError>)
    requires
        start <= b@.len(),
    ensures
        match r {
            Ok(ac) => spec_parse_associate_ac(b@.subrange(start as int, b@.len() as int))
                == Some(ac@),
            Err(e) => spec_parse_associate_ac(b@.subrange(start as int, b@.len() as int))
                is None && e == DecodeError::Malformed,
        },
{
    let n = b.len();
    let ghost payload = b@.subrange(start as int, n as int);
    proof {
        assert(forall|k: int| 0 <= k < payload.len() ==> payload[k] == b@[start + k]);
    }
    if n - start < 68 {
        return Err(DecodeError::Malformed);
    }
    let called_ae = trim_bytes_range(b, start + 4, start + 20);
    let calling_ae = trim_bytes_range(b, start + 20, start + 36);
    proof {
        assert(payload.subrange(4, 20) =~= b@.subrange(start + 4, start + 20));
        assert(payload.subrange(20, 36) =~= b@.subrange(start + 20, start + 36));
        assert(payload.subrange(68, payload.len() as int) =~= b@.subrange(
            start + 68,
            n as int,
        ));
    }
    match parse_ac_items(b, start + 68) {
        Err(e) => Err(e),
        Ok((contexts, maxlen)) => {
            let max_pdu_length = match maxlen {
                Some(m) => m,
                None => DEFAULT_MAX_PDU_LENGTH,
            };
            let ac = AssociationAccept { called_ae, calling_ae, max_pdu_length, contexts };
            assert(spec_parse_associate_ac(payload) == Some(ac@));
            Ok(ac)
        },
    }
}

/// Whether a buffer carries a whole PDU: at least the six-byte header, whose
/// length field covers exactly the remaining bytes.
pub open spec fn spec_frame_ok(s: Seq<u8>) -> bool {
    s.len() >= 6 && s.len() == 6 + crate::byteorder::spec_u32_from_be(s[2], s[3], s[4], s[5])
}

/// The PDU type bytes the decoder knows.
pub open spec fn spec_known_pdu_type(t: u8) -> bool {
    0x01 <= t <= 0x07
}

/// Decodes one framed PDU from `b`, which must hold exactly the six-byte
/// header and the payload the header's length announces.
///
/// A mismatched frame fails with `Framing`; an unrecognized type byte with
/// `UnknownPduType`; a payload whose internal structure is broken with
/// `Malformed`. On success, the decoded value is exactly what the
/// specification-level parser denotes, so `lemma_pdu_round_trip` applies to
/// re-encoded values.
pub fn decode_pdu(b: &[u8]) -> (r: Result<Pdu, DecodeError>)
    ensures
        match r {
            Ok(p) => spec_decode_pdu(b@) == Some(p@),
            Err(_) => spec_decode_pdu(b@) is None,
        },
        !spec_frame_ok(b@) <==> r == Err::<Pdu, DecodeError>(DecodeError::Framing),
        spec_frame_ok(b@) && !spec_known_pdu_type(b@[0]) <==> r == Err::<Pdu, DecodeError>(
            DecodeError::UnknownPduType,
        ),
{
    let n = b.len();
    if n < 6 {
        return Err(DecodeError::Framing);
    }
    let len32 = read_u32_be(b, 2);
    if (len32 as usize) != n - 6 {
        return Err(DecodeError::Framing);
    }
    let ghost payload = b@.subrange(6, n as int);
    proof {
        assert(forall|k: int| 0 <= k < payload.len() ==> payload[k] == b@[6 + k]);
    }
    let t = b[0];
    if t == 0x01u8 {
        match parse_associate_rq(b, 6) {
            Ok(rq) => Ok(Pdu::AssociateRq(rq)),
            Err(e) => Err(e),
        }
    } else if t == 0x02u8 {
        match parse_associate_ac(b, 6) {
            Ok(ac) => Ok(Pdu::AssociateAc(ac)),
            Err(e) => Err(e),
        }
    } else if t == 0x03u8 {
        if n - 6 != 4 {
            return Err(DecodeError::Malformed);
        }
        Ok(Pdu::AssociateRj { result: b[7], source: b[8], reason: b[9] })
    } else if t == 0x04u8 {
        match parse_pdvs(b, 6) {
            Ok(values) => Ok(Pdu::PData(values)),
            Err(e) => Err(e),
        }
    } else if t == 0x05u8 {
        if n - 6 != 4 {
            return Err(DecodeError::Malformed);
        }
        Ok(Pdu::ReleaseRq)
    } else if t == 0x06u8 {
        if n - 6 != 4 {
            return Err(DecodeError::Malformed);
        }
        Ok(Pdu::ReleaseRp)
    } else if t == 0x07u8 {
        if n - 6 != 4 {
            return Err(DecodeError::Malformed);
        }
        Ok(Pdu::Abort { source: b[8], reason: b[9] })
    } else {
        Err(DecodeError::UnknownPduType)
    }
}


// ---------------------------------------------------------------------------
// Deciding well-formedness at run time, so that unverified callers can test
// the encoder's precondition instead of trusting their inputs.
// ---------------------------------------------------------------------------

/// Whether `u` is a well-formed UID value.
fn uid_wf_check(u: &Vec<u8>) -> (r: bool)
    ensures
        r == spec_uid_wf(u@),
{
    1 <= u.len() && u.len() <= 64 && {
        let last = u[u.len() - 1];
        last != 0u8 && last != 32u8
    }
}

/// Whether `a` is a well-formed AE title value.
fn ae_wf_check(a: &Vec<u8>) -> (r: bool)
    ensures
        r == spec_ae_wf(a@),
{
    a.len() <= 16 && (a.len() == 0 || {
        let last = a[a.len() - 1];
        last != 0u8 && last != 32u8
    })
}

/// Whether every PDV fits its length field and the payload its PDU header.
fn pdvs_wf_check(values: &Vec<Pdv>) -> (r: bool)
    ensures
        r == ({
            let ps = values@.map_values(|p: Pdv| p@);
            &&& forall|i: int| 0 <= i < ps.len() ==> spec_pdv_wf(#[trigger] ps[i])
            &&& spec_pdvs(ps).len() <= 0xFFFF_FFFF
        }),
{
    let ghost ps = values@.map_values(|p: Pdv| p@);
    let n = values.len();
    let mut sum: u64 = 0;
    let mut i: usize = 0;
    assert(ps.take(0) =~= Seq::<PdvView>::empty());
    while i < n
        invariant
            n == values@.len(),
            ps == values@.map_values(|p: Pdv| p@),
            i <= n,
            sum == spec_pdvs(ps.take(i as int)).len(),
            sum <= 0xFFFF_FFFF,
            forall|j: int| 0 <= j < i ==> spec_pdv_wf(#[trigger] ps[j]),
        decreases n - i,
    {
        assert(ps[i as int] == values@[i as int]@);
        let len = values[i].data.len();
        if len as u64 > 0xFFFF_FFFFu64 - 6 {
            assert(!spec_pdv_wf(ps[i as int]));
            return false;
        }
        proof {
            lemma_concat_map_snoc(ps.take(i as int), ps[i as int], |p: PdvView| spec_pdv(p));
            assert(ps.take(i + 1) =~= ps.take(i as int).push(ps[i as int]));
            assert(spec_pdv(ps[i as int]).len() == 6 + ps[i as int].data.len());
        }
        sum = sum + 6 + len as u64;
        if sum > 0xFFFF_FFFFu64 {
            proof {
                lemma_concat_map_take_le(ps, i + 1, |p: PdvView| spec_pdv(p));
                assert(ps.take(ps.len() as int) =~= ps);
            }
            return false;
        }
        i = i + 1;
    }
    assert(ps.take(n as int) =~= ps);
    true
}

/// Whether a proposed context is well-formed, and its content length.
fn pc_rq_wf_check(pc: &ProposedContext) -> (r: Option<u64>)
    ensures
        match r {
            Some(len) => spec_pc_rq_wf(pc@) && len == spec_pc_rq_content(pc@).len() && len
                <= 0xFFFF,
            None => !spec_pc_rq_wf(pc@),
        },
{
    if !uid_wf_check(&pc.abstract_syntax) {
        return None;
    }
    if pc.transfer_syntaxes.len() == 0 {
        return None;
    }
    let ghost tss = pc@.transfer_syntaxes;
    let ghost f = |u: Seq<u8>| spec_uid_item(0x40u8, u);
    let n = pc.transfer_syntaxes.len();
    let mut sum: u64 = 0;
    let mut i: usize = 0;
    assert(tss.take(0) =~= Seq::<Seq<u8>>::empty());
    while i < n
        invariant
            n == pc.transfer_syntaxes@.len(),
            tss == pc@.transfer_syntaxes,
            f == (|u: Seq<u8>| spec_uid_item(0x40u8, u)),
            i <= n,
            sum == spec_concat_map(tss.take(i as int), f).len(),
            sum <= 0xFFFF,
            forall|j: int| 0 <= j < i ==> spec_uid_wf(#[trigger] tss[j]),
        decreases n - i,
    {
        assert(tss[i as int] == pc.transfer_syntaxes@[i as int]@);
        if !uid_wf_check(&pc.transfer_syntaxes[i]) {
            return None;
        }
        let len = pc.transfer_syntaxes[i].len();
        let padded: u64 = if len % 2 == 1 {
            len as u64 + 1
        } else {
            len as u64
        };
        proof {
            lemma_concat_map_snoc(tss.take(i as int), tss[i as int], f);
            assert(tss.take(i + 1) =~= tss.take(i as int).push(tss[i as int]));
            assert(f(tss[i as int]).len() == 4 + spec_pad_uid(tss[i as int]).len());
        }
        sum = sum + 4 + padded;
        if sum > 0xFFFFu64 {
            proof {
                lemma_concat_map_take_le(tss, i + 1, f);
                assert(tss.take(tss.len() as int) =~= tss);
                assert(spec_pc_rq_content(pc@).len() >= spec_ts_items(tss).len());
            }
            return None;
        }
        i = i + 1;
    }
    assert(tss.take(n as int) =~= tss);
    let abs_len = pc.abstract_syntax.len();
    let abs_padded: u64 = if abs_len % 2 == 1 {
        abs_len as u64 + 1
    } else {
        abs_len as u64
    };
    let content: u64 = 4 + (4 + abs_padded) + sum;
    assert(content == spec_pc_rq_content(pc@).len());
    if content > 0xFFFFu64 {
        return None;
    }
    Some(content)
}

/// Whether an association request is well-formed: the encoder's whole
/// precondition for an A-ASSOCIATE-RQ, decided at run time.
fn associate_rq_wf_check(rq: &AssociationRequest) -> (r: bool)
    ensures
        r == spec_associate_rq_wf(rq@),
{
    if !ae_wf_check(&rq.called_ae) || !ae_wf_check(&rq.calling_ae) {
        return false;
    }
    let ghost pcs = rq@.contexts;
    let ghost f = |pc: ProposedContextView| spec_pc_rq_item(pc);
    let n = rq.contexts.len();
    let mut sum: u64 = 0;
    let mut i: usize = 0;
    assert(pcs.take(0) =~= Seq::<ProposedContextView>::empty());
    while i < n
        invariant
            n == rq.contexts@.len(),
            pcs == rq@.contexts,
            f == (|pc: ProposedContextView| spec_pc_rq_item(pc)),
            i <= n,
            sum == spec_concat_map(pcs.take(i as int), f).len(),
            sum <= 0xFFFF_FFFF,
            forall|j: int| 0 <= j < i ==> spec_pc_rq_wf(#[trigger] pcs[j]),
        decreases n - i,
    {
        assert(pcs[i as int] == rq.contexts@[i as int]@);
        let content = match pc_rq_wf_check(&rq.contexts[i]) {
            Some(c) => c,
            None => {
                return false;
            },
        };
        proof {
            lemma_concat_map_snoc(pcs.take(i as int), pcs[i as int], f);
            assert(pcs.take(i + 1) =~= pcs.take(i as int).push(pcs[i as int]));
            assert(f(pcs[i as int]).len() == 4 + spec_pc_rq_content(pcs[i as int]).len());
        }
        sum = sum + 4 + content;
        if sum > 0xFFFF_FFFFu64 {
            proof {
                lemma_concat_map_take_le(pcs, i + 1, f);
                assert(pcs.take(pcs.len() as int) =~= pcs);
                assert(spec_associate_rq_payload(rq@).len() >= spec_pc_rq_items(pcs).len());
            }
            return false;
        }
        i = i + 1;
    }
    assert(pcs.take(n as int) =~= pcs);
    proof {
        assert(spec_pad_uid(spec_app_context_uid()).len() == 22);
        assert(spec_app_context_item().len() == 26);
    }
    let payload: u64 = 68 + 26 + sum + 12;
    assert(payload == spec_associate_rq_payload(rq@).len());
    payload <= 0xFFFF_FFFFu64
}

/// Whether an association accept is well-formed: the encoder's whole
/// precondition for an A-ASSOCIATE-AC, decided at run time.
fn associate_ac_wf_check(ac: &AssociationAccept) -> (r: bool)
    ensures
        r == spec_associate_ac_wf(ac@),
{
    if !ae_wf_check(&ac.called_ae) || !ae_wf_check(&ac.calling_ae) {
        return false;
    }
    let ghost cs = ac@.contexts;
    let ghost f = |c: AcceptedContextView| spec_pc_ac_item(c);
    let n = ac.contexts.len();
    let mut sum: u64 = 0;
    let mut i: usize = 0;
    assert(cs.take(0) =~= Seq::<AcceptedContextView>::empty());
    while i < n
        invariant
            n == ac.contexts@.len(),
            cs == ac@.contexts,
            f == (|c: AcceptedContextView| spec_pc_ac_item(c)),
            i <= n,
            sum == spec_concat_map(cs.take(i as int), f).len(),
            sum <= 0xFFFF_FFFF,
            forall|j: int| 0 <= j < i ==> spec_pc_ac_wf(#[trigger] cs[j]),
        decreases n - i,
    {
        assert(cs[i as int] == ac.contexts@[i as int]@);
        if ac.contexts[i].result > 4 || !uid_wf_check(&ac.contexts[i].transfer_syntax) {
            return false;
        }
        let len = ac.contexts[i].transfer_syntax.len();
        let padded: u64 = if len % 2 == 1 {
            len as u64 + 1
        } else {
            len as u64
        };
        proof {
            lemma_concat_map_snoc(cs.take(i as int), cs[i as int], f);
            assert(cs.take(i + 1) =~= cs.take(i as int).push(cs[i as int]));
            assert(f(cs[i as int]).len() == 4 + spec_pc_ac_content(cs[i as int]).len());
            assert(spec_pc_ac_content(cs[i as int]).len() == 4 + 4 + spec_pad_uid(
                cs[i as int].transfer_syntax,
            ).len());
        }
        sum = sum + 4 + (4 + 4 + padded);
        if sum > 0xFFFF_FFFFu64 {
            proof {
                lemma_concat_map_take_le(cs, i + 1, f);
                assert(cs.take(cs.len() as int) =~= cs);
                assert(spec_associate_ac_payload(ac@).len() >= spec_pc_ac_items(cs).len());
            }
            return false;
        }
        i = i + 1;
    }
    assert(cs.take(n as int) =~= cs);
    proof {
        assert(spec_pad_uid(spec_app_context_uid()).len() == 22);
        assert(spec_app_context_item().len() == 26);
    }
    let payload: u64 = 68 + 26 + sum + 12;
    assert(payload == spec_associate_ac_payload(ac@).len());
    payload <= 0xFFFF_FFFFu64
}

/// Whether a PDU is well-formed: exactly the encoder's precondition, decided
/// at run time.
pub fn pdu_wf_check(p: &Pdu) -> (r: bool)
    ensures
        r == spec_pdu_wf(p@),
{
    match p {
        Pdu::AssociateRq(rq) => associate_rq_wf_check(rq),
        Pdu::AssociateAc(ac) => associate_ac_wf_check(ac),
        Pdu::AssociateRj { result, source, reason } => 1 <= *result && *result <= 2 && 1
            <= *source && *source <= 3,
        Pdu::PData(values) => pdvs_wf_check(values),
        Pdu::ReleaseRq => true,
        Pdu::ReleaseRp => true,
        Pdu::Abort { .. } => true,
    }
}

/// Encodes a PDU after testing its well-formedness, for callers that cannot
/// establish the encoder's precondition themselves: the bytes of
/// `spec_encode_pdu` when the value is well-formed, nothing otherwise.
pub fn encode_pdu_checked(p: &Pdu) -> (r: Option<Vec<u8>>)
    ensures
        match r {
            Some(bytes) => spec_pdu_wf(p@) && bytes@ == spec_encode_pdu(p@),
            None => !spec_pdu_wf(p@),
        },
{
    if pdu_wf_check(p) {
        Some(encode_pdu(p))
    } else {
        None
    }
}

} // verus!
