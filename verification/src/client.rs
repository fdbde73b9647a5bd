//! The C-STORE requestor: building the association request for a set of
//! files, interpreting the peer's reply, picking the context for each file,
//! and judging each store's response. The socket work around these calls
//! lives outside the crate; every decision is made here.

use vstd::prelude::*;
use vstd::string::StringSliceAdditionalSpecFns;

use crate::cstore::{
    check_store_response, classify_status, parse_command, StoreOutcome,
    COMMAND_FIELD_C_STORE_RSP,
};
use crate::error::DicomError;
use crate::negotiation::{
    any_accepted, zip_negotiation, NegotiatedContext, RESULT_ACCEPTANCE,
};
use crate::pdu::{AssociationRequest, Pdu, ProposedContext};
use crate::sop_classes::{get_transfer_syntaxes_for_category, SopClassRegistry};
use crate::types::DicomFile;
use crate::uid::{spec_ae_wf, spec_trim, spec_trimmed};

verus! {

/// How the requestor reaches its peer.
#[derive(Debug)]
pub struct DicomClientConfig {
    pub calling_ae: String,
    pub called_ae: String,
    pub host: String,
    pub port: u16,
    pub timeout_ms: u64,
}

/// A C-STORE sender bound to one peer.
#[derive(Debug)]
pub struct DicomClient {
    pub config: DicomClientConfig,
}

impl DicomClient {
    /// A sender for this destination.
    pub fn new(config: DicomClientConfig) -> (r: Self)
        ensures
            r.config == config,
    {
        Self { config }
    }
}

/// The largest PDV payload that fits the negotiated maximum PDU length: the
/// smaller of the peer's offer and the local cap, less the six-byte PDU
/// header and the six-byte PDV header, floored at one byte.
pub fn pdv_payload_limit(peer_max_pdu: u32, local_cap: u32) -> (r: usize)
    ensures
        ({
            let cap = if peer_max_pdu < local_cap {
                peer_max_pdu as int
            } else {
                local_cap as int
            };
            r == if cap >= 13 {
                cap - 12
            } else {
                1int
            }
        }),
        r >= 1,
{
    let cap = if peer_max_pdu < local_cap {
        peer_max_pdu
    } else {
        local_cap
    };
    if cap >= 13 {
        (cap - 12) as usize
    } else {
        1
    }
}

/// The wire form of an AE title string: its UTF-8 bytes truncated to the
/// 16-byte field, with any trailing padding stripped.
pub open spec fn spec_ae_of(s: Seq<char>) -> Seq<u8> {
    let raw = vstd::utf8::encode_utf8(s);
    let head = if raw.len() > 16 {
        raw.subrange(0, 16)
    } else {
        raw
    };
    spec_trim(head)
}

/// An AE title as the wire carries it: at most 16 bytes, with any trailing
/// padding stripped.
pub fn ae_to_bytes(s: &str) -> (r: Vec<u8>)
    ensures
        r@ == spec_ae_of(s@),
        spec_ae_wf(r@),
{
    let raw = s.as_bytes();
    assert(raw@ == vstd::utf8::encode_utf8(s@));
    let keep = if raw.len() > 16 {
        16
    } else {
        raw.len()
    };
    let head = crate::pdu::copy_range(raw, 0, keep);
    proof {
        if raw@.len() <= 16 {
            assert(head@ =~= raw@);
        }
    }
    let r = crate::uid::trim_bytes(head.as_slice());
    proof {
        crate::uid::lemma_trim_shortens(head@);
    }
    r
}

/// A UID as the library carries it: trailing padding stripped, truncated to
/// the 64 bytes a UID may hold, as `spec_uid_of` denotes.
pub fn uid_to_bytes(s: &str) -> (r: Vec<u8>)
    ensures
        r@ == spec_uid_of(s@),
        r@.len() <= 64,
        spec_trimmed(r@),
{
    let raw = s.as_bytes();
    assert(raw@ == vstd::utf8::encode_utf8(s@));
    let trimmed = crate::uid::trim_bytes(raw);
    let keep = if trimmed.len() > 64 {
        64
    } else {
        trimmed.len()
    };
    let head = crate::pdu::copy_range(trimmed.as_slice(), 0, keep);
    proof {
        if trimmed@.len() <= 64 {
            assert(head@ =~= trimmed@);
        }
    }
    let r = crate::uid::trim_bytes(head.as_slice());
    proof {
        crate::uid::lemma_trim_shortens(head@);
    }
    r
}

/// Whether some context in the run proposes this abstract syntax.
pub open spec fn spec_has_context(contexts: Seq<ProposedContext>, uid: Seq<u8>) -> bool {
    exists|k: int| 0 <= k < contexts.len() && (#[trigger] contexts[k])@.abstract_syntax == uid
}

/// Whether a context proposing this abstract syntax is already present.
fn has_context_for(contexts: &Vec<ProposedContext>, uid: &[u8]) -> (r: bool)
    ensures
        r == spec_has_context(contexts@, uid@),
{
    let n = contexts.len();
    let mut k: usize = 0;
    while k < n
        invariant
            n == contexts@.len(),
            k <= n,
            forall|j: int| 0 <= j < k ==> (#[trigger] contexts@[j])@.abstract_syntax != uid@,
        decreases n - k,
    {
        if crate::uid::bytes_eq(contexts[k].abstract_syntax.as_slice(), uid) {
            return true;
        }
        k = k + 1;
    }
    false
}

/// One presentation context per distinct SOP class among the files, ids 1,
/// 3, 5, …, each proposing the transfer syntaxes the catalog's policy picks
/// for that class's category (the basic list for a class the catalog does
/// not know). An association carries at most 128 contexts; a file whose
/// class found no room is left without one.
pub fn build_presentation_contexts(files: &Vec<DicomFile>, registry: &SopClassRegistry) -> (r:
    Vec<ProposedContext>)
    ensures
        r@.len() <= 128,
        forall|k: int| 0 <= k < r@.len() ==> (#[trigger] r@[k])@.id == 2 * k + 1,
        forall|i: int|
            0 <= i < files@.len() ==> spec_has_context(
                r@,
                spec_uid_of((#[trigger] files@[i]).sop_class_uid@),
            ) || r@.len() == 128,
{
    let mut r: Vec<ProposedContext> = Vec::new();
    let n = files.len();
    let mut i: usize = 0;
    while i < n
        invariant
            n == files@.len(),
            i <= n,
            r@.len() <= 128,
            forall|k: int| 0 <= k < r@.len() ==> (#[trigger] r@[k])@.id == 2 * k + 1,
            forall|j: int|
                0 <= j < i ==> spec_has_context(
                    r@,
                    spec_uid_of((#[trigger] files@[j]).sop_class_uid@),
                ) || r@.len() == 128,
        decreases n - i,
    {
        let uid = uid_of_string(&files[i].sop_class_uid);
        let ghost uidv = uid@;
        let covered = has_context_for(&r, uid.as_slice());
        if !covered && r.len() < 128 {
            let ts_strs = match registry.get(files[i].sop_class_uid.as_str()) {
                Some(info) => get_transfer_syntaxes_for_category(&info.category),
                None => crate::transfer_syntaxes::get_basic_transfer_syntaxes(),
            };
            let mut transfer_syntaxes: Vec<Vec<u8>> = Vec::new();
            let m = ts_strs.len();
            let mut t: usize = 0;
            while t < m
                invariant
                    m == ts_strs@.len(),
                    t <= m,
                decreases m - t,
            {
                let mut one: Vec<u8> = Vec::new();
                one.extend_from_slice(ts_strs[t].as_bytes());
                transfer_syntaxes.push(one);
                t = t + 1;
            }
            let id: u8 = (2 * r.len() + 1) as u8;
            let pc = ProposedContext { id, abstract_syntax: uid, transfer_syntaxes };
            let ghost before = r@;
            r.push(pc);
            proof {
                assert(forall|k: int| 0 <= k < before.len() ==> r@[k] == before[k]);
                assert(r@[before.len() as int]@.abstract_syntax == uidv);
                assert(spec_has_context(r@, uidv));
                assert forall|u: Seq<u8>| spec_has_context(before, u) implies spec_has_context(
                    r@,
                    u,
                ) by {
                    let k = choose|k: int|
                        0 <= k < before.len() && (#[trigger] before[k])@.abstract_syntax == u;
                    assert(r@[k] == before[k]);
                    assert(r@[k]@.abstract_syntax == u);
                }
            }
        }
        proof {
            assert(spec_has_context(r@, uidv) || r@.len() == 128);
        }
        i = i + 1;
    }
    r
}

/// The wire form of a UID string: its UTF-8 bytes with trailing padding
/// stripped, truncated to the 64 bytes a UID may hold, then stripped again.
pub open spec fn spec_uid_of(s: Seq<char>) -> Seq<u8> {
    let t = spec_trim(vstd::utf8::encode_utf8(s));
    let h = if t.len() > 64 {
        t.subrange(0, 64)
    } else {
        t
    };
    spec_trim(h)
}

/// Turns a UID string into its wire bytes; the result is what
/// `spec_uid_of` denotes for that string.
fn uid_of_string(s: &String) -> (r: Vec<u8>)
    ensures
        r@ == spec_uid_of(s@),
        r@.len() <= 64,
        spec_trimmed(r@),
{
    uid_to_bytes(s.as_str())
}

/// The association request for one worker's files: both AE titles, the
/// local maximum PDU length, and one context per distinct SOP class.
pub fn build_association_request(
    config: &DicomClientConfig,
    files: &Vec<DicomFile>,
    registry: &SopClassRegistry,
    max_pdu_length: u32,
) -> (r: AssociationRequest)
    ensures
        r@.called_ae == spec_ae_of(config.called_ae@),
        r@.calling_ae == spec_ae_of(config.calling_ae@),
        spec_ae_wf(r@.called_ae),
        spec_ae_wf(r@.calling_ae),
        r@.max_pdu_length == max_pdu_length,
        r@.contexts.len() <= 128,
        forall|k: int| 0 <= k < r@.contexts.len() ==> (#[trigger] r@.contexts[k]).id == 2 * k + 1,
        forall|i: int|
            0 <= i < files@.len() ==> spec_has_context(
                r.contexts@,
                spec_uid_of((#[trigger] files@[i]).sop_class_uid@),
            ) || r@.contexts.len() == 128,
{
    let called_ae = ae_to_bytes(config.called_ae.as_str());
    let calling_ae = ae_to_bytes(config.calling_ae.as_str());
    let contexts = build_presentation_contexts(files, registry);
    let r = AssociationRequest { called_ae, calling_ae, max_pdu_length, contexts };
    proof {
        assert(r@.contexts.len() == r.contexts@.len());
        assert(forall|k: int|
            0 <= k < r.contexts@.len() ==> r@.contexts[k] == (#[trigger] r.contexts@[k])@);
    }
    r
}

/// What negotiation settled for one association: the context table and the
/// peer's maximum PDU length.
pub struct EstablishedAssociation {
    pub contexts: Vec<NegotiatedContext>,
    pub peer_max_pdu: u32,
}

/// Interprets the single PDU a requestor awaits after sending its
/// A-ASSOCIATE-RQ. An accept yields the negotiated table, paired by id with
/// the proposals; it fails with `ProtocolViolation` exactly when the accept
/// violates that pairing, and with `NoAcceptedContext` exactly when it pairs
/// but accepts nothing — so an accept that answers every proposal and
/// accepts at least one is owed an established association. A reject or
/// abort fails with its own fields, and any other PDU breaks the protocol.
#[verifier::rlimit(100)]
#[verifier::spinoff_prover]
pub fn interpret_negotiation_reply(proposed: &Vec<ProposedContext>, reply: &Pdu) -> (r: Result<
    EstablishedAssociation,
    DicomError,
>)
    ensures
        ({
            let pv = proposed@.map_values(|p: ProposedContext| p@);
            match r {
                Ok(est) => {
                    &&& reply@ is AssociateAc
                    &&& ({
                        let acv = reply@->AssociateAc_0;
                        &&& !crate::negotiation::spec_zip_violation(pv, acv.contexts)
                        &&& crate::negotiation::spec_negotiation_accepts(pv, acv.contexts)
                        &&& est.contexts@.len() == proposed@.len()
                        &&& forall|i: int|
                            0 <= i < est.contexts@.len() ==> {
                                &&& (#[trigger] est.contexts@[i]).id == proposed@[i]@.id
                                &&& est.contexts@[i].abstract_syntax@ == proposed@[i]@.abstract_syntax
                                &&& match crate::negotiation::spec_reply_for(
                                    acv.contexts,
                                    proposed@[i]@.id,
                                ) {
                                    Some(rep) => est.contexts@[i].result == rep.result
                                        && est.contexts@[i].transfer_syntax@ == rep.transfer_syntax,
                                    None => false,
                                }
                                &&& (est.contexts@[i].result == RESULT_ACCEPTANCE
                                    ==> crate::negotiation::spec_uid_in(
                                    proposed@[i]@.transfer_syntaxes,
                                    est.contexts@[i].transfer_syntax@,
                                ))
                            }
                        &&& est.peer_max_pdu == acv.max_pdu_length
                    })
                },
                Err(e) => match reply@ {
                    crate::pdu::PduView::AssociateAc(acv) => (e == DicomError::ProtocolViolation
                        && crate::negotiation::spec_zip_violation(pv, acv.contexts)) || (e
                        == DicomError::NoAcceptedContext && !crate::negotiation::spec_zip_violation(
                        pv,
                        acv.contexts,
                    ) && !crate::negotiation::spec_negotiation_accepts(pv, acv.contexts)),
                    crate::pdu::PduView::AssociateRj { result, source, reason } => e
                        == (DicomError::Rejected { result, source, reason }),
                    crate::pdu::PduView::Abort { source, reason } => e == (DicomError::Aborted {
                        source,
                        reason,
                    }),
                    _ => e == DicomError::ProtocolViolation,
                },
            }
        }),
{
    let ghost pv = proposed@.map_values(|p: ProposedContext| p@);
    match reply {
        Pdu::AssociateAc(ac) => {
            let ghost rv = ac.contexts@.map_values(|c: crate::pdu::AcceptedContext| c@);
            proof {
                assert(reply@->AssociateAc_0.contexts =~= rv);
            }
            let table = match zip_negotiation(proposed, &ac.contexts) {
                Ok(t) => t,
                Err(e) => {
                    return Err(e);
                },
            };
            if !any_accepted(&table) {
                proof {
                    assert forall|k: int|
                        0 <= k < pv.len() implies !(match crate::negotiation::spec_reply_for(
                        rv,
                        (#[trigger] pv[k]).id,
                    ) {
                        Option::None => false,
                        Option::Some(rep) => rep.result == RESULT_ACCEPTANCE,
                    }) by {
                        assert(pv[k] == proposed@[k]@);
                        assert((#[trigger] table@[k]).id == proposed@[k]@.id);
                        match crate::negotiation::spec_reply_for(rv, pv[k].id) {
                            Option::None => {},
                            Option::Some(rep) => {
                                assert(table@[k].result == rep.result);
                                assert(table@[k].result != RESULT_ACCEPTANCE);
                            },
                        }
                    }
                }
                return Err(DicomError::NoAcceptedContext);
            }
            proof {
                let w = choose|i: int|
                    0 <= i < table@.len() && (#[trigger] table@[i]).result == RESULT_ACCEPTANCE;
                assert(pv[w] == proposed@[w]@);
                match crate::negotiation::spec_reply_for(rv, pv[w].id) {
                    Option::None => {
                        assert(false);
                    },
                    Option::Some(rep) => {
                        assert(rep.result == RESULT_ACCEPTANCE);
                        assert(crate::negotiation::spec_negotiation_accepts(pv, rv));
                    },
                }
            }
            Ok(EstablishedAssociation { contexts: table, peer_max_pdu: ac.max_pdu_length })
        },
        Pdu::AssociateRj { result, source, reason } => Err(
            DicomError::Rejected { result: *result, source: *source, reason: *reason },
        ),
        Pdu::Abort { source, reason } => Err(
            DicomError::Aborted { source: *source, reason: *reason },
        ),
        _ => Err(DicomError::ProtocolViolation),
    }
}

/// The context and transfer syntax one file will travel on.
pub struct StorePlan {
    pub context_id: u8,
    pub transfer_syntax: Vec<u8>,
}

/// Picks the accepted presentation context whose abstract syntax is the
/// file's SOP class. Without one, the store fails with
/// `NoContextForSopClass` before anything is sent.
pub fn plan_store(file: &DicomFile, table: &Vec<NegotiatedContext>) -> (r: Result<
    StorePlan,
    DicomError,
>)
    ensures
        match r {
            Ok(plan) => exists|k: int|
                0 <= k < table@.len() && (#[trigger] table@[k]).result == RESULT_ACCEPTANCE
                    && spec_trim(table@[k].abstract_syntax@) == spec_trim(
                    spec_uid_of(file.sop_class_uid@),
                ) && plan.context_id == table@[k].id && plan.transfer_syntax@
                    == table@[k].transfer_syntax@,
            Err(e) => {
                &&& e == DicomError::NoContextForSopClass
                &&& forall|k: int|
                    0 <= k < table@.len() ==> !((#[trigger] table@[k]).result
                        == RESULT_ACCEPTANCE && spec_trim(table@[k].abstract_syntax@)
                        == spec_trim(spec_uid_of(file.sop_class_uid@)))
            },
        },
{
    let uid = uid_of_string(&file.sop_class_uid);
    let n = table.len();
    let mut k: usize = 0;
    while k < n
        invariant
            n == table@.len(),
            uid@ == spec_uid_of(file.sop_class_uid@),
            k <= n,
            forall|j: int|
                0 <= j < k ==> !((#[trigger] table@[j]).result == RESULT_ACCEPTANCE && spec_trim(
                    table@[j].abstract_syntax@,
                ) == spec_trim(uid@)),
        decreases n - k,
    {
        if table[k].result == RESULT_ACCEPTANCE && crate::uid::padded_eq(
            table[k].abstract_syntax.as_slice(),
            uid.as_slice(),
        ) {
            let transfer_syntax = table[k].transfer_syntax.clone();
            proof {
                assert(transfer_syntax@ =~= table@[k as int].transfer_syntax@);
            }
            return Ok(StorePlan { context_id: table[k].id, transfer_syntax });
        }
        k = k + 1;
    }
    Err(DicomError::NoContextForSopClass)
}

/// Judges the reassembled command stream of a store's reply: `Malformed`
/// exactly when the stream does not parse, otherwise exactly what
/// `spec_check_store_response` decides against this exchange's message id
/// and instance, so the status is owed for a well-formed matching response.
pub fn evaluate_store_reply(
    command_bytes: &[u8],
    expected_message_id: u16,
    expected_instance_uid: &[u8],
) -> (r: Result<u16, DicomError>)
    ensures
        r == match crate::cstore::spec_parse_command(command_bytes@) {
            Some(cs) => crate::cstore::spec_check_store_response(
                cs,
                expected_message_id,
                expected_instance_uid@,
            ),
            None => Err(DicomError::Malformed),
        },
{
    let cs = match parse_command(command_bytes) {
        Ok(cs) => cs,
        Err(e) => {
            return Err(e);
        },
    };
    check_store_response(&cs, expected_message_id, expected_instance_uid)
}

/// Whether a store's status counts the file as transferred: success and
/// warning statuses do, anything else fails it with the raw status.
pub fn judge_status(status: u16) -> (r: Result<u16, DicomError>)
    ensures
        match r {
            Ok(s) => s == status && (status == 0 || 0xB000 <= status <= 0xB0FF),
            Err(e) => e == (DicomError::StoreFailed { status }) && status != 0 && !(0xB000
                <= status <= 0xB0FF),
        },
{
    match classify_status(status) {
        StoreOutcome::Success => Ok(status),
        StoreOutcome::Warning => Ok(status),
        StoreOutcome::Failure => Err(DicomError::StoreFailed { status }),
    }
}

} // verus!
