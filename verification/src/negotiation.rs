//! Association negotiation: how an acceptor answers each proposed
//! presentation context, and how a requestor pairs the answers with its
//! proposals.

use vstd::prelude::*;

use crate::error::DicomError;
use crate::pdu::{AcceptedContext, AcceptedContextView, ProposedContext, ProposedContextView};
use crate::uid::{padded_eq, spec_trim};

verus! {

/// Context result: acceptance.
pub const RESULT_ACCEPTANCE: u8 = 0;

/// Context result: the abstract syntax is not supported.
pub const RESULT_ABSTRACT_SYNTAX_NOT_SUPPORTED: u8 = 3;

/// Context result: none of the offered transfer syntaxes is supported.
pub const RESULT_TRANSFER_SYNTAXES_NOT_SUPPORTED: u8 = 4;

/// The Implicit VR Little Endian transfer syntax UID, `1.2.840.10008.1.2`.
pub open spec fn spec_implicit_vr_le() -> Seq<u8> {
    seq![
        0x31u8, 0x2eu8, 0x32u8, 0x2eu8, 0x38u8, 0x34u8, 0x30u8, 0x2eu8, 0x31u8, 0x30u8, 0x30u8,
        0x30u8, 0x38u8, 0x2eu8, 0x31u8, 0x2eu8, 0x32u8,
    ]
}

/// The Explicit VR Little Endian transfer syntax UID, `1.2.840.10008.1.2.1`.
pub open spec fn spec_explicit_vr_le() -> Seq<u8> {
    spec_implicit_vr_le() + seq![0x2eu8, 0x31u8]
}

/// Whether `uid` is in `set`, comparing with trailing padding stripped from
/// both sides, as the protocol compares UIDs.
pub open spec fn spec_uid_in(set: Seq<Seq<u8>>, uid: Seq<u8>) -> bool {
    exists|i: int| 0 <= i < set.len() && spec_trim(#[trigger] set[i]) == spec_trim(uid)
}

/// The first offered transfer syntax that the acceptor supports.
pub open spec fn spec_first_supported(proposed: Seq<Seq<u8>>, supported: Seq<Seq<u8>>) -> Option<
    Seq<u8>,
>
    decreases proposed.len(),
{
    if proposed.len() == 0 {
        None
    } else if spec_uid_in(supported, proposed[0]) {
        Some(proposed[0])
    } else {
        spec_first_supported(proposed.drop_first(), supported)
    }
}

/// The transfer syntax the acceptor picks: the first offered one it
/// supports, except that Explicit VR Little Endian is preferred over
/// Implicit VR Little Endian when both are offered and supported.
pub open spec fn spec_choose_transfer_syntax(
    proposed: Seq<Seq<u8>>,
    supported: Seq<Seq<u8>>,
) -> Option<Seq<u8>> {
    match spec_first_supported(proposed, supported) {
        None => None,
        Some(ts) => if spec_trim(ts) == spec_implicit_vr_le() && spec_uid_in(
            proposed,
            spec_explicit_vr_le(),
        ) && spec_uid_in(supported, spec_explicit_vr_le()) {
            Some(spec_explicit_vr_le())
        } else {
            Some(ts)
        },
    }
}

/// The transfer syntax echoed in a rejected context: the first one offered.
pub open spec fn spec_echo_ts(proposed: Seq<Seq<u8>>) -> Seq<u8> {
    if proposed.len() > 0 {
        proposed[0]
    } else {
        Seq::empty()
    }
}

/// The acceptor's answer to one proposed context: result 3 when the abstract
/// syntax is unknown and promiscuous mode is off; result 4 when no offered
/// transfer syntax is supported; acceptance with the chosen syntax otherwise.
pub open spec fn spec_evaluate_context(
    pc: ProposedContextView,
    supported_abstract: Seq<Seq<u8>>,
    supported_transfer: Seq<Seq<u8>>,
    promiscuous: bool,
) -> AcceptedContextView {
    if !promiscuous && !spec_uid_in(supported_abstract, pc.abstract_syntax) {
        AcceptedContextView {
            id: pc.id,
            result: RESULT_ABSTRACT_SYNTAX_NOT_SUPPORTED,
            transfer_syntax: spec_echo_ts(pc.transfer_syntaxes),
        }
    } else {
        match spec_choose_transfer_syntax(pc.transfer_syntaxes, supported_transfer) {
            None => AcceptedContextView {
                id: pc.id,
                result: RESULT_TRANSFER_SYNTAXES_NOT_SUPPORTED,
                transfer_syntax: spec_echo_ts(pc.transfer_syntaxes),
            },
            Some(ts) => AcceptedContextView {
                id: pc.id,
                result: RESULT_ACCEPTANCE,
                transfer_syntax: ts,
            },
        }
    }
}

/// What the acceptor chooses is among the offered syntaxes, up to padding.
pub proof fn lemma_first_supported_is_proposed(proposed: Seq<Seq<u8>>, supported: Seq<Seq<u8>>)
    ensures
        match spec_first_supported(proposed, supported) {
            Some(ts) => spec_uid_in(proposed, ts) && spec_uid_in(supported, ts),
            None => true,
        },
    decreases proposed.len(),
{
    if proposed.len() == 0 {
    } else if spec_uid_in(supported, proposed[0]) {
        assert(spec_trim(proposed[0]) == spec_trim(proposed[0]));
    } else {
        lemma_first_supported_is_proposed(proposed.drop_first(), supported);
        let tail = proposed.drop_first();
        match spec_first_supported(tail, supported) {
            Some(ts) => {
                let i = choose|i: int| 0 <= i < tail.len() && spec_trim(tail[i]) == spec_trim(
                    ts,
                );
                assert(tail[i] == proposed[i + 1]);
                assert(spec_uid_in(proposed, ts));
            },
            None => {},
        }
    }
}

/// The law of negotiation: the reply carries one answer per proposed
/// context, paired by position and id, and an accepted answer's transfer
/// syntax is one the requestor offered.
pub proof fn lemma_negotiation_pairing(
    requested: Seq<ProposedContextView>,
    replies: Seq<AcceptedContextView>,
    supported_abstract: Seq<Seq<u8>>,
    supported_transfer: Seq<Seq<u8>>,
    promiscuous: bool,
)
    requires
        replies.len() == requested.len(),
        forall|i: int|
            0 <= i < requested.len() ==> #[trigger] replies[i] == spec_evaluate_context(
                requested[i],
                supported_abstract,
                supported_transfer,
                promiscuous,
            ),
    ensures
        forall|i: int| 0 <= i < requested.len() ==> (#[trigger] replies[i]).id == requested[i].id,
        forall|i: int|
            0 <= i < requested.len() && (#[trigger] replies[i]).result == RESULT_ACCEPTANCE
                ==> spec_uid_in(requested[i].transfer_syntaxes, replies[i].transfer_syntax),
{
    assert forall|i: int|
        0 <= i < requested.len() && (#[trigger] replies[i]).result == RESULT_ACCEPTANCE
        implies spec_uid_in(requested[i].transfer_syntaxes, replies[i].transfer_syntax) by {
        let pc = requested[i];
        lemma_first_supported_is_proposed(pc.transfer_syntaxes, supported_transfer);
        match spec_first_supported(pc.transfer_syntaxes, supported_transfer) {
            Some(ts) => {
                if spec_trim(ts) == spec_implicit_vr_le() && spec_uid_in(
                    pc.transfer_syntaxes,
                    spec_explicit_vr_le(),
                ) && spec_uid_in(supported_transfer, spec_explicit_vr_le()) {
                    assert(spec_uid_in(pc.transfer_syntaxes, spec_explicit_vr_le()));
                }
            },
            None => {},
        }
    }
}

/// A context proposing an abstract syntax the acceptor does not know is
/// answered with result 3 when promiscuous mode is off — and with nothing
/// else: the association itself still proceeds, every other context being
/// answered on its own merits.
pub proof fn lemma_unknown_abstract_rejected(
    pc: ProposedContextView,
    supported_abstract: Seq<Seq<u8>>,
    supported_transfer: Seq<Seq<u8>>,
)
    requires
        !spec_uid_in(supported_abstract, pc.abstract_syntax),
    ensures
        spec_evaluate_context(pc, supported_abstract, supported_transfer, false).result
            == RESULT_ABSTRACT_SYNTAX_NOT_SUPPORTED,
        spec_evaluate_context(pc, supported_abstract, supported_transfer, false).id == pc.id,
{
}

/// With promiscuous mode on, the abstract syntax is never examined: the
/// context is accepted exactly when some offered transfer syntax is
/// supportable.
pub proof fn lemma_promiscuous_accepts(
    pc: ProposedContextView,
    supported_abstract: Seq<Seq<u8>>,
    supported_transfer: Seq<Seq<u8>>,
)
    ensures
        (spec_evaluate_context(pc, supported_abstract, supported_transfer, true).result
            == RESULT_ACCEPTANCE) == (spec_choose_transfer_syntax(
            pc.transfer_syntaxes,
            supported_transfer,
        ) is Some),
{
}

/// Whether `uid` is in `set`, comparing with trailing padding stripped.
pub fn uid_in(set: &Vec<Vec<u8>>, uid: &[u8]) -> (r: bool)
    ensures
        r == spec_uid_in(set@.map_values(|v: Vec<u8>| v@), uid@),
{
    let ghost sv = set@.map_values(|v: Vec<u8>| v@);
    let n = set.len();
    let mut i: usize = 0;
    while i < n
        invariant
            n == set@.len(),
            sv == set@.map_values(|v: Vec<u8>| v@),
            i <= n,
            forall|j: int| 0 <= j < i ==> spec_trim(#[trigger] sv[j]) != spec_trim(uid@),
        decreases n - i,
    {
        if padded_eq(set[i].as_slice(), uid) {
            assert(sv[i as int] == set@[i as int]@);
            return true;
        }
        assert(sv[i as int] == set@[i as int]@);
        i = i + 1;
    }
    false
}

/// The Explicit VR Little Endian UID as bytes.
pub fn explicit_vr_le_bytes() -> (r: Vec<u8>)
    ensures
        r@ == spec_explicit_vr_le(),
{
    let r: Vec<u8> = vec![
        0x31u8, 0x2eu8, 0x32u8, 0x2eu8, 0x38u8, 0x34u8, 0x30u8, 0x2eu8, 0x31u8, 0x30u8, 0x30u8,
        0x30u8, 0x38u8, 0x2eu8, 0x31u8, 0x2eu8, 0x32u8, 0x2eu8, 0x31u8,
    ];
    assert(r@ =~= spec_explicit_vr_le());
    r
}

/// The Implicit VR Little Endian UID as bytes.
pub fn implicit_vr_le_bytes() -> (r: Vec<u8>)
    ensures
        r@ == spec_implicit_vr_le(),
{
    let r: Vec<u8> = vec![
        0x31u8, 0x2eu8, 0x32u8, 0x2eu8, 0x38u8, 0x34u8, 0x30u8, 0x2eu8, 0x31u8, 0x30u8, 0x30u8,
        0x30u8, 0x38u8, 0x2eu8, 0x31u8, 0x2eu8, 0x32u8,
    ];
    assert(r@ =~= spec_implicit_vr_le());
    r
}

/// The first offered transfer syntax the acceptor supports, if any.
fn first_supported(proposed: &Vec<Vec<u8>>, supported: &Vec<Vec<u8>>) -> (r: Option<Vec<u8>>)
    ensures
        match r {
            Some(ts) => spec_first_supported(
                proposed@.map_values(|v: Vec<u8>| v@),
                supported@.map_values(|v: Vec<u8>| v@),
            ) == Some(ts@),
            None => spec_first_supported(
                proposed@.map_values(|v: Vec<u8>| v@),
                supported@.map_values(|v: Vec<u8>| v@),
            ) is None,
        },
{
    let ghost pv = proposed@.map_values(|v: Vec<u8>| v@);
    let ghost sv = supported@.map_values(|v: Vec<u8>| v@);
    let n = proposed.len();
    let mut i: usize = 0;
    assert(pv.subrange(0, n as int) =~= pv);
    while i < n
        invariant
            n == proposed@.len(),
            pv == proposed@.map_values(|v: Vec<u8>| v@),
            sv == supported@.map_values(|v: Vec<u8>| v@),
            i <= n,
            spec_first_supported(pv, sv) == spec_first_supported(
                pv.subrange(i as int, n as int),
                sv,
            ),
        decreases n - i,
    {
        let ghost suffix = pv.subrange(i as int, n as int);
        assert(suffix[0] == pv[i as int]);
        assert(pv[i as int] == proposed@[i as int]@);
        if uid_in(supported, proposed[i].as_slice()) {
            let ts = proposed[i].clone();
            assert(ts@ =~= pv[i as int]);
            assert(spec_first_supported(suffix, sv) == Some(pv[i as int]));
            return Some(ts);
        }
        proof {
            assert(suffix.drop_first() =~= pv.subrange(i + 1, n as int));
        }
        i = i + 1;
    }
    assert(pv.subrange(i as int, n as int) =~= Seq::<Seq<u8>>::empty());
    None
}

/// The acceptor's answer to one proposed context.
pub fn evaluate_presentation_context(
    pc: &ProposedContext,
    supported_abstract: &Vec<Vec<u8>>,
    supported_transfer: &Vec<Vec<u8>>,
    promiscuous: bool,
) -> (r: AcceptedContext)
    ensures
        r@ == spec_evaluate_context(
            pc@,
            supported_abstract@.map_values(|v: Vec<u8>| v@),
            supported_transfer@.map_values(|v: Vec<u8>| v@),
            promiscuous,
        ),
{
    let ghost pv = pc@;
    let echo_ts = if pc.transfer_syntaxes.len() > 0 {
        let e = pc.transfer_syntaxes[0].clone();
        assert(e@ =~= pv.transfer_syntaxes[0]);
        e
    } else {
        let e: Vec<u8> = Vec::new();
        assert(e@ =~= spec_echo_ts(pv.transfer_syntaxes));
        e
    };
    assert(echo_ts@ == spec_echo_ts(pv.transfer_syntaxes));
    if !promiscuous && !uid_in(supported_abstract, pc.abstract_syntax.as_slice()) {
        return AcceptedContext {
            id: pc.id,
            result: RESULT_ABSTRACT_SYNTAX_NOT_SUPPORTED,
            transfer_syntax: echo_ts,
        };
    }
    match first_supported(&pc.transfer_syntaxes, supported_transfer) {
        None => AcceptedContext {
            id: pc.id,
            result: RESULT_TRANSFER_SYNTAXES_NOT_SUPPORTED,
            transfer_syntax: echo_ts,
        },
        Some(ts) => {
            let trimmed = crate::uid::trim_bytes(ts.as_slice());
            let implicit = implicit_vr_le_bytes();
            let explicit = explicit_vr_le_bytes();
            if crate::uid::bytes_eq(trimmed.as_slice(), implicit.as_slice()) && uid_in(
                &pc.transfer_syntaxes,
                explicit.as_slice(),
            ) && uid_in(supported_transfer, explicit.as_slice()) {
                AcceptedContext {
                    id: pc.id,
                    result: RESULT_ACCEPTANCE,
                    transfer_syntax: explicit,
                }
            } else {
                AcceptedContext { id: pc.id, result: RESULT_ACCEPTANCE, transfer_syntax: ts }
            }
        },
    }
}

/// The acceptor's answers to every proposed context, in order: one PC-AC
/// item per PC-RQ item, paired by id, each answered as
/// `spec_evaluate_context` says.
pub fn negotiate_contexts(
    requested: &Vec<ProposedContext>,
    supported_abstract: &Vec<Vec<u8>>,
    supported_transfer: &Vec<Vec<u8>>,
    promiscuous: bool,
) -> (r: Vec<AcceptedContext>)
    ensures
        r@.len() == requested@.len(),
        forall|i: int|
            0 <= i < requested@.len() ==> (#[trigger] r@[i])@ == spec_evaluate_context(
                requested@[i]@,
                supported_abstract@.map_values(|v: Vec<u8>| v@),
                supported_transfer@.map_values(|v: Vec<u8>| v@),
                promiscuous,
            ),
{
    let mut r: Vec<AcceptedContext> = Vec::new();
    let n = requested.len();
    let mut i: usize = 0;
    while i < n
        invariant
            n == requested@.len(),
            i <= n,
            r@.len() == i,
            forall|j: int|
                0 <= j < i ==> (#[trigger] r@[j])@ == spec_evaluate_context(
                    requested@[j]@,
                    supported_abstract@.map_values(|v: Vec<u8>| v@),
                    supported_transfer@.map_values(|v: Vec<u8>| v@),
                    promiscuous,
                ),
        decreases n - i,
    {
        let ac = evaluate_presentation_context(
            &requested[i],
            supported_abstract,
            supported_transfer,
            promiscuous,
        );
        r.push(ac);
        i = i + 1;
    }
    r
}

/// One negotiated presentation context, as the requestor records it after
/// pairing the acceptor's answer with its own proposal.
pub struct NegotiatedContext {
    pub id: u8,
    pub abstract_syntax: Vec<u8>,
    pub result: u8,
    pub transfer_syntax: Vec<u8>,
}

/// The first reply carrying this context id, as the requestor pairs
/// answers with proposals.
pub open spec fn spec_reply_for(replies: Seq<AcceptedContextView>, id: u8) -> Option<
    AcceptedContextView,
>
    decreases replies.len(),
{
    if replies.len() == 0 {
        None
    } else if replies[0].id == id {
        Some(replies[0])
    } else {
        spec_reply_for(replies.drop_first(), id)
    }
}

/// Whether a reply list fails to answer the proposals: some proposal has no
/// reply carrying its id, or the reply that answers it accepts with a
/// transfer syntax the proposal never offered.
pub open spec fn spec_zip_violation(
    proposed: Seq<ProposedContextView>,
    replies: Seq<AcceptedContextView>,
) -> bool {
    exists|i: int|
        0 <= i < proposed.len() && match spec_reply_for(replies, (#[trigger] proposed[i]).id) {
            None => true,
            Some(rep) => rep.result == RESULT_ACCEPTANCE && !spec_uid_in(
                proposed[i].transfer_syntaxes,
                rep.transfer_syntax,
            ),
        }
}

/// Whether the reply list accepts at least one of the proposals.
pub open spec fn spec_negotiation_accepts(
    proposed: Seq<ProposedContextView>,
    replies: Seq<AcceptedContextView>,
) -> bool {
    exists|i: int|
        0 <= i < proposed.len() && match spec_reply_for(replies, (#[trigger] proposed[i]).id) {
            None => false,
            Some(rep) => rep.result == RESULT_ACCEPTANCE,
        }
}

/// An answer at position `x` whose predecessors all carry other ids is the
/// one `spec_reply_for` denotes.
proof fn lemma_reply_for_first(replies: Seq<AcceptedContextView>, id: u8, x: int)
    requires
        0 <= x < replies.len(),
        replies[x].id == id,
        forall|y: int| 0 <= y < x ==> (#[trigger] replies[y]).id != id,
    ensures
        spec_reply_for(replies, id) == Some(replies[x]),
    decreases x,
{
    if x > 0 {
        let tail = replies.drop_first();
        assert(forall|y: int| 0 <= y < x - 1 ==> (#[trigger] tail[y]).id != id);
        assert(tail[x - 1] == replies[x]);
        lemma_reply_for_first(tail, id, x - 1);
    }
}

/// With no answer carrying the id, `spec_reply_for` denotes none.
proof fn lemma_reply_for_none(replies: Seq<AcceptedContextView>, id: u8)
    requires
        forall|y: int| 0 <= y < replies.len() ==> (#[trigger] replies[y]).id != id,
    ensures
        spec_reply_for(replies, id) is None,
    decreases replies.len(),
{
    if replies.len() > 0 {
        let tail = replies.drop_first();
        assert(forall|y: int| 0 <= y < tail.len() ==> (#[trigger] tail[y]).id != id);
        lemma_reply_for_none(tail, id);
    }
}

/// The requestor's pairing of A-ASSOCIATE-AC answers with its proposals, by
/// id: each proposal's entry carries the result and transfer syntax of the
/// first reply with its id. It fails, with `ProtocolViolation`, exactly when
/// the reply list violates the pairing — some proposal unanswered, or
/// accepted with a syntax it never offered — so the table is owed on every
/// conforming reply.
pub fn zip_negotiation(
    proposed: &Vec<ProposedContext>,
    replies: &Vec<AcceptedContext>,
) -> (r: Result<Vec<NegotiatedContext>, DicomError>)
    ensures
        match r {
            Ok(table) => {
                &&& !spec_zip_violation(
                    proposed@.map_values(|p: ProposedContext| p@),
                    replies@.map_values(|c: AcceptedContext| c@),
                )
                &&& table@.len() == proposed@.len()
                &&& forall|i: int|
                    0 <= i < table@.len() ==> {
                        &&& (#[trigger] table@[i]).id == proposed@[i]@.id
                        &&& table@[i].abstract_syntax@ == proposed@[i]@.abstract_syntax
                        &&& match spec_reply_for(
                            replies@.map_values(|c: AcceptedContext| c@),
                            proposed@[i]@.id,
                        ) {
                            Some(rep) => table@[i].result == rep.result
                                && table@[i].transfer_syntax@ == rep.transfer_syntax,
                            None => false,
                        }
                        &&& (table@[i].result == RESULT_ACCEPTANCE ==> spec_uid_in(
                            proposed@[i]@.transfer_syntaxes,
                            table@[i].transfer_syntax@,
                        ))
                    }
            },
            Err(e) => {
                &&& e == DicomError::ProtocolViolation
                &&& spec_zip_violation(
                    proposed@.map_values(|p: ProposedContext| p@),
                    replies@.map_values(|c: AcceptedContext| c@),
                )
            },
        },
{
    let ghost pv = proposed@.map_values(|p: ProposedContext| p@);
    let ghost rv = replies@.map_values(|c: AcceptedContext| c@);
    let mut table: Vec<NegotiatedContext> = Vec::new();
    let n = proposed.len();
    let mut i: usize = 0;
    while i < n
        invariant
            n == proposed@.len(),
            pv == proposed@.map_values(|p: ProposedContext| p@),
            rv == replies@.map_values(|c: AcceptedContext| c@),
            i <= n,
            table@.len() == i,
            forall|k: int|
                0 <= k < i ==> {
                    &&& (#[trigger] table@[k]).id == proposed@[k]@.id
                    &&& table@[k].abstract_syntax@ == proposed@[k]@.abstract_syntax
                    &&& match spec_reply_for(rv, proposed@[k]@.id) {
                        Some(rep) => table@[k].result == rep.result && table@[k].transfer_syntax@
                            == rep.transfer_syntax,
                        None => false,
                    }
                    &&& (table@[k].result == RESULT_ACCEPTANCE ==> spec_uid_in(
                        proposed@[k]@.transfer_syntaxes,
                        table@[k].transfer_syntax@,
                    ))
                },
        decreases n - i,
    {
        let pc = &proposed[i];
        assert(pv[i as int] == pc@);
        let mut found: Option<usize> = None;
        let m = replies.len();
        let mut j: usize = 0;
        while j < m
            invariant
                m == replies@.len(),
                rv == replies@.map_values(|c: AcceptedContext| c@),
                j <= m,
                match found {
                    Option::Some(x) => x < m && replies@[x as int]@.id == pc@.id && forall|y: int|
                        0 <= y < x ==> (#[trigger] rv[y]).id != pc@.id,
                    Option::None => forall|y: int| 0 <= y < j ==> (#[trigger] rv[y]).id != pc@.id,
                },
            decreases m - j,
        {
            match found {
                Some(_) => {
                    j = m;
                },
                None => {
                    assert(rv[j as int] == replies@[j as int]@);
                    if replies[j].id == pc.id {
                        found = Some(j);
                    }
                    j = j + 1;
                },
            }
        }
        match found {
            None => {
                proof {
                    lemma_reply_for_none(rv, pc@.id);
                    assert(spec_reply_for(rv, pv[i as int].id) is None);
                    assert(spec_zip_violation(pv, rv));
                }
                return Err(DicomError::ProtocolViolation);
            },
            Some(x) => {
                proof {
                    assert(rv[x as int] == replies@[x as int]@);
                    lemma_reply_for_first(rv, pc@.id, x as int);
                }
                let reply = &replies[x];
                if reply.result == RESULT_ACCEPTANCE {
                    if !uid_in(&pc.transfer_syntaxes, reply.transfer_syntax.as_slice()) {
                        proof {
                            assert(spec_reply_for(rv, pv[i as int].id) == Some(rv[x as int]));
                            assert(spec_zip_violation(pv, rv));
                        }
                        return Err(DicomError::ProtocolViolation);
                    }
                }
                let entry = NegotiatedContext {
                    id: pc.id,
                    abstract_syntax: pc.abstract_syntax.clone(),
                    result: reply.result,
                    transfer_syntax: reply.transfer_syntax.clone(),
                };
                proof {
                    assert(entry.abstract_syntax@ =~= pc@.abstract_syntax);
                    assert(entry.transfer_syntax@ =~= reply@.transfer_syntax);
                }
                table.push(entry);
                proof {
                    let xi = x as int;
                    let ii = i as int;
                    assert(table@[ii].id == proposed@[ii]@.id);
                    assert(spec_reply_for(rv, proposed@[ii]@.id) == Some(rv[xi]));
                    assert(table@[ii].result == rv[xi].result && table@[ii].transfer_syntax@
                        == rv[xi].transfer_syntax);
                }
            },
        }
        i = i + 1;
    }
    proof {
        assert forall|k: int|
            0 <= k < pv.len() implies !(match spec_reply_for(rv, (#[trigger] pv[k]).id) {
            Option::None => true,
            Option::Some(rep) => rep.result == RESULT_ACCEPTANCE && !spec_uid_in(
                pv[k].transfer_syntaxes,
                rep.transfer_syntax,
            ),
        }) by {
            assert(pv[k] == proposed@[k]@);
            assert((#[trigger] table@[k]).id == proposed@[k]@.id);
            match spec_reply_for(rv, pv[k].id) {
                Option::None => {
                    assert(false);
                },
                Option::Some(rep) => {
                    assert(table@[k].result == rep.result);
                    if rep.result == RESULT_ACCEPTANCE {
                        assert(spec_uid_in(pv[k].transfer_syntaxes, table@[k].transfer_syntax@));
                        assert(table@[k].transfer_syntax@ == rep.transfer_syntax);
                    }
                },
            }
        }
        assert(!spec_zip_violation(pv, rv));
    }
    Ok(table)
}

/// Whether any negotiated context was accepted: without one the requestor
/// must release and fail with `NoAcceptedContext`.
pub fn any_accepted(table: &Vec<NegotiatedContext>) -> (r: bool)
    ensures
        r == exists|i: int|
            0 <= i < table@.len() && (#[trigger] table@[i]).result == RESULT_ACCEPTANCE,
{
    let n = table.len();
    let mut i: usize = 0;
    while i < n
        invariant
            n == table@.len(),
            i <= n,
            forall|j: int| 0 <= j < i ==> (#[trigger] table@[j]).result != RESULT_ACCEPTANCE,
        decreases n - i,
    {
        if table[i].result == RESULT_ACCEPTANCE {
            return true;
        }
        i = i + 1;
    }
    false
}

} // verus!
