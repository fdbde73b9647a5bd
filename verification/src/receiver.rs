//! The C-STORE acceptor: answering an association request, reassembling each
//! context's command and data streams from arriving PDVs, enforcing the
//! command-before-data order, and building the store responses. The accept
//! loop and the sockets live outside the crate.

use vstd::prelude::*;

use crate::error::DicomError;
use crate::negotiation::negotiate_contexts;
use crate::pdu::{
    AssociationAccept, AssociationRequest, Pdu, Pdv, spec_pdu_wf,
};
use crate::uid::spec_trim;

verus! {

/// One in-flight C-STORE on the receiver: whether its command stream has
/// completed, and the data chunks gathered so far.
#[derive(Debug)]
pub struct DicomTransfer {
    pub presentation_context_id: u8,
    pub command_received: bool,
    pub dataset_chunks: Vec<Vec<u8>>,
    pub total_bytes: u64,
}

/// The bytes a run of chunks concatenates to.
pub open spec fn spec_chunk_bytes(chunks: Seq<Seq<u8>>) -> Seq<u8> {
    crate::pdu::spec_concat_map(chunks, |c: Seq<u8>| c)
}

impl DicomTransfer {
    /// The chunk lengths add up to the recorded total.
    pub open spec fn wf(&self) -> bool {
        self.total_bytes == spec_chunk_bytes(self.dataset_chunks@.map_values(|c: Vec<u8>| c@)).len()
    }

    /// An empty transfer on one presentation context.
    pub fn new(presentation_context_id: u8) -> (r: Self)
        ensures
            r.presentation_context_id == presentation_context_id,
            !r.command_received,
            r.dataset_chunks@.len() == 0,
            r.total_bytes == 0,
            r.wf(),
    {
        let r = DicomTransfer {
            presentation_context_id,
            command_received: false,
            dataset_chunks: Vec::new(),
            total_bytes: 0,
        };
        proof {
            assert(r.dataset_chunks@.map_values(|c: Vec<u8>| c@) =~= Seq::<Seq<u8>>::empty());
        }
        r
    }

    /// Appends one arriving data chunk.
    pub fn add_chunk(&mut self, data: Vec<u8>)
        requires
            old(self).wf(),
            old(self).total_bytes + data@.len() <= u64::MAX,
        ensures
            final(self).dataset_chunks@ == old(self).dataset_chunks@.push(data),
            final(self).total_bytes == old(self).total_bytes + data@.len(),
            final(self).presentation_context_id == old(self).presentation_context_id,
            final(self).command_received == old(self).command_received,
            final(self).wf(),
    {
        proof {
            let before = self.dataset_chunks@.map_values(|c: Vec<u8>| c@);
            let after = self.dataset_chunks@.push(data).map_values(|c: Vec<u8>| c@);
            assert(after =~= before.push(data@));
            crate::pdu::lemma_concat_map_snoc(before, data@, |c: Seq<u8>| c);
        }
        self.total_bytes = self.total_bytes + data.len() as u64;
        self.dataset_chunks.push(data);
    }

    /// Concatenates the gathered chunks in arrival order: the reassembled
    /// data set.
    pub fn reconstruct_dataset(&self) -> (r: Vec<u8>)
        ensures
            r@ == spec_chunk_bytes(self.dataset_chunks@.map_values(|c: Vec<u8>| c@)),
    {
        let ghost cs = self.dataset_chunks@.map_values(|c: Vec<u8>| c@);
        let mut r: Vec<u8> = Vec::new();
        let n = self.dataset_chunks.len();
        let mut i: usize = 0;
        assert(cs.take(0) =~= Seq::<Seq<u8>>::empty());
        assert(r@ =~= spec_chunk_bytes(cs.take(0)));
        while i < n
            invariant
                n == self.dataset_chunks@.len(),
                cs == self.dataset_chunks@.map_values(|c: Vec<u8>| c@),
                i <= n,
                r@ == spec_chunk_bytes(cs.take(i as int)),
            decreases n - i,
        {
            assert(cs[i as int] == self.dataset_chunks@[i as int]@);
            r.extend_from_slice(self.dataset_chunks[i].as_slice());
            proof {
                crate::pdu::lemma_concat_map_snoc(cs.take(i as int), cs[i as int], |c: Seq<u8>| c);
                assert(cs.take(i + 1) =~= cs.take(i as int).push(cs[i as int]));
            }
            i = i + 1;
        }
        assert(cs.take(n as int) =~= cs);
        r
    }
}

/// How the acceptor answers an association request.
pub enum AcceptDecision {
    /// Establish: reply with this A-ASSOCIATE-AC.
    Accept(AssociationAccept),
    /// Refuse: reply with A-ASSOCIATE-RJ carrying these fields.
    Reject { result: u8, source: u8, reason: u8 },
}

/// Answers an A-ASSOCIATE-RQ: when the called AE title must match and does
/// not, the association is rejected with result 1, source 1, reason 7;
/// otherwise every proposed context is answered as the negotiation rules
/// say, the AE titles are echoed, and the acceptor's maximum PDU length is
/// announced.
pub fn accept_association(
    rq: &AssociationRequest,
    local_ae: &[u8],
    require_called_ae: bool,
    supported_abstract: &Vec<Vec<u8>>,
    supported_transfer: &Vec<Vec<u8>>,
    promiscuous: bool,
    max_pdu_length: u32,
) -> (r: AcceptDecision)
    ensures
        match r {
            AcceptDecision::Accept(ac) => {
                &&& ac@.called_ae == rq@.called_ae
                &&& ac@.calling_ae == rq@.calling_ae
                &&& ac@.max_pdu_length == max_pdu_length
                &&& ac@.contexts.len() == rq@.contexts.len()
                &&& forall|i: int|
                    0 <= i < rq@.contexts.len() ==> ac@.contexts[i]
                        == crate::negotiation::spec_evaluate_context(
                        rq@.contexts[i],
                        supported_abstract@.map_values(|v: Vec<u8>| v@),
                        supported_transfer@.map_values(|v: Vec<u8>| v@),
                        promiscuous,
                    )
                &&& (require_called_ae ==> spec_trim(rq@.called_ae) == spec_trim(local_ae@))
            },
            AcceptDecision::Reject { result, source, reason } => {
                &&& result == 1 && source == 1 && reason == 7
                &&& require_called_ae && spec_trim(rq@.called_ae) != spec_trim(local_ae@)
            },
        },
{
    if require_called_ae && !crate::uid::padded_eq(rq.called_ae.as_slice(), local_ae) {
        return AcceptDecision::Reject { result: 1, source: 1, reason: 7 };
    }
    let contexts = negotiate_contexts(&rq.contexts, supported_abstract, supported_transfer, promiscuous);
    let mut called_ae: Vec<u8> = Vec::new();
    called_ae.extend_from_slice(rq.called_ae.as_slice());
    let mut calling_ae: Vec<u8> = Vec::new();
    calling_ae.extend_from_slice(rq.calling_ae.as_slice());
    let ac = AssociationAccept { called_ae, calling_ae, max_pdu_length, contexts };
    proof {
        assert(ac@.called_ae =~= rq@.called_ae);
        assert(ac@.calling_ae =~= rq@.calling_ae);
        assert(forall|i: int|
            0 <= i < rq@.contexts.len() ==> ac@.contexts[i] == ac.contexts@[i]@
                && rq@.contexts[i] == rq.contexts@[i]@);
    }
    AcceptDecision::Accept(ac)
}

/// A data set whose final fragment has arrived, reassembled and ready to
/// persist.
pub struct CompletedStore {
    pub context_id: u8,
    pub data: Vec<u8>,
}

/// The receiver's per-connection reassembly state: one transfer per
/// presentation context with traffic in flight.
pub struct ReceiverSession {
    pub transfers: Vec<DicomTransfer>,
}

impl ReceiverSession {
    /// At most one transfer per context, each internally consistent.
    pub open spec fn wf(&self) -> bool {
        &&& forall|i: int, j: int|
            0 <= i < j < self.transfers@.len() ==> (#[trigger] self.transfers@[i])
                .presentation_context_id != (#[trigger] self.transfers@[j]).presentation_context_id
        &&& forall|i: int| 0 <= i < self.transfers@.len() ==> (#[trigger] self.transfers@[i]).wf()
    }

    /// A fresh connection with nothing in flight.
    pub fn new() -> (r: Self)
        ensures
            r.transfers@.len() == 0,
            r.wf(),
    {
        ReceiverSession { transfers: Vec::new() }
    }

    /// The position of the transfer on this context, if one is in flight.
    fn find_transfer(&self, context_id: u8) -> (r: Option<usize>)
        ensures
            match r {
                Some(i) => i < self.transfers@.len() && self.transfers@[i as int]
                    .presentation_context_id == context_id,
                None => forall|i: int|
                    0 <= i < self.transfers@.len() ==> (#[trigger] self.transfers@[i])
                        .presentation_context_id != context_id,
            },
    {
        let n = self.transfers.len();
        let mut i: usize = 0;
        while i < n
            invariant
                n == self.transfers@.len(),
                i <= n,
                forall|j: int|
                    0 <= j < i ==> (#[trigger] self.transfers@[j]).presentation_context_id
                        != context_id,
            decreases n - i,
        {
            if self.transfers[i].presentation_context_id == context_id {
                return Some(i);
            }
            i = i + 1;
        }
        None
    }

    /// Absorbs one arriving PDV: exactly the transition the transport rules
    /// prescribe. A command fragment never fails: it marks its context's
    /// transfer as having seen a command stream, opening a fresh transfer
    /// when none is in flight. A data fragment fails, changing nothing,
    /// exactly when its context has no command-marked transfer (or that
    /// transfer's byte count could not have come from 32-bit PDV lengths);
    /// otherwise a non-final fragment appends its payload to the transfer,
    /// and the final one evicts the transfer and hands its reassembled data
    /// set back.
    pub fn handle_pdv(&mut self, pdv: &Pdv) -> (r: Result<Option<CompletedStore>, DicomError>)
        requires
            old(self).wf(),
            pdv.data@.len() <= 0xFFFF_FFFF,
        ensures
            final(self).wf(),
            pdv.is_command ==> {
                &&& r == Ok::<Option<CompletedStore>, DicomError>(None)
                &&& if (exists|i: int|
                    0 <= i < old(self).transfers@.len() && (#[trigger] old(
                        self,
                    ).transfers@[i]).presentation_context_id == pdv.context_id) {
                    exists|i: int|
                        {
                            &&& 0 <= i < old(self).transfers@.len()
                            &&& (#[trigger] old(self).transfers@[i]).presentation_context_id
                                == pdv.context_id
                            &&& final(self).transfers@.len() == old(self).transfers@.len()
                            &&& final(self).transfers@[i].presentation_context_id
                                == pdv.context_id
                            &&& final(self).transfers@[i].command_received
                            &&& final(self).transfers@[i].dataset_chunks == old(
                                self,
                            ).transfers@[i].dataset_chunks
                            &&& final(self).transfers@[i].total_bytes == old(
                                self,
                            ).transfers@[i].total_bytes
                            &&& forall|k: int|
                                0 <= k < old(self).transfers@.len() && k != i ==> final(self).transfers@[k] == old(self).transfers@[k]
                        }
                } else {
                    &&& final(self).transfers@.len() == old(self).transfers@.len() + 1
                    &&& forall|k: int|
                        0 <= k < old(self).transfers@.len() ==> final(self).transfers@[k] == old(
                            self,
                        ).transfers@[k]
                    &&& final(self).transfers@.last().presentation_context_id == pdv.context_id
                    &&& final(self).transfers@.last().command_received
                    &&& final(self).transfers@.last().dataset_chunks@.len() == 0
                    &&& final(self).transfers@.last().total_bytes == 0
                }
            },
            !pdv.is_command ==> match r {
                Ok(completed) => match completed {
                    Some(store) => {
                        &&& pdv.is_last
                        &&& store.context_id == pdv.context_id
                        &&& exists|i: int|
                            {
                                &&& 0 <= i < old(self).transfers@.len()
                                &&& (#[trigger] old(self).transfers@[i]).presentation_context_id
                                    == pdv.context_id
                                &&& old(self).transfers@[i].command_received
                                &&& store.data@ == spec_chunk_bytes(
                                    old(self).transfers@[i].dataset_chunks@.map_values(
                                        |c: Vec<u8>| c@,
                                    ).push(pdv.data@),
                                )
                                &&& final(self).transfers@.len() == old(self).transfers@.len() - 1
                                &&& forall|k: int|
                                    0 <= k < final(self).transfers@.len() ==> final(self).transfers@[k] == (if k < i {
                                        old(self).transfers@[k]
                                    } else {
                                        old(self).transfers@[k + 1]
                                    })
                            }
                    },
                    None => {
                        &&& !pdv.is_last
                        &&& exists|i: int|
                            {
                                &&& 0 <= i < old(self).transfers@.len()
                                &&& (#[trigger] old(self).transfers@[i]).presentation_context_id
                                    == pdv.context_id
                                &&& old(self).transfers@[i].command_received
                                &&& final(self).transfers@.len() == old(self).transfers@.len()
                                &&& final(self).transfers@[i].presentation_context_id
                                    == pdv.context_id
                                &&& final(self).transfers@[i].command_received
                                &&& final(self).transfers@[i].dataset_chunks@.map_values(
                                    |c: Vec<u8>| c@,
                                ) == old(self).transfers@[i].dataset_chunks@.map_values(
                                    |c: Vec<u8>| c@,
                                ).push(pdv.data@)
                                &&& final(self).transfers@[i].total_bytes == old(
                                    self,
                                ).transfers@[i].total_bytes + pdv.data@.len()
                                &&& forall|k: int|
                                    0 <= k < old(self).transfers@.len() && k != i ==> final(self).transfers@[k] == old(self).transfers@[k]
                            }
                    },
                },
                Err(e) => {
                    &&& e == DicomError::ProtocolViolation
                    &&& final(self).transfers@ == old(self).transfers@
                    &&& ((forall|i: int|
                        0 <= i < old(self).transfers@.len() ==> (#[trigger] old(
                            self,
                        ).transfers@[i]).presentation_context_id != pdv.context_id) || (exists|i: int|
                        0 <= i < old(self).transfers@.len() && (#[trigger] old(
                            self,
                        ).transfers@[i]).presentation_context_id == pdv.context_id && (!old(
                            self,
                        ).transfers@[i].command_received || old(self).transfers@[i].total_bytes
                            > u64::MAX - 0xFFFF_FFFF)))
                },
            },
    {
        let found = self.find_transfer(pdv.context_id);
        if pdv.is_command {
            match found {
                Some(i) => {
                    let ghost before = self.transfers@;
                    let mut t = self.transfers.remove(i);
                    t.command_received = true;
                    self.transfers.insert(i, t);
                    proof {
                        assert(forall|k: int|
                            0 <= k < before.len() && k != i ==> self.transfers@[k] == before[k]);
                        assert(self.transfers@[i as int].presentation_context_id == before[
                            i as int].presentation_context_id);
                        assert(self.transfers@[i as int].dataset_chunks == before[
                            i as int].dataset_chunks);
                        assert(self.transfers@[i as int].total_bytes == before[
                            i as int].total_bytes);
                        assert(self.transfers@[i as int].wf());
                    }
                },
                None => {
                    let mut t = DicomTransfer::new(pdv.context_id);
                    t.command_received = true;
                    let ghost before = self.transfers@;
                    self.transfers.push(t);
                    proof {
                        assert(forall|k: int|
                            0 <= k < before.len() ==> self.transfers@[k] == before[k]);
                    }
                },
            }
            Ok(None)
        } else {
            let i = match found {
                Some(i) => i,
                None => {
                    return Err(DicomError::ProtocolViolation);
                },
            };
            if !self.transfers[i].command_received {
                return Err(DicomError::ProtocolViolation);
            }
            if self.transfers[i].total_bytes > u64::MAX - 0xFFFF_FFFF {
                // A byte count this size cannot arise from 32-bit PDV
                // lengths within one association; refuse it rather than let
                // the count overflow.
                return Err(DicomError::ProtocolViolation);
            }
            let ghost before = self.transfers@;
            let mut t = self.transfers.remove(i);
            proof {
                assert(t.wf());
            }
            let mut chunk: Vec<u8> = Vec::new();
            chunk.extend_from_slice(pdv.data.as_slice());
            assert(chunk@ =~= pdv.data@);
            t.add_chunk(chunk);
            proof {
                let old_chunks = before[i as int].dataset_chunks@.map_values(|c: Vec<u8>| c@);
                assert(t.dataset_chunks@.map_values(|c: Vec<u8>| c@) =~= old_chunks.push(
                    pdv.data@,
                ));
                assert(before[i as int].presentation_context_id == pdv.context_id);
                assert(before[i as int].command_received);
            }
            if pdv.is_last {
                let data = t.reconstruct_dataset();
                proof {
                    assert(forall|k: int|
                        0 <= k < self.transfers@.len() ==> #[trigger] self.transfers@[k]
                            == if k < i { before[k] } else { before[k + 1] });
                }
                Ok(Some(CompletedStore { context_id: pdv.context_id, data }))
            } else {
                self.transfers.insert(i, t);
                proof {
                    assert(forall|k: int|
                        0 <= k < before.len() && k != i ==> self.transfers@[k] == before[k]);
                    assert(self.transfers@[i as int].presentation_context_id == before[
                        i as int].presentation_context_id);
                    assert(self.transfers@[i as int].command_received);
                    assert(self.transfers@[i as int].dataset_chunks@.map_values(|c: Vec<u8>| c@)
                        == before[i as int].dataset_chunks@.map_values(|c: Vec<u8>| c@).push(
                        pdv.data@,
                    ));
                }
                Ok(None)
            }
        }
    }

    /// The transfers still in flight when the connection dies, so that their
    /// partial data can be flushed to disk for inspection.
    pub fn pending(&self) -> (r: Vec<CompletedStore>)
        requires
            self.wf(),
        ensures
            r@.len() == self.transfers@.len(),
            forall|i: int|
                0 <= i < r@.len() ==> (#[trigger] r@[i]).context_id == self.transfers@[i]
                    .presentation_context_id && r@[i].data@ == spec_chunk_bytes(
                    self.transfers@[i].dataset_chunks@.map_values(|c: Vec<u8>| c@),
                ),
    {
        let mut r: Vec<CompletedStore> = Vec::new();
        let n = self.transfers.len();
        let mut i: usize = 0;
        while i < n
            invariant
                self.wf(),
                n == self.transfers@.len(),
                i <= n,
                r@.len() == i,
                forall|j: int|
                    0 <= j < i ==> (#[trigger] r@[j]).context_id == self.transfers@[j]
                        .presentation_context_id && r@[j].data@ == spec_chunk_bytes(
                        self.transfers@[j].dataset_chunks@.map_values(|c: Vec<u8>| c@),
                    ),
            decreases n - i,
        {
            let data = self.transfers[i].reconstruct_dataset();
            r.push(
                CompletedStore {
                    context_id: self.transfers[i].presentation_context_id,
                    data,
                },
            );
            i = i + 1;
        }
        r
    }
}

/// The status a completed message is answered with: success when the
/// command was a C-STORE-RQ, `0xC000` (error, cannot understand) when the
/// command field is missing or names another operation.
pub fn response_status_for(cs: &crate::cstore::CommandSet) -> (r: u16)
    ensures
        r == (if cs@.command_field == Some(crate::cstore::COMMAND_FIELD_C_STORE_RQ) {
            0u16
        } else {
            0xC000u16
        }),
{
    match cs.command_field {
        Some(cf) => {
            if cf == crate::cstore::COMMAND_FIELD_C_STORE_RQ {
                0u16
            } else {
                0xC000u16
            }
        },
        None => 0xC000u16,
    }
}

/// The P-DATA-TF PDU answering one completed store: the C-STORE-RSP command
/// set in a single final command PDV on the same context.
pub fn build_store_response_pdu(
    context_id: u8,
    sop_class_uid: &[u8],
    sop_instance_uid: &[u8],
    message_id_responded: u16,
    status: u16,
) -> (r: Pdu)
    requires
        sop_class_uid@.len() <= 64,
        sop_instance_uid@.len() <= 64,
    ensures
        spec_pdu_wf(r@),
        r@ matches crate::pdu::PduView::PData(ps) && ps.len() == 1 && ps[0].context_id
            == context_id && ps[0].is_command && ps[0].is_last && ps[0].data
            == crate::cstore::spec_cstore_rsp_bytes(
            sop_class_uid@,
            sop_instance_uid@,
            message_id_responded,
            status,
        ),
{
    let command = crate::cstore::encode_cstore_rsp(
        sop_class_uid,
        sop_instance_uid,
        message_id_responded,
        status,
    );
    let ghost cb = command@;
    assert(command.len() <= 500);
    let pdv = Pdv { context_id, is_command: true, is_last: true, data: command };
    let mut values: Vec<Pdv> = Vec::new();
    values.push(pdv);
    proof {
        let pv = crate::pdu::PdvView { context_id, is_command: true, is_last: true, data: cb };
        assert(values@.map_values(|p: Pdv| p@) =~= seq![pv]);
        assert(seq![pv].drop_first() =~= Seq::<crate::pdu::PdvView>::empty());
        assert(crate::pdu::spec_pdvs(Seq::<crate::pdu::PdvView>::empty()) =~= Seq::<u8>::empty());
        assert(crate::pdu::spec_pdvs(seq![pv]) =~= crate::pdu::spec_pdv(pv) + Seq::<u8>::empty());
        assert(crate::pdu::spec_pdvs(seq![pv]).len() <= 0xFFFF_FFFF);
    }
    Pdu::PData(values)
}

} // verus!
