//! Message transport: a DIMSE message's command and data-set bytes are cut
//! into PDVs no larger than the negotiated payload limit, carried in
//! P-DATA-TF PDUs, and concatenated back on arrival.

use vstd::prelude::*;

use crate::pdu::{lemma_concat_map_snoc, spec_concat_map, Pdu, Pdv, PdvView};

verus! {

/// The bytes carried by a run of PDVs, in order.
pub open spec fn spec_assemble(ps: Seq<PdvView>) -> Seq<u8> {
    spec_concat_map(ps, |p: PdvView| p.data)
}

/// The PDVs that carry `data` on context `context_id` under `limit` bytes of
/// payload each: full chunks, then the remainder, with `is_last` set only on
/// the final one. Empty data still yields one (empty, final) PDV.
pub open spec fn spec_fragment(
    context_id: u8,
    is_command: bool,
    data: Seq<u8>,
    limit: nat,
) -> Seq<PdvView>
    recommends
        limit >= 1,
    decreases data.len(),
{
    if data.len() <= limit || limit == 0 {
        seq![
            PdvView { context_id, is_command, is_last: true, data },
        ]
    } else {
        seq![
            PdvView {
                context_id,
                is_command,
                is_last: false,
                data: data.subrange(0, limit as int),
            },
        ] + spec_fragment(context_id, is_command, data.subrange(limit as int, data.len() as int), limit)
    }
}

/// Reassembling the fragments of a message yields the message: for every
/// payload limit of at least one byte, `assemble(fragment(m, limit)) == m`.
pub proof fn lemma_fragment_assemble(context_id: u8, is_command: bool, data: Seq<u8>, limit: nat)
    requires
        limit >= 1,
    ensures
        spec_assemble(spec_fragment(context_id, is_command, data, limit)) == data,
    decreases data.len(),
{
    let fr = spec_fragment(context_id, is_command, data, limit);
    if data.len() <= limit {
        assert(fr.drop_first() =~= Seq::<PdvView>::empty());
        assert(spec_assemble(Seq::<PdvView>::empty()) =~= Seq::<u8>::empty());
        assert(spec_assemble(fr) =~= data + Seq::<u8>::empty());
        assert(data + Seq::<u8>::empty() =~= data);
    } else {
        let head = data.subrange(0, limit as int);
        let tail = data.subrange(limit as int, data.len() as int);
        let rest = spec_fragment(context_id, is_command, tail, limit);
        assert(fr.drop_first() =~= rest);
        lemma_fragment_assemble(context_id, is_command, tail, limit);
        assert(spec_assemble(fr) =~= head + spec_assemble(rest));
        assert(head + tail =~= data);
    }
}

/// Every fragment of a message carries its context and stream kind, stays
/// within the limit, and is full except possibly the last; `is_last` marks
/// exactly the final fragment.
pub proof fn lemma_fragment_shape(context_id: u8, is_command: bool, data: Seq<u8>, limit: nat)
    requires
        limit >= 1,
    ensures
        ({
            let fr = spec_fragment(context_id, is_command, data, limit);
            &&& fr.len() >= 1
            &&& forall|i: int|
                0 <= i < fr.len() ==> {
                    &&& (#[trigger] fr[i]).context_id == context_id
                    &&& fr[i].is_command == is_command
                    &&& fr[i].data.len() <= limit
                    &&& (fr[i].is_last <==> i == fr.len() - 1)
                    &&& (i < fr.len() - 1 ==> fr[i].data.len() == limit)
                }
        }),
    decreases data.len(),
{
    let fr = spec_fragment(context_id, is_command, data, limit);
    if data.len() <= limit {
    } else {
        let tail = data.subrange(limit as int, data.len() as int);
        lemma_fragment_shape(context_id, is_command, tail, limit);
        let rest = spec_fragment(context_id, is_command, tail, limit);
        assert(forall|i: int| 1 <= i < fr.len() ==> fr[i] == rest[i - 1]);
    }
}

/// Cuts one stream of message bytes into PDVs of at most `limit` payload
/// bytes each.
pub fn fragment_message(context_id: u8, is_command: bool, data: &[u8], limit: usize) -> (r: Vec<
    Pdv,
>)
    requires
        limit >= 1,
    ensures
        r@.map_values(|p: Pdv| p@) == spec_fragment(
            context_id,
            is_command,
            data@,
            limit as nat,
        ),
{
    let n = data.len();
    let mut r: Vec<Pdv> = Vec::new();
    let mut offset: usize = 0;
    proof {
        let whole = spec_fragment(context_id, is_command, data@, limit as nat);
        assert(r@.map_values(|p: Pdv| p@) =~= Seq::<PdvView>::empty());
        assert(data@.subrange(0, n as int) =~= data@);
        assert(Seq::<PdvView>::empty() + whole =~= whole);
    }
    while n - offset > limit
        invariant
            limit >= 1,
            offset <= n == data@.len(),
            spec_fragment(context_id, is_command, data@, limit as nat) == r@.map_values(
                |p: Pdv| p@,
            ) + spec_fragment(
                context_id,
                is_command,
                data@.subrange(offset as int, n as int),
                limit as nat,
            ),
        decreases n - offset,
    {
        let chunk = crate::pdu::copy_range(data, offset, offset + limit);
        let pdv = Pdv { context_id, is_command, is_last: false, data: chunk };
        proof {
            let suffix = data@.subrange(offset as int, n as int);
            let head = suffix.subrange(0, limit as int);
            let tail = suffix.subrange(limit as int, suffix.len() as int);
            assert(head =~= data@.subrange(offset as int, (offset + limit) as int));
            assert(tail =~= data@.subrange((offset + limit) as int, n as int));
            let rv = r@.map_values(|p: Pdv| p@);
            let rv2 = r@.push(pdv).map_values(|p: Pdv| p@);
            assert(rv2 =~= rv.push(pdv@));
            assert(spec_fragment(context_id, is_command, suffix, limit as nat) == seq![pdv@]
                + spec_fragment(context_id, is_command, tail, limit as nat));
            assert(rv + (seq![pdv@] + spec_fragment(context_id, is_command, tail, limit as nat))
                =~= rv2 + spec_fragment(context_id, is_command, tail, limit as nat));
        }
        r.push(pdv);
        offset = offset + limit;
    }
    let chunk = crate::pdu::copy_range(data, offset, n);
    let pdv = Pdv { context_id, is_command, is_last: true, data: chunk };
    proof {
        let suffix = data@.subrange(offset as int, n as int);
        assert(suffix.len() <= limit);
        assert(spec_fragment(context_id, is_command, suffix, limit as nat) == seq![pdv@]);
        let rv = r@.map_values(|p: Pdv| p@);
        let rv2 = r@.push(pdv).map_values(|p: Pdv| p@);
        assert(rv2 =~= rv.push(pdv@));
        assert(rv + seq![pdv@] =~= rv2);
    }
    r.push(pdv);
    r
}

/// Concatenates the payloads of a run of PDVs, in arrival order.
pub fn assemble_chunks(values: &Vec<Pdv>) -> (r: Vec<u8>)
    ensures
        r@ == spec_assemble(values@.map_values(|p: Pdv| p@)),
{
    let ghost ps = values@.map_values(|p: Pdv| p@);
    let mut r: Vec<u8> = Vec::new();
    let n = values.len();
    let mut i: usize = 0;
    assert(ps.take(0) =~= Seq::<PdvView>::empty());
    assert(r@ =~= spec_assemble(ps.take(0)));
    while i < n
        invariant
            n == values@.len(),
            ps == values@.map_values(|p: Pdv| p@),
            i <= n,
            r@ == spec_assemble(ps.take(i as int)),
        decreases n - i,
    {
        assert(ps[i as int] == values@[i as int]@);
        r.extend_from_slice(values[i].data.as_slice());
        proof {
            lemma_concat_map_snoc(ps.take(i as int), ps[i as int], |p: PdvView| p.data);
            assert(ps.take(i + 1) =~= ps.take(i as int).push(ps[i as int]));
        }
        i = i + 1;
    }
    assert(ps.take(n as int) =~= ps);
    r
}

/// The PDUs that carry one whole DIMSE message: the command stream's PDVs,
/// then, when a data set is present, the data stream's, one PDV per
/// P-DATA-TF.
pub fn build_message_pdus(
    context_id: u8,
    command: &[u8],
    dataset: Option<&[u8]>,
    limit: usize,
) -> (r: Vec<Pdu>)
    requires
        limit >= 1,
    ensures
        ({
            let cmd_frags = spec_fragment(context_id, true, command@, limit as nat);
            let all_frags = match dataset {
                Option::Some(d) => cmd_frags + spec_fragment(
                    context_id,
                    false,
                    d@,
                    limit as nat,
                ),
                Option::None => cmd_frags,
            };
            &&& r@.len() == all_frags.len()
            &&& forall|i: int|
                0 <= i < r@.len() ==> r@[i]@ == crate::pdu::PduView::PData(seq![all_frags[i]])
        }),
{
    let ghost cmd_frags = spec_fragment(context_id, true, command@, limit as nat);
    let mut fragments = fragment_message(context_id, true, command, limit);
    match dataset {
        Some(d) => {
            let mut data_fragments = fragment_message(context_id, false, d, limit);
            let ghost before = fragments@;
            fragments.append(&mut data_fragments);
            proof {
                let all = cmd_frags + spec_fragment(context_id, false, d@, limit as nat);
                assert(fragments@.map_values(|p: Pdv| p@) =~= all);
            }
        },
        None => {},
    }
    let ghost all_frags = fragments@.map_values(|p: Pdv| p@);
    let mut r: Vec<Pdu> = Vec::new();
    let n = fragments.len();
    let mut i: usize = 0;
    while i < n
        invariant
            n == fragments@.len(),
            all_frags == fragments@.map_values(|p: Pdv| p@),
            i <= n,
            r@.len() == i,
            forall|j: int|
                0 <= j < i ==> r@[j]@ == crate::pdu::PduView::PData(seq![all_frags[j]]),
        decreases n - i,
    {
        let pdv = fragments[i].clone_pdv();
        let mut one: Vec<Pdv> = Vec::new();
        one.push(pdv);
        proof {
            assert(one@.map_values(|p: Pdv| p@) =~= seq![all_frags[i as int]]);
        }
        r.push(Pdu::PData(one));
        i = i + 1;
    }
    r
}

} // verus!
