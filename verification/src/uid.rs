//! UIDs and application-entity titles as byte strings, with the padding the
//! wire demands: UIDs are padded to even length with a trailing NUL, AE titles
//! to 16 bytes with spaces. Comparison strips the padding.

use vstd::prelude::*;

verus! {

/// Bytes that count as trailing padding on a UID or AE title.
pub open spec fn spec_is_pad_byte(b: u8) -> bool {
    b == 0u8 || b == 32u8
}

/// `u` with one NUL appended when its length is odd, as UIDs are written in
/// the variable items of an association PDU.
pub open spec fn spec_pad_uid(u: Seq<u8>) -> Seq<u8> {
    if u.len() % 2 == 1 {
        u + seq![0u8]
    } else {
        u
    }
}

/// `s` with every trailing NUL and space removed.
pub open spec fn spec_trim(s: Seq<u8>) -> Seq<u8>
    decreases s.len(),
{
    if s.len() > 0 && spec_is_pad_byte(s[s.len() - 1]) {
        spec_trim(s.drop_last())
    } else {
        s
    }
}

/// A byte string that carries no trailing padding of its own.
pub open spec fn spec_trimmed(s: Seq<u8>) -> bool {
    s.len() == 0 || !spec_is_pad_byte(s[s.len() - 1])
}

/// A well-formed UID value: non-empty, at most 64 bytes, no trailing padding.
pub open spec fn spec_uid_wf(u: Seq<u8>) -> bool {
    1 <= u.len() <= 64 && spec_trimmed(u)
}

/// A well-formed AE title value: at most 16 bytes, no trailing padding.
pub open spec fn spec_ae_wf(a: Seq<u8>) -> bool {
    a.len() <= 16 && spec_trimmed(a)
}

/// `n` spaces.
pub open spec fn spec_spaces(n: nat) -> Seq<u8> {
    Seq::new(n, |i: int| 32u8)
}

/// An AE title space-padded to its 16-byte field.
pub open spec fn spec_pad_ae(a: Seq<u8>) -> Seq<u8>
    recommends
        a.len() <= 16,
{
    a + spec_spaces((16 - a.len()) as nat)
}

/// Trimming never changes a byte string that carries no padding.
pub proof fn lemma_trim_of_trimmed(s: Seq<u8>)
    requires
        spec_trimmed(s),
    ensures
        spec_trim(s) == s,
{
}

/// Trailing padding of any length trims away entirely.
pub proof fn lemma_trim_drops_padding(s: Seq<u8>, pad: Seq<u8>)
    requires
        spec_trimmed(s),
        forall|i: int| 0 <= i < pad.len() ==> spec_is_pad_byte(#[trigger] pad[i]),
    ensures
        spec_trim(s + pad) == s,
    decreases pad.len(),
{
    if pad.len() == 0 {
        assert(s + pad =~= s);
    } else {
        let shorter = pad.drop_last();
        assert(forall|i: int| 0 <= i < shorter.len() ==> spec_is_pad_byte(#[trigger] shorter[i]));
        let whole = s + pad;
        assert(whole.len() > 0 && spec_is_pad_byte(whole[whole.len() - 1]));
        assert(whole.drop_last() =~= s + shorter);
        lemma_trim_drops_padding(s, shorter);
    }
}

/// A well-formed UID survives the round trip through wire padding.
pub proof fn lemma_trim_pad_uid(u: Seq<u8>)
    requires
        spec_trimmed(u),
    ensures
        spec_trim(spec_pad_uid(u)) == u,
{
    if u.len() % 2 == 1 {
        lemma_trim_drops_padding(u, seq![0u8]);
    } else {
        lemma_trim_of_trimmed(u);
    }
}

/// A well-formed AE title survives the round trip through its 16-byte field.
pub proof fn lemma_trim_pad_ae(a: Seq<u8>)
    requires
        spec_ae_wf(a),
    ensures
        spec_trim(spec_pad_ae(a)) == a,
{
    lemma_trim_drops_padding(a, spec_spaces((16 - a.len()) as nat));
}

/// Trimming never lengthens a byte string, and its result carries no
/// trailing padding of its own.
pub proof fn lemma_trim_shortens(s: Seq<u8>)
    ensures
        spec_trim(s).len() <= s.len(),
        spec_trimmed(spec_trim(s)),
    decreases s.len(),
{
    if s.len() > 0 && spec_is_pad_byte(s[s.len() - 1]) {
        lemma_trim_shortens(s.drop_last());
    }
}

/// Byte-for-byte equality of two byte strings.
pub fn bytes_eq(a: &[u8], b: &[u8]) -> (r: bool)
    ensures
        r == (a@ == b@),
{
    if a.len() != b.len() {
        assert(a@.len() != b@.len());
        return false;
    }
    let n = a.len();
    let mut i: usize = 0;
    while i < n
        invariant
            n == a@.len() == b@.len(),
            i <= n,
            forall|j: int| 0 <= j < i ==> a@[j] == b@[j],
        decreases n - i,
    {
        if a[i] != b[i] {
            return false;
        }
        i = i + 1;
    }
    assert(a@ =~= b@);
    true
}

/// A copy of `s` with its trailing NUL and space padding removed.
pub fn trim_bytes(s: &[u8]) -> (r: Vec<u8>)
    ensures
        r@ == spec_trim(s@),
{
    let mut end: usize = s.len();
    assert(s@.subrange(0, s@.len() as int) =~= s@);
    while end > 0 && (s[end - 1] == 0u8 || s[end - 1] == 32u8)
        invariant
            end <= s@.len(),
            spec_trim(s@) == spec_trim(s@.subrange(0, end as int)),
        decreases end,
    {
        assert(s@.subrange(0, end as int).drop_last() =~= s@.subrange(0, end - 1));
        end = end - 1;
    }
    let mut r: Vec<u8> = Vec::new();
    let mut i: usize = 0;
    while i < end
        invariant
            end <= s@.len(),
            i <= end,
            r@ =~= s@.subrange(0, i as int),
        decreases end - i,
    {
        r.push(s[i]);
        i = i + 1;
    }
    proof {
        let kept = s@.subrange(0, end as int);
        assert(spec_trimmed(kept));
        lemma_trim_of_trimmed(kept);
    }
    r
}

/// Equality of two UID or AE-title byte strings after stripping the trailing
/// padding from each, as the protocol compares them.
pub fn padded_eq(a: &[u8], b: &[u8]) -> (r: bool)
    ensures
        r == (spec_trim(a@) == spec_trim(b@)),
{
    let ta = trim_bytes(a);
    let tb = trim_bytes(b);
    bytes_eq(ta.as_slice(), tb.as_slice())
}

/// `a` padded with spaces to the 16-byte AE-title field.
pub fn pad_ae(a: &[u8]) -> (r: Vec<u8>)
    requires
        a@.len() <= 16,
    ensures
        r@ == spec_pad_ae(a@),
        r@.len() == 16,
{
    let mut r: Vec<u8> = Vec::new();
    let mut i: usize = 0;
    while i < a.len()
        invariant
            i <= a@.len() <= 16,
            r@ =~= a@.subrange(0, i as int),
        decreases a@.len() - i,
    {
        r.push(a[i]);
        i = i + 1;
    }
    assert(r@ =~= a@);
    while r.len() < 16
        invariant
            a@.len() <= r@.len() <= 16,
            r@ =~= a@ + spec_spaces((r@.len() - a@.len()) as nat),
        decreases 16 - r@.len(),
    {
        r.push(32u8);
    }
    assert(r@ =~= spec_pad_ae(a@));
    r
}

/// `u` padded with one NUL when odd, as a UID is written in a variable item.
pub fn pad_uid(u: &[u8]) -> (r: Vec<u8>)
    ensures
        r@ == spec_pad_uid(u@),
{
    let mut r: Vec<u8> = Vec::new();
    r.extend_from_slice(u);
    assert(r@ =~= u@);
    if u.len() % 2 == 1 {
        r.push(0u8);
        assert(r@ =~= u@ + seq![0u8]);
    }
    r
}

} // verus!
