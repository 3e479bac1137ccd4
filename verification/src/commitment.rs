//! The commitment: the verifier's sealed output. A fixed-layout concatenation
//! of the four registers, the committed key, the build/compose hash and the
//! application identifier — 48+48+48+48+32+32+20 = 276 bytes.

use vstd::prelude::*;

verus! {

/// `s` extended with zero bytes up to length `n` (unchanged when already at
/// least that long).
pub open spec fn pad_to(s: Seq<u8>, n: int) -> Seq<u8> {
    if s.len() >= n {
        s
    } else {
        s + Seq::new((n - s.len()) as nat, |i: int| 0u8)
    }
}

/// The fixed commitment layout over the seven fields.
pub open spec fn commitment_bytes(
    rtmr0: Seq<u8>,
    rtmr1: Seq<u8>,
    rtmr2: Seq<u8>,
    rtmr3: Seq<u8>,
    committed_key: Seq<u8>,
    compose_hash: Seq<u8>,
    app_id: Seq<u8>,
) -> Seq<u8> {
    rtmr0 + rtmr1 + rtmr2 + rtmr3 + committed_key + pad_to(compose_hash, 32) + pad_to(app_id, 20)
}

/// The verified facts sealed for the external proving harness.
pub struct Commitment {
    pub rtmr0: Vec<u8>,
    pub rtmr1: Vec<u8>,
    pub rtmr2: Vec<u8>,
    pub rtmr3: Vec<u8>,
    /// The committed 32-byte application key/identity from the report data.
    pub committed_key: Vec<u8>,
    /// The build/compose identifier, at most 32 bytes before padding.
    pub compose_hash: Vec<u8>,
    /// The application identifier, at most 20 bytes before padding.
    pub app_id: Vec<u8>,
}

impl Commitment {
    /// Field widths fit the fixed layout.
    pub open spec fn wf(&self) -> bool {
        &&& self.rtmr0@.len() == 48
        &&& self.rtmr1@.len() == 48
        &&& self.rtmr2@.len() == 48
        &&& self.rtmr3@.len() == 48
        &&& self.committed_key@.len() == 32
        &&& self.compose_hash@.len() <= 32
        &&& self.app_id@.len() <= 20
    }

    /// The encoded layout of this commitment.
    pub open spec fn encoded(&self) -> Seq<u8> {
        commitment_bytes(
            self.rtmr0@,
            self.rtmr1@,
            self.rtmr2@,
            self.rtmr3@,
            self.committed_key@,
            self.compose_hash@,
            self.app_id@,
        )
    }

    /// Serializes the commitment into its fixed 276-byte layout: the four
    /// registers, the committed key, then the compose hash and application id
    /// each zero-padded to its fixed width.
    pub fn encode(&self) -> (r: Vec<u8>)
        requires
            self.wf(),
        ensures
            r@ == self.encoded(),
            r@.len() == 276,
    {
        let mut out: Vec<u8> = Vec::new();
        append_bytes(&mut out, self.rtmr0.as_slice());
        append_bytes(&mut out, self.rtmr1.as_slice());
        append_bytes(&mut out, self.rtmr2.as_slice());
        append_bytes(&mut out, self.rtmr3.as_slice());
        append_bytes(&mut out, self.committed_key.as_slice());
        append_padded(&mut out, self.compose_hash.as_slice(), 32);
        append_padded(&mut out, self.app_id.as_slice(), 20);
        proof {
            assert(out@ =~= self.encoded());
        }
        out
    }
}

/// Appends all of `src` to `out`.
fn append_bytes(out: &mut Vec<u8>, src: &[u8])
    ensures
        final(out)@ == old(out)@ + src@,
{
    let mut i: usize = 0;
    while i < src.len()
        invariant
            i <= src@.len(),
            out@ =~= old(out)@ + src@.subrange(0, i as int),
        decreases src@.len() - i,
    {
        out.push(*vstd::slice::slice_index_get(src, i));
        i = i + 1;
    }
    proof {
        assert(out@ =~= old(out)@ + src@);
    }
}

/// Appends `src` to `out`, zero-padded to `width`.
fn append_padded(out: &mut Vec<u8>, src: &[u8], width: usize)
    requires
        src@.len() <= width,
    ensures
        final(out)@ == old(out)@ + pad_to(src@, width as int),
{
    append_bytes(out, src);
    let mut i: usize = src.len();
    while i < width
        invariant
            src@.len() <= i <= width,
            out@ =~= old(out)@ + src@ + Seq::new((i - src@.len()) as nat, |k: int| 0u8),
        decreases width - i,
    {
        out.push(0u8);
        i = i + 1;
    }
    proof {
        assert(out@ =~= old(out)@ + pad_to(src@, width as int));
    }
}

/// Parses a 276-byte buffer back into the commitment fields it lays out;
/// `None` exactly when the buffer is not 276 bytes long.
pub fn decode_commitment(bytes: &[u8]) -> (r: Option<Commitment>)
    ensures
        r is Some <==> bytes@.len() == 276,
        r matches Some(c) ==> {
            &&& c.rtmr0@ == bytes@.subrange(0, 48)
            &&& c.rtmr1@ == bytes@.subrange(48, 96)
            &&& c.rtmr2@ == bytes@.subrange(96, 144)
            &&& c.rtmr3@ == bytes@.subrange(144, 192)
            &&& c.committed_key@ == bytes@.subrange(192, 224)
            &&& c.compose_hash@ == bytes@.subrange(224, 256)
            &&& c.app_id@ == bytes@.subrange(256, 276)
            &&& c.wf()
        },
{
    if bytes.len() != 276 {
        return None;
    }
    Some(
        Commitment {
            rtmr0: vstd::slice::slice_to_vec(vstd::slice::slice_subrange(bytes, 0, 48)),
            rtmr1: vstd::slice::slice_to_vec(vstd::slice::slice_subrange(bytes, 48, 96)),
            rtmr2: vstd::slice::slice_to_vec(vstd::slice::slice_subrange(bytes, 96, 144)),
            rtmr3: vstd::slice::slice_to_vec(vstd::slice::slice_subrange(bytes, 144, 192)),
            committed_key: vstd::slice::slice_to_vec(vstd::slice::slice_subrange(bytes, 192, 224)),
            compose_hash: vstd::slice::slice_to_vec(vstd::slice::slice_subrange(bytes, 224, 256)),
            app_id: vstd::slice::slice_to_vec(vstd::slice::slice_subrange(bytes, 256, 276)),
        },
    )
}

/// A round trip: decoding an encoded commitment with exact-width fields gives
/// the fields back, byte for byte.
pub proof fn lemma_commitment_round_trip(c: Commitment)
    requires
        c.wf(),
        c.compose_hash@.len() == 32,
        c.app_id@.len() == 20,
    ensures
        c.encoded().subrange(0, 48) == c.rtmr0@,
        c.encoded().subrange(48, 96) == c.rtmr1@,
        c.encoded().subrange(96, 144) == c.rtmr2@,
        c.encoded().subrange(144, 192) == c.rtmr3@,
        c.encoded().subrange(192, 224) == c.committed_key@,
        c.encoded().subrange(224, 256) == c.compose_hash@,
        c.encoded().subrange(256, 276) == c.app_id@,
{
    assert(c.encoded().subrange(0, 48) =~= c.rtmr0@);
    assert(c.encoded().subrange(48, 96) =~= c.rtmr1@);
    assert(c.encoded().subrange(96, 144) =~= c.rtmr2@);
    assert(c.encoded().subrange(144, 192) =~= c.rtmr3@);
    assert(c.encoded().subrange(192, 224) =~= c.committed_key@);
    assert(c.encoded().subrange(224, 256) =~= c.compose_hash@);
    assert(c.encoded().subrange(256, 276) =~= c.app_id@);
}

/// The response the host layer hands back to its caller: the commitment
/// fields together with the succinct proof and its public signals.
pub struct ProofResponse {
    pub rtmr0: Vec<u8>,
    pub rtmr1: Vec<u8>,
    pub rtmr2: Vec<u8>,
    pub rtmr3: Vec<u8>,
    pub committed_key: Vec<u8>,
    pub compose_hash: Vec<u8>,
    pub app_id: Vec<u8>,
    pub proof: Vec<u8>,
    pub signals: Vec<String>,
}

impl ProofResponse {
    /// Pairs a decoded commitment with the proof bytes and public signals.
    pub fn from_commitment(c: Commitment, proof: Vec<u8>, signals: Vec<String>) -> (r:
        ProofResponse)
        ensures
            r.rtmr0@ == c.rtmr0@,
            r.rtmr1@ == c.rtmr1@,
            r.rtmr2@ == c.rtmr2@,
            r.rtmr3@ == c.rtmr3@,
            r.committed_key@ == c.committed_key@,
            r.compose_hash@ == c.compose_hash@,
            r.app_id@ == c.app_id@,
            r.proof@ == proof@,
            r.signals@ == signals@,
    {
        ProofResponse {
            rtmr0: c.rtmr0,
            rtmr1: c.rtmr1,
            rtmr2: c.rtmr2,
            rtmr3: c.rtmr3,
            committed_key: c.committed_key,
            compose_hash: c.compose_hash,
            app_id: c.app_id,
            proof,
            signals,
        }
    }
}

} // verus!
