//! Structural decoding of a TEE attestation quote: fixed header, a report
//! body variant keyed by quote version and TEE type, and the signature block
//! with its nested certification data. Purely structural — no cryptography.

use vstd::prelude::*;

use crate::errors::VerifyError;

verus! {

/// The little-endian 16-bit integer at offset `off` of `b`.
pub open spec fn le16(b: Seq<u8>, off: int) -> int {
    b[off] + 256 * b[off + 1]
}

/// The little-endian 32-bit integer at offset `off` of `b`.
pub open spec fn le32(b: Seq<u8>, off: int) -> int {
    b[off] + 256 * b[off + 1] + 65536 * b[off + 2] + 16777216 * b[off + 3]
}

/// The fixed 48-byte quote header.
pub struct QuoteHeader {
    /// Quote format version: 3, 4 or 5.
    pub version: u16,
    /// Identifier of the attestation key's signing algorithm.
    pub attestation_key_type: u16,
    /// TEE type discriminant: 0 for SGX, 0x81 for TDX.
    pub tee_type: u32,
    pub qe_svn: u16,
    pub pce_svn: u16,
    /// 16-byte quoting-enclave vendor id.
    pub qe_vendor_id: Vec<u8>,
    /// 20 bytes of user data.
    pub user_data: Vec<u8>,
}

/// The TD 1.0 report body: 584 bytes of platform measurements, the four
/// runtime measurement registers, and the 64-byte report data.
pub struct Td10Report {
    pub tee_tcb_svn: Vec<u8>,
    pub mr_seam: Vec<u8>,
    pub mr_signer_seam: Vec<u8>,
    pub seam_attributes: Vec<u8>,
    pub td_attributes: Vec<u8>,
    pub xfam: Vec<u8>,
    pub mr_td: Vec<u8>,
    pub mr_config_id: Vec<u8>,
    pub mr_owner: Vec<u8>,
    pub mr_owner_config: Vec<u8>,
    pub rt_mr0: Vec<u8>,
    pub rt_mr1: Vec<u8>,
    pub rt_mr2: Vec<u8>,
    pub rt_mr3: Vec<u8>,
    pub report_data: Vec<u8>,
}

/// The report body variants a quote may carry. This verifier consumes only
/// the TD 1.0 report; the others are decoded structurally and then rejected.
pub enum ReportBody {
    /// A 384-byte SGX enclave report, kept raw.
    SgxEnclave(Vec<u8>),
    /// The TD 1.0 report.
    Td10(Td10Report),
    /// The TD 1.5 report: a TD 1.0 base plus 64 trailing bytes.
    Td15 { base: Td10Report, extra: Vec<u8> },
}

/// The quote's signature block, normalized across auth-data versions: the
/// ECDSA signature and attestation public key, the quoting-enclave report and
/// its signature, the QE authentication data, and the certification data.
pub struct SignatureBlock {
    pub ecdsa_signature: Vec<u8>,
    pub ecdsa_attestation_key: Vec<u8>,
    pub qe_report: Vec<u8>,
    pub qe_report_signature: Vec<u8>,
    pub qe_auth_data: Vec<u8>,
    /// Certification-data type; 5 means a raw PCK certificate chain.
    pub cert_type: u16,
    /// Raw certification-data bytes (the certificate chain for type 5).
    pub cert_data: Vec<u8>,
}

/// A decoded quote.
pub struct Quote {
    pub header: QuoteHeader,
    pub report: ReportBody,
    pub signature: SignatureBlock,
}

pub open spec fn quote_version(b: Seq<u8>) -> int {
    le16(b, 0)
}

pub open spec fn tee_type_of(b: Seq<u8>) -> int {
    le32(b, 4)
}

/// The report-body type field of a version-5 quote.
pub open spec fn body_type_of(b: Seq<u8>) -> int {
    le16(b, 48)
}

/// Whether the version, TEE type and (for version 5) body type name a known
/// report variant.
pub open spec fn report_variant_ok(b: Seq<u8>) -> bool {
    if quote_version(b) == 3 {
        tee_type_of(b) == 0
    } else if quote_version(b) == 4 {
        tee_type_of(b) == 0 || tee_type_of(b) == 0x81
    } else if quote_version(b) == 5 {
        b.len() >= 54 && (body_type_of(b) == 1 || body_type_of(b) == 2 || body_type_of(b) == 3)
    } else {
        false
    }
}

/// Where the report body starts: after the header, and after the 6-byte body
/// descriptor in a version-5 quote.
pub open spec fn report_off(b: Seq<u8>) -> int {
    if quote_version(b) == 5 {
        54
    } else {
        48
    }
}

/// The report body's length, by variant.
pub open spec fn report_len_of(b: Seq<u8>) -> int {
    if quote_version(b) == 3 {
        384
    } else if quote_version(b) == 4 {
        if tee_type_of(b) == 0 {
            384
        } else {
            584
        }
    } else {
        if body_type_of(b) == 1 {
            384
        } else if body_type_of(b) == 2 {
            584
        } else {
            648
        }
    }
}

pub open spec fn body_end(b: Seq<u8>) -> int {
    report_off(b) + report_len_of(b)
}

/// The length prefix of the auth-data region.
pub open spec fn auth_len_of(b: Seq<u8>) -> int {
    le32(b, body_end(b))
}

/// The auth-data region itself.
pub open spec fn auth_bytes(b: Seq<u8>) -> Seq<u8> {
    b.subrange(body_end(b) + 4, body_end(b) + 4 + auth_len_of(b))
}

/// Layout of version-3 auth data: signature, attestation key, QE report, QE
/// report signature, length-prefixed QE auth data, then length-prefixed
/// certification data.
pub open spec fn auth_v3_wf(a: Seq<u8>) -> bool {
    &&& a.len() >= 578
    &&& a.len() >= 584 + le16(a, 576)
    &&& a.len() >= 584 + le16(a, 576) + le32(a, 580 + le16(a, 576))
}

/// Layout of the QE report certification data nested inside version-4 auth
/// data: QE report, QE report signature, length-prefixed QE auth data, then
/// length-prefixed inner certification data.
pub open spec fn qe_rcd_wf(q: Seq<u8>) -> bool {
    &&& q.len() >= 450
    &&& q.len() >= 456 + le16(q, 448)
    &&& q.len() >= 456 + le16(q, 448) + le32(q, 452 + le16(q, 448))
}

/// Layout of version-4 auth data: signature, attestation key, then a
/// length-prefixed certification body that itself holds the QE report
/// certification data.
pub open spec fn auth_v4_wf(a: Seq<u8>) -> bool {
    &&& a.len() >= 134
    &&& a.len() >= 134 + le32(a, 130)
    &&& qe_rcd_wf(a.subrange(134, 134 + le32(a, 130)))
}

pub open spec fn auth_wf(b: Seq<u8>) -> bool {
    if quote_version(b) == 3 {
        auth_v3_wf(auth_bytes(b))
    } else {
        auth_v4_wf(auth_bytes(b))
    }
}

/// Whether `b` is a well-formed quote: a complete header naming a known
/// report variant, a complete report body, and complete, well-nested auth
/// data. Exactly the buffers that decode successfully.
pub open spec fn quote_wf(b: Seq<u8>) -> bool {
    &&& b.len() >= 48
    &&& report_variant_ok(b)
    &&& b.len() >= body_end(b) + 4
    &&& b.len() >= body_end(b) + 4 + auth_len_of(b)
    &&& auth_wf(b)
}

pub open spec fn header_matches(h: QuoteHeader, b: Seq<u8>) -> bool {
    &&& h.version == le16(b, 0)
    &&& h.attestation_key_type == le16(b, 2)
    &&& h.tee_type == le32(b, 4)
    &&& h.qe_svn == le16(b, 8)
    &&& h.pce_svn == le16(b, 10)
    &&& h.qe_vendor_id@ == b.subrange(12, 28)
    &&& h.user_data@ == b.subrange(28, 48)
}

/// The fields of a TD 1.0 report against the first 584 bytes of `body`.
pub open spec fn td10_matches(r: Td10Report, body: Seq<u8>) -> bool {
    &&& r.tee_tcb_svn@ == body.subrange(0, 16)
    &&& r.mr_seam@ == body.subrange(16, 64)
    &&& r.mr_signer_seam@ == body.subrange(64, 112)
    &&& r.seam_attributes@ == body.subrange(112, 120)
    &&& r.td_attributes@ == body.subrange(120, 128)
    &&& r.xfam@ == body.subrange(128, 136)
    &&& r.mr_td@ == body.subrange(136, 184)
    &&& r.mr_config_id@ == body.subrange(184, 232)
    &&& r.mr_owner@ == body.subrange(232, 280)
    &&& r.mr_owner_config@ == body.subrange(280, 328)
    &&& r.rt_mr0@ == body.subrange(328, 376)
    &&& r.rt_mr1@ == body.subrange(376, 424)
    &&& r.rt_mr2@ == body.subrange(424, 472)
    &&& r.rt_mr3@ == body.subrange(472, 520)
    &&& r.report_data@ == body.subrange(520, 584)
}

pub open spec fn report_matches(rep: ReportBody, b: Seq<u8>) -> bool {
    let body = b.subrange(report_off(b), body_end(b));
    if report_len_of(b) == 384 {
        rep matches ReportBody::SgxEnclave(raw) && raw@ == body
    } else if report_len_of(b) == 584 {
        rep matches ReportBody::Td10(r) && td10_matches(r, body)
    } else {
        rep matches ReportBody::Td15 { base, extra } && td10_matches(base, body) && extra@
            == body.subrange(584, 648)
    }
}

pub open spec fn sig_matches_v3(s: SignatureBlock, a: Seq<u8>) -> bool {
    let qe_auth_len = le16(a, 576);
    &&& s.ecdsa_signature@ == a.subrange(0, 64)
    &&& s.ecdsa_attestation_key@ == a.subrange(64, 128)
    &&& s.qe_report@ == a.subrange(128, 512)
    &&& s.qe_report_signature@ == a.subrange(512, 576)
    &&& s.qe_auth_data@ == a.subrange(578, 578 + qe_auth_len)
    &&& s.cert_type == le16(a, 578 + qe_auth_len)
    &&& s.cert_data@ == a.subrange(
        584 + qe_auth_len,
        584 + qe_auth_len + le32(a, 580 + qe_auth_len),
    )
}

pub open spec fn sig_matches_v4(s: SignatureBlock, a: Seq<u8>) -> bool {
    let inner = a.subrange(134, 134 + le32(a, 130));
    let qe_auth_len = le16(inner, 448);
    &&& s.ecdsa_signature@ == a.subrange(0, 64)
    &&& s.ecdsa_attestation_key@ == a.subrange(64, 128)
    &&& s.qe_report@ == inner.subrange(0, 384)
    &&& s.qe_report_signature@ == inner.subrange(384, 448)
    &&& s.qe_auth_data@ == inner.subrange(450, 450 + qe_auth_len)
    &&& s.cert_type == le16(inner, 450 + qe_auth_len)
    &&& s.cert_data@ == inner.subrange(
        456 + qe_auth_len,
        456 + qe_auth_len + le32(inner, 452 + qe_auth_len),
    )
}

/// Whether `q` holds exactly the fields laid out in the quote buffer `b`.
pub open spec fn quote_matches(q: Quote, b: Seq<u8>) -> bool {
    &&& header_matches(q.header, b)
    &&& report_matches(q.report, b)
    &&& if quote_version(b) == 3 {
        sig_matches_v3(q.signature, auth_bytes(b))
    } else {
        sig_matches_v4(q.signature, auth_bytes(b))
    }
}

fn read_le16(b: &[u8], off: usize) -> (r: u16)
    requires
        off + 2 <= b@.len(),
    ensures
        r == le16(b@, off as int),
{
    let n = b.len();
    assert(off + 2 <= n);
    let x0 = *vstd::slice::slice_index_get(b, off);
    let x1 = *vstd::slice::slice_index_get(b, off + 1);
    (x0 as u16) + (x1 as u16) * 256
}

fn read_le32(b: &[u8], off: usize) -> (r: u32)
    requires
        off + 4 <= b@.len(),
    ensures
        r == le32(b@, off as int),
{
    let n = b.len();
    assert(off + 4 <= n);
    let x0 = *vstd::slice::slice_index_get(b, off);
    let x1 = *vstd::slice::slice_index_get(b, off + 1);
    let x2 = *vstd::slice::slice_index_get(b, off + 2);
    let x3 = *vstd::slice::slice_index_get(b, off + 3);
    (x0 as u32) + (x1 as u32) * 256 + (x2 as u32) * 65536 + (x3 as u32) * 16777216
}

fn take_bytes(b: &[u8], off: usize, end: usize) -> (r: Vec<u8>)
    requires
        off <= end <= b@.len(),
    ensures
        r@ == b@.subrange(off as int, end as int),
{
    vstd::slice::slice_to_vec(vstd::slice::slice_subrange(b, off, end))
}

/// Decodes the first 584 bytes of `body` as a TD 1.0 report.
fn decode_td10(body: &[u8]) -> (r: Td10Report)
    requires
        body@.len() >= 584,
    ensures
        td10_matches(r, body@),
{
    Td10Report {
        tee_tcb_svn: take_bytes(body, 0, 16),
        mr_seam: take_bytes(body, 16, 64),
        mr_signer_seam: take_bytes(body, 64, 112),
        seam_attributes: take_bytes(body, 112, 120),
        td_attributes: take_bytes(body, 120, 128),
        xfam: take_bytes(body, 128, 136),
        mr_td: take_bytes(body, 136, 184),
        mr_config_id: take_bytes(body, 184, 232),
        mr_owner: take_bytes(body, 232, 280),
        mr_owner_config: take_bytes(body, 280, 328),
        rt_mr0: take_bytes(body, 328, 376),
        rt_mr1: take_bytes(body, 376, 424),
        rt_mr2: take_bytes(body, 424, 472),
        rt_mr3: take_bytes(body, 472, 520),
        report_data: take_bytes(body, 520, 584),
    }
}

/// Decodes version-3 auth data.
fn decode_auth_v3(a: &[u8]) -> (r: Result<SignatureBlock, VerifyError>)
    ensures
        r is Ok <==> auth_v3_wf(a@),
        r matches Ok(s) ==> sig_matches_v3(s, a@),
        r matches Err(e) ==> e == VerifyError::MalformedQuote,
{
    if a.len() < 578 {
        return Err(VerifyError::MalformedQuote);
    }
    let qe_auth_len = read_le16(a, 576) as usize;
    if a.len() < 584 + qe_auth_len {
        return Err(VerifyError::MalformedQuote);
    }
    let cert_len = read_le32(a, 580 + qe_auth_len);
    if (a.len() as u64) < 584 + (qe_auth_len as u64) + (cert_len as u64) {
        return Err(VerifyError::MalformedQuote);
    }
    let cert_end = 584 + qe_auth_len + (cert_len as usize);
    Ok(
        SignatureBlock {
            ecdsa_signature: take_bytes(a, 0, 64),
            ecdsa_attestation_key: take_bytes(a, 64, 128),
            qe_report: take_bytes(a, 128, 512),
            qe_report_signature: take_bytes(a, 512, 576),
            qe_auth_data: take_bytes(a, 578, 578 + qe_auth_len),
            cert_type: read_le16(a, 578 + qe_auth_len),
            cert_data: take_bytes(a, 584 + qe_auth_len, cert_end),
        },
    )
}

/// Decodes version-4 auth data, including the QE report certification data
/// nested inside its certification body.
fn decode_auth_v4(a: &[u8]) -> (r: Result<SignatureBlock, VerifyError>)
    ensures
        r is Ok <==> auth_v4_wf(a@),
        r matches Ok(s) ==> sig_matches_v4(s, a@),
        r matches Err(e) ==> e == VerifyError::MalformedQuote,
{
    if a.len() < 134 {
        return Err(VerifyError::MalformedQuote);
    }
    let body_len = read_le32(a, 130);
    if (a.len() as u64) < 134 + (body_len as u64) {
        return Err(VerifyError::MalformedQuote);
    }
    let inner = vstd::slice::slice_subrange(a, 134, 134 + (body_len as usize));
    if inner.len() < 450 {
        return Err(VerifyError::MalformedQuote);
    }
    let qe_auth_len = read_le16(inner, 448) as usize;
    if inner.len() < 456 + qe_auth_len {
        return Err(VerifyError::MalformedQuote);
    }
    let cert_len = read_le32(inner, 452 + qe_auth_len);
    if (inner.len() as u64) < 456 + (qe_auth_len as u64) + (cert_len as u64) {
        return Err(VerifyError::MalformedQuote);
    }
    let cert_end = 456 + qe_auth_len + (cert_len as usize);
    Ok(
        SignatureBlock {
            ecdsa_signature: take_bytes(a, 0, 64),
            ecdsa_attestation_key: take_bytes(a, 64, 128),
            qe_report: take_bytes(inner, 0, 384),
            qe_report_signature: take_bytes(inner, 384, 448),
            qe_auth_data: take_bytes(inner, 450, 450 + qe_auth_len),
            cert_type: read_le16(inner, 450 + qe_auth_len),
            cert_data: take_bytes(inner, 456 + qe_auth_len, cert_end),
        },
    )
}

impl ReportBody {
    /// The TD 1.0 report, for exactly the TD 1.0 variant. Every other
    /// variant — the TD 1.5 report included, though it embeds a TD 1.0
    /// base — is rejected: the verifier consumes one report variant and
    /// approximates none of the others.
    pub fn as_td10(&self) -> (r: Option<&Td10Report>)
        ensures
            r is Some <==> self is Td10,
            self matches ReportBody::Td10(rep) ==> (r matches Some(t) && *t == rep),
    {
        match self {
            ReportBody::Td10(rep) => Some(rep),
            _ => None,
        }
    }
}

/// Decodes a quote buffer. Succeeds exactly on well-formed buffers and then
/// returns the quote whose fields are laid out in the buffer; any truncated
/// or schema-mismatched buffer is rejected with `MalformedQuote`.
pub fn decode_quote(bytes: &[u8]) -> (r: Result<Quote, VerifyError>)
    ensures
        r is Ok <==> quote_wf(bytes@),
        r matches Ok(q) ==> quote_matches(q, bytes@),
        r matches Err(e) ==> e == VerifyError::MalformedQuote,
{
    if bytes.len() < 48 {
        return Err(VerifyError::MalformedQuote);
    }
    let version = read_le16(bytes, 0);
    let tee_type = read_le32(bytes, 4);
    let report_offset: usize;
    let report_length: usize;
    if version == 3 {
        if tee_type != 0 {
            return Err(VerifyError::MalformedQuote);
        }
        report_offset = 48;
        report_length = 384;
    } else if version == 4 {
        if tee_type == 0 {
            report_offset = 48;
            report_length = 384;
        } else if tee_type == 0x81 {
            report_offset = 48;
            report_length = 584;
        } else {
            return Err(VerifyError::MalformedQuote);
        }
    } else if version == 5 {
        if bytes.len() < 54 {
            return Err(VerifyError::MalformedQuote);
        }
        let body_type = read_le16(bytes, 48);
        report_offset = 54;
        if body_type == 1 {
            report_length = 384;
        } else if body_type == 2 {
            report_length = 584;
        } else if body_type == 3 {
            report_length = 648;
        } else {
            return Err(VerifyError::MalformedQuote);
        }
    } else {
        return Err(VerifyError::MalformedQuote);
    }
    assert(report_offset == report_off(bytes@));
    assert(report_length == report_len_of(bytes@));
    let body_end_at = report_offset + report_length;
    if bytes.len() < body_end_at + 4 {
        return Err(VerifyError::MalformedQuote);
    }
    let auth_len = read_le32(bytes, body_end_at);
    if (bytes.len() as u64) < (body_end_at as u64) + 4 + (auth_len as u64) {
        return Err(VerifyError::MalformedQuote);
    }
    let auth_end = body_end_at + 4 + (auth_len as usize);
    let auth = vstd::slice::slice_subrange(bytes, body_end_at + 4, auth_end);
    assert(auth@ == auth_bytes(bytes@));
    let signature = if version == 3 {
        match decode_auth_v3(auth) {
            Ok(s) => s,
            Err(e) => {
                return Err(e);
            },
        }
    } else {
        match decode_auth_v4(auth) {
            Ok(s) => s,
            Err(e) => {
                return Err(e);
            },
        }
    };
    let header = QuoteHeader {
        version,
        attestation_key_type: read_le16(bytes, 2),
        tee_type,
        qe_svn: read_le16(bytes, 8),
        pce_svn: read_le16(bytes, 10),
        qe_vendor_id: take_bytes(bytes, 12, 28),
        user_data: take_bytes(bytes, 28, 48),
    };
    let body = vstd::slice::slice_subrange(bytes, report_offset, body_end_at);
    let report = if report_length == 384 {
        ReportBody::SgxEnclave(vstd::slice::slice_to_vec(body))
    } else if report_length == 584 {
        ReportBody::Td10(decode_td10(body))
    } else {
        ReportBody::Td15 { base: decode_td10(body), extra: take_bytes(body, 584, 648) }
    };
    Ok(Quote { header, report, signature })
}

} // verus!
