//! The extended verification path: full cryptographic quote verification
//! against PKI collateral, taken on trust from the dcap-qvl crate.

use vstd::prelude::*;

use crate::errors::VerifyError;

verus! {

#[verifier::external_type_specification]
#[verifier::external_body]
pub struct ExQuoteCollateralV3(dcap_qvl::QuoteCollateralV3);

/// PKI reference material for the extended path, held as plain values: the
/// CRL issuer chains and CRLs, the signed TCB info, the signed quoting-enclave
/// identity, and optionally the PCK certificate chain. Field for field the
/// collateral dcap-qvl consumes.
pub struct Collateral {
    pub pck_crl_issuer_chain: String,
    pub root_ca_crl: Vec<u8>,
    pub pck_crl: Vec<u8>,
    pub tcb_info_issuer_chain: String,
    pub tcb_info: String,
    pub tcb_info_signature: Vec<u8>,
    pub qe_identity_issuer_chain: String,
    pub qe_identity: String,
    pub qe_identity_signature: Vec<u8>,
    pub pck_certificate_chain: Option<String>,
}

/// The view of an optional PCK certificate chain.
pub open spec fn cert_chain_view(chain: Option<String>) -> Option<Seq<char>> {
    match chain {
        Some(s) => Some(s@),
        None => None,
    }
}

/// Whether the cryptographic collateral check accepts the quote against this
/// collateral as of this reference time. The verdict is a deterministic
/// function of these inputs alone (the root of trust is a constant compiled
/// into the checking crate), and takes pages to state, so it is named and
/// left abstract: no contract says which inputs are accepted.
pub uninterp spec fn collateral_accepts(
    raw_quote: Seq<u8>,
    pck_crl_issuer_chain: Seq<char>,
    root_ca_crl: Seq<u8>,
    pck_crl: Seq<u8>,
    tcb_info_issuer_chain: Seq<char>,
    tcb_info: Seq<char>,
    tcb_info_signature: Seq<u8>,
    qe_identity_issuer_chain: Seq<char>,
    qe_identity: Seq<char>,
    qe_identity_signature: Seq<u8>,
    pck_certificate_chain: Option<Seq<char>>,
    now_secs: u64,
) -> bool;

impl Collateral {
    /// Whether the collateral check accepts `raw_quote` against this
    /// collateral as of `now_secs`.
    pub open spec fn accepts(&self, raw_quote: Seq<u8>, now_secs: u64) -> bool {
        collateral_accepts(
            raw_quote,
            self.pck_crl_issuer_chain@,
            self.root_ca_crl@,
            self.pck_crl@,
            self.tcb_info_issuer_chain@,
            self.tcb_info@,
            self.tcb_info_signature@,
            self.qe_identity_issuer_chain@,
            self.qe_identity@,
            self.qe_identity_signature@,
            cert_chain_view(self.pck_certificate_chain),
            now_secs,
        )
    }
}

/// What the extended path reports of a quote that passed the cryptographic
/// verification: the platform's TCB status, its advisory identifiers, and the
/// platform provisioning id. The checker's own parse of the report body is
/// not carried over — the library's decoder already exposes every report
/// field — and its per-component (quoting-enclave and platform) status pair
/// is dropped with it: the overall status here is the terminal one.
pub struct CollateralVerdict {
    pub status: String,
    pub advisory_ids: Vec<String>,
    pub ppid: Vec<u8>,
}

/// Relies on dcap_qvl::verify::verify: it reconstructs the certificate chain
/// from the quote's certification data and the collateral, verifies the
/// chain's anchoring to Intel's root of trust, verifies the quote's signature
/// with the attested key, and checks TCB status and collateral validity
/// windows against `now_secs`, failing on the first broken link. Its outcome
/// is a function of the three arguments alone, here named
/// `collateral_accepts`; a failure carries the rejection reason. The checker
/// reports its failures as one opaque error chain, so the distinct failure
/// stages (signature, chain, revocation, freshness, status) surface only in
/// that message, as one error kind.
#[verifier::external_body]
pub(crate) fn verify_against_collateral(
    raw_quote: &[u8],
    collateral: &Collateral,
    now_secs: u64,
) -> (r: Result<CollateralVerdict, VerifyError>)
    ensures
        r is Ok <==> collateral_accepts(
            raw_quote@,
            collateral.pck_crl_issuer_chain@,
            collateral.root_ca_crl@,
            collateral.pck_crl@,
            collateral.tcb_info_issuer_chain@,
            collateral.tcb_info@,
            collateral.tcb_info_signature@,
            collateral.qe_identity_issuer_chain@,
            collateral.qe_identity@,
            collateral.qe_identity_signature@,
            cert_chain_view(collateral.pck_certificate_chain),
            now_secs,
        ),
        r matches Err(e) ==> e matches VerifyError::CollateralRejected(_),
{
    let c = collateral;
    let qc = dcap_qvl::QuoteCollateralV3 {
        pck_crl_issuer_chain: c.pck_crl_issuer_chain.clone(), root_ca_crl: c.root_ca_crl.clone(),
        pck_crl: c.pck_crl.clone(), tcb_info_issuer_chain: c.tcb_info_issuer_chain.clone(),
        tcb_info: c.tcb_info.clone(), tcb_info_signature: c.tcb_info_signature.clone(),
        qe_identity_issuer_chain: c.qe_identity_issuer_chain.clone(),
        qe_identity: c.qe_identity.clone(), qe_identity_signature: c.qe_identity_signature.clone(),
        pck_certificate_chain: c.pck_certificate_chain.clone(),
    };
    match dcap_qvl::verify::verify(raw_quote, &qc, now_secs) {
        Ok(r) => Ok(CollateralVerdict { status: r.status, advisory_ids: r.advisory_ids, ppid: r.ppid }),
        Err(e) => Err(VerifyError::CollateralRejected(format!("{e:#}"))),
    }
}

} // verus!
