//! The verification pipeline, in two explicit modes: structural-only
//! verification (decode, replay, cross-check, commitment), and fully
//! authenticated verification, which first holds the quote to the
//! cryptographic collateral check and then runs the same structural path.

use vstd::prelude::*;

use crate::collateral::{verify_against_collateral, Collateral, CollateralVerdict};
use crate::commitment::Commitment;
use crate::crosscheck::{cross_check, padding_ok, register_matches, registers_match};
use crate::errors::VerifyError;
use crate::eventlog::{
    check_register_indices, decoded_digests_for, digests_valid, find_event, first_bad_imr_is,
    get_event_payload, get_rtmr_event_digests, hex_decode_seq, imrs_in_range, is_hex_seq,
    EventLogEntry,
};
use crate::quote::{decode_quote, quote_wf, report_len_of, report_off};
use crate::replay::{replay_range, replay_seq, views_of, RMTRValues};

verus! {

/// The quoted runtime register `i`, as laid out in the quote buffer.
pub open spec fn quoted_rt_mr(b: Seq<u8>, i: int) -> Seq<u8> {
    b.subrange(report_off(b) + 328 + 48 * i, report_off(b) + 376 + 48 * i)
}

/// The quoted 64-byte report-data field, as laid out in the quote buffer.
pub open spec fn quoted_report_data(b: Seq<u8>) -> Seq<u8> {
    b.subrange(report_off(b) + 520, report_off(b) + 584)
}

/// The register value replayed from the digests the log assigns to `imr`.
pub open spec fn replayed_rt_mr(log: Seq<EventLogEntry>, imr: u32) -> Seq<u8> {
    replay_seq(decoded_digests_for(log, imr))
}

/// Whether the quote buffer carries the one consumable report variant: the
/// TD 1.0 report, with its 584-byte body. Every other variant — SGX, and the
/// TD 1.5 report too, though it embeds a TD 1.0 base — is rejected, never
/// approximated.
pub open spec fn is_td10_quote(b: Seq<u8>) -> bool {
    quote_wf(b) && report_len_of(b) == 584
}

/// Whether every digest of the log, for each of the four registers, is a hex
/// encoding of exactly 48 bytes.
pub open spec fn log_digests_valid(log: Seq<EventLogEntry>) -> bool {
    &&& digests_valid(log, 0)
    &&& digests_valid(log, 1)
    &&& digests_valid(log, 2)
    &&& digests_valid(log, 3)
}

/// Whether the register replayed from the log equals the quoted register `i`.
pub open spec fn register_consistent_at(b: Seq<u8>, log: Seq<EventLogEntry>, i: int) -> bool {
    if i == 0 {
        replayed_rt_mr(log, 0) == quoted_rt_mr(b, 0)
    } else if i == 1 {
        replayed_rt_mr(log, 1) == quoted_rt_mr(b, 1)
    } else if i == 2 {
        replayed_rt_mr(log, 2) == quoted_rt_mr(b, 2)
    } else {
        replayed_rt_mr(log, 3) == quoted_rt_mr(b, 3)
    }
}

/// Whether all four replayed registers equal the quoted ones.
pub open spec fn registers_consistent(b: Seq<u8>, log: Seq<EventLogEntry>) -> bool {
    forall|i: int| 0 <= i < 4 ==> register_consistent_at(b, log, i)
}

/// Whether an event named `name` is present and its payload is valid hex.
pub open spec fn payload_fetch_ok(log: Seq<EventLogEntry>, name: Seq<u8>) -> bool {
    match find_event(log, name) {
        Some(e) => is_hex_seq(e.event_payload@),
        None => false,
    }
}

/// The decoded payload of the first event named `name`.
pub open spec fn named_payload(log: Seq<EventLogEntry>, name: Seq<u8>) -> Seq<u8> {
    match find_event(log, name) {
        Some(e) => hex_decode_seq(e.event_payload@),
        None => Seq::empty(),
    }
}

/// Everything the structural path checks: a well-formed TD quote, a decodable
/// event log, replayed registers equal to the quoted ones, zero report-data
/// padding, and named compose-hash and application-id events whose payloads
/// fit their fixed commitment widths.
pub open spec fn structural_ok(
    b: Seq<u8>,
    log: Seq<EventLogEntry>,
    compose_name: Seq<u8>,
    app_name: Seq<u8>,
) -> bool {
    &&& is_td10_quote(b)
    &&& imrs_in_range(log)
    &&& log_digests_valid(log)
    &&& registers_consistent(b, log)
    &&& padding_ok(quoted_report_data(b))
    &&& payload_fetch_ok(log, compose_name)
    &&& named_payload(log, compose_name).len() <= 32
    &&& payload_fetch_ok(log, app_name)
    &&& named_payload(log, app_name).len() <= 20
}

/// What the commitment of a successful verification holds, field by field.
pub open spec fn commitment_ok(
    c: Commitment,
    b: Seq<u8>,
    log: Seq<EventLogEntry>,
    compose_name: Seq<u8>,
    app_name: Seq<u8>,
) -> bool {
    &&& c.rtmr0@ == quoted_rt_mr(b, 0) && c.rtmr0@ == replayed_rt_mr(log, 0)
    &&& c.rtmr1@ == quoted_rt_mr(b, 1) && c.rtmr1@ == replayed_rt_mr(log, 1)
    &&& c.rtmr2@ == quoted_rt_mr(b, 2) && c.rtmr2@ == replayed_rt_mr(log, 2)
    &&& c.rtmr3@ == quoted_rt_mr(b, 3) && c.rtmr3@ == replayed_rt_mr(log, 3)
    &&& c.committed_key@ == quoted_report_data(b).subrange(0, 32)
    &&& c.compose_hash@ == named_payload(log, compose_name)
    &&& c.app_id@ == named_payload(log, app_name)
    &&& c.wf()
}

/// Why the structural path failed, exactly, in its fail-fast order.
pub open spec fn structural_err(
    e: VerifyError,
    b: Seq<u8>,
    log: Seq<EventLogEntry>,
    compose_name: Seq<u8>,
    app_name: Seq<u8>,
) -> bool {
    let replay_checked = is_td10_quote(b) && imrs_in_range(log) && log_digests_valid(log);
    let cross_checked = replay_checked && registers_consistent(b, log) && padding_ok(
        quoted_report_data(b),
    );
    match e {
        VerifyError::MalformedQuote => !quote_wf(b),
        VerifyError::UnsupportedReportVariant => quote_wf(b) && report_len_of(b) != 584,
        VerifyError::RegisterIndexOutOfRange(i) => is_td10_quote(b) && first_bad_imr_is(log, i),
        VerifyError::InvalidDigestLength => is_td10_quote(b) && imrs_in_range(log)
            && !log_digests_valid(log),
        VerifyError::RegisterMismatch(i) => replay_checked && i < 4 && !register_consistent_at(
            b,
            log,
            i as int,
        ) && (forall|j: int| 0 <= j < i ==> register_consistent_at(b, log, j)),
        VerifyError::ReportDataPaddingViolation => replay_checked && registers_consistent(b, log)
            && !padding_ok(quoted_report_data(b)),
        VerifyError::MissingNamedEvent(n) => cross_checked && ((n@ == compose_name && find_event(
            log,
            compose_name,
        ) is None) || (n@ == app_name && payload_fetch_ok(log, compose_name) && find_event(
            log,
            app_name,
        ) is None)),
        VerifyError::InvalidHexEncoding => cross_checked && ((find_event(
            log,
            compose_name,
        ) is Some && !payload_fetch_ok(log, compose_name)) || (payload_fetch_ok(log, compose_name)
            && find_event(log, app_name) is Some && !payload_fetch_ok(log, app_name))),
        VerifyError::InvalidPayloadLength => cross_checked && payload_fetch_ok(log, compose_name)
            && payload_fetch_ok(log, app_name) && (named_payload(log, compose_name).len() > 32 || (
        named_payload(log, compose_name).len() <= 32 && named_payload(log, app_name).len() > 20)),
        _ => false,
    }
}

/// Structural-only verification: decodes the quote, rejects every report
/// variant but TD 1.0 and every log entry outside the four register ranges,
/// replays the four registers from the event log, cross-checks them against
/// the quoted ones, checks the report-data padding, extracts the named
/// compose-hash and application-id payloads, and seals everything into the
/// commitment. No cryptographic check is made: a pass says the evidence is
/// self-consistent, not that the platform is authentic.
///
/// Known gap: the named payloads are looked up by name only. Their entries'
/// digests have contributed to the corresponding register via the replay, but
/// nothing binds the payload bytes themselves back into the hash chain.
pub fn verify_structural(
    quote_bytes: &[u8],
    log: &Vec<EventLogEntry>,
    compose_hash_event: &[u8],
    app_id_event: &[u8],
) -> (r: Result<Commitment, VerifyError>)
    ensures
        r is Ok <==> structural_ok(quote_bytes@, log@, compose_hash_event@, app_id_event@),
        r matches Ok(c) ==> commitment_ok(
            c,
            quote_bytes@,
            log@,
            compose_hash_event@,
            app_id_event@,
        ),
        r matches Err(e) ==> structural_err(
            e,
            quote_bytes@,
            log@,
            compose_hash_event@,
            app_id_event@,
        ),
{
    let ghost b = quote_bytes@;
    let quote = match decode_quote(quote_bytes) {
        Ok(q) => q,
        Err(e) => {
            return Err(e);
        },
    };
    let report = match quote.report.as_td10() {
        Some(t) => t,
        None => {
            return Err(VerifyError::UnsupportedReportVariant);
        },
    };
    proof {
        let ro = report_off(b);
        let be = crate::quote::body_end(b);
        let body = b.subrange(ro, be);
        assert(report.rt_mr0@ =~= quoted_rt_mr(b, 0));
        assert(report.rt_mr1@ =~= quoted_rt_mr(b, 1));
        assert(report.rt_mr2@ =~= quoted_rt_mr(b, 2));
        assert(report.rt_mr3@ =~= quoted_rt_mr(b, 3));
        assert(report.report_data@ =~= quoted_report_data(b));
    }
    match check_register_indices(log) {
        Ok(()) => (),
        Err(e) => {
            return Err(e);
        },
    }
    let ds0 = match get_rtmr_event_digests(log, 0) {
        Ok(v) => v,
        Err(e) => {
            return Err(e);
        },
    };
    let ds1 = match get_rtmr_event_digests(log, 1) {
        Ok(v) => v,
        Err(e) => {
            return Err(e);
        },
    };
    let ds2 = match get_rtmr_event_digests(log, 2) {
        Ok(v) => v,
        Err(e) => {
            return Err(e);
        },
    };
    let ds3 = match get_rtmr_event_digests(log, 3) {
        Ok(v) => v,
        Err(e) => {
            return Err(e);
        },
    };
    proof {
        assert(views_of(ds0@).subrange(0, ds0@.len() as int) =~= views_of(ds0@));
        assert(views_of(ds1@).subrange(0, ds1@.len() as int) =~= views_of(ds1@));
        assert(views_of(ds2@).subrange(0, ds2@.len() as int) =~= views_of(ds2@));
        assert(views_of(ds3@).subrange(0, ds3@.len() as int) =~= views_of(ds3@));
    }
    let replayed = RMTRValues {
        rtmr0: replay_range(ds0.as_slice(), 0, ds0.len()),
        rtmr1: replay_range(ds1.as_slice(), 0, ds1.len()),
        rtmr2: replay_range(ds2.as_slice(), 0, ds2.len()),
        rtmr3: replay_range(ds3.as_slice(), 0, ds3.len()),
    };
    proof {
        assert(replayed.rtmr0@ == replayed_rt_mr(log@, 0));
        assert(replayed.rtmr1@ == replayed_rt_mr(log@, 1));
        assert(replayed.rtmr2@ == replayed_rt_mr(log@, 2));
        assert(replayed.rtmr3@ == replayed_rt_mr(log@, 3));
    }
    let committed_key = match cross_check(report, &replayed) {
        Ok(k) => k,
        Err(e) => {
            proof {
                assert forall|j: int| #![trigger register_consistent_at(b, log@, j)]
                    0 <= j < 4 implies (register_matches(*report, replayed, j)
                    <==> register_consistent_at(b, log@, j)) by {}
                if registers_match(*report, replayed) {
                    assert forall|i: int| 0 <= i < 4 implies register_consistent_at(
                        b,
                        log@,
                        i,
                    ) by {
                        assert(register_matches(*report, replayed, i));
                    }
                }
                match &e {
                    VerifyError::RegisterMismatch(i) => {
                        assert(!register_consistent_at(b, log@, *i as int));
                    },
                    _ => {},
                }
            }
            return Err(e);
        },
    };
    proof {
        assert forall|i: int| 0 <= i < 4 implies register_consistent_at(b, log@, i) by {
            assert(register_matches(*report, replayed, i));
        }
        assert(register_consistent_at(b, log@, 0));
        assert(register_consistent_at(b, log@, 1));
        assert(register_consistent_at(b, log@, 2));
        assert(register_consistent_at(b, log@, 3));
    }
    let compose_hash = match get_event_payload(log, compose_hash_event) {
        Ok(p) => p,
        Err(e) => {
            return Err(e);
        },
    };
    let app_id = match get_event_payload(log, app_id_event) {
        Ok(p) => p,
        Err(e) => {
            return Err(e);
        },
    };
    if compose_hash.len() > 32 {
        return Err(VerifyError::InvalidPayloadLength);
    }
    if app_id.len() > 20 {
        return Err(VerifyError::InvalidPayloadLength);
    }
    Ok(
        Commitment {
            rtmr0: replayed.rtmr0,
            rtmr1: replayed.rtmr1,
            rtmr2: replayed.rtmr2,
            rtmr3: replayed.rtmr3,
            committed_key,
            compose_hash,
            app_id,
        },
    )
}

/// Fully authenticated verification: first holds the quote to the
/// cryptographic collateral check (certificate chain, signature, TCB status
/// and freshness as of `now_secs`), then runs the structural path. It
/// succeeds exactly when the collateral check accepts the evidence and the
/// structural checks all pass: any single failure is terminal, and there is
/// no silent downgrade to the structural-only mode. On success the collateral
/// verdict accompanies the commitment.
pub fn verify_authenticated(
    quote_bytes: &[u8],
    log: &Vec<EventLogEntry>,
    compose_hash_event: &[u8],
    app_id_event: &[u8],
    collateral: &Collateral,
    now_secs: u64,
) -> (r: Result<(Commitment, CollateralVerdict), VerifyError>)
    ensures
        r is Ok <==> (collateral.accepts(quote_bytes@, now_secs) && structural_ok(
            quote_bytes@,
            log@,
            compose_hash_event@,
            app_id_event@,
        )),
        r matches Ok(p) ==> commitment_ok(
            p.0,
            quote_bytes@,
            log@,
            compose_hash_event@,
            app_id_event@,
        ),
        r matches Err(e) ==> (match e {
            VerifyError::CollateralRejected(_) => !collateral.accepts(quote_bytes@, now_secs),
            _ => collateral.accepts(quote_bytes@, now_secs) && structural_err(
                e,
                quote_bytes@,
                log@,
                compose_hash_event@,
                app_id_event@,
            ),
        }),
{
    let verdict = match verify_against_collateral(quote_bytes, collateral, now_secs) {
        Ok(v) => v,
        Err(e) => {
            return Err(e);
        },
    };
    let commitment = match verify_structural(quote_bytes, log, compose_hash_event, app_id_event) {
        Ok(c) => c,
        Err(e) => {
            return Err(e);
        },
    };
    Ok((commitment, verdict))
}

} // verus!
