//! Cross-checking: byte-exact comparison of the replayed registers against
//! the quoted ones, and the structural check of the report-data field.

use vstd::prelude::*;

use crate::errors::VerifyError;
use crate::eventlog::bytes_eq;
use crate::quote::Td10Report;
use crate::replay::RMTRValues;

verus! {

/// Whether replayed register `i` equals the corresponding quoted register.
pub open spec fn register_matches(report: Td10Report, replayed: RMTRValues, i: int) -> bool {
    if i == 0 {
        replayed.rtmr0@ == report.rt_mr0@
    } else if i == 1 {
        replayed.rtmr1@ == report.rt_mr1@
    } else if i == 2 {
        replayed.rtmr2@ == report.rt_mr2@
    } else {
        replayed.rtmr3@ == report.rt_mr3@
    }
}

/// Whether all four replayed registers equal the quoted ones.
pub open spec fn registers_match(report: Td10Report, replayed: RMTRValues) -> bool {
    forall|i: int| 0 <= i < 4 ==> register_matches(report, replayed, i)
}

/// Whether the padding region of a 64-byte report-data field is all zero.
pub open spec fn padding_ok(report_data: Seq<u8>) -> bool {
    forall|i: int| 32 <= i < 64 ==> report_data[i] == 0u8
}

/// Compares the replayed registers against the quoted ones, register by
/// register in ascending index order, then checks that bytes 32..64 of the
/// report data are zero padding. On success returns the committed key: the
/// first 32 bytes of the report data, passed through opaquely.
pub fn cross_check(report: &Td10Report, replayed: &RMTRValues) -> (r: Result<Vec<u8>, VerifyError>)
    requires
        report.report_data@.len() == 64,
    ensures
        r is Ok <==> (registers_match(*report, *replayed) && padding_ok(report.report_data@)),
        r matches Ok(k) ==> k@ == report.report_data@.subrange(0, 32),
        r matches Err(e) ==> (match e {
            VerifyError::RegisterMismatch(i) => i < 4 && !register_matches(
                *report,
                *replayed,
                i as int,
            ) && forall|j: int| 0 <= j < i ==> register_matches(*report, *replayed, j),
            VerifyError::ReportDataPaddingViolation => registers_match(*report, *replayed)
                && !padding_ok(report.report_data@),
            _ => false,
        }),
{
    if !bytes_eq(replayed.rtmr0.as_slice(), report.rt_mr0.as_slice()) {
        proof {
            assert(!register_matches(*report, *replayed, 0));
        }
        return Err(VerifyError::RegisterMismatch(0));
    }
    if !bytes_eq(replayed.rtmr1.as_slice(), report.rt_mr1.as_slice()) {
        proof {
            assert(!register_matches(*report, *replayed, 1));
        }
        return Err(VerifyError::RegisterMismatch(1));
    }
    if !bytes_eq(replayed.rtmr2.as_slice(), report.rt_mr2.as_slice()) {
        proof {
            assert(!register_matches(*report, *replayed, 2));
        }
        return Err(VerifyError::RegisterMismatch(2));
    }
    if !bytes_eq(replayed.rtmr3.as_slice(), report.rt_mr3.as_slice()) {
        proof {
            assert(!register_matches(*report, *replayed, 3));
        }
        return Err(VerifyError::RegisterMismatch(3));
    }
    proof {
        assert(registers_match(*report, *replayed)) by {
            assert(register_matches(*report, *replayed, 0));
            assert(register_matches(*report, *replayed, 1));
            assert(register_matches(*report, *replayed, 2));
            assert(register_matches(*report, *replayed, 3));
        }
    }
    let mut i: usize = 32;
    while i < 64
        invariant
            32 <= i <= 64,
            report.report_data@.len() == 64,
            registers_match(*report, *replayed),
            forall|k: int| 32 <= k < i ==> report.report_data@[k] == 0u8,
        decreases 64 - i,
    {
        if report.report_data[i] != 0 {
            return Err(VerifyError::ReportDataPaddingViolation);
        }
        i = i + 1;
    }
    Ok(
        vstd::slice::slice_to_vec(
            vstd::slice::slice_subrange(report.report_data.as_slice(), 0, 32),
        ),
    )
}

} // verus!
