//! The measurement event log: hex decoding of digests and payloads, selection
//! of the digests assigned to a register, and lookup of named events.

use vstd::prelude::*;

use crate::errors::VerifyError;
use crate::replay::views_of;

verus! {

/// One measurement event, as supplied by the evidence source: the target
/// register index, the event name, and the hex-encoded digest and payload.
#[derive(Debug, Clone)]
pub struct EventLogEntry {
    /// Index of the measurement register this event extended.
    pub imr: u32,
    /// Free-form event name, e.g. naming a build hash or an application id.
    pub event: Vec<u8>,
    /// Hex encoding of the 48-byte digest that extended the register.
    pub digest: Vec<u8>,
    /// Hex encoding of the payload carried alongside the digest.
    pub event_payload: Vec<u8>,
}

/// Whether `c` is an ASCII hex digit.
pub open spec fn is_hex_digit(c: u8) -> bool {
    (48 <= c <= 57) || (97 <= c <= 102) || (65 <= c <= 70)
}

/// The value of the ASCII hex digit `c`.
pub open spec fn hex_digit_value(c: u8) -> u8 {
    if 48 <= c <= 57 {
        (c - 48) as u8
    } else if 97 <= c <= 102 {
        (c - 87) as u8
    } else {
        (c - 55) as u8
    }
}

/// Whether `s` is a valid hex encoding: even length, hex digits throughout.
pub open spec fn is_hex_seq(s: Seq<u8>) -> bool {
    &&& s.len() % 2 == 0
    &&& forall|i: int| 0 <= i < s.len() ==> is_hex_digit(#[trigger] s[i])
}

/// The bytes a hex encoding stands for: two digits per byte, high digit first.
pub open spec fn hex_decode_seq(s: Seq<u8>) -> Seq<u8>
    decreases s.len(),
{
    if s.len() < 2 {
        Seq::empty()
    } else {
        seq![(hex_digit_value(s[0]) * 16 + hex_digit_value(s[1])) as u8] + hex_decode_seq(
            s.skip(2),
        )
    }
}

/// A hex encoding decodes to half as many bytes as it has digits.
pub proof fn lemma_hex_decode_len(s: Seq<u8>)
    ensures
        hex_decode_seq(s).len() == s.len() / 2,
    decreases s.len(),
{
    if s.len() >= 2 {
        lemma_hex_decode_len(s.skip(2));
    }
}

/// The value of one ASCII hex digit, or `None` if `c` is not one.
fn hex_digit(c: u8) -> (r: Option<u8>)
    ensures
        r is Some <==> is_hex_digit(c),
        r matches Some(v) ==> v == hex_digit_value(c) && v < 16,
{
    if 48 <= c && c <= 57 {
        Some(c - 48)
    } else if 97 <= c && c <= 102 {
        Some(c - 87)
    } else if 65 <= c && c <= 70 {
        Some(c - 55)
    } else {
        None
    }
}

/// Decodes a hex encoding into the bytes it stands for; `None` if `s` has odd
/// length or holds a character that is no hex digit.
pub fn hex_decode(s: &[u8]) -> (r: Option<Vec<u8>>)
    ensures
        r is Some <==> is_hex_seq(s@),
        r matches Some(v) ==> v@ == hex_decode_seq(s@) && v@.len() == s@.len() / 2,
{
    if s.len() % 2 != 0 {
        return None;
    }
    let mut out: Vec<u8> = Vec::new();
    proof {
        assert(s@.skip(0) =~= s@);
        assert(hex_decode_seq(s@) =~= Seq::<u8>::empty() + hex_decode_seq(s@.skip(0)));
    }
    let mut k: usize = 0;
    while k < s.len()
        invariant
            s@.len() % 2 == 0,
            k % 2 == 0,
            k <= s@.len(),
            forall|i: int| 0 <= i < k ==> is_hex_digit(#[trigger] s@[i]),
            hex_decode_seq(s@) == out@ + hex_decode_seq(s@.skip(k as int)),
        decreases s@.len() - k,
    {
        let hi = match hex_digit(*vstd::slice::slice_index_get(s, k)) {
            Some(v) => v,
            None => {
                return None;
            },
        };
        let lo = match hex_digit(*vstd::slice::slice_index_get(s, k + 1)) {
            Some(v) => v,
            None => {
                return None;
            },
        };
        proof {
            assert(s@.skip(k as int)[0] == s@[k as int]);
            assert(s@.skip(k as int)[1] == s@[k as int + 1]);
            assert(s@.skip(k as int).skip(2) =~= s@.skip(k as int + 2));
        }
        out.push(hi * 16 + lo);
        proof {
            assert(hex_decode_seq(s@) =~= out@ + hex_decode_seq(s@.skip(k as int + 2)));
        }
        k = k + 2;
    }
    proof {
        assert(s@.skip(s@.len() as int) =~= Seq::<u8>::empty());
        assert(out@ =~= hex_decode_seq(s@));
        lemma_hex_decode_len(s@);
    }
    Some(out)
}

/// Whether two byte slices hold the same bytes.
pub fn bytes_eq(a: &[u8], b: &[u8]) -> (r: bool)
    ensures
        r <==> a@ == b@,
{
    if a.len() != b.len() {
        return false;
    }
    let mut i: usize = 0;
    while i < a.len()
        invariant
            a@.len() == b@.len(),
            i <= a@.len(),
            forall|k: int| 0 <= k < i ==> a@[k] == b@[k],
        decreases a@.len() - i,
    {
        if *vstd::slice::slice_index_get(a, i) != *vstd::slice::slice_index_get(b, i) {
            return false;
        }
        i = i + 1;
    }
    proof {
        assert(a@ =~= b@);
    }
    true
}

/// Whether every log entry targets one of the four replayable registers.
pub open spec fn imrs_in_range(log: Seq<EventLogEntry>) -> bool {
    forall|k: int| 0 <= k < log.len() ==> (#[trigger] log[k]).imr < 4
}

/// Whether `i` is the register index of the first log entry that targets no
/// replayable register.
pub open spec fn first_bad_imr_is(log: Seq<EventLogEntry>, i: u32) -> bool {
    exists|k: int|
        {
            &&& 0 <= k < log.len()
            &&& (#[trigger] log[k]).imr == i
            &&& i >= 4
            &&& forall|j: int| 0 <= j < k ==> (#[trigger] log[j]).imr < 4
        }
}

/// Checks that every log entry targets one of the four registers; an entry
/// outside all four partition ranges fails with `RegisterIndexOutOfRange`,
/// carrying the first offending index.
pub fn check_register_indices(log: &Vec<EventLogEntry>) -> (r: Result<(), VerifyError>)
    ensures
        r is Ok <==> imrs_in_range(log@),
        r matches Err(e) ==> (e matches VerifyError::RegisterIndexOutOfRange(i)
            && first_bad_imr_is(log@, i)),
{
    let mut idx: usize = 0;
    while idx < log.len()
        invariant
            idx <= log@.len(),
            forall|j: int| 0 <= j < idx ==> (#[trigger] log@[j]).imr < 4,
        decreases log@.len() - idx,
    {
        let imr = log[idx].imr;
        if imr >= 4 {
            proof {
                assert(first_bad_imr_is(log@, imr)) by {
                    assert(0 <= idx < log@.len() && log@[idx as int].imr == imr && imr >= 4
                        && forall|j: int| 0 <= j < idx ==> (#[trigger] log@[j]).imr < 4);
                }
            }
            return Err(VerifyError::RegisterIndexOutOfRange(imr));
        }
        idx = idx + 1;
    }
    Ok(())
}

/// The hex-encoded digests of the log entries assigned to register `imr`, in
/// log order.
pub open spec fn digests_for(log: Seq<EventLogEntry>, imr: u32) -> Seq<Seq<u8>>
    decreases log.len(),
{
    if log.len() == 0 {
        Seq::empty()
    } else {
        let rest = digests_for(log.drop_last(), imr);
        if log.last().imr == imr {
            rest + seq![log.last().digest@]
        } else {
            rest
        }
    }
}

/// Whether every digest assigned to register `imr` is a valid hex encoding of
/// exactly 48 bytes.
pub open spec fn digests_valid(log: Seq<EventLogEntry>, imr: u32) -> bool {
    forall|i: int|
        0 <= i < log.len() && (#[trigger] log[i]).imr == imr ==> is_hex_seq(log[i].digest@)
            && log[i].digest@.len() == 96
}

/// The decoded 48-byte digests assigned to register `imr`, in log order.
pub open spec fn decoded_digests_for(log: Seq<EventLogEntry>, imr: u32) -> Seq<Seq<u8>> {
    digests_for(log, imr).map_values(|h: Seq<u8>| hex_decode_seq(h))
}

/// Selects, in log order, the digests of the entries assigned to register
/// `imr`, decoded from their hex encoding. Fails with `InvalidDigestLength`
/// when any such digest is not a hex encoding of exactly 48 bytes.
pub fn get_rtmr_event_digests(log: &Vec<EventLogEntry>, imr: u32) -> (r: Result<
    Vec<Vec<u8>>,
    VerifyError,
>)
    ensures
        r is Ok <==> digests_valid(log@, imr),
        r matches Ok(v) ==> views_of(v@) == decoded_digests_for(log@, imr),
        r matches Err(e) ==> e == VerifyError::InvalidDigestLength,
{
    let mut out: Vec<Vec<u8>> = Vec::new();
    let mut i: usize = 0;
    while i < log.len()
        invariant
            i <= log@.len(),
            forall|k: int|
                0 <= k < i && (#[trigger] log@[k]).imr == imr ==> is_hex_seq(log@[k].digest@)
                    && log@[k].digest@.len() == 96,
            views_of(out@) =~= decoded_digests_for(log@.subrange(0, i as int), imr),
        decreases log@.len() - i,
    {
        let ghost prefix = log@.subrange(0, i as int);
        let ghost next = log@.subrange(0, i + 1);
        proof {
            assert(next.drop_last() =~= prefix);
            assert(next.last() == log@[i as int]);
        }
        let entry = &log[i];
        if entry.imr == imr {
            if entry.digest.len() != 96 {
                return Err(VerifyError::InvalidDigestLength);
            }
            match hex_decode(entry.digest.as_slice()) {
                Some(decoded) => {
                    let ghost old_out = out@;
                    out.push(decoded);
                    proof {
                        assert(digests_for(next, imr) =~= digests_for(prefix, imr) + seq![
                            log@[i as int].digest@,
                        ]);
                        assert(views_of(out@) =~= views_of(old_out) + seq![decoded@]);
                        assert(views_of(out@) =~= decoded_digests_for(next, imr));
                    }
                },
                None => {
                    return Err(VerifyError::InvalidDigestLength);
                },
            }
        } else {
            proof {
                assert(digests_for(next, imr) =~= digests_for(prefix, imr));
                assert(views_of(out@) =~= decoded_digests_for(next, imr));
            }
        }
        i = i + 1;
    }
    proof {
        assert(log@.subrange(0, log@.len() as int) =~= log@);
    }
    Ok(out)
}

/// The first log entry whose event name is `name`, if any.
pub open spec fn find_event(log: Seq<EventLogEntry>, name: Seq<u8>) -> Option<EventLogEntry>
    decreases log.len(),
{
    if log.len() == 0 {
        Option::None
    } else if log.first().event@ == name {
        Option::Some(log.first())
    } else {
        find_event(log.drop_first(), name)
    }
}

/// Looks up the first event named `event` and decodes its hex payload.
/// Fails with `MissingNamedEvent` when no entry carries that name and with
/// `InvalidHexEncoding` when the payload of the found entry is not valid hex.
pub fn get_event_payload(log: &Vec<EventLogEntry>, event: &[u8]) -> (r: Result<
    Vec<u8>,
    VerifyError,
>)
    ensures
        r is Ok <==> (find_event(log@, event@) matches Some(e) && is_hex_seq(e.event_payload@)),
        r matches Ok(v) ==> (find_event(log@, event@) matches Some(e) && v@ == hex_decode_seq(
            e.event_payload@,
        )),
        r matches Err(err) ==> (match err {
            VerifyError::MissingNamedEvent(n) => find_event(log@, event@) is None && n@ == event@,
            VerifyError::InvalidHexEncoding => (find_event(log@, event@) matches Some(e)
                && !is_hex_seq(e.event_payload@)),
            _ => false,
        }),
{
    let mut i: usize = 0;
    proof {
        assert(log@.skip(0) =~= log@);
    }
    while i < log.len()
        invariant
            i <= log@.len(),
            find_event(log@, event@) == find_event(log@.skip(i as int), event@),
        decreases log@.len() - i,
    {
        let entry = &log[i];
        proof {
            assert(log@.skip(i as int).first() == log@[i as int]);
            assert(log@.skip(i as int).drop_first() =~= log@.skip(i + 1));
        }
        if bytes_eq(entry.event.as_slice(), event) {
            match hex_decode(entry.event_payload.as_slice()) {
                Some(payload) => {
                    return Ok(payload);
                },
                None => {
                    return Err(VerifyError::InvalidHexEncoding);
                },
            }
        }
        i = i + 1;
    }
    proof {
        assert(log@.skip(log@.len() as int) =~= Seq::<EventLogEntry>::empty());
    }
    Err(VerifyError::MissingNamedEvent(vstd::slice::slice_to_vec(event)))
}

} // verus!
