//! Numbers that tell recordings and requests apart.

use vstd::prelude::*;
use crate::stream::SessionStartOrigin;

verus! {

/// Hands out the next number of an audio source.
pub fn next_embedded_coordinator_source_stream_id(counter: &mut u64) -> (r: u64)
    ensures
        r == *old(counter),
        *final(counter) == old(counter).wrapping_add(1),
{
    let id: u64 = *counter;
    *counter = id.wrapping_add(1);
    id
}

/// The number of values of a request number.
pub const REQUEST_ID_VALUES: u64 = 0x1_0000_0000;
/// The largest number that a clock seeds the requests with.
pub const REQUEST_ID_SEED_MAX: u64 = 0x7FFF_FFFF;

/// The number that requests start from: the seconds of the clock, within bounds.
pub open spec fn request_seed(unix_seconds: Option<u64>) -> u64 {
    match unix_seconds {
        Some(seconds) if seconds > REQUEST_ID_SEED_MAX => REQUEST_ID_SEED_MAX,
        Some(seconds) if seconds >= 1 => seconds,
        _ => 1,
    }
}

/// The counter from which a number is taken: seeded where it is still zero, and past a value
/// whose number would be zero.
pub open spec fn request_counter(counter: u64, unix_seconds: Option<u64>) -> u64 {
    let seeded = if counter == 0 {
        request_seed(unix_seconds)
    } else {
        counter
    };
    if seeded % REQUEST_ID_VALUES == 0 {
        seeded.wrapping_add(1)
    } else {
        seeded
    }
}

/// Hands out the next number of a request to keep a capture alive.  Zero means that nothing was
/// handed out yet, and is never handed out.
pub fn next_accepted_wake_capture_request_id(counter: &mut u64, unix_seconds: Option<u64>) -> (r:
    u32)
    ensures
        r == request_counter(*old(counter), unix_seconds) % REQUEST_ID_VALUES,
        r != 0,
        *final(counter) == request_counter(*old(counter), unix_seconds).wrapping_add(1),
{
    if *counter == 0 {
        let seconds: u64 = match unix_seconds {
            Some(value) => value,
            None => 1,
        };
        *counter = if seconds < 1 {
            1
        } else if seconds > REQUEST_ID_SEED_MAX {
            REQUEST_ID_SEED_MAX
        } else {
            seconds
        };
    }
    let first: u64 = *counter;
    let taken: u64 = if first % REQUEST_ID_VALUES == 0 {
        first.wrapping_add(1)
    } else {
        first
    };
    *counter = taken.wrapping_add(1);
    (taken % REQUEST_ID_VALUES) as u32
}

/// Numbers rise by one from request to request.  The largest one is followed by one again, and
/// where the counter itself has run out, by the seed of the clock.
pub proof fn request_numbers_rise(counter: u64, unix_seconds: Option<u64>, later: Option<u64>)
    ensures
        ({
            let first = request_counter(counter, unix_seconds);
            let number = first % REQUEST_ID_VALUES;
            request_counter(first.wrapping_add(1), later) % REQUEST_ID_VALUES == (if number
                < REQUEST_ID_VALUES - 1 {
                number + 1
            } else if first < u64::MAX {
                1
            } else {
                request_seed(later) as int
            })
        }),
{
    let first = request_counter(counter, unix_seconds);
    if first < u64::MAX {
        assert(first.wrapping_add(1) == first + 1);
        if first % 0x1_0000_0000 < 0x1_0000_0000 - 1 {
            assert((first + 1) % 0x1_0000_0000 == first % 0x1_0000_0000 + 1);
        } else {
            let next: u64 = (first + 1) as u64;
            assert((first + 1) % 0x1_0000_0000 == 0);
            assert(next < u64::MAX);
            assert(next.wrapping_add(1) == next + 1);
            assert((next + 1) % 0x1_0000_0000 == 1);
        }
    } else {
        assert(first.wrapping_add(1) == 0);
        assert(first % 0x1_0000_0000 == 0x1_0000_0000 - 1);
    }
}

/// A program that is started again later numbers its requests above those of its predecessor, as
/// long as the predecessor made no more requests than seconds have passed since it seeded its
/// own.
pub proof fn a_restart_numbers_above_its_predecessor(
    first_start: u64,
    requests: u64,
    second_start: u64,
)
    requires
        1 <= first_start,
        first_start + requests <= second_start <= REQUEST_ID_SEED_MAX,
    ensures
        request_counter(0, Some(second_start)) % REQUEST_ID_VALUES >= first_start + requests,
        request_counter(0, Some(first_start)) == first_start,
{
}

/// The bit that marks a start as the answer to a request.
pub const EMBEDDED_ENSURE_START_ORIGIN_MARKER_MASK: u16 = 0x8000;
/// How many requests the rest of the marker tells apart.
pub const EMBEDDED_ENSURE_START_ORIGIN_REQUESTS: u32 = 0x8000;

/// The origin that the device reports for the recording that a request asked for: the marking
/// bit, and the low fifteen bits of the request.
pub open spec fn start_origin_marker(request_id: u32) -> int {
    EMBEDDED_ENSURE_START_ORIGIN_MARKER_MASK + request_id % EMBEDDED_ENSURE_START_ORIGIN_REQUESTS
}

/// The origin that the device reports for the recording that a request asked for.
pub fn embedded_ensure_start_origin_marker(request_id: u32) -> (r: u16)
    ensures
        r == start_origin_marker(request_id),
{
    EMBEDDED_ENSURE_START_ORIGIN_MARKER_MASK + (request_id % EMBEDDED_ENSURE_START_ORIGIN_REQUESTS)
        as u16
}

/// Whether a recording answers a request.
pub open spec fn answers_request(origin: SessionStartOrigin, request_id: u32) -> bool {
    origin matches SessionStartOrigin::Unknown(value) && value == start_origin_marker(request_id)
}

/// Whether a recording answers a request.
pub fn embedded_ensure_start_origin_matches(origin: SessionStartOrigin, request_id: u32) -> (r:
    bool)
    ensures
        r == answers_request(origin, request_id),
{
    match origin {
        SessionStartOrigin::Unknown(value) => value == embedded_ensure_start_origin_marker(
            request_id,
        ),
        _ => false,
    }
}

/// A recording that answers one request answers another exactly where both have the same low
/// fifteen bits; in particular it does not answer the request after it.
pub proof fn a_marker_tells_requests_apart(origin: SessionStartOrigin, one: u32, other: u32)
    requires
        answers_request(origin, one),
    ensures
        answers_request(origin, other) <==> one % EMBEDDED_ENSURE_START_ORIGIN_REQUESTS == other
            % EMBEDDED_ENSURE_START_ORIGIN_REQUESTS,
        other == one + 1 ==> !answers_request(origin, other),
{
}

/// What a person or a voice started never answers a request, nor does an origin without the
/// marking bit.
pub proof fn an_unmarked_start_answers_no_request(origin: SessionStartOrigin, request_id: u32)
    requires
        origin matches SessionStartOrigin::Unknown(value) ==> value
            < EMBEDDED_ENSURE_START_ORIGIN_MARKER_MASK,
    ensures
        !answers_request(origin, request_id),
{
}

/// A counter that has not been used starts at the clock, held between one and the largest number of
/// thirty-one bits; a clock that cannot be read counts as one.
pub proof fn a_first_number_comes_from_the_clock(unix_seconds: Option<u64>)
    ensures
        ({
            let seed = request_seed(unix_seconds);
            &&& 1 <= seed <= 0x7FFF_FFFF
            &&& unix_seconds is None ==> seed == 1
            &&& unix_seconds is Some && 1 <= unix_seconds->0 <= 0x7FFF_FFFF ==> seed
                == unix_seconds->0
            &&& unix_seconds is Some && unix_seconds->0 > 0x7FFF_FFFF ==> seed == 0x7FFF_FFFF
            &&& unix_seconds == Some(0u64) ==> seed == 1
            &&& request_counter(0, unix_seconds) == seed
        }),
{
}

/// A counter in use goes by itself, whatever the clock says, and only skips the numbers whose low
/// thirty-two bits are all zero.
pub proof fn a_used_counter_ignores_the_clock(counter: u64, one: Option<u64>, other: Option<u64>)
    requires
        counter != 0,
    ensures
        request_counter(counter, one) == request_counter(counter, other),
        counter % 0x1_0000_0000 != 0 ==> request_counter(counter, one) == counter,
        counter % 0x1_0000_0000 == 0 ==> request_counter(counter, one) == counter + 1,
        request_counter(counter, one) % 0x1_0000_0000 != 0,
{
}

/// A marker is a number of sixteen bits with the highest set and the low fifteen of the request in
/// the others, and only such a number, which no known origin has, answers the request.
pub proof fn a_marker_carries_the_request(origin: SessionStartOrigin, request_id: u32)
    ensures
        0x8000 <= start_origin_marker(request_id) <= 0xFFFF,
        start_origin_marker(request_id) - 0x8000 == request_id % 0x8000,
        answers_request(origin, request_id) ==> origin is Unknown,
        answers_request(origin, request_id) ==> origin->Unknown_0 == 0x8000 + request_id % 0x8000,
        origin is Unknown && origin->Unknown_0 == 0x8000 + request_id % 0x8000 ==> answers_request(
            origin,
            request_id,
        ),
{
}

} // verus!
