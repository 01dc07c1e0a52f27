//! Server-sent event stream framing and its reconnection schedule.

use vstd::prelude::*;
use crate::text::{all_ws, chars_of, is_blank, starts_with_chars, starts_with_seq, string_from_chars, trim, trim_chars};
use crate::discovery::pow2;

verus! {

/// The JSON payload of an SSE line: the text after `data: ` in the trimmed
/// line, when that text is not blank. Other lines (comments, event names)
/// carry none.
pub open spec fn sse_payload_spec(line: Seq<char>) -> Option<Seq<char>> {
    let t = trim(line);
    if starts_with_seq(t, "data: "@) && !all_ws(t.skip(6)) {
        Some(t.skip(6))
    } else {
        None
    }
}

/// The JSON payload an SSE line carries, if any.
pub fn sse_data_payload(line: &str) -> (r: Option<String>)
    ensures
        match r {
            Some(d) => sse_payload_spec(line@) == Some(d@),
            None => sse_payload_spec(line@) is None,
        },
{
    let c = chars_of(line);
    let t = trim_chars(c.as_slice());
    let prefix = chars_of("data: ");
    if !starts_with_chars(t.as_slice(), prefix.as_slice()) {
        return None;
    }
    proof {
        reveal_strlit("data: ");
    }
    let mut data: Vec<char> = Vec::new();
    let mut i: usize = 6;
    assert(data@ =~= t@.subrange(6, 6));
    while i < t.len()
        invariant
            6 <= i <= t@.len(),
            data@ == t@.subrange(6, i as int),
        decreases t.len() - i,
    {
        data.push(t[i]);
        assert(t@.subrange(6, i + 1) =~= t@.subrange(6, i as int).push(t@[i as int]));
        i = i + 1;
    }
    assert(data@ =~= t@.skip(6));
    if is_blank(data.as_slice()) {
        None
    } else {
        Some(string_from_chars(data.as_slice()))
    }
}

/// Consecutive failures after which the stream gives up.
pub const MAX_CONSECUTIVE_ERRORS: u32 = 10;

/// Backoff before reconnecting after `consecutive_errors` failures:
/// one second times `2^min(consecutive_errors, 6)`.
pub fn reconnect_backoff_ms(consecutive_errors: u32) -> (d: u64)
    ensures
        d == 1000 * pow2(if consecutive_errors < 6 { consecutive_errors as nat } else { 6 }),
{
    let e: u32 = if consecutive_errors < 6 {
        consecutive_errors
    } else {
        6
    };
    let mut d: u64 = 1000;
    let mut k: u32 = 0;
    assert(pow2(0) == 1);
    while k < e
        invariant
            k <= e,
            e <= 6,
            d == 1000 * pow2(k as nat),
            d <= 1000 * 64,
        decreases e - k,
    {
        assert(pow2(k as nat + 1) == 2 * pow2(k as nat));
        proof {
            lemma_pow2_le_64(k as nat + 1);
        }
        d = d * 2;
        k = k + 1;
    }
    d
}

proof fn lemma_pow2_le_64(n: nat)
    requires
        n <= 6,
    ensures
        pow2(n) <= 64,
{
    crate::discovery::lemma_pow2_mono(n, 6);
    reveal_with_fuel(pow2, 7);
}

/// How a connection round of the event stream ended.
#[derive(Debug, Clone, Copy, PartialEq, Eq)]
pub enum StreamRound {
    /// Could not connect.
    ConnectFailed,
    /// Connected; the stream then ended without error.
    Ended,
    /// Connected; reading the stream then failed.
    ReadFailed,
}

/// What the stream task does next.
#[derive(Debug, Clone, Copy, PartialEq, Eq)]
pub enum StreamNext {
    /// Stop for good.
    Stop,
    /// Reconnect at once.
    Reconnect,
    /// Reconnect after this many milliseconds.
    ReconnectAfter(u64),
}

/// Consecutive-error count after a round.
pub open spec fn errors_after(errors: u32, round: StreamRound) -> nat {
    match round {
        StreamRound::ConnectFailed => errors as nat + 1,
        StreamRound::Ended => 0,
        StreamRound::ReadFailed => 1,
    }
}

/// The decision after a round, given the consecutive errors before it:
/// a successful connection resets the count (a read failure then counts one),
/// a failed connection adds one and stops the stream at the limit, and any
/// error count above zero delays the reconnection.
pub fn next_stream_step(errors: u32, round: StreamRound) -> (r: (u32, StreamNext))
    requires
        errors < MAX_CONSECUTIVE_ERRORS,
    ensures
        r.0 == errors_after(errors, round),
        round is ConnectFailed && errors + 1 >= MAX_CONSECUTIVE_ERRORS ==> r.1 is Stop,
        !(round is ConnectFailed && errors + 1 >= MAX_CONSECUTIVE_ERRORS) && r.0 == 0 ==> r.1
            is Reconnect,
        !(round is ConnectFailed && errors + 1 >= MAX_CONSECUTIVE_ERRORS) && r.0 > 0 ==> r.1
            == StreamNext::ReconnectAfter(
            (1000 * pow2(if r.0 < 6 { r.0 as nat } else { 6 })) as u64,
        ),
{
    let new_errors: u32 = match round {
        StreamRound::ConnectFailed => errors + 1,
        StreamRound::Ended => 0,
        StreamRound::ReadFailed => 1,
    };
    if let StreamRound::ConnectFailed = round {
        if new_errors >= MAX_CONSECUTIVE_ERRORS {
            return (new_errors, StreamNext::Stop);
        }
    }
    if new_errors > 0 {
        (new_errors, StreamNext::ReconnectAfter(reconnect_backoff_ms(new_errors)))
    } else {
        (new_errors, StreamNext::Reconnect)
    }
}

} // verus!
