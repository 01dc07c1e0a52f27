//! Identifier generation compatible with the server's id format:
//! `{prefix}_{12 hex digits of (timestamp_ms << 12) + counter}{14 base62 chars}`,
//! the 48-bit stamp bit-flipped for descending ids.

use vstd::prelude::*;
use vstd::wrapping::u64_specs;
use crate::text::{push_str, string_from_chars};

verus! {

/// Kind of object an id names.
#[derive(Debug, Clone, Copy, PartialEq, Eq)]
pub enum IdPrefix {
    Message,
    Session,
    User,
    Part,
    Permission,
}

/// The prefix text of each kind.
pub open spec fn prefix_text(p: IdPrefix) -> Seq<char> {
    match p {
        IdPrefix::Message => seq!['m', 's', 'g'],
        IdPrefix::Session => seq!['s', 'e', 's'],
        IdPrefix::User => seq!['u', 's', 'r'],
        IdPrefix::Part => seq!['p', 'r', 't'],
        IdPrefix::Permission => seq!['p', 'e', 'r'],
    }
}

impl IdPrefix {
    /// The three-letter prefix of the kind.
    pub fn as_str(&self) -> (s: &'static str)
        ensures
            s@ == prefix_text(*self),
    {
        proof {
            reveal_strlit("msg");
            reveal_strlit("ses");
            reveal_strlit("usr");
            reveal_strlit("prt");
            reveal_strlit("per");
        }
        match self {
            IdPrefix::Message => "msg",
            IdPrefix::Session => "ses",
            IdPrefix::User => "usr",
            IdPrefix::Part => "prt",
            IdPrefix::Permission => "per",
        }
    }
}

/// `(timestamp_ms << 12) + counter`, wrapping at 64 bits.
pub open spec fn stamp_value(timestamp_ms: u64, counter: u64) -> u64 {
    u64_specs::wrapping_add(u64_specs::wrapping_mul(timestamp_ms, 4096), counter)
}

/// The 48 low bits that the id shows, bit-flipped when descending.
pub open spec fn shown_bits(value: u64, descending: bool) -> nat {
    if descending {
        ((0xffff_ffff_ffff_ffffu64 - value) as nat) % 0x1_0000_0000_0000
    } else {
        (value as nat) % 0x1_0000_0000_0000
    }
}

/// Lowercase hex digit.
pub open spec fn hex_char(d: nat) -> char {
    if d < 10 {
        ((48 + d) as u32) as char
    } else {
        ((87 + d) as u32) as char
    }
}

/// The `n` low hex digits of `v`, most significant first.
pub open spec fn hex_digits(v: nat, n: nat) -> Seq<char>
    decreases n,
{
    if n == 0 {
        seq![]
    } else {
        hex_digits(v / 16, (n - 1) as nat).push(hex_char(v % 16))
    }
}

/// The base62 alphabet: digits, upper case, lower case.
pub open spec fn base62_char(i: nat) -> char {
    if i < 10 {
        ((48 + i) as u32) as char
    } else if i < 36 {
        ((55 + i) as u32) as char
    } else {
        ((61 + i) as u32) as char
    }
}

/// The id text for a stamp value and the random alphabet indices.
pub open spec fn id_text(prefix: IdPrefix, value: u64, descending: bool, random: Seq<u8>) -> Seq<
    char,
> {
    prefix_text(prefix).push('_') + hex_digits(shown_bits(value, descending), 12) + random.map_values(
        |i: u8| base62_char(i as nat),
    )
}

/// Whether `s` has the shape of a generated id of kind `prefix`.
pub open spec fn is_id_shaped(s: Seq<char>, prefix: IdPrefix) -> bool {
    exists|value: u64, descending: bool, random: Seq<u8>|
        random.len() == 14 && (forall|k: int| 0 <= k < 14 ==> #[trigger] random[k] < 62) && s
            == id_text(prefix, value, descending, random)
}

fn hex_of(d: u64) -> (c: char)
    requires
        d < 16,
    ensures
        c == hex_char(d as nat),
{
    let n: u8 = if d < 10 {
        48 + d as u8
    } else {
        87 + d as u8
    };
    n as char
}

fn push_hex(dst: &mut Vec<char>, v: u64, n: u64)
    ensures
        final(dst)@ == old(dst)@ + hex_digits(v as nat, n as nat),
    decreases n,
{
    if n > 0 {
        push_hex(dst, v / 16, n - 1);
        dst.push(hex_of(v % 16));
        assert(old(dst)@ + hex_digits((v / 16) as nat, (n - 1) as nat).push(hex_char((v % 16) as nat))
            =~= (old(dst)@ + hex_digits((v / 16) as nat, (n - 1) as nat)).push(
            hex_char((v % 16) as nat),
        ));
    }
}

fn base62_of(i: u8) -> (c: char)
    requires
        i < 62,
    ensures
        c == base62_char(i as nat),
{
    let n: u8 = if i < 10 {
        48 + i
    } else if i < 36 {
        55 + i
    } else {
        61 + i
    };
    n as char
}

/// Formats an id from its parts: the clock's timestamp and counter, the
/// direction, and the 14 random indices into the base62 alphabet.
pub fn format_id(
    prefix: IdPrefix,
    timestamp_ms: u64,
    counter: u64,
    descending: bool,
    random_indices: &[u8],
) -> (id: String)
    requires
        forall|k: int| 0 <= k < random_indices@.len() ==> #[trigger] random_indices@[k] < 62,
    ensures
        id@ == id_text(prefix, stamp_value(timestamp_ms, counter), descending, random_indices@),
{
    let value = timestamp_ms.wrapping_mul(4096).wrapping_add(counter);
    let shown: u64 = if descending {
        (0xffff_ffff_ffff_ffffu64 - value) % 0x1_0000_0000_0000
    } else {
        value % 0x1_0000_0000_0000
    };
    let mut out: Vec<char> = Vec::new();
    push_str(&mut out, prefix.as_str());
    out.push('_');
    push_hex(&mut out, shown, 12);
    let ghost head = out@;
    let mut i: usize = 0;
    while i < random_indices.len()
        invariant
            i <= random_indices@.len(),
            forall|k: int| 0 <= k < random_indices@.len() ==> #[trigger] random_indices@[k] < 62,
            out@ == head + random_indices@.take(i as int).map_values(|x: u8| base62_char(x as nat)),
        decreases random_indices.len() - i,
    {
        out.push(base62_of(random_indices[i]));
        assert(random_indices@.take(i + 1).map_values(|x: u8| base62_char(x as nat)) =~= random_indices@.take(
            i as int,
        ).map_values(|x: u8| base62_char(x as nat)).push(base62_char(random_indices@[i as int] as nat)));
        i = i + 1;
    }
    assert(random_indices@.take(i as int) =~= random_indices@);
    assert(out@ =~= id_text(prefix, stamp_value(timestamp_ms, counter), descending, random_indices@));
    string_from_chars(out.as_slice())
}

/// Milliseconds since the Unix epoch, read from `SystemTime::now()`
/// (0 when the clock reads before the epoch). Nothing is claimed of the value.
#[verifier::external_body]
pub fn current_time_millis() -> u64 {
    std::time::SystemTime::now().duration_since(std::time::UNIX_EPOCH).map(|d| d.as_millis() as u64).unwrap_or(0)
}

/// A uniformly drawn index into the base62 alphabet:
/// `rand::Rng::gen_range(0..62)` on the thread-local generator, which returns a
/// value in the range.
#[verifier::external_body]
fn random_base62_index() -> (i: u8)
    ensures
        i < 62,
{
    rand::Rng::gen_range(&mut rand::thread_rng(), 0..62u8)
}

/// The id clock that the process keeps: the last timestamp seen and the
/// counter of ids made within it. All ids of a process are made from one
/// clock, so that ids made within one millisecond get successive counters.
#[derive(Debug, Clone, PartialEq, Eq)]
pub struct IdClock {
    pub last_timestamp: u64,
    pub counter: u64,
}

impl IdClock {
    /// A clock that has seen no timestamp.
    pub fn new() -> (c: Self)
        ensures
            c.last_timestamp == 0 && c.counter == 0,
    {
        IdClock { last_timestamp: 0, counter: 0 }
    }

    /// Advances the clock to `now_ms` and returns the counter to use: 1 for a
    /// new timestamp, the previous counter plus one (wrapping) otherwise.
    pub fn tick(&mut self, now_ms: u64) -> (counter: u64)
        ensures
            final(self).last_timestamp == now_ms,
            now_ms != old(self).last_timestamp ==> counter == 1,
            now_ms == old(self).last_timestamp ==> counter == u64_specs::wrapping_add(
                old(self).counter,
                1,
            ),
            final(self).counter == counter,
    {
        if now_ms != self.last_timestamp {
            self.last_timestamp = now_ms;
            self.counter = 1;
            1
        } else {
            self.counter = self.counter.wrapping_add(1);
            self.counter
        }
    }

    /// A fresh id of kind `prefix` from this clock: the clock is ticked at
    /// the current time (which it then holds) and the id shows the resulting
    /// stamp, with 14 random base62 characters.
    pub fn generate(&mut self, prefix: IdPrefix, descending: bool) -> (id: String)
        ensures
            final(self).counter == next_counter(
                old(self).last_timestamp,
                old(self).counter,
                final(self).last_timestamp,
            ),
            exists|random: Seq<u8>|
                random.len() == 14 && (forall|k: int| 0 <= k < 14 ==> #[trigger] random[k] < 62)
                    && id@ == id_text(
                    prefix,
                    stamp_value(final(self).last_timestamp, final(self).counter),
                    descending,
                    random,
                ),
            is_id_shaped(id@, prefix),
    {
        let now = current_time_millis();
        let counter = self.tick(now);
        let mut random: Vec<u8> = Vec::new();
        let mut i: usize = 0;
        while i < 14
            invariant
                i <= 14,
                random@.len() == i,
                forall|k: int| 0 <= k < i ==> #[trigger] random@[k] < 62,
            decreases 14 - i,
        {
            random.push(random_base62_index());
            i = i + 1;
        }
        let id = format_id(prefix, now, counter, descending, random.as_slice());
        assert(is_id_shaped(id@, prefix)) by {
            let value = stamp_value(now, counter);
            assert(random@.len() == 14 && (forall|k: int| 0 <= k < 14 ==> #[trigger] random@[k] < 62) && id@
                == id_text(prefix, value, descending, random@));
        }
        id
    }
}

/// A new ascending id of kind `prefix`, made with the process's id clock.
pub fn generate_id(clock: &mut IdClock, prefix: IdPrefix) -> (id: String)
    ensures
        final(clock).counter == next_counter(
            old(clock).last_timestamp,
            old(clock).counter,
            final(clock).last_timestamp,
        ),
        exists|random: Seq<u8>|
            random.len() == 14 && (forall|k: int| 0 <= k < 14 ==> #[trigger] random[k] < 62)
                && id@ == id_text(
                prefix,
                stamp_value(final(clock).last_timestamp, final(clock).counter),
                false,
                random,
            ),
        is_id_shaped(id@, prefix),
{
    clock.generate(prefix, false)
}

/// A new descending id of kind `prefix`, made with the process's id clock:
/// its time part is the bit-flipped stamp.
pub fn generate_descending_id(clock: &mut IdClock, prefix: IdPrefix) -> (id: String)
    ensures
        final(clock).counter == next_counter(
            old(clock).last_timestamp,
            old(clock).counter,
            final(clock).last_timestamp,
        ),
        exists|random: Seq<u8>|
            random.len() == 14 && (forall|k: int| 0 <= k < 14 ==> #[trigger] random[k] < 62)
                && id@ == id_text(
                prefix,
                stamp_value(final(clock).last_timestamp, final(clock).counter),
                true,
                random,
            ),
        is_id_shaped(id@, prefix),
{
    clock.generate(prefix, true)
}

/// Two ids stamped within the same millisecond by one clock get different
/// stamp values, unless the counter wrapped around.
pub proof fn law_same_millisecond_stamps_differ(ts: u64, c1: u64)
    requires
        c1 < 0xffff_ffff_ffff_ffff,
    ensures
        stamp_value(ts, c1) != stamp_value(ts, u64_specs::wrapping_add(c1, 1)),
{
    let m = u64_specs::wrapping_mul(ts, 4096);
    assert(u64_specs::wrapping_add(c1, 1) == c1 + 1);
}

/// An id is its prefix, an underscore, 12 hex digits and 14 base62 characters:
/// `prefix.len() + 27` characters in all.
pub proof fn law_id_length(prefix: IdPrefix, value: u64, descending: bool, random: Seq<u8>)
    requires
        random.len() == 14,
    ensures
        id_text(prefix, value, descending, random).len() == 30,
        id_text(prefix, value, descending, random).take(4) == prefix_text(prefix).push('_'),
{
    lemma_hex_len(shown_bits(value, descending), 12);
    let t = id_text(prefix, value, descending, random);
    assert(t.take(4) =~= prefix_text(prefix).push('_'));
}

proof fn lemma_hex_len(v: nat, n: nat)
    ensures
        hex_digits(v, n).len() == n,
    decreases n,
{
    if n > 0 {
        lemma_hex_len(v / 16, (n - 1) as nat);
    }
}


/// A descending id differs from the ascending id of the same stamp and
/// random part: the shown bits are flipped, so their last hex digit differs.
pub proof fn law_descending_id_differs(prefix: IdPrefix, value: u64, random: Seq<u8>)
    ensures
        id_text(prefix, value, true, random) != id_text(prefix, value, false, random),
{
    let flipped: u64 = (0xffff_ffff_ffff_ffffu64 - value) as u64;
    assert(flipped == !value) by (bit_vector)
        requires
            flipped == (0xffff_ffff_ffff_ffffu64 - value) as u64,
    ;
    let a: u64 = value % 0x1_0000_0000_0000;
    let b: u64 = flipped % 0x1_0000_0000_0000;
    assert(a % 16 != b % 16) by (bit_vector)
        requires
            flipped == !value,
            a == value % 0x1_0000_0000_0000,
            b == flipped % 0x1_0000_0000_0000,
    ;
    assert(shown_bits(value, false) == a as nat);
    assert(shown_bits(value, true) == b as nat);
    let ha = hex_digits(a as nat, 12);
    let hb = hex_digits(b as nat, 12);
    lemma_hex_len(a as nat, 12);
    lemma_hex_len(b as nat, 12);
    assert(ha[11] == hex_char((a % 16) as nat));
    assert(hb[11] == hex_char((b % 16) as nat));
    assert(hex_char((a % 16) as nat) != hex_char((b % 16) as nat)) by {
        let x = (a % 16) as nat;
        let y = (b % 16) as nat;
        assert(hex_char(x) as u32 == if x < 10 { 48 + x } else { 87 + x });
        assert(hex_char(y) as u32 == if y < 10 { 48 + y } else { 87 + y });
    }
    let head = prefix_text(prefix).push('_');
    let ta = id_text(prefix, value, false, random);
    let tb = id_text(prefix, value, true, random);
    assert(head.len() == 4);
    assert(ta[15] == ha[11]);
    assert(tb[15] == hb[11]);
}

/// The counter a clock last at `last` with counter `counter` hands out
/// when ticked at `now` (see `IdClock::tick`).
pub open spec fn next_counter(last: u64, counter: u64, now: u64) -> u64 {
    if now != last {
        1
    } else {
        u64_specs::wrapping_add(counter, 1)
    }
}

proof fn lemma_stamp_exact(t: u64, k: u64)
    requires
        k < 4096,
        t * 4096 + 4096 <= u64::MAX,
    ensures
        stamp_value(t, k) == t * 4096 + k,
{
    let p: nat = t as nat * 4096;
    assert(p < 0x1_0000_0000_0000_0000);
    vstd::arithmetic::div_mod::lemma_small_mod(p, 0x1_0000_0000_0000_0000);
    assert(u64_specs::wrapping_mul(t, 4096) == t * 4096);
}

/// Two successive ids of one clock, ticked at times that do not go back,
/// with fewer than 4096 ids in a millisecond and no overflow of the stamp,
/// have strictly increasing stamps. When both stamps lie in the same block
/// of 2^48, the time parts that ascending ids show strictly increase and
/// those that descending ids show strictly decrease.
pub proof fn law_successive_stamps_ordered(last: u64, counter: u64, t1: u64, t2: u64)
    requires
        t1 <= t2,
        next_counter(last, counter, t1) < 4096,
        next_counter(t1, next_counter(last, counter, t1), t2) < 4096,
        t2 * 4096 + 4096 <= u64::MAX,
    ensures
        ({
            let k1 = next_counter(last, counter, t1);
            let k2 = next_counter(t1, k1, t2);
            let s1 = stamp_value(t1, k1);
            let s2 = stamp_value(t2, k2);
            &&& s1 < s2
            &&& s1 / 0x1_0000_0000_0000 == s2 / 0x1_0000_0000_0000 ==> {
                &&& shown_bits(s1, false) < shown_bits(s2, false)
                &&& shown_bits(s1, true) > shown_bits(s2, true)
            }
        }),
{
    let k1 = next_counter(last, counter, t1);
    let k2 = next_counter(t1, k1, t2);
    lemma_stamp_exact(t1, k1);
    lemma_stamp_exact(t2, k2);
    if t1 == t2 {
        assert(k2 == k1 + 1);
    } else {
        assert(t1 * 4096 + 4096 <= t2 * 4096) by (nonlinear_arith)
            requires
                t1 < t2,
        ;
    }
    let s1 = stamp_value(t1, k1);
    let s2 = stamp_value(t2, k2);
    let m: int = 0x1_0000_0000_0000;
    if s1 as int / m == s2 as int / m {
        vstd::arithmetic::div_mod::lemma_fundamental_div_mod(s1 as int, m);
        vstd::arithmetic::div_mod::lemma_fundamental_div_mod(s2 as int, m);
        assert(s1 as int % m < s2 as int % m);
        let d1 = (0xffff_ffff_ffff_ffffu64 - s1) as int;
        let d2 = (0xffff_ffff_ffff_ffffu64 - s2) as int;
        // 2^64 - 1 - s  ==  2^16 * 2^48 - 1 - s: its remainder by 2^48 is 2^48 - 1 - (s % 2^48).
        assert(d1 == (0x1_0000 - 1 - s1 as int / m) * m + (m - 1 - s1 as int % m)) by (nonlinear_arith)
            requires
                s1 as int == m * (s1 as int / m) + s1 as int % m,
                d1 == 0xffff_ffff_ffff_ffff - s1 as int,
                m == 0x1_0000_0000_0000,
        ;
        assert(d2 == (0x1_0000 - 1 - s2 as int / m) * m + (m - 1 - s2 as int % m)) by (nonlinear_arith)
            requires
                s2 as int == m * (s2 as int / m) + s2 as int % m,
                d2 == 0xffff_ffff_ffff_ffff - s2 as int,
                m == 0x1_0000_0000_0000,
        ;
        vstd::arithmetic::div_mod::lemma_mod_multiples_vanish(
            0x1_0000 - 1 - s1 as int / m,
            m - 1 - s1 as int % m,
            m,
        );
        vstd::arithmetic::div_mod::lemma_mod_multiples_vanish(
            0x1_0000 - 1 - s2 as int / m,
            m - 1 - s2 as int % m,
            m,
        );
        vstd::arithmetic::div_mod::lemma_small_mod((m - 1 - s1 as int % m) as nat, m as nat);
        vstd::arithmetic::div_mod::lemma_small_mod((m - 1 - s2 as int % m) as nat, m as nat);
    }
}

/// The counters a clock last at `last` with counter `counter` hands out
/// when it is ticked at the times `ts`, in order.
pub open spec fn clock_counters(last: u64, counter: u64, ts: Seq<u64>) -> Seq<u64>
    decreases ts.len(),
{
    if ts.len() == 0 {
        seq![]
    } else if ts.len() == 1 {
        seq![next_counter(last, counter, ts[0])]
    } else {
        let prev = clock_counters(last, counter, ts.drop_last());
        prev.push(next_counter(ts[ts.len() - 2], prev.last(), ts.last()))
    }
}

proof fn lemma_clock_counters_len(last: u64, counter: u64, ts: Seq<u64>)
    ensures
        clock_counters(last, counter, ts).len() == ts.len(),
    decreases ts.len(),
{
    if ts.len() > 1 {
        lemma_clock_counters_len(last, counter, ts.drop_last());
    }
}

/// Ids that one clock makes at times that do not go back, with fewer than
/// 4096 ids in a millisecond and no overflow of the stamp, have strictly
/// increasing stamps: any two of them have different stamps, and the later
/// one the larger.
pub proof fn law_clock_stamps_increase(last: u64, counter: u64, ts: Seq<u64>)
    requires
        forall|i: int, j: int| 0 <= i <= j < ts.len() ==> ts[i] <= ts[j],
        forall|i: int| 0 <= i < ts.len() ==> #[trigger] clock_counters(last, counter, ts)[i] < 4096,
        ts.len() > 0 ==> ts.last() * 4096 + 4096 <= u64::MAX,
    ensures
        clock_counters(last, counter, ts).len() == ts.len(),
        forall|i: int, j: int|
            0 <= i < j < ts.len() ==> stamp_value(ts[i], #[trigger] clock_counters(last, counter, ts)[i])
                < stamp_value(ts[j], #[trigger] clock_counters(last, counter, ts)[j]),
    decreases ts.len(),
{
    lemma_clock_counters_len(last, counter, ts);
    let n = ts.len() as int;
    if n >= 2 {
        let init = ts.drop_last();
        let cs = clock_counters(last, counter, ts);
        let ci = clock_counters(last, counter, init);
        lemma_clock_counters_len(last, counter, init);
        assert(cs == ci.push(next_counter(ts[n - 2], ci.last(), ts.last())));
        assert forall|i: int| 0 <= i < init.len() implies #[trigger] ci[i] < 4096 by {
            assert(ci[i] == cs[i]);
        }
        assert(init.last() == ts[n - 2]);
        law_clock_stamps_increase(last, counter, init);
        let t1 = ts[n - 2];
        let t2 = ts[n - 1];
        let k1 = cs[n - 2];
        let k2 = cs[n - 1];
        assert(k1 == ci.last());
        assert(t1 <= t2);
        assert(k1 < 4096 && k2 < 4096);
        assert(t1 * 4096 + 4096 <= u64::MAX);
        lemma_stamp_exact(t1, k1);
        lemma_stamp_exact(t2, k2);
        if t1 == t2 {
            assert(k2 == k1 + 1);
        } else {
            assert(t1 * 4096 + 4096 <= t2 * 4096) by (nonlinear_arith)
                requires
                    t1 < t2,
            ;
        }
        assert(stamp_value(t1, k1) < stamp_value(t2, k2));
        assert forall|i: int, j: int| 0 <= i < j < n implies stamp_value(ts[i], #[trigger] cs[i])
            < stamp_value(ts[j], #[trigger] cs[j]) by {
            if j < n - 1 {
                assert(cs[i] == ci[i] && cs[j] == ci[j]);
                assert(init[i] == ts[i] && init[j] == ts[j]);
            } else if i < n - 2 {
                assert(cs[i] == ci[i] && cs[n - 2] == ci[n - 2]);
                assert(init[i] == ts[i] && init[n - 2] == ts[n - 2]);
                assert(stamp_value(init[i], ci[i]) < stamp_value(init[n - 2], ci[n - 2]));
            }
        }
    }
}

/// `16^n`.
pub open spec fn pow16(n: nat) -> nat
    decreases n,
{
    if n == 0 {
        1
    } else {
        16 * pow16((n - 1) as nat)
    }
}

proof fn lemma_hex_char_injective(x: nat, y: nat)
    requires
        x < 16,
        y < 16,
        hex_char(x) == hex_char(y),
    ensures
        x == y,
{
    assert(hex_char(x) as u32 == if x < 10 { 48 + x } else { 87 + x });
    assert(hex_char(y) as u32 == if y < 10 { 48 + y } else { 87 + y });
}

proof fn lemma_hex_injective(a: nat, b: nat, n: nat)
    requires
        hex_digits(a, n) == hex_digits(b, n),
    ensures
        a % pow16(n) == b % pow16(n),
    decreases n,
{
    if n == 0 {
        assert(a % 1 == 0 && b % 1 == 0);
    } else {
        let ha = hex_digits(a, n);
        let hb = hex_digits(b, n);
        assert(ha.drop_last() == hex_digits(a / 16, (n - 1) as nat));
        assert(hb.drop_last() == hex_digits(b / 16, (n - 1) as nat));
        lemma_hex_injective(a / 16, b / 16, (n - 1) as nat);
        assert(ha.last() == hex_char(a % 16));
        assert(hb.last() == hex_char(b % 16));
        lemma_hex_char_injective(a % 16, b % 16);
        let p = pow16((n - 1) as nat);
        assert(p > 0) by {
            lemma_pow16_positive((n - 1) as nat);
        }
        vstd::arithmetic::div_mod::lemma_breakdown(a as int, 16, p as int);
        vstd::arithmetic::div_mod::lemma_breakdown(b as int, 16, p as int);
        assert(pow16(n) == 16 * p);
    }
}

proof fn lemma_pow16_positive(n: nat)
    ensures
        pow16(n) > 0,
    decreases n,
{
    if n > 0 {
        lemma_pow16_positive((n - 1) as nat);
    }
}

/// Ids whose shown time parts differ are different ids.
pub proof fn law_time_parts_tell_ids_apart(
    prefix: IdPrefix,
    v1: u64,
    v2: u64,
    descending: bool,
    r1: Seq<u8>,
    r2: Seq<u8>,
)
    requires
        shown_bits(v1, descending) != shown_bits(v2, descending),
    ensures
        id_text(prefix, v1, descending, r1) != id_text(prefix, v2, descending, r2),
{
    let a = shown_bits(v1, descending);
    let b = shown_bits(v2, descending);
    let t1 = id_text(prefix, v1, descending, r1);
    let t2 = id_text(prefix, v2, descending, r2);
    lemma_hex_len(a, 12);
    lemma_hex_len(b, 12);
    let head = prefix_text(prefix).push('_');
    assert(head.len() == 4);
    if t1 == t2 {
        assert(t1.subrange(4, 16) =~= hex_digits(a, 12));
        assert(t2.subrange(4, 16) =~= hex_digits(b, 12));
        lemma_hex_injective(a, b, 12);
        assert(pow16(12) == 0x1_0000_0000_0000) by {
            reveal_with_fuel(pow16, 13);
        }
        vstd::arithmetic::div_mod::lemma_small_mod(a, 0x1_0000_0000_0000);
        vstd::arithmetic::div_mod::lemma_small_mod(b, 0x1_0000_0000_0000);
    }
}

} // verus!
