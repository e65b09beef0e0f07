//! The 64-bit time-sortable identifier: a millisecond timestamp above a
//! 16-bit random field.
use crate::error::TinyError;
use crate::outside::{
    clock_error_message, draw_u16, duration_millis, duration_nanos, duration_of_millis,
    elapsed_since_epoch, from_timeflake_error, new_timeflake, parse_uuid, sibling_random,
    sibling_timestamp, timeflake_random, timeflake_timestamp, uuid_as_value, uuid_error_message,
    uuid_of_value, uuid_text, uuid_value, hyphenated_parse_error, uuid_error_text,
};
use crate::text::{hyphenated_text, hyphenated_value, lemma_hyphenated_text_value};
use core::time::Duration;
use timeflake_rs::Timeflake;
use uuid::Uuid;
use vstd::prelude::*;

verus! {

/// Bits 127..80 of the 128-bit form: where the timestamp stands.
pub const TIMESTAMP_MASK: u128 = 0xFFFF_FFFF_FFFF_0000_0000_0000_0000_0000;

/// The low 80 bits of the larger form: its random field.
pub const LARGER_RANDOM_MASK: u128 = 0xFFFF_FFFF_FFFF_FFFF_FFFF;

/// The largest millisecond count that the 48-bit timestamp field holds.
pub const MAX_MILLIS: u64 = 0xFFFF_FFFF_FFFF;

/// An identifier: a duration since the Unix epoch, of which the packed forms
/// keep whole milliseconds, and a random value that breaks ties.
pub struct TimeflakeTiny {
    pub timestamp: Duration,
    pub random: u16,
}

/// The 64-bit form of a timestamp and a random value: `random | (ms << 16)`,
/// where bits of `ms` above 48 are lost.
pub open spec fn packed_int(ms: nat, random: u16) -> u64 {
    (random as u64) | ((ms as u64) << 16u64)
}

/// The 128-bit form of a timestamp and a random value: `(ms << 80) | random`,
/// where bits of `ms` above 48 are lost.
pub open spec fn packed_uuid(ms: nat, random: u16) -> u128 {
    ((ms as u128) << 80u128) | (random as u128)
}

/// The millisecond timestamp that a 128-bit form holds in bits 127..80.
pub open spec fn uuid_millis(v: u128) -> u128 {
    (v & TIMESTAMP_MASK) >> 80u128
}

/// The random value that a 128-bit form holds in bits 15..0.
pub open spec fn uuid_random(v: u128) -> u16 {
    (v & 0xFFFFu128) as u16
}

/// `t` is the identifier that the 128-bit form `v` denotes.
pub open spec fn decoded(v: u128, t: TimeflakeTiny) -> bool {
    &&& duration_nanos(t.timestamp) == uuid_millis(v) as nat * 1_000_000
    &&& t.random == uuid_random(v)
}

/// `t` is the larger form of `x`: the same timestamp, and `x`'s random value
/// in the low 16 bits of its wider random field.
pub open spec fn is_larger_form_of(t: Timeflake, x: TimeflakeTiny) -> bool {
    sibling_timestamp(t) == x.timestamp && sibling_random(t) == x.random as u128
}

/// The identifier that a larger form narrows to: its random field cut to the
/// low 16 bits, the bits above them lost.
pub open spec fn narrowed(t: Timeflake) -> TimeflakeTiny {
    TimeflakeTiny { timestamp: sibling_timestamp(t), random: (sibling_random(t) & 0xFFFFu128) as u16 }
}

/// The 128-bit layout of a larger form: its timestamp in whole milliseconds
/// in bits 127..80, above the low 80 bits of its random field. This is the
/// layout that the identifier's own 128-bit form is meant to embed in.
pub open spec fn larger_form_value(t: Timeflake) -> u128 {
    (((duration_nanos(sibling_timestamp(t)) / 1_000_000) as u128) << 80u128) | (sibling_random(t)
        & LARGER_RANDOM_MASK)
}

impl TimeflakeTiny {
    /// The timestamp in whole milliseconds since the epoch.
    pub open spec fn millis(&self) -> nat {
        duration_nanos(self.timestamp) / 1_000_000
    }

    /// What `as_u64` returns.
    pub open spec fn int_form(&self) -> u64 {
        packed_int(self.millis(), self.random)
    }

    /// The value of the UUID that `get_uuid` returns.
    pub open spec fn uuid_form(&self) -> u128 {
        packed_uuid(self.millis(), self.random)
    }

    /// Reads an identifier from the hyphenated 8-4-4-4-12 form of a UUID,
    /// hex digits of either case; the timestamp is taken from bits 127..80
    /// and the random value from bits 15..0. Any other text is refused as
    /// malformed, with the message of uuid's parse failure.
    pub fn parse(data: &str) -> (r: Result<TimeflakeTiny, TinyError>)
        ensures
            match hyphenated_value(data@) {
                Some(v) => r is Ok && decoded(v, r->Ok_0),
                None => r is Err && r->Err_0 is MalformedData && r->Err_0->MalformedData_msg@
                    == uuid_error_text(hyphenated_parse_error(data@)),
            },
    {
        let uuid = match parse_uuid(data) {
            Ok(x) => x,
            Err(e) => {
                return Err(TinyError::MalformedData { msg: uuid_error_message(&e) });
            },
        };
        let flake = uuid_as_value(&uuid);
        let ms = (flake & TIMESTAMP_MASK) >> 80u128;
        assert(ms <= 0xFFFF_FFFF_FFFFu128) by (bit_vector)
            requires
                ms == (flake & 0xFFFF_FFFF_FFFF_0000_0000_0000_0000_0000u128) >> 80u128,
        ;
        let timestamp = duration_of_millis(ms as u64);
        let random = (flake & 0xFFFF) as u16;
        Ok(TimeflakeTiny { timestamp, random })
    }

    /// An identifier for the current time, with a freshly drawn random value.
    /// It fails only where the clock reads a time before the epoch.
    pub fn random() -> (r: Result<TimeflakeTiny, TinyError>)
        ensures
            r is Err ==> r->Err_0 is SystemTimeError,
    {
        match elapsed_since_epoch() {
            Ok(time) => Self::from_values(time, None),
            Err(e) => Err(TinyError::SystemTimeError { msg: clock_error_message(&e) }),
        }
    }

    /// An identifier of the given timestamp, kept at full precision, and the
    /// given random value, or a freshly drawn one where none is given.
    pub fn from_values(timestamp: Duration, random_val: Option<u16>) -> (r: Result<
        TimeflakeTiny,
        TinyError,
    >)
        ensures
            r is Ok,
            r->Ok_0.timestamp == timestamp,
            random_val is Some ==> r->Ok_0.random == random_val->0,
    {
        let random = match random_val {
            Some(x) => x,
            None => draw_u16(),
        };
        Ok(TimeflakeTiny { timestamp, random })
    }

    /// The 64-bit form: `random | (milliseconds << 16)`.
    pub fn as_u64(&self) -> (r: u64)
        ensures
            r == self.int_form(),
    {
        self.random as u64 | (duration_millis(&self.timestamp) as u64) << 16u64
    }

    /// The 128-bit form, `(milliseconds << 80) | random`, as a UUID.
    pub fn get_uuid(&self) -> (r: Uuid)
        ensures
            uuid_value(r) == self.uuid_form(),
    {
        let stretched: u128 = duration_millis(&self.timestamp) << 80u128 | self.random as u128;
        uuid_of_value(stretched)
    }

    /// The 128-bit form as lowercase hex text grouped 8-4-4-4-12.
    pub fn to_string(&self) -> (r: String)
        ensures
            r@ == hyphenated_text(self.uuid_form()),
    {
        uuid_text(&self.get_uuid())
    }

    /// The larger form: the same timestamp and the random value widened.
    pub fn to_timeflake(&self) -> (r: Result<Timeflake, TinyError>)
        ensures
            r is Ok,
            is_larger_form_of(r->Ok_0, *self),
    {
        match new_timeflake(self.timestamp, self.random as u128) {
            Ok(t) => Ok(t),
            Err(e) => Err(from_timeflake_error(e)),
        }
    }

    /// The identifier of a larger form; random bits above the low 16 are lost.
    pub fn from_timeflake(data: &Timeflake) -> (r: Result<TimeflakeTiny, TinyError>)
        ensures
            r is Ok,
            r->Ok_0 == narrowed(*data),
    {
        let random = timeflake_random(data) & 0xFFFF;
        TimeflakeTiny::from_values(timeflake_timestamp(data), Some(random as u16))
    }
}

/// Writing an identifier as text and reading it back gives its random value
/// and its timestamp in milliseconds back; a timestamp of whole milliseconds
/// comes back exactly.
pub proof fn lemma_text_round_trip(x: TimeflakeTiny, y: TimeflakeTiny)
    requires
        x.millis() <= MAX_MILLIS,
    ensures
        hyphenated_value(hyphenated_text(x.uuid_form())) == Some(x.uuid_form()),
        decoded(x.uuid_form(), y) ==> y.random == x.random && y.millis() == x.millis(),
        decoded(x.uuid_form(), y) && duration_nanos(x.timestamp) % 1_000_000 == 0 ==> duration_nanos(
            y.timestamp,
        ) == duration_nanos(x.timestamp),
{
    let v = x.uuid_form();
    let m = x.millis() as u128;
    let r = x.random as u128;
    lemma_hyphenated_text_value(v);
    assert(v == (m << 80u128) | r);
    assert(((((m << 80u128) | r) & 0xFFFF_FFFF_FFFF_0000_0000_0000_0000_0000u128) >> 80u128) == m
        && (((m << 80u128) | r) & 0xFFFFu128) == r) by (bit_vector)
        requires
            m <= 0xFFFF_FFFF_FFFFu128,
            r <= 0xFFFFu128,
    ;
}

/// For a timestamp of at most 48 bits the 64-bit form is
/// `random + milliseconds * 2^16`, and both values can be read back from it.
pub proof fn lemma_int_layout(x: TimeflakeTiny)
    requires
        x.millis() <= MAX_MILLIS,
    ensures
        x.int_form() as nat == x.random as nat + x.millis() * 0x10000,
        x.int_form() >> 16u64 == x.millis(),
        x.int_form() & 0xFFFFu64 == x.random,
{
    let m = x.millis() as u64;
    let r = x.random as u64;
    assert(x.int_form() == r | (m << 16u64));
    assert(((r | (m << 16u64)) == r + m * 0x10000u64) && ((r | (m << 16u64)) >> 16u64) == m && ((r
        | (m << 16u64)) & 0xFFFFu64) == r) by (bit_vector)
        requires
            m <= 0xFFFF_FFFF_FFFFu64,
            r <= 0xFFFFu64,
    ;
}

/// For timestamps of at most 48 bits the 64-bit forms sort by timestamp
/// first and by random value second.
pub proof fn lemma_int_order(x: TimeflakeTiny, y: TimeflakeTiny)
    requires
        x.millis() <= MAX_MILLIS,
        y.millis() <= MAX_MILLIS,
    ensures
        x.int_form() < y.int_form() <==> (x.millis() < y.millis() || (x.millis() == y.millis()
            && x.random < y.random)),
{
    lemma_int_layout(x);
    lemma_int_layout(y);
    let (xm, xr, ym, yr) = (x.millis() as int, x.random as int, y.millis() as int, y.random as int);
    assert(xr + xm * 0x10000 < yr + ym * 0x10000 <==> (xm < ym || (xm == ym && xr < yr))) by (nonlinear_arith)
        requires
            0 <= xr < 0x10000,
            0 <= yr < 0x10000,
            0 <= xm,
            0 <= ym,
    ;
}

/// Converting to the larger form and back gives the identifier back.
pub proof fn lemma_larger_form_round_trip(x: TimeflakeTiny, t: Timeflake)
    requires
        is_larger_form_of(t, x),
    ensures
        narrowed(t) == x,
{
    let r = x.random as u128;
    assert(r & 0xFFFFu128 == r) by (bit_vector)
        requires
            r <= 0xFFFFu128,
    ;
}

/// The larger form of an identifier has the same 128-bit value as the
/// identifier's own 128-bit form.
pub proof fn lemma_larger_form_embedding(x: TimeflakeTiny, t: Timeflake)
    requires
        is_larger_form_of(t, x),
    ensures
        larger_form_value(t) == x.uuid_form(),
{
    let r = x.random as u128;
    assert(r & 0xFFFF_FFFF_FFFF_FFFF_FFFFu128 == r) by (bit_vector)
        requires
            r <= 0xFFFFu128,
    ;
}

} // verus!
