//! The calls into std's clock, `rand`, `uuid` and `timeflake_rs` that the
//! identifier needs, each with what it is relied on for.
use crate::error::TinyError;
use crate::text::{hyphenated_text, hyphenated_value};
use core::str::FromStr;
use core::time::Duration;
use rand::Rng;
use std::time::{SystemTime, SystemTimeError, UNIX_EPOCH};
use timeflake_rs::error::TimeflakeError;
use timeflake_rs::Timeflake;
use uuid::fmt::Hyphenated;
use uuid::Uuid;
use vstd::prelude::*;

verus! {

#[verifier::external_type_specification]
#[verifier::external_body]
pub struct ExUuid(Uuid);

#[verifier::external_type_specification]
#[verifier::external_body]
pub struct ExUuidError(uuid::Error);

#[verifier::external_type_specification]
#[verifier::external_body]
pub struct ExTimeflake(Timeflake);

#[verifier::external_type_specification]
#[verifier::external_body]
pub struct ExTimeflakeError(TimeflakeError);

#[verifier::external_type_specification]
#[verifier::external_body]
pub struct ExSystemTimeError(SystemTimeError);

/// The 128-bit value that a UUID holds, read big-endian from its 16 bytes.
pub uninterp spec fn uuid_value(u: Uuid) -> u128;

/// The length of a duration in whole nanoseconds.
pub uninterp spec fn duration_nanos(d: Duration) -> nat;

/// The `timestamp` field of a `Timeflake`.
pub uninterp spec fn sibling_timestamp(t: Timeflake) -> Duration;

/// The `random` field of a `Timeflake`.
pub uninterp spec fn sibling_random(t: Timeflake) -> u128;

/// Relies on Uuid::as_u128: the value of the UUID's bytes, big-endian.
#[verifier::external_body]
pub(crate) fn uuid_as_value(u: &Uuid) -> (r: u128)
    ensures
        r == uuid_value(*u),
{
    u.as_u128()
}

/// Relies on Uuid::from_u128: the UUID whose bytes are `v`, big-endian.
#[verifier::external_body]
pub(crate) fn uuid_of_value(v: u128) -> (r: Uuid)
    ensures
        uuid_value(r) == v,
{
    Uuid::from_u128(v)
}

/// The error that uuid's hyphenated parser gives for a text it refuses.
pub uninterp spec fn hyphenated_parse_error(s: Seq<char>) -> uuid::Error;

/// The message that a uuid error displays.
pub uninterp spec fn uuid_error_text(e: uuid::Error) -> Seq<char>;

/// Relies on the `FromStr` of uuid::fmt::Hyphenated: it accepts exactly 36
/// characters, hex digits of either case grouped 8-4-4-4-12 by hyphens; its
/// error depends on the text alone.
#[verifier::external_body]
pub(crate) fn parse_uuid(s: &str) -> (r: Result<Uuid, uuid::Error>)
    ensures
        r is Ok <==> hyphenated_value(s@) is Some,
        r is Ok ==> uuid_value(r->Ok_0) == hyphenated_value(s@)->0,
        r is Err ==> r->Err_0 == hyphenated_parse_error(s@),
{
    match Hyphenated::from_str(s) {
        Ok(h) => Ok(h.into_uuid()),
        Err(e) => Err(e),
    }
}

/// Relies on uuid::Error's `Display` for the message of a parse failure.
#[verifier::external_body]
pub(crate) fn uuid_error_message(e: &uuid::Error) -> (r: String)
    ensures
        r@ == uuid_error_text(*e),
{
    e.to_string()
}

/// Relies on Uuid's `Display`: lowercase hex digits grouped 8-4-4-4-12.
#[verifier::external_body]
pub(crate) fn uuid_text(u: &Uuid) -> (r: String)
    ensures
        r@ == hyphenated_text(uuid_value(*u)),
{
    u.to_string()
}

/// Relies on Duration::as_millis: the whole milliseconds in the duration.
#[verifier::external_body]
pub(crate) fn duration_millis(d: &Duration) -> (r: u128)
    ensures
        r as nat == duration_nanos(*d) / 1_000_000,
{
    d.as_millis()
}

/// Relies on Duration::from_millis: a duration of exactly `ms` milliseconds.
#[verifier::external_body]
pub(crate) fn duration_of_millis(ms: u64) -> (r: Duration)
    ensures
        duration_nanos(r) == ms as nat * 1_000_000,
{
    Duration::from_millis(ms)
}

/// Relies on rand's thread-local generator for a uniformly drawn `u16`.
#[verifier::external_body]
pub(crate) fn draw_u16() -> (r: u16) {
    rand::thread_rng().gen::<u16>()
}

/// Relies on SystemTime::now and SystemTime::duration_since for the time
/// elapsed since the Unix epoch; it fails where the clock is set before it.
#[verifier::external_body]
pub(crate) fn elapsed_since_epoch() -> (r: Result<Duration, SystemTimeError>) {
    SystemTime::now().duration_since(UNIX_EPOCH)
}

/// Relies on SystemTimeError's `Display` for the message of a clock fault.
#[verifier::external_body]
pub(crate) fn clock_error_message(e: &SystemTimeError) -> (r: String) {
    e.to_string()
}

/// Relies on Timeflake::from_values: given a random value it builds the
/// identifier from the two values as they are, and never fails.
#[verifier::external_body]
pub(crate) fn new_timeflake(timestamp: Duration, random: u128) -> (r: Result<Timeflake, TimeflakeError>)
    ensures
        r is Ok,
        r is Ok ==> sibling_timestamp(r->Ok_0) == timestamp,
        r is Ok ==> sibling_random(r->Ok_0) == random,
{
    Timeflake::from_values(timestamp, Some(random))
}

/// Relies on the public `timestamp` field of a `Timeflake`.
#[verifier::external_body]
pub(crate) fn timeflake_timestamp(t: &Timeflake) -> (r: Duration)
    ensures
        r == sibling_timestamp(*t),
{
    t.timestamp
}

/// Relies on the public `random` field of a `Timeflake`.
#[verifier::external_body]
pub(crate) fn timeflake_random(t: &Timeflake) -> (r: u128)
    ensures
        r == sibling_random(*t),
{
    t.random
}

/// Relies on the variants of TimeflakeError, each carried over with its message.
#[verifier::external_body]
pub(crate) fn from_timeflake_error(e: TimeflakeError) -> (r: TinyError) {
    match e {
        TimeflakeError::RNGError { msg } => TinyError::RngError { msg },
        TimeflakeError::SystemTimeError { msg } => TinyError::SystemTimeError { msg },
        TimeflakeError::MalformedData { msg } => TinyError::MalformedData { msg },
    }
}

} // verus!
