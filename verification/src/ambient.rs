//! What a request takes from its surroundings: a random identifier and the time of day.
use vstd::prelude::*;
use rand::Rng;

verus! {

/// `c` is an ASCII letter or an ASCII digit.
pub open spec fn alphanumeric(c: char) -> bool {
    ||| 'a' <= c <= 'z'
    ||| 'A' <= c <= 'Z'
    ||| '0' <= c <= '9'
}

/// `c` was drawn at random.
pub closed spec fn drawn(c: char) -> bool {
    call_ensures(random_alphanumeric, (), c)
}

/// `s` is an identifier of `length` letters and digits, each drawn at random.
pub open spec fn is_uid(s: Seq<char>, length: nat) -> bool {
    &&& s.len() == length
    &&& forall|i: int| 0 <= i < s.len() ==> alphanumeric(#[trigger] s[i]) && drawn(s[i])
}

/// Wraps `rand::Rng::sample` on the thread's generator with `rand::distributions::Alphanumeric`:
/// some ASCII letter or digit. Which one is left to chance.
#[verifier::external_body]
fn random_alphanumeric() -> (c: char)
    ensures
        alphanumeric(c),
{
    rand::thread_rng().sample(rand::distributions::Alphanumeric) as char
}

/// A reading of the clock.
#[verifier::external_type_specification]
#[verifier::external_body]
pub struct ExSystemTime(std::time::SystemTime);

/// How far a reading of the clock lies before another.
#[verifier::external_type_specification]
#[verifier::external_body]
pub struct ExSystemTimeError(std::time::SystemTimeError);

/// How many nanoseconds a reading of the clock lies after the start of 1970; `None` where it lies
/// before.
pub uninterp spec fn nanos_since_1970(time: std::time::SystemTime) -> Option<nat>;

/// How many nanoseconds a stretch of time has.
pub uninterp spec fn duration_nanos(duration: std::time::Duration) -> nat;

/// Wraps `std::time::SystemTime::now`. Nothing is stated of the reading.
#[verifier::external_body]
fn now() -> (time: std::time::SystemTime) {
    std::time::SystemTime::now()
}

/// Wraps `std::time::SystemTime::duration_since`, from the start of 1970: the time that has passed
/// since then, or an error where the reading lies before it.
#[verifier::external_body]
fn since_1970(time: &std::time::SystemTime) -> (r: Result<
    std::time::Duration,
    std::time::SystemTimeError,
>)
    ensures
        match r {
            Ok(duration) => nanos_since_1970(*time) == Some(duration_nanos(duration)),
            Err(_) => nanos_since_1970(*time) is None,
        },
{
    time.duration_since(std::time::UNIX_EPOCH)
}

/// Wraps `std::time::Duration::as_millis`: the whole milliseconds of a stretch of time.
#[verifier::external_body]
fn whole_millis(duration: &std::time::Duration) -> (millis: u128)
    ensures
        millis == duration_nanos(*duration) / 1_000_000,
{
    duration.as_millis()
}

/// The milliseconds from the start of 1970 to a reading of the clock, as far as they fit in 64 bits;
/// a reading that lies before then counts as zero.
pub open spec fn timestamp(time: std::time::SystemTime) -> u64 {
    match nanos_since_1970(time) {
        Some(nanos) => (nanos / 1_000_000) as u64,
        None => 0,
    }
}

/// The milliseconds from the start of 1970 to a reading of the clock.
pub fn timestamp_of(time: &std::time::SystemTime) -> (millis: u64)
    ensures
        millis == timestamp(*time),
{
    match since_1970(time) {
        Ok(duration) => whole_millis(&duration) as u64,
        Err(_) => 0,
    }
}

/// `time` was read from the clock.
pub closed spec fn read_from_clock(time: std::time::SystemTime) -> bool {
    call_ensures(now, (), time)
}

/// The milliseconds from the start of 1970 to the present, by the clock.
pub(crate) fn get_timestamp() -> (millis: u64)
    ensures
        exists|time: std::time::SystemTime|
            read_from_clock(time) && millis == #[trigger] timestamp(time),
{
    timestamp_of(&now())
}

/// A random identifier of `length` letters and digits.
pub fn generate_random_uid(length: usize) -> (uid: String)
    ensures
        is_uid(uid@, length as nat),
{
    let mut uid = String::new();
    for i in 0..length
        invariant
            is_uid(uid@, i as nat),
    {
        uid.push(random_alphanumeric());
    }
    uid
}

/// `millis` are the whole milliseconds from the start of 1970 to the reading `time`, where they fit
/// in 64 bits; for a reading that lies before then they are zero.
pub open spec fn counts_millis(time: std::time::SystemTime, millis: u64) -> bool {
    match nanos_since_1970(time) {
        Some(nanos) => nanos < (u64::MAX + 1) * 1_000_000 ==> millis * 1_000_000 <= nanos < (millis
            + 1) * 1_000_000,
        None => millis == 0,
    }
}

/// A timestamp counts the whole milliseconds that have passed at a reading of the clock since the
/// start of 1970.
pub proof fn law_timestamp_counts_millis(time: std::time::SystemTime)
    ensures
        counts_millis(time, timestamp(time)),
{
}

/// What is made of a reading of the clock counts its milliseconds.
pub proof fn law_timestamps_follow_the_clock(time: std::time::SystemTime, millis: u64)
    requires
        call_ensures(timestamp_of, (&time,), millis),
    ensures
        counts_millis(time, millis),
{
    law_timestamp_counts_millis(time);
}

/// Of two readings of the clock the one that lies later has no smaller timestamp, and the timestamps
/// are as many milliseconds apart as the readings, give or take one.
pub proof fn law_timestamps_keep_the_order(
    one: std::time::SystemTime,
    other: std::time::SystemTime,
)
    requires
        nanos_since_1970(one) is Some,
        nanos_since_1970(other) is Some,
        nanos_since_1970(one)->Some_0 <= nanos_since_1970(other)->Some_0 < (u64::MAX + 1) * 1_000_000,
    ensures
        timestamp(one) <= timestamp(other),
        -1_000_000 < (timestamp(other) - timestamp(one)) * 1_000_000 - (nanos_since_1970(
            other,
        )->Some_0 - nanos_since_1970(one)->Some_0) < 1_000_000,
{
}

/// An identifier has the length that was asked for, and nothing in it but ASCII letters and digits
/// that were drawn at random.
pub proof fn law_identifiers(length: usize, uid: String)
    requires
        call_ensures(generate_random_uid, (length,), uid),
    ensures
        uid@.len() == length,
        forall|i: int|
            0 <= i < uid@.len() ==> {
                ||| 'a' <= #[trigger] uid@[i] <= 'z'
                ||| 'A' <= uid@[i] <= 'Z'
                ||| '0' <= uid@[i] <= '9'
            },
        forall|i: int| 0 <= i < uid@.len() ==> drawn(#[trigger] uid@[i]),
{
}

} // verus!
