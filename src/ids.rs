use vstd::prelude::*;

verus! {

/// A point in time: seconds since the Unix epoch and the nanoseconds past
/// that second.
#[derive(Clone, Copy, Debug, PartialEq, Eq, Structural)]
pub struct Timestamp {
    pub seconds: i64,
    pub nanos: u32,
}

impl Timestamp {
    /// The Unix epoch.
    pub fn epoch() -> (r: Timestamp)
        ensures
            r.seconds == 0,
            r.nanos == 0,
    {
        Timestamp { seconds: 0, nanos: 0 }
    }
}

/// Relies on `chrono::Utc::now`, read as whole seconds and subsecond
/// nanoseconds. Nothing is promised of the value.
#[verifier::external_body]
pub(crate) fn now() -> Timestamp {
    let t = chrono::Utc::now();
    Timestamp { seconds: t.timestamp(), nanos: t.timestamp_subsec_nanos() }
}

/// `uuid::Error`, what `uuid`'s `FromStr` refuses a text with; opaque.
#[verifier::external_type_specification]
#[verifier::external_body]
pub struct ExUuidError(uuid::Error);

pub open spec fn hex_digit(n: int) -> char {
    seq!['0', '1', '2', '3', '4', '5', '6', '7', '8', '9', 'a', 'b', 'c', 'd', 'e', 'f'][n]
}

/// The last `count` hexadecimal digits of `n`, most significant first.
pub open spec fn hex_digits(n: nat, count: nat) -> Seq<char>
    decreases count,
{
    if count == 0 {
        Seq::empty()
    } else {
        hex_digits(n / 16, (count - 1) as nat).push(hex_digit((n % 16) as int))
    }
}

/// The hyphenated lower-case text of the UUID whose big-endian value is
/// `id` (8-4-4-4-12 hexadecimal digits).
pub open spec fn uuid_text(id: u128) -> Seq<char> {
    let h = hex_digits(id as nat, 32);
    h.subrange(0, 8) + seq!['-'] + h.subrange(8, 12) + seq!['-'] + h.subrange(12, 16) + seq!['-']
        + h.subrange(16, 20) + seq!['-'] + h.subrange(20, 32)
}

/// The UUID that `uuid`'s `FromStr` reads from a text, as its big-endian
/// value; `None` where it refuses the text.
pub uninterp spec fn uuid_parsed(s: Seq<char>) -> Option<u128>;

/// Relies on `uuid::Uuid::new_v4`: a random version-4 UUID, whose version
/// nibble is 4.
#[verifier::external_body]
pub(crate) fn new_job_id() -> (r: u128)
    ensures
        (r >> 76u128) & 0xfu128 == 4,
{
    uuid::Uuid::new_v4().as_u128()
}

/// Relies on `uuid::Uuid::from_u128` and its `Display`, which writes the
/// hyphenated lower-case form; `uuid`'s `FromStr` reads that form back as
/// the same UUID.
#[verifier::external_body]
fn job_id_text(id: u128) -> (r: String)
    ensures
        r@ == uuid_text(id),
        uuid_parsed(r@) == Some(id),
{
    uuid::Uuid::from_u128(id).to_string()
}

/// The text form of a job id, as labels, object keys and clients see it:
/// the hyphenated lower-case UUID, which reads back as the same id.
pub fn job_id_string(id: u128) -> (r: String)
    ensures
        r@ == uuid_text(id),
        uuid_parsed(r@) == Some(id),
{
    job_id_text(id)
}

/// Relies on `uuid::Uuid`'s `FromStr`.
#[verifier::external_body]
fn parse_uuid(s: &str) -> (r: Result<u128, uuid::Error>)
    ensures
        r is Ok <==> uuid_parsed(s@) is Some,
        r is Ok ==> uuid_parsed(s@) == Some(r->Ok_0),
{
    s.parse::<uuid::Uuid>().map(|u| u.as_u128())
}

/// Reads a job id from its text form; `None` where it is no UUID.
pub fn parse_job_id(s: &str) -> (r: Option<u128>)
    ensures
        r == uuid_parsed(s@),
{
    match parse_uuid(s) {
        Ok(v) => Some(v),
        Err(_) => None,
    }
}

pub open spec fn ascii_alnum(c: char) -> bool {
    ('0' <= c && c <= '9') || ('a' <= c && c <= 'z') || ('A' <= c && c <= 'Z')
}

/// Length of a job secret.
pub const SECRET_LEN: usize = 32;

/// Relies on `rand::distr::Alphanumeric::sample_string` with the thread
/// generator: `SECRET_LEN` characters drawn from `[A-Za-z0-9]`.
#[verifier::external_body]
pub(crate) fn new_secret() -> (r: String)
    ensures
        r@.len() == SECRET_LEN,
        forall|i: int| 0 <= i < r@.len() ==> ascii_alnum(#[trigger] r@[i]),
{
    rand::distr::SampleString::sample_string(
        &rand::distr::Alphanumeric,
        &mut rand::rng(),
        SECRET_LEN,
    )
}

} // verus!
