//! Idempotency resolver: validates a client-supplied idempotency key and
//! derives the deterministic order id from it, so that retries of the
//! same logical request name the same order on every replica.

use vstd::prelude::*;

verus! {

/// Fixed namespace the order ids are derived in, as a 128-bit value:
/// the UUID `6ba7b810-9dad-11d1-80b4-00c04fd430c8`.
pub const ORDER_ID_NAMESPACE: u128 = 0x6ba7b8109dad11d180b400c04fd430c8;

/// What `str::trim` leaves of `s`: `s` without leading and trailing
/// whitespace.
pub uninterp spec fn trim_of(s: Seq<char>) -> Seq<char>;

/// What `uuid::Uuid::parse_str` makes of `s`: the 128-bit value of the
/// UUID that `s` spells, or nothing if `s` is no UUID text.
pub uninterp spec fn uuid_of(s: Seq<char>) -> Option<u128>;

/// The canonical text of the UUID with value `v`: lower-case hyphenated
/// form, as `uuid::Uuid`'s display writes it.
pub uninterp spec fn uuid_text_of(v: u128) -> Seq<char>;

/// The value of the name-based (version 5) UUID that
/// `uuid::Uuid::new_v5` derives from `namespace` and the bytes of
/// `name`.  It depends on the two arguments alone.
pub uninterp spec fn uuid5_of(namespace: u128, name: Seq<char>) -> u128;

/// Relies on `str::trim`: returns the slice without leading and
/// trailing whitespace.
#[verifier::external_body]
pub(crate) fn str_trim<'a>(s: &'a str) -> (r: &'a str)
    ensures
        r@ == trim_of(s@),
{
    s.trim()
}

/// Relies on `uuid::Uuid::parse_str`: accepts exactly the textual UUID
/// forms and returns the parsed 128-bit value.
#[verifier::external_body]
fn uuid_parse(s: &str) -> (r: Option<u128>)
    ensures
        r == uuid_of(s@),
{
    uuid::Uuid::parse_str(s).ok().map(|u| u.as_u128())
}

/// Relies on `uuid::Uuid`'s display: writes the value in canonical
/// lower-case hyphenated form.
#[verifier::external_body]
pub(crate) fn uuid_format(v: u128) -> (r: String)
    ensures
        r@ == uuid_text_of(v),
{
    uuid::Uuid::from_u128(v).hyphenated().to_string()
}

/// Relies on `uuid::Uuid::new_v5`: hashes the name bytes into the
/// namespace; the result is a function of the two arguments alone.
#[verifier::external_body]
fn uuid_new_v5(namespace: u128, name: &str) -> (r: u128)
    ensures
        r == uuid5_of(namespace, name@),
{
    uuid::Uuid::new_v5(&uuid::Uuid::from_u128(namespace), name.as_bytes()).as_u128()
}

/// Validates a raw idempotency key: trims it, requires it to be a
/// textual UUID, and returns the canonical key text.  Returns nothing
/// exactly when the trimmed text is no UUID.
pub fn normalize_idempotency_key(raw: &str) -> (r: Option<String>)
    ensures
        r is Some <==> uuid_of(trim_of(raw@)) is Some,
        r matches Some(key) ==> key@ == uuid_text_of(uuid_of(trim_of(raw@)).unwrap()),
{
    let trimmed: &str = str_trim(raw);
    match uuid_parse(trimmed) {
        Some(value) => Some(uuid_format(value)),
        None => None,
    }
}

/// Derives the deterministic order id for a canonical idempotency key:
/// the version-5 UUID of the key text in [`ORDER_ID_NAMESPACE`].  Equal
/// keys give equal order ids on every replica and retry.
pub fn derive_order_id(idempotency_key: &str) -> (r: u128)
    ensures
        r == uuid5_of(ORDER_ID_NAMESPACE, idempotency_key@),
{
    uuid_new_v5(ORDER_ID_NAMESPACE, idempotency_key)
}

} // verus!
