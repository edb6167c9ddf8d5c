//! Time and identifier sources, and the textual rendering of timestamps.

use vstd::prelude::*;

verus! {

/// Earliest instant a timestamp may hold: -262143-01-01T00:00:00, in
/// microseconds from the Unix epoch.
pub const MIN_MICROS: i64 = -8334601228800000000;

/// Latest instant a timestamp may hold: +262142-12-31T23:59:59.999999, in
/// microseconds from the Unix epoch.
pub const MAX_MICROS: i64 = 8210266876799999999;

/// Whether `m` microseconds from the epoch lie in the representable range.
pub open spec fn micros_in_range(m: int) -> bool {
    MIN_MICROS <= m <= MAX_MICROS
}

/// The display text of the instant `m` microseconds after the epoch
/// (`YYYY-MM-DD HH:MM:SS` with a fractional part when it is non-zero).
pub uninterp spec fn datetime_text(m: int) -> Seq<char>;

/// Relies on `chrono::DateTime::from_timestamp_micros`, which is `Some` on the
/// whole representable range, and on the `Display` impl of
/// `chrono::NaiveDateTime`, whose text depends on the instant alone.
#[verifier::external_body]
pub(crate) fn render_micros(m: i64) -> (r: String)
    requires
        micros_in_range(m as int),
    ensures
        r@ == datetime_text(m as int),
{
    chrono::DateTime::from_timestamp_micros(m).expect("instant in range").naive_utc().to_string()
}

/// Relies on `chrono::Utc::now` and `chrono::DateTime::timestamp_micros`: the
/// current instant, which on this platform is never before the epoch (chrono
/// panics otherwise) and always within chrono's range.
#[verifier::external_body]
pub(crate) fn now_micros() -> (r: i64)
    ensures
        0 <= r <= MAX_MICROS,
{
    chrono::Utc::now().timestamp_micros()
}

/// Relies on `uuid::Uuid::new_v4` and `uuid::Uuid::as_u128`: a random
/// identifier, of which nothing is promised.
#[verifier::external_body]
pub(crate) fn fresh_id() -> (r: u128) {
    uuid::Uuid::new_v4().as_u128()
}

} // verus!
