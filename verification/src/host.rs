//! The boundary to outside collaborators: identifier generation, randomness,
//! clocks, paths, decoded images and structured parameter values.
//!
//! Everything here is a declaration or a thin wrapper whose contract states
//! only what the outside library documents; the engine's own logic takes the
//! returned plain values and is verified against these contracts.

use vstd::prelude::*;

verus! {

/// A filesystem path, carried opaquely for the export and project layers.
#[verifier::external_type_specification]
#[verifier::external_body]
pub struct ExPathBuf(std::path::PathBuf);

/// A monotonic clock reading.
#[verifier::external_type_specification]
#[verifier::external_body]
pub struct ExInstant(std::time::Instant);

/// A decoded raster image, opaque to the engine.
#[verifier::external_type_specification]
#[verifier::external_body]
pub struct ExDynamicImage(image::DynamicImage);

/// A structured parameter value, carried opaquely through effect and layer
/// definitions.
#[verifier::external_type_specification]
#[verifier::external_body]
#[allow(dead_code)]
pub struct ExJsonValue(serde_json::Value);

/// Relies on uuid::Uuid::new_v4 and its hyphenated rendering: a fresh random
/// identifier, always 36 characters (8-4-4-4-12 hexadecimal digits). The
/// value is random, so nothing more is promised.
#[verifier::external_body]
pub(crate) fn new_id() -> (r: String)
    ensures
        r@.len() == 36,
{
    uuid::Uuid::new_v4().to_string()
}

/// Relies on chrono::Utc::now: the current wall-clock time as a Unix
/// timestamp in seconds. The value depends on the clock, so nothing is
/// promised of it. The underlying call itself panics on a host whose clock
/// reads before 1970; no input of this wrapper can cause that.
#[verifier::external_body]
pub(crate) fn now_ts() -> (r: i64)
{
    chrono::Utc::now().timestamp()
}

/// Relies on std::time::Instant::now: a reading of the monotonic clock.
#[verifier::external_body]
pub(crate) fn now_instant() -> (r: std::time::Instant)
{
    std::time::Instant::now()
}

/// Relies on std::time::Instant::elapsed: the time since the reading was
/// taken, converted to nanoseconds. The value depends on the clock, so
/// nothing is promised of it.
#[verifier::external_body]
pub(crate) fn elapsed_nanos(start: &std::time::Instant) -> (r: u128)
{
    start.elapsed().as_nanos()
}

/// Relies on rand::random_range over `lo..hi`, which draws from the
/// thread-local generator: a value uniformly drawn from the half-open range.
/// The call panics on an empty range, so the range is required nonempty;
/// which value comes back is chance, so only the range bound is promised.
#[verifier::external_body]
pub(crate) fn random_range_fx(lo: i64, hi: i64) -> (r: i64)
    requires
        lo < hi,
    ensures
        lo <= r < hi,
{
    rand::random_range(lo..hi)
}

/// Relies on num_cpus::get: the number of logical processors, documented to
/// always be at least one.
pub assume_specification[ num_cpus::get ]() -> (r: usize)
    ensures
        r >= 1,
;

/// The Unicode lowercase folding of a string. What it is character by
/// character takes pages to state, so it is left a named function of the
/// input alone.
pub uninterp spec fn lower_of(s: Seq<char>) -> Seq<char>;

/// Relies on str::to_lowercase: the folding depends on the characters alone,
/// and an empty string stays empty.
#[verifier::external_body]
pub(crate) fn lowercase(s: &str) -> (r: String)
    ensures
        r@ == lower_of(s@),
        s@.len() == 0 ==> r@.len() == 0,
{
    s.to_lowercase()
}

/// Relies on std::path::PathBuf::from on a string slice: the path holding
/// that text, carried opaquely.
#[verifier::external_body]
pub fn path_from(s: &str) -> (r: std::path::PathBuf)
{
    std::path::PathBuf::from(s)
}

/// Relies on std::path::PathBuf::new: the empty path.
#[verifier::external_body]
pub(crate) fn path_new() -> (r: std::path::PathBuf)
{
    std::path::PathBuf::new()
}

/// Relies on serde_json::Map::new and serde_json::Value::Object: the empty
/// JSON object, carried opaquely.
#[verifier::external_body]
pub(crate) fn json_empty_object() -> (r: serde_json::Value)
{
    serde_json::Value::Object(serde_json::Map::new())
}

/// Relies on image::GenericImageView::dimensions for DynamicImage: the
/// image's width and height in pixels.
#[verifier::external_body]
pub(crate) fn image_dimensions(img: &image::DynamicImage) -> (r: (u32, u32))
{
    image::GenericImageView::dimensions(img)
}

} // verus!
