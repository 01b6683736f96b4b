//! Content type resolution: a fixed, total table from path suffixes to MIME
//! types. Suffixes match literally, so upper-case variants fall through to the
//! generic binary type.
use vstd::prelude::*;
use crate::text::{ends_with, has_suffix};

verus! {

/// The MIME type that a request path is served with.
pub open spec fn mime_type_of(path: Seq<char>) -> Seq<char> {
    if has_suffix(path, ".html"@) {
        "text/html; charset=utf-8"@
    } else if has_suffix(path, ".js"@) {
        "application/javascript; charset=utf-8"@
    } else if has_suffix(path, ".css"@) {
        "text/css; charset=utf-8"@
    } else if has_suffix(path, ".json"@) {
        "application/json; charset=utf-8"@
    } else if has_suffix(path, ".png"@) {
        "image/png"@
    } else if has_suffix(path, ".jpg"@) || has_suffix(path, ".jpeg"@) {
        "image/jpeg"@
    } else if has_suffix(path, ".gif"@) {
        "image/gif"@
    } else if has_suffix(path, ".svg"@) {
        "image/svg+xml"@
    } else if has_suffix(path, ".ogg"@) {
        "audio/ogg"@
    } else if has_suffix(path, ".m4a"@) {
        "audio/mp4"@
    } else if has_suffix(path, ".mp3"@) {
        "audio/mpeg"@
    } else if has_suffix(path, ".wav"@) {
        "audio/wav"@
    } else if has_suffix(path, ".webm"@) {
        "video/webm"@
    } else if has_suffix(path, ".mp4"@) {
        "video/mp4"@
    } else {
        "application/octet-stream"@
    }
}

/// The MIME type for `path`, chosen by its suffix.
pub fn get_mime_type(path: &str) -> (r: &'static str)
    ensures
        r@ == mime_type_of(path@),
{
    if ends_with(path, ".html") {
        "text/html; charset=utf-8"
    } else if ends_with(path, ".js") {
        "application/javascript; charset=utf-8"
    } else if ends_with(path, ".css") {
        "text/css; charset=utf-8"
    } else if ends_with(path, ".json") {
        "application/json; charset=utf-8"
    } else if ends_with(path, ".png") {
        "image/png"
    } else if ends_with(path, ".jpg") || ends_with(path, ".jpeg") {
        "image/jpeg"
    } else if ends_with(path, ".gif") {
        "image/gif"
    } else if ends_with(path, ".svg") {
        "image/svg+xml"
    } else if ends_with(path, ".ogg") {
        "audio/ogg"
    } else if ends_with(path, ".m4a") {
        "audio/mp4"
    } else if ends_with(path, ".mp3") {
        "audio/mpeg"
    } else if ends_with(path, ".wav") {
        "audio/wav"
    } else if ends_with(path, ".webm") {
        "video/webm"
    } else if ends_with(path, ".mp4") {
        "video/mp4"
    } else {
        "application/octet-stream"
    }
}

/// Resolution depends on the path alone: two paths with the same characters
/// get the same MIME type, so resolving one path twice gives one answer.
pub proof fn content_type_is_deterministic(p: Seq<char>, q: Seq<char>)
    requires
        p == q,
    ensures
        mime_type_of(p) == mime_type_of(q),
{
}

} // verus!
