use vstd::prelude::*;

verus! {

/// A character of the hyphenated lowercase form of a UUID.
pub open spec fn is_uuid_char(c: char) -> bool {
    ('0' <= c <= '9') || ('a' <= c <= 'f') || c == '-'
}

/// The hyphenated lowercase form of a UUID: 36 characters, hex digits with
/// '-' at offsets 8, 13, 18 and 23.
pub open spec fn is_uuid_text(s: Seq<char>) -> bool {
    &&& s.len() == 36
    &&& forall|i: int| 0 <= i < 36 ==> is_uuid_char(#[trigger] s[i])
    &&& forall|i: int| 0 <= i < 36 ==> (#[trigger] s[i] == '-' <==> (i == 8 || i == 13 || i == 18 || i == 23))
}

/// Relies on `uuid::Uuid::new_v4` and the UUID's `Display`, which writes the
/// hyphenated lowercase form. The value is random.
#[verifier::external_body]
pub(crate) fn fresh_uuid() -> (r: String)
    ensures
        is_uuid_text(r@),
{
    uuid::Uuid::new_v4().to_string()
}

/// Relies on `chrono::Utc::now` and `DateTime::timestamp`: seconds since the
/// Unix epoch at the time of the call. Nothing is promised of the value.
#[verifier::external_body]
pub(crate) fn unix_now() -> i64 {
    chrono::Utc::now().timestamp()
}

/// Relies on `std::path::Path::is_dir`: whether `path` names a directory at
/// the time of the call. Nothing is promised of the answer.
#[verifier::external_body]
pub(crate) fn is_directory(path: &str) -> bool {
    std::path::Path::new(path).is_dir()
}

} // verus!
