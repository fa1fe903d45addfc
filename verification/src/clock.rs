use vstd::prelude::*;

use crate::timestamp::{parts_in_range, timestamp_text, DateTimeParts};

verus! {

/// A lowercase hexadecimal digit.
pub open spec fn is_lower_hex(c: char) -> bool {
    ('0' <= c && c <= '9') || ('a' <= c && c <= 'f')
}

/// The hyphenated lowercase text of a version-4 UUID: 8-4-4-4-12 hex digits, the version
/// digit `4`, and the variant digit one of `8`, `9`, `a`, `b`.
pub open spec fn is_uuid_v4_text(s: Seq<char>) -> bool {
    &&& s.len() == 36
    &&& forall|i: int|
        0 <= i < 36 ==> if i == 8 || i == 13 || i == 18 || i == 23 {
            #[trigger] s[i] == '-'
        } else {
            is_lower_hex(s[i])
        }
    &&& s[14] == '4'
    &&& (s[19] == '8' || s[19] == '9' || s[19] == 'a' || s[19] == 'b')
}

/// A fresh random identifier: the text of `uuid::Uuid::new_v4()` (`to_string` writes it
/// hyphenated in lowercase). Random, so only its shape is promised.
#[verifier::external_body]
pub(crate) fn new_id() -> (id: String)
    ensures
        is_uuid_v4_text(id@),
{
    uuid::Uuid::new_v4().to_string()
}

/// `s` is the `YYYY-MM-DD HH:MM:SS` text of some date and time chrono can hold.
pub open spec fn is_timestamp_text(s: Seq<char>) -> bool {
    exists|t: DateTimeParts| parts_in_range(t) && s == #[trigger] timestamp_text(t)
}

/// The current UTC time as `YYYY-MM-DD HH:MM:SS` (`chrono::Utc::now()` formatted with that
/// pattern). It depends on the clock: all that is promised is that it is the text of some
/// date and time chrono can hold.
#[verifier::external_body]
pub(crate) fn timestamp_now() -> (now: String)
    ensures
        is_timestamp_text(now@),
{
    chrono::Utc::now().format("%Y-%m-%d %H:%M:%S").to_string()
}

} // verus!
