use vstd::prelude::*;

verus! {

/// A lowercase hexadecimal digit.
pub open spec fn is_lower_hex(c: char) -> bool {
    ('0' <= c && c <= '9') || ('a' <= c && c <= 'f')
}

/// The hyphenated lowercase text of a version-4 UUID, as
/// "67e55044-10b1-426f-9247-bb680e5fe0c8" (version digit at position 14).
pub open spec fn is_uuid_v4_text(s: Seq<char>) -> bool {
    &&& s.len() == 36
    &&& forall|i: int| 0 <= i < 36 ==> (#[trigger] s[i] == '-' <==> (i == 8 || i == 13 || i == 18 || i == 23))
    &&& forall|i: int| 0 <= i < 36 && i != 8 && i != 13 && i != 18 && i != 23 ==> is_lower_hex(#[trigger] s[i])
    &&& s[14] == '4'
}

/// `uuid::Uuid::new_v4().to_string()`: a fresh random id. Its text is the hyphenated
/// lowercase form that `Display` writes, with the version digit 4.
#[verifier::external_body]
pub(crate) fn new_id() -> (r: String)
    ensures
        is_uuid_v4_text(r@),
{
    uuid::Uuid::new_v4().to_string()
}

/// A time stamp as the time crate writes a UTC date and time: the date and time, then a
/// space and the zero offset `+00:00:00`.
pub open spec fn is_utc_stamp(s: Seq<char>) -> bool {
    s.len() > 10 && s.subrange(s.len() - 10, s.len() as int) == " +00:00:00"@
}

/// `time::OffsetDateTime::now_utc().to_string()`: the current UTC time as text. Which time it
/// is depends on the clock; its form is the date and time followed by the offset, which for
/// UTC is written `+00:00:00` (sign, then hours, minutes and seconds, two digits each).
#[verifier::external_body]
pub(crate) fn now_text() -> (r: String)
    ensures
        is_utc_stamp(r@),
{
    time::OffsetDateTime::now_utc().to_string()
}

} // verus!
