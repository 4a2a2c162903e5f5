use vstd::prelude::*;

verus! {

/// A time as `Display` writes a `chrono::DateTime<Utc>`: it ends in ` UTC`.
pub open spec fn utc_text(s: Seq<char>) -> bool {
    s.len() >= 4 && s.subrange(s.len() - 4, s.len() as int) == " UTC"@
}

/// The current UTC time as text: calls `chrono::Utc::now` and formats the result with
/// its `Display` implementation, which writes the date and time, a space and `UTC`.
/// Which time it is depends on the clock and is not stated.
#[verifier::external_body]
pub(crate) fn current_time() -> (now: String)
    ensures
        utc_text(now@),
{
    chrono::Utc::now().to_string()
}

} // verus!
