use vstd::prelude::*;

verus! {

/// One commit of the recent history, ready for display.
#[derive(Debug)]
pub struct GitLogEntry {
    pub hash: String,
    pub message: String,
    pub author: String,
    pub date: String,
}

/// The layout of commit dates: year, month, day, hours, minutes, seconds.
pub const LOG_DATE_PATTERN: &'static str = "%Y-%m-%d %H:%M:%S";

/// The text chrono renders for the instant `seconds` after the Unix epoch
/// (the epoch itself when `seconds` is out of chrono's range), seen at UTC
/// offset `offset` seconds, laid out by `pattern`.
pub uninterp spec fn calendar_text(seconds: int, offset: int, pattern: Seq<char>) -> Seq<char>;

/// Relies on chrono's `DateTime::from_timestamp`, `with_timezone` with a
/// `FixedOffset` and `format`: the rendered text depends on the instant, the
/// offset and the pattern alone. `FixedOffset::east_opt` accepts exactly the
/// offsets strictly within a day, and the one pattern passed renders without
/// error.
#[verifier::external_body]
fn render_date(seconds: i64, offset: i32, pattern: &str) -> (r: String)
    requires
        -86_400 < offset < 86_400,
        pattern@ == LOG_DATE_PATTERN@,
    ensures
        r@ == calendar_text(seconds as int, offset as int, pattern@),
{
    let zone = chrono::FixedOffset::east_opt(offset).unwrap();
    let instant = chrono::DateTime::from_timestamp(seconds, 0).unwrap_or(chrono::DateTime::UNIX_EPOCH);
    instant.with_timezone(&zone).format(pattern).to_string()
}

/// Relies on chrono's `Local` time zone: the machine's UTC offset at the
/// instant `seconds` after the epoch. It depends on the machine; chrono keeps
/// every `FixedOffset` strictly within a day.
#[verifier::external_body]
fn local_offset(seconds: i64) -> (r: i32)
    ensures
        -86_400 < r < 86_400,
{
    let instant = chrono::DateTime::from_timestamp(seconds, 0).unwrap_or(chrono::DateTime::UNIX_EPOCH);
    instant.with_timezone(&chrono::Local).offset().local_minus_utc()
}

/// A log entry for a commit made `seconds` after the epoch: its date is
/// rendered in the machine's time zone at that instant.
pub fn log_entry(hash: String, message: String, author: String, seconds: i64) -> (r: GitLogEntry)
    ensures
        r.hash == hash,
        r.message == message,
        r.author == author,
        exists|offset: int|
            -86_400 < offset < 86_400 && r.date@ == calendar_text(
                seconds as int,
                offset,
                LOG_DATE_PATTERN@,
            ),
{
    let offset = local_offset(seconds);
    let date = render_date(seconds, offset, LOG_DATE_PATTERN);
    GitLogEntry { hash, message, author, date }
}

/// Whether a commit counts as the last change of a path it holds: the root
/// commit always does; any other commit when the path differs from its
/// first parent.
pub fn changes_path(has_parent: bool, differs_from_parent: bool) -> (r: bool)
    ensures
        r == (!has_parent || differs_from_parent),
{
    !has_parent || differs_from_parent
}

/// A commit time in milliseconds, when it fits.
pub fn commit_millis(seconds: i64) -> (r: Option<i64>)
    ensures
        i64::MIN <= seconds * 1000 <= i64::MAX ==> r == Some((seconds * 1000) as i64),
        !(i64::MIN <= seconds * 1000 <= i64::MAX) ==> r is None,
{
    seconds.checked_mul(1000)
}

} // verus!
