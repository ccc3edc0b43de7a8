use vstd::prelude::*;

verus! {

/// Milliseconds in one UTC day.
pub const MILLIS_PER_DAY: i64 = 86400000;

/// The UTC day number (days since the epoch, rounded down) of a millisecond
/// timestamp.
pub open spec fn day_of(ms: int) -> int {
    ms / 86400000
}

/// The UTC calendar date, as `YYYYMMDD`, of a day number.
pub uninterp spec fn utc_day_stamp_of(day: int) -> Seq<char>;

/// The timestamps whose dates chrono represents for certain: about 253,000
/// years either side of the epoch, inside its range of years ±262,142.
pub open spec fn representable(ms: int) -> bool {
    -8_000_000_000_000_000 <= ms <= 8_000_000_000_000_000
}

/// Relies on chrono's `DateTime::from_timestamp_millis` and its
/// `format("%Y%m%d")`: the UTC calendar date of a millisecond timestamp,
/// which depends on its day number alone; `None` only where chrono cannot
/// represent the date, which is outside its range of years ±262,142.
#[verifier::external_body]
fn utc_date_stamp(ms: i64) -> (r: Option<String>)
    ensures
        r matches Some(s) ==> s@ == utc_day_stamp_of(day_of(ms as int)),
        representable(ms as int) ==> r is Some,
{
    match chrono::DateTime::from_timestamp_millis(ms) {
        Some(d) => Some(d.format("%Y%m%d").to_string()),
        None => None,
    }
}

/// The file `<dir>/<stamp>.jsonl`.
pub open spec fn file_path(dir: Seq<char>, stamp: Seq<char>) -> Seq<char> {
    dir + seq!['/'] + stamp + seq!['.', 'j', 's', 'o', 'n', 'l']
}

/// The file under `dir` that receives the records of timestamp `ms`.
pub open spec fn file_for(dir: Seq<char>, ms: int) -> Seq<char> {
    file_path(dir, utc_day_stamp_of(day_of(ms)))
}

/// Whether a rotator whose open file is of day `current` can take a record
/// of timestamp `ms` without opening another file.
pub open spec fn on_day(current: Option<i64>, ms: int) -> bool {
    current matches Some(d) && d as int == day_of(ms)
}

/// Which file a record goes to.
#[derive(Debug, PartialEq, Eq)]
pub enum FileTarget {
    /// The file that is open already.
    Current,
    /// The file at this path, opened in append mode (created if absent),
    /// which replaces the one that was open.
    Open(String),
}

/// The rotation state of one topic: the directory of its files and the UTC
/// day of the file that is open, if one is.
pub struct FileRotator {
    pub base_path: String,
    pub current_day: Option<i64>,
}

/// One step of the rotation state machine: from `old`, a record of timestamp
/// `ms` goes to `target`, and the state becomes `new`.
pub open spec fn rotated(old: FileRotator, new: FileRotator, ms: int, target: FileTarget) -> bool {
    &&& new.base_path@ == old.base_path@
    &&& if on_day(old.current_day, ms) {
        target is Current && new.current_day == old.current_day
    } else {
        &&& target matches FileTarget::Open(p) && p@ == file_for(old.base_path@, ms)
        &&& on_day(new.current_day, ms)
    }
}

/// `s` followed by `"/"` and `t`.
pub(crate) fn join_with_slash(s: String, t: &str) -> (r: String)
    ensures
        r@ == s@ + seq!['/'] + t@,
{
    proof {
        reveal_strlit("/");
    }
    let r = s.concat("/");
    r.concat(t)
}

/// The UTC day number of a millisecond timestamp.
pub fn day_number(ms: i64) -> (r: i64)
    ensures
        r as int == day_of(ms as int),
{
    assert(i64::MIN <= (ms as int) / 86400000 <= i64::MAX) by (nonlinear_arith);
    match ms.checked_div_euclid(MILLIS_PER_DAY) {
        Some(d) => d,
        None => 0,
    }
}

impl FileRotator {
    /// A rotator for the files under `base_path`, with no file open.
    pub fn new(base_path: String) -> (r: Self)
        ensures
            r.base_path == base_path,
            r.current_day is None,
    {
        FileRotator { base_path, current_day: None }
    }

    /// Makes the file of `day`, whose date is `stamp`, the open one.
    pub fn open_for_day(&mut self, day: i64, stamp: &str) -> (r: FileTarget)
        ensures
            final(self).base_path == old(self).base_path,
            final(self).current_day == Some(day),
            r matches FileTarget::Open(p) && p@ == file_path(old(self).base_path@, stamp@),
    {
        proof {
            reveal_strlit(".jsonl");
        }
        let path = join_with_slash(self.base_path.clone(), stamp).concat(".jsonl");
        self.current_day = Some(day);
        FileTarget::Open(path)
    }

    /// Goes back to the file of `previous_day` (or to no file), after the
    /// caller failed to open the file that the rotator moved to (or to create
    /// its directory): the file that was open stays the open one.
    pub fn open_failed(&mut self, previous_day: Option<i64>)
        ensures
            final(self).base_path == old(self).base_path,
            final(self).current_day == previous_day,
    {
        self.current_day = previous_day;
    }

    /// The file for a record of `timestamp`: the open one where it is of the
    /// same UTC day, else that day's file, which becomes the open one.
    /// Fails only where the date cannot be represented, and then changes
    /// nothing.
    pub fn get_current_file(&mut self, timestamp: i64) -> (r: Result<FileTarget, StorageError>)
        ensures
            on_day(old(self).current_day, timestamp as int) ==> r is Ok,
            representable(timestamp as int) ==> r is Ok,
            r matches Ok(t) ==> rotated(*old(self), *final(self), timestamp as int, t),
            r matches Err(e) ==> {
                &&& e == StorageError::InvalidTimestamp
                &&& *final(self) == *old(self)
            },
    {
        let day = day_number(timestamp);
        if self.current_day == Some(day) {
            return Ok(FileTarget::Current);
        }
        match utc_date_stamp(timestamp) {
            Some(stamp) => Ok(self.open_for_day(day, stamp.as_str())),
            None => Err(StorageError::InvalidTimestamp),
        }
    }
}

/// Why a record was not stored.
#[derive(Debug, Clone, Copy, PartialEq, Eq, Structural)]
pub enum StorageError {
    /// The record has no string `topic`.
    MissingTopic,
    /// The topic does not have exactly four `:`-separated segments.
    InvalidTopicFormat,
    /// The record has neither an integer `exchTimestamp` nor an integer
    /// `localTimestamp`.
    MissingTimestamp,
    /// The timestamp's calendar date cannot be represented.
    InvalidTimestamp,
}

/// Records of one topic whose timestamps fall on the same UTC day go to the
/// same file: once a record has gone to its day's file, a record of the same
/// day goes to the open file, and a record of another day (and only such a
/// record) opens that other day's file, under the same directory.
pub proof fn lemma_rotation_by_day(
    start: FileRotator,
    mid: FileRotator,
    end: FileRotator,
    first: int,
    second: int,
    first_target: FileTarget,
    second_target: FileTarget,
)
    requires
        rotated(start, mid, first, first_target),
        rotated(mid, end, second, second_target),
    ensures
        day_of(first) == day_of(second) ==> second_target is Current,
        day_of(first) != day_of(second) ==> (second_target matches FileTarget::Open(p) && p@
            == file_for(start.base_path@, second)),
        day_of(first) == day_of(second) ==> file_for(start.base_path@, first) == file_for(
            start.base_path@,
            second,
        ),
{
}

} // verus!
