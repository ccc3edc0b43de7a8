use vstd::prelude::*;
use crate::record::{opt_view, MarketData};
use crate::request::Settings;
use crate::rotation::{
    day_of, file_for, join_with_slash, on_day, representable, rotated, FileRotator, FileTarget, StorageError,
};
use crate::topic::{channel_name, lemma_channel_topic_inverse, no_colon, split_colon, split_topic};

verus! {

/// The directory `<base>/<exchange>/<marketType>/<symbol>/<streamType>` of a
/// four-segment topic.
pub open spec fn topic_dir(base: Seq<char>, topic: Seq<char>) -> Seq<char> {
    let p = split_colon(topic);
    base + seq!['/'] + p[0] + seq!['/'] + p[1] + seq!['/'] + p[2] + seq!['/'] + p[3]
}

/// The timestamp that decides a record's file: `exchTimestamp` where the
/// record has it, else `localTimestamp`.
pub open spec fn timestamp_of(exch: Option<i64>, local: Option<i64>) -> Option<i64> {
    match exch {
        Some(t) => Some(t),
        None => local,
    }
}

/// The error, if any, with which a record of this topic and timestamp is
/// refused before any rotator is looked at.
pub open spec fn store_error(topic: Option<Seq<char>>, ts: Option<i64>) -> Option<StorageError> {
    match topic {
        None => Some(StorageError::MissingTopic),
        Some(t) => if split_colon(t).len() != 4 {
            Some(StorageError::InvalidTopicFormat)
        } else if ts is None {
            Some(StorageError::MissingTimestamp)
        } else {
            None
        },
    }
}

/// What the caller does to store one record.
#[derive(Debug)]
pub struct StoreAction {
    /// The topic directory to create (with its parents) before the file is
    /// opened: set whenever a file is to be opened.
    pub create_dir: Option<String>,
    /// The index of the topic's rotator, which owns the open file.
    pub rotator: usize,
    /// The day of the file that was open before this record (`None` where
    /// none was): where opening the new file fails, the rotator goes back
    /// to it.
    pub previous_day: Option<i64>,
    /// The file of the topic that takes the line.
    pub target: FileTarget,
    /// The line to append (a newline follows it) and flush.
    pub line: String,
}

/// Routes records to one rotator per topic, created on first sight of the
/// topic and kept for the service's lifetime.
pub struct StorageService {
    pub base_path: String,
    pub topics: Vec<String>,
    pub file_rotators: Vec<FileRotator>,
}

impl StorageService {
    /// Topics and rotators pair up, each topic has one rotator, and a
    /// rotator's directory is its topic's.
    pub open spec fn wf(&self) -> bool {
        &&& self.topics@.len() == self.file_rotators@.len()
        &&& forall|i: int, j: int|
            0 <= i < j < self.topics@.len() ==> #[trigger] self.topics@[i]@ != #[trigger] self.topics@[j]@
        &&& forall|i: int|
            0 <= i < self.topics@.len() ==> split_colon(#[trigger] self.topics@[i]@).len() == 4
                && self.file_rotators@[i].base_path@ == topic_dir(self.base_path@, self.topics@[i]@)
    }

    /// Whether the service has a rotator for `topic`.
    pub open spec fn has_topic(&self, topic: Seq<char>) -> bool {
        exists|i: int| 0 <= i < self.topics@.len() && #[trigger] self.topics@[i]@ == topic
    }

    /// A service writing under the configured log directory, with no topic
    /// seen yet.
    pub fn new(settings: Settings) -> (r: Self)
        ensures
            r.wf(),
            r.base_path@ == settings.log_directory@,
            r.topics@.len() == 0,
    {
        StorageService {
            base_path: settings.log_directory,
            topics: Vec::new(),
            file_rotators: Vec::new(),
        }
    }

    /// The index of the rotator of `topic`, if there is one.
    fn find_rotator(&self, topic: &String) -> (r: Option<usize>)
        requires
            self.wf(),
        ensures
            match r {
                Some(i) => i < self.topics@.len() && self.topics@[i as int]@ == topic@,
                None => !self.has_topic(topic@),
            },
    {
        let mut i: usize = 0;
        while i < self.topics.len()
            invariant
                self.wf(),
                i <= self.topics@.len(),
                forall|j: int| 0 <= j < i ==> #[trigger] self.topics@[j]@ != topic@,
            decreases self.topics@.len() - i,
        {
            if self.topics[i] == *topic {
                return Some(i);
            }
            i = i + 1;
        }
        None
    }

    /// The directory of a four-segment topic under the base path.
    fn topic_directory(&self, topic: &String) -> (r: String)
        requires
            split_colon(topic@).len() == 4,
        ensures
            r@ == topic_dir(self.base_path@, topic@),
    {
        let parts = split_topic(topic.as_str());
        let d = join_with_slash(self.base_path.clone(), parts[0].as_str());
        let d = join_with_slash(d, parts[1].as_str());
        let d = join_with_slash(d, parts[2].as_str());
        join_with_slash(d, parts[3].as_str())
    }

    /// What storing a record with these `topic`, `exchTimestamp`,
    /// `localTimestamp` and JSON line does, from `old` to `new` with result
    /// `r`.
    ///
    /// A record without a topic, with a topic of other than four segments,
    /// or without a timestamp is refused, in that order, and changes
    /// nothing. Otherwise the topic's rotator (created for a new topic)
    /// picks the file of the record's UTC day; whenever that is a file to
    /// open, its directory is to be created first. Only a timestamp whose
    /// date cannot be represented fails then, and it changes nothing.
    pub open spec fn store_outcome(
        old: StorageService,
        new: StorageService,
        topic: Option<Seq<char>>,
        exch_timestamp: Option<i64>,
        local_timestamp: Option<i64>,
        line: Seq<char>,
        r: Result<StoreAction, StorageError>,
    ) -> bool {
        &&& new.wf()
        &&& new.base_path == old.base_path
        &&& match store_error(topic, timestamp_of(exch_timestamp, local_timestamp)) {
            Some(e) => r == Err::<StoreAction, StorageError>(e) && new == old,
            None => {
                let t = topic->Some_0;
                let ts = timestamp_of(exch_timestamp, local_timestamp)->Some_0 as int;
                &&& representable(ts) ==> r is Ok
                &&& (exists|i: int|
                    0 <= i < old.topics@.len() && old.topics@[i]@ == t && on_day(
                        #[trigger] old.file_rotators@[i].current_day,
                        ts,
                    )) ==> r is Ok
                &&& match r {
                    Ok(a) => {
                        &&& a.line@ == line
                        &&& a.rotator < new.topics@.len()
                        &&& new.topics@[a.rotator as int]@ == t
                        &&& (a.create_dir is Some <==> a.target is Open)
                        &&& a.create_dir matches Some(d) ==> d@ == topic_dir(old.base_path@, t)
                        &&& if old.has_topic(t) {
                            &&& a.previous_day == old.file_rotators@[a.rotator as int].current_day
                            &&& new.topics == old.topics
                            &&& new.file_rotators@.len() == old.file_rotators@.len()
                            &&& forall|i: int|
                                0 <= i < old.topics@.len() ==> if old.topics@[i]@ == t {
                                    rotated(
                                        old.file_rotators@[i],
                                        new.file_rotators@[i],
                                        ts,
                                        a.target,
                                    )
                                } else {
                                    new.file_rotators@[i] == old.file_rotators@[i]
                                }
                        } else {
                            &&& a.previous_day is None
                            &&& a.target matches FileTarget::Open(p) && p@ == file_for(
                                topic_dir(old.base_path@, t),
                                ts,
                            )
                            &&& new.topics@.drop_last() == old.topics@
                            &&& new.topics@.len() == old.topics@.len() + 1
                            &&& new.file_rotators@.drop_last() == old.file_rotators@
                            &&& new.file_rotators@.last().base_path@ == topic_dir(old.base_path@, t)
                            &&& on_day(new.file_rotators@.last().current_day, ts)
                        }
                    },
                    Err(e) => {
                        &&& e == StorageError::InvalidTimestamp
                        &&& new == old
                        &&& !representable(ts)
                    },
                }
            },
        }
    }

    /// Routes a record, given its `topic`, its `exchTimestamp` and
    /// `localTimestamp` members, and its JSON line, as `store_outcome` says.
    pub fn store_fields(
        &mut self,
        topic: Option<String>,
        exch_timestamp: Option<i64>,
        local_timestamp: Option<i64>,
        line: String,
    ) -> (r: Result<StoreAction, StorageError>)
        requires
            old(self).wf(),
        ensures
            Self::store_outcome(
                *old(self),
                *final(self),
                opt_view(topic),
                exch_timestamp,
                local_timestamp,
                line@,
                r,
            ),
    {
        let topic = match topic {
            Some(t) => t,
            None => return Err(StorageError::MissingTopic),
        };
        let parts = split_topic(topic.as_str());
        if parts.len() != 4 {
            return Err(StorageError::InvalidTopicFormat);
        }
        let timestamp = match exch_timestamp {
            Some(t) => t,
            None => match local_timestamp {
                Some(t) => t,
                None => return Err(StorageError::MissingTimestamp),
            },
        };
        let dir = self.topic_directory(&topic);
        match self.find_rotator(&topic) {
            Some(i) => {
                let previous_day = self.file_rotators[i].current_day;
                let mut rotator = FileRotator {
                    base_path: self.file_rotators[i].base_path.clone(),
                    current_day: previous_day,
                };
                let target = match rotator.get_current_file(timestamp) {
                    Ok(t) => t,
                    Err(e) => return Err(e),
                };
                self.file_rotators.set(i, rotator);
                let create_dir = match target {
                    FileTarget::Open(_) => Some(dir),
                    FileTarget::Current => None,
                };
                Ok(StoreAction { create_dir, rotator: i, previous_day, target, line })
            },
            None => {
                let mut rotator = FileRotator::new(dir.clone());
                let target = match rotator.get_current_file(timestamp) {
                    Ok(t) => t,
                    Err(e) => return Err(e),
                };
                let index = self.topics.len();
                let ghost old_topics = self.topics@;
                let ghost old_rotators = self.file_rotators@;
                self.topics.push(topic);
                self.file_rotators.push(rotator);
                assert(self.topics@.drop_last() =~= old_topics);
                assert(self.file_rotators@.drop_last() =~= old_rotators);
                Ok(StoreAction { create_dir: Some(dir), rotator: index, previous_day: None, target, line })
            },
        }
    }

    /// Routes a record by its `topic`, `exchTimestamp` and `localTimestamp`,
    /// with its JSON line, as `store_outcome` says.
    pub fn store(&mut self, data: &MarketData) -> (r: Result<StoreAction, StorageError>)
        requires
            old(self).wf(),
        ensures
            Self::store_outcome(
                *old(self),
                *final(self),
                opt_view(data.topic),
                data.exch_timestamp,
                data.local_timestamp,
                data.line@,
                r,
            ),
    {
        let topic = match &data.topic {
            Some(t) => Some(t.clone()),
            None => None,
        };
        self.store_fields(topic, data.exch_timestamp, data.local_timestamp, data.line.clone())
    }

    /// The service after `open_failed(action)` on `old`.
    pub open spec fn reverted(old: StorageService, new: StorageService, action: StoreAction) -> bool {
        &&& new.wf()
        &&& new.base_path == old.base_path
        &&& new.topics == old.topics
        &&& new.file_rotators@.len() == old.file_rotators@.len()
        &&& forall|i: int|
            0 <= i < old.file_rotators@.len() ==> if i == action.rotator {
                &&& (#[trigger] new.file_rotators@[i]).base_path == old.file_rotators@[i].base_path
                &&& new.file_rotators@[i].current_day == action.previous_day
            } else {
                new.file_rotators@[i] == old.file_rotators@[i]
            }
    }

    /// Records that the caller could not create the directory of, or open,
    /// the file that `action` asked for: the action's rotator goes back to
    /// the file that was open before, so the next record of that day opens
    /// its file again (and asks for the directory again). Nothing else
    /// changes.
    pub fn open_failed(&mut self, action: &StoreAction)
        requires
            old(self).wf(),
        ensures
            Self::reverted(*old(self), *final(self), *action),
    {
        let rotator = action.rotator;
        if rotator < self.file_rotators.len() {
            let mut r = FileRotator {
                base_path: self.file_rotators[rotator].base_path.clone(),
                current_day: self.file_rotators[rotator].current_day,
            };
            r.open_failed(action.previous_day);
            self.file_rotators.set(rotator, r);
        }
    }
}

/// A store whose file could not be opened, once reported, leaves every
/// rotator with the directory and the open day it had before the store: a
/// known topic keeps its previous file, and a new topic has none open.
pub proof fn lemma_failed_open_restores(
    start: StorageService,
    mid: StorageService,
    end: StorageService,
    topic: Option<Seq<char>>,
    exch_timestamp: Option<i64>,
    local_timestamp: Option<i64>,
    line: Seq<char>,
    action: StoreAction,
)
    requires
        start.wf(),
        StorageService::store_outcome(
            start,
            mid,
            topic,
            exch_timestamp,
            local_timestamp,
            line,
            Ok(action),
        ),
        StorageService::reverted(mid, end, action),
    ensures
        end.base_path == start.base_path,
        forall|i: int|
            0 <= i < start.file_rotators@.len() ==> {
                &&& (#[trigger] end.file_rotators@[i]).base_path@ == start.file_rotators@[i].base_path@
                &&& end.file_rotators@[i].current_day == start.file_rotators@[i].current_day
            },
        end.topics@.len() > start.topics@.len() ==> end.file_rotators@.last().current_day is None,
{
    let t = topic->Some_0;
    if start.has_topic(t) {
        assert forall|i: int| 0 <= i < start.file_rotators@.len() implies {
            &&& (#[trigger] end.file_rotators@[i]).base_path@ == start.file_rotators@[i].base_path@
            &&& end.file_rotators@[i].current_day == start.file_rotators@[i].current_day
        } by {
            if i == action.rotator {
                assert(start.topics@[i]@ == t);
            } else if start.topics@[i]@ == t {
                assert(start.topics@[action.rotator as int]@ == t);
            }
        }
    } else {
        if (action.rotator as int) < start.topics@.len() {
            assert(mid.topics@.drop_last()[action.rotator as int] == mid.topics@[action.rotator as int]);
            assert(start.has_topic(t));
        }
        assert(action.rotator as int == start.topics@.len());
        assert(mid.file_rotators@.len() == start.file_rotators@.len() + 1);
        assert forall|i: int| 0 <= i < start.file_rotators@.len() implies {
            &&& (#[trigger] end.file_rotators@[i]).base_path@ == start.file_rotators@[i].base_path@
            &&& end.file_rotators@[i].current_day == start.file_rotators@[i].current_day
        } by {
            assert(mid.file_rotators@.drop_last()[i] == mid.file_rotators@[i]);
        }
    }
}

/// Records of one topic go to one rotator, under the topic's directory: once
/// a record has been stored, a later record of the same topic and UTC day
/// goes to the file that is open, and one of another (representable) day
/// opens that day's file under the same directory.
pub proof fn lemma_same_topic_rotation(
    s0: StorageService,
    s1: StorageService,
    s2: StorageService,
    topic: Seq<char>,
    exch1: Option<i64>,
    local1: Option<i64>,
    line1: Seq<char>,
    a1: StoreAction,
    exch2: Option<i64>,
    local2: Option<i64>,
    line2: Seq<char>,
    r2: Result<StoreAction, StorageError>,
)
    requires
        s0.wf(),
        StorageService::store_outcome(s0, s1, Some(topic), exch1, local1, line1, Ok(a1)),
        StorageService::store_outcome(s1, s2, Some(topic), exch2, local2, line2, r2),
        timestamp_of(exch2, local2) is Some,
    ensures
        ({
            let t1 = timestamp_of(exch1, local1)->Some_0 as int;
            let t2 = timestamp_of(exch2, local2)->Some_0 as int;
            &&& day_of(t1) == day_of(t2) ==> (r2 matches Ok(a2) && a2.rotator == a1.rotator
                && a2.target is Current && a2.line@ == line2)
            &&& day_of(t1) != day_of(t2) && representable(t2) ==> (r2 matches Ok(a2) && a2.rotator
                == a1.rotator && a2.line@ == line2 && (a2.target matches FileTarget::Open(p) && p@
                == file_for(topic_dir(s0.base_path@, topic), t2)))
        }),
{
    let t1 = timestamp_of(exch1, local1)->Some_0 as int;
    let t2 = timestamp_of(exch2, local2)->Some_0 as int;
    let k = a1.rotator as int;
    assert(s1.topics@[k]@ == topic);
    assert(s1.has_topic(topic));
    assert(s1.file_rotators@[k].base_path@ == topic_dir(s1.base_path@, topic));
    if s0.has_topic(topic) {
        let w = choose|i: int| 0 <= i < s0.topics@.len() && #[trigger] s0.topics@[i]@ == topic;
        assert(rotated(s0.file_rotators@[w], s1.file_rotators@[w], t1, a1.target));
        assert(s1.topics@[w]@ == topic);
        assert(w == k);
    } else {
        if k < s0.topics@.len() {
            assert(s1.topics@.drop_last()[k] == s1.topics@[k]);
            assert(s0.has_topic(topic));
        }
        assert(k == s1.file_rotators@.len() - 1);
    }
    assert(on_day(s1.file_rotators@[k].current_day, t1));
    if day_of(t1) == day_of(t2) {
        assert(on_day(s1.file_rotators@[k].current_day, t2));
    }
    if r2 is Ok {
        let a2 = r2->Ok_0;
        assert(s2.topics@[a2.rotator as int]@ == topic);
        assert(s2.topics == s1.topics);
        assert(a2.rotator as int == k);
        assert(rotated(s1.file_rotators@[k], s2.file_rotators@[k], t2, a2.target));
    }
}

/// The channel of four separator-free parts is a valid topic, and its
/// directory is made of exactly those parts, in order, under the base path.
pub proof fn lemma_channel_topic_dir(
    base: Seq<char>,
    exchange: Seq<char>,
    market_type: Seq<char>,
    symbol: Seq<char>,
    stream_type: Seq<char>,
)
    requires
        no_colon(exchange),
        no_colon(market_type),
        no_colon(symbol),
        no_colon(stream_type),
    ensures
        split_colon(channel_name(exchange, market_type, symbol, stream_type)).len() == 4,
        topic_dir(base, channel_name(exchange, market_type, symbol, stream_type)) == base
            + seq!['/'] + exchange + seq!['/'] + market_type + seq!['/'] + symbol + seq!['/']
            + stream_type,
{
    lemma_channel_topic_inverse(exchange, market_type, symbol, stream_type, Seq::<char>::empty());
}

} // verus!
