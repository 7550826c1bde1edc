//! The canonical queue record that both server families are normalized into.

use vstd::prelude::*;
use vstd::string::*;

use crate::decimal::{int_text, push_int};
use crate::json::{radarr, sonarr};

verus! {

/// The status value that marks a failed download or import.
pub const BAD_STATUS: &'static str = "warning";

/// A queue entry, whichever server family it came from.
pub struct Record {
    id: i64,
    media_id: i64,
    title: String,
    tracked_status: String,
    status: String,
}

/// The value of a [`Record`].
pub struct RecordView {
    pub id: i64,
    pub media_id: i64,
    pub title: Seq<char>,
    pub tracked_status: Seq<char>,
    pub status: Seq<char>,
}

impl View for Record {
    type V = RecordView;

    closed spec fn view(&self) -> RecordView {
        RecordView {
            id: self.id,
            media_id: self.media_id,
            title: self.title@,
            tracked_status: self.tracked_status@,
            status: self.status@,
        }
    }
}

/// A record has failed when its coarse status or its tracked download status
/// is "warning".
pub open spec fn is_failed(r: RecordView) -> bool {
    r.status == BAD_STATUS@ || r.tracked_status == BAD_STATUS@
}

/// The values of a sequence of records.
pub open spec fn views(records: Seq<Record>) -> Seq<RecordView> {
    records.map_values(|r: Record| r@)
}

/// The canonical record of a Sonarr-like queue entry.
pub open spec fn normalized_sonarr(r: &sonarr::Record) -> RecordView {
    RecordView {
        id: r.id,
        media_id: r.episode_id,
        title: r.title@,
        tracked_status: r.tracked_download_status@,
        status: r.status@,
    }
}

/// The canonical record of a Radarr-like queue entry.
pub open spec fn normalized_radarr(r: &radarr::Record) -> RecordView {
    RecordView {
        id: r.id,
        media_id: r.movie_id,
        title: r.title@,
        tracked_status: r.tracked_download_status@,
        status: r.status@,
    }
}

impl Record {
    pub fn new(
        id: i64,
        media_id: i64,
        title: String,
        tracked_status: String,
        status: String,
    ) -> (r: Record)
        ensures
            r@ == (RecordView {
                id,
                media_id,
                title: title@,
                tracked_status: tracked_status@,
                status: status@,
            }),
    {
        Record { id, media_id, title, tracked_status, status }
    }

    pub fn get_id(&self) -> (r: i64)
        ensures
            r == self@.id,
    {
        self.id
    }

    pub fn get_media_id(&self) -> (r: i64)
        ensures
            r == self@.media_id,
    {
        self.media_id
    }

    pub fn get_title(&self) -> (r: &str)
        ensures
            r@ == self@.title,
    {
        self.title.as_str()
    }

    pub fn get_tracked_status(&self) -> (r: &str)
        ensures
            r@ == self@.tracked_status,
    {
        self.tracked_status.as_str()
    }

    pub fn get_status(&self) -> (r: &str)
        ensures
            r@ == self@.status,
    {
        self.status.as_str()
    }

    /// Whether this entry's download or import has failed.
    pub fn is_failed(&self) -> (r: bool)
        ensures
            r == is_failed(self@),
    {
        let bad = String::from_str(BAD_STATUS);
        self.tracked_status == bad || self.status == bad
    }

    /// The record as one line of text: its identifier, a colon and its title.
    pub fn describe(&self) -> (r: String)
        ensures
            r@ == int_text(self@.id as int) + ": "@ + self@.title,
    {
        let mut text = String::new();
        push_int(&mut text, self.id);
        text.append(": ");
        text.append(self.title.as_str());
        text
    }

    /// A copy of this record.
    pub fn duplicate(&self) -> (r: Record)
        ensures
            r@ == self@,
    {
        Record {
            id: self.id,
            media_id: self.media_id,
            title: self.title.clone(),
            tracked_status: self.tracked_status.clone(),
            status: self.status.clone(),
        }
    }
}

impl<'a> From<&'a sonarr::Record> for Record {
    fn from(record: &'a sonarr::Record) -> (r: Record) {
        Record {
            id: record.id,
            media_id: record.episode_id,
            title: record.title.clone(),
            tracked_status: record.tracked_download_status.clone(),
            status: record.status.clone(),
        }
    }
}

impl<'a> vstd::std_specs::convert::FromSpecImpl<&'a sonarr::Record> for Record {
    open spec fn obeys_from_spec() -> bool {
        true
    }

    closed spec fn from_spec(record: &'a sonarr::Record) -> Record {
        Record {
            id: record.id,
            media_id: record.episode_id,
            title: record.title,
            tracked_status: record.tracked_download_status,
            status: record.status,
        }
    }
}

impl<'a> From<&'a radarr::Record> for Record {
    fn from(record: &'a radarr::Record) -> (r: Record) {
        Record {
            id: record.id,
            media_id: record.movie_id,
            title: record.title.clone(),
            tracked_status: record.tracked_download_status.clone(),
            status: record.status.clone(),
        }
    }
}

impl<'a> vstd::std_specs::convert::FromSpecImpl<&'a radarr::Record> for Record {
    open spec fn obeys_from_spec() -> bool {
        true
    }

    closed spec fn from_spec(record: &'a radarr::Record) -> Record {
        Record {
            id: record.id,
            media_id: record.movie_id,
            title: record.title,
            tracked_status: record.tracked_download_status,
            status: record.status,
        }
    }
}

/// `Record::from` on a Sonarr-like entry keeps its identifier, its episode
/// identifier as media identifier, its title and both statuses.
pub proof fn from_sonarr_entry_is_normalized(r: &sonarr::Record)
    ensures
        <Record as vstd::std_specs::convert::FromSpec<&sonarr::Record>>::from_spec(r)@
            == normalized_sonarr(r),
{
}

/// `Record::from` on a Radarr-like entry keeps its identifier, its movie
/// identifier as media identifier, its title and both statuses.
pub proof fn from_radarr_entry_is_normalized(r: &radarr::Record)
    ensures
        <Record as vstd::std_specs::convert::FromSpec<&radarr::Record>>::from_spec(r)@
            == normalized_radarr(r),
{
}

/// Normalizes a Sonarr-like queue entry.
pub fn from_sonarr(record: &sonarr::Record) -> (r: Record)
    ensures
        r@ == normalized_sonarr(record),
{
    Record::from(record)
}

/// Normalizes a Radarr-like queue entry.
pub fn from_radarr(record: &radarr::Record) -> (r: Record)
    ensures
        r@ == normalized_radarr(record),
{
    Record::from(record)
}

} // verus!
