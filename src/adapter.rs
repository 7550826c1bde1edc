//! The two server families behind one interface: a decoded queue page yields
//! canonical records, and a decoded media item yields its file identifier.

use vstd::prelude::*;

use crate::json::{radarr, sonarr};
use crate::record::{
    from_radarr, from_radarr_entry_is_normalized, from_sonarr, from_sonarr_entry_is_normalized,
    normalized_radarr, normalized_sonarr, views, Record,
};
use crate::record::RecordView;

verus! {

/// A decoded page of the download queue.
pub trait QueueJson {
    /// The canonical records of the page, in the page's order.
    spec fn records_view(&self) -> Seq<RecordView>;

    fn get_records(&self) -> (r: Vec<Record>)
        ensures
            views(r@) == self.records_view(),
    ;
}

/// A decoded media item (an episode or a movie).
pub trait MediaItem {
    /// The identifier of the item's file on disk, if it has one.
    spec fn file_id(&self) -> Option<i64>;

    fn get_file_id(&self) -> (r: Option<i64>)
        ensures
            r == self.file_id(),
    ;
}

impl QueueJson for sonarr::Queue {
    open spec fn records_view(&self) -> Seq<RecordView> {
        self.records@.map_values(|r: sonarr::Record| normalized_sonarr(&r))
    }

    fn get_records(&self) -> (r: Vec<Record>) {
        let mut out: Vec<Record> = Vec::new();
        let mut i: usize = 0;
        while i < self.records.len()
            invariant
                i <= self.records@.len(),
                out@.len() == i,
                forall|j: int| 0 <= j < i ==> #[trigger] out@[j]@ == normalized_sonarr(&self.records@[j]),
            decreases self.records@.len() - i,
        {
            out.push(from_sonarr(&self.records[i]));
            i += 1;
        }
        assert(views(out@) =~= self.records_view());
        out
    }
}

impl QueueJson for radarr::Queue {
    open spec fn records_view(&self) -> Seq<RecordView> {
        self.records@.map_values(|r: radarr::Record| normalized_radarr(&r))
    }

    fn get_records(&self) -> (r: Vec<Record>) {
        let mut out: Vec<Record> = Vec::new();
        let mut i: usize = 0;
        while i < self.records.len()
            invariant
                i <= self.records@.len(),
                out@.len() == i,
                forall|j: int| 0 <= j < i ==> #[trigger] out@[j]@ == normalized_radarr(&self.records@[j]),
            decreases self.records@.len() - i,
        {
            out.push(from_radarr(&self.records[i]));
            i += 1;
        }
        assert(views(out@) =~= self.records_view());
        out
    }
}

impl MediaItem for sonarr::Episode {
    open spec fn file_id(&self) -> Option<i64> {
        self.episode_file_id
    }

    fn get_file_id(&self) -> (r: Option<i64>) {
        self.episode_file_id
    }
}

impl MediaItem for radarr::Movie {
    open spec fn file_id(&self) -> Option<i64> {
        self.movie_file_id
    }

    fn get_file_id(&self) -> (r: Option<i64>) {
        self.movie_file_id
    }
}

/// Sonarr-like and Radarr-like queue entries that agree on identifier, media
/// identifier, title and both statuses.
pub open spec fn equivalent_entries(s: &sonarr::Record, r: &radarr::Record) -> bool {
    &&& s.id == r.id
    &&& s.episode_id == r.movie_id
    &&& s.title@ == r.title@
    &&& s.tracked_download_status@ == r.tracked_download_status@
    &&& s.status@ == r.status@
}

/// Normalization does not depend on the server family: equivalent entries of
/// the two families give the same canonical record.
pub proof fn normalization_is_schema_agnostic(s: &sonarr::Record, r: &radarr::Record)
    requires
        equivalent_entries(s, r),
    ensures
        normalized_sonarr(s) == normalized_radarr(r),
{
}

/// `Record::from` does not depend on the server family: on equivalent
/// entries of the two families it gives records of the same value.
pub proof fn record_from_is_schema_agnostic(s: &sonarr::Record, r: &radarr::Record)
    requires
        equivalent_entries(s, r),
    ensures
        <Record as vstd::std_specs::convert::FromSpec<&sonarr::Record>>::from_spec(s)@
            == <Record as vstd::std_specs::convert::FromSpec<&radarr::Record>>::from_spec(r)@,
{
    from_sonarr_entry_is_normalized(s);
    from_radarr_entry_is_normalized(r);
}

/// Equivalent queue pages of the two families give the same canonical
/// records, in the same order.
pub proof fn queue_normalization_is_schema_agnostic(s: &sonarr::Queue, r: &radarr::Queue)
    requires
        s.records@.len() == r.records@.len(),
        forall|i: int| 0 <= i < s.records@.len() ==> equivalent_entries(&s.records@[i], &r.records@[i]),
    ensures
        s.records_view() == r.records_view(),
{
    assert(s.records_view() =~= r.records_view());
}

} // verus!
