use queue_cleanup::api::{Api, ApiError, Method, Target};
use queue_cleanup::cleanup::{select_failed, Cleanup, Next, Phase, Reply};
use queue_cleanup::record::Record;

const BASE: &str = "http://localhost:8989";

fn api() -> Api {
    Api::new(BASE.to_string(), "KEY".to_string(), false, false)
}

fn record(id: i64, media_id: i64, title: &str, download_status: &str, status: &str) -> Record {
    Record::new(id, media_id, title.to_string(), download_status.to_string(), status.to_string())
}

fn sent(next: &Next) -> (Method, String) {
    match next {
        Next::Send(r) => (r.method, r.url.clone()),
        Next::Finished => panic!("pass finished"),
        Next::Aborted => panic!("pass aborted"),
    }
}

fn delete_entry_url(id: i64) -> String {
    format!(
        "{}/api/v3/queue/{}?removeFromClient=false&blocklist=true&changeCategory=false&skipRedownload=false&apikey=KEY",
        BASE, id
    )
}

#[test]
fn fresh_pass_fetches_the_queue() {
    let c = Cleanup::new(api());
    assert_eq!(c.phase(), Phase::Fetching);
    assert!(c.current().is_none());
    assert_eq!(
        sent(&c.next()),
        (Method::Get, format!("{}/api/v3/queue?page=1&pageSize=1000&apikey=KEY", BASE))
    );
}

#[test]
fn failed_record_is_deleted_from_queue_and_disk() {
    let mut c = Cleanup::new(api());
    let step = c.step(Reply::Queue(vec![record(7, 42, "Show S01E01", "warning", "downloading")]));
    assert!(step.failure.is_none());
    assert_eq!(sent(&step.next), (Method::Delete, delete_entry_url(7)));
    assert_eq!(c.current().unwrap().get_title(), "Show S01E01");
    assert_eq!(c.failed_count(), 1);

    let step = c.step(Reply::Status(200));
    assert!(step.failure.is_none());
    assert_eq!(sent(&step.next), (Method::Get, format!("{}/api/v3/episode/42?apikey=KEY", BASE)));

    let step = c.step(Reply::Media(Some(1001)));
    assert!(step.failure.is_none());
    assert_eq!(
        sent(&step.next),
        (Method::Delete, format!("{}/api/v3/episodefile/1001?apikey=KEY", BASE))
    );

    let step = c.step(Reply::Status(200));
    assert!(step.failure.is_none());
    assert!(matches!(step.next, Next::Finished));
    assert_eq!(c.phase(), Phase::Finished);
}

#[test]
fn healthy_record_gets_no_deletion() {
    let mut c = Cleanup::new(api());
    let step = c.step(Reply::Queue(vec![record(8, 43, "Show S01E02", "ok", "ok")]));
    assert!(step.failure.is_none());
    assert!(matches!(step.next, Next::Finished));
    assert_eq!(c.phase(), Phase::Finished);
    assert_eq!(c.failed_count(), 0);
}

#[test]
fn queue_fetch_server_error_aborts() {
    let mut c = Cleanup::new(api());
    let step = c.step(Reply::Status(500));
    assert_eq!(step.failure, Some(ApiError::FetchFailed { status: Some(500) }));
    assert!(matches!(step.next, Next::Aborted));
    assert_eq!(c.phase(), Phase::Aborted);
    let later = c.step(Reply::Status(200));
    assert!(later.failure.is_none());
    assert!(matches!(later.next, Next::Aborted));
}

#[test]
fn queue_fetch_without_response_aborts() {
    let mut c = Cleanup::new(api());
    let step = c.step(Reply::Unreachable);
    assert_eq!(step.failure, Some(ApiError::FetchFailed { status: None }));
    assert!(matches!(step.next, Next::Aborted));
}

#[test]
fn undecodable_queue_aborts() {
    let mut c = Cleanup::new(api());
    let step = c.step(Reply::Undecodable);
    assert_eq!(step.failure, Some(ApiError::DecodeFailed { record: None }));
    assert!(matches!(step.next, Next::Aborted));
}

#[test]
fn media_without_file_is_skipped() {
    let mut c = Cleanup::new(api());
    c.step(Reply::Queue(vec![
        record(7, 42, "Show S01E01", "warning", "downloading"),
        record(9, 44, "Show S01E03", "ok", "warning"),
    ]));
    let step = c.step(Reply::Status(200));
    assert!(step.failure.is_none());
    let step = c.step(Reply::Media(None));
    assert_eq!(step.failure, Some(ApiError::NoFileForRecord { record_id: 7, media_id: 42 }));
    assert_eq!(sent(&step.next), (Method::Delete, delete_entry_url(9)));
}

#[test]
fn file_deletion_failure_does_not_stop_the_pass() {
    let mut c = Cleanup::new(api());
    c.step(Reply::Queue(vec![
        record(1, 11, "first", "warning", "completed"),
        record(2, 22, "healthy", "ok", "downloading"),
        record(3, 33, "second", "warning", "warning"),
    ]));
    c.step(Reply::Status(200));
    c.step(Reply::Media(Some(111)));
    let step = c.step(Reply::Status(500));
    assert_eq!(
        step.failure,
        Some(ApiError::DeleteFailed { which: Target::MediaFile, record_id: 1, status: Some(500) })
    );
    assert_eq!(sent(&step.next), (Method::Delete, delete_entry_url(3)));
    assert_eq!(c.current().unwrap().get_id(), 3);
}

#[test]
fn queue_deletion_failure_still_looks_up_the_file() {
    let mut c = Cleanup::new(api());
    c.step(Reply::Queue(vec![record(5, 55, "x", "warning", "completed")]));
    let step = c.step(Reply::Status(404));
    assert_eq!(
        step.failure,
        Some(ApiError::DeleteFailed { which: Target::QueueEntry, record_id: 5, status: Some(404) })
    );
    assert_eq!(sent(&step.next), (Method::Get, format!("{}/api/v3/episode/55?apikey=KEY", BASE)));
    let step = c.step(Reply::Unreachable);
    assert_eq!(
        step.failure,
        Some(ApiError::LookupFailed { record_id: 5, media_id: 55, status: None })
    );
    assert!(matches!(step.next, Next::Finished));
}

#[test]
fn lookup_failures_are_reported_and_skipped() {
    let mut c = Cleanup::new(api());
    c.step(Reply::Queue(vec![
        record(1, 10, "a", "warning", "x"),
        record(2, 20, "b", "warning", "x"),
    ]));
    c.step(Reply::Status(200));
    let step = c.step(Reply::Status(503));
    assert_eq!(
        step.failure,
        Some(ApiError::LookupFailed { record_id: 1, media_id: 10, status: Some(503) })
    );
    assert_eq!(sent(&step.next), (Method::Delete, delete_entry_url(2)));
    c.step(Reply::Unreachable);
    let step = c.step(Reply::Undecodable);
    assert_eq!(step.failure, Some(ApiError::DecodeFailed { record: Some(2) }));
    assert!(matches!(step.next, Next::Finished));
}

#[test]
fn select_failed_keeps_order_and_drops_healthy() {
    let records = vec![
        record(1, 10, "a", "ok", "ok"),
        record(2, 20, "b", "warning", "ok"),
        record(3, 30, "c", "ok", "downloading"),
        record(4, 40, "d", "ok", "warning"),
    ];
    let kept = select_failed(&records);
    assert_eq!(kept.len(), 2);
    assert_eq!(kept[0].get_id(), 2);
    assert_eq!(kept[1].get_id(), 4);
    assert!(select_failed(&vec![]).is_empty());
}
