use queue_cleanup::api::{is_success, Api, Method};
use queue_cleanup::cli::Cli;
use queue_cleanup::decimal::{push_bool, push_int, push_nat};

fn sonarr_api(skip: bool) -> Api {
    Api::new("http://localhost:8989".to_string(), "KEY".to_string(), false, skip)
}

fn radarr_api() -> Api {
    Api::new("http://localhost:7878".to_string(), "KEY".to_string(), true, false)
}

#[test]
fn queue_request_has_fixed_paging() {
    let r = sonarr_api(false).queue_request();
    assert_eq!(r.method, Method::Get);
    assert_eq!(r.url, "http://localhost:8989/api/v3/queue?page=1&pageSize=1000&apikey=KEY");
    assert_eq!(r.accept(), "application/json");
}

#[test]
fn queue_entry_deletion_blocklists() {
    let r = sonarr_api(false).delete_queue_request(7);
    assert_eq!(r.method, Method::Delete);
    assert_eq!(
        r.url,
        "http://localhost:8989/api/v3/queue/7?removeFromClient=false&blocklist=true&changeCategory=false&skipRedownload=false&apikey=KEY"
    );
    assert_eq!(r.accept(), "*/*");
}

#[test]
fn skip_redownload_flag_is_passed_through() {
    let r = sonarr_api(true).delete_queue_request(1234567890);
    assert_eq!(
        r.url,
        "http://localhost:8989/api/v3/queue/1234567890?removeFromClient=false&blocklist=true&changeCategory=false&skipRedownload=true&apikey=KEY"
    );
}

#[test]
fn episode_lookup_and_file_deletion() {
    let api = sonarr_api(false);
    let lookup = api.media_request(42);
    assert_eq!(lookup.method, Method::Get);
    assert_eq!(lookup.url, "http://localhost:8989/api/v3/episode/42?apikey=KEY");
    let delete = api.delete_file_request(1001);
    assert_eq!(delete.method, Method::Delete);
    assert_eq!(delete.url, "http://localhost:8989/api/v3/episodefile/1001?apikey=KEY");
}

#[test]
fn movie_lookup_and_file_deletion() {
    let api = radarr_api();
    assert_eq!(api.media_request(314).url, "http://localhost:7878/api/v3/movie/314?apikey=KEY");
    assert_eq!(
        api.delete_file_request(0).url,
        "http://localhost:7878/api/v3/moviefile/0?apikey=KEY"
    );
}

#[test]
fn decimal_text_of_extremes() {
    let mut s = String::new();
    push_int(&mut s, i64::MIN);
    assert_eq!(s, "-9223372036854775808");
    let mut s = String::from("x");
    push_int(&mut s, i64::MAX);
    assert_eq!(s, "x9223372036854775807");
    let mut s = String::new();
    push_int(&mut s, -5);
    assert_eq!(s, "-5");
    let mut s = String::new();
    push_nat(&mut s, 0);
    assert_eq!(s, "0");
    let mut s = String::new();
    push_nat(&mut s, 100);
    assert_eq!(s, "100");
    let mut s = String::from("=");
    push_bool(&mut s, true);
    push_bool(&mut s, false);
    assert_eq!(s, "=truefalse");
}

#[test]
fn success_range_is_two_hundreds() {
    assert!(!is_success(199));
    assert!(is_success(200));
    assert!(is_success(204));
    assert!(is_success(299));
    assert!(!is_success(300));
    assert!(!is_success(404));
    assert!(!is_success(500));
}

#[test]
fn cli_settings_become_api() {
    let cli = Cli {
        url: "http://host:7878".to_string(),
        api_key: "k".to_string(),
        radarr: true,
        skip_redownload: true,
    };
    let api = cli.into_api();
    assert!(api.is_radarr());
    assert_eq!(api.queue_request().url, "http://host:7878/api/v3/queue?page=1&pageSize=1000&apikey=k");
    assert_eq!(
        api.delete_queue_request(3).url,
        "http://host:7878/api/v3/queue/3?removeFromClient=false&blocklist=true&changeCategory=false&skipRedownload=true&apikey=k"
    );
}
