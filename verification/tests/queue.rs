use seanify::songs::CycleAction;
use seanify::songs::ResolveOutcome;
use seanify::songs::Song;
use seanify::songs::SongError;
use seanify::songs::SongManager;
use seanify::songs::SongManagerError;
use seanify::songs::TrackInfo;

fn bytes(s: &str) -> Vec<u8> {
    s.as_bytes().to_vec()
}

fn track(title: Option<&str>, uploader: Option<&str>, date: Option<&str>, size: Option<i64>) -> TrackInfo {
    TrackInfo {
        title: title.map(bytes),
        upload_date: date.map(bytes),
        uploader: uploader.map(bytes),
        url: Some(bytes("https://example/stream")),
        genre: None,
        thumbnail: None,
        album: None,
        album_artist: None,
        artist: None,
        creator: None,
        filesize: size,
    }
}

#[test]
fn fifty_requests_succeed_and_the_fifty_first_fails() {
    let mut mgr = SongManager::new(None, None, None, 50);
    for i in 0..50 {
        let url = format!("https://example/{i}");
        assert!(mgr.request(url.into_bytes()).is_ok());
    }
    assert_eq!(
        mgr.request(bytes("https://example/one-too-many")),
        Err(SongManagerError::QueueLimit)
    );
}

#[test]
fn list_queue_concatenates_pending_urls_in_order() {
    let mut mgr = SongManager::new(None, None, None, 10);
    mgr.request(bytes("ab")).unwrap();
    mgr.request(bytes("cd")).unwrap();
    assert_eq!(mgr.list_queue(), bytes("abcd"));
}

#[test]
fn clear_queue_empties_the_queue() {
    let mut mgr = SongManager::new(None, None, None, 10);
    mgr.request(bytes("x")).unwrap();
    mgr._clear_queue();
    assert_eq!(mgr.list_queue(), bytes(""));
}

#[test]
fn one_cycle_pops_exactly_the_front_url() {
    let mut mgr = SongManager::new(None, None, None, 10);
    mgr.request(bytes("first")).unwrap();
    mgr.request(bytes("second")).unwrap();
    match mgr.cycle_begin() {
        CycleAction::Resolve(url) => assert_eq!(url, bytes("first")),
        _ => panic!("expected a resolve action"),
    }
    assert_eq!(mgr.list_queue(), bytes("second"));
}

#[test]
fn an_empty_queue_cycles_idly() {
    let mut mgr = SongManager::new(None, None, None, 10);
    assert!(matches!(mgr.cycle_begin(), CycleAction::Idle));
}

#[test]
fn a_spent_call_quota_aborts_the_cycle_without_popping() {
    let mut mgr = SongManager::new(Some(0), None, None, 10);
    mgr.request(bytes("kept")).unwrap();
    match mgr.cycle_begin() {
        CycleAction::Abort(e) => assert_eq!(e, SongManagerError::RateLimitYtdlCall),
        _ => panic!("expected an abort"),
    }
    assert_eq!(mgr.list_queue(), bytes("kept"));
}

#[test]
fn multi_item_results_never_become_a_job() {
    let mut mgr = SongManager::new(None, None, None, 10);
    let classified = Song::new(ResolveOutcome::MultiItem);
    assert!(matches!(classified, Err(SongError::NotSingleVideo)));
    // The rejection is terminal: no download job exists, so nothing can
    // ever be handed on for insertion.
    assert_eq!(
        mgr.on_resolved(classified).map(|_| ()),
        Err(SongManagerError::InvalidSong)
    );
}

#[test]
fn failed_resolutions_are_invalid_songs() {
    let mut mgr = SongManager::new(None, None, None, 10);
    let classified = Song::new(ResolveOutcome::Failed);
    assert!(matches!(classified, Err(SongError::UnableToDownload)));
    assert_eq!(
        mgr.on_resolved(classified).map(|_| ()),
        Err(SongManagerError::InvalidSong)
    );
}

#[test]
fn a_missing_or_empty_title_is_an_invalid_song() {
    let mut mgr = SongManager::new(None, None, None, 10);
    let untitled = Song::new(ResolveOutcome::Single(track(None, Some("u"), Some("d"), None)));
    assert_eq!(mgr.on_resolved(untitled).map(|_| ()), Err(SongManagerError::InvalidSong));
    let empty = Song::new(ResolveOutcome::Single(track(Some(""), Some("u"), Some("d"), None)));
    assert_eq!(mgr.on_resolved(empty).map(|_| ()), Err(SongManagerError::InvalidSong));
}

#[test]
fn an_oversized_file_is_rejected_before_downloading() {
    // Cap of 1 MB = 1024 kB.
    let mut mgr = SongManager::new(None, None, Some(1), 10);
    let big = Song::new(ResolveOutcome::Single(track(Some("t"), Some("u"), Some("d"), Some(2000))));
    assert_eq!(
        mgr.on_resolved(big).map(|_| ()),
        Err(SongManagerError::MaxFileSizeLimit)
    );
    let small = Song::new(ResolveOutcome::Single(track(Some("t"), Some("u"), Some("d"), Some(500))));
    assert!(mgr.on_resolved(small).is_ok());
}

#[test]
fn content_id_is_the_seahash_of_the_content_key() {
    let song = Song::new(ResolveOutcome::Single(track(Some("t"), Some("u"), Some("d"), None)))
        .ok()
        .unwrap();
    assert_eq!(song.id, Some(seahash::hash(b"t|u|d")));
    assert!(!song.downloaded);
    // Missing uploader and date hash as empty fields.
    let sparse = Song::new(ResolveOutcome::Single(track(Some("t"), None, None, None)))
        .ok()
        .unwrap();
    assert_eq!(sparse.id, Some(seahash::hash(b"t||")));
}

#[test]
fn a_successful_fetch_marks_the_song_downloaded() {
    let mut mgr = SongManager::new(None, None, None, 10);
    let classified = Song::new(ResolveOutcome::Single(track(Some("t"), Some("u"), Some("d"), None)));
    let job = mgr.on_resolved(classified).ok().unwrap();
    assert_eq!(job.dest_name, seahash::hash(b"t|u|d"));
    assert_eq!(job.source, bytes("https://example/stream"));
    let song = job.finish(true).ok().unwrap();
    assert!(song.downloaded);
    assert_eq!(song.id, Some(seahash::hash(b"t|u|d")));
}

#[test]
fn a_failed_fetch_is_terminal() {
    let mut mgr = SongManager::new(None, None, None, 10);
    let classified = Song::new(ResolveOutcome::Single(track(Some("t"), Some("u"), Some("d"), None)));
    let job = mgr.on_resolved(classified).ok().unwrap();
    assert_eq!(job.finish(false).map(|_| ()), Err(SongManagerError::FailedToDownload));
}

#[test]
fn resolver_calls_are_charged_once_a_titled_track_is_seen() {
    let mut mgr = SongManager::new(Some(2), None, None, 10);
    assert_eq!(mgr.calls_so_far(), 0);
    // A failed resolution costs nothing.
    let _ = mgr.on_resolved(Song::new(ResolveOutcome::Failed));
    assert_eq!(mgr.calls_so_far(), 0);
    // A titled track costs one call, even when its size is then refused.
    let mut big_mgr = SongManager::new(Some(2), None, Some(1), 10);
    let big = Song::new(ResolveOutcome::Single(track(Some("t"), Some("u"), Some("d"), Some(99999))));
    let _ = big_mgr.on_resolved(big);
    assert_eq!(big_mgr.calls_so_far(), 1);
    // An accepted track costs one call too.
    let fine = Song::new(ResolveOutcome::Single(track(Some("t"), Some("u"), Some("d"), None)));
    assert!(mgr.on_resolved(fine).is_ok());
    assert_eq!(mgr.calls_so_far(), 1);
}

#[test]
fn error_messages_name_their_cause() {
    assert_eq!(SongManagerError::QueueLimit.message(), "Queue limit reached");
    assert_eq!(SongManagerError::MaxFileSizeLimit.message(), "Max file size limit reached");
    assert_eq!(SongManagerError::FailedToDownload.message(), "Failed to download song from url");
    assert_eq!(SongManagerError::InvalidSong.message(), "Provided with invalid song");
    assert_eq!(
        SongError::NotSingleVideo.message(),
        "Expected single video link! not playlist"
    );
    assert_eq!(
        SongError::UnableToDownload.message(),
        "Unable to download due to network error"
    );
    // These two quotas can only be configured, never consumed, in this
    // process; their messages are still fixed.
    assert_eq!(
        SongManagerError::RateLimitYtdlCall.message(),
        "Hourly resolver call limit reached"
    );
    assert_eq!(
        SongManagerError::RateLimitBandwidthMB.message(),
        "Hourly bandwidth limit reached"
    );
}
