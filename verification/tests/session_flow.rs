use seanify::block::BlockList;
use seanify::rate::RateLimiter;
use seanify::registry::AuthState;
use seanify::registry::Registry;
use seanify::router::handle_message;
use seanify::router::store_reply;
use seanify::router::Outcome;
use seanify::router::StoreOutcome;
use seanify::router::StoreRequest;
use seanify::session::apply_auth_result;
use seanify::session::parse_preauth;
use seanify::session::session_step;
use seanify::session::AuthOutcome;
use seanify::session::PreAuth;
use seanify::session::Step;
use seanify::songs::CycleAction;
use seanify::songs::ResolveOutcome;
use seanify::songs::Song;
use seanify::songs::SongManager;
use seanify::songs::TrackInfo;

fn bytes(s: &str) -> Vec<u8> {
    s.as_bytes().to_vec()
}

fn keys() -> (Vec<u8>, Vec<u8>) {
    (bytes("adminsecret"), bytes("instancekey"))
}

#[test]
fn preauth_parses_auth_and_sign_only() {
    let (admin_key, instance_key) = keys();
    match parse_preauth(&bytes("AUTH alice pw"), &admin_key, &instance_key) {
        PreAuth::Auth { user, pass, wants_admin } => {
            assert_eq!(user, bytes("alice"));
            assert_eq!(pass, bytes("pw"));
            assert!(!wants_admin);
        }
        _ => panic!("expected an auth step"),
    }
    match parse_preauth(&bytes("AUTH alice pw adminsecret"), &admin_key, &instance_key) {
        PreAuth::Auth { wants_admin, .. } => assert!(wants_admin),
        _ => panic!("expected an auth step"),
    }
    match parse_preauth(&bytes("AUTH alice pw wrongkey"), &admin_key, &instance_key) {
        PreAuth::Auth { wants_admin, .. } => assert!(!wants_admin),
        _ => panic!("expected an auth step"),
    }
    assert!(matches!(
        parse_preauth(&bytes("AUTH alice"), &admin_key, &instance_key),
        PreAuth::Ignore
    ));
    match parse_preauth(&bytes("SIGN bob pw instancekey"), &admin_key, &instance_key) {
        PreAuth::Sign { user, pass } => {
            assert_eq!(user, bytes("bob"));
            assert_eq!(pass, bytes("pw"));
        }
        _ => panic!("expected a signup step"),
    }
    assert!(matches!(
        parse_preauth(&bytes("SIGN bob pw wrong"), &admin_key, &instance_key),
        PreAuth::Ignore
    ));
    assert!(matches!(
        parse_preauth(&bytes("SIGN bob pw"), &admin_key, &instance_key),
        PreAuth::Ignore
    ));
    assert!(matches!(
        parse_preauth(&bytes("PING"), &admin_key, &instance_key),
        PreAuth::Ignore
    ));
}

#[test]
fn unauthenticated_sessions_get_no_command_processed() {
    let (admin_key, instance_key) = keys();
    let mut registry = Registry::new();
    let conn = registry.insert();
    let blocks = BlockList::new();
    let mut rate = RateLimiter::new(200, 50, 60);
    let mut manager = SongManager::new(None, None, None, 50);
    // A QUEUE command from an unauthenticated session is not processed:
    // it comes back as a pre-auth step and the queue stays empty.
    let step = session_step(
        &registry,
        conn,
        &blocks,
        &mut rate,
        &mut manager,
        &admin_key,
        &instance_key,
        &bytes("QUEUE https://example/track"),
    );
    assert!(matches!(step, Step::PreAuth(PreAuth::Ignore)));
    assert_eq!(manager.list_queue(), bytes(""));
    // AUTH is the way in.
    let step = session_step(
        &registry,
        conn,
        &blocks,
        &mut rate,
        &mut manager,
        &admin_key,
        &instance_key,
        &bytes("AUTH alice pw"),
    );
    assert!(matches!(step, Step::PreAuth(PreAuth::Auth { .. })));
}

#[test]
fn an_authenticated_session_gets_its_frames_routed() {
    let (admin_key, instance_key) = keys();
    let mut registry = Registry::new();
    let conn = registry.insert();
    apply_auth_result(&mut registry, conn, &bytes("alice"), true);
    let blocks = BlockList::new();
    let mut rate = RateLimiter::new(200, 50, 60);
    let mut manager = SongManager::new(None, None, None, 50);
    let step = session_step(
        &registry,
        conn,
        &blocks,
        &mut rate,
        &mut manager,
        &admin_key,
        &instance_key,
        &bytes("PING"),
    );
    match step {
        Step::Routed(Outcome::Reply(t)) => assert_eq!(t, bytes("PONG")),
        _ => panic!("expected a routed reply"),
    }
}

#[test]
fn successful_auth_binds_exactly_one_session() {
    let mut registry = Registry::new();
    let a = registry.insert();
    let b = registry.insert();
    let outcome = apply_auth_result(&mut registry, a, &bytes("alice"), true);
    let identity = match outcome {
        AuthOutcome::Authenticated { identity } => identity,
        _ => panic!("expected authentication"),
    };
    assert_eq!(identity, seahash::hash(b"alice"));
    assert_eq!(
        registry.get_state(a),
        Some(AuthState::Authenticated { identity, admin: false })
    );
    assert_eq!(registry.get_state(b), Some(AuthState::Unauthenticated));
}

#[test]
fn failed_auth_removes_the_session() {
    let mut registry = Registry::new();
    let a = registry.insert();
    let b = registry.insert();
    let outcome = apply_auth_result(&mut registry, a, &bytes("alice"), false);
    assert!(matches!(outcome, AuthOutcome::Removed));
    assert_eq!(registry.get_state(a), None);
    assert_eq!(registry.get_state(b), Some(AuthState::Unauthenticated));
}

#[test]
fn admin_standing_is_granted_only_on_authenticated_sessions() {
    let mut registry = Registry::new();
    let a = registry.insert();
    assert!(!registry.set_admin(a, true));
    apply_auth_result(&mut registry, a, &bytes("alice"), true);
    assert!(registry.set_admin(a, true));
    let identity = seahash::hash(b"alice");
    assert_eq!(
        registry.get_state(a),
        Some(AuthState::Authenticated { identity, admin: true })
    );
}

#[test]
fn blocked_identities_are_dropped_without_response() {
    let mut registry = Registry::new();
    let a = registry.insert();
    apply_auth_result(&mut registry, a, &bytes("alice"), true);
    let identity = seahash::hash(b"alice");
    let mut blocks = BlockList::new();
    blocks.insert(identity, 10);
    let mut rate = RateLimiter::new(200, 50, 60);
    let mut manager = SongManager::new(None, None, None, 50);
    let o = handle_message(&registry, identity, &blocks, &mut rate, &mut manager, &bytes("PING"));
    assert!(matches!(o, Outcome::Dropped));
    // Not even QUEUE has an effect while banned.
    let o = handle_message(
        &registry,
        identity,
        &blocks,
        &mut rate,
        &mut manager,
        &bytes("QUEUE https://example/x"),
    );
    assert!(matches!(o, Outcome::Dropped));
    assert_eq!(manager.list_queue(), bytes(""));
}

#[test]
fn relay_reaches_every_session_of_the_identity_and_no_other() {
    let mut registry = Registry::new();
    let a = registry.insert();
    let b = registry.insert();
    let c = registry.insert();
    let d = registry.insert();
    apply_auth_result(&mut registry, a, &bytes("alice"), true);
    apply_auth_result(&mut registry, b, &bytes("alice"), true);
    apply_auth_result(&mut registry, c, &bytes("carol"), true);
    // d stays unauthenticated.
    let identity = seahash::hash(b"alice");
    let blocks = BlockList::new();
    let mut rate = RateLimiter::new(200, 50, 60);
    let mut manager = SongManager::new(None, None, None, 50);
    let frame = bytes("VOL_SET 11");
    let o = handle_message(&registry, identity, &blocks, &mut rate, &mut manager, &frame);
    match o {
        Outcome::Relay { line, recipients } => {
            assert_eq!(line, frame);
            let mut got = recipients.clone();
            got.sort();
            let mut want = vec![a, b];
            want.sort();
            assert_eq!(got, want);
            assert!(!recipients.contains(&c));
            assert!(!recipients.contains(&d));
        }
        _ => panic!("expected a relay"),
    }
}

#[test]
fn ping_answers_pong_and_close_disconnects() {
    let mut registry = Registry::new();
    let a = registry.insert();
    apply_auth_result(&mut registry, a, &bytes("alice"), true);
    let identity = seahash::hash(b"alice");
    let blocks = BlockList::new();
    let mut rate = RateLimiter::new(200, 50, 60);
    let mut manager = SongManager::new(None, None, None, 50);
    match handle_message(&registry, identity, &blocks, &mut rate, &mut manager, &bytes("PING")) {
        Outcome::Reply(t) => assert_eq!(t, bytes("PONG")),
        _ => panic!("expected a reply"),
    }
    assert!(matches!(
        handle_message(&registry, identity, &blocks, &mut rate, &mut manager, &bytes("CLOSE")),
        Outcome::Close
    ));
    assert!(matches!(
        handle_message(&registry, identity, &blocks, &mut rate, &mut manager, &bytes("GIBBERISH")),
        Outcome::NoReply
    ));
    match handle_message(
        &registry,
        identity,
        &blocks,
        &mut rate,
        &mut manager,
        &bytes("UPDATE_USERDATA a b c"),
    ) {
        Outcome::Reply(t) => assert_eq!(t, bytes("OK")),
        _ => panic!("expected a reply"),
    }
}

#[test]
fn queue_commands_act_on_the_download_queue() {
    let mut registry = Registry::new();
    let a = registry.insert();
    apply_auth_result(&mut registry, a, &bytes("alice"), true);
    let identity = seahash::hash(b"alice");
    let blocks = BlockList::new();
    let mut rate = RateLimiter::new(200, 50, 60);
    let mut manager = SongManager::new(None, None, None, 1);
    match handle_message(
        &registry,
        identity,
        &blocks,
        &mut rate,
        &mut manager,
        &bytes("QUEUE https://example/a"),
    ) {
        Outcome::Reply(t) => assert_eq!(t, bytes("AddedSong")),
        _ => panic!("expected a reply"),
    }
    match handle_message(
        &registry,
        identity,
        &blocks,
        &mut rate,
        &mut manager,
        &bytes("QUEUE https://example/b"),
    ) {
        Outcome::Reply(t) => assert_eq!(t, bytes("InvalidRequest")),
        _ => panic!("expected a reply"),
    }
    match handle_message(&registry, identity, &blocks, &mut rate, &mut manager, &bytes("QUEUE_LIST")) {
        Outcome::Reply(t) => assert_eq!(t, bytes("https://example/a")),
        _ => panic!("expected a reply"),
    }
}

#[test]
fn catalog_commands_become_store_requests() {
    let mut registry = Registry::new();
    let a = registry.insert();
    apply_auth_result(&mut registry, a, &bytes("alice"), true);
    let identity = seahash::hash(b"alice");
    let blocks = BlockList::new();
    let mut rate = RateLimiter::new(200, 50, 60);
    let mut manager = SongManager::new(None, None, None, 50);
    match handle_message(
        &registry,
        identity,
        &blocks,
        &mut rate,
        &mut manager,
        &bytes("ADD_SONG_HASH pl 123"),
    ) {
        Outcome::Store(StoreRequest::AddSongHash { identity: who, playlist, song_id }) => {
            assert_eq!(who, identity);
            assert_eq!(playlist, bytes("pl"));
            assert_eq!(song_id, 123);
        }
        _ => panic!("expected a store request"),
    }
    match handle_message(
        &registry,
        identity,
        &blocks,
        &mut rate,
        &mut manager,
        &bytes("ADD_SONG_HASH pl notanumber"),
    ) {
        Outcome::Reply(t) => assert_eq!(t, bytes("ExpectedHash")),
        _ => panic!("expected a reply"),
    }
    match handle_message(
        &registry,
        identity,
        &blocks,
        &mut rate,
        &mut manager,
        &bytes("MAKE_PLAYLIST mine TRUE"),
    ) {
        Outcome::Store(StoreRequest::CreatePlaylist { public, name, .. }) => {
            assert!(public);
            assert_eq!(name, bytes("mine"));
        }
        _ => panic!("expected a store request"),
    }
    match handle_message(
        &registry,
        identity,
        &blocks,
        &mut rate,
        &mut manager,
        &bytes("MAKE_PLAYLIST mine maybe"),
    ) {
        Outcome::Reply(t) => assert_eq!(t, bytes("InvalidHash")),
        _ => panic!("expected a reply"),
    }
}

#[test]
fn store_outcomes_map_to_documented_tokens() {
    let find = StoreRequest::FindSong {
        title: bytes("t"),
        uploader: bytes("u"),
        date: bytes("d"),
    };
    assert_eq!(store_reply(&find, StoreOutcome::Found(451)), Some(bytes("451")));
    assert_eq!(store_reply(&find, StoreOutcome::Failed), None);
    let remove = StoreRequest::RemoveSong {
        identity: 1,
        playlist: bytes("pl"),
        title: bytes("t"),
        uploader: bytes("u"),
        date: bytes("d"),
    };
    assert_eq!(store_reply(&remove, StoreOutcome::Done), Some(bytes("OK")));
    assert_eq!(store_reply(&remove, StoreOutcome::Failed), Some(bytes("CouldNotBeFound")));
    let add = StoreRequest::AddSong {
        identity: 1,
        playlist: bytes("pl"),
        title: bytes("t"),
        uploader: bytes("u"),
        date: bytes("d"),
    };
    assert_eq!(store_reply(&add, StoreOutcome::Failed), Some(bytes("CouldNotFindSong")));
    let add_hash = StoreRequest::AddSongHash { identity: 1, playlist: bytes("pl"), song_id: 3 };
    assert_eq!(store_reply(&add_hash, StoreOutcome::Failed), Some(bytes("InvalidHash")));
    let edit = StoreRequest::EditPlaylist {
        identity: 1,
        name: bytes("pl"),
        payload: bytes("{}"),
    };
    assert_eq!(store_reply(&edit, StoreOutcome::Done), Some(bytes("OK")));
    assert_eq!(store_reply(&edit, StoreOutcome::Failed), None);
    let descr = StoreRequest::SetPlaylistDescription {
        identity: 1,
        name: bytes("pl"),
        description: bytes("words"),
    };
    assert_eq!(store_reply(&descr, StoreOutcome::Failed), Some(bytes("InvalidDescription")));
    let list = StoreRequest::SongListShort;
    assert_eq!(
        store_reply(&list, StoreOutcome::Payload(bytes("[1,2]"))),
        Some(bytes("[1,2]"))
    );
    assert_eq!(store_reply(&list, StoreOutcome::Failed), None);
    let data = StoreRequest::GetUserData { identity: 1 };
    assert_eq!(
        store_reply(&data, StoreOutcome::Payload(bytes("{}"))),
        Some(bytes("{}"))
    );
    assert_eq!(store_reply(&data, StoreOutcome::Failed), None);
}

#[test]
fn a_frame_for_a_gone_session_is_discarded() {
    let (admin_key, instance_key) = keys();
    let registry = Registry::new();
    let blocks = BlockList::new();
    let mut rate = RateLimiter::new(200, 50, 60);
    let mut manager = SongManager::new(None, None, None, 50);
    let step = session_step(
        &registry,
        99,
        &blocks,
        &mut rate,
        &mut manager,
        &admin_key,
        &instance_key,
        &bytes("PING"),
    );
    assert!(matches!(step, Step::Gone));
}

#[test]
fn queued_track_flows_to_one_fetch_and_one_downloaded_song() {
    // End to end: an authenticated, unblocked session queues a URL, one
    // cycle resolves it to a valid single track under the size cap, one
    // fetch runs, and its success yields exactly one song to persist,
    // marked downloaded.
    let mut registry = Registry::new();
    let a = registry.insert();
    apply_auth_result(&mut registry, a, &bytes("alice"), true);
    let identity = seahash::hash(b"alice");
    let blocks = BlockList::new();
    let mut rate = RateLimiter::new(200, 50, 60);
    let mut manager = SongManager::new(None, None, Some(10), 50);
    match handle_message(
        &registry,
        identity,
        &blocks,
        &mut rate,
        &mut manager,
        &bytes("QUEUE https://example/track"),
    ) {
        Outcome::Reply(t) => assert_eq!(t, bytes("AddedSong")),
        _ => panic!("expected a reply"),
    }
    let url = match manager.cycle_begin() {
        CycleAction::Resolve(url) => url,
        _ => panic!("expected a resolve action"),
    };
    assert_eq!(url, bytes("https://example/track"));
    let resolved = Song::new(ResolveOutcome::Single(TrackInfo {
        title: Some(bytes("song")),
        upload_date: Some(bytes("20200101")),
        uploader: Some(bytes("someone")),
        url: Some(bytes("https://example/stream")),
        genre: None,
        thumbnail: None,
        album: None,
        album_artist: None,
        artist: None,
        creator: None,
        filesize: Some(900),
    }));
    let job = manager.on_resolved(resolved).ok().unwrap();
    // Exactly one fetch: this job, fetching the resolved source into the
    // cache under the content-id.
    assert_eq!(job.dest_name, seahash::hash(b"song|someone|20200101"));
    assert_eq!(job.source, bytes("https://example/stream"));
    let song = job.finish(true).ok().unwrap();
    assert!(song.downloaded);
    assert_eq!(song.id, Some(seahash::hash(b"song|someone|20200101")));
    // Nothing is left pending.
    assert!(matches!(manager.cycle_begin(), CycleAction::Idle));
}
