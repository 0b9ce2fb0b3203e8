use seanify::command::parse_line;
use seanify::command::Command;
use seanify::numbers::parse_u64;
use seanify::numbers::u64_to_dec;

fn line(s: &str) -> Vec<u8> {
    s.as_bytes().to_vec()
}

#[test]
fn relay_verbs_parse_to_relay() {
    for s in ["PLAY x", "PAUSE", "SKIP now", "VOL_UP", "VOL_DOWN", "VOL_SET 11"] {
        assert!(matches!(parse_line(&line(s)), Command::Relay));
    }
}

#[test]
fn ping_parses_with_or_without_rest() {
    assert!(matches!(parse_line(&line("PING")), Command::Ping));
    assert!(matches!(parse_line(&line("PING anything")), Command::Ping));
}

#[test]
fn queue_takes_the_trimmed_remainder() {
    match parse_line(&line("QUEUE   https://example/track")) {
        Command::Queue { url } => assert_eq!(url, line("https://example/track")),
        _ => panic!("expected a queue command"),
    }
    assert!(matches!(parse_line(&line("QUEUE")), Command::Invalid));
    assert!(matches!(parse_line(&line("QUEUE   ")), Command::Invalid));
}

#[test]
fn find_song_wants_exactly_three_arguments() {
    match parse_line(&line("FIND_SONG title uploader 2021")) {
        Command::FindSong { title, uploader, date } => {
            assert_eq!(title, line("title"));
            assert_eq!(uploader, line("uploader"));
            assert_eq!(date, line("2021"));
        }
        _ => panic!("expected a song lookup"),
    }
    assert!(matches!(parse_line(&line("FIND_SONG a b")), Command::Invalid));
    assert!(matches!(parse_line(&line("FIND_SONG a b c d")), Command::Invalid));
}

#[test]
fn remove_and_add_song_want_exactly_four_arguments() {
    assert!(matches!(
        parse_line(&line("REMOVE_SONG pl t u d")),
        Command::RemoveSong { .. }
    ));
    assert!(matches!(parse_line(&line("REMOVE_SONG pl t u")), Command::Invalid));
    assert!(matches!(parse_line(&line("ADD_SONG pl t u d")), Command::AddSong { .. }));
    assert!(matches!(parse_line(&line("ADD_SONG pl t")), Command::Invalid));
}

#[test]
fn edit_playlist_payload_is_the_raw_remainder() {
    match parse_line(&line("EDIT_PLAYLIST mylist {\"name\": \"a b\"}")) {
        Command::EditPlaylist { name, payload } => {
            assert_eq!(name, line("mylist"));
            assert_eq!(payload, line("{\"name\": \"a b\"}"));
        }
        _ => panic!("expected a playlist edit"),
    }
    assert!(matches!(parse_line(&line("EDIT_PLAYLIST mylist")), Command::Invalid));
    assert!(matches!(parse_line(&line("EDIT_PLAYLIST")), Command::Invalid));
}

#[test]
fn repeated_spaces_between_arguments_are_ignored() {
    assert!(matches!(
        parse_line(&line("FIND_SONG a  b   c")),
        Command::FindSong { .. }
    ));
}

#[test]
fn unknown_verbs_and_leading_spaces_are_invalid() {
    assert!(matches!(parse_line(&line("NONSENSE a b")), Command::Invalid));
    assert!(matches!(parse_line(&line(" PING")), Command::Invalid));
    assert!(matches!(parse_line(&line("")), Command::Invalid));
    assert!(matches!(parse_line(&line("   ")), Command::Invalid));
    // Verbs are case-sensitive.
    assert!(matches!(parse_line(&line("ping")), Command::Invalid));
}

#[test]
fn remaining_simple_verbs_parse() {
    assert!(matches!(parse_line(&line("QUEUE_LIST")), Command::QueueList));
    assert!(matches!(parse_line(&line("SONG_LIST_SHORT")), Command::SongListShort));
    assert!(matches!(parse_line(&line("ADD_SONG_HASH pl 12")), Command::AddSongHash { .. }));
    assert!(matches!(parse_line(&line("ADD_SONG_HASH pl")), Command::Invalid));
    assert!(matches!(parse_line(&line("MAKE_PLAYLIST pl true")), Command::MakePlaylist { .. }));
    assert!(matches!(parse_line(&line("REMOVE_PLAYLIST pl")), Command::RemovePlaylist { .. }));
    assert!(matches!(parse_line(&line("REMOVE_PLAYLIST")), Command::Invalid));
    assert!(matches!(
        parse_line(&line("SET_PLAYLIST_IMAGE pl img")),
        Command::SetPlaylistImage { .. }
    ));
    assert!(matches!(
        parse_line(&line("SET_PLAYLIST_DESCRIPTION pl words")),
        Command::SetPlaylistDescription { .. }
    ));
    assert!(matches!(
        parse_line(&line("RENAME_PLAYLIST old new")),
        Command::RenamePlaylist { .. }
    ));
    assert!(matches!(parse_line(&line("REQUEST_USER_DATA")), Command::RequestUserData));
    assert!(matches!(parse_line(&line("UPDATE_USERDATA a b c")), Command::UpdateUserData));
    assert!(matches!(parse_line(&line("UPDATE_USERDATA a b")), Command::Invalid));
    assert!(matches!(parse_line(&line("CLOSE")), Command::Close));
}

#[test]
fn decimal_parse_accepts_digits_that_fit() {
    assert_eq!(parse_u64(&line("0")), Some(0));
    assert_eq!(parse_u64(&line("42")), Some(42));
    assert_eq!(parse_u64(&line("007")), Some(7));
    assert_eq!(parse_u64(&line("18446744073709551615")), Some(u64::MAX));
}

#[test]
fn decimal_parse_rejects_junk_and_overflow() {
    assert_eq!(parse_u64(&line("")), None);
    assert_eq!(parse_u64(&line("12a")), None);
    assert_eq!(parse_u64(&line("-1")), None);
    assert_eq!(parse_u64(&line("+1")), None);
    assert_eq!(parse_u64(&line("18446744073709551616")), None);
    assert_eq!(parse_u64(&line("99999999999999999999999")), None);
}

#[test]
fn decimal_print_has_no_leading_zeros() {
    assert_eq!(u64_to_dec(0), line("0"));
    assert_eq!(u64_to_dec(7), line("7"));
    assert_eq!(u64_to_dec(1234567890), line("1234567890"));
    assert_eq!(u64_to_dec(u64::MAX), line("18446744073709551615"));
}

#[test]
fn decimal_print_then_parse_round_trips() {
    for n in [0u64, 1, 9, 10, 99, 100, 4096, u64::MAX - 1, u64::MAX] {
        assert_eq!(parse_u64(&u64_to_dec(n)), Some(n));
    }
}
