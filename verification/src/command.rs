//! The text-command grammar.
//!
//! One frame holds one command: a verb, then space-delimited arguments.
//! Two commands take a raw trailing argument instead: `QUEUE`'s URL is the
//! whole trimmed remainder, and `EDIT_PLAYLIST`'s payload is everything
//! after the playlist name.  An unknown verb or a wrong argument count
//! parses to `Invalid`, which the router ignores without a response.

use crate::bytes::drop_spaces;
use crate::bytes::first_token;
use crate::bytes::lemma_drop_spaces_skip;
use crate::bytes::lemma_token_len_is;
use crate::bytes::lemma_tokens_head;
use crate::bytes::sub_bytes;
use crate::bytes::token_len;
use crate::bytes::tokenize;
use crate::bytes::tokens_of;
use crate::bytes::bytes_eq;
use crate::bytes::SPACE;
use crate::songs::clone_bytes;
use vstd::prelude::*;

verus! {

/// A parsed command line, with argument byte strings.
pub enum Command {
    /// One of the player-control verbs, echoed verbatim to all sessions
    /// of the sender's identity.
    Relay,
    Ping,
    Queue { url: Vec<u8> },
    QueueList,
    FindSong { title: Vec<u8>, uploader: Vec<u8>, date: Vec<u8> },
    RemoveSong { playlist: Vec<u8>, title: Vec<u8>, uploader: Vec<u8>, date: Vec<u8> },
    SongListShort,
    AddSong { playlist: Vec<u8>, title: Vec<u8>, uploader: Vec<u8>, date: Vec<u8> },
    AddSongHash { playlist: Vec<u8>, song_id: Vec<u8> },
    MakePlaylist { name: Vec<u8>, public_flag: Vec<u8> },
    EditPlaylist { name: Vec<u8>, payload: Vec<u8> },
    RemovePlaylist { name: Vec<u8> },
    SetPlaylistImage { name: Vec<u8>, image: Vec<u8> },
    SetPlaylistDescription { name: Vec<u8>, description: Vec<u8> },
    RenamePlaylist { name: Vec<u8>, new_name: Vec<u8> },
    RequestUserData,
    UpdateUserData,
    Close,
    Invalid,
}

/// The mathematical shape of a parsed command.
pub enum CmdModel {
    Relay,
    Ping,
    Queue { url: Seq<u8> },
    QueueList,
    FindSong { title: Seq<u8>, uploader: Seq<u8>, date: Seq<u8> },
    RemoveSong { playlist: Seq<u8>, title: Seq<u8>, uploader: Seq<u8>, date: Seq<u8> },
    SongListShort,
    AddSong { playlist: Seq<u8>, title: Seq<u8>, uploader: Seq<u8>, date: Seq<u8> },
    AddSongHash { playlist: Seq<u8>, song_id: Seq<u8> },
    MakePlaylist { name: Seq<u8>, public_flag: Seq<u8> },
    EditPlaylist { name: Seq<u8>, payload: Seq<u8> },
    RemovePlaylist { name: Seq<u8> },
    SetPlaylistImage { name: Seq<u8>, image: Seq<u8> },
    SetPlaylistDescription { name: Seq<u8>, description: Seq<u8> },
    RenamePlaylist { name: Seq<u8>, new_name: Seq<u8> },
    RequestUserData,
    UpdateUserData,
    Close,
    Invalid,
}

impl View for Command {
    type V = CmdModel;

    open spec fn view(&self) -> CmdModel {
        match self {
            Command::Relay => CmdModel::Relay,
            Command::Ping => CmdModel::Ping,
            Command::Queue { url } => CmdModel::Queue { url: url@ },
            Command::QueueList => CmdModel::QueueList,
            Command::FindSong { title, uploader, date } => CmdModel::FindSong {
                title: title@,
                uploader: uploader@,
                date: date@,
            },
            Command::RemoveSong { playlist, title, uploader, date } => CmdModel::RemoveSong {
                playlist: playlist@,
                title: title@,
                uploader: uploader@,
                date: date@,
            },
            Command::SongListShort => CmdModel::SongListShort,
            Command::AddSong { playlist, title, uploader, date } => CmdModel::AddSong {
                playlist: playlist@,
                title: title@,
                uploader: uploader@,
                date: date@,
            },
            Command::AddSongHash { playlist, song_id } => CmdModel::AddSongHash {
                playlist: playlist@,
                song_id: song_id@,
            },
            Command::MakePlaylist { name, public_flag } => CmdModel::MakePlaylist {
                name: name@,
                public_flag: public_flag@,
            },
            Command::EditPlaylist { name, payload } => CmdModel::EditPlaylist {
                name: name@,
                payload: payload@,
            },
            Command::RemovePlaylist { name } => CmdModel::RemovePlaylist { name: name@ },
            Command::SetPlaylistImage { name, image } => CmdModel::SetPlaylistImage {
                name: name@,
                image: image@,
            },
            Command::SetPlaylistDescription { name, description } => {
                CmdModel::SetPlaylistDescription { name: name@, description: description@ }
            },
            Command::RenamePlaylist { name, new_name } => CmdModel::RenamePlaylist {
                name: name@,
                new_name: new_name@,
            },
            Command::RequestUserData => CmdModel::RequestUserData,
            Command::UpdateUserData => CmdModel::UpdateUserData,
            Command::Close => CmdModel::Close,
            Command::Invalid => CmdModel::Invalid,
        }
    }
}

pub open spec fn verb_play() -> Seq<u8> {
    seq![80u8, 76u8, 65u8, 89u8]
}

pub open spec fn verb_pause() -> Seq<u8> {
    seq![80u8, 65u8, 85u8, 83u8, 69u8]
}

pub open spec fn verb_skip() -> Seq<u8> {
    seq![83u8, 75u8, 73u8, 80u8]
}

pub open spec fn verb_vol_up() -> Seq<u8> {
    seq![86u8, 79u8, 76u8, 95u8, 85u8, 80u8]
}

pub open spec fn verb_vol_down() -> Seq<u8> {
    seq![86u8, 79u8, 76u8, 95u8, 68u8, 79u8, 87u8, 78u8]
}

pub open spec fn verb_vol_set() -> Seq<u8> {
    seq![86u8, 79u8, 76u8, 95u8, 83u8, 69u8, 84u8]
}

/// Whether `v` is one of the player-control verbs that are relayed
/// verbatim to the sender's sibling sessions.
pub open spec fn is_relay_verb(v: Seq<u8>) -> bool {
    ||| v == verb_play()
    ||| v == verb_pause()
    ||| v == verb_skip()
    ||| v == verb_vol_up()
    ||| v == verb_vol_down()
    ||| v == verb_vol_set()
}

/// What the command line `line` parses to.
pub open spec fn parse_model(line: Seq<u8>) -> CmdModel {
    let verb = line.take(token_len(line) as int);
    let rest = line.skip(token_len(line) as int);
    let args = tokens_of(rest);
    if verb.len() == 0 {
        CmdModel::Invalid
    } else if is_relay_verb(verb) {
        CmdModel::Relay
    } else if verb == seq![80u8, 73u8, 78u8, 71u8] {
        CmdModel::Ping
    } else if verb == seq![81u8, 85u8, 69u8, 85u8, 69u8] {
        let url = drop_spaces(rest);
        if url.len() > 0 {
            CmdModel::Queue { url }
        } else {
            CmdModel::Invalid
        }
    } else if verb == seq![81u8, 85u8, 69u8, 85u8, 69u8, 95u8, 76u8, 73u8, 83u8, 84u8] {
        CmdModel::QueueList
    } else if verb == seq![70u8, 73u8, 78u8, 68u8, 95u8, 83u8, 79u8, 78u8, 71u8] {
        if args.len() == 3 {
            CmdModel::FindSong { title: args[0], uploader: args[1], date: args[2] }
        } else {
            CmdModel::Invalid
        }
    } else if verb == seq![82u8, 69u8, 77u8, 79u8, 86u8, 69u8, 95u8, 83u8, 79u8, 78u8, 71u8] {
        if args.len() == 4 {
            CmdModel::RemoveSong {
                playlist: args[0],
                title: args[1],
                uploader: args[2],
                date: args[3],
            }
        } else {
            CmdModel::Invalid
        }
    } else if verb == seq![
        83u8,
        79u8,
        78u8,
        71u8,
        95u8,
        76u8,
        73u8,
        83u8,
        84u8,
        95u8,
        83u8,
        72u8,
        79u8,
        82u8,
        84u8,
    ] {
        CmdModel::SongListShort
    } else if verb == seq![65u8, 68u8, 68u8, 95u8, 83u8, 79u8, 78u8, 71u8] {
        if args.len() == 4 {
            CmdModel::AddSong {
                playlist: args[0],
                title: args[1],
                uploader: args[2],
                date: args[3],
            }
        } else {
            CmdModel::Invalid
        }
    } else if verb == seq![
        65u8,
        68u8,
        68u8,
        95u8,
        83u8,
        79u8,
        78u8,
        71u8,
        95u8,
        72u8,
        65u8,
        83u8,
        72u8,
    ] {
        if args.len() == 2 {
            CmdModel::AddSongHash { playlist: args[0], song_id: args[1] }
        } else {
            CmdModel::Invalid
        }
    } else if verb == seq![
        77u8,
        65u8,
        75u8,
        69u8,
        95u8,
        80u8,
        76u8,
        65u8,
        89u8,
        76u8,
        73u8,
        83u8,
        84u8,
    ] {
        if args.len() == 2 {
            CmdModel::MakePlaylist { name: args[0], public_flag: args[1] }
        } else {
            CmdModel::Invalid
        }
    } else if verb == seq![
        69u8,
        68u8,
        73u8,
        84u8,
        95u8,
        80u8,
        76u8,
        65u8,
        89u8,
        76u8,
        73u8,
        83u8,
        84u8,
    ] {
        let name = first_token(rest);
        let payload = drop_spaces(drop_spaces(rest).skip(name.len() as int));
        if name.len() > 0 && payload.len() > 0 {
            CmdModel::EditPlaylist { name, payload }
        } else {
            CmdModel::Invalid
        }
    } else if verb == seq![
        82u8,
        69u8,
        77u8,
        79u8,
        86u8,
        69u8,
        95u8,
        80u8,
        76u8,
        65u8,
        89u8,
        76u8,
        73u8,
        83u8,
        84u8,
    ] {
        if args.len() == 1 {
            CmdModel::RemovePlaylist { name: args[0] }
        } else {
            CmdModel::Invalid
        }
    } else if verb == seq![
        83u8,
        69u8,
        84u8,
        95u8,
        80u8,
        76u8,
        65u8,
        89u8,
        76u8,
        73u8,
        83u8,
        84u8,
        95u8,
        73u8,
        77u8,
        65u8,
        71u8,
        69u8,
    ] {
        if args.len() == 2 {
            CmdModel::SetPlaylistImage { name: args[0], image: args[1] }
        } else {
            CmdModel::Invalid
        }
    } else if verb == seq![
        83u8,
        69u8,
        84u8,
        95u8,
        80u8,
        76u8,
        65u8,
        89u8,
        76u8,
        73u8,
        83u8,
        84u8,
        95u8,
        68u8,
        69u8,
        83u8,
        67u8,
        82u8,
        73u8,
        80u8,
        84u8,
        73u8,
        79u8,
        78u8,
    ] {
        if args.len() == 2 {
            CmdModel::SetPlaylistDescription { name: args[0], description: args[1] }
        } else {
            CmdModel::Invalid
        }
    } else if verb == seq![
        82u8,
        69u8,
        78u8,
        65u8,
        77u8,
        69u8,
        95u8,
        80u8,
        76u8,
        65u8,
        89u8,
        76u8,
        73u8,
        83u8,
        84u8,
    ] {
        if args.len() == 2 {
            CmdModel::RenamePlaylist { name: args[0], new_name: args[1] }
        } else {
            CmdModel::Invalid
        }
    } else if verb == seq![
        82u8,
        69u8,
        81u8,
        85u8,
        69u8,
        83u8,
        84u8,
        95u8,
        85u8,
        83u8,
        69u8,
        82u8,
        95u8,
        68u8,
        65u8,
        84u8,
        65u8,
    ] {
        CmdModel::RequestUserData
    } else if verb == seq![
        85u8,
        80u8,
        68u8,
        65u8,
        84u8,
        69u8,
        95u8,
        85u8,
        83u8,
        69u8,
        82u8,
        68u8,
        65u8,
        84u8,
        65u8,
    ] {
        if args.len() >= 3 {
            CmdModel::UpdateUserData
        } else {
            CmdModel::Invalid
        }
    } else if verb == seq![67u8, 76u8, 79u8, 83u8, 69u8] {
        CmdModel::Close
    } else {
        CmdModel::Invalid
    }
}

/// Parses one frame.
pub fn parse_line(line: &Vec<u8>) -> (r: Command)
    ensures
        r@ == parse_model(line@),
{
    let n = line.len();
    if n == 0 || line[0] == SPACE {
        return Command::Invalid;
    }
    let mut ve: usize = 1;
    while ve < n && line[ve] != SPACE
        invariant
            n == line@.len(),
            1 <= ve <= n,
            forall|k: int| 0 <= k < ve ==> line@[k] != SPACE,
        decreases n - ve,
    {
        ve += 1;
    }
    proof {
        lemma_token_len_is(line@, ve as int);
    }
    let verb = sub_bytes(line, 0, ve);
    proof {
        assert(verb@ =~= line@.take(token_len(line@) as int));
    }
    let ghost rest = line@.skip(token_len(line@) as int);
    let toks = tokenize(line);
    proof {
        assert(line@.skip(0) =~= line@);
        lemma_tokens_head(line@, 0, ve as int);
        assert(tokens_of(line@) == seq![line@.subrange(0, ve as int)] + tokens_of(rest));
        assert(line@.subrange(0, ve as int) =~= verb@);
        assert(toks@.len() == 1 + tokens_of(rest).len());
        assert forall|j: int| 1 <= j < toks@.len() implies toks@[j]@ == tokens_of(rest)[j - 1] by {
            assert(toks@[j]@ == tokens_of(line@)[j]);
            assert(tokens_of(line@)[j] == tokens_of(rest)[j - 1]);
        }
    }
    if is_relay(&verb) {
        Command::Relay
    } else if bytes_eq(&verb, &vec![80u8, 73u8, 78u8, 71u8]) {
        Command::Ping
    } else if bytes_eq(&verb, &vec![81u8, 85u8, 69u8, 85u8, 69u8]) {
        let mut us: usize = ve;
        while us < n && line[us] == SPACE
            invariant
                n == line@.len(),
                ve <= us <= n,
                forall|k: int| ve <= k < us ==> line@[k] == SPACE,
            decreases n - us,
        {
            us += 1;
        }
        proof {
            lemma_drop_spaces_skip(line@, ve as int, us as int);
        }
        if us == n {
            Command::Invalid
        } else {
            let url = sub_bytes(line, us, n);
            proof {
                assert(url@ =~= line@.skip(us as int));
            }
            Command::Queue { url }
        }
    } else if bytes_eq(&verb, &vec![81u8, 85u8, 69u8, 85u8, 69u8, 95u8, 76u8, 73u8, 83u8, 84u8]) {
        Command::QueueList
    } else if bytes_eq(&verb, &vec![70u8, 73u8, 78u8, 68u8, 95u8, 83u8, 79u8, 78u8, 71u8]) {
        if toks.len() == 4 {
            Command::FindSong {
                title: clone_bytes(&toks[1]),
                uploader: clone_bytes(&toks[2]),
                date: clone_bytes(&toks[3]),
            }
        } else {
            Command::Invalid
        }
    } else if bytes_eq(
        &verb,
        &vec![82u8, 69u8, 77u8, 79u8, 86u8, 69u8, 95u8, 83u8, 79u8, 78u8, 71u8],
    ) {
        if toks.len() == 5 {
            Command::RemoveSong {
                playlist: clone_bytes(&toks[1]),
                title: clone_bytes(&toks[2]),
                uploader: clone_bytes(&toks[3]),
                date: clone_bytes(&toks[4]),
            }
        } else {
            Command::Invalid
        }
    } else if bytes_eq(
        &verb,
        &vec![
            83u8,
            79u8,
            78u8,
            71u8,
            95u8,
            76u8,
            73u8,
            83u8,
            84u8,
            95u8,
            83u8,
            72u8,
            79u8,
            82u8,
            84u8,
        ],
    ) {
        Command::SongListShort
    } else if bytes_eq(&verb, &vec![65u8, 68u8, 68u8, 95u8, 83u8, 79u8, 78u8, 71u8]) {
        if toks.len() == 5 {
            Command::AddSong {
                playlist: clone_bytes(&toks[1]),
                title: clone_bytes(&toks[2]),
                uploader: clone_bytes(&toks[3]),
                date: clone_bytes(&toks[4]),
            }
        } else {
            Command::Invalid
        }
    } else if bytes_eq(
        &verb,
        &vec![65u8, 68u8, 68u8, 95u8, 83u8, 79u8, 78u8, 71u8, 95u8, 72u8, 65u8, 83u8, 72u8],
    ) {
        if toks.len() == 3 {
            Command::AddSongHash { playlist: clone_bytes(&toks[1]), song_id: clone_bytes(&toks[2]) }
        } else {
            Command::Invalid
        }
    } else if bytes_eq(
        &verb,
        &vec![77u8, 65u8, 75u8, 69u8, 95u8, 80u8, 76u8, 65u8, 89u8, 76u8, 73u8, 83u8, 84u8],
    ) {
        if toks.len() == 3 {
            Command::MakePlaylist {
                name: clone_bytes(&toks[1]),
                public_flag: clone_bytes(&toks[2]),
            }
        } else {
            Command::Invalid
        }
    } else if bytes_eq(
        &verb,
        &vec![69u8, 68u8, 73u8, 84u8, 95u8, 80u8, 76u8, 65u8, 89u8, 76u8, 73u8, 83u8, 84u8],
    ) {
        let mut us: usize = ve;
        while us < n && line[us] == SPACE
            invariant
                n == line@.len(),
                ve <= us <= n,
                forall|k: int| ve <= k < us ==> line@[k] == SPACE,
            decreases n - us,
        {
            us += 1;
        }
        proof {
            lemma_drop_spaces_skip(line@, ve as int, us as int);
        }
        if us == n {
            return Command::Invalid;
        }
        let mut ne: usize = us;
        while ne < n && line[ne] != SPACE
            invariant
                n == line@.len(),
                us <= ne <= n,
                forall|k: int| us <= k < ne ==> line@[k] != SPACE,
            decreases n - ne,
        {
            ne += 1;
        }
        let ghost trimmed = line@.skip(us as int);
        proof {
            assert(forall|k: int| 0 <= k < ne - us ==> trimmed[k] == line@[k + us] && trimmed[k]
                != SPACE);
            lemma_token_len_is(trimmed, ne - us as int);
            assert(first_token(rest) =~= line@.subrange(us as int, ne as int));
        }
        let name = sub_bytes(line, us, ne);
        let mut ps: usize = ne;
        while ps < n && line[ps] == SPACE
            invariant
                n == line@.len(),
                ne <= ps <= n,
                forall|k: int| ne <= k < ps ==> line@[k] == SPACE,
            decreases n - ps,
        {
            ps += 1;
        }
        proof {
            lemma_drop_spaces_skip(line@, ne as int, ps as int);
            assert(trimmed.skip(first_token(rest).len() as int) =~= line@.skip(ne as int));
        }
        if ps == n {
            return Command::Invalid;
        }
        let payload = sub_bytes(line, ps, n);
        proof {
            assert(payload@ =~= line@.skip(ps as int));
        }
        Command::EditPlaylist { name, payload }
    } else if bytes_eq(
        &verb,
        &vec![
            82u8,
            69u8,
            77u8,
            79u8,
            86u8,
            69u8,
            95u8,
            80u8,
            76u8,
            65u8,
            89u8,
            76u8,
            73u8,
            83u8,
            84u8,
        ],
    ) {
        if toks.len() == 2 {
            Command::RemovePlaylist { name: clone_bytes(&toks[1]) }
        } else {
            Command::Invalid
        }
    } else if bytes_eq(
        &verb,
        &vec![
            83u8,
            69u8,
            84u8,
            95u8,
            80u8,
            76u8,
            65u8,
            89u8,
            76u8,
            73u8,
            83u8,
            84u8,
            95u8,
            73u8,
            77u8,
            65u8,
            71u8,
            69u8,
        ],
    ) {
        if toks.len() == 3 {
            Command::SetPlaylistImage {
                name: clone_bytes(&toks[1]),
                image: clone_bytes(&toks[2]),
            }
        } else {
            Command::Invalid
        }
    } else if bytes_eq(
        &verb,
        &vec![
            83u8,
            69u8,
            84u8,
            95u8,
            80u8,
            76u8,
            65u8,
            89u8,
            76u8,
            73u8,
            83u8,
            84u8,
            95u8,
            68u8,
            69u8,
            83u8,
            67u8,
            82u8,
            73u8,
            80u8,
            84u8,
            73u8,
            79u8,
            78u8,
        ],
    ) {
        if toks.len() == 3 {
            Command::SetPlaylistDescription {
                name: clone_bytes(&toks[1]),
                description: clone_bytes(&toks[2]),
            }
        } else {
            Command::Invalid
        }
    } else if bytes_eq(
        &verb,
        &vec![
            82u8,
            69u8,
            78u8,
            65u8,
            77u8,
            69u8,
            95u8,
            80u8,
            76u8,
            65u8,
            89u8,
            76u8,
            73u8,
            83u8,
            84u8,
        ],
    ) {
        if toks.len() == 3 {
            Command::RenamePlaylist {
                name: clone_bytes(&toks[1]),
                new_name: clone_bytes(&toks[2]),
            }
        } else {
            Command::Invalid
        }
    } else if bytes_eq(
        &verb,
        &vec![
            82u8,
            69u8,
            81u8,
            85u8,
            69u8,
            83u8,
            84u8,
            95u8,
            85u8,
            83u8,
            69u8,
            82u8,
            95u8,
            68u8,
            65u8,
            84u8,
            65u8,
        ],
    ) {
        Command::RequestUserData
    } else if bytes_eq(
        &verb,
        &vec![
            85u8,
            80u8,
            68u8,
            65u8,
            84u8,
            69u8,
            95u8,
            85u8,
            83u8,
            69u8,
            82u8,
            68u8,
            65u8,
            84u8,
            65u8,
        ],
    ) {
        if toks.len() >= 4 {
            Command::UpdateUserData
        } else {
            Command::Invalid
        }
    } else if bytes_eq(&verb, &vec![67u8, 76u8, 79u8, 83u8, 69u8]) {
        Command::Close
    } else {
        Command::Invalid
    }
}

/// Whether `v` is one of the player-control verbs.
fn is_relay(v: &Vec<u8>) -> (r: bool)
    ensures
        r == is_relay_verb(v@),
{
    bytes_eq(v, &vec![80u8, 76u8, 65u8, 89u8]) || bytes_eq(v, &vec![80u8, 65u8, 85u8, 83u8, 69u8])
        || bytes_eq(v, &vec![83u8, 75u8, 73u8, 80u8]) || bytes_eq(
        v,
        &vec![86u8, 79u8, 76u8, 95u8, 85u8, 80u8],
    ) || bytes_eq(v, &vec![86u8, 79u8, 76u8, 95u8, 68u8, 79u8, 87u8, 78u8]) || bytes_eq(
        v,
        &vec![86u8, 79u8, 76u8, 95u8, 83u8, 69u8, 84u8],
    )
}

/// ASCII upper-case letters folded to lower case, all else unchanged.
pub open spec fn lower_byte(b: u8) -> u8 {
    if 65 <= b <= 90 {
        (b + 32) as u8
    } else {
        b
    }
}

pub open spec fn lowered(s: Seq<u8>) -> Seq<u8> {
    Seq::new(s.len(), |i: int| lower_byte(s[i]))
}

/// The boolean a `MAKE_PLAYLIST` visibility flag denotes: `true` or
/// `false` in any letter case; anything else is no flag at all.
pub open spec fn flag_value(s: Seq<u8>) -> Option<bool> {
    if lowered(s) == seq![116u8, 114u8, 117u8, 101u8] {
        Some(true)
    } else if lowered(s) == seq![102u8, 97u8, 108u8, 115u8, 101u8] {
        Some(false)
    } else {
        None
    }
}

/// Parses a case-insensitive `true` / `false` flag.
pub fn parse_bool_flag(s: &Vec<u8>) -> (r: Option<bool>)
    ensures
        r == flag_value(s@),
{
    let n = s.len();
    let mut lw: Vec<u8> = Vec::new();
    let mut i: usize = 0;
    while i < n
        invariant
            n == s@.len(),
            0 <= i <= n,
            lw@.len() == i,
            forall|k: int| 0 <= k < i ==> lw@[k] == lower_byte(s@[k]),
        decreases n - i,
    {
        let b = s[i];
        if 65 <= b && b <= 90 {
            lw.push(b + 32);
        } else {
            lw.push(b);
        }
        i += 1;
    }
    proof {
        assert(lw@ =~= lowered(s@));
    }
    if bytes_eq(&lw, &vec![116u8, 114u8, 117u8, 101u8]) {
        Some(true)
    } else if bytes_eq(&lw, &vec![102u8, 97u8, 108u8, 115u8, 101u8]) {
        Some(false)
    } else {
        proof {
            assert(lowered(s@) != seq![116u8, 114u8, 117u8, 101u8]);
            assert(lowered(s@) != seq![102u8, 97u8, 108u8, 115u8, 101u8]);
        }
        None
    }
}

} // verus!

