//! The command router for authenticated sessions.
//!
//! Every authenticated inbound frame first passes admission control: a
//! banned identity's message is dropped outright, with no response and no
//! side effect; otherwise the identity is recorded in the rate limiter's
//! window and the frame is routed.  Relay verbs are echoed verbatim to
//! every session of the sender's identity; queue commands act on the
//! download queue here; catalog and playlist commands become store
//! requests that the caller performs, mapping the store's outcome to the
//! documented response token with `store_reply`.

use crate::block::BlockList;
use crate::command::flag_value;
use crate::command::parse_bool_flag;
use crate::command::parse_line;
use crate::command::parse_model;
use crate::command::CmdModel;
use crate::command::Command;
use crate::numbers::all_digits;
use crate::numbers::dec_val;
use crate::numbers::parse_u64;
use crate::numbers::u64_to_dec;
use crate::numbers::DIGIT_ZERO;
use crate::rate::RateLimiter;
use crate::registry::has_identity;
use crate::registry::AuthState;
use crate::registry::Registry;
use crate::songs::clone_bytes;
use crate::songs::concat_of;
use crate::songs::SongManager;
use vstd::prelude::*;

verus! {

/// A catalog or playlist operation for the identity store to perform.
pub enum StoreRequest {
    FindSong { title: Vec<u8>, uploader: Vec<u8>, date: Vec<u8> },
    RemoveSong { identity: u64, playlist: Vec<u8>, title: Vec<u8>, uploader: Vec<u8>, date: Vec<u8> },
    SongListShort,
    AddSong { identity: u64, playlist: Vec<u8>, title: Vec<u8>, uploader: Vec<u8>, date: Vec<u8> },
    AddSongHash { identity: u64, playlist: Vec<u8>, song_id: u64 },
    CreatePlaylist { identity: u64, name: Vec<u8>, public: bool },
    EditPlaylist { identity: u64, name: Vec<u8>, payload: Vec<u8> },
    RemovePlaylist { identity: u64, name: Vec<u8> },
    SetPlaylistImage { identity: u64, name: Vec<u8>, image: Vec<u8> },
    SetPlaylistDescription { identity: u64, name: Vec<u8>, description: Vec<u8> },
    RenamePlaylist { identity: u64, name: Vec<u8>, new_name: Vec<u8> },
    GetUserData { identity: u64 },
}

/// The mathematical shape of a store request.
pub enum StoreModel {
    FindSong { title: Seq<u8>, uploader: Seq<u8>, date: Seq<u8> },
    RemoveSong { identity: u64, playlist: Seq<u8>, title: Seq<u8>, uploader: Seq<u8>, date: Seq<u8> },
    SongListShort,
    AddSong { identity: u64, playlist: Seq<u8>, title: Seq<u8>, uploader: Seq<u8>, date: Seq<u8> },
    AddSongHash { identity: u64, playlist: Seq<u8>, song_id: u64 },
    CreatePlaylist { identity: u64, name: Seq<u8>, public: bool },
    EditPlaylist { identity: u64, name: Seq<u8>, payload: Seq<u8> },
    RemovePlaylist { identity: u64, name: Seq<u8> },
    SetPlaylistImage { identity: u64, name: Seq<u8>, image: Seq<u8> },
    SetPlaylistDescription { identity: u64, name: Seq<u8>, description: Seq<u8> },
    RenamePlaylist { identity: u64, name: Seq<u8>, new_name: Seq<u8> },
    GetUserData { identity: u64 },
}

impl View for StoreRequest {
    type V = StoreModel;

    open spec fn view(&self) -> StoreModel {
        match self {
            StoreRequest::FindSong { title, uploader, date } => StoreModel::FindSong {
                title: title@,
                uploader: uploader@,
                date: date@,
            },
            StoreRequest::RemoveSong { identity, playlist, title, uploader, date } => {
                StoreModel::RemoveSong {
                    identity: *identity,
                    playlist: playlist@,
                    title: title@,
                    uploader: uploader@,
                    date: date@,
                }
            },
            StoreRequest::SongListShort => StoreModel::SongListShort,
            StoreRequest::AddSong { identity, playlist, title, uploader, date } => {
                StoreModel::AddSong {
                    identity: *identity,
                    playlist: playlist@,
                    title: title@,
                    uploader: uploader@,
                    date: date@,
                }
            },
            StoreRequest::AddSongHash { identity, playlist, song_id } => StoreModel::AddSongHash {
                identity: *identity,
                playlist: playlist@,
                song_id: *song_id,
            },
            StoreRequest::CreatePlaylist { identity, name, public } => StoreModel::CreatePlaylist {
                identity: *identity,
                name: name@,
                public: *public,
            },
            StoreRequest::EditPlaylist { identity, name, payload } => StoreModel::EditPlaylist {
                identity: *identity,
                name: name@,
                payload: payload@,
            },
            StoreRequest::RemovePlaylist { identity, name } => StoreModel::RemovePlaylist {
                identity: *identity,
                name: name@,
            },
            StoreRequest::SetPlaylistImage { identity, name, image } => {
                StoreModel::SetPlaylistImage { identity: *identity, name: name@, image: image@ }
            },
            StoreRequest::SetPlaylistDescription { identity, name, description } => {
                StoreModel::SetPlaylistDescription {
                    identity: *identity,
                    name: name@,
                    description: description@,
                }
            },
            StoreRequest::RenamePlaylist { identity, name, new_name } => {
                StoreModel::RenamePlaylist {
                    identity: *identity,
                    name: name@,
                    new_name: new_name@,
                }
            },
            StoreRequest::GetUserData { identity } => StoreModel::GetUserData {
                identity: *identity,
            },
        }
    }
}

/// What routing one authenticated frame asks the caller to do.
pub enum Outcome {
    /// The sender is banned: no response, no side effect.
    Dropped,
    /// Send `line` unchanged to each of `recipients`.
    Relay { line: Vec<u8>, recipients: Vec<u64> },
    /// Send this single text response to the sender.
    Reply(Vec<u8>),
    /// Silence: unknown verb, bad arity, or a command with no response.
    NoReply,
    /// Perform this store operation, then answer with `store_reply`.
    Store(StoreRequest),
    /// The sender asked to disconnect: remove it from the registry.
    Close,
}

/// The mathematical shape of a routing outcome.
pub enum OutModel {
    Dropped,
    Relay { line: Seq<u8>, recipients: Seq<u64> },
    Reply(Seq<u8>),
    NoReply,
    Store(StoreModel),
    Close,
}

impl View for Outcome {
    type V = OutModel;

    open spec fn view(&self) -> OutModel {
        match self {
            Outcome::Dropped => OutModel::Dropped,
            Outcome::Relay { line, recipients } => OutModel::Relay {
                line: line@,
                recipients: recipients@,
            },
            Outcome::Reply(t) => OutModel::Reply(t@),
            Outcome::NoReply => OutModel::NoReply,
            Outcome::Store(s) => OutModel::Store(s@),
            Outcome::Close => OutModel::Close,
        }
    }
}

pub open spec fn tok_pong() -> Seq<u8> {
    seq![80u8, 79u8, 78u8, 71u8]
}

pub open spec fn tok_ok() -> Seq<u8> {
    seq![79u8, 75u8]
}

pub open spec fn tok_added_song() -> Seq<u8> {
    seq![65u8, 100u8, 100u8, 101u8, 100u8, 83u8, 111u8, 110u8, 103u8]
}

pub open spec fn tok_invalid_request() -> Seq<u8> {
    seq![73u8, 110u8, 118u8, 97u8, 108u8, 105u8, 100u8, 82u8, 101u8, 113u8, 117u8, 101u8, 115u8, 116u8]
}

pub open spec fn tok_expected_hash() -> Seq<u8> {
    seq![69u8, 120u8, 112u8, 101u8, 99u8, 116u8, 101u8, 100u8, 72u8, 97u8, 115u8, 104u8]
}

pub open spec fn tok_invalid_hash() -> Seq<u8> {
    seq![73u8, 110u8, 118u8, 97u8, 108u8, 105u8, 100u8, 72u8, 97u8, 115u8, 104u8]
}

pub open spec fn tok_could_not_be_found() -> Seq<u8> {
    seq![67u8, 111u8, 117u8, 108u8, 100u8, 78u8, 111u8, 116u8, 66u8, 101u8, 70u8, 111u8, 117u8, 110u8, 100u8]
}

pub open spec fn tok_could_not_find_song() -> Seq<u8> {
    seq![
        67u8,
        111u8,
        117u8,
        108u8,
        100u8,
        78u8,
        111u8,
        116u8,
        70u8,
        105u8,
        110u8,
        100u8,
        83u8,
        111u8,
        110u8,
        103u8,
    ]
}

pub open spec fn tok_invalid_description() -> Seq<u8> {
    seq![
        73u8,
        110u8,
        118u8,
        97u8,
        108u8,
        105u8,
        100u8,
        68u8,
        101u8,
        115u8,
        99u8,
        114u8,
        105u8,
        112u8,
        116u8,
        105u8,
        111u8,
        110u8,
    ]
}

fn pong_token() -> (r: Vec<u8>)
    ensures
        r@ == tok_pong(),
{
    let v = vec![80u8, 79u8, 78u8, 71u8];
    proof {
        assert(v@ =~= tok_pong());
    }
    v
}

fn ok_token() -> (r: Vec<u8>)
    ensures
        r@ == tok_ok(),
{
    let v = vec![79u8, 75u8];
    proof {
        assert(v@ =~= tok_ok());
    }
    v
}

fn added_song_token() -> (r: Vec<u8>)
    ensures
        r@ == tok_added_song(),
{
    let v = vec![65u8, 100u8, 100u8, 101u8, 100u8, 83u8, 111u8, 110u8, 103u8];
    proof {
        assert(v@ =~= tok_added_song());
    }
    v
}

fn invalid_request_token() -> (r: Vec<u8>)
    ensures
        r@ == tok_invalid_request(),
{
    let v = vec![
        73u8,
        110u8,
        118u8,
        97u8,
        108u8,
        105u8,
        100u8,
        82u8,
        101u8,
        113u8,
        117u8,
        101u8,
        115u8,
        116u8,
    ];
    proof {
        assert(v@ =~= tok_invalid_request());
    }
    v
}

fn expected_hash_token() -> (r: Vec<u8>)
    ensures
        r@ == tok_expected_hash(),
{
    let v = vec![69u8, 120u8, 112u8, 101u8, 99u8, 116u8, 101u8, 100u8, 72u8, 97u8, 115u8, 104u8];
    proof {
        assert(v@ =~= tok_expected_hash());
    }
    v
}

fn invalid_hash_token() -> (r: Vec<u8>)
    ensures
        r@ == tok_invalid_hash(),
{
    let v = vec![73u8, 110u8, 118u8, 97u8, 108u8, 105u8, 100u8, 72u8, 97u8, 115u8, 104u8];
    proof {
        assert(v@ =~= tok_invalid_hash());
    }
    v
}

fn could_not_be_found_token() -> (r: Vec<u8>)
    ensures
        r@ == tok_could_not_be_found(),
{
    let v = vec![
        67u8,
        111u8,
        117u8,
        108u8,
        100u8,
        78u8,
        111u8,
        116u8,
        66u8,
        101u8,
        70u8,
        111u8,
        117u8,
        110u8,
        100u8,
    ];
    proof {
        assert(v@ =~= tok_could_not_be_found());
    }
    v
}

fn could_not_find_song_token() -> (r: Vec<u8>)
    ensures
        r@ == tok_could_not_find_song(),
{
    let v = vec![
        67u8,
        111u8,
        117u8,
        108u8,
        100u8,
        78u8,
        111u8,
        116u8,
        70u8,
        105u8,
        110u8,
        100u8,
        83u8,
        111u8,
        110u8,
        103u8,
    ];
    proof {
        assert(v@ =~= tok_could_not_find_song());
    }
    v
}

fn invalid_description_token() -> (r: Vec<u8>)
    ensures
        r@ == tok_invalid_description(),
{
    let v = vec![
        73u8,
        110u8,
        118u8,
        97u8,
        108u8,
        105u8,
        100u8,
        68u8,
        101u8,
        115u8,
        99u8,
        114u8,
        105u8,
        112u8,
        116u8,
        105u8,
        111u8,
        110u8,
    ];
    proof {
        assert(v@ =~= tok_invalid_description());
    }
    v
}

/// A decimal digit string without a spurious leading zero.
pub open spec fn is_dec_repr(s: Seq<u8>, n: u64) -> bool {
    &&& s.len() > 0
    &&& all_digits(s)
    &&& dec_val(s) == n
    &&& (s.len() > 1 ==> s[0] != DIGIT_ZERO)
}

/// How one routed frame relates command, admission state, rate window,
/// download queue and outcome.
pub open spec fn route_post(
    reg: Map<u64, AuthState>,
    identity: u64,
    blocks: Map<u64, u64>,
    r0: RateLimiter,
    r1: RateLimiter,
    m0: SongManager,
    m1: SongManager,
    line: Seq<u8>,
    o: OutModel,
) -> bool {
    if blocks.contains_key(identity) {
        o is Dropped && r1 == r0 && m1 == m0
    } else {
        &&& r1.same_config(&r0)
        &&& (r0@.len() < r0.capacity() ==> r1@ == r0@.push(identity))
        &&& (r0@.len() >= r0.capacity() ==> r1@ == r0@)
        &&& m1.same_quota(&m0)
        &&& dispatch_post(reg, identity, m0, m1, line, o)
    }
}

/// How the parsed command determines the outcome and the queue change.
pub open spec fn dispatch_post(
    reg: Map<u64, AuthState>,
    identity: u64,
    m0: SongManager,
    m1: SongManager,
    line: Seq<u8>,
    o: OutModel,
) -> bool {
    match parse_model(line) {
        CmdModel::Relay => m1@ == m0@ && (o matches OutModel::Relay { line: l, recipients }
            && l == line && recipients.no_duplicates() && (forall|id: u64|
            #[trigger] recipients.contains(id) <==> (reg.contains_key(id) && has_identity(
                reg[id],
                identity,
            )))),
        CmdModel::Ping => m1@ == m0@ && o == OutModel::Reply(tok_pong()),
        CmdModel::Queue { url } => {
            if m0@.len() < m0.queue_limit() {
                m1@ == m0@.push(url) && o == OutModel::Reply(tok_added_song())
            } else {
                m1@ == m0@ && o == OutModel::Reply(tok_invalid_request())
            }
        },
        CmdModel::QueueList => m1@ == m0@ && o == OutModel::Reply(concat_of(m0@)),
        CmdModel::FindSong { title, uploader, date } => m1@ == m0@ && o == OutModel::Store(
            StoreModel::FindSong { title, uploader, date },
        ),
        CmdModel::RemoveSong { playlist, title, uploader, date } => m1@ == m0@ && o
            == OutModel::Store(
            StoreModel::RemoveSong { identity, playlist, title, uploader, date },
        ),
        CmdModel::SongListShort => m1@ == m0@ && o == OutModel::Store(StoreModel::SongListShort),
        CmdModel::AddSong { playlist, title, uploader, date } => m1@ == m0@ && o
            == OutModel::Store(StoreModel::AddSong { identity, playlist, title, uploader, date }),
        CmdModel::AddSongHash { playlist, song_id } => m1@ == m0@ && (if song_id.len() > 0
            && all_digits(song_id) && dec_val(song_id) <= u64::MAX {
            o == OutModel::Store(
                StoreModel::AddSongHash {
                    identity,
                    playlist,
                    song_id: dec_val(song_id) as u64,
                },
            )
        } else {
            o == OutModel::Reply(tok_expected_hash())
        }),
        CmdModel::MakePlaylist { name, public_flag } => m1@ == m0@ && (match flag_value(
            public_flag,
        ) {
            Some(b) => o == OutModel::Store(
                StoreModel::CreatePlaylist { identity, name, public: b },
            ),
            None => o == OutModel::Reply(tok_invalid_hash()),
        }),
        CmdModel::EditPlaylist { name, payload } => m1@ == m0@ && o == OutModel::Store(
            StoreModel::EditPlaylist { identity, name, payload },
        ),
        CmdModel::RemovePlaylist { name } => m1@ == m0@ && o == OutModel::Store(
            StoreModel::RemovePlaylist { identity, name },
        ),
        CmdModel::SetPlaylistImage { name, image } => m1@ == m0@ && o == OutModel::Store(
            StoreModel::SetPlaylistImage { identity, name, image },
        ),
        CmdModel::SetPlaylistDescription { name, description } => m1@ == m0@ && o
            == OutModel::Store(StoreModel::SetPlaylistDescription { identity, name, description }),
        CmdModel::RenamePlaylist { name, new_name } => m1@ == m0@ && o == OutModel::Store(
            StoreModel::RenamePlaylist { identity, name, new_name },
        ),
        CmdModel::RequestUserData => m1@ == m0@ && o == OutModel::Store(
            StoreModel::GetUserData { identity },
        ),
        CmdModel::UpdateUserData => m1@ == m0@ && o == OutModel::Reply(tok_ok()),
        CmdModel::Close => m1@ == m0@ && o is Close,
        CmdModel::Invalid => m1@ == m0@ && o is NoReply,
    }
}

/// Routes one frame from a session authenticated as `identity`.
pub fn handle_message(
    registry: &Registry,
    identity: u64,
    blocks: &BlockList,
    rate: &mut RateLimiter,
    manager: &mut SongManager,
    line: &Vec<u8>,
) -> (o: Outcome)
    requires
        registry.wf(),
    ensures
        route_post(
            registry@,
            identity,
            blocks@,
            *old(rate),
            *final(rate),
            *old(manager),
            *final(manager),
            line@,
            o@,
        ),
{
    if blocks.contains(identity) {
        return Outcome::Dropped;
    }
    rate.add(identity);
    let cmd = parse_line(line);
    match cmd {
        Command::Relay => {
            let recipients = registry.relay_targets(identity);
            Outcome::Relay { line: clone_bytes(line), recipients }
        },
        Command::Ping => Outcome::Reply(pong_token()),
        Command::Queue { url } => {
            match manager.request(url) {
                Ok(_) => Outcome::Reply(added_song_token()),
                Err(_) => Outcome::Reply(invalid_request_token()),
            }
        },
        Command::QueueList => Outcome::Reply(manager.list_queue()),
        Command::FindSong { title, uploader, date } => Outcome::Store(
            StoreRequest::FindSong { title, uploader, date },
        ),
        Command::RemoveSong { playlist, title, uploader, date } => Outcome::Store(
            StoreRequest::RemoveSong { identity, playlist, title, uploader, date },
        ),
        Command::SongListShort => Outcome::Store(StoreRequest::SongListShort),
        Command::AddSong { playlist, title, uploader, date } => Outcome::Store(
            StoreRequest::AddSong { identity, playlist, title, uploader, date },
        ),
        Command::AddSongHash { playlist, song_id } => {
            match parse_u64(&song_id) {
                Some(v) => Outcome::Store(
                    StoreRequest::AddSongHash { identity, playlist, song_id: v },
                ),
                None => Outcome::Reply(expected_hash_token()),
            }
        },
        Command::MakePlaylist { name, public_flag } => {
            match parse_bool_flag(&public_flag) {
                Some(b) => Outcome::Store(
                    StoreRequest::CreatePlaylist { identity, name, public: b },
                ),
                None => Outcome::Reply(invalid_hash_token()),
            }
        },
        Command::EditPlaylist { name, payload } => Outcome::Store(
            StoreRequest::EditPlaylist { identity, name, payload },
        ),
        Command::RemovePlaylist { name } => Outcome::Store(
            StoreRequest::RemovePlaylist { identity, name },
        ),
        Command::SetPlaylistImage { name, image } => Outcome::Store(
            StoreRequest::SetPlaylistImage { identity, name, image },
        ),
        Command::SetPlaylistDescription { name, description } => Outcome::Store(
            StoreRequest::SetPlaylistDescription { identity, name, description },
        ),
        Command::RenamePlaylist { name, new_name } => Outcome::Store(
            StoreRequest::RenamePlaylist { identity, name, new_name },
        ),
        Command::RequestUserData => Outcome::Store(StoreRequest::GetUserData { identity }),
        Command::UpdateUserData => Outcome::Reply(ok_token()),
        Command::Close => Outcome::Close,
        Command::Invalid => Outcome::NoReply,
    }
}

/// What the identity store answered to a request.
pub enum StoreOutcome {
    /// The operation succeeded and returns nothing.
    Done,
    /// A song lookup succeeded with this content-id.
    Found(u64),
    /// A data read succeeded with this serialized payload.
    Payload(Vec<u8>),
    /// The store failed or found nothing.
    Failed,
}

/// The response token for a store outcome, exactly as the command table
/// documents it: `None` is silence.
pub open spec fn reply_model(req: StoreModel, outcome_found: Option<u64>, ok: bool, payload: Option<
    Seq<u8>,
>, r: Option<Seq<u8>>) -> bool {
    match req {
        StoreModel::FindSong { .. } => (match outcome_found {
            Some(id) => r matches Some(t) && is_dec_repr(t, id),
            None => r is None,
        }),
        StoreModel::SongListShort { .. } => r == payload,
        StoreModel::GetUserData { .. } => r == payload,
        StoreModel::RemoveSong { .. } => r == Some(
            if ok {
                tok_ok()
            } else {
                tok_could_not_be_found()
            },
        ),
        StoreModel::AddSong { .. } => r == Some(
            if ok {
                tok_ok()
            } else {
                tok_could_not_find_song()
            },
        ),
        StoreModel::AddSongHash { .. } => r == Some(
            if ok {
                tok_ok()
            } else {
                tok_invalid_hash()
            },
        ),
        StoreModel::CreatePlaylist { .. } => r == Some(
            if ok {
                tok_ok()
            } else {
                tok_invalid_hash()
            },
        ),
        StoreModel::EditPlaylist { .. } => r == (if ok {
            Some(tok_ok())
        } else {
            None
        }),
        StoreModel::RemovePlaylist { .. } => r == Some(
            if ok {
                tok_ok()
            } else {
                tok_invalid_hash()
            },
        ),
        StoreModel::SetPlaylistImage { .. } => r == Some(
            if ok {
                tok_ok()
            } else {
                tok_invalid_hash()
            },
        ),
        StoreModel::SetPlaylistDescription { .. } => r == Some(
            if ok {
                tok_ok()
            } else {
                tok_invalid_description()
            },
        ),
        StoreModel::RenamePlaylist { .. } => r == Some(
            if ok {
                tok_ok()
            } else {
                tok_invalid_hash()
            },
        ),
    }
}

/// Maps a store outcome to the command's documented response token.
/// Store failures are soft: the token (or silence) goes back to the
/// sender and the session stays open.
pub fn store_reply(req: &StoreRequest, outcome: StoreOutcome) -> (r: Option<Vec<u8>>)
    ensures
        reply_model(
            req@,
            (match outcome {
                StoreOutcome::Found(id) => Some(id),
                _ => None,
            }),
            !(outcome is Failed),
            (match outcome {
                StoreOutcome::Payload(p) => Some(p@),
                _ => None::<Seq<u8>>,
            }),
            (match r {
                Some(t) => Some(t@),
                None => None,
            }),
        ),
{
    match req {
        StoreRequest::FindSong { .. } => {
            match outcome {
                StoreOutcome::Found(id) => Some(u64_to_dec(id)),
                _ => None,
            }
        },
        StoreRequest::SongListShort { .. } => {
            match outcome {
                StoreOutcome::Payload(p) => Some(p),
                _ => None,
            }
        },
        StoreRequest::GetUserData { .. } => {
            match outcome {
                StoreOutcome::Payload(p) => Some(p),
                _ => None,
            }
        },
        StoreRequest::RemoveSong { .. } => {
            match outcome {
                StoreOutcome::Failed => Some(could_not_be_found_token()),
                _ => Some(ok_token()),
            }
        },
        StoreRequest::AddSong { .. } => {
            match outcome {
                StoreOutcome::Failed => Some(could_not_find_song_token()),
                _ => Some(ok_token()),
            }
        },
        StoreRequest::AddSongHash { .. } => {
            match outcome {
                StoreOutcome::Failed => Some(invalid_hash_token()),
                _ => Some(ok_token()),
            }
        },
        StoreRequest::CreatePlaylist { .. } => {
            match outcome {
                StoreOutcome::Failed => Some(invalid_hash_token()),
                _ => Some(ok_token()),
            }
        },
        StoreRequest::EditPlaylist { .. } => {
            match outcome {
                StoreOutcome::Failed => None,
                _ => Some(ok_token()),
            }
        },
        StoreRequest::RemovePlaylist { .. } => {
            match outcome {
                StoreOutcome::Failed => Some(invalid_hash_token()),
                _ => Some(ok_token()),
            }
        },
        StoreRequest::SetPlaylistImage { .. } => {
            match outcome {
                StoreOutcome::Failed => Some(invalid_hash_token()),
                _ => Some(ok_token()),
            }
        },
        StoreRequest::SetPlaylistDescription { .. } => {
            match outcome {
                StoreOutcome::Failed => Some(invalid_description_token()),
                _ => Some(ok_token()),
            }
        },
        StoreRequest::RenamePlaylist { .. } => {
            match outcome {
                StoreOutcome::Failed => Some(invalid_hash_token()),
                _ => Some(ok_token()),
            }
        },
    }
}

/// Admission denial: while the sender's identity is banned, a routed
/// frame is dropped — no response, no relay, no rate-limiter or queue
/// change.
pub proof fn lemma_blocked_frames_dropped(
    reg: Map<u64, AuthState>,
    identity: u64,
    blocks: Map<u64, u64>,
    r0: RateLimiter,
    r1: RateLimiter,
    m0: SongManager,
    m1: SongManager,
    line: Seq<u8>,
    o: OutModel,
)
    requires
        route_post(reg, identity, blocks, r0, r1, m0, m1, line, o),
        blocks.contains_key(identity),
    ensures
        o is Dropped,
        r1 == r0,
        m1 == m0,
{
}

/// Relay delivery: a relay verb from an admitted sender with identity
/// `identity` is echoed as the incoming line, byte for byte, to exactly
/// the registered sessions authenticated as that identity — the sender's
/// own session among them — and to no other, each once.
pub proof fn lemma_relay_verbatim(
    reg: Map<u64, AuthState>,
    identity: u64,
    blocks: Map<u64, u64>,
    r0: RateLimiter,
    r1: RateLimiter,
    m0: SongManager,
    m1: SongManager,
    line: Seq<u8>,
    o: OutModel,
    sender: u64,
)
    requires
        route_post(reg, identity, blocks, r0, r1, m0, m1, line, o),
        !blocks.contains_key(identity),
        parse_model(line) is Relay,
        reg.contains_key(sender),
        has_identity(reg[sender], identity),
    ensures
        o matches OutModel::Relay { line: l, recipients } && l == line && recipients.contains(
            sender,
        ) && recipients.no_duplicates() && (forall|id: u64|
            #[trigger] recipients.contains(id) <==> (reg.contains_key(id) && has_identity(
                reg[id],
                identity,
            ))),
{
}

} // verus!

