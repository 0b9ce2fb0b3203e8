//! Download queue manager.
//!
//! `QUEUE` appends a source URL to a bounded FIFO.  A periodic cycle pops
//! at most one URL, has the media resolver look it up, rejects multi-item
//! or untitled results and oversized files, and hands back a download job
//! naming the cache file by the track's content-id.  The resolver call,
//! the fetch process and the catalog insert are the caller's I/O; every
//! decision between them is made here.

use crate::bytes::views_of;
use crate::hashing::hash_bytes;
use crate::hashing::sea_hash_of;
use vstd::prelude::*;

verus! {

/// Why a resolver result yields no track.
#[derive(Clone, Copy, PartialEq, Eq, Structural, Debug)]
pub enum SongError {
    NotSingleVideo,
    UnableToDownload,
}

impl SongError {
    /// A human-readable account of the error.
    pub fn message(&self) -> (r: &'static str)
        ensures
            self is NotSingleVideo ==> r@ == "Expected single video link! not playlist"@,
            self is UnableToDownload ==> r@ == "Unable to download due to network error"@,
    {
        match self {
            SongError::NotSingleVideo => "Expected single video link! not playlist",
            SongError::UnableToDownload => "Unable to download due to network error",
        }
    }
}

/// Why the queue manager refuses a request or abandons a job.
#[derive(Clone, Copy, PartialEq, Eq, Structural, Debug)]
pub enum SongManagerError {
    RateLimitYtdlCall,
    RateLimitBandwidthMB,
    MaxFileSizeLimit,
    QueueLimit,
    InvalidSong,
    FailedToDownload,
}

impl SongManagerError {
    /// A human-readable account of the error.
    pub fn message(&self) -> (r: &'static str)
        ensures
            self is RateLimitYtdlCall ==> r@ == "Hourly resolver call limit reached"@,
            self is RateLimitBandwidthMB ==> r@ == "Hourly bandwidth limit reached"@,
            self is QueueLimit ==> r@ == "Queue limit reached"@,
            self is MaxFileSizeLimit ==> r@ == "Max file size limit reached"@,
            self is FailedToDownload ==> r@ == "Failed to download song from url"@,
            self is InvalidSong ==> r@ == "Provided with invalid song"@,
    {
        match self {
            SongManagerError::RateLimitYtdlCall => "Hourly resolver call limit reached",
            SongManagerError::RateLimitBandwidthMB => "Hourly bandwidth limit reached",
            SongManagerError::MaxFileSizeLimit => "Max file size limit reached",
            SongManagerError::QueueLimit => "Queue limit reached",
            SongManagerError::InvalidSong => "Provided with invalid song",
            SongManagerError::FailedToDownload => "Failed to download song from url",
        }
    }
}

/// Metadata of a single resolved track, as the media resolver reports it.
/// Sizes are in kilobytes.
pub struct TrackInfo {
    pub title: Option<Vec<u8>>,
    pub upload_date: Option<Vec<u8>>,
    pub uploader: Option<Vec<u8>>,
    pub url: Option<Vec<u8>>,
    pub genre: Option<Vec<u8>>,
    pub thumbnail: Option<Vec<u8>>,
    pub album: Option<Vec<u8>>,
    pub album_artist: Option<Vec<u8>>,
    pub artist: Option<Vec<u8>>,
    pub creator: Option<Vec<u8>>,
    pub filesize: Option<i64>,
}

/// What the media resolver produced for a URL.
pub enum ResolveOutcome {
    Single(TrackInfo),
    MultiItem,
    Failed,
}

/// A track as the catalog stores it.
pub struct Song {
    pub id: Option<u64>,
    pub title: Option<Vec<u8>>,
    pub upload_date: Option<Vec<u8>>,
    pub uploader: Option<Vec<u8>>,
    pub url: Option<Vec<u8>>,
    pub genre: Option<Vec<u8>>,
    pub thumbnail: Option<Vec<u8>>,
    pub album: Option<Vec<u8>>,
    pub album_artist: Option<Vec<u8>>,
    pub artist: Option<Vec<u8>>,
    pub creator: Option<Vec<u8>>,
    pub filesize: Option<i64>,
    pub downloaded: bool,
}

pub open spec fn opt_bytes(o: Option<Vec<u8>>) -> Seq<u8> {
    match o {
        Some(v) => v@,
        None => Seq::empty(),
    }
}

/// The string a track's content-id is derived from:
/// title, uploader and upload date, separated by `|`.
pub open spec fn content_key(title: Seq<u8>, uploader: Seq<u8>, date: Seq<u8>) -> Seq<u8> {
    title + seq![124u8] + uploader + seq![124u8] + date
}

/// A track's content-id: the hash of its content key.
pub open spec fn content_id_of(title: Seq<u8>, uploader: Seq<u8>, date: Seq<u8>) -> u64 {
    sea_hash_of(content_key(title, uploader, date))
}

/// Copies a byte string.
pub fn clone_bytes(v: &Vec<u8>) -> (r: Vec<u8>)
    ensures
        r@ == v@,
{
    let r = v.clone();
    proof {
        assert(r@ =~= v@);
    }
    r
}

impl Song {
    /// Classifies a resolver outcome: only a single-item result becomes a
    /// song, carrying the resolved metadata and its derived content-id.
    pub fn new(outcome: ResolveOutcome) -> (r: Result<Song, SongError>)
        ensures
            outcome matches ResolveOutcome::Failed ==> r == Err::<Song, SongError>(
                SongError::UnableToDownload,
            ),
            outcome matches ResolveOutcome::MultiItem ==> r == Err::<Song, SongError>(
                SongError::NotSingleVideo,
            ),
            outcome matches ResolveOutcome::Single(t) ==> r matches Ok(s) && s == (Song {
                id: Some(
                    content_id_of(
                        opt_bytes(t.title),
                        opt_bytes(t.uploader),
                        opt_bytes(t.upload_date),
                    ),
                ),
                title: t.title,
                upload_date: t.upload_date,
                uploader: t.uploader,
                url: t.url,
                genre: t.genre,
                thumbnail: t.thumbnail,
                album: t.album,
                album_artist: t.album_artist,
                artist: t.artist,
                creator: t.creator,
                filesize: t.filesize,
                downloaded: false,
            }),
    {
        match outcome {
            ResolveOutcome::Failed => Err(SongError::UnableToDownload),
            ResolveOutcome::MultiItem => Err(SongError::NotSingleVideo),
            ResolveOutcome::Single(t) => {
                let mut key: Vec<u8> = Vec::new();
                if let Some(title) = &t.title {
                    key.append(&mut clone_bytes(title));
                }
                key.push(124);
                if let Some(uploader) = &t.uploader {
                    key.append(&mut clone_bytes(uploader));
                }
                key.push(124);
                if let Some(date) = &t.upload_date {
                    key.append(&mut clone_bytes(date));
                }
                proof {
                    assert(key@ =~= content_key(
                        opt_bytes(t.title),
                        opt_bytes(t.uploader),
                        opt_bytes(t.upload_date),
                    ));
                }
                let id = hash_bytes(key.as_slice());
                Ok(
                    Song {
                        id: Some(id),
                        title: t.title,
                        upload_date: t.upload_date,
                        uploader: t.uploader,
                        url: t.url,
                        genre: t.genre,
                        thumbnail: t.thumbnail,
                        album: t.album,
                        album_artist: t.album_artist,
                        artist: t.artist,
                        creator: t.creator,
                        filesize: t.filesize,
                        downloaded: false,
                    },
                )
            },
        }
    }
}

/// A track whose title is missing or empty is not accepted.
pub open spec fn title_invalid(s: Song) -> bool {
    match s.title {
        Some(t) => t@.len() == 0,
        None => true,
    }
}

/// Whether a resolved size breaks the configured cap.  A missing cap or a
/// missing size allows the download; a nonsensical negative size does not.
pub open spec fn size_exceeded(max_kb: Option<u64>, filesize: Option<i64>) -> bool {
    match (max_kb, filesize) {
        (Some(m), Some(f)) => f < 0 || f > m,
        _ => false,
    }
}

/// One resolved track on its way into the cache: the fetch destination
/// name (its content-id) and source, and the song to persist afterwards.
pub struct DownloadJob {
    pub dest_name: u64,
    pub source: Vec<u8>,
    pub song: Song,
}

impl DownloadJob {
    /// Settles the job once the external fetch has exited: on success the
    /// song is marked downloaded and is ready to persist; on failure the
    /// job is abandoned, never re-queued.
    pub fn finish(self, fetch_ok: bool) -> (r: Result<Song, SongManagerError>)
        ensures
            fetch_ok ==> (r matches Ok(s) && s == (Song { downloaded: true, ..self.song })),
            !fetch_ok ==> r == Err::<Song, SongManagerError>(SongManagerError::FailedToDownload),
    {
        if fetch_ok {
            let mut song = self.song;
            song.downloaded = true;
            Ok(song)
        } else {
            Err(SongManagerError::FailedToDownload)
        }
    }
}

/// What one queue cycle asks its caller to do next.
pub enum CycleAction {
    /// A quota stops the whole cycle; nothing was taken from the queue.
    Abort(SongManagerError),
    /// The queue is empty; nothing to do.
    Idle,
    /// Resolve this URL and come back with the outcome.
    Resolve(Vec<u8>),
}

/// Bounded FIFO of pending source URLs with hourly quota tracking.
/// The bandwidth counter is carried and checked but nothing in the core
/// ever charges it, and neither hourly counter is reset; both stand as
/// configured knobs whose intended reset policy is an open question.
pub struct SongManager {
    download_queue: Vec<Vec<u8>>,
    queue_limit: usize,
    calls_made: u64,
    hourly_call_max: Option<u64>,
    bandwidth_used_kb: u64,
    bandwidth_max_kb: Option<u64>,
    max_file_size_kb: Option<u64>,
}

impl View for SongManager {
    type V = Seq<Seq<u8>>;

    closed spec fn view(&self) -> Seq<Seq<u8>> {
        views_of(self.download_queue@)
    }
}

impl SongManager {
    pub closed spec fn queue_limit(&self) -> usize {
        self.queue_limit
    }

    pub closed spec fn calls_made(&self) -> u64 {
        self.calls_made
    }

    pub closed spec fn call_max(&self) -> Option<u64> {
        self.hourly_call_max
    }

    pub closed spec fn bandwidth_used_kb(&self) -> u64 {
        self.bandwidth_used_kb
    }

    pub closed spec fn bandwidth_max_kb(&self) -> Option<u64> {
        self.bandwidth_max_kb
    }

    pub closed spec fn max_file_size_kb(&self) -> Option<u64> {
        self.max_file_size_kb
    }

    /// The pending list never outgrows its capacity.
    pub open spec fn wf(&self) -> bool {
        self@.len() <= self.queue_limit()
    }

    /// Same capacity, quota configuration, and counters.
    pub open spec fn same_quota(&self, other: &SongManager) -> bool {
        &&& self.queue_limit() == other.queue_limit()
        &&& self.calls_made() == other.calls_made()
        &&& self.call_max() == other.call_max()
        &&& self.bandwidth_used_kb() == other.bandwidth_used_kb()
        &&& self.bandwidth_max_kb() == other.bandwidth_max_kb()
        &&& self.max_file_size_kb() == other.max_file_size_kb()
    }

    /// The hourly bandwidth quota is spent.
    pub open spec fn bandwidth_exceeded(&self) -> bool {
        self.bandwidth_max_kb() matches Some(m) && self.bandwidth_used_kb() > m
    }

    /// The hourly resolver-call quota is spent.
    pub open spec fn calls_exceeded(&self) -> bool {
        self.call_max() matches Some(m) && self.calls_made() >= m
    }

    /// Limits given in megabytes are kept in kilobytes.
    pub fn new(
        hourly_ytdl_call_max: Option<u64>,
        hourly_bandwidth_limit_mb: Option<u64>,
        max_file_size_mb: Option<u64>,
        queue_limit: usize,
    ) -> (r: SongManager)
        requires
            hourly_bandwidth_limit_mb matches Some(m) ==> m <= u64::MAX / 1024,
            max_file_size_mb matches Some(m) ==> m <= u64::MAX / 1024,
        ensures
            r.wf(),
            r@ == Seq::<Seq<u8>>::empty(),
            r.queue_limit() == queue_limit,
            r.calls_made() == 0,
            r.call_max() == hourly_ytdl_call_max,
            r.bandwidth_used_kb() == 0,
            r.bandwidth_max_kb() == (match hourly_bandwidth_limit_mb {
                Some(m) => Some((m * 1024) as u64),
                None => None::<u64>,
            }),
            r.max_file_size_kb() == (match max_file_size_mb {
                Some(m) => Some((m * 1024) as u64),
                None => None::<u64>,
            }),
    {
        let bandwidth_max_kb = match hourly_bandwidth_limit_mb {
            Some(m) => Some(m * 1024),
            None => None,
        };
        let max_file_size_kb = match max_file_size_mb {
            Some(m) => Some(m * 1024),
            None => None,
        };
        let r = SongManager {
            download_queue: Vec::new(),
            queue_limit,
            calls_made: 0,
            hourly_call_max: hourly_ytdl_call_max,
            bandwidth_used_kb: 0,
            bandwidth_max_kb,
            max_file_size_kb,
        };
        proof {
            assert(r@ =~= Seq::<Seq<u8>>::empty());
        }
        r
    }

    /// How many resolver calls this hour has already charged.
    pub fn calls_so_far(&self) -> (r: u64)
        ensures
            r == self.calls_made(),
    {
        self.calls_made
    }

    /// Accepts a URL into the queue while there is room; a full queue
    /// refuses it with `QueueLimit` and changes nothing.
    pub fn request(&mut self, url: Vec<u8>) -> (r: Result<(), SongManagerError>)
        ensures
            final(self).wf() == old(self).wf(),
            final(self).same_quota(old(self)),
            old(self)@.len() < old(self).queue_limit() ==> (r matches Ok(_) && final(self)@
                == old(self)@.push(url@)),
            old(self)@.len() >= old(self).queue_limit() ==> r == Err::<(), SongManagerError>(
                SongManagerError::QueueLimit,
            ) && final(self)@ == old(self)@,
    {
        if self.download_queue.len() < self.queue_limit {
            let ghost prev = self.download_queue@;
            self.download_queue.push(url);
            proof {
                assert(views_of(self.download_queue@) =~= views_of(prev).push(
                    self.download_queue@.last()@,
                ));
            }
            Ok(())
        } else {
            Err(SongManagerError::QueueLimit)
        }
    }

    /// Empties the queue (administrative use).
    pub fn _clear_queue(&mut self)
        ensures
            final(self).wf(),
            final(self).same_quota(old(self)),
            final(self)@ == Seq::<Seq<u8>>::empty(),
    {
        self.download_queue.clear();
        proof {
            assert(views_of(self.download_queue@) =~= Seq::<Seq<u8>>::empty());
        }
    }

    /// The pending URLs, concatenated in order.
    pub fn list_queue(&self) -> (r: Vec<u8>)
        ensures
            r@ == concat_of(self@),
    {
        let n = self.download_queue.len();
        let mut out: Vec<u8> = Vec::new();
        let mut i: usize = 0;
        proof {
            assert(self@.take(0) =~= Seq::<Seq<u8>>::empty());
        }
        while i < n
            invariant
                n == self.download_queue@.len(),
                n == self@.len(),
                0 <= i <= n,
                out@ == concat_of(self@.take(i as int)),
            decreases n - i,
        {
            proof {
                assert(self@.take(i + 1).drop_last() =~= self@.take(i as int));
                assert(self@.take(i + 1).last() == self@[i as int]);
                assert(self@[i as int] == self.download_queue@[i as int]@);
            }
            let url = &self.download_queue[i];
            let mut piece = clone_bytes(url);
            out.append(&mut piece);
            i += 1;
        }
        proof {
            assert(self@.take(n as int) =~= self@);
        }
        out
    }

    /// Starts one cycle: a spent quota aborts it; otherwise the oldest
    /// pending URL (if any) leaves the queue and is handed back to be
    /// resolved.  At most one URL leaves per cycle, success or not.
    pub fn cycle_begin(&mut self) -> (r: CycleAction)
        ensures
            old(self).wf() ==> final(self).wf(),
            final(self).same_quota(old(self)),
            old(self).bandwidth_exceeded() ==> (r matches CycleAction::Abort(e) && e
                == SongManagerError::RateLimitBandwidthMB && final(self)@ == old(self)@),
            !old(self).bandwidth_exceeded() && old(self).calls_exceeded() ==> (r matches
                CycleAction::Abort(e) && e == SongManagerError::RateLimitYtdlCall && final(self)@
                == old(self)@),
            !old(self).bandwidth_exceeded() && !old(self).calls_exceeded() && old(self)@.len() == 0
                ==> r is Idle && final(self)@ == old(self)@,
            !old(self).bandwidth_exceeded() && !old(self).calls_exceeded() && old(self)@.len() > 0
                ==> (r matches CycleAction::Resolve(u) && u@ == old(self)@[0] && final(self)@
                == old(self)@.drop_first()),
    {
        if let Some(m) = self.bandwidth_max_kb {
            if self.bandwidth_used_kb > m {
                return CycleAction::Abort(SongManagerError::RateLimitBandwidthMB);
            }
        }
        if let Some(m) = self.hourly_call_max {
            if self.calls_made >= m {
                return CycleAction::Abort(SongManagerError::RateLimitYtdlCall);
            }
        }
        if self.download_queue.len() == 0 {
            return CycleAction::Idle;
        }
        let ghost prev = self.download_queue@;
        let url = self.download_queue.remove(0);
        proof {
            assert(views_of(self.download_queue@) =~= views_of(prev).drop_first());
            assert(url@ == views_of(prev)[0]);
        }
        CycleAction::Resolve(url)
    }

    /// Takes the classified resolver result for the URL this cycle popped.
    /// Multi-item and failed resolutions, missing or empty titles, and
    /// incomplete metadata are rejected as invalid; a size over the cap is
    /// rejected without downloading.  One resolver call is charged as soon
    /// as a titled track is seen.  The queue itself is left alone.
    pub fn on_resolved(&mut self, resolved: Result<Song, SongError>) -> (r: Result<
        DownloadJob,
        SongManagerError,
    >)
        requires
            old(self).calls_made() < u64::MAX,
        ensures
            final(self)@ == old(self)@,
            final(self).queue_limit() == old(self).queue_limit(),
            final(self).call_max() == old(self).call_max(),
            final(self).bandwidth_used_kb() == old(self).bandwidth_used_kb(),
            final(self).bandwidth_max_kb() == old(self).bandwidth_max_kb(),
            final(self).max_file_size_kb() == old(self).max_file_size_kb(),
            resolved matches Err(_) ==> r == Err::<DownloadJob, SongManagerError>(
                SongManagerError::InvalidSong,
            ) && final(self).calls_made() == old(self).calls_made(),
            resolved matches Ok(s) && title_invalid(s) ==> r == Err::<
                DownloadJob,
                SongManagerError,
            >(SongManagerError::InvalidSong) && final(self).calls_made() == old(self).calls_made(),
            resolved matches Ok(s) && !title_invalid(s) ==> final(self).calls_made() == old(
                self,
            ).calls_made() + 1,
            resolved matches Ok(s) && !title_invalid(s) && size_exceeded(
                old(self).max_file_size_kb(),
                s.filesize,
            ) ==> r == Err::<DownloadJob, SongManagerError>(SongManagerError::MaxFileSizeLimit),
            resolved matches Ok(s) && !title_invalid(s) && !size_exceeded(
                old(self).max_file_size_kb(),
                s.filesize,
            ) && (s.id is None || s.url is None) ==> r == Err::<DownloadJob, SongManagerError>(
                SongManagerError::InvalidSong,
            ),
            resolved matches Ok(s) ==> ((!title_invalid(s) && !size_exceeded(
                old(self).max_file_size_kb(),
                s.filesize,
            ) && s.id is Some && s.url is Some) ==> (r matches Ok(job) && job.dest_name
                == s.id.unwrap() && job.source@ == s.url.unwrap()@ && job.song == s)),
    {
        let song = match resolved {
            Ok(s) => s,
            Err(_) => {
                return Err(SongManagerError::InvalidSong);
            },
        };
        let title_ok = match &song.title {
            Some(t) => t.len() > 0,
            None => false,
        };
        if !title_ok {
            return Err(SongManagerError::InvalidSong);
        }
        self.calls_made = self.calls_made + 1;
        if let Some(max_kb) = self.max_file_size_kb {
            if let Some(fs) = song.filesize {
                if fs < 0 || fs as u64 > max_kb {
                    return Err(SongManagerError::MaxFileSizeLimit);
                }
            }
        }
        let dest_name = match song.id {
            Some(id) => id,
            None => {
                return Err(SongManagerError::InvalidSong);
            },
        };
        let source = match &song.url {
            Some(u) => clone_bytes(u),
            None => {
                return Err(SongManagerError::InvalidSong);
            },
        };
        Ok(DownloadJob { dest_name, source, song })
    }
}

/// The byte strings of `q`, concatenated in order.
pub open spec fn concat_of(q: Seq<Seq<u8>>) -> Seq<u8>
    decreases q.len(),
{
    if q.len() == 0 {
        Seq::empty()
    } else {
        concat_of(q.drop_last()) + q.last()
    }
}

} // verus!
