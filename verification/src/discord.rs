//! The rich-presence worker: a state machine that decides, message by
//! message, what the presence connection should do next.
//!
//! The worker itself performs no I/O. The surrounding program runs the
//! loop: it feeds messages in through [`RpcWorker::handle_message`], asks
//! [`RpcWorker::sync_discord`] for the next action — connect, clear, close,
//! or send an activity update — performs that action over the IPC
//! connection, and reports the outcome back. Every decision, including the
//! timestamp debounce that keeps the update rate below the rate limit, is
//! verified here.

use vstd::prelude::*;

use vstd::string::StrSliceExecFns;
use vstd::string::StringExecFns;

use crate::json::{dec_str, u64_to_string};
use crate::model::{MetadataPayload, PlayStatePayload, PlaybackStatus, TimelinePayload};

verus! {

/// Timestamps are refreshed only when they drift at least this far, in
/// milliseconds; rapid-fire updates get rate limited on the peer's side.
pub const TIMESTAMP_UPDATE_THRESHOLD_MS: i64 = 100;

/// After a failed connection attempt, this many sync rounds pass before
/// the next attempt.
pub const RECONNECT_COOLDOWN_SECONDS: u8 = 5;

/// A message for the presence worker.
pub enum RpcMessage {
    Metadata(MetadataPayload),
    PlayState(PlayStatePayload),
    Timeline(TimelinePayload),
    Enable,
    Disable,
}

/// What the worker currently knows about playback. Times in milliseconds.
pub struct ActivityData {
    pub metadata: MetadataPayload,
    pub status: PlaybackStatus,
    pub current_time: u64,
}

impl ActivityData {
    /// Fresh activity state for a newly announced track: paused at zero.
    pub fn from_metadata(metadata: MetadataPayload) -> (r: ActivityData)
        ensures
            r.metadata == metadata,
            r.status == PlaybackStatus::Paused,
            r.current_time == 0,
    {
        ActivityData { metadata, status: PlaybackStatus::Paused, current_time: 0 }
    }
}

/// A start/end timestamp pair, in milliseconds since the epoch.
#[derive(PartialEq, Eq, Structural, Clone, Copy, Debug)]
pub struct TimestampPair {
    pub start: i64,
    pub end: i64,
}

/// Everything one presence update carries; the surrounding program maps
/// this onto the IPC client's activity type.
pub struct ActivityUpdate {
    pub details: String,
    pub state_line: String,
    pub large_image: String,
    pub large_text: String,
    pub song_url: String,
    pub timestamps: Option<TimestampPair>,
}

/// What the loop must do next on the IPC connection.
pub enum PresenceAction {
    /// Close the connection.
    CloseClient,
    /// Remove the published activity.
    ClearActivity,
    /// Try to open the connection; report back through
    /// [`RpcWorker::on_connect_result`].
    AttemptConnect,
    /// Publish this activity; report failure through
    /// [`RpcWorker::on_update_result`].
    UpdateActivity(ActivityUpdate),
}

/// The prefix of a URL up to, and not including, its first `?`.
pub open spec fn before_query(u: Seq<char>) -> Seq<char>
    decreases u.len(),
{
    if u.len() == 0 {
        u
    } else if u[0] == '?' {
        Seq::empty()
    } else {
        seq![u[0]] + before_query(u.drop_first())
    }
}

/// A URL with a plain `http://` scheme upgraded to `https://`.
pub open spec fn https_of(u: Seq<char>) -> Seq<char> {
    if u.len() >= 7 && u.take(7) == "http://"@ {
        "https://"@ + u.skip(7)
    } else {
        u
    }
}

/// The large-image asset: a sized thumbnail of the cover, or the stock
/// icon when no cover URL is known.
pub open spec fn large_image_of(original_cover_url: Option<Seq<char>>) -> Seq<char> {
    match original_cover_url {
        None => "ncm_icon"@,
        Some(u) => before_query(https_of(u))
            + "?imageView&enlarge=1&type=jpeg&quality=90&thumbnail=150y150"@,
    }
}

/// The track link for the presence button.
pub open spec fn song_url_of(ncm_id: Option<u64>) -> Seq<char> {
    match ncm_id {
        None => "https://music.163.com/"@,
        Some(i) => "https://music.163.com/song?id="@ + dec_str(i as int),
    }
}

/// A scanned prefix without `?` that ends at `?` or at the end of the text
/// is exactly [`before_query`].
proof fn lemma_before_query_prefix(u: Seq<char>, i: int)
    requires
        0 <= i <= u.len(),
        forall|j: int| 0 <= j < i ==> u[j] != '?',
        i == u.len() || u[i] == '?',
    ensures
        before_query(u) == u.take(i),
    decreases u.len(),
{
    if u.len() == 0 {
        assert(before_query(u) =~= u.take(i));
    } else if u[0] == '?' {
        assert(i == 0);
        assert(before_query(u) =~= u.take(0));
    } else {
        assert(i >= 1);
        let v = u.drop_first();
        assert(forall|j: int| 0 <= j < i - 1 ==> #[trigger] v[j] == u[j + 1]);
        lemma_before_query_prefix(v, i - 1);
        assert(seq![u[0]] + v.take(i - 1) =~= u.take(i));
    }
}

/// The text up to, and not including, the first `?`.
fn take_before_query(s: &str) -> (r: String)
    ensures
        r@ == before_query(s@),
{
    let n = s.unicode_len();
    let mut r = String::new();
    let mut i: usize = 0;
    while i < n
        invariant
            n == s@.len(),
            i <= n,
            r@ == s@.take(i as int),
            forall|j: int| 0 <= j < i ==> s@[j] != '?',
        decreases n - i,
    {
        let c = s.get_char(i);
        if c == '?' {
            proof {
                lemma_before_query_prefix(s@, i as int);
            }
            return r;
        }
        r.push(c);
        proof {
            assert(r@ =~= s@.take(i + 1));
        }
        i = i + 1;
    }
    proof {
        lemma_before_query_prefix(s@, n as int);
    }
    r
}

/// A copy of `s` with a leading `http://` upgraded to `https://`.
fn upgrade_scheme(s: &str) -> (r: String)
    ensures
        r@ == https_of(s@),
{
    let n = s.unicode_len();
    if n >= 7 && s.get_char(0) == 'h' && s.get_char(1) == 't' && s.get_char(2) == 't' && s.get_char(
        3,
    ) == 'p' && s.get_char(4) == ':' && s.get_char(5) == '/' && s.get_char(6) == '/' {
        proof {
            reveal_strlit("http://");
            assert(s@.take(7) =~= "http://"@);
        }
        let rest = s.substring_char(7, n);
        let mut r = String::from_str("https://");
        r.append(rest);
        proof {
            assert(rest@ =~= s@.skip(7));
        }
        r
    } else {
        proof {
            reveal_strlit("http://");
            if s@.len() >= 7 && s@.take(7) == "http://"@ {
                assert(s@.take(7)[0] == 'h' && s@.take(7)[1] == 't' && s@.take(7)[2] == 't'
                    && s@.take(7)[3] == 'p' && s@.take(7)[4] == ':' && s@.take(7)[5] == '/'
                    && s@.take(7)[6] == '/');
            }
        }
        String::from_str(s)
    }
}

/// Build the presence update for the given track, with the timestamps the
/// caller decided on.
pub fn build_activity(metadata: &MetadataPayload, timestamps: Option<TimestampPair>) -> (r:
    ActivityUpdate)
    ensures
        r.details@ == metadata.song_name@,
        r.state_line@ == metadata.author_name@,
        r.large_text@ == metadata.album_name@,
        r.large_image@ == large_image_of(
            match metadata.original_cover_url {
                Some(u) => Some(u@),
                None => None,
            },
        ),
        r.song_url@ == song_url_of(metadata.ncm_id),
        r.timestamps == timestamps,
{
    let large_image = match &metadata.original_cover_url {
        None => String::from_str("ncm_icon"),
        Some(u) => {
            let upgraded = upgrade_scheme(u.as_str());
            let mut base = take_before_query(upgraded.as_str());
            base.append("?imageView&enlarge=1&type=jpeg&quality=90&thumbnail=150y150");
            base
        },
    };
    let song_url = match metadata.ncm_id {
        None => String::from_str("https://music.163.com/"),
        Some(i) => {
            let mut u = String::from_str("https://music.163.com/song?id=");
            let digits = u64_to_string(i);
            u.append(digits.as_str());
            u
        },
    };
    ActivityUpdate {
        details: metadata.song_name.clone(),
        state_line: metadata.author_name.clone(),
        large_image,
        large_text: metadata.album_name.clone(),
        song_url,
        timestamps,
    }
}

/// A millisecond count clamped into the signed range, as the session's
/// saturating casts produce.
pub open spec fn sat_i64(v: u64) -> int {
    if v <= i64::MAX as u64 {
        v as int
    } else {
        i64::MAX as int
    }
}

/// Where the running track ends on the shared clock: now plus whatever of
/// the track remains, clamped into the signed range.
pub open spec fn end_timestamp(now_ms: int, duration_ms: int, current_ms: int) -> int {
    let remaining = if duration_ms - current_ms > 0 {
        duration_ms - current_ms
    } else {
        0
    };
    if now_ms + remaining <= i64::MAX as int {
        now_ms + remaining
    } else {
        i64::MAX as int
    }
}

/// The presence worker's state. `connected` stands for the IPC client the
/// loop holds while the connection is open.
pub struct RpcWorker {
    pub connected: bool,
    pub data: Option<ActivityData>,
    pub is_enabled: bool,
    pub connect_retry_count: u8,
    /// The end timestamp last published, used to debounce updates and to
    /// know whether an activity is still published.
    pub last_sent_end_timestamp: Option<i64>,
}

/// What one update decision does, given the worker's data and the shared
/// clock: the connection fields and the data are untouched, and the
/// published timestamps and the returned action follow the playback state
/// exactly.
pub open spec fn update_decision(
    pre: RpcWorker,
    post: RpcWorker,
    r: Option<PresenceAction>,
    now_ms: int,
) -> bool {
    &&& post.connected == pre.connected
    &&& post.is_enabled == pre.is_enabled
    &&& post.connect_retry_count == pre.connect_retry_count
    &&& post.data == pre.data
    &&& pre.data matches Some(d) ==> {
        if d.status == PlaybackStatus::Paused {
            if pre.last_sent_end_timestamp is Some {
                &&& post.last_sent_end_timestamp is None
                &&& r == Some(PresenceAction::ClearActivity)
            } else {
                &&& post == pre
                &&& r is None
            }
        } else {
            match d.metadata.duration {
                Some(dur) => {
                    if dur > 0 {
                        let end = end_timestamp(
                            now_ms,
                            sat_i64(dur),
                            sat_i64(d.current_time),
                        );
                        let fresh = match pre.last_sent_end_timestamp {
                            Some(last) => (if last - end >= 0 {
                                last - end
                            } else {
                                end - last
                            }) >= TIMESTAMP_UPDATE_THRESHOLD_MS as int,
                            None => true,
                        };
                        if fresh {
                            &&& post.last_sent_end_timestamp == Some(end as i64)
                            &&& r matches Some(PresenceAction::UpdateActivity(u))
                                && activity_matches(u, d.metadata, Some(
                                TimestampPair {
                                    start: (end - sat_i64(dur)) as i64,
                                    end: end as i64,
                                },
                            ))
                        } else {
                            &&& post == pre
                            &&& r is None
                        }
                    } else {
                        &&& post.last_sent_end_timestamp is None
                        &&& if pre.last_sent_end_timestamp is Some {
                            r matches Some(PresenceAction::UpdateActivity(u))
                                && activity_matches(u, d.metadata, None)
                        } else {
                            r is None
                        }
                    }
                },
                None => {
                    &&& post.last_sent_end_timestamp is None
                    &&& if pre.last_sent_end_timestamp is Some {
                        r matches Some(PresenceAction::UpdateActivity(u))
                            && activity_matches(u, d.metadata, None)
                    } else {
                        r is None
                    }
                },
            }
        }
    }
}

impl RpcWorker {
    /// Published timestamps are never negative.
    pub open spec fn wf(self) -> bool {
        match self.last_sent_end_timestamp {
            Some(v) => v >= 0,
            None => true,
        }
    }

    /// A fresh worker: disabled, disconnected, knowing nothing.
    pub fn new() -> (r: RpcWorker)
        ensures
            r.wf(),
            !r.connected,
            r.data is None,
            !r.is_enabled,
            r.connect_retry_count == 0,
            r.last_sent_end_timestamp is None,
    {
        RpcWorker {
            connected: false,
            data: None,
            is_enabled: false,
            connect_retry_count: 0,
            last_sent_end_timestamp: None,
        }
    }

    /// Drop the connection state; the returned action tells the loop to
    /// close the client it holds, if any.
    pub fn disconnect(&mut self) -> (r: Option<PresenceAction>)
        ensures
            final(self).wf(),
            !final(self).connected,
            final(self).last_sent_end_timestamp is None,
            final(self).data == old(self).data,
            final(self).is_enabled == old(self).is_enabled,
            final(self).connect_retry_count == old(self).connect_retry_count,
            r == if old(self).connected {
                Some(PresenceAction::CloseClient)
            } else {
                None::<PresenceAction>
            },
    {
        let was_connected = self.connected;
        self.connected = false;
        self.last_sent_end_timestamp = None;
        if was_connected {
            Some(PresenceAction::CloseClient)
        } else {
            None
        }
    }

    /// Fold one message into the worker's state. Only `Disable` produces
    /// an immediate action (closing an open connection); everything else
    /// waits for the next sync round.
    pub fn handle_message(&mut self, msg: RpcMessage) -> (r: Option<PresenceAction>)
        requires
            old(self).wf(),
        ensures
            final(self).wf(),
            final(self).connect_retry_count == match msg {
                RpcMessage::Enable => 0u8,
                _ => old(self).connect_retry_count,
            },
            match msg {
                RpcMessage::Enable => {
                    &&& final(self).is_enabled
                    &&& final(self).connected == old(self).connected
                    &&& final(self).data == old(self).data
                    &&& final(self).last_sent_end_timestamp == old(self).last_sent_end_timestamp
                    &&& r is None
                },
                RpcMessage::Disable => {
                    &&& !final(self).is_enabled
                    &&& !final(self).connected
                    &&& final(self).last_sent_end_timestamp is None
                    &&& final(self).data == old(self).data
                    &&& r == if old(self).connected {
                        Some(PresenceAction::CloseClient)
                    } else {
                        None::<PresenceAction>
                    }
                },
                RpcMessage::Metadata(payload) => {
                    &&& final(self).data matches Some(d) && d.metadata == payload
                        && d.current_time == 0 && d.status == (match old(self).data {
                        Some(od) => od.status,
                        None => PlaybackStatus::Paused,
                    })
                    &&& final(self).last_sent_end_timestamp is None
                    &&& final(self).is_enabled == old(self).is_enabled
                    &&& final(self).connected == old(self).connected
                    &&& r is None
                },
                RpcMessage::PlayState(payload) => {
                    &&& match old(self).data {
                        Some(od) => {
                            &&& final(self).data matches Some(d) && d.metadata == od.metadata
                                && d.current_time == od.current_time && d.status == payload.status
                            &&& final(self).last_sent_end_timestamp == (
                            if payload.status == PlaybackStatus::Playing && od.status
                                != PlaybackStatus::Playing {
                                None::<i64>
                            } else {
                                old(self).last_sent_end_timestamp
                            })
                        },
                        None => final(self).data is None
                            && final(self).last_sent_end_timestamp == old(self).last_sent_end_timestamp,
                    }
                    &&& final(self).is_enabled == old(self).is_enabled
                    &&& final(self).connected == old(self).connected
                    &&& r is None
                },
                RpcMessage::Timeline(payload) => {
                    &&& match old(self).data {
                        Some(od) => final(self).data matches Some(d) && d.metadata == od.metadata
                            && d.status == od.status && d.current_time == payload.current_time,
                        None => final(self).data is None,
                    }
                    &&& final(self).last_sent_end_timestamp == old(self).last_sent_end_timestamp
                    &&& final(self).is_enabled == old(self).is_enabled
                    &&& final(self).connected == old(self).connected
                    &&& r is None
                },
            },
    {
        match msg {
            RpcMessage::Enable => {
                self.is_enabled = true;
                self.connect_retry_count = 0;
                None
            },
            RpcMessage::Disable => {
                self.is_enabled = false;
                self.disconnect()
            },
            RpcMessage::Metadata(payload) => {
                let new_data = match self.data.take() {
                    Some(mut d) => {
                        d.metadata = payload;
                        d.current_time = 0;
                        d
                    },
                    None => ActivityData::from_metadata(payload),
                };
                self.data = Some(new_data);
                self.last_sent_end_timestamp = None;
                None
            },
            RpcMessage::PlayState(payload) => {
                match &mut self.data {
                    Some(d) => {
                        if payload.status == PlaybackStatus::Playing && d.status
                            != PlaybackStatus::Playing {
                            self.last_sent_end_timestamp = None;
                        }
                        d.status = payload.status;
                    },
                    None => {
                    },
                }
                None
            },
            RpcMessage::Timeline(payload) => {
                match &mut self.data {
                    Some(d) => {
                        d.current_time = payload.current_time;
                    },
                    None => {
                    },
                }
                None
            },
        }
    }

    /// Record the outcome of an attempted connection: success arms a fresh
    /// timestamp, failure starts the reconnect cooldown.
    pub fn on_connect_result(&mut self, ok: bool)
        requires
            old(self).wf(),
        ensures
            final(self).wf(),
            final(self).data == old(self).data,
            final(self).is_enabled == old(self).is_enabled,
            ok ==> final(self).connected && final(self).last_sent_end_timestamp is None && final(self).connect_retry_count == old(self).connect_retry_count,
            !ok ==> final(self).connected == old(self).connected && final(self).connect_retry_count == RECONNECT_COOLDOWN_SECONDS && final(self).last_sent_end_timestamp == old(self).last_sent_end_timestamp,
    {
        if ok {
            self.connected = true;
            self.last_sent_end_timestamp = None;
        } else {
            self.connect_retry_count = RECONNECT_COOLDOWN_SECONDS;
        }
    }

    /// Record the outcome of a clear or update: failure drops the
    /// connection so the next round reconnects.
    pub fn on_update_result(&mut self, ok: bool) -> (r: Option<PresenceAction>)
        requires
            old(self).wf(),
        ensures
            final(self).wf(),
            final(self).data == old(self).data,
            final(self).is_enabled == old(self).is_enabled,
            ok ==> *final(self) == *old(self) && r is None,
            !ok ==> !final(self).connected && final(self).last_sent_end_timestamp is None && r
                == if old(self).connected {
                Some(PresenceAction::CloseClient)
            } else {
                None::<PresenceAction>
            },
    {
        if ok {
            None
        } else {
            self.disconnect()
        }
    }

    /// Decide the update for a known track on an open connection, and
    /// debounce the published timestamps.
    ///
    /// A paused track takes its activity down once (the peer's progress
    /// bar cannot be paused, only removed). A playing track with a known
    /// positive duration publishes start and end timestamps, but only when
    /// they drift from the last published pair by at least the threshold;
    /// without a known duration the activity is published exactly when
    /// timestamps must be retracted.
    pub fn perform_update(&mut self, now_ms: i64) -> (r: Option<PresenceAction>)
        requires
            old(self).wf(),
            old(self).data is Some,
            now_ms >= 0,
        ensures
            final(self).wf(),
            update_decision(*old(self), *final(self), r, now_ms as int),
    {
        let paused = match &self.data {
            Some(d) => match d.status {
                PlaybackStatus::Paused => true,
                PlaybackStatus::Playing => false,
            },
            None => vstd::pervasive::unreached(),
        };
        if paused {
            if self.last_sent_end_timestamp.is_some() {
                self.last_sent_end_timestamp = None;
                return Some(PresenceAction::ClearActivity);
            }
            return None;
        }
        let (duration, current_time) = match &self.data {
            Some(d) => (d.metadata.duration, d.current_time),
            None => vstd::pervasive::unreached(),
        };
        match duration {
            Some(dur) if dur > 0 => {
                let duration_ms: i64 = if dur <= i64::MAX as u64 {
                    dur as i64
                } else {
                    i64::MAX
                };
                let current_ms: i64 = if current_time <= i64::MAX as u64 {
                    current_time as i64
                } else {
                    i64::MAX
                };
                let remaining: i64 = if duration_ms - current_ms > 0 {
                    duration_ms - current_ms
                } else {
                    0
                };
                let end: i64 = if remaining <= i64::MAX - now_ms {
                    now_ms + remaining
                } else {
                    i64::MAX
                };
                let start: i64 = end - duration_ms;
                let fresh = match self.last_sent_end_timestamp {
                    Some(last) => {
                        let diff = if last - end >= 0 {
                            last - end
                        } else {
                            end - last
                        };
                        diff >= TIMESTAMP_UPDATE_THRESHOLD_MS
                    },
                    None => true,
                };
                if fresh {
                    self.last_sent_end_timestamp = Some(end);
                    let upd = match &self.data {
                        Some(d) => build_activity(
                            &d.metadata,
                            Some(TimestampPair { start, end }),
                        ),
                        None => vstd::pervasive::unreached(),
                    };
                    Some(PresenceAction::UpdateActivity(upd))
                } else {
                    None
                }
            },
            _ => {
                let had = self.last_sent_end_timestamp.is_some();
                self.last_sent_end_timestamp = None;
                if had {
                    let upd = match &self.data {
                        Some(d) => build_activity(&d.metadata, None),
                        None => vstd::pervasive::unreached(),
                    };
                    Some(PresenceAction::UpdateActivity(upd))
                } else {
                    None
                }
            },
        }
    }

    /// One round of the sync loop: bring the connection in line with the
    /// worker's state and hand the loop its next action.
    pub fn sync_discord(&mut self, now_ms: i64) -> (r: Option<PresenceAction>)
        requires
            old(self).wf(),
            now_ms >= 0,
        ensures
            final(self).wf(),
            final(self).data == old(self).data,
            final(self).is_enabled == old(self).is_enabled,
            !old(self).is_enabled ==> {
                &&& !final(self).connected
                &&& r == if old(self).connected {
                    Some(PresenceAction::CloseClient)
                } else {
                    None::<PresenceAction>
                }
            },
            old(self).is_enabled && old(self).data is None ==> {
                &&& final(self).connected == old(self).connected
                &&& if old(self).connected {
                    r == Some(PresenceAction::ClearActivity) && final(self).last_sent_end_timestamp is None
                } else {
                    r is None && *final(self) == *old(self)
                }
            },
            old(self).is_enabled && old(self).data is Some && !old(self).connected ==> {
                &&& final(self).connected == old(self).connected
                &&& if old(self).connect_retry_count > 0 {
                    final(self).connect_retry_count as int == old(self).connect_retry_count - 1
                        && r is None
                } else {
                    r == Some(PresenceAction::AttemptConnect) && final(self).connect_retry_count
                        == 0
                }
            },
            old(self).is_enabled && old(self).data is Some && old(self).connected
                ==> update_decision(*old(self), *final(self), r, now_ms as int),
    {
        if !self.is_enabled {
            if self.connected {
                return self.disconnect();
            }
            return None;
        }
        let has_data = self.data.is_some();
        if !has_data {
            if self.connected {
                self.last_sent_end_timestamp = None;
                return Some(PresenceAction::ClearActivity);
            }
            return None;
        }
        if !self.connected {
            if self.connect_retry_count > 0 {
                self.connect_retry_count = self.connect_retry_count - 1;
                return None;
            }
            return Some(PresenceAction::AttemptConnect);
        }
        self.perform_update(now_ms)
    }
}

/// `u` is the presence update for this track with these timestamps.
pub open spec fn activity_matches(
    u: ActivityUpdate,
    metadata: MetadataPayload,
    timestamps: Option<TimestampPair>,
) -> bool {
    &&& u.details@ == metadata.song_name@
    &&& u.state_line@ == metadata.author_name@
    &&& u.large_text@ == metadata.album_name@
    &&& u.large_image@ == large_image_of(
        match metadata.original_cover_url {
            Some(v) => Some(v@),
            None => None,
        },
    )
    &&& u.song_url@ == song_url_of(metadata.ncm_id)
    &&& u.timestamps == timestamps
}

/// Turn presence reporting on; the next sync round connects.
pub fn enable(worker: &mut RpcWorker) -> (r: Option<PresenceAction>)
    requires
        old(worker).wf(),
    ensures
        final(worker).wf(),
        final(worker).is_enabled,
        final(worker).connect_retry_count == 0,
        final(worker).data == old(worker).data,
        final(worker).connected == old(worker).connected,
        r is None,
{
    worker.handle_message(RpcMessage::Enable)
}

/// Turn presence reporting off and drop any open connection.
pub fn disable(worker: &mut RpcWorker) -> (r: Option<PresenceAction>)
    requires
        old(worker).wf(),
    ensures
        final(worker).wf(),
        !final(worker).is_enabled,
        !final(worker).connected,
        final(worker).data == old(worker).data,
        r == if old(worker).connected {
            Some(PresenceAction::CloseClient)
        } else {
            None::<PresenceAction>
        },
{
    worker.handle_message(RpcMessage::Disable)
}

/// Announce a new track.
pub fn update_metadata(worker: &mut RpcWorker, payload: MetadataPayload) -> (r: Option<
    PresenceAction,
>)
    requires
        old(worker).wf(),
    ensures
        final(worker).wf(),
        final(worker).data matches Some(d) && d.metadata == payload && d.current_time == 0,
        final(worker).last_sent_end_timestamp is None,
        r is None,
{
    worker.handle_message(RpcMessage::Metadata(payload))
}

/// Announce a play/pause transition.
pub fn update_play_state(worker: &mut RpcWorker, payload: PlayStatePayload) -> (r: Option<
    PresenceAction,
>)
    requires
        old(worker).wf(),
    ensures
        final(worker).wf(),
        old(worker).data matches Some(od) ==> (final(worker).data matches Some(d) && d.status
            == payload.status),
        old(worker).data is None ==> final(worker).data is None,
        r is None,
{
    worker.handle_message(RpcMessage::PlayState(payload))
}

/// Announce a seek or progress report.
pub fn update_timeline(worker: &mut RpcWorker, payload: TimelinePayload) -> (r: Option<
    PresenceAction,
>)
    requires
        old(worker).wf(),
    ensures
        final(worker).wf(),
        old(worker).data matches Some(od) ==> (final(worker).data matches Some(d) && d.current_time
            == payload.current_time),
        old(worker).data is None ==> final(worker).data is None,
        r is None,
{
    worker.handle_message(RpcMessage::Timeline(payload))
}

} // verus!
