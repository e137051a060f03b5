//! The media-session core: the event side (relaying transport-control
//! events to the registered scripting callback) and the command side
//! (turning commands from the scripting side into session state changes
//! and media-session actions).
//!
//! The operating-system media session itself is driven by the surrounding
//! program; this module decides, with proofs, exactly which action each
//! command produces and exactly which JSON text each event carries.

use vstd::prelude::*;

use vstd::string::StringExecFns;

use crate::base::CefRefPtr;
use crate::discord::RpcWorker;
use crate::error::CefResult;
use crate::json::{dec_str, u64_to_string};
use crate::model::{
    CommandResult,
    CommandStatus,
    CoverSource,
    MetadataPayload,
    PlaybackStatus,
    RepeatMode,
    SmtcCommand,
};
use crate::registry::{
    ctx_live_after_clear,
    dispatch_posted,
    occ,
    pair_releasable,
    pair_released,
    CallbackRegistry,
};
use crate::runtime::Runtime;

verus! {

/// A transport-control event relayed to the scripting side.
#[derive(PartialEq, Eq, Structural, Clone, Copy, Debug)]
pub enum SmtcEvent {
    Play,
    Pause,
    Stop,
    NextSong,
    PreviousSong,
    ToggleShuffle,
    ToggleRepeat,
    Seek { position_ms: u64 },
}

/// The JSON text an event is serialized to: a tagged object, with the
/// seek position in milliseconds where one exists.
pub open spec fn smtc_event_json_spec(e: SmtcEvent) -> Seq<char> {
    match e {
        SmtcEvent::Play => "{\"type\":\"Play\"}"@,
        SmtcEvent::Pause => "{\"type\":\"Pause\"}"@,
        SmtcEvent::Stop => "{\"type\":\"Stop\"}"@,
        SmtcEvent::NextSong => "{\"type\":\"NextSong\"}"@,
        SmtcEvent::PreviousSong => "{\"type\":\"PreviousSong\"}"@,
        SmtcEvent::ToggleShuffle => "{\"type\":\"ToggleShuffle\"}"@,
        SmtcEvent::ToggleRepeat => "{\"type\":\"ToggleRepeat\"}"@,
        SmtcEvent::Seek { position_ms } => "{\"type\":\"Seek\",\"position_ms\":"@ + dec_str(
            position_ms as int,
        ) + "}"@,
    }
}

impl SmtcEvent {
    /// Serialize this event, exactly [`smtc_event_json_spec`].
    pub fn to_json(&self) -> (r: String)
        ensures
            r@ == smtc_event_json_spec(*self),
    {
        match self {
            SmtcEvent::Play => String::from_str("{\"type\":\"Play\"}"),
            SmtcEvent::Pause => String::from_str("{\"type\":\"Pause\"}"),
            SmtcEvent::Stop => String::from_str("{\"type\":\"Stop\"}"),
            SmtcEvent::NextSong => String::from_str("{\"type\":\"NextSong\"}"),
            SmtcEvent::PreviousSong => String::from_str("{\"type\":\"PreviousSong\"}"),
            SmtcEvent::ToggleShuffle => String::from_str("{\"type\":\"ToggleShuffle\"}"),
            SmtcEvent::ToggleRepeat => String::from_str("{\"type\":\"ToggleRepeat\"}"),
            SmtcEvent::Seek { position_ms } => {
                let mut r = String::from_str("{\"type\":\"Seek\",\"position_ms\":");
                let digits = u64_to_string(*position_ms);
                r.append(digits.as_str());
                r.append("}");
                proof {
                    assert(r@ =~= smtc_event_json_spec(*self));
                }
                r
            },
        }
    }
}

/// The transport-control button codes the media session reports, in the
/// order its own enumeration declares them.
pub open spec fn button_event(button: i32) -> Option<SmtcEvent> {
    if button == 0 {
        Some(SmtcEvent::Play)
    } else if button == 1 {
        Some(SmtcEvent::Pause)
    } else if button == 2 {
        Some(SmtcEvent::Stop)
    } else if button == 6 {
        Some(SmtcEvent::NextSong)
    } else if button == 7 {
        Some(SmtcEvent::PreviousSong)
    } else {
        None
    }
}

/// Which event a pressed transport-control button maps to; buttons the
/// session does not handle map to none.
pub fn event_for_button(button: i32) -> (r: Option<SmtcEvent>)
    ensures
        r == button_event(button),
{
    if button == 0 {
        Some(SmtcEvent::Play)
    } else if button == 1 {
        Some(SmtcEvent::Pause)
    } else if button == 2 {
        Some(SmtcEvent::Stop)
    } else if button == 6 {
        Some(SmtcEvent::NextSong)
    } else if button == 7 {
        Some(SmtcEvent::PreviousSong)
    } else {
        None
    }
}

/// How the cover image is to be produced for the media-session display.
pub enum CoverPlan {
    /// Show no cover.
    Clear,
    /// Show this already-decoded image.
    Bytes(Vec<u8>),
    /// Fetch the image from this URL first.
    Download(String),
}

/// What a successful standard-alphabet base64 decode of the given text
/// yields; the bytes depend on the text alone.
pub uninterp spec fn base64_decoded(s: Seq<char>) -> Seq<u8>;

#[verifier::external_type_specification]
#[verifier::external_body]
pub struct ExDecodeError(base64::DecodeError);

/// Relies on base64's `Engine::decode` with the standard-alphabet engine:
/// on success it returns the decoded bytes, a function of the input text
/// alone.
#[verifier::external_body]
fn decode_base64(s: &str) -> (r: Result<Vec<u8>, base64::DecodeError>)
    ensures
        r matches Ok(b) ==> b@ == base64_decoded(s@),
{
    base64::Engine::decode(&base64::engine::general_purpose::STANDARD, s)
}

/// Decide how the cover will be shown: nothing when none was provided,
/// the decoded bytes for valid inline data — invalid data degrades to no
/// cover — and a download for a URL.
pub fn cover_plan(cover: Option<CoverSource>) -> (r: CoverPlan)
    ensures
        match cover {
            None => r is Clear,
            Some(CoverSource::Base64(data)) => match r {
                CoverPlan::Bytes(b) => b@ == base64_decoded(data@),
                CoverPlan::Clear => true,
                CoverPlan::Download(_) => false,
            },
            Some(CoverSource::Url(u)) => r matches CoverPlan::Download(x) && x@ == u@,
        },
{
    match cover {
        None => CoverPlan::Clear,
        Some(CoverSource::Base64(data)) => match decode_base64(data.as_str()) {
            Ok(bytes) => CoverPlan::Bytes(bytes),
            Err(_) => CoverPlan::Clear,
        },
        Some(CoverSource::Url(url)) => CoverPlan::Download(url),
    }
}

/// The repeat behaviour the media session is asked to adopt.
#[derive(PartialEq, Eq, Structural, Clone, Copy, Debug)]
pub enum RepeatSetting {
    Disabled,
    RepeatTrack,
    RepeatList,
}

/// How a scripting-side repeat mode maps onto the session's setting: the
/// smart-playlist mode has no session equivalent and disables repeat.
pub open spec fn repeat_setting_of(mode: RepeatMode) -> RepeatSetting {
    match mode {
        RepeatMode::Track => RepeatSetting::RepeatTrack,
        RepeatMode::List => RepeatSetting::RepeatList,
        RepeatMode::Off => RepeatSetting::Disabled,
        RepeatMode::AI => RepeatSetting::Disabled,
    }
}

/// One hundred-nanosecond unit count per millisecond, the media session's
/// time base.
pub const HNS_PER_MILLISECOND: u64 = 10000;

/// A millisecond count in hundred-nanosecond units, clamped into the
/// signed range exactly as a saturating cast would.
pub open spec fn hns_of_ms(ms: u64) -> int {
    if ms * 10000 <= i64::MAX as int {
        ms * 10000
    } else {
        i64::MAX as int
    }
}

/// Timeline properties for the media session, in hundred-nanosecond units
/// starting at zero.
pub struct TimelineProperties {
    pub start_hns: i64,
    pub position_hns: i64,
    pub end_hns: i64,
}

/// Metadata for the media-session display: the text fields, the catalog
/// genre tag when a positive track id is known, and the cover plan.
pub struct MetadataAction {
    pub title: String,
    pub artist: String,
    pub album: String,
    pub genre: Option<String>,
    pub cover: CoverPlan,
}

/// One action for the surrounding program to perform on the operating
/// system's media session.
pub enum SmtcAction {
    SetPlaybackStatus(PlaybackStatus),
    SetTimeline(TimelineProperties),
    SetShuffle(bool),
    SetRepeat(RepeatSetting),
    SetEnabled(bool),
    SetMetadata(MetadataAction),
}

/// The state of one initialized media session: the registered event
/// callback, whether the session is enabled, and a generation counter
/// that advances whenever a new cover fetch supersedes the previous one.
pub struct SmtcSession {
    pub callback: CallbackRegistry,
    pub enabled: bool,
    pub cover_generation: u64,
}

/// The session slot: empty until initialized, cleared again on shutdown.
pub struct SmtcState {
    pub session: Option<SmtcSession>,
}

impl SmtcState {
    /// The slot of the session's registry, or empty when no session is
    /// initialized.
    pub open spec fn slot(self) -> Option<crate::registry::RegisteredCallback> {
        match self.session {
            Some(s) => s.callback.slot,
            None => None,
        }
    }

    /// Not yet initialized.
    pub fn new() -> (r: SmtcState)
        ensures
            r.session is None,
    {
        SmtcState { session: None }
    }
}

/// Set the session up: any previous session's registration is released,
/// and a fresh, disabled session with an empty callback slot takes its
/// place. The surrounding program attaches the transport-control handlers
/// and starts the presence worker.
pub fn initialize(state: &mut SmtcState, rt: &mut Runtime)
    requires
        old(rt).wf(),
        pair_releasable(*old(rt), old(state).slot()),
    ensures
        final(rt).wf(),
        final(state).session matches Some(s) && s.callback.slot is None && !s.enabled
            && s.cover_generation == 0,
        Runtime::same_admin(*old(rt), *final(rt)),
        final(rt).tasks == old(rt).tasks,
        pair_released(*old(rt), *final(rt), old(state).slot()),
{
    match &mut state.session {
        Some(s) => {
            s.callback.clear_callback(rt);
        },
        None => {
        },
    }
    state.session = Some(
        SmtcSession { callback: CallbackRegistry::new(), enabled: false, cover_generation: 0 },
    );
}

/// Register the scripting callback for transport-control events. Without
/// an initialized session the reference behind the pointer is given back
/// and nothing is stored.
pub fn register_event_callback(state: &mut SmtcState, rt: &mut Runtime, v8_func_ptr: Option<
    usize,
>) -> (r: CefResult<()>)
    requires
        old(rt).wf(),
        pair_releasable(*old(rt), old(state).slot()),
        match v8_func_ptr {
            Some(f) => {
                &&& (f as int) < old(rt).n_objects()
                &&& old(rt).obj(f as int).ref_count as int >= 1 + occ(old(state).slot(), f as int)
                &&& old(rt).obj(f as int).release_calls as int + occ(old(state).slot(), f as int)
                    < u64::MAX as int
            },
            None => true,
        },
        match old(rt).current_context {
            Some(c) => old(rt).obj(c as int).add_ref_calls < u64::MAX && old(rt).obj(
                c as int,
            ).ref_count < u64::MAX,
            None => true,
        },
    ensures
        final(rt).wf(),
        old(state).session is None ==> {
            &&& final(state).session is None
            &&& match v8_func_ptr {
                Some(f) => Runtime::obj_released(*old(rt), *final(rt), f as int),
                None => *final(rt) == *old(rt),
            }
        },
        old(state).session matches Some(s0) ==> {
            &&& final(state).session matches Some(s1) && s1.enabled == s0.enabled
                && s1.cover_generation == s0.cover_generation
            &&& match v8_func_ptr {
                Some(f) => if ctx_live_after_clear(*old(rt), old(state).slot()) {
                    r is Ok && (final(state).slot() matches Some(cb) && cb.v8_function.id as int
                        == f as int && cb.v8_context.id as int == old(rt).current_id())
                } else {
                    (r matches Err(e) && e is NoCurrentV8Context) && final(state).slot() is None
                },
                None => (r matches Err(e) && e is NullPtrReceived) && final(state).slot() is None,
            }
        },
{
    match &mut state.session {
        Some(s) => s.callback.register_callback(rt, v8_func_ptr),
        None => {
            match CefRefPtr::from_raw(v8_func_ptr) {
                Ok(h) => {
                    h.release(rt);
                    Ok(())
                },
                Err(e) => Err(e),
            }
        },
    }
}

/// Remove the registered event callback, if any; idempotent, and a no-op
/// without an initialized session.
pub fn clear_callback(state: &mut SmtcState, rt: &mut Runtime)
    requires
        old(rt).wf(),
        pair_releasable(*old(rt), old(state).slot()),
    ensures
        final(rt).wf(),
        final(state).slot() is None,
        Runtime::same_admin(*old(rt), *final(rt)),
        final(rt).tasks == old(rt).tasks,
        pair_released(*old(rt), *final(rt), old(state).slot()),
        old(state).session is None ==> final(state).session is None,
        old(state).session matches Some(s0) ==> (final(state).session matches Some(s1)
            && s1.enabled == s0.enabled && s1.cover_generation == s0.cover_generation),
{
    match &mut state.session {
        Some(s) => {
            s.callback.clear_callback(rt);
        },
        None => {
        },
    }
}

/// Tear the session down: release its registration, drop it, and turn
/// presence reporting off. The returned action closes the presence
/// connection when one is open.
pub fn shutdown(state: &mut SmtcState, rt: &mut Runtime, worker: &mut RpcWorker) -> (r: Option<
    crate::discord::PresenceAction,
>)
    requires
        old(rt).wf(),
        old(worker).wf(),
        pair_releasable(*old(rt), old(state).slot()),
    ensures
        final(rt).wf(),
        final(worker).wf(),
        final(state).session is None,
        pair_released(*old(rt), *final(rt), old(state).slot()),
        !final(worker).is_enabled,
        !final(worker).connected,
        r == if old(worker).connected {
            Some(crate::discord::PresenceAction::CloseClient)
        } else {
            None::<crate::discord::PresenceAction>
        },
{
    clear_callback(state, rt);
    state.session = None;
    crate::discord::disable(worker)
}

/// Relay a transport-control event: serialize it and, when a callback is
/// registered, post the relay task. Without a session or a registration
/// the event is dropped silently.
pub fn dispatch_event(state: &SmtcState, rt: &mut Runtime, event: &SmtcEvent) -> (r: CefResult<
    bool,
>)
    requires
        old(rt).wf(),
        match state.slot() {
            Some(cb) => old(rt).can_add_ref(cb.v8_context.id as int) && old(rt).obj(
                cb.v8_context.id as int,
            ).release_calls < u64::MAX,
            None => true,
        },
    ensures
        final(rt).wf(),
        state.slot() is None ==> r == Ok::<bool, crate::error::CefError>(false) && *final(rt)
            == *old(rt),
        match state.slot() {
            Some(cb) => {
                &&& old(rt).runner_available && old(rt).post_accepts ==> (r == Ok::<
                    bool,
                    crate::error::CefError,
                >(true) && dispatch_posted(*old(rt), *final(rt), cb, smtc_event_json_spec(*event)))
                &&& !(old(rt).runner_available && old(rt).post_accepts) ==> (r matches Err(e)
                    && e is TaskPostFailed)
            },
            None => true,
        },
{
    match &state.session {
        Some(s) => s.callback.dispatch_json(rt, event.to_json()),
        None => Ok(false),
    }
}

/// The playback-status action for the session, when one is initialized.
pub fn update_play_state(state: &SmtcState, status: PlaybackStatus) -> (r: Option<SmtcAction>)
    ensures
        state.session is Some ==> r == Some(SmtcAction::SetPlaybackStatus(status)),
        state.session is None ==> r is None,
{
    match &state.session {
        Some(_) => Some(SmtcAction::SetPlaybackStatus(status)),
        None => None,
    }
}

/// The timeline action for the session: positions in hundred-nanosecond
/// units from zero, clamped exactly as the session's saturating casts
/// clamp them.
pub fn update_timeline(state: &SmtcState, current_ms: u64, total_ms: u64) -> (r: Option<
    SmtcAction,
>)
    ensures
        state.session is None ==> r is None,
        state.session is Some ==> (r matches Some(SmtcAction::SetTimeline(t)) && {
            &&& t.start_hns == 0
            &&& t.position_hns as int == hns_of_ms(current_ms)
            &&& t.end_hns as int == hns_of_ms(total_ms)
        }),
{
    match &state.session {
        Some(_) => {
            let position_hns: i64 = if current_ms <= 922337203685477u64 {
                (current_ms * HNS_PER_MILLISECOND) as i64
            } else {
                i64::MAX
            };
            let end_hns: i64 = if total_ms <= 922337203685477u64 {
                (total_ms * HNS_PER_MILLISECOND) as i64
            } else {
                i64::MAX
            };
            Some(
                SmtcAction::SetTimeline(
                    TimelineProperties { start_hns: 0, position_hns, end_hns },
                ),
            )
        },
        None => None,
    }
}

/// The play-mode actions for the session: the shuffle switch and the
/// mapped repeat setting.
pub fn update_play_mode(state: &SmtcState, is_shuffling: bool, repeat_mode: &RepeatMode) -> (r:
    Option<(SmtcAction, SmtcAction)>)
    ensures
        state.session is None ==> r is None,
        state.session is Some ==> (r matches Some((a, b)) && a == SmtcAction::SetShuffle(
            is_shuffling,
        ) && b == SmtcAction::SetRepeat(repeat_setting_of(*repeat_mode))),
{
    match &state.session {
        Some(_) => {
            let setting = match repeat_mode {
                RepeatMode::Track => RepeatSetting::RepeatTrack,
                RepeatMode::List => RepeatSetting::RepeatList,
                RepeatMode::Off => RepeatSetting::Disabled,
                RepeatMode::AI => RepeatSetting::Disabled,
            };
            Some((SmtcAction::SetShuffle(is_shuffling), SmtcAction::SetRepeat(setting)))
        },
        None => None,
    }
}

/// The catalog genre tag for a track id: present exactly for positive
/// ids, so listeners can match the track precisely.
pub open spec fn genre_of(ncm_id: Option<u64>) -> Option<Seq<char>> {
    match ncm_id {
        Some(id) => if id > 0 {
            Some("NCM-"@ + dec_str(id as int))
        } else {
            None
        },
        None => None,
    }
}

/// The metadata action for the session: display fields, the genre tag,
/// and the cover plan. A new metadata update supersedes any cover fetch
/// still in flight, which the advancing generation records.
pub fn update_metadata(state: &mut SmtcState, payload: MetadataPayload) -> (r: Option<SmtcAction>)
    requires
        match old(state).session {
            Some(s) => s.cover_generation < u64::MAX,
            None => true,
        },
    ensures
        old(state).session is None ==> r is None && final(state).session is None,
        old(state).session matches Some(s0) ==> {
            &&& final(state).session matches Some(s1) && s1.callback == s0.callback && s1.enabled
                == s0.enabled && s1.cover_generation as int == s0.cover_generation + 1
            &&& r matches Some(SmtcAction::SetMetadata(m)) && {
                &&& m.title@ == payload.song_name@
                &&& m.artist@ == payload.author_name@
                &&& m.album@ == payload.album_name@
                &&& match (m.genre, genre_of(payload.ncm_id)) {
                    (Some(g), Some(spec_g)) => g@ == spec_g,
                    (None, None) => true,
                    _ => false,
                }
                &&& match payload.cover {
                    None => m.cover is Clear,
                    Some(CoverSource::Base64(data)) => match m.cover {
                        CoverPlan::Bytes(b) => b@ == base64_decoded(data@),
                        CoverPlan::Clear => true,
                        CoverPlan::Download(_) => false,
                    },
                    Some(CoverSource::Url(u)) => m.cover matches CoverPlan::Download(x) && x@
                        == u@,
                }
            }
        },
{
    match &mut state.session {
        Some(s) => {
            s.cover_generation = s.cover_generation + 1;
            let genre = match payload.ncm_id {
                Some(id) => {
                    if id > 0 {
                        let mut g = String::from_str("NCM-");
                        let digits = u64_to_string(id);
                        g.append(digits.as_str());
                        Some(g)
                    } else {
                        None
                    }
                },
                None => None,
            };
            let MetadataPayload {
                song_name,
                author_name,
                album_name,
                cover,
                original_cover_url: _,
                ncm_id: _,
                duration: _,
            } = payload;
            let plan = cover_plan(cover);
            Some(
                SmtcAction::SetMetadata(
                    MetadataAction {
                        title: song_name,
                        artist: author_name,
                        album: album_name,
                        genre,
                        cover: plan,
                    },
                ),
            )
        },
        None => None,
    }
}

/// The session-enable action; a no-op without a session.
pub fn set_session_enabled(state: &mut SmtcState, enabled: bool) -> (r: Option<SmtcAction>)
    ensures
        old(state).session is None ==> r is None && final(state).session is None,
        old(state).session matches Some(s0) ==> {
            &&& final(state).session matches Some(s1) && s1.callback == s0.callback
                && s1.cover_generation == s0.cover_generation && s1.enabled == enabled
            &&& r == Some(SmtcAction::SetEnabled(enabled))
        },
{
    match &mut state.session {
        Some(s) => {
            s.enabled = enabled;
            Some(SmtcAction::SetEnabled(enabled))
        },
        None => None,
    }
}

/// Everything one command produces: the JSON result text for the caller,
/// the media-session actions to perform, and the presence action, if any.
pub struct CommandOutcome {
    pub result_json: String,
    pub actions: Vec<SmtcAction>,
    pub presence: Option<crate::discord::PresenceAction>,
}

/// Route one parsed command: fold it into the presence worker and the
/// session state, and produce the actions for the surrounding program.
/// Every command this function accepts reports success; failures of the
/// operating-system calls themselves, and malformed command text, are
/// reported by the caller with its own error result.
pub fn handle_command(state: &mut SmtcState, worker: &mut RpcWorker, command: SmtcCommand) -> (r:
    CommandOutcome)
    requires
        old(worker).wf(),
        match old(state).session {
            Some(s) => s.cover_generation < u64::MAX,
            None => true,
        },
    ensures
        final(worker).wf(),
        r.result_json@ == crate::model::command_result_json_spec(CommandStatus::Success, None),
        r.presence == match command {
            SmtcCommand::DisableDiscordRpc => if old(worker).connected {
                Some(crate::discord::PresenceAction::CloseClient)
            } else {
                None::<crate::discord::PresenceAction>
            },
            _ => None::<crate::discord::PresenceAction>,
        },
        match command {
            SmtcCommand::Metadata(payload) => {
                &&& final(worker).data matches Some(d) && d.metadata.eqv(payload)
                    && d.current_time == 0
                &&& old(state).session is Some ==> (r.actions@.len() == 1 && (r.actions@[0]
                    matches SmtcAction::SetMetadata(m) && m.title@ == payload.song_name@))
                &&& old(state).session is None ==> r.actions@.len() == 0
            },
            SmtcCommand::PlayState(payload) => {
                &&& old(worker).data matches Some(od) ==> (final(worker).data matches Some(d)
                    && d.status == payload.status)
                &&& old(state).session is Some ==> r.actions@ == seq![
                    SmtcAction::SetPlaybackStatus(payload.status),
                ]
                &&& old(state).session is None ==> r.actions@.len() == 0
            },
            SmtcCommand::Timeline(payload) => {
                &&& old(worker).data matches Some(od) ==> (final(worker).data matches Some(d)
                    && d.current_time == payload.current_time)
                &&& old(state).session is Some ==> (r.actions@.len() == 1 && (r.actions@[0]
                    matches SmtcAction::SetTimeline(t) && t.position_hns as int == hns_of_ms(
                    payload.current_time,
                ) && t.end_hns as int == hns_of_ms(payload.total_time)))
                &&& old(state).session is None ==> r.actions@.len() == 0
            },
            SmtcCommand::PlayMode(payload) => {
                &&& old(state).session is Some ==> r.actions@ == seq![
                    SmtcAction::SetShuffle(payload.is_shuffling),
                    SmtcAction::SetRepeat(repeat_setting_of(payload.repeat_mode)),
                ]
                &&& old(state).session is None ==> r.actions@.len() == 0
                &&& final(worker).data == old(worker).data
            },
            SmtcCommand::EnableSmtc => {
                &&& old(state).session is Some ==> (r.actions@ == seq![
                    SmtcAction::SetEnabled(true),
                ] && (final(state).session matches Some(s) && s.enabled))
                &&& old(state).session is None ==> r.actions@.len() == 0
            },
            SmtcCommand::DisableSmtc => {
                &&& old(state).session is Some ==> (r.actions@ == seq![
                    SmtcAction::SetEnabled(false),
                ] && (final(state).session matches Some(s) && !s.enabled))
                &&& old(state).session is None ==> r.actions@.len() == 0
            },
            SmtcCommand::EnableDiscordRpc => final(worker).is_enabled && r.actions@.len() == 0,
            SmtcCommand::DisableDiscordRpc => !final(worker).is_enabled
                && !final(worker).connected && r.actions@.len() == 0,
            SmtcCommand::DiscordConfig(_) => r.actions@.len() == 0 && *final(state) == *old(state)
                && *final(worker) == *old(worker),
        },
{
    let success = CommandResult { status: CommandStatus::Success, message: None };
    let result_json = success.to_json();
    let mut actions: Vec<SmtcAction> = Vec::new();
    let mut presence: Option<crate::discord::PresenceAction> = None;
    match command {
        SmtcCommand::Metadata(payload) => {
            let copy = payload.duplicate();
            let _ = crate::discord::update_metadata(worker, copy);
            match update_metadata(state, payload) {
                Some(a) => {
                    actions.push(a);
                },
                None => {
                },
            }
        },
        SmtcCommand::PlayState(payload) => {
            let _ = crate::discord::update_play_state(worker, payload);
            match update_play_state(state, payload.status) {
                Some(a) => {
                    actions.push(a);
                },
                None => {
                },
            }
        },
        SmtcCommand::Timeline(payload) => {
            let _ = crate::discord::update_timeline(worker, payload);
            match update_timeline(state, payload.current_time, payload.total_time) {
                Some(a) => {
                    actions.push(a);
                },
                None => {
                },
            }
        },
        SmtcCommand::PlayMode(payload) => {
            match update_play_mode(state, payload.is_shuffling, &payload.repeat_mode) {
                Some((a, b)) => {
                    actions.push(a);
                    actions.push(b);
                },
                None => {
                },
            }
        },
        SmtcCommand::EnableSmtc => {
            match set_session_enabled(state, true) {
                Some(a) => {
                    actions.push(a);
                },
                None => {
                },
            }
        },
        SmtcCommand::DisableSmtc => {
            match set_session_enabled(state, false) {
                Some(a) => {
                    actions.push(a);
                },
                None => {
                },
            }
        },
        SmtcCommand::EnableDiscordRpc => {
            presence = crate::discord::enable(worker);
        },
        SmtcCommand::DisableDiscordRpc => {
            presence = crate::discord::disable(worker);
        },
        SmtcCommand::DiscordConfig(_) => {
        },
    }
    CommandOutcome { result_json, actions, presence }
}

} // verus!
