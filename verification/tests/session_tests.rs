//! The media-session core: button mapping, command routing, the action
//! formulas, and the cover plan through the real base64 engine.

use cef_bridge::discord::RpcWorker;
use cef_bridge::registry::CallbackRegistry;
use cef_bridge::runtime::{ArgSnapshot, CallBehavior, ObjectData};
use cef_bridge::smtc_core::{dispatch_event, register_event_callback};
use cef_bridge::string::{string_from_cef, CefString16};
use cef_bridge::task::execute_rust_closure;
use cef_bridge::model::{
    CoverSource, MetadataPayload, PlayModePayload, PlayStatePayload, PlaybackStatus,
    RepeatMode, SmtcCommand, TimelinePayload,
};
use cef_bridge::runtime::Runtime;
use cef_bridge::smtc_core::{
    cover_plan, event_for_button, handle_command, initialize, update_metadata,
    update_play_mode, update_play_state, update_timeline, CoverPlan, RepeatSetting,
    SmtcAction, SmtcEvent, SmtcState,
};

fn metadata(title: &str) -> MetadataPayload {
    MetadataPayload {
        song_name: String::from(title),
        author_name: String::from("artist"),
        album_name: String::from("album"),
        cover: None,
        original_cover_url: None,
        ncm_id: Some(22636),
        duration: Some(185000),
    }
}

fn ready() -> (SmtcState, Runtime) {
    let mut state = SmtcState::new();
    let mut rt = Runtime::new();
    initialize(&mut state, &mut rt);
    (state, rt)
}

#[test]
fn buttons_map_to_their_events() {
    assert_eq!(event_for_button(0), Some(SmtcEvent::Play));
    assert_eq!(event_for_button(1), Some(SmtcEvent::Pause));
    assert_eq!(event_for_button(2), Some(SmtcEvent::Stop));
    assert_eq!(event_for_button(6), Some(SmtcEvent::NextSong));
    assert_eq!(event_for_button(7), Some(SmtcEvent::PreviousSong));
    assert_eq!(event_for_button(3), None);
    assert_eq!(event_for_button(-1), None);
}

#[test]
fn timeline_positions_convert_to_hundred_nanosecond_units() {
    let (state, _rt) = ready();
    match update_timeline(&state, 93250, 185000) {
        Some(SmtcAction::SetTimeline(t)) => {
            assert_eq!(t.start_hns, 0);
            assert_eq!(t.position_hns, 932_500_000);
            assert_eq!(t.end_hns, 1_850_000_000);
        }
        _ => panic!("an initialized session updates its timeline"),
    }
}

#[test]
fn oversized_timeline_positions_saturate() {
    let (state, _rt) = ready();
    match update_timeline(&state, u64::MAX, 1) {
        Some(SmtcAction::SetTimeline(t)) => {
            assert_eq!(t.position_hns, i64::MAX);
            assert_eq!(t.end_hns, 10_000);
        }
        _ => panic!("an initialized session updates its timeline"),
    }
}

#[test]
fn play_mode_maps_repeat_settings() {
    let (state, _rt) = ready();
    match update_play_mode(&state, true, &RepeatMode::Track) {
        Some((SmtcAction::SetShuffle(true), SmtcAction::SetRepeat(RepeatSetting::RepeatTrack))) => {}
        _ => panic!("shuffle and repeat must both be set"),
    }
    match update_play_mode(&state, false, &RepeatMode::AI) {
        Some((SmtcAction::SetShuffle(false), SmtcAction::SetRepeat(RepeatSetting::Disabled))) => {}
        _ => panic!("the smart-playlist mode disables repeat"),
    }
}

#[test]
fn uninitialized_session_produces_no_actions() {
    let state = SmtcState::new();
    assert!(update_play_state(&state, PlaybackStatus::Playing).is_none());
    assert!(update_timeline(&state, 1, 2).is_none());
    assert!(update_play_mode(&state, true, &RepeatMode::List).is_none());
}

#[test]
fn metadata_action_carries_genre_tag_and_cover_plan() {
    let (mut state, _rt) = ready();
    match update_metadata(&mut state, metadata("song")) {
        Some(SmtcAction::SetMetadata(m)) => {
            assert_eq!(m.title, "song");
            assert_eq!(m.artist, "artist");
            assert_eq!(m.album, "album");
            assert_eq!(m.genre.as_deref(), Some("NCM-22636"));
            assert!(matches!(m.cover, CoverPlan::Clear));
        }
        _ => panic!("an initialized session updates its metadata"),
    }
    let mut no_id = metadata("song");
    no_id.ncm_id = Some(0);
    match update_metadata(&mut state, no_id) {
        Some(SmtcAction::SetMetadata(m)) => assert!(m.genre.is_none()),
        _ => panic!("an initialized session updates its metadata"),
    }
}

#[test]
fn cover_plan_decodes_inline_data_through_the_real_engine() {
    match cover_plan(Some(CoverSource::Base64(String::from("aGVsbG8=")))) {
        CoverPlan::Bytes(b) => assert_eq!(b, b"hello".to_vec()),
        _ => panic!("valid inline data decodes to its bytes"),
    }
    match cover_plan(Some(CoverSource::Base64(String::from("not@@base64")))) {
        CoverPlan::Clear => {}
        _ => panic!("invalid inline data degrades to no cover"),
    }
    match cover_plan(Some(CoverSource::Url(String::from("https://x/y.jpg")))) {
        CoverPlan::Download(u) => assert_eq!(u, "https://x/y.jpg"),
        _ => panic!("a url cover is downloaded"),
    }
    assert!(matches!(cover_plan(None), CoverPlan::Clear));
}

#[test]
fn commands_route_to_session_and_presence() {
    let (mut state, _rt) = ready();
    let mut worker = RpcWorker::new();

    let out = handle_command(
        &mut state,
        &mut worker,
        SmtcCommand::PlayState(PlayStatePayload { status: PlaybackStatus::Playing }),
    );
    assert_eq!(out.result_json, "{\"status\":\"Success\"}");
    assert_eq!(out.actions.len(), 1);
    assert!(matches!(
        out.actions[0],
        SmtcAction::SetPlaybackStatus(PlaybackStatus::Playing)
    ));

    let out = handle_command(&mut state, &mut worker, SmtcCommand::Metadata(metadata("s")));
    assert_eq!(out.actions.len(), 1);
    assert!(worker.data.is_some());

    let out = handle_command(
        &mut state,
        &mut worker,
        SmtcCommand::Timeline(TimelinePayload { current_time: 5000, total_time: 10000 }),
    );
    assert_eq!(out.actions.len(), 1);
    assert_eq!(worker.data.as_ref().unwrap().current_time, 5000);

    let out = handle_command(
        &mut state,
        &mut worker,
        SmtcCommand::PlayMode(PlayModePayload { is_shuffling: true, repeat_mode: RepeatMode::List }),
    );
    assert_eq!(out.actions.len(), 2);

    let out = handle_command(&mut state, &mut worker, SmtcCommand::EnableDiscordRpc);
    assert!(worker.is_enabled);
    assert_eq!(out.actions.len(), 0);

    let out = handle_command(&mut state, &mut worker, SmtcCommand::DisableSmtc);
    assert_eq!(out.actions.len(), 1);
    assert!(matches!(out.actions[0], SmtcAction::SetEnabled(false)));
    assert!(!state.session.as_ref().unwrap().enabled);
}

#[test]
fn dispatched_event_reaches_the_callback_as_its_json_form() {
    let (mut state, mut rt) = ready();
    let c = rt.new_object(ObjectData::Context {
        enter_available: true,
        enter_calls: 0,
        exit_calls: 0,
    });
    rt.current_context = Some(c);
    let f = rt.new_object(ObjectData::Function {
        behavior: CallBehavior::Returns,
        pending: None,
        calls: Vec::new(),
    });
    register_event_callback(&mut state, &mut rt, Some(f)).unwrap();

    let event = SmtcEvent::Seek { position_ms: 1500 };
    assert!(dispatch_event(&state, &mut rt, &event).unwrap());
    let reg: &CallbackRegistry = &state.session.as_ref().unwrap().callback;
    execute_rust_closure(&mut rt, reg, 0);

    match &rt.objects[f].data {
        ObjectData::Function { calls, .. } => {
            assert_eq!(calls.len(), 1);
            match &calls[0].args[0] {
                ArgSnapshot::Text(units) => {
                    let text = string_from_cef(&CefString16 { units: units.clone() });
                    assert_eq!(text, "{\"type\":\"Seek\",\"position_ms\":1500}");
                }
                ArgSnapshot::Other => panic!("the event must arrive as a string value"),
            }
        }
        _ => panic!("the callback must stay a callable"),
    }
}
