use roc_ray::config::{Config, ExitErrCode, TraceLevel};
use roc_ray::glue::{PeerMessage, PeerUUID, PlatformState, PlatformTime, RocColor};
use roc_ray::input::{
    get_keys_states, get_mouse_button_states, key_state, mouse_button_state, ButtonSample,
    KeySample, KEY_COUNT, MOUSE_BUTTON_COUNT,
};
use roc_ray::platform_time::{get_platform_time, init_end, init_start, render_end, render_start};
use roc_ray::roc::{
    draw_fatal_error, fatal_heading, frame_action, record_transport_failure, App, FrameAction,
    FrameInput, FrameModel, RenderCall, TransportFailure,
};
use roc_ray::worker::WorkerToMainMsg;

fn input(now: u64, events: Vec<WorkerToMainMsg>) -> FrameInput {
    FrameInput {
        now,
        events,
        keys: vec![3; 4],
        mouse_buttons: vec![3, 0],
        mouse_pos_x: 11,
        mouse_pos_y: -7,
    }
}

#[test]
fn a_session_starts_with_these_settings() {
    let config = Config::new();
    assert_eq!(config.title, "Loading roc-ray app...");
    assert_eq!((config.width, config.height), (200, 50));
    assert!(!config.should_exit);
    assert_eq!(config.should_exit_msg_code, None);
    assert!(!config.fps_show);
    assert_eq!(config.fps_target, 60);
    assert!(!config.fps_target_dirty);
    assert_eq!(config.fps_position, (10, 10));
    assert_eq!(config.trace_log_level, TraceLevel::Info);
    assert_eq!(config.network_web_rtc_url, None);
}

#[test]
fn exit_codes_and_log_levels() {
    let codes = [
        (ExitErrCode::EffectNotPermitted, 1, "EffectNotPermitted"),
        (ExitErrCode::NotYetImplemented, 2, "NotYetImplemented"),
        (ExitErrCode::WebRTCConnectionError, 3, "WebRTCConnectionError"),
        (
            ExitErrCode::WebRTCConnectionDisconnected,
            4,
            "WebRTCConnectionDisconnected",
        ),
        (ExitErrCode::ErrFromRocInit, 5, "ErrFromRocInit"),
        (ExitErrCode::ErrFromRocRender, 6, "ErrFromRocRender"),
        (ExitErrCode::ResourceHeapFull, 7, "ResourceHeapFull"),
    ];
    for (code, number, name) in codes {
        assert_eq!(code.code(), number);
        assert_eq!(code.name(), name);
        assert_eq!(format!("{code:?}"), name);
    }
    let levels = [
        (TraceLevel::All, 0),
        (TraceLevel::Trace, 1),
        (TraceLevel::Debug, 2),
        (TraceLevel::Info, 3),
        (TraceLevel::Warn, 4),
        (TraceLevel::Error, 5),
        (TraceLevel::Off, 7),
    ];
    for (level, number) in levels {
        assert_eq!(level.native_level(), number);
    }
}

#[test]
fn the_settings_that_the_effects_change() {
    let mut config = Config::new();
    config.set_window("Game".to_string(), 800, 600);
    assert_eq!(config.title, "Game");
    assert_eq!((config.width, config.height), (800, 600));

    assert_eq!(config.take_target_fps(), None);
    config.set_target_fps(30);
    assert!(config.fps_target_dirty);
    assert_eq!(config.take_target_fps(), Some(30));
    assert_eq!(config.take_target_fps(), None);
    assert_eq!(config.fps_target, 30);

    assert_eq!(config.fps_overlay(), None);
    config.set_draw_fps(true, (5, 6));
    assert_eq!(config.fps_overlay(), Some((5, 6)));
    config.set_draw_fps(false, (5, 6));
    assert_eq!(config.fps_overlay(), None);

    config.set_network_url("ws://host/room".to_string());
    assert_eq!(config.network_web_rtc_url.as_deref(), Some("ws://host/room"));
    config.request_exit();
    assert!(config.should_exit);
    config.set_fatal("first".to_string(), ExitErrCode::EffectNotPermitted);
    config.set_fatal("second".to_string(), ExitErrCode::ErrFromRocRender);
    assert_eq!(
        config.should_exit_msg_code,
        Some(("second".to_string(), ExitErrCode::ErrFromRocRender))
    );
}

#[test]
fn what_the_frame_loop_does_next() {
    let mut config = Config::new();
    assert_eq!(frame_action(&config, false), FrameAction::Render);
    assert_eq!(frame_action(&config, true), FrameAction::Exit);
    config.request_exit();
    assert_eq!(frame_action(&config, false), FrameAction::Exit);
    config.set_fatal("boom".to_string(), ExitErrCode::ErrFromRocInit);
    // A fatal condition is shown for as long as the window stays open.
    assert_eq!(frame_action(&config, false), FrameAction::ShowFatal);
    assert_eq!(frame_action(&config, true), FrameAction::Exit);
}

#[test]
fn init_keeps_the_model_or_records_the_error() {
    let mut config = Config::new();
    let app = App::init(Ok(0xBEEF), 100, 130, &mut config);
    assert_eq!(app.model(), FrameModel::Valid(0xBEEF));
    assert_eq!(config.should_exit_msg_code, None);
    assert_eq!(
        app.state().timestamps,
        PlatformTime {
            init_start: 100,
            init_end: 130,
            last_render_end: 0,
            last_render_start: 0,
            render_start: 0
        }
    );
    assert_eq!(app.state().frame_count, 0);
    assert_eq!(app.peers().len(), 0);

    let app = App::init(Err("no init".to_string()), 1, 2, &mut config);
    assert_eq!(app.model(), FrameModel::Invalid);
    assert_eq!(
        config.should_exit_msg_code,
        Some(("no init".to_string(), ExitErrCode::ErrFromRocInit))
    );
    assert!(!config.should_exit);
    assert_eq!(frame_action(&config, false), FrameAction::ShowFatal);
}

#[test]
fn a_frame_takes_in_input_events_and_time() {
    let a = PeerUUID::new(1, 1);
    let b = PeerUUID::new(2, 2);
    let mut config = Config::new();
    config.set_target_fps(144);
    let mut app = App::init(Ok(1), 10, 20, &mut config);

    let call = app.render(
        &mut config,
        input(
            1000,
            vec![
                WorkerToMainMsg::PeerConnected(a),
                WorkerToMainMsg::PeerConnected(b),
                WorkerToMainMsg::MessageReceived(b, vec![1, 2, 3]),
                WorkerToMainMsg::PeerDisconnected(a),
            ],
        ),
    );
    assert_eq!(
        call,
        RenderCall {
            model: FrameModel::Valid(1),
            target_fps: Some(144)
        }
    );
    assert!(!config.fps_target_dirty);
    let state: &PlatformState = app.state();
    assert_eq!(state.frame_count, 1);
    assert_eq!(state.keys, vec![3; 4]);
    assert_eq!(state.mouse_buttons, vec![3, 0]);
    assert_eq!((state.mouse_pos_x, state.mouse_pos_y), (11, -7));
    assert_eq!(state.peers.connected, vec![b]);
    assert_eq!(state.peers.disconnected, vec![a]);
    assert_eq!(
        state.messages,
        vec![PeerMessage {
            bytes: vec![1, 2, 3],
            id: b
        }]
    );
    assert_eq!(state.timestamps.render_start, 1000);
    assert_eq!(state.timestamps.last_render_start, 0);

    app.rendered(&mut config, Ok(2), 1016);
    assert_eq!(app.model(), FrameModel::Valid(2));
    assert_eq!(app.state().timestamps.last_render_end, 1016);

    // The messages are those of one frame; the peers stay.
    let call = app.render(&mut config, input(1033, vec![]));
    assert_eq!(call.model, FrameModel::Valid(2));
    assert_eq!(call.target_fps, None);
    assert_eq!(app.state().frame_count, 2);
    assert!(app.state().messages.is_empty());
    assert_eq!(app.state().peers.connected, vec![b]);
    assert_eq!(app.state().timestamps.last_render_start, 1000);
    assert_eq!(app.state().timestamps.render_start, 1033);
    assert_eq!(app.state().timestamps.init_end, 20);
    assert_eq!(config.should_exit_msg_code, None);
}

#[test]
fn an_error_of_render_leaves_no_model() {
    let mut config = Config::new();
    let mut app = App::init(Ok(1), 0, 0, &mut config);
    app.render(&mut config, input(5, vec![]));
    app.rendered(&mut config, Err("render failed".to_string()), 9);
    assert_eq!(app.model(), FrameModel::Invalid);
    assert_eq!(
        config.should_exit_msg_code,
        Some(("render failed".to_string(), ExitErrCode::ErrFromRocRender))
    );
    assert_eq!(app.state().timestamps.last_render_end, 9);
    assert_eq!(frame_action(&config, false), FrameAction::ShowFatal);
}

#[test]
fn a_failure_of_the_transport_is_fatal_and_names_the_server() {
    let mut config = Config::new();
    config.set_network_url("ws://example.org/\"room\"".to_string());
    let mut app = App::init(Ok(1), 0, 0, &mut config);
    app.render(&mut config, input(1, vec![WorkerToMainMsg::ConnectionFailed]));
    assert!(config.should_exit);
    assert_eq!(
        config.should_exit_msg_code,
        Some((
            "Unable to connect to signaling server at Some(\"ws://example.org/\\\"room\\\"\"). Exiting..."
                .to_string(),
            ExitErrCode::WebRTCConnectionError
        ))
    );

    let mut config = Config::new();
    record_transport_failure(&mut config, None);
    assert!(!config.should_exit);
    assert_eq!(config.should_exit_msg_code, None);
    record_transport_failure(&mut config, Some(TransportFailure::Disconnected));
    assert!(config.should_exit);
    assert_eq!(
        config.should_exit_msg_code,
        Some((
            "Disconnected from signaling server at None. Exiting...".to_string(),
            ExitErrCode::WebRTCConnectionDisconnected
        ))
    );
    assert_eq!(
        TransportFailure::ConnectionFailed.message("X"),
        "Unable to connect to signaling server at X. Exiting..."
    );
    assert_eq!(
        TransportFailure::Disconnected.code(),
        ExitErrCode::WebRTCConnectionDisconnected
    );
}

#[test]
fn the_diagnostic_screen() {
    let heading = fatal_heading();
    assert_eq!(heading.text, "FATAL ERROR:");
    assert_eq!((heading.x, heading.y, heading.size), (10, 10, 20));
    assert_eq!(heading.color.to_rgba(), (255, 0, 0, 255));

    let screen = draw_fatal_error("it broke".to_string(), ExitErrCode::ErrFromRocRender, 130);
    assert_eq!(screen.background.to_rgba(), (255, 210, 210, 255));
    assert_eq!(screen.cursor.to_rgba(), (50, 50, 50, 255));
    assert_eq!(screen.cursor_radius, 5);
    assert_eq!(screen.code.text, "ErrFromRocRender");
    assert_eq!((screen.code.x, screen.code.y, screen.code.size), (150, 10, 20));
    assert!(screen.code.color == RocColor::black());
    assert_eq!(screen.message.text, "it broke");
    assert_eq!(
        (screen.message.x, screen.message.y, screen.message.size),
        (10, 40, 10)
    );
    assert_eq!(screen.message.color.to_rgba(), (0, 0, 0, 255));
}

#[test]
fn the_timestamps_move_on() {
    let mut time = PlatformTime::default();
    init_start(&mut time, 1);
    init_end(&mut time, 2);
    render_start(&mut time, 3);
    render_end(&mut time, 4);
    assert_eq!(
        get_platform_time(&time),
        PlatformTime {
            init_start: 1,
            init_end: 2,
            render_start: 3,
            last_render_start: 3,
            last_render_end: 4
        }
    );
    render_start(&mut time, 5);
    assert_eq!(time.last_render_start, 3);
    render_end(&mut time, 6);
    assert_eq!(time.last_render_start, 5);
    assert_eq!(time.last_render_end, 6);
}

#[test]
fn the_bytes_of_keys_and_buttons() {
    let b = |pressed, released, down| ButtonSample {
        pressed,
        released,
        down,
    };
    assert_eq!(mouse_button_state(b(true, true, true)), 0);
    assert_eq!(mouse_button_state(b(false, true, true)), 1);
    assert_eq!(mouse_button_state(b(false, false, true)), 2);
    assert_eq!(mouse_button_state(b(false, false, false)), 3);
    let k = |pressed, released, down, up| KeySample {
        pressed,
        released,
        down,
        up,
    };
    assert_eq!(key_state(k(true, false, true, false)), 0);
    assert_eq!(key_state(k(false, true, false, true)), 1);
    assert_eq!(key_state(k(false, false, true, false)), 2);
    assert_eq!(key_state(k(false, false, false, true)), 3);
    assert_eq!(key_state(k(false, false, false, false)), 4);

    let buttons = vec![b(false, false, false); MOUSE_BUTTON_COUNT];
    assert_eq!(get_mouse_button_states(&buttons), vec![3; 7]);
    let mut keys = vec![k(false, false, false, true); KEY_COUNT];
    keys[65] = k(true, false, true, false);
    keys[66] = k(false, false, true, false);
    keys[349] = k(false, false, false, false);
    let states = get_keys_states(&keys);
    assert_eq!(states.len(), 350);
    assert_eq!((states[64], states[65], states[66], states[349]), (3, 0, 2, 4));
    assert!(get_keys_states(&vec![]).is_empty());
}
