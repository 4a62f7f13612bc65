use crabshell::hyprland::error::{Error, IoError, IoErrorKind, JsonError};
use crabshell::hyprland::ipc::commands::{
    ActiveWindow, Command, Devices, Monitors, PartialWorkspace, Workspace, Workspaces,
};
use crabshell::hyprland::ipc::schema::FromJson;
use crabshell::hyprland::ipc::{
    command_socket_path, decode_response, event_socket_path, is_transient, request, request_for,
    request_message, Attempt, Decision, Request, Step, MAX_ATTEMPTS,
};

const WORKSPACES: &str = r#"[{"id":1,"name":"1","monitor":"eDP-1","windows":2,"hasfullscreen":false,"lastwindow":"0x0","lastwindowtitle":"term"}]"#;

fn failure(kind: IoErrorKind) -> IoError {
    IoError { kind, message: format!("{:?}", kind) }
}

/// Plays a transport that ends its attempts as `script` says, and counts the
/// attempts that the request takes.
fn play<T: Command>(script: Vec<Attempt>) -> (Result<T, Error>, usize) {
    let mut progress = Request::new();
    let mut made = 0;
    for outcome in script {
        made += 1;
        match request::<T>(&mut progress, outcome) {
            Step::Retry => {}
            Step::Done(result) => return (result, made),
        }
    }
    panic!("the script ran out after {} attempts", made);
}

fn broken_pipes_then(k: usize, last: Attempt) -> Vec<Attempt> {
    let mut script = vec![Attempt::Failed(failure(IoErrorKind::BrokenPipe)); k];
    script.push(last);
    script
}

#[test]
fn socket_paths() {
    assert_eq!(command_socket_path("abc_123"), "/tmp/hypr/abc_123/.socket.sock");
    assert_eq!(event_socket_path("abc_123"), "/tmp/hypr/abc_123/.socket2.sock");
    assert_eq!(command_socket_path(""), "/tmp/hypr//.socket.sock");
}

#[test]
fn request_messages() {
    assert_eq!(request_message("workspaces"), "j/workspaces");
    assert_eq!(request_message(""), "j/");
    assert_eq!(request_for::<Workspaces>(), "j/workspaces");
    assert_eq!(request_for::<Devices>(), "j/devices");
    assert_eq!(request_for::<ActiveWindow>(), "j/activewindow");
    assert_eq!(request_for::<Monitors>(), "j/monitors");
    assert_eq!(<Workspaces as Command>::NAME, "workspaces");
    assert_eq!(<Workspaces as Command>::command_name(), "workspaces");
    assert_eq!(<Devices as Command>::command_name(), "devices");
    assert_eq!(<ActiveWindow as Command>::command_name(), "activewindow");
    assert_eq!(<Monitors as Command>::command_name(), "monitors");
    assert_eq!(<Monitors as Command>::NAME, <Monitors as Command>::command_name());
}

#[test]
fn only_a_broken_pipe_is_transient() {
    assert!(is_transient(&failure(IoErrorKind::BrokenPipe)));
    for kind in [
        IoErrorKind::NotFound,
        IoErrorKind::PermissionDenied,
        IoErrorKind::ConnectionRefused,
        IoErrorKind::ConnectionReset,
        IoErrorKind::ConnectionAborted,
        IoErrorKind::NotConnected,
        IoErrorKind::TimedOut,
        IoErrorKind::UnexpectedEof,
        IoErrorKind::Other,
    ] {
        assert!(!is_transient(&failure(kind)));
    }
}

#[test]
fn answered_after_broken_pipes() {
    for k in 0..MAX_ATTEMPTS as usize {
        let script = broken_pipes_then(k, Attempt::Response(WORKSPACES.as_bytes().to_vec()));
        let (result, made) = play::<Workspaces>(script);
        let workspaces = result.expect("the response decodes");
        assert_eq!(made, k + 1);
        assert_eq!(workspaces.len(), 1);
        assert_eq!(workspaces[0].id, 1);
    }
}

#[test]
fn retries_run_out() {
    for k in MAX_ATTEMPTS as usize..MAX_ATTEMPTS as usize + 3 {
        let script = broken_pipes_then(k, Attempt::Response(WORKSPACES.as_bytes().to_vec()));
        let (result, made) = play::<Workspaces>(script);
        assert_eq!(result, Err(Error::MaxRetriesExceeded()));
        assert_eq!(made, MAX_ATTEMPTS as usize);
    }
    assert_eq!(MAX_ATTEMPTS, 6);
}

#[test]
fn other_failure_is_not_retried() {
    let refused = failure(IoErrorKind::ConnectionRefused);
    let script = vec![
        Attempt::Failed(refused.clone()),
        Attempt::Response(WORKSPACES.as_bytes().to_vec()),
    ];
    let (result, made) = play::<Workspaces>(script);
    assert_eq!(result, Err(Error::Io(refused)));
    assert_eq!(made, 1);

    let reset = failure(IoErrorKind::ConnectionReset);
    let script = broken_pipes_then(2, Attempt::Failed(reset.clone()));
    let (result, made) = play::<ActiveWindow>(script);
    assert_eq!(result, Err(Error::Io(reset)));
    assert_eq!(made, 3);
}

#[test]
fn record_counts_attempts_up_to_the_bound() {
    let mut progress = Request::new();
    assert_eq!(progress.attempts(), 0);
    for n in 1..MAX_ATTEMPTS {
        let decision = progress.record(Attempt::Failed(failure(IoErrorKind::BrokenPipe)));
        assert_eq!(decision, Decision::Retry);
        assert_eq!(progress.attempts(), n);
    }
    let decision = progress.record(Attempt::Failed(failure(IoErrorKind::BrokenPipe)));
    assert_eq!(decision, Decision::Fail(Error::MaxRetriesExceeded()));
    assert_eq!(progress.attempts(), MAX_ATTEMPTS);
    let decision = progress.record(Attempt::Failed(failure(IoErrorKind::BrokenPipe)));
    assert_eq!(decision, Decision::Fail(Error::MaxRetriesExceeded()));
    assert_eq!(progress.attempts(), MAX_ATTEMPTS);
    let decision = progress.record(Attempt::Response(vec![1, 2, 3]));
    assert_eq!(decision, Decision::Respond(vec![1, 2, 3]));
}

#[test]
fn workspace_listing() {
    let workspaces: Workspaces = decode_response(WORKSPACES.as_bytes()).expect("decodes");
    assert_eq!(
        workspaces,
        vec![Workspace {
            id: 1,
            name: "1".to_string(),
            monitor: "eDP-1".to_string(),
            windows: 2,
            hasfullscreen: false,
            lastwindow: "0x0".to_string(),
            lastwindowtitle: "term".to_string(),
        }]
    );
    let none: Workspaces = decode_response(b"[]").expect("decodes");
    assert!(none.is_empty());
}

#[test]
fn empty_active_window() {
    let window: ActiveWindow = decode_response(b"{}").expect("decodes");
    assert_eq!(window, ActiveWindow::default());
    assert_eq!(window.address, None);
    assert_eq!(window.title, None);
    assert_eq!(window.grouped, None);
}

#[test]
fn full_active_window() {
    let text = r#"{
        "address": "0x55d1a2b3c4d0", "mapped": true, "hidden": false,
        "at": [10, 20], "size": [800, 600],
        "workspace": {"address": "0x1", "name": "1", "id": 1},
        "floating": false, "monitor": 0, "class": "kitty", "title": "vim",
        "initialClass": "kitty", "initialTitle": "kitty", "pid": 4242,
        "xwayland": false, "pinned": false, "fullscreen": true, "fullscreenMode": -1,
        "fakeFullscreen": false, "grouped": ["0x1", "0x2"], "swallowing": null,
        "somethingNew": {"nested": [1, 2, 3]}
    }"#;
    let window: ActiveWindow = decode_response(text.as_bytes()).expect("decodes");
    assert_eq!(
        window,
        ActiveWindow {
            address: Some("0x55d1a2b3c4d0".to_string()),
            mapped: Some(true),
            hidden: Some(false),
            at: Some((10, 20)),
            size: Some((800, 600)),
            workspace: Some(PartialWorkspace { address: "0x1".to_string(), name: "1".to_string() }),
            floating: Some(false),
            monitor: Some(0),
            class: Some("kitty".to_string()),
            title: Some("vim".to_string()),
            initial_class: Some("kitty".to_string()),
            initial_title: Some("kitty".to_string()),
            pid: Some(4242),
            xwayland: Some(false),
            pinned: Some(false),
            fullscreen: Some(true),
            fullscreen_mode: Some(-1),
            fake_fullscreen: Some(false),
            grouped: Some(vec!["0x1".to_string(), "0x2".to_string()]),
            swallowing: None,
        }
    );
}

#[test]
fn camel_case_keys_are_matched_exactly() {
    let window: ActiveWindow =
        decode_response(br#"{"initial_class":"a","initialclass":"b","InitialClass":"c"}"#)
            .expect("decodes");
    assert_eq!(window.initial_class, None);
    let window: ActiveWindow = decode_response(br#"{"initialClass":"a"}"#).expect("decodes");
    assert_eq!(window.initial_class, Some("a".to_string()));
}

#[test]
fn malformed_json_is_a_syntax_error() {
    for text in ["", "{", "[1,", "{\"id\":}", "nul", "[] []", "{'a':1}"] {
        match decode_response::<Workspaces>(text.as_bytes()) {
            Err(Error::JsonParse(JsonError::Syntax(e))) => {
                assert!(e.line >= 1, "{:?}", text);
                assert!(!e.message.is_empty());
            }
            other => panic!("{:?} gave {:?}", text, other),
        }
    }
    match decode_response::<ActiveWindow>(b"{\n  \"title\": ?\n}") {
        Err(Error::JsonParse(JsonError::Syntax(e))) => {
            assert_eq!(e.line, 2);
            assert_eq!(e.column, 12);
        }
        other => panic!("{:?}", other),
    }
}

fn schema_error<T: Command + std::fmt::Debug>(text: &str) {
    match decode_response::<T>(text.as_bytes()) {
        Err(Error::JsonParse(JsonError::Schema)) => {}
        other => panic!("{:?} gave {:?}", text, other),
    }
}

#[test]
fn wrong_shape_is_a_schema_error() {
    schema_error::<Workspaces>("{}");
    schema_error::<Workspaces>("null");
    schema_error::<Workspaces>("[{}]");
    schema_error::<Workspaces>("[1]");
    // one field missing
    schema_error::<Workspaces>(
        r#"[{"id":1,"name":"1","monitor":"eDP-1","windows":2,"hasfullscreen":false,"lastwindow":"0x0"}]"#,
    );
    // wrong types
    schema_error::<Workspaces>(&WORKSPACES.replace("\"id\":1", "\"id\":\"1\""));
    schema_error::<Workspaces>(&WORKSPACES.replace("\"id\":1", "\"id\":-1"));
    schema_error::<Workspaces>(&WORKSPACES.replace("\"id\":1", "\"id\":1.5"));
    schema_error::<Workspaces>(&WORKSPACES.replace("\"id\":1", "\"id\":null"));
    schema_error::<Workspaces>(&WORKSPACES.replace("false", "0"));
    schema_error::<Workspaces>(&WORKSPACES.replace("\"term\"", "7"));
    // the second item is wrong
    schema_error::<Workspaces>(&format!("[{},{{}}]", &WORKSPACES[1..WORKSPACES.len() - 1]));

    schema_error::<ActiveWindow>("[]");
    schema_error::<ActiveWindow>("null");
    schema_error::<ActiveWindow>("\"\"");
    schema_error::<ActiveWindow>(r#"{"title": 1}"#);
    schema_error::<ActiveWindow>(r#"{"mapped": "yes"}"#);
    schema_error::<ActiveWindow>(r#"{"at": [1]}"#);
    schema_error::<ActiveWindow>(r#"{"at": [1, 2, 3]}"#);
    schema_error::<ActiveWindow>(r#"{"at": [1, -2]}"#);
    schema_error::<ActiveWindow>(r#"{"at": {"x": 1, "y": 2}}"#);
    schema_error::<ActiveWindow>(r#"{"workspace": {"name": "1"}}"#);
    schema_error::<ActiveWindow>(r#"{"workspace": []}"#);
    schema_error::<ActiveWindow>(r#"{"grouped": ["a", 1]}"#);
    schema_error::<ActiveWindow>(r#"{"grouped": "a"}"#);
    schema_error::<ActiveWindow>(r#"{"fullscreenMode": 2147483648}"#);
    schema_error::<ActiveWindow>(r#"{"fullscreenMode": -2147483649}"#);
    schema_error::<ActiveWindow>(r#"{"fullscreenMode": 1.0}"#);
    schema_error::<ActiveWindow>(r#"{"pid": 18446744073709551616}"#);
}

#[test]
fn integers_at_their_limits() {
    let window: ActiveWindow = decode_response(
        br#"{"fullscreenMode": 2147483647, "pid": 18446744073709551615, "monitor": 0}"#,
    )
    .expect("decodes");
    assert_eq!(window.fullscreen_mode, Some(i32::MAX));
    assert_eq!(window.pid, Some(u64::MAX));
    assert_eq!(window.monitor, Some(0));
    let window: ActiveWindow =
        decode_response(br#"{"fullscreenMode": -2147483648}"#).expect("decodes");
    assert_eq!(window.fullscreen_mode, Some(i32::MIN));
}

#[test]
fn null_is_absence_only_where_a_field_is_optional() {
    let window: ActiveWindow =
        decode_response(br#"{"title": null, "at": null, "workspace": null}"#).expect("decodes");
    assert_eq!(window, ActiveWindow::default());
}

#[test]
fn device_listing() {
    let text = r#"{
        "mice": [{"address": "0x1", "name": "mouse", "defaultSpeed": 0.5}],
        "keyboards": [{
            "address": "0x2", "name": "kbd", "rules": "", "model": "pc105", "layout": "us,de",
            "variant": "", "options": "caps:escape", "active_keymap": "English (US)", "main": true
        }],
        "tablets": [{
            "address": "0x3", "type": "tabletPad",
            "belongsTo": {"address": "0x4", "name": "wacom"}
        }],
        "touch": [{"address": "0x5", "name": "screen"}],
        "switches": [{"address": "0x6", "name": "lid"}, {"address": "0x7", "name": "tablet mode"}]
    }"#;
    let devices: Devices = decode_response(text.as_bytes()).expect("decodes");
    assert_eq!(devices.mice.len(), 1);
    assert_eq!(devices.mice[0].name, "mouse");
    assert_eq!(devices.mice[0].default_speed.as_f64(), Some(0.5));
    assert_eq!(devices.keyboards.len(), 1);
    assert_eq!(devices.keyboards[0].layout, "us,de");
    assert_eq!(devices.keyboards[0].active_keymap, "English (US)");
    assert!(devices.keyboards[0].main);
    assert_eq!(devices.tablets[0].type_, "tabletPad");
    assert_eq!(devices.tablets[0].belongs_to.name, "wacom");
    assert_eq!(devices.touch[0].address, "0x5");
    assert_eq!(devices.switches.len(), 2);
    assert_eq!(devices.switches[1].name, "tablet mode");

    schema_error::<Devices>(&text.replace("0.5", "\"fast\""));
    schema_error::<Devices>(&text.replace("\"belongsTo\"", "\"belongs_to\""));
    schema_error::<Devices>(&text.replace("\"touch\"", "\"touches\""));
}

const MONITORS: &str = r#"[{
    "id": 0, "name": "eDP-1", "description": "Built-in", "make": "BOE", "model": "0x0893",
    "serial": "", "width": 1920, "height": 1080, "refreshRate": 60.00100, "x": 0, "y": -1080,
    "activeWorkspace": {"id": 1, "name": "1"}, "specialWorkspace": {"id": 0, "name": ""},
    "reserved": [0, 30, 0, 0], "scale": 1, "transform": 0, "focused": true,
    "dpmsStatus": true, "vrr": false
}]"#;

#[test]
fn monitor_listing() {
    let monitors: Monitors = decode_response(MONITORS.as_bytes()).expect("decodes");
    assert_eq!(monitors.len(), 1);
    let monitor = &monitors[0];
    assert_eq!(monitor.id, 0);
    assert_eq!(monitor.name, "eDP-1");
    assert_eq!(monitor.width, 1920);
    assert_eq!(monitor.y, -1080);
    assert_eq!(monitor.refresh_rate.as_f64(), Some(60.001));
    assert_eq!(monitor.scale.as_f64(), Some(1.0));
    assert_eq!(monitor.active_workspace.id, 1);
    assert_eq!(monitor.active_workspace.name, "1");
    assert_eq!(monitor.special_workspace.name, "");
    assert_eq!(monitor.reserved, [0, 30, 0, 0]);
    assert!(monitor.focused);
    assert!(monitor.dpms_status);
    assert!(!monitor.vrr);
}

#[test]
fn monitor_of_a_wrong_shape() {
    schema_error::<Monitors>(&MONITORS.replace("[0, 30, 0, 0]", "[0, 30, 0]"));
    schema_error::<Monitors>(&MONITORS.replace("[0, 30, 0, 0]", "[0, 30, 0, 0, 0]"));
    schema_error::<Monitors>(&MONITORS.replace("[0, 30, 0, 0]", "[0, 30, 0, 0.5]"));
    schema_error::<Monitors>(&MONITORS.replace("\"scale\": 1", "\"scale\": \"1\""));
    schema_error::<Monitors>(&MONITORS.replace("\"width\": 1920", "\"width\": 4294967296"));
    schema_error::<Monitors>(&MONITORS.replace("\"dpmsStatus\"", "\"dpms_status\""));
    schema_error::<Monitors>(&MONITORS.replace("{\"id\": 1, \"name\": \"1\"}", "1"));
}

#[test]
fn values_are_read_from_documents() {
    let document: serde_json::Value =
        serde_json::from_str(r#"{"n": 7, "t": "x", "b": true, "l": [1, 2], "z": null}"#).unwrap();
    assert_eq!(<u64 as FromJson>::from_json(&document["n"]), Some(7));
    assert_eq!(<i32 as FromJson>::from_json(&document["n"]), Some(7));
    assert_eq!(<String as FromJson>::from_json(&document["n"]), None);
    assert_eq!(<String as FromJson>::from_json(&document["t"]), Some("x".to_string()));
    assert_eq!(<bool as FromJson>::from_json(&document["b"]), Some(true));
    assert_eq!(<bool as FromJson>::from_json(&document["n"]), None);
    assert_eq!(<Vec<u64> as FromJson>::from_json(&document["l"]), Some(vec![1, 2]));
    assert_eq!(<(u64, u64) as FromJson>::from_json(&document["l"]), Some((1, 2)));
    assert_eq!(<[i32; 4] as FromJson>::from_json(&document["l"]), None);
    assert_eq!(<Option<u64> as FromJson>::from_json(&document["z"]), Some(None));
    assert_eq!(<Option<u64> as FromJson>::from_json(&document["n"]), Some(Some(7)));
    assert_eq!(<Option<u64> as FromJson>::from_json(&document["t"]), None);
    assert_eq!(<u64 as FromJson>::from_json(&document["z"]), None);
    assert_eq!(
        <serde_json::Number as FromJson>::from_json(&document["n"]),
        Some(serde_json::Number::from(7u64))
    );
    assert_eq!(<serde_json::Number as FromJson>::from_json(&document["t"]), None);
}

#[test]
fn error_messages() {
    assert_eq!(Error::Io(failure(IoErrorKind::Other)).message(), "I/O error");
    assert_eq!(Error::MaxRetriesExceeded().message(), "Max retries exceeded");
    assert_eq!(Error::JsonParse(JsonError::Schema).message(), "JSON parsing error");
    assert_eq!(
        Error::ChannelError(crabshell::hyprland::events::Event::ConfigReloaded).message(),
        "Channel error"
    );
    assert_eq!(
        Error::Decode(crabshell::hyprland::decoder::DecodeError::MissingSeparator).message(),
        "Event decoding error"
    );
}
