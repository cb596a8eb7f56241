use tmuxph::create::TmuxpSessionCreation;
use tmuxph::edit::TmuxpSessionEdition;
use tmuxph::errors::Errcode;
use tmuxph::pane::{FocusedPane, PaneSerializer};
use tmuxph::serialisation::{strval_to_string, JsonValue};
use tmuxph::session::TmuxSession;
use tmuxph::window::TmuxWindow;

fn abc_panes() -> PaneSerializer {
    PaneSerializer::create(
        FocusedPane::from_cmd("a".to_string()),
        0,
        vec!["b".to_string(), "c".to_string()],
    )
}

#[test]
fn test_set_focus_moves_role() {
    let mut p = abc_panes();
    p.set_focus(2).expect("focus move should succeed");
    assert_eq!(p.focused.shell_command, "c");
    assert_eq!(p.nb_panes(), 3);
    let mut others = p.others.clone();
    others.sort();
    assert_eq!(others, vec!["a", "b"]);
}

#[test]
fn test_set_focus_noop_and_error() {
    let mut p = abc_panes();
    p.set_focus(0).expect("focusing the focused index is a no-op");
    assert_eq!(p.focused.shell_command, "a");
    assert!(matches!(p.set_focus(5), Err(Errcode::IndexOutOfRange(5, 3))));
}

#[test]
fn test_set_panes_cmds_positional() {
    let mut p = PaneSerializer::create(
        FocusedPane::from_cmd("old".to_string()),
        1,
        vec!["x".to_string(), "y".to_string()],
    );
    p.set_panes_cmds(&vec!["one".to_string(), "two".to_string(), "three".to_string()]);
    assert_eq!(p.focused.shell_command, "two");
    assert_eq!(p.others, vec!["one", "three"]);
    assert_eq!(p.focused_index, 1);
}

#[test]
fn test_get_panes_cmds_linear_order() {
    let mut p = abc_panes();
    let cmds = p.get_panes_cmds().unwrap();
    assert_eq!(cmds, vec!["a", "b", "c"]);
}

#[test]
fn test_append_grows_others() {
    let mut p = abc_panes();
    p.append("d".to_string());
    assert_eq!(p.nb_panes(), 4);
    assert_eq!(p.others, vec!["b", "c", "d"]);
}

fn sample_creation() -> TmuxpSessionCreation {
    TmuxpSessionCreation {
        session_name: "my session".to_string(),
        start_directory: "/tmp".to_string(),
        focus: 1,
        windows_description: vec![
            "code:/tmp:off:0:nvim:cargo-watch -c:clear && bash".to_string(),
            "".to_string(),
            "dev:/tmp:on:1:vim:5be4,211x62,0,0,15#bash".to_string(),
        ],
        default: false,
        dump: false,
    }
}

#[test]
fn test_creation_builds_windows() {
    let ses = TmuxSession::try_from_creation(&sample_creation()).expect("creation should work");
    assert_eq!(ses.session_name, "my session");
    assert_eq!(ses.start_directory, "/tmp");
    assert_eq!(ses.windows.len(), 3);
    assert_eq!(ses.windows[0].window_name, "code");
    // the empty descriptor stands for a default window at the session's directory
    assert_eq!(ses.windows[1].window_name, "default");
    assert_eq!(ses.windows[1].start_directory, "/tmp");
    assert_eq!(ses.windows[2].window_name, "dev");
    // the requested window is focused, and only that one
    assert!(!ses.windows[0].focus);
    assert!(ses.windows[1].focus);
    assert!(!ses.windows[2].focus);
}

#[test]
fn test_creation_default_flag() {
    let c = TmuxpSessionCreation {
        session_name: "s".to_string(),
        start_directory: "/home/me".to_string(),
        focus: 0,
        windows_description: vec![],
        default: true,
        dump: false,
    };
    let ses = TmuxSession::try_from_creation(&c).unwrap();
    assert_eq!(ses.windows.len(), 1);
    assert_eq!(ses.windows[0].window_name, "default");
    assert_eq!(ses.windows[0].start_directory, "/home/me");
    assert!(ses.windows[0].focus);
}

#[test]
fn test_creation_propagates_descriptor_error() {
    let mut c = sample_creation();
    c.windows_description.push("bad:/tmp:off:nan:cmd".to_string());
    assert!(matches!(
        TmuxSession::try_from_creation(&c),
        Err(Errcode::ParsingError(_))
    ));
}

#[test]
fn test_focus_uniqueness() {
    let mut ses = TmuxSession::try_from_creation(&sample_creation()).unwrap();
    ses.set_window_focus(2).expect("index 2 exists");
    let focused: Vec<usize> = ses
        .windows
        .iter()
        .enumerate()
        .filter(|(_, w)| w.focus)
        .map(|(i, _)| i)
        .collect();
    assert_eq!(focused, vec![2]);
    assert!(matches!(
        ses.set_window_focus(9),
        Err(Errcode::IndexOutOfRange(9, 3))
    ));
}

#[test]
fn test_get_window_ref_or_create() {
    let mut ses = TmuxSession::try_from_creation(&sample_creation()).unwrap();
    assert!(matches!(
        ses.get_window_ref(7),
        Err(Errcode::WindowNotFound(7, 3))
    ));
    {
        let w = ses.init_new_window().unwrap();
        assert_eq!(w.window_name, "default");
        assert_eq!(w.start_directory, "/tmp");
    }
    assert_eq!(ses.windows.len(), 4);
    let w = ses.get_window_ref(3).expect("the new window exists");
    w.window_name = "renamed".to_string();
    assert_eq!(ses.windows[3].window_name, "renamed");
}

#[test]
fn test_session_round_trip() {
    let ses = TmuxSession::try_from_creation(&sample_creation()).unwrap();
    let encoded = ses.to_json();
    let decoded = TmuxSession::from_json(&encoded).expect("decode of an encoded session");
    assert_eq!(decoded.session_name, ses.session_name);
    assert_eq!(decoded.start_directory, ses.start_directory);
    assert_eq!(decoded.windows.len(), ses.windows.len());
    for (dw, ow) in decoded.windows.iter().zip(ses.windows.iter()) {
        assert_eq!(dw.window_name, ow.window_name);
        assert_eq!(dw.layout, ow.layout);
        assert_eq!(dw.focus, ow.focus);
        assert_eq!(dw.start_directory, ow.start_directory);
        assert_eq!(dw.automatic_rename, ow.automatic_rename);
        assert_eq!(dw.panes.focused_index, ow.panes.focused_index);
        assert_eq!(dw.panes.focused.shell_command, ow.panes.focused.shell_command);
        assert_eq!(dw.panes.focused.focus, ow.panes.focused.focus);
        assert_eq!(dw.panes.others, ow.panes.others);
    }
}

#[test]
fn test_focused_pane_encoding_quirk() {
    // the focus marker is stored as the string "true", not a boolean
    let p = FocusedPane::from_cmd("vim".to_string());
    match p.to_json() {
        JsonValue::Object(entries) => {
            assert_eq!(entries.len(), 2);
            assert_eq!(entries[0].0, "shell_command");
            assert!(matches!(&entries[0].1, JsonValue::Str(s) if s == "vim"));
            assert_eq!(entries[1].0, "focus");
            assert!(matches!(&entries[1].1, JsonValue::Str(s) if s == "true"));
        },
        _ => panic!("focused pane must encode as an object"),
    }
}

#[test]
fn test_pane_array_shape() {
    let mut p = abc_panes();
    p.set_focus(1).unwrap();
    // focused command is now "b"; the array keeps the focused slot position
    match PaneSerializer::to_json(&p) {
        JsonValue::Array(elems) => {
            assert_eq!(elems.len(), 3);
            assert!(matches!(elems[0], JsonValue::Object(_)));
            assert!(matches!(&elems[1], JsonValue::Str(_)));
            assert!(matches!(&elems[2], JsonValue::Str(_)));
        },
        _ => panic!("panes must encode as an array"),
    }
}

#[test]
fn test_window_decode_tolerates_unknown_keys() {
    let ses = TmuxSession::try_from_creation(&sample_creation()).unwrap();
    let encoded = ses.windows[0].to_json();
    let with_extra = match encoded {
        JsonValue::Object(mut entries) => {
            entries.push(("some_future_key".to_string(), JsonValue::Null));
            JsonValue::Object(entries)
        },
        _ => panic!("window must encode as an object"),
    };
    let w = TmuxWindow::from_json(&with_extra).expect("unknown window keys are skipped");
    assert_eq!(w.window_name, "code");
}

#[test]
fn test_window_decode_errors() {
    // panes value that is not an array
    let v = JsonValue::Object(vec![("panes".to_string(), JsonValue::Null)]);
    assert!(matches!(TmuxWindow::from_json(&v), Err(Errcode::JsonError(_))));

    // a panes array with no focused-pane object
    let v = JsonValue::Object(vec![(
        "panes".to_string(),
        JsonValue::Array(vec![JsonValue::Str("ls".to_string())]),
    )]);
    assert!(matches!(TmuxWindow::from_json(&v), Err(Errcode::JsonError(_))));

    // an unknown key inside the focused-pane object is a hard error
    let v = JsonValue::Object(vec![(
        "panes".to_string(),
        JsonValue::Array(vec![JsonValue::Object(vec![(
            "surprise".to_string(),
            JsonValue::Str("x".to_string()),
        )])]),
    )]);
    assert!(matches!(TmuxWindow::from_json(&v), Err(Errcode::JsonError(_))));

    // a window name that is not a string primitive
    let v = JsonValue::Object(vec![("window_name".to_string(), JsonValue::Bool(true))]);
    assert!(matches!(TmuxWindow::from_json(&v), Err(Errcode::JsonError(_))));

    // an unknown option key is reported as OptionNotFound
    let v = JsonValue::Object(vec![(
        "options".to_string(),
        JsonValue::Object(vec![("mouse".to_string(), JsonValue::Str("on".to_string()))]),
    )]);
    assert!(matches!(TmuxWindow::from_json(&v), Err(Errcode::OptionNotFound(_))));

    // options that are not an object
    let v = JsonValue::Object(vec![("options".to_string(), JsonValue::Str("on".to_string()))]);
    assert!(matches!(TmuxWindow::from_json(&v), Err(Errcode::JsonError(_))));
}

#[test]
fn test_session_decode_requires_fields() {
    let v = JsonValue::Object(vec![(
        "session_name".to_string(),
        JsonValue::Str("s".to_string()),
    )]);
    assert!(matches!(TmuxSession::from_json(&v), Err(Errcode::JsonError(_))));
    assert!(matches!(
        TmuxSession::from_json(&JsonValue::Null),
        Err(Errcode::JsonError(_))
    ));
}

#[test]
fn test_strval_to_string() {
    assert_eq!(strval_to_string(&JsonValue::Str("hi".to_string())).unwrap(), "hi");
    assert!(matches!(
        strval_to_string(&JsonValue::Bool(true)),
        Err(Errcode::JsonError(_))
    ));
}

#[test]
fn test_session_file_name() {
    assert_eq!(
        TmuxSession::session_file_name(&"my tmux session".to_string()),
        "my_tmux_session.json"
    );
    assert_eq!(TmuxSession::session_file_name(&"plain".to_string()), "plain.json");
}

#[test]
fn test_apply_edition_edits_window() {
    let mut ses = TmuxSession::try_from_creation(&sample_creation()).unwrap();
    let args = TmuxpSessionEdition {
        name: "my session".to_string(),
        window_ind: 0,
        layout: None,
        window_name: Some("renamed".to_string()),
        commandlist: vec!["top".to_string(), "htop".to_string()],
        focus: Some(1),
        window_focused: true,
        start_directory: Some("/var".to_string()),
        dump: false,
    };
    args.apply_edition(&mut ses, &vec![], &vec![])
        .expect("the edit should succeed");
    let w = &ses.windows[0];
    assert_eq!(w.window_name, "renamed");
    assert_eq!(w.start_directory, "/var");
    // commands were replaced positionally (focused index 0 takes "top"),
    // then the focus role moved to linear position 1
    assert_eq!(w.panes.focused.shell_command, "htop");
    assert_eq!(w.panes.others, vec!["top"]);
    assert!(w.focus);
    assert!(!ses.windows[1].focus);
}

#[test]
fn test_apply_edition_creates_missing_window() {
    let mut ses = TmuxSession::try_from_creation(&sample_creation()).unwrap();
    let args = TmuxpSessionEdition {
        name: "my session".to_string(),
        window_ind: 9,
        layout: None,
        window_name: None,
        commandlist: vec![],
        focus: None,
        window_focused: false,
        start_directory: None,
        dump: false,
    };
    args.apply_edition(&mut ses, &vec![], &vec![]).expect("a window is created");
    assert_eq!(ses.windows.len(), 4);
    assert_eq!(ses.windows[3].window_name, "default");
}

#[test]
fn test_apply_edition_propagates_errors() {
    let mut ses = TmuxSession::try_from_creation(&sample_creation()).unwrap();
    let args = TmuxpSessionEdition {
        name: "my session".to_string(),
        window_ind: 0,
        layout: None,
        window_name: None,
        commandlist: vec![],
        focus: Some(9),
        window_focused: false,
        start_directory: None,
        dump: false,
    };
    assert!(matches!(
        args.apply_edition(&mut ses, &vec![], &vec![]),
        Err(Errcode::IndexOutOfRange(9, 3))
    ));
}

#[test]
fn test_is_wf() {
    let ses = TmuxSession::try_from_creation(&sample_creation()).unwrap();
    assert!(ses.is_wf());
    let mut broken = ses;
    broken.windows[0].panes.focused_index = 10;
    assert!(!broken.is_wf());
}
