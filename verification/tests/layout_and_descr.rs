use tmuxph::errors::Errcode;
use tmuxph::layout::get_npane_from_layout;
use tmuxph::window::TmuxWindow;

#[test]
fn test_get_npane_from_layout() {
    let test_points = vec![
        ("5be4,211x62,0,0,15", 1),
        ("f93e,211x62,0,0[211x31,0,0,15,211x30,0,32,24]", 2),
        ("6669,211x62,0,0{105x62,0,0,15,105x62,106,0,25}", 2),
        ("dcbe,211x62,0,0{105x62,0,0[105x31,0,0,15,105x30,0,32,26],105x62,106,0,25}", 3),
        (
            "7303,211x62,0,0{105x62,0,0[105x31,0,0,15,105x30,0,32,26],105x62,106,0[105x31,106,0,25,105x30,106,32,27]}",
            4,
        ),
        (
            "1bd3,211x62,0,0{105x62,0,0[105x31,0,0,15,105x30,0,32,26],105x62,106,0[105x31,106,0,25,105x15,106,32,27,105x14,106,48{52x14,106,48,28,26x14,159,48,29,25x14,186,48[25x7,186,48,30,25x6,186,56,31]}]}",
            8,
        ),
    ];

    for (ntest, (layout, exp)) in test_points.iter().enumerate() {
        let got = get_npane_from_layout(layout).expect("Layout parsing raised error");
        println!("Layout {} expect {} panes, got {}", ntest, exp, got);
        assert_eq!(got, *exp);
    }
}

#[test]
fn test_layout_grammar_mismatch() {
    // a nested leaf with too few fields before its closing delimiter
    let r = get_npane_from_layout("f93e,211x62,0,0[211x31,0,15,211x30,0,32,24]");
    assert!(matches!(r, Err(Errcode::ParsingError(_))));
    // a single leaf with the wrong field count
    assert!(matches!(
        get_npane_from_layout("5be4,211x62,0,0"),
        Err(Errcode::ParsingError(_))
    ));
    // the empty string is not a layout
    assert!(matches!(get_npane_from_layout(""), Err(Errcode::ParsingError(_))));
}

#[test]
fn test_descriptor_parse() {
    let w = TmuxWindow::from_descr("code:/tmp:off:0:nvim:cargo-watch -c:clear && bash")
        .expect("descriptor should parse");
    assert_eq!(w.window_name, "code");
    assert_eq!(w.start_directory, "/tmp");
    assert!(!w.automatic_rename);
    assert!(!w.focus);
    assert_eq!(w.panes.focused_index, 0);
    assert_eq!(w.layout, None);
    assert_eq!(w.panes.focused.shell_command, "nvim");
    assert_eq!(w.panes.others, vec!["cargo-watch -c", "clear && bash"]);
}

#[test]
fn test_descriptor_layout_tag() {
    let w = TmuxWindow::from_descr("dev:/tmp:on:1:vim:5be4,211x62,0,0,15#bash")
        .expect("descriptor should parse");
    assert_eq!(w.window_name, "dev");
    assert!(w.automatic_rename);
    assert_eq!(w.layout, Some("5be4,211x62,0,0,15".to_string()));
    assert_eq!(w.panes.focused_index, 1);
    assert_eq!(w.panes.focused.shell_command, "bash");
    assert_eq!(w.panes.others, vec!["vim"]);
}

#[test]
fn test_descriptor_non_numeric_index() {
    let r = TmuxWindow::from_descr("code:/tmp:off:abc:nvim");
    assert!(matches!(r, Err(Errcode::ParsingError(_))));
}

#[test]
fn test_descriptor_missing_fields() {
    assert!(matches!(TmuxWindow::from_descr(""), Err(Errcode::ParsingError(_))));
    assert!(matches!(TmuxWindow::from_descr("justaname"), Err(Errcode::ParsingError(_))));
    assert!(matches!(TmuxWindow::from_descr("a:b:c"), Err(Errcode::ParsingError(_))));
}

#[test]
fn test_descriptor_focus_out_of_range() {
    let r = TmuxWindow::from_descr("code:/tmp:off:5:nvim");
    assert!(matches!(r, Err(Errcode::IndexOutOfRange(5, 1))));
    let r2 = TmuxWindow::from_descr("code:/tmp:off:0");
    assert!(matches!(r2, Err(Errcode::IndexOutOfRange(0, 0))));
}

#[test]
fn test_default_window() {
    let w = TmuxWindow::default();
    assert_eq!(w.window_name, "default");
    assert_eq!(w.start_directory, "/tmp/");
    assert_eq!(w.layout, None);
    assert!(!w.focus);
    assert!(!w.automatic_rename);
    assert_eq!(w.panes.nb_panes(), 1);
    assert_eq!(w.panes.focused.shell_command, "clear && bash");
}

#[test]
fn test_set_layout_grow_and_shrink() {
    let mut w = TmuxWindow::default();
    let two = "f93e,211x62,0,0[211x31,0,0,15,211x30,0,32,24]".to_string();
    w.set_layout(&two, &vec![], &vec!["echo hi".to_string()])
        .expect("growing to two panes should succeed");
    assert_eq!(w.panes.nb_panes(), 2);
    assert_eq!(w.layout, Some(two.clone()));
    assert_eq!(w.panes.focused.shell_command, "clear && bash");
    assert_eq!(w.panes.others, vec!["echo hi"]);

    let one = "5be4,211x62,0,0,15".to_string();
    w.set_layout(&one, &vec![1], &vec![])
        .expect("shrinking to one pane should succeed");
    assert_eq!(w.panes.nb_panes(), 1);
    assert_eq!(w.layout, Some(one));
    assert_eq!(w.panes.focused.shell_command, "clear && bash");
    assert!(w.panes.others.is_empty());
}

#[test]
fn test_set_layout_errors() {
    let mut w = TmuxWindow::default();
    let bad = "not a layout".to_string();
    assert!(matches!(
        w.set_layout(&bad, &vec![], &vec![]),
        Err(Errcode::ParsingError(_))
    ));
    // the window is untouched after a failure
    assert_eq!(w.panes.nb_panes(), 1);
    assert_eq!(w.layout, None);

    let two = "f93e,211x62,0,0[211x31,0,0,15,211x30,0,32,24]".to_string();
    assert!(matches!(
        w.set_layout(&two, &vec![], &vec![]),
        Err(Errcode::ArgValidationError(_))
    ));

    let one = "5be4,211x62,0,0,15".to_string();
    w.set_layout(&two, &vec![], &vec!["x".to_string()]).unwrap();
    assert!(matches!(
        w.set_layout(&one, &vec![7], &vec![]),
        Err(Errcode::IndexOutOfRange(7, 2))
    ));
}
