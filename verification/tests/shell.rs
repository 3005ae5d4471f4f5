use schrosim_gui::{exit_code, CentralPanel, RunOutcome, SchroSimApp, TextElement, TextStyle};

#[test]
fn window_title_is_schrosim() {
    assert_eq!(SchroSimApp::window_title(), "SchroSIM");
}

#[test]
fn frame_holds_heading_then_label() {
    let mut app = SchroSimApp::default();
    let panel = app.update();
    assert_eq!(
        panel.widgets,
        vec![
            TextElement { style: TextStyle::Heading, text: "SchroSIM GUI" },
            TextElement { style: TextStyle::Label, text: "Phase 2: GUI bootstrap" },
        ]
    );
}

#[test]
fn frame_holds_exactly_two_elements() {
    let mut app = SchroSimApp::default();
    let panel = app.update();
    assert_eq!(panel.widgets.len(), 2);
    assert_eq!(panel.widgets[0].style, TextStyle::Heading);
    assert_eq!(panel.widgets[0].text, "SchroSIM GUI");
    assert_eq!(panel.widgets[1].style, TextStyle::Label);
    assert_eq!(panel.widgets[1].text, "Phase 2: GUI bootstrap");
}

#[test]
fn repeated_frames_are_identical() {
    let mut app = SchroSimApp::default();
    let first = app.update();
    for _ in 0..100 {
        let next = app.update();
        assert_eq!(next, first);
    }
}

#[test]
fn frames_of_separate_apps_are_identical() {
    let mut one = SchroSimApp::default();
    let mut other = SchroSimApp;
    for _ in 0..3 {
        one.update();
    }
    assert_eq!(one.update(), other.update());
}

#[test]
fn update_leaves_state_unchanged() {
    let mut app = SchroSimApp::default();
    let before = app;
    app.update();
    assert_eq!(app, before);
    assert_eq!(app, SchroSimApp);
}

#[test]
fn state_is_empty() {
    assert_eq!(std::mem::size_of::<SchroSimApp>(), 0);
    assert_eq!(SchroSimApp::default(), SchroSimApp);
}

#[test]
fn new_panel_is_empty() {
    let panel = CentralPanel::new();
    assert!(panel.widgets.is_empty());
}

#[test]
fn heading_appends_below_existing_widgets() {
    let mut panel = CentralPanel::new();
    panel.label("first");
    panel.heading("second");
    assert_eq!(
        panel.widgets,
        vec![
            TextElement { style: TextStyle::Label, text: "first" },
            TextElement { style: TextStyle::Heading, text: "second" },
        ]
    );
}

#[test]
fn label_appends_below_existing_widgets() {
    let mut panel = CentralPanel::new();
    panel.heading("title");
    panel.label("body");
    panel.label("more");
    assert_eq!(panel.widgets.len(), 3);
    assert_eq!(panel.widgets[2], TextElement::label("more"));
    assert_eq!(panel.widgets[0], TextElement::heading("title"));
}

#[test]
fn text_element_constructors_set_style_and_text() {
    let heading = TextElement::heading("a");
    assert_eq!(heading.style, TextStyle::Heading);
    assert_eq!(heading.text, "a");
    let label = TextElement::label("");
    assert_eq!(label.style, TextStyle::Label);
    assert_eq!(label.text, "");
    assert_ne!(TextElement::heading("a"), TextElement::label("a"));
}

#[test]
fn normal_close_exits_with_zero() {
    assert_eq!(exit_code(RunOutcome::Closed), 0);
}

#[test]
fn failed_startup_exits_with_non_zero() {
    assert_eq!(exit_code(RunOutcome::StartupFailed), 1);
    assert_ne!(exit_code(RunOutcome::StartupFailed), exit_code(RunOutcome::Closed));
}
