use mermaid::pipeline::{
    content_type_of, error_body, format_of, message_of, status_of, Action, Event, FailureKind,
    Format, Outcome, Phase, Session,
};

fn new_session(text: &str, format: Format) -> Session {
    Session::new(
        text.to_string(),
        format,
        "<html></html>".to_string(),
        "var render;".to_string(),
    )
}

fn drive(text: &str, format: Format, events: Vec<Event>) -> (Vec<Action>, Outcome, usize) {
    let mut session = new_session(text, format);
    let first = session.first_action();
    assert_eq!(first, Action::CreateTab);
    let mut actions = Vec::new();
    let mut closes = 0;
    for ev in events {
        let action = session.step(ev);
        if matches!(action, Action::CloseTab) {
            closes += 1;
        }
        actions.push(action);
    }
    assert!(matches!(session.phase(), Phase::Done));
    assert!(session.is_done());
    (actions, session.finish(), closes)
}

#[test]
fn vector_success_returns_markup() {
    let (actions, outcome, closes) = drive(
        "graph TD; A-->B",
        Format::Svg,
        vec![
            Event::Succeeded,
            Event::Succeeded,
            Event::Succeeded,
            Event::Value("\"<svg>ok</svg>\"".to_string()),
            Event::Succeeded,
        ],
    );
    assert_eq!(
        actions,
        vec![
            Action::Navigate("data:text/html;charset=utf-8,<html></html>".to_string()),
            Action::InjectPayload("var render;".to_string()),
            Action::EvalRender("render('graph\\ TD;\\ A-->B')".to_string()),
            Action::CloseTab,
            Action::Finish,
        ]
    );
    match &outcome {
        Outcome::Svg(markup) => {
            assert!(markup.starts_with("<svg"));
            assert_eq!(markup, "<svg>ok</svg>");
        }
        other => panic!("expected markup, got {:?}", other),
    }
    assert_eq!(status_of(&outcome), 200);
    assert_eq!(content_type_of(&outcome), "image/svg+xml");
    assert_eq!(closes, 1);
}

#[test]
fn null_sentinel_is_render_failure() {
    let (_, outcome, closes) = drive(
        "",
        Format::Svg,
        vec![
            Event::Succeeded,
            Event::Succeeded,
            Event::Succeeded,
            Event::Value("\"null\"".to_string()),
            Event::Succeeded,
        ],
    );
    assert_eq!(outcome, Outcome::Failed(FailureKind::RenderEmpty));
    assert_eq!(status_of(&outcome), 400);
    assert_eq!(
        error_body(FailureKind::RenderEmpty),
        "{\"message\":\"render failed\"}"
    );
    assert_eq!(closes, 1);
}

#[test]
fn empty_reply_is_render_failure() {
    let (_, outcome, closes) = drive(
        "graph",
        Format::Svg,
        vec![
            Event::Succeeded,
            Event::Succeeded,
            Event::Succeeded,
            Event::Value("\"\"".to_string()),
            Event::Succeeded,
        ],
    );
    assert_eq!(outcome, Outcome::Failed(FailureKind::RenderEmpty));
    assert_eq!(closes, 1);
}

#[test]
fn navigation_failure_closes_context() {
    let (actions, outcome, closes) = drive(
        "graph",
        Format::Svg,
        vec![Event::Succeeded, Event::Failed, Event::Succeeded],
    );
    assert_eq!(actions[1], Action::CloseTab);
    assert_eq!(outcome, Outcome::Failed(FailureKind::Navigation));
    assert_eq!(
        message_of(FailureKind::Navigation),
        "failed to navigate to tab for diagram"
    );
    assert_eq!(closes, 1);
}

#[test]
fn payload_failure_closes_context() {
    let (_, outcome, closes) = drive(
        "graph",
        Format::Svg,
        vec![
            Event::Succeeded,
            Event::Succeeded,
            Event::Failed,
            Event::Succeeded,
        ],
    );
    assert_eq!(outcome, Outcome::Failed(FailureKind::PayloadInjection));
    assert_eq!(closes, 1);
}

#[test]
fn evaluation_failure_closes_context() {
    let (_, outcome, closes) = drive(
        "graph",
        Format::Svg,
        vec![
            Event::Succeeded,
            Event::Succeeded,
            Event::Succeeded,
            Event::Failed,
            Event::Succeeded,
        ],
    );
    assert_eq!(outcome, Outcome::Failed(FailureKind::Evaluation));
    assert_eq!(closes, 1);
}

#[test]
fn raster_success_returns_bitmap() {
    let (actions, outcome, closes) = drive(
        "graph TD; A-->B",
        Format::Png,
        vec![
            Event::Succeeded,
            Event::Succeeded,
            Event::Succeeded,
            Event::Value("\"<svg/>\"".to_string()),
            Event::Succeeded,
            Event::Succeeded,
            Event::Metrics(100, 50),
            Event::Bytes(vec![1, 2, 3]),
            Event::Succeeded,
        ],
    );
    assert_eq!(
        actions[3],
        Action::Navigate("data:image/svg+xml,%3Csvg%2F%3E".to_string())
    );
    assert_eq!(actions[4], Action::AwaitNavigation);
    assert!(matches!(actions[5], Action::MeasureLayout(_)));
    assert_eq!(actions[6], Action::CaptureShot(100, 50));
    assert_eq!(outcome, Outcome::Png(vec![1, 2, 3]));
    assert_eq!(status_of(&outcome), 200);
    assert_eq!(content_type_of(&outcome), "image/png");
    assert_eq!(closes, 1);
}

#[test]
fn capture_navigation_failure_closes_context() {
    let (_, outcome, closes) = drive(
        "graph",
        Format::Png,
        vec![
            Event::Succeeded,
            Event::Succeeded,
            Event::Succeeded,
            Event::Value("\"<svg/>\"".to_string()),
            Event::Failed,
            Event::Succeeded,
        ],
    );
    assert_eq!(outcome, Outcome::Failed(FailureKind::CaptureNavigation));
    assert_eq!(closes, 1);
}

#[test]
fn capture_wait_failure_closes_context() {
    let (_, outcome, closes) = drive(
        "graph",
        Format::Png,
        vec![
            Event::Succeeded,
            Event::Succeeded,
            Event::Succeeded,
            Event::Value("\"<svg/>\"".to_string()),
            Event::Succeeded,
            Event::Failed,
            Event::Succeeded,
        ],
    );
    assert_eq!(outcome, Outcome::Failed(FailureKind::CaptureWait));
    assert_eq!(closes, 1);
}

#[test]
fn measurement_failure_closes_context() {
    let (_, outcome, closes) = drive(
        "graph",
        Format::Png,
        vec![
            Event::Succeeded,
            Event::Succeeded,
            Event::Succeeded,
            Event::Value("\"<svg/>\"".to_string()),
            Event::Succeeded,
            Event::Succeeded,
            Event::Failed,
            Event::Succeeded,
        ],
    );
    assert_eq!(outcome, Outcome::Failed(FailureKind::Measurement));
    assert_eq!(closes, 1);
}

#[test]
fn capture_failure_closes_context() {
    let (_, outcome, closes) = drive(
        "graph",
        Format::Png,
        vec![
            Event::Succeeded,
            Event::Succeeded,
            Event::Succeeded,
            Event::Value("\"<svg/>\"".to_string()),
            Event::Succeeded,
            Event::Succeeded,
            Event::Metrics(10, 10),
            Event::Failed,
            Event::Succeeded,
        ],
    );
    assert_eq!(outcome, Outcome::Failed(FailureKind::Capture));
    assert_eq!(closes, 1);
}

#[test]
fn one_restart_attempt_then_success() {
    let (actions, outcome, closes) = drive(
        "graph",
        Format::Svg,
        vec![
            Event::Failed,
            Event::Succeeded,
            Event::Succeeded,
            Event::Succeeded,
            Event::Succeeded,
            Event::Value("\"<svg/>\"".to_string()),
            Event::Succeeded,
        ],
    );
    assert_eq!(actions[0], Action::ReplaceBrowser);
    assert_eq!(actions[1], Action::CreateTab);
    assert!(matches!(actions[2], Action::Navigate(_)));
    assert_eq!(outcome, Outcome::Svg("<svg/>".to_string()));
    assert_eq!(closes, 1);
}

#[test]
fn restart_failure_is_terminal() {
    let (actions, outcome, closes) = drive(
        "graph",
        Format::Svg,
        vec![Event::Failed, Event::Failed],
    );
    assert_eq!(actions, vec![Action::ReplaceBrowser, Action::Finish]);
    assert_eq!(outcome, Outcome::Failed(FailureKind::BrowserRestart));
    assert_eq!(
        message_of(FailureKind::BrowserRestart),
        "Failed to restart browser"
    );
    assert_eq!(closes, 0);
}

#[test]
fn retry_failure_is_terminal_without_second_restart() {
    let (actions, outcome, closes) = drive(
        "graph",
        Format::Svg,
        vec![Event::Failed, Event::Succeeded, Event::Failed],
    );
    assert_eq!(
        actions,
        vec![Action::ReplaceBrowser, Action::CreateTab, Action::Finish]
    );
    assert_eq!(outcome, Outcome::Failed(FailureKind::TabAfterRestart));
    assert_eq!(
        message_of(FailureKind::TabAfterRestart),
        "Failed to create tab even after browser restart"
    );
    assert_eq!(closes, 0);
}

#[test]
fn escaped_text_survives_into_script() {
    let mut session = new_session("a\nb", Format::Svg);
    let _ = session.first_action();
    let _ = session.step(Event::Succeeded);
    let _ = session.step(Event::Succeeded);
    let action = session.step(Event::Succeeded);
    assert_eq!(action, Action::EvalRender("render('a\\nb')".to_string()));
}

#[test]
fn quoted_text_survives_into_script() {
    let mut session = new_session("a'b", Format::Svg);
    let _ = session.first_action();
    let _ = session.step(Event::Succeeded);
    let _ = session.step(Event::Succeeded);
    let action = session.step(Event::Succeeded);
    assert_eq!(action, Action::EvalRender("render('a\\'b')".to_string()));
}

#[test]
fn escaped_reply_is_decoded() {
    let (_, outcome, _) = drive(
        "graph",
        Format::Svg,
        vec![
            Event::Succeeded,
            Event::Succeeded,
            Event::Succeeded,
            Event::Value("\"a\\nb\"".to_string()),
            Event::Succeeded,
        ],
    );
    assert_eq!(outcome, Outcome::Svg("a\nb".to_string()));
}

#[test]
fn only_one_quote_layer_is_stripped() {
    let (_, outcome, _) = drive(
        "graph",
        Format::Svg,
        vec![
            Event::Succeeded,
            Event::Succeeded,
            Event::Succeeded,
            Event::Value("\"\"x\"\"".to_string()),
            Event::Succeeded,
        ],
    );
    assert_eq!(outcome, Outcome::Svg("\"x\"".to_string()));
}

#[test]
fn failure_messages_are_exact() {
    assert_eq!(
        message_of(FailureKind::PayloadInjection),
        "payload evaluation failed"
    );
    assert_eq!(message_of(FailureKind::Evaluation), "failed to evaluate diagram");
    assert_eq!(message_of(FailureKind::RenderEmpty), "render failed");
    assert_eq!(
        message_of(FailureKind::CaptureNavigation),
        "failed to navigate to tab for screenshot"
    );
    assert_eq!(
        message_of(FailureKind::CaptureWait),
        "failed to wait until navigated to tab for screenshot"
    );
    assert_eq!(
        message_of(FailureKind::Measurement),
        "failed to resize viewport for screenshot"
    );
    assert_eq!(message_of(FailureKind::Capture), "failed to capture screenshot");
}

#[test]
fn requested_format_is_recognised() {
    assert_eq!(format_of(&None), Format::Svg);
    assert_eq!(format_of(&Some("svg".to_string())), Format::Svg);
    assert_eq!(format_of(&Some("png".to_string())), Format::Png);
    assert_eq!(format_of(&Some("PNG".to_string())), Format::Svg);
}

#[test]
fn failure_content_type_is_json() {
    let outcome = Outcome::Failed(FailureKind::Navigation);
    assert_eq!(content_type_of(&outcome), "application/json");
    assert_eq!(status_of(&outcome), 400);
}
