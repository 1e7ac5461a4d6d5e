use texpresso::io::TexpressoStdout;
use texpresso::status::{
    error_chain_lines, report_lines, rule_line, suppress_message, ChatterLevel, MessageKind,
    ReportRoute, TexpressoStatusBackend,
};

#[test]
fn minimal_chatter_suppresses_notes_only() {
    assert!(suppress_message(ChatterLevel::Minimal, MessageKind::Note));
    assert!(!suppress_message(ChatterLevel::Minimal, MessageKind::Warning));
    assert!(!suppress_message(ChatterLevel::Minimal, MessageKind::Error));
    assert!(!suppress_message(ChatterLevel::Normal, MessageKind::Note));
    assert!(!suppress_message(ChatterLevel::Normal, MessageKind::Warning));
    assert!(!suppress_message(ChatterLevel::Normal, MessageKind::Error));
}

#[test]
fn notes_go_to_stderr_and_the_rest_to_the_channel() {
    let b = TexpressoStatusBackend::new(ChatterLevel::Normal, TexpressoStdout);
    assert_eq!(b.report_route(MessageKind::Note), ReportRoute::Stderr);
    assert_eq!(b.report_route(MessageKind::Warning), ReportRoute::Channel);
    assert_eq!(b.report_route(MessageKind::Error), ReportRoute::Channel);
    let quiet = TexpressoStatusBackend::new(ChatterLevel::Minimal, TexpressoStdout);
    assert_eq!(quiet.report_route(MessageKind::Note), ReportRoute::Suppressed);
    assert_eq!(quiet.report_route(MessageKind::Warning), ReportRoute::Channel);
}

#[test]
fn report_lines_prefix_the_message_and_chain_the_causes() {
    let causes = vec![String::from("disk on fire"), String::from("no water")];
    let lines = report_lines("warning:", "cannot save", &causes);
    assert_eq!(
        lines,
        vec![
            String::from("warning: cannot save"),
            String::from("caused by: disk on fire"),
            String::from("caused by: no water"),
        ]
    );
}

#[test]
fn a_full_report_picks_prefix_and_route_by_kind() {
    let b = TexpressoStatusBackend::new(ChatterLevel::Normal, TexpressoStdout);
    let (route, lines) = b.report(MessageKind::Error, "bad input", &vec![]);
    assert_eq!(route, ReportRoute::Channel);
    assert_eq!(lines, vec![String::from("error: bad input")]);
    let (route, lines) = b.report(MessageKind::Note, "all good", &vec![]);
    assert_eq!(route, ReportRoute::Stderr);
    assert_eq!(lines, vec![String::from("note: all good")]);
}

#[test]
fn error_chains_open_with_error_and_continue_with_caused_by() {
    let items = vec![
        String::from("top level failed"),
        String::from("middle failed"),
        String::from("root cause"),
    ];
    let lines = error_chain_lines(&items);
    assert_eq!(
        lines,
        vec![
            String::from("error: top level failed"),
            String::from("caused by: middle failed"),
            String::from("caused by: root cause"),
        ]
    );
}

#[test]
fn highlighted_notes_join_their_three_parts() {
    let b = TexpressoStatusBackend::new(ChatterLevel::Normal, TexpressoStdout);
    let (route, lines) = b.note_highlighted("writing ", "out.pdf", " (12 pages)");
    assert_eq!(route, ReportRoute::Stderr);
    assert_eq!(lines, vec![String::from("note: writing out.pdf (12 pages)")]);
}

#[test]
fn the_rule_line_is_79_equals_signs() {
    let line = rule_line();
    assert_eq!(line.len(), 79);
    assert!(line.chars().all(|c| c == '='));
    assert_eq!(
        line,
        "==============================================================================="
    );
}
