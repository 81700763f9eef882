use sem::characteriser::hardware::{
    tmp_at_speed, tmp_stopped, FilamentSwitches, MockVacuumSystem, PollFailures,
    TMP_ROTATION_SPEED_HERTZ,
};
use sem::characteriser::layout::{
    ellipsify, format_seconds, indent, right_align,
};
use sem::characteriser::run::{
    end_run, exit_error, results_path, show_cleanup, status, temporary_path, tmp_report, RunEnd,
    Shutdown,
};
use sem::characteriser::steps::{InputEvent, Section, SpanStyle, Step, StepKind, StepStatus, StyledSpan};
use sem::characteriser::ui::{
    decide_key, format_duration, handle_key, rows, run_summary, shortcuts, Key, KeyAction,
    KeyOutcome, StepsState,
};
use sem::host::power_supply::Polarity;
use std::time::Duration;

type Tree = Section<u8, u16>;

fn text(spans: &[StyledSpan]) -> String {
    spans.iter().map(|s| s.content.as_str()).collect()
}

fn confirm(prompt: &str, responder: Option<u8>) -> StepKind<u8, u16> {
    StepKind::Confirm { prompt: String::from(prompt), responder }
}

fn input(responder: Option<u16>) -> StepKind<u8, u16> {
    StepKind::Input {
        buffer: String::new(),
        error: None,
        prompt: String::from("Filament ID"),
        responder,
        unit: None,
        value: None,
    }
}

#[test]
fn durations_leave_out_zero_units() {
    assert_eq!(format_duration(Duration::from_secs(3)), "3s");
    assert_eq!(format_duration(Duration::from_secs(123)), "2m 3s");
    assert_eq!(format_duration(Duration::from_secs(3723)), "1h 2m 3s");
    assert_eq!(format_duration(Duration::from_millis(59_999)), "59s");
    assert_eq!(format_seconds(3600), "1h 0m 0s");
    assert_eq!(format_seconds(0), "0s");
}

#[test]
fn steps_are_pushed_beneath_sections_and_found_by_path() {
    let mut root = Tree::default();
    let section = root.push_beneath(&[], StepKind::Section(Section::new(String::from("Preparing"))), 0).unwrap();
    assert_eq!(section, vec![0]);
    let step = root.push_beneath(&section, StepKind::text(String::from("Set the limit")), 5).unwrap();
    assert_eq!(step, vec![0, 0]);
    assert!(root.push_beneath(&[0, 0], StepKind::text(String::from("x")), 6).is_none());
    assert!(root.push_beneath(&[3], StepKind::text(String::from("x")), 6).is_none());

    // Earlier paths stay valid as steps are added.
    root.push_beneath(&section, confirm("Confirm that the chamber is sealed", Some(1)), 7).unwrap();
    assert!(root.step_at(&step).is_some());
    assert!(root.step_at(&section).is_some());
    assert!(root.finish_at(&step, StepStatus::Done, 9));
    let finished = root.step_at(&step).unwrap();
    assert_eq!(finished.status, StepStatus::Done);
    assert_eq!(finished.finished_at, Some(9));
    assert_eq!(finished.elapsed(100), 4);
    assert!(!root.finish_at(&[5], StepStatus::Done, 9));
}

#[test]
fn the_pending_step_is_the_last_leaf_holding_a_responder() {
    let mut root = Tree::default();
    assert!(root.pending().is_none());
    let section = root.push_beneath(&[], StepKind::Section(Section::new(String::from("Pumping"))), 0).unwrap();
    root.push_beneath(&section, confirm("Confirm that the roughing pump is running", Some(3)), 1).unwrap();
    assert_eq!(root.pending_path(), Some(vec![0, 0]));
    assert!(root.pending().unwrap().is_pending());
    assert_eq!(shortcuts(&root, false), "[Enter] Confirm   [Esc] Quit");
    assert_eq!(shortcuts(&root, true), "[Any key] Exit");

    assert!(root.release_responder(&[0, 0]));
    assert!(root.pending().is_none());
    assert_eq!(shortcuts(&root, false), "[↑/↓] Scroll   [Esc] Quit");
}

#[test]
fn keys_answer_the_pending_confirmation_once() {
    let mut root = Tree::default();
    root.push(confirm("Confirm that the filament is mounted", Some(42)), 0);
    let mut steps = StepsState::default();
    assert_eq!(decide_key(&root, Key::Char('q'), false, false), KeyAction::Ignore);
    match handle_key(&mut root, &mut steps, Key::Enter, false, false) {
        KeyOutcome::Confirmed(responder) => assert_eq!(responder, 42),
        _ => panic!("expected a confirmation"),
    }
    assert!(root.pending().is_none());
    assert!(matches!(handle_key(&mut root, &mut steps, Key::Enter, false, false), KeyOutcome::Continue));
    assert!(matches!(handle_key(&mut root, &mut steps, Key::Esc, false, false), KeyOutcome::Quit));
    assert!(matches!(handle_key(&mut root, &mut steps, Key::Char('C'), true, false), KeyOutcome::Quit));
    assert!(matches!(handle_key(&mut root, &mut steps, Key::Char('q'), false, false), KeyOutcome::Quit));
}

#[test]
fn keys_edit_and_submit_the_pending_input() {
    let mut root = Tree::default();
    root.push(input(Some(7)), 0);
    let mut steps = StepsState::default();
    for c in ['W', '-', 'q', 'x'] {
        assert!(matches!(handle_key(&mut root, &mut steps, Key::Char(c), false, false), KeyOutcome::Continue));
    }
    handle_key(&mut root, &mut steps, Key::Backspace, false, false);
    assert!(matches!(handle_key(&mut root, &mut steps, Key::Char('c'), true, false), KeyOutcome::Quit));
    match handle_key(&mut root, &mut steps, Key::Enter, false, false) {
        KeyOutcome::Submitted(responder, text) => {
            assert_eq!(responder, 7);
            assert_eq!(text, "W-q");
        }
        _ => panic!("expected a submission"),
    }
    assert!(root.pending().is_none());
}

#[test]
fn a_rejected_input_is_asked_again_in_place() {
    let mut root = Tree::default();
    root.push(input(Some(1)), 0);
    assert!(root.reject_input(&[0], String::from("invalid digit"), 2));
    assert!(root.pending().is_some());
    assert!(root.accept_input(&[0], String::from("W-0007")));
    match &root.step_at(&[0]).unwrap().kind {
        StepKind::Input { error, value, .. } => {
            assert_eq!(*error, None);
            assert_eq!(value.as_deref(), Some("W-0007"));
        }
        _ => panic!("expected an input"),
    }
}

#[test]
fn scrolling() {
    let mut root = Tree::default();
    let mut steps = StepsState::default();
    assert_eq!(steps.page(), 1);
    assert_eq!(steps.fit(100, 10, false), (90, 100));
    handle_key(&mut root, &mut steps, Key::Up, false, false);
    assert_eq!(steps.fit(100, 10, false), (89, 99));
    handle_key(&mut root, &mut steps, Key::PageUp, false, false);
    assert_eq!(steps.fit(100, 10, false), (79, 89));
    handle_key(&mut root, &mut steps, Key::Home, false, false);
    assert_eq!(steps.fit(100, 10, false), (0, 10));
    steps.scroll_down(1000);
    // Scrolling back to the bottom follows the end again.
    assert_eq!(steps.fit(100, 10, false), (90, 100));
    assert_eq!(steps.fit(120, 10, false), (110, 120));
    steps.scroll_up(5);
    assert_eq!(steps.fit(130, 10, true), (120, 130));
    steps.scroll_to_top();
    steps.scroll_to_bottom();
    assert_eq!(steps.fit(5, 10, false), (0, 5));
}

#[test]
fn ellipsify_cuts_what_does_not_fit() {
    let spans = vec![
        StyledSpan::raw(String::from("Base pressure: ")),
        StyledSpan::styled(String::from("2.4e-06 mbar"), SpanStyle::Variable),
    ];
    assert_eq!(text(&ellipsify(&spans, 40)), "Base pressure: 2.4e-06 mbar");
    let cut = ellipsify(&spans, 20);
    assert_eq!(text(&cut), "Base pressure: 2.4e…");
    assert_eq!(cut[1].style, SpanStyle::Variable);
    // With no column left after the first span, its own end gives way.
    assert_eq!(text(&ellipsify(&spans, 15)), "Base pressure:…");
    assert_eq!(text(&ellipsify(&spans, 16)), "Base pressure:…");
    assert_eq!(text(&ellipsify(&spans, 17)), "Base pressure: 2…");
}

#[test]
fn right_align_pads_to_the_edge() {
    let spans = vec![StyledSpan::raw(String::from("Pumping"))];
    let laid_out = right_align(&spans, "2m 5s", 20);
    assert_eq!(text(&laid_out), format!("Pumping{}2m 5s", " ".repeat(8)));
    assert_eq!(laid_out.last().unwrap().style, SpanStyle::Subtle);
    let laid_out = right_align(&spans, "2m 5s", 10);
    assert_eq!(text(&laid_out), "Pum… 2m 5s");
    assert_eq!(text(&indent(vec![StyledSpan::raw(String::from("x"))])), "  x");
}

#[test]
fn steps_render_as_fixed_lines() {
    let mut root = Tree::default();
    let section = root.push_beneath(&[], StepKind::Section(Section::new(String::from("Preparing"))), 0).unwrap();
    let done = root.push_beneath(&section, StepKind::text(String::from("Set the limit")), 0).unwrap();
    root.finish_at(&done, StepStatus::Done, 1000);
    root.push_beneath(&section, StepKind::measurement(String::from("Voltage"), String::from("9.61 mV")), 0).unwrap();
    for width in [10u16, 40, 80] {
        let lines = root.render_children(width, 65_000);
        assert_eq!(lines.len(), 3);
    }
    let lines = root.render_children(40, 65_000);
    assert_eq!(text(&lines[0]), format!("{} Preparing{}1m 5s", lines[0][0].content.trim_end(), " ".repeat(40 - 2 - 9 - 5)));
    assert_eq!(text(&lines[1]), "  ✔ Set the limit");
    assert!(text(&lines[2]).starts_with("  ⠹ Voltage: 9.61 mV"));
    assert!(text(&lines[2]).ends_with("1m 5s"));
}

#[test]
fn step_kinds() {
    let step: Step<u8, u16> = Step::new(StepKind::error(String::from("The TMP failed")), 10);
    assert_eq!(step.status, StepStatus::Running);
    assert_eq!(step.elapsed(5), 0);
    assert_eq!(step.elapsed(30), 20);
    match step.kind {
        StepKind::Text { spans } => {
            assert_eq!(spans.len(), 1);
            assert_eq!(spans[0].style, SpanStyle::Error);
        }
        _ => panic!("expected text"),
    }
    assert_eq!(StepStatus::default(), StepStatus::Running);
}

#[test]
fn labelled_rows_line_up() {
    let lines = rows(20, &[("Elapsed", String::from("1m 2s")), ("TMP", String::from("Running at full speed"))]);
    assert_eq!(text(&lines[0]), "Elapsed: 1m 2s");
    assert_eq!(text(&lines[1]), "TMP:     Running at…");
}

#[test]
fn the_run_block_shows_the_last_section() {
    let mut root = Tree::default();
    assert_eq!(run_summary(&root), (String::from("–"), String::from("Starting")));
    root.push(StepKind::Section(Section::new(String::from("Preparing"))), 0);
    root.push(StepKind::text(String::from("note")), 0);
    assert_eq!(run_summary(&root), (String::from("Preparing"), String::from("Running")));
}

#[test]
fn the_end_of_a_run() {
    let mut root = Tree::default();
    assert_eq!(end_run(&mut root, RunEnd::ProcedureFinished(Ok(())), 5), Shutdown::Normal);
    assert!(root.children.is_empty());
    let shutdown = end_run(&mut root, RunEnd::HardwareFailed(String::from("tmp error: logic error")), 5);
    assert_eq!(shutdown, Shutdown::Error(String::from("The hardware failed: tmp error: logic error")));
    assert_eq!(root.children.len(), 1);
    assert_eq!(root.children[0].status, StepStatus::Failed);
    assert_eq!(
        end_run(&mut root, RunEnd::ProcedurePanicked(String::from("boom")), 5),
        Shutdown::Panicked(String::from("The procedure panicked: boom"))
    );
    show_cleanup(&mut root, &Err(String::from("timeout")), 6);
    assert_eq!(root.children.len(), 2);
    assert_eq!(exit_error(Shutdown::Normal), None);
    assert_eq!(status::<(), ()>(&Err(())), StepStatus::Failed);
    assert_eq!(tmp_report(Some(false)), None);
    assert!(tmp_report(None).unwrap().starts_with("Couldn't read the TMP's state"));
}

#[test]
fn path_is_named_for_the_start_time() {
    let started_at = 1_700_000_000u64;
    assert_eq!(results_path(started_at), format!("out/characterisation-{}.json", started_at));
    assert_eq!(temporary_path("out/characterisation-1.json"), "out/characterisation-1.json_new");
}

#[test]
fn polling_gives_up_after_three_failures_in_a_row() {
    let mut failures = PollFailures::new();
    assert!(!failures.record(false));
    assert!(!failures.record(false));
    assert!(!failures.record(true));
    assert!(!failures.record(false));
    assert!(!failures.record(false));
    assert!(failures.record(false));
}

#[test]
fn the_mock_vacuum_system_reflects_what_was_set() {
    let mut vacuum = MockVacuumSystem::default();
    assert!(!vacuum.tmp_running());
    assert_eq!(vacuum.rotation_speeds(), (0, TMP_ROTATION_SPEED_HERTZ));
    assert!(!vacuum.set_tmp_running(true, false));
    assert!(!vacuum.tmp_running());
    assert!(vacuum.set_tmp_running(true, true));
    assert_eq!(vacuum.rotation_speeds(), (1500, 1500));
    assert!(tmp_at_speed(1500, 1500));
    assert!(!tmp_stopped(1500));
}

#[test]
fn relays_only_switch_with_the_output_off() {
    let mut switches = FilamentSwitches::default();
    assert!(switches.set_polarity(Polarity::Forward));
    switches.set_output_enabled(true);
    assert!(!switches.set_polarity(Polarity::Reverse));
    assert_eq!(switches.polarity, Polarity::Forward);
    switches.enter_safe_state();
    assert_eq!(switches, FilamentSwitches::default());
}

#[test]
fn input_events_settle_the_input_step() {
    let mut root = Tree::default();
    let path = root.push_beneath(&[], input(None), 0).unwrap();
    root.input_event(&path, InputEvent::Rejected(String::from("invalid digit"), 8), 10);
    assert!(root.pending().is_some());
    match &root.step_at(&path).unwrap().kind {
        StepKind::Input { error, responder, .. } => {
            assert_eq!(error.as_deref(), Some("invalid digit"));
            assert_eq!(*responder, Some(8));
        }
        _ => panic!("expected an input"),
    }
    assert_eq!(root.step_at(&path).unwrap().status, StepStatus::Running);

    root.input_event(&path, InputEvent::Accepted(String::from("W-0007")), 20);
    let step = root.step_at(&path).unwrap();
    assert_eq!(step.status, StepStatus::Done);
    assert_eq!(step.finished_at, Some(20));
    match &step.kind {
        StepKind::Input { error, value, .. } => {
            assert_eq!(*error, None);
            assert_eq!(value.as_deref(), Some("W-0007"));
        }
        _ => panic!("expected an input"),
    }

    let mut root = Tree::default();
    let path = root.push_beneath(&[], input(Some(3)), 0).unwrap();
    root.input_event(&path, InputEvent::Cancelled, 5);
    assert!(root.pending().is_none());
    assert_eq!(root.step_at(&path).unwrap().status, StepStatus::Failed);
}
