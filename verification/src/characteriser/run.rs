//! How a run of the procedure ends, and the changes the procedure makes to
//! the steps it has emitted as the user answers them.
use crate::characteriser::steps::{
    KindModel, Section, SectionModel, StepKind, StepModel, StepStatus,
};
use crate::text::to_string;
use vstd::prelude::*;

verus! {

/// Why the application's event loop stopped.
///
/// Whatever the reason, the procedure is then cancelled and waited for, and
/// the filament system put into a safe state — in that order, and before
/// anything waits on the operator.
#[derive(Clone, Debug, PartialEq, Eq)]
pub enum Shutdown {
    /// The procedure finished, the operator quit, or a signal asked to stop.
    Normal,

    /// The run failed. The message is already shown as a failed step; this
    /// copy is what is reported once the terminal is restored.
    Error(String),

    /// The procedure task panicked. The terminal has already been restored,
    /// so there's nothing left to show the error on.
    Panicked(String),
}

/// A message to the application's event loop that ends the run, with the
/// errors it carries already written out.
#[derive(Debug, PartialEq, Eq)]
pub enum RunEnd {
    /// The hardware has failed persistently and the run can't continue.
    HardwareFailed(String),

    /// The procedure task has finished, successfully or with this error.
    ProcedureFinished(Result<(), String>),

    /// The procedure task panicked, with this message.
    ProcedurePanicked(String),
}

/// The status a step finishes with, given how what it was waiting on ended.
pub fn status<T, E>(result: &Result<T, E>) -> (r: StepStatus)
    ensures
        r == (if result is Ok {
            StepStatus::Done
        } else {
            StepStatus::Failed
        }),
{
    match result {
        Ok(_) => StepStatus::Done,
        Err(_) => StepStatus::Failed,
    }
}

/// `tree` with a step of `kind` appended to its root, finished at `now` with
/// `status`.
pub open spec fn with_finished<C, I>(tree: SectionModel<C, I>, kind: KindModel<C, I>, status: StepStatus, now: u64) -> SectionModel<C, I> {
    SectionModel {
        children: tree.children.push(StepModel { finished_at: Some(now), kind, started_at: now, status }),
        title: tree.title,
    }
}

impl<C, I> Section<C, I> {
    /// Appends a step of `kind` to this section, started and finished at
    /// `now` with `status`.
    pub fn push_finished(&mut self, kind: StepKind<C, I>, status: StepStatus, now: u64)
        ensures
            final(self)@ == with_finished(old(self)@, kind@, status, now),
    {
        let ghost kind_model = kind@;
        let index = self.push(kind, now);
        let path = vec![index];
        assert(path@ =~= seq![index]);
        let found = self.finish_at(path.as_slice(), status, now);
        assert(self@.children =~= with_finished(old(self)@, kind_model, status, now).children);
    }
}

/// The text of the step that says how a run's failure came about.
pub open spec fn failure_text(prefix: Seq<char>, error: Seq<char>) -> Seq<char> {
    prefix + error
}

/// Handles a message that ends the run, returning why the event loop stops.
///
/// A failure is added at the end of the step list, where the operator is
/// looking, as a failed step; the sections it happened in are marked failed
/// as the procedure unwinds. A finished procedure has already said how it
/// ended, and a panic can't be shown, since the terminal has been restored.
pub fn end_run<C, I>(root: &mut Section<C, I>, end: RunEnd, now: u64) -> (r: Shutdown)
    ensures
        match end {
            RunEnd::HardwareFailed(e) => (r matches Shutdown::Error(m) && m@ == failure_text(
                "The hardware failed: "@,
                e@,
            )) && final(root)@ == with_finished(
                old(root)@,
                KindModel::Text {
                    spans: seq![
                        crate::characteriser::steps::SpanModel {
                            content: failure_text("The hardware failed: "@, e@),
                            style: crate::characteriser::steps::SpanStyle::Error,
                        },
                    ],
                },
                StepStatus::Failed,
                now,
            ),
            RunEnd::ProcedureFinished(Ok(())) => r == Shutdown::Normal && final(root)@ == old(root)@,
            RunEnd::ProcedureFinished(Err(e)) => (r matches Shutdown::Error(m) && m@ == failure_text(
                "The procedure failed: "@,
                e@,
            )) && final(root)@ == with_finished(
                old(root)@,
                KindModel::Text {
                    spans: seq![
                        crate::characteriser::steps::SpanModel {
                            content: failure_text("The procedure failed: "@, e@),
                            style: crate::characteriser::steps::SpanStyle::Error,
                        },
                    ],
                },
                StepStatus::Failed,
                now,
            ),
            RunEnd::ProcedurePanicked(m) => (r matches Shutdown::Panicked(n) && n@ == failure_text(
                "The procedure panicked: "@,
                m@,
            )) && final(root)@ == old(root)@,
        },
{
    match end {
        RunEnd::HardwareFailed(e) => {
            let mut message = to_string("The hardware failed: ");
            message.append(e.as_str());
            root.push_finished(StepKind::error(message.clone()), StepStatus::Failed, now);
            Shutdown::Error(message)
        },
        RunEnd::ProcedureFinished(Ok(())) => Shutdown::Normal,
        RunEnd::ProcedureFinished(Err(e)) => {
            let mut message = to_string("The procedure failed: ");
            message.append(e.as_str());
            root.push_finished(StepKind::error(message.clone()), StepStatus::Failed, now);
            Shutdown::Error(message)
        },
        RunEnd::ProcedurePanicked(m) => {
            let mut message = to_string("The procedure panicked: ");
            message.append(m.as_str());
            Shutdown::Panicked(message)
        },
    }
}

/// Adds a step saying whether the filament system was made safe, for the
/// screen that shows a failed run.
pub fn show_cleanup<C, I>(root: &mut Section<C, I>, cleanup: &Result<(), String>, now: u64)
    ensures
        match cleanup {
            Ok(()) => final(root)@ == with_finished(
                old(root)@,
                KindModel::Text {
                    spans: seq![
                        crate::characteriser::steps::SpanModel {
                            content: "Put the filament system into a safe state"@,
                            style: crate::characteriser::steps::SpanStyle::Plain,
                        },
                    ],
                },
                StepStatus::Done,
                now,
            ),
            Err(e) => final(root)@ == with_finished(
                old(root)@,
                KindModel::Text {
                    spans: seq![
                        crate::characteriser::steps::SpanModel {
                            content: failure_text("The filament system may still be powered: "@, e@),
                            style: crate::characteriser::steps::SpanStyle::Error,
                        },
                    ],
                },
                StepStatus::Failed,
                now,
            ),
        },
{
    match cleanup {
        Ok(()) => root.push_finished(
            StepKind::text(to_string("Put the filament system into a safe state")),
            StepStatus::Done,
            now,
        ),
        Err(e) => {
            let mut message = to_string("The filament system may still be powered: ");
            message.append(e.as_str());
            root.push_finished(StepKind::error(message), StepStatus::Failed, now);
        },
    }
}

/// What to tell the operator about the TMP once the run is over, given
/// whether it was read to be running (`None` if it couldn't be read). After
/// a completed run the procedure has already stopped it.
pub open spec fn tmp_report_spec(tmp_running: Option<bool>) -> Option<Seq<char>> {
    match tmp_running {
        Some(false) => None,
        Some(true) => Some("The TMP is still running. Use the vacuum control binary to stop it."@),
        None => Some(
            "Couldn't read the TMP's state, so it may still be running. Check it, and use the vacuum control binary to stop it."@,
        ),
    }
}

/// What to tell the operator about the TMP once the run is over.
pub fn tmp_report(tmp_running: Option<bool>) -> (r: Option<&'static str>)
    ensures
        match tmp_report_spec(tmp_running) {
            Some(t) => r matches Some(s) && s@ == t,
            None => r is None,
        },
{
    match tmp_running {
        Some(false) => None,
        Some(true) => Some("The TMP is still running. Use the vacuum control binary to stop it."),
        None => Some(
            "Couldn't read the TMP's state, so it may still be running. Check it, and use the vacuum control binary to stop it.",
        ),
    }
}

/// The error the application exits with after `shutdown`, if any.
pub fn exit_error(shutdown: Shutdown) -> (r: Option<String>)
    ensures
        match shutdown {
            Shutdown::Normal => r is None,
            Shutdown::Error(m) => r == Some(m),
            Shutdown::Panicked(m) => r == Some(m),
        },
{
    match shutdown {
        Shutdown::Normal => None,
        Shutdown::Error(message) => Some(message),
        Shutdown::Panicked(message) => Some(message),
    }
}

} // verus!

verus! {

/// Where the results of a run that started at `started_at`, in seconds since
/// the Unix epoch, are written: named for when the run started, so
/// successive runs don't overwrite each other.
pub fn results_path(started_at: u64) -> (r: String)
    ensures
        r@ == "out/characterisation-"@ + crate::text::decimal(started_at as nat) + ".json"@,
{
    let mut r = to_string("out/characterisation-");
    crate::text::push_decimal(&mut r, started_at);
    r.append(".json");
    r
}

/// The temporary file the results are written to before being renamed over
/// `path`, so killing the program can't leave a half-written file behind.
pub fn temporary_path(path: &str) -> (r: String)
    ensures
        r@ == path@ + "_new"@,
{
    let mut r = to_string(path);
    r.append("_new");
    r
}

} // verus!

verus! {

/// A line reported to the operator once the terminal has been restored.
#[derive(Clone, Debug, PartialEq, Eq)]
pub enum ReportLine {
    /// A line for standard output.
    Stdout(String),
    /// A warning or error, for standard error.
    Stderr(String),
}

/// Whether the run's failure is shown until the operator acknowledges it:
/// only after an error, and only once the filament system is safe.
pub fn needs_acknowledgement(shutdown: &Shutdown) -> (r: bool)
    ensures
        r == (*shutdown is Error),
{
    match shutdown {
        Shutdown::Error(_) => true,
        _ => false,
    }
}

/// What is reported once the terminal has been restored: where the results
/// went, if they were written (they only are once the procedure has
/// started); a warning if the filament system couldn't be made safe; and
/// what is known of the TMP.
pub fn final_report(results_written: bool, results_path: &str, cleanup: &Result<(), String>, tmp_running: Option<bool>) -> (r: Vec<ReportLine>)
    ensures
        r@.len() == (if results_written {
            1nat
        } else {
            0nat
        }) + (if cleanup is Err {
            1nat
        } else {
            0nat
        }) + (if tmp_report_spec(tmp_running) is Some {
            1nat
        } else {
            0nat
        }),
        results_written ==> (r@[0] matches ReportLine::Stdout(s) && s@ == "Results written to "@
            + results_path@),
        cleanup matches Err(e) ==> ({
            let i = if results_written {
                1int
            } else {
                0int
            };
            r@[i] matches ReportLine::Stderr(s) && s@ == "Warning: the filament system may still be powered: "@
                + e@
        }),
        tmp_report_spec(tmp_running) matches Some(t) ==> (r@.last() matches ReportLine::Stdout(s) && s@
            == t),
{
    let mut lines: Vec<ReportLine> = Vec::new();
    if results_written {
        let mut s = to_string("Results written to ");
        s.append(results_path);
        lines.push(ReportLine::Stdout(s));
    }
    if let Err(e) = cleanup {
        let mut s = to_string("Warning: the filament system may still be powered: ");
        s.append(e.as_str());
        lines.push(ReportLine::Stderr(s));
    }
    if let Some(t) = tmp_report(tmp_running) {
        lines.push(ReportLine::Stdout(to_string(t)));
    }
    lines
}

} // verus!
