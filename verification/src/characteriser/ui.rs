//! The application's screen: the scroll position of the step list, the
//! labelled readings in the top blocks, the shortcuts bar, and what a key
//! press does.
use crate::characteriser::layout::sat_sub;
pub use crate::characteriser::layout::format_duration;
use vstd::prelude::*;

verus! {

/// Scroll position of the step list, as a value.
pub struct ScrollModel {
    /// Whether the view follows the end of the list as steps are added.
    pub follow: bool,
    /// The height of the last viewport drawn.
    pub height: usize,
    /// The index of the first visible line.
    pub offset: usize,
}

/// Scroll position of the step list.
#[derive(Debug)]
pub struct StepsState {
    /// If the view follows the end of the list as steps are added.
    follow: bool,

    /// The height of the last viewport drawn, so a page scroll knows what a
    /// page is.
    height: usize,

    /// The index of the first visible line.
    offset: usize,
}

impl View for StepsState {
    type V = ScrollModel;

    closed spec fn view(&self) -> ScrollModel {
        ScrollModel { follow: self.follow, height: self.height, offset: self.offset }
    }
}

impl Default for StepsState {
    /// Following the end of the list, at the top of an empty viewport.
    ///
    /// Note that this can't be derived: following is on by default, but
    /// `bool::default()` is `false`.
    fn default() -> (r: Self)
        ensures
            r@ == (ScrollModel { follow: true, height: 0, offset: 0 }),
    {
        StepsState { follow: true, height: 0, offset: 0 }
    }
}

/// The index of the first line of the last page of `line_count` lines, in a
/// viewport `height` lines high.
pub open spec fn last_offset(line_count: nat, height: nat) -> nat {
    sat_sub(line_count, height)
}

impl StepsState {
    /// Scrolls to the first line.
    pub fn scroll_to_top(&mut self)
        ensures
            final(self)@ == (ScrollModel { follow: false, offset: 0, ..old(self)@ }),
    {
        self.follow = false;
        self.offset = 0;
    }

    /// Scrolls to the last line and follows it again.
    pub fn scroll_to_bottom(&mut self)
        ensures
            final(self)@ == (ScrollModel { follow: true, ..old(self)@ }),
    {
        self.follow = true;
    }

    /// Scrolls `lines` lines towards the end of the list.
    pub fn scroll_down(&mut self, lines: usize)
        ensures
            final(self)@ == (ScrollModel {
                offset: if old(self)@.offset + lines <= usize::MAX {
                    (old(self)@.offset + lines) as usize
                } else {
                    usize::MAX
                },
                ..old(self)@
            }),
    {
        self.offset = self.offset.saturating_add(lines);
    }

    /// Scrolls `lines` lines towards the start of the list.
    ///
    /// Any upward scroll stops the view following the end of the list.
    pub fn scroll_up(&mut self, lines: usize)
        ensures
            final(self)@ == (ScrollModel {
                follow: false,
                offset: sat_sub(old(self)@.offset as nat, lines as nat) as usize,
                ..old(self)@
            }),
    {
        self.follow = false;
        self.offset = self.offset.saturating_sub(lines);
    }

    /// The height of the last viewport drawn, for a page scroll: at least
    /// one line.
    pub fn page(&self) -> (r: usize)
        ensures
            r == (if self@.height > 1 {
                self@.height
            } else {
                1
            }),
    {
        if self.height > 1 {
            self.height
        } else {
            1
        }
    }

    /// Fits the view to `line_count` lines in a viewport `height` lines high,
    /// and returns the range of lines to show.
    ///
    /// A pending step must always be visible. It's always the last line, so
    /// it makes the view follow the end of the list. The offset is clamped
    /// every frame, since the list grows and the terminal can be resized
    /// under it; scrolling back to the bottom starts following again.
    pub fn fit(&mut self, line_count: usize, height: usize, pending: bool) -> (r: (usize, usize))
        ensures
            ({
                let last = last_offset(line_count as nat, height as nat);
                let follow = old(self)@.follow || pending || old(self)@.offset >= last;
                let offset = if follow {
                    last
                } else {
                    old(self)@.offset as nat
                };
                &&& final(self)@ == (ScrollModel { follow, height, offset: offset as usize })
                &&& r.0 == offset
                &&& r.1 == if offset + height <= line_count {
                    offset + height
                } else {
                    line_count as int
                }
            }),
            r.0 <= r.1 <= line_count,
            r.1 - r.0 <= height,
            final(self)@.follow ==> r.1 == line_count,
    {
        self.height = height;
        if pending {
            self.follow = true;
        }
        let last = line_count.saturating_sub(height);
        if self.follow {
            self.offset = last;
        } else {
            if self.offset > last {
                self.offset = last;
            }
            // Scrolling back to the bottom starts following again.
            if self.offset == last {
                self.follow = true;
            }
        }
        let end = if self.offset + height <= line_count {
            self.offset + height
        } else {
            line_count
        };
        (self.offset, end)
    }
}

} // verus!

verus! {

/// `s` padded with spaces on the right to at least `width` characters, as
/// `format!("{:width$}", s)` pads it.
pub open spec fn pad_right(s: Seq<char>, width: nat) -> Seq<char> {
    s + crate::characteriser::layout::spaces(sat_sub(width, s.len()))
}

/// The width labels are padded to: one more than the longest label in
/// bytes, for its colon.
pub open spec fn label_width(labels: Seq<nat>) -> nat
    decreases labels.len(),
{
    if labels.len() == 0 {
        0
    } else {
        let rest = label_width(labels.drop_last());
        let this = labels.last() + 1;
        if this > rest {
            this
        } else {
            rest
        }
    }
}

/// A value fitted to `width` characters: too long a value is cut to leave
/// room for the `…` that ends it.
pub open spec fn fit_value(value: Seq<char>, width: nat) -> Seq<char> {
    if value.len() > width {
        crate::characteriser::layout::first_chars(value, sat_sub(width, 1)) + "…"@
    } else {
        value
    }
}

/// The line of the labelled value `(label, value)`, the labels padded to
/// `label_width` and the values fitted to `value_width`.
pub open spec fn row_line(label: Seq<char>, value: Seq<char>, label_width: nat, value_width: nat) -> Seq<
    crate::characteriser::steps::SpanModel,
> {
    seq![
        crate::characteriser::layout::plain(pad_right(label + ":"@, label_width) + " "@),
        crate::characteriser::steps::SpanModel {
            content: fit_value(value, value_width),
            style: crate::characteriser::steps::SpanStyle::Variable,
        },
    ]
}

} // verus!

verus! {

/// The byte lengths of the labels of `rows`.
pub open spec fn label_lens(rows: Seq<(&str, String)>) -> Seq<nat> {
    rows.map_values(|r: (&str, String)| vstd::utf8::encode_utf8(r.0@).len())
}

/// Labelled values, one per line, fitted to `width` columns.
///
/// The label is in the default style and the value in the variable style,
/// the two-tone idiom used for every reading. Labels are padded to a common
/// width so the values line up, and a value too long to fit ends in `…`
/// rather than being cut off silently.
pub fn rows(width: u16, entries: &[(&str, String)]) -> (r: Vec<Vec<crate::characteriser::steps::StyledSpan>>)
    requires
        forall|i: int| 0 <= i < entries@.len() ==> #[trigger] vstd::utf8::encode_utf8(entries@[i].0@).len() + 2 <= usize::MAX,
    ensures
        r@.len() == entries@.len(),
        forall|i: int|
            0 <= i < entries@.len() ==> crate::characteriser::steps::spans_view(#[trigger] r@[i]@) == row_line(
                entries@[i].0@,
                entries@[i].1@,
                label_width(label_lens(entries@)),
                sat_sub(width as nat, label_width(label_lens(entries@)) + 1),
            ),
{
    let mut lw: usize = 0;
    let mut i: usize = 0;
    while i < entries.len()
        invariant
            i <= entries@.len(),
            lw == label_width(label_lens(entries@).take(i as int)),
            lw <= usize::MAX - 1,
            forall|j: int| 0 <= j < entries@.len() ==> #[trigger] vstd::utf8::encode_utf8(entries@[j].0@).len() + 2 <= usize::MAX,
        decreases entries@.len() - i,
    {
        let n = entries[i].0.len() + 1;
        assert(label_lens(entries@).take(i + 1).drop_last() =~= label_lens(entries@).take(i as int));
        if n > lw {
            lw = n;
        }
        i += 1;
    }
    assert(label_lens(entries@).take(i as int) =~= label_lens(entries@));
    let vw = (width as usize).saturating_sub(lw + 1);
    let mut lines: Vec<Vec<crate::characteriser::steps::StyledSpan>> = Vec::new();
    let mut k: usize = 0;
    while k < entries.len()
        invariant
            k <= entries@.len(),
            lines@.len() == k,
            lw == label_width(label_lens(entries@)),
            vw == sat_sub(width as nat, lw as nat + 1),
            forall|j: int|
                0 <= j < k ==> crate::characteriser::steps::spans_view(#[trigger] lines@[j]@) == row_line(
                    entries@[j].0@,
                    entries@[j].1@,
                    lw as nat,
                    vw as nat,
                ),
        decreases entries@.len() - k,
    {
        let label = entries[k].0;
        let value = entries[k].1.as_str();
        let mut head = crate::text::to_string(label);
        head.append(":");
        let count = head.as_str().unicode_len();
        if count < lw {
            let pad = crate::characteriser::layout::repeat_space(lw - count);
            head.append(pad.as_str());
        }
        head.append(" ");
        let value_len = value.unicode_len();
        let shown = if value_len > vw {
            let keep = vw.saturating_sub(1);
            let mut cut = crate::text::to_string(value.substring_char(0, keep));
            cut.append("…");
            assert(value@.subrange(0, keep as int) =~= value@.take(keep as int));
            cut
        } else {
            crate::text::to_string(value)
        };
        let line = vec![
            crate::characteriser::steps::StyledSpan::raw(head),
            crate::characteriser::steps::StyledSpan::styled(shown, crate::characteriser::steps::SpanStyle::Variable),
        ];
        proof {
            let s = label@ + ":"@;
            if count >= lw {
                assert(crate::characteriser::layout::spaces(sat_sub(lw as nat, s.len())) =~= Seq::<char>::empty());
            }
            assert(crate::characteriser::steps::spans_view(line@) =~= row_line(label@, value@, lw as nat, vw as nat));
        }
        lines.push(line);
        k += 1;
    }
    lines
}

} // verus!

verus! {

/// The kind of the step waiting on the user, if any.
pub open spec fn pending_kind<C, I>(tree: crate::characteriser::steps::SectionModel<C, I>) -> Option<
    crate::characteriser::steps::KindModel<C, I>,
> {
    match tree.pending_path() {
        Some(p) => match tree.step_at(p) {
            Some(s) => Some(s.kind),
            None => None,
        },
        None => None,
    }
}

/// The shortcuts bar's text: it changes with what is pending. Scrolling
/// isn't offered while a step is pending, because the view stays pinned to
/// it until it's answered.
pub open spec fn shortcuts_spec<C, I>(pending: Option<crate::characteriser::steps::KindModel<C, I>>, exiting: bool) -> Seq<char> {
    if exiting {
        "[Any key] Exit"@
    } else {
        match pending {
            Some(crate::characteriser::steps::KindModel::Confirm { .. }) => "[Enter] Confirm   [Esc] Quit"@,
            Some(crate::characteriser::steps::KindModel::Input { .. }) => "[Enter] Submit   [Esc] Quit"@,
            _ => "[↑/↓] Scroll   [Esc] Quit"@,
        }
    }
}

/// The shortcuts bar's text for `root`, or for the acknowledgement screen
/// while `exiting`.
pub fn shortcuts<C, I>(root: &crate::characteriser::steps::Section<C, I>, exiting: bool) -> (s: &'static str)
    ensures
        s@ == shortcuts_spec(pending_kind(root@), exiting),
{
    if exiting {
        return "[Any key] Exit";
    }
    match root.pending() {
        Some(step) => match &step.kind {
            crate::characteriser::steps::StepKind::Confirm { .. } => "[Enter] Confirm   [Esc] Quit",
            crate::characteriser::steps::StepKind::Input { .. } => "[Enter] Submit   [Esc] Quit",
            _ => "[↑/↓] Scroll   [Esc] Quit",
        },
        None => "[↑/↓] Scroll   [Esc] Quit",
    }
}

} // verus!

verus! {

/// A key the operator pressed, as the terminal reports it.
#[derive(Clone, Copy, Debug, PartialEq, Eq, Structural)]
pub enum Key {
    Char(char),
    Enter,
    Esc,
    Backspace,
    Up,
    Down,
    PageUp,
    PageDown,
    Home,
    End,
    Other,
}

/// What a key press does.
#[derive(Clone, Copy, Debug, PartialEq, Eq, Structural)]
pub enum KeyAction {
    /// Quit the application.
    Quit,
    /// Confirm the pending confirmation.
    Confirm,
    /// Type a character into the pending input.
    Type(char),
    /// Delete the last character of the pending input.
    Erase,
    /// Submit the pending input.
    Submit,
    /// Scroll one line up.
    LineUp,
    /// Scroll one line down.
    LineDown,
    /// Scroll one page up.
    PageUp,
    /// Scroll one page down.
    PageDown,
    /// Scroll to the first line.
    Top,
    /// Scroll to the last line and follow it.
    Bottom,
    /// Nothing.
    Ignore,
}

/// What pressing `key` with `control` and `alt` held does while `pending`
/// is the kind of the step waiting on the user.
///
/// Ctrl+C and Esc quit, whatever's pending. A pending input takes printable
/// characters, so a `q` typed into it is a character rather than a quit.
/// With nothing pending, `q` quits and the view scrolls; while something is
/// pending the view is pinned to it anyway.
pub open spec fn key_action<C, I>(pending: Option<crate::characteriser::steps::KindModel<C, I>>, key: Key, control: bool, alt: bool) -> KeyAction {
    if control && (key == Key::Char('c') || key == Key::Char('C')) {
        KeyAction::Quit
    } else if key == Key::Esc {
        KeyAction::Quit
    } else {
        match pending {
            Some(crate::characteriser::steps::KindModel::Confirm { .. }) => if key == Key::Enter {
                KeyAction::Confirm
            } else {
                KeyAction::Ignore
            },
            Some(crate::characteriser::steps::KindModel::Input { .. }) => match key {
                Key::Char(c) => if !control && !alt {
                    KeyAction::Type(c)
                } else {
                    KeyAction::Ignore
                },
                Key::Backspace => KeyAction::Erase,
                Key::Enter => KeyAction::Submit,
                _ => KeyAction::Ignore,
            },
            Some(_) => KeyAction::Ignore,
            None => match key {
                Key::Char(c) => if c == 'q' || c == 'Q' {
                    KeyAction::Quit
                } else {
                    KeyAction::Ignore
                },
                Key::Up => KeyAction::LineUp,
                Key::Down => KeyAction::LineDown,
                Key::PageUp => KeyAction::PageUp,
                Key::PageDown => KeyAction::PageDown,
                Key::Home => KeyAction::Top,
                Key::End => KeyAction::Bottom,
                _ => KeyAction::Ignore,
            },
        }
    }
}

/// Decides what pressing `key` does with `root` as it is.
pub fn decide_key<C, I>(root: &crate::characteriser::steps::Section<C, I>, key: Key, control: bool, alt: bool) -> (a: KeyAction)
    ensures
        a == key_action(pending_kind(root@), key, control, alt),
{
    let quit_char = match key {
        Key::Char(c) => c == 'c' || c == 'C',
        _ => false,
    };
    if control && quit_char {
        return KeyAction::Quit;
    }
    if let Key::Esc = key {
        return KeyAction::Quit;
    }
    match root.pending() {
        Some(step) => match &step.kind {
            crate::characteriser::steps::StepKind::Confirm { .. } => match key {
                Key::Enter => KeyAction::Confirm,
                _ => KeyAction::Ignore,
            },
            crate::characteriser::steps::StepKind::Input { .. } => match key {
                Key::Char(c) => if !control && !alt {
                    KeyAction::Type(c)
                } else {
                    KeyAction::Ignore
                },
                Key::Backspace => KeyAction::Erase,
                Key::Enter => KeyAction::Submit,
                _ => KeyAction::Ignore,
            },
            _ => KeyAction::Ignore,
        },
        None => match key {
            Key::Char(c) => if c == 'q' || c == 'Q' {
                KeyAction::Quit
            } else {
                KeyAction::Ignore
            },
            Key::Up => KeyAction::LineUp,
            Key::Down => KeyAction::LineDown,
            Key::PageUp => KeyAction::PageUp,
            Key::PageDown => KeyAction::PageDown,
            Key::Home => KeyAction::Top,
            Key::End => KeyAction::Bottom,
            _ => KeyAction::Ignore,
        },
    }
}

} // verus!

verus! {

/// The scroll position after scrolling `lines` lines up from `m`.
pub open spec fn scrolled_up(m: ScrollModel, lines: nat) -> ScrollModel {
    ScrollModel { follow: false, offset: sat_sub(m.offset as nat, lines) as usize, ..m }
}

/// The scroll position after scrolling `lines` lines down from `m`.
pub open spec fn scrolled_down(m: ScrollModel, lines: nat) -> ScrollModel {
    ScrollModel {
        offset: if m.offset + lines <= usize::MAX {
            (m.offset + lines) as usize
        } else {
            usize::MAX
        },
        ..m
    }
}

/// The lines a page scroll moves from `m`: the last viewport's height, at
/// least one.
pub open spec fn page_of(m: ScrollModel) -> nat {
    if m.height > 1 {
        m.height as nat
    } else {
        1
    }
}

/// A confirmation is answered once: `Enter` on a pending confirmation takes
/// its responder, after which nothing is pending, so a second `Enter` is
/// ignored and sends nothing; `Esc`, or `C` with Control, still quits.
pub proof fn lemma_confirmation_answered_once<C, I>(
    tree: crate::characteriser::steps::SectionModel<C, I>,
    prompt: Seq<char>,
    responder: C,
    key: Key,
    control: bool,
    alt: bool,
)
    requires
        pending_kind(tree) == Some(
            crate::characteriser::steps::KindModel::<C, I>::Confirm { prompt, responder: Some(responder) },
        ),
    ensures
        key_action(pending_kind(tree), Key::Enter, false, false) == KeyAction::Confirm,
        ({
            let after = with_kind(
                tree,
                tree.pending_path().unwrap(),
                crate::characteriser::steps::KindModel::Confirm { prompt, responder: None },
            );
            &&& pending_kind(after) is None
            &&& key_action(pending_kind(after), Key::Enter, control, alt) == KeyAction::Ignore
            &&& key_action(pending_kind(after), Key::Esc, control, alt) == KeyAction::Quit
            &&& (control ==> key_action(pending_kind(after), Key::Char('c'), control, alt) == KeyAction::Quit)
        }),
{
    let path = tree.pending_path().unwrap();
    let step = crate::characteriser::steps::StepModel {
        kind: crate::characteriser::steps::KindModel::Confirm { prompt, responder: None },
        ..tree.step_at(path).unwrap()
    };
    crate::characteriser::steps::lemma_answered_not_pending(tree, step);
}

/// The scroll position after `action` from `m`.
pub open spec fn scrolled(m: ScrollModel, action: KeyAction) -> ScrollModel {
    match action {
        KeyAction::LineUp => scrolled_up(m, 1),
        KeyAction::LineDown => scrolled_down(m, 1),
        KeyAction::PageUp => scrolled_up(m, page_of(m)),
        KeyAction::PageDown => scrolled_down(m, page_of(m)),
        KeyAction::Top => ScrollModel { follow: false, offset: 0, ..m },
        KeyAction::Bottom => ScrollModel { follow: true, ..m },
        _ => m,
    }
}

/// What the application is left to do after a key press.
pub enum KeyOutcome<C, I> {
    /// Quit.
    Quit,
    /// Answer the confirmation through its responder, which has been taken
    /// from the step, so a second `Enter` can't answer twice.
    Confirmed(C),
    /// Send the typed text through the input's responder, which has been
    /// taken from the step.
    Submitted(I, String),
    /// Carry on.
    Continue,
}

/// The tree after a key press that changed the pending step at `path` into
/// `kind`.
pub open spec fn with_kind<C, I>(
    tree: crate::characteriser::steps::SectionModel<C, I>,
    path: Seq<usize>,
    kind: crate::characteriser::steps::KindModel<C, I>,
) -> crate::characteriser::steps::SectionModel<C, I> {
    tree.with_step_at(path, crate::characteriser::steps::StepModel { kind, ..tree.step_at(path).unwrap() })
}

/// Handles a key press: quits, answers or edits the pending step, or
/// scrolls the view.
///
/// Taking a responder out of the step is what stops it being pending.
/// Sending on it is left to the application, and is what wakes the
/// procedure, which then sets the step's status.
pub fn handle_key<C, I>(
    root: &mut crate::characteriser::steps::Section<C, I>,
    steps: &mut StepsState,
    key: Key,
    control: bool,
    alt: bool,
) -> (r: KeyOutcome<C, I>)
    ensures
        ({
            let action = key_action(pending_kind(old(root)@), key, control, alt);
            let path = old(root)@.pending_path().unwrap();
            &&& final(steps)@ == scrolled(old(steps)@, action)
            &&& match action {
                KeyAction::Quit => r is Quit && final(root)@ == old(root)@,
                KeyAction::Confirm => match pending_kind(old(root)@).unwrap() {
                    crate::characteriser::steps::KindModel::Confirm { prompt, responder } => (r matches KeyOutcome::Confirmed(c)
                        && responder == Some(c)) && final(root)@ == with_kind(
                        old(root)@,
                        path,
                        crate::characteriser::steps::KindModel::Confirm { prompt, responder: None },
                    ),
                    _ => false,
                },
                KeyAction::Type(c) => match pending_kind(old(root)@).unwrap() {
                    crate::characteriser::steps::KindModel::Input { buffer, error, prompt, responder, unit, value } => r is Continue
                        && final(root)@ == with_kind(
                        old(root)@,
                        path,
                        crate::characteriser::steps::KindModel::Input { buffer: buffer.push(c), error, prompt, responder, unit, value },
                    ),
                    _ => false,
                },
                KeyAction::Erase => match pending_kind(old(root)@).unwrap() {
                    crate::characteriser::steps::KindModel::Input { buffer, error, prompt, responder, unit, value } => r is Continue
                        && final(root)@ == with_kind(
                        old(root)@,
                        path,
                        crate::characteriser::steps::KindModel::Input {
                            buffer: if buffer.len() > 0 {
                                buffer.drop_last()
                            } else {
                                buffer
                            },
                            error,
                            prompt,
                            responder,
                            unit,
                            value,
                        },
                    ),
                    _ => false,
                },
                KeyAction::Submit => match pending_kind(old(root)@).unwrap() {
                    crate::characteriser::steps::KindModel::Input { buffer, error, prompt, responder, unit, value } => (r matches KeyOutcome::Submitted(i, text)
                        && responder == Some(i) && text@ == buffer) && final(root)@ == with_kind(
                        old(root)@,
                        path,
                        crate::characteriser::steps::KindModel::Input { buffer, error, prompt, responder: None, unit, value },
                    ),
                    _ => false,
                },
                _ => r is Continue && final(root)@ == old(root)@,
            }
        }),
{
    let action = decide_key(root, key, control, alt);
    proof {
        crate::characteriser::steps::lemma_pending_path_resolves(root@);
    }
    match action {
        KeyAction::Quit => KeyOutcome::Quit,
        KeyAction::LineUp => {
            steps.scroll_up(1);
            KeyOutcome::Continue
        },
        KeyAction::LineDown => {
            steps.scroll_down(1);
            KeyOutcome::Continue
        },
        KeyAction::PageUp => {
            let page = steps.page();
            steps.scroll_up(page);
            KeyOutcome::Continue
        },
        KeyAction::PageDown => {
            let page = steps.page();
            steps.scroll_down(page);
            KeyOutcome::Continue
        },
        KeyAction::Top => {
            steps.scroll_to_top();
            KeyOutcome::Continue
        },
        KeyAction::Bottom => {
            steps.scroll_to_bottom();
            KeyOutcome::Continue
        },
        KeyAction::Ignore => KeyOutcome::Continue,
        _ => {
            let step = root.pending_mut().unwrap();
            match &mut step.kind {
                crate::characteriser::steps::StepKind::Confirm { responder, .. } => {
                    KeyOutcome::Confirmed(responder.take().unwrap())
                },
                crate::characteriser::steps::StepKind::Input { buffer, responder, .. } => {
                    match action {
                        KeyAction::Type(c) => {
                            crate::text::push_char(buffer, c);
                            KeyOutcome::Continue
                        },
                        KeyAction::Erase => {
                            crate::text::pop_char(buffer);
                            KeyOutcome::Continue
                        },
                        _ => KeyOutcome::Submitted(responder.take().unwrap(), buffer.clone()),
                    }
                },
                _ => KeyOutcome::Continue,
            }
        },
    }
}

} // verus!

verus! {

/// A status as the run block shows it.
pub open spec fn status_name(status: crate::characteriser::steps::StepStatus) -> Seq<char> {
    match status {
        crate::characteriser::steps::StepStatus::Done => "Done"@,
        crate::characteriser::steps::StepStatus::Failed => "Failed"@,
        crate::characteriser::steps::StepStatus::Running => "Running"@,
    }
}

/// The index of the last section among the first `n` of `children`, if
/// there is one.
pub open spec fn last_section_before<C, I>(children: Seq<crate::characteriser::steps::StepModel<C, I>>, n: int) -> Option<int>
    decreases n,
{
    if n <= 0 {
        None
    } else if children[n - 1].kind is Section {
        Some(n - 1)
    } else {
        last_section_before(children, n - 1)
    }
}

/// The title and status the run block shows: there's no list of stages to
/// count against, so the current section is simply the last top-level one;
/// before there is one, the run is starting.
pub open spec fn run_summary_spec<C, I>(root: crate::characteriser::steps::SectionModel<C, I>) -> (Seq<char>, Seq<char>) {
    match last_section_before(root.children, root.children.len() as int) {
        Some(i) => match root.children[i].kind {
            crate::characteriser::steps::KindModel::Section(s) => (s.title, status_name(root.children[i].status)),
            _ => ("–"@, "Starting"@),
        },
        None => ("–"@, "Starting"@),
    }
}

/// The index `last_section_before` finds is that of the last section
/// among the first `n` children: a section, with no section after it; and
/// there's none only when no child before `n` is a section.
pub proof fn lemma_last_section<C, I>(children: Seq<crate::characteriser::steps::StepModel<C, I>>, n: int)
    requires
        0 <= n <= children.len(),
    ensures
        last_section_before(children, n) matches Some(j) ==> 0 <= j < n && children[j].kind is Section
            && forall|k: int| j < k < n ==> !(#[trigger] children[k].kind is Section),
        last_section_before(children, n) is None ==> forall|k: int|
            0 <= k < n ==> !(#[trigger] children[k].kind is Section),
    decreases n,
{
    if n > 0 {
        lemma_last_section(children, n - 1);
    }
}

/// The run block shows the section in progress, which is the last section
/// among the root's children, with its status; before there is one, the
/// run is starting.
pub proof fn lemma_run_summary_shows_last_section<C, I>(
    root: crate::characteriser::steps::SectionModel<C, I>,
    j: int,
)
    ensures
        (0 <= j < root.children.len() && (forall|k: int|
            j < k < root.children.len() ==> !(#[trigger] root.children[k].kind is Section))
            && root.children[j].kind is Section) ==> run_summary_spec(root) == (
            root.children[j].kind->Section_0.title,
            status_name(root.children[j].status),
        ),
        (forall|k: int| 0 <= k < root.children.len() ==> !(#[trigger] root.children[k].kind is Section))
            ==> run_summary_spec(root) == ("–"@, "Starting"@),
{
    lemma_last_section(root.children, root.children.len() as int);
}

/// With nothing pending and Control not held, the navigation keys scroll
/// the step list: Up and Down move one line, Page Up and Page Down a page,
/// Home goes to the first line and stops following the list, and End goes
/// back to following its end. Scrolling up stops following the list.
pub proof fn lemma_navigation_keys<C, I>(m: ScrollModel, alt: bool)
    ensures
        key_action::<C, I>(None, Key::End, false, alt) == KeyAction::Bottom,
        scrolled(m, key_action::<C, I>(None, Key::End, false, alt)) == (ScrollModel { follow: true, ..m }),
        key_action::<C, I>(None, Key::Home, false, alt) == KeyAction::Top,
        scrolled(m, key_action::<C, I>(None, Key::Home, false, alt)) == (ScrollModel {
            follow: false,
            offset: 0,
            ..m
        }),
        ({
            let up = scrolled(m, key_action::<C, I>(None, Key::Up, false, alt));
            &&& !up.follow && up.height == m.height
            &&& up.offset == if m.offset >= 1 { m.offset - 1 } else { 0 }
        }),
        ({
            let down = scrolled(m, key_action::<C, I>(None, Key::Down, false, alt));
            &&& down.follow == m.follow && down.height == m.height
            &&& m.offset < usize::MAX ==> down.offset == m.offset + 1
        }),
        ({
            let page = if m.height > 1 { m.height as int } else { 1 };
            let up = scrolled(m, key_action::<C, I>(None, Key::PageUp, false, alt));
            let down = scrolled(m, key_action::<C, I>(None, Key::PageDown, false, alt));
            &&& !up.follow && up.offset == if m.offset >= page { m.offset - page } else { 0 }
            &&& m.offset + page <= usize::MAX ==> down.offset == m.offset + page && down.follow == m.follow
        }),
{
}

/// The title of the section in progress and its status, for the run block.
pub fn run_summary<C, I>(root: &crate::characteriser::steps::Section<C, I>) -> (r: (String, String))
    ensures
        (r.0@, r.1@) == run_summary_spec(root@),
{
    let mut i = root.children.len();
    while i > 0
        invariant
            i <= root.children@.len(),
            last_section_before(root@.children, root@.children.len() as int) == last_section_before(
                root@.children,
                i as int,
            ),
        decreases i,
    {
        assert(root@.children[i - 1] == root.children@[i - 1]@);
        let step = &root.children[i - 1];
        if let crate::characteriser::steps::StepKind::Section(section) = &step.kind {
            let status = match step.status {
                crate::characteriser::steps::StepStatus::Done => "Done",
                crate::characteriser::steps::StepStatus::Failed => "Failed",
                crate::characteriser::steps::StepStatus::Running => "Running",
            };
            return (section.title.clone(), crate::text::to_string(status));
        }
        i -= 1;
    }
    (crate::text::to_string("–"), crate::text::to_string("Starting"))
}

} // verus!
