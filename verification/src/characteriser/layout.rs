//! How the step tree is laid out as lines of styled text.
//!
//! Text is never wrapped: a step produces a fixed number of lines — one for
//! itself, plus whatever its children produce — and anything too wide is
//! ellipsified to fit. That's what makes scrolling a slice index: the line
//! count doesn't depend on the width.
use crate::characteriser::steps::{
    elapsed_spec, spans_view, KindModel, Section, SectionModel, SpanModel, SpanStyle, Step, StepKind,
    StepModel,
    StepStatus, StyledSpan,
};
use crate::text::{decimal, push_decimal, to_string};
use vstd::prelude::*;

verus! {

/// How many whole seconds `d` holds.
pub uninterp spec fn duration_secs(d: core::time::Duration) -> nat;

/// The number of whole seconds in `d` (`Duration::as_secs`).
#[verifier::external_body]
fn as_secs(d: core::time::Duration) -> (s: u64)
    ensures
        s == duration_secs(d),
{
    d.as_secs()
}

/// A duration of `seconds` as `3s`, `2m 3s` or `1h 2m 3s`, leaving out the
/// units that would be zero.
pub open spec fn duration_text(seconds: nat) -> Seq<char> {
    let hours = seconds / 3600;
    let minutes = seconds / 60 % 60;
    let secs = seconds % 60;
    if hours > 0 {
        decimal(hours) + "h "@ + decimal(minutes) + "m "@ + decimal(secs) + "s"@
    } else if minutes > 0 {
        decimal(minutes) + "m "@ + decimal(secs) + "s"@
    } else {
        decimal(secs) + "s"@
    }
}

/// Formats `seconds` as `3s`, `2m 3s` or `1h 2m 3s`, leaving out the units
/// that would be zero.
pub fn format_seconds(seconds: u64) -> (r: String)
    ensures
        r@ == duration_text(seconds as nat),
{
    let hours = seconds / 3600;
    let minutes = seconds / 60 % 60;
    let secs = seconds % 60;
    let mut r = String::new();
    if hours > 0 {
        push_decimal(&mut r, hours);
        r.append("h ");
        push_decimal(&mut r, minutes);
        r.append("m ");
        push_decimal(&mut r, secs);
        r.append("s");
    } else if minutes > 0 {
        push_decimal(&mut r, minutes);
        r.append("m ");
        push_decimal(&mut r, secs);
        r.append("s");
    } else {
        push_decimal(&mut r, secs);
        r.append("s");
    }
    assert(r@ =~= duration_text(seconds as nat));
    r
}

/// Formats a duration as `3s`, `2m 3s` or `1h 2m 3s`, leaving out the units
/// that would be zero. Only whole seconds are shown.
pub fn format_duration(duration: core::time::Duration) -> (r: String)
    ensures
        r@ == duration_text(duration_secs(duration)),
{
    format_seconds(as_secs(duration))
}

/// The columns `content` takes up on a terminal, as the terminal UI measures
/// a span.
pub uninterp spec fn display_width(content: Seq<char>) -> nat;

/// The columns `content` takes up on a terminal (`ratatui`'s `Span::width`).
#[verifier::external_body]
pub(crate) fn span_width(content: &str) -> (w: usize)
    ensures
        w == display_width(content@),
{
    ratatui::text::Span::raw(content).width()
}

/// `a - b`, or zero when `b` is larger.
pub open spec fn sat_sub(a: nat, b: nat) -> nat {
    if a >= b {
        (a - b) as nat
    } else {
        0
    }
}

/// The first `n` characters of `s`, or all of them when it has fewer.
pub open spec fn first_chars(s: Seq<char>, n: nat) -> Seq<char> {
    if n <= s.len() {
        s.take(n as int)
    } else {
        s
    }
}

/// `content` cut to its first `n` characters and ended with `…`.
pub open spec fn cut(span: SpanModel, n: nat) -> SpanModel {
    SpanModel { content: first_chars(span.content, n) + "…"@, style: span.style }
}

/// Truncation of `spans` to `width` columns, with `used` columns taken by
/// the spans kept so far: whole spans are kept while they fit; the first
/// that doesn't is cut to the columns left, less one for the `…` that ends
/// it; and with no column left, the last kept span loses its last character
/// to the `…` instead.
pub open spec fn ellipsify_from(spans: Seq<SpanModel>, width: nat, used: nat, kept: Seq<SpanModel>) -> Seq<SpanModel>
    decreases spans.len(),
{
    if spans.len() == 0 {
        kept
    } else {
        let span = spans[0];
        let w = display_width(span.content);
        if used + w <= width {
            ellipsify_from(spans.drop_first(), width, used + w, kept.push(span))
        } else {
            let available = sat_sub(sat_sub(width, used), 1);
            if available > 0 {
                kept.push(cut(span, available))
            } else if kept.len() > 0 {
                let last = kept.last();
                kept.drop_last().push(cut(last, sat_sub(last.content.len(), 1)))
            } else {
                kept
            }
        }
    }
}

/// `spans` truncated to `width` columns, ending the last surviving span with
/// `…` when anything was cut.
pub open spec fn ellipsify_spec(spans: Seq<SpanModel>, width: nat) -> Seq<SpanModel> {
    ellipsify_from(spans, width, 0, seq![])
}

/// A copy of `span`.
fn copy_span(span: &StyledSpan) -> (r: StyledSpan)
    ensures
        r@ == span@,
{
    StyledSpan { content: span.content.clone(), style: span.style }
}

/// `span` cut to its first `n` characters and ended with `…`.
fn cut_span(span: &StyledSpan, n: usize) -> (r: StyledSpan)
    ensures
        r@ == cut(span@, n as nat),
{
    let s = span.content.as_str();
    let len = s.unicode_len();
    let end = if n <= len {
        n
    } else {
        len
    };
    let mut content = to_string(s.substring_char(0, end));
    content.append("…");
    proof {
        if n <= len {
            assert(s@.subrange(0, end as int) =~= s@.take(n as int));
        } else {
            assert(s@.subrange(0, end as int) =~= s@);
        }
    }
    StyledSpan { content, style: span.style }
}

/// Truncates `spans` to `width` columns, ending the last surviving span with
/// `…` when anything was cut.
///
/// Everything is ellipsified rather than left to clip at the block edge, so
/// a truncated line always says so — silent truncation looks like a short
/// line, and a step list is exactly where a reader would fail to notice.
///
/// Widths are measured as the terminal shows them. Cutting within a span
/// counts characters instead, which is correct for everything the
/// constructors generate and for the ASCII an operator types.
pub fn ellipsify(spans: &[StyledSpan], width: u16) -> (r: Vec<StyledSpan>)
    ensures
        spans_view(r@) == ellipsify_spec(spans_view(spans@), width as nat),
{
    let limit = width as usize;
    let mut kept: Vec<StyledSpan> = Vec::new();
    let mut used: usize = 0;
    let mut i: usize = 0;
    let ghost all = spans_view(spans@);
    assert(all.skip(0) =~= all);
    assert(spans_view(kept@) =~= Seq::<SpanModel>::empty());
    while i < spans.len()
        invariant
            i <= spans@.len(),
            used <= limit,
            all == spans_view(spans@),
            ellipsify_spec(all, width as nat) == ellipsify_from(
                all.skip(i as int),
                limit as nat,
                used as nat,
                spans_view(kept@),
            ),
        decreases spans@.len() - i,
    {
        let span = &spans[i];
        let span_w = span_width(span.content.as_str());
        let ghost rest = all.skip(i as int);
        let ghost old_kept = kept@;
        assert(rest[0] == span@);
        assert(rest.drop_first() =~= all.skip(i + 1));
        if span_w <= limit - used {
            used = used + span_w;
            let ghost before = kept@;
            kept.push(copy_span(span));
            assert(spans_view(kept@) =~= spans_view(before).push(span@));
            i += 1;
        } else {
            let available = (limit - used).saturating_sub(1);
            assert(!(used + display_width(rest[0].content) <= limit));
            assert(available == sat_sub(sat_sub(limit as nat, used as nat), 1));
            if available > 0 {
                let ghost before = kept@;
                kept.push(cut_span(span, available));
                assert(spans_view(kept@) =~= spans_view(before).push(cut(span@, available as nat)));
            } else if kept.len() > 0 {
                let ghost before = kept@;
                let last = kept.pop().unwrap();
                assert(last@ == spans_view(before).last());
                assert(spans_view(kept@) =~= spans_view(before).drop_last());
                let n = last.content.as_str().unicode_len().saturating_sub(1);
                kept.push(cut_span(&last, n));
                assert(spans_view(kept@) =~= spans_view(before).drop_last().push(
                    cut(spans_view(before).last(), sat_sub(spans_view(before).last().content.len(), 1)),
                ));
            }
            assert(spans_view(kept@) == ellipsify_from(rest, limit as nat, used as nat, spans_view(old_kept)));
            return kept;
        }
    }
    assert(all.skip(i as int) =~= Seq::<SpanModel>::empty());
    kept
}

} // verus!

verus! {

/// The columns `spans` take up, one after the other.
pub open spec fn spans_width(spans: Seq<SpanModel>) -> nat
    decreases spans.len(),
{
    if spans.len() == 0 {
        0
    } else {
        spans_width(spans.drop_last()) + display_width(spans.last().content)
    }
}

/// `n` spaces.
pub open spec fn spaces(n: nat) -> Seq<char> {
    Seq::new(n, |i: int| ' ')
}

/// A span in the default style.
pub open spec fn plain(content: Seq<char>) -> SpanModel {
    SpanModel { content, style: SpanStyle::Plain }
}

/// `spans` laid out in `width` columns with `right` against the right edge:
/// `spans` are ellipsified to leave room for `right` and one space before
/// it, and padded with spaces to push `right` to the edge.
pub open spec fn right_align_spec(spans: Seq<SpanModel>, right: Seq<char>, width: nat) -> Seq<SpanModel> {
    let kept = ellipsify_spec(spans, sat_sub(width, right.len() + 1));
    let padding = sat_sub(width, spans_width(kept) + right.len());
    kept.push(plain(spaces(padding))).push(SpanModel { content: right, style: SpanStyle::Subtle })
}

/// `n` spaces.
pub fn repeat_space(n: usize) -> (r: String)
    ensures
        r@ == spaces(n as nat),
{
    let mut r = String::new();
    let mut i: usize = 0;
    while i < n
        invariant
            i <= n,
            r@ == spaces(i as nat),
        decreases n - i,
    {
        r.append(" ");
        proof {
            reveal_strlit(" ");
        }
        i += 1;
        assert(r@ =~= spaces(i as nat));
    }
    r
}

/// Lays `right` out against the right edge of `width` columns, ellipsifying
/// `spans` to fit.
///
/// The padding is added here rather than left to the terminal UI's
/// alignment, which would be computed against the drawing area rather than
/// the indented width a nested section renders into.
pub fn right_align(spans: &[StyledSpan], right: &str, width: u16) -> (r: Vec<StyledSpan>)
    requires
        right@.len() < 0xffff,
    ensures
        spans_view(r@) == right_align_spec(spans_view(spans@), right@, width as nat),
{
    // One space so a full-width left part can't run into the right one.
    let right_len = right.unicode_len();
    let right_width = right_len as u16 + 1;
    let mut kept = ellipsify(spans, width.saturating_sub(right_width));

    let mut used: usize = 0;
    let mut i: usize = 0;
    while i < kept.len()
        invariant
            i <= kept@.len(),
            used == (if spans_width(spans_view(kept@).take(i as int)) <= usize::MAX {
                spans_width(spans_view(kept@).take(i as int))
            } else {
                usize::MAX as nat
            }),
        decreases kept@.len() - i,
    {
        let w = span_width(kept[i].content.as_str());
        assert(spans_view(kept@).take(i + 1).drop_last() =~= spans_view(kept@).take(i as int));
        used = used.saturating_add(w);
        i += 1;
    }
    assert(spans_view(kept@).take(i as int) =~= spans_view(kept@));
    let padding = (width as usize).saturating_sub(used.saturating_add(right_len));
    let ghost before = kept@;
    kept.push(StyledSpan::raw(repeat_space(padding)));
    kept.push(StyledSpan::styled(to_string(right), SpanStyle::Subtle));
    assert(spans_view(kept@) =~= spans_view(before).push(plain(spaces(padding as nat))).push(
        SpanModel { content: right@, style: SpanStyle::Subtle },
    ));
    kept
}

/// A line: the step's glyph, then its spans.
pub open spec fn line_spec(glyph: SpanModel, spans: Seq<SpanModel>) -> Seq<SpanModel> {
    seq![glyph] + spans
}

/// The columns each level of nesting indents by.
pub const INDENT: u16 = 2;

/// A line indented by one level of nesting.
pub open spec fn indent_spec(line: Seq<SpanModel>) -> Seq<SpanModel> {
    seq![plain(spaces(INDENT as nat))] + line
}

/// Assembles a line from a step's glyph and its spans.
pub fn line(glyph: StyledSpan, spans: Vec<StyledSpan>) -> (r: Vec<StyledSpan>)
    ensures
        spans_view(r@) == line_spec(glyph@, spans_view(spans@)),
{
    let mut all: Vec<StyledSpan> = Vec::new();
    all.push(glyph);
    let ghost start = all@;
    let mut spans = spans;
    let ghost rest = spans@;
    all.append(&mut spans);
    assert(spans_view(all@) =~= line_spec(start[0]@, spans_view(rest)));
    all
}

/// Indents a line by one level of nesting.
pub fn indent(line: Vec<StyledSpan>) -> (r: Vec<StyledSpan>)
    ensures
        spans_view(r@) == indent_spec(spans_view(line@)),
{
    let mut spans: Vec<StyledSpan> = Vec::new();
    spans.push(StyledSpan::raw(repeat_space(INDENT as usize)));
    let ghost first = spans@[0];
    let mut line = line;
    let ghost rest = line@;
    spans.append(&mut line);
    assert(spans_view(spans@) =~= indent_spec(spans_view(rest)));
    spans
}

} // verus!

verus! {

/// How long each spinner frame is shown for, in milliseconds.
pub const SPINNER_FRAME_INTERVAL_MS: u64 = 80;

/// The frame of the spinner shown beside a running step, `0` to `9`.
pub open spec fn spinner_frame(i: nat) -> Seq<char> {
    if i == 0 {
        "⠋"@
    } else if i == 1 {
        "⠙"@
    } else if i == 2 {
        "⠹"@
    } else if i == 3 {
        "⠸"@
    } else if i == 4 {
        "⠼"@
    } else if i == 5 {
        "⠴"@
    } else if i == 6 {
        "⠦"@
    } else if i == 7 {
        "⠧"@
    } else if i == 8 {
        "⠇"@
    } else {
        "⠏"@
    }
}

/// The status glyph shown at the start of a step's line at `now`: a tick, a
/// cross, or the spinner frame for the step's own elapsed time, so no tick
/// counter has to be passed down the tree.
pub open spec fn glyph_text<C, I>(step: StepModel<C, I>, now: u64) -> Seq<char> {
    match step.status {
        StepStatus::Done => "✔"@,
        StepStatus::Failed => "✖"@,
        StepStatus::Running => spinner_frame(
            (elapsed_spec(step, now) / (SPINNER_FRAME_INTERVAL_MS as nat)) % 10,
        ),
    }
}

/// The text showing how long a step ran for, or has been running.
pub open spec fn elapsed_text<C, I>(step: StepModel<C, I>, now: u64) -> Seq<char> {
    duration_text(elapsed_spec(step, now) / 1000)
}

/// The spans of an input step's line, before they are fitted to the width:
/// the prompt; while waiting, what has been typed with a block cursor (the
/// terminal's own cursor is hidden), otherwise the accepted value; the unit;
/// and the parse error.
pub open spec fn input_spans<I>(
    buffer: Seq<char>,
    error: Option<Seq<char>>,
    prompt: Seq<char>,
    responder: Option<I>,
    unit: Option<Seq<char>>,
    value: Option<Seq<char>>,
) -> Seq<SpanModel> {
    let entry = if responder is Some {
        seq![SpanModel { content: buffer + "█"@, style: SpanStyle::Confirmation }]
    } else if value is Some {
        seq![SpanModel { content: value.unwrap(), style: SpanStyle::Variable }]
    } else {
        seq![]
    };
    let unit_span = match unit {
        Some(u) => seq![plain(" "@ + u)],
        None => seq![],
    };
    let error_span = match error {
        Some(e) => seq![SpanModel { content: "  "@ + e, style: SpanStyle::Error }],
        None => seq![],
    };
    seq![plain(prompt + ": "@)] + entry + unit_span + error_span
}

/// The spans of a step's own line after its glyph, fitted to `available`
/// columns at `now`.
pub open spec fn own_spans<C, I>(step: StepModel<C, I>, available: nat, now: u64) -> Seq<SpanModel> {
    match step.kind {
        KindModel::Confirm { prompt, responder } => {
            let hint = if responder is Some {
                seq![plain(" "@), SpanModel { content: "[Enter] Confirm"@, style: SpanStyle::Confirmation }]
            } else {
                seq![]
            };
            ellipsify_spec(seq![plain(prompt)] + hint, available)
        },
        KindModel::Input { buffer, error, prompt, responder, unit, value } => ellipsify_spec(
            input_spans(buffer, error, prompt, responder, unit, value),
            available,
        ),
        KindModel::Section(s) => right_align_spec(
            seq![SpanModel { content: s.title, style: SpanStyle::BlockTitle }],
            elapsed_text(step, now),
            available,
        ),
        KindModel::Text { spans } => if step.status == StepStatus::Running {
            right_align_spec(spans, elapsed_text(step, now), available)
        } else {
            ellipsify_spec(spans, available)
        },
    }
}

/// The lines a step is laid out as in `width` columns at `now`: its own
/// line, then, for a section, its children's lines laid out `INDENT`
/// columns narrower and indented.
pub open spec fn step_lines<C, I>(step: StepModel<C, I>, width: nat, now: u64) -> Seq<Seq<SpanModel>>
    decreases step,
{
    let glyph = plain(glyph_text(step, now) + " "@);
    let available = sat_sub(width, display_width(glyph.content));
    let first = line_spec(glyph, own_spans(step, available, now));
    match step.kind {
        KindModel::Section(s) => seq![first] + lines_of(s.children, sat_sub(width, INDENT as nat), now).map_values(
            |l: Seq<SpanModel>| indent_spec(l),
        ),
        _ => seq![first],
    }
}

/// The lines of `children`, one after the other.
pub open spec fn lines_of<C, I>(children: Seq<StepModel<C, I>>, width: nat, now: u64) -> Seq<Seq<SpanModel>>
    decreases children,
{
    if children.len() == 0 {
        seq![]
    } else {
        step_lines(children[0], width, now) + lines_of(children.drop_first(), width, now)
    }
}

} // verus!

verus! {

/// Ellipsifying only keeps the spans it is given, or cuts one of them,
/// which keeps its style: a style that neither the spans nor those kept so
/// far have doesn't appear in what comes back.
pub proof fn lemma_ellipsify_keeps_styles(
    spans: Seq<SpanModel>,
    width: nat,
    used: nat,
    kept: Seq<SpanModel>,
    style: SpanStyle,
)
    requires
        forall|i: int| 0 <= i < spans.len() ==> (#[trigger] spans[i]).style != style,
        forall|i: int| 0 <= i < kept.len() ==> (#[trigger] kept[i]).style != style,
    ensures
        forall|i: int|
            0 <= i < ellipsify_from(spans, width, used, kept).len() ==> (#[trigger] ellipsify_from(
                spans,
                width,
                used,
                kept,
            )[i]).style != style,
    decreases spans.len(),
{
    if spans.len() > 0 {
        let span = spans[0];
        let w = display_width(span.content);
        if used + w <= width {
            let more = kept.push(span);
            assert forall|i: int| 0 <= i < more.len() implies (#[trigger] more[i]).style != style by {
                if i < kept.len() {
                    assert(more[i] == kept[i]);
                }
            }
            let rest = spans.drop_first();
            assert forall|i: int| 0 <= i < rest.len() implies (#[trigger] rest[i]).style != style by {
                assert(rest[i] == spans[i + 1]);
            }
            lemma_ellipsify_keeps_styles(rest, width, used + w, more, style);
        } else {
            let available = sat_sub(sat_sub(width, used), 1);
            if available > 0 {
                let out = kept.push(cut(span, available));
                assert forall|i: int| 0 <= i < out.len() implies (#[trigger] out[i]).style != style by {
                    if i < kept.len() {
                        assert(out[i] == kept[i]);
                    }
                }
            } else if kept.len() > 0 {
                let last = kept.last();
                let out = kept.drop_last().push(cut(last, sat_sub(last.content.len(), 1)));
                assert forall|i: int| 0 <= i < out.len() implies (#[trigger] out[i]).style != style by {
                    if i < kept.len() - 1 {
                        assert(out[i] == kept[i]);
                    }
                }
            }
        }
    }
}

/// A confirmation's line offers `[Enter] Confirm` only while the step still
/// holds its responder. Once the confirmation has passed, the line is the
/// glyph and the prompt alone, all in the default style, so nothing on it
/// asks for a key; while it is pending and there is room, the line is the
/// glyph, the prompt, and the hint in the style of what the operator has to
/// act on.
pub proof fn lemma_confirm_hint<C, I>(step: StepModel<C, I>, width: nat, now: u64)
    requires
        step.kind is Confirm,
    ensures
        ({
            let line = step_lines(step, width, now)[0];
            let glyph = plain(glyph_text(step, now) + " "@);
            let prompt = step.kind->Confirm_prompt;
            let available = sat_sub(width, display_width(glyph.content));
            &&& step_lines(step, width, now).len() == 1
            &&& step.kind->Confirm_responder is None ==> line.len() >= 1 && line[0] == glyph && forall|i: int|
                0 <= i < line.len() ==> (#[trigger] line[i]).style == SpanStyle::Plain
            &&& (step.kind->Confirm_responder is Some && display_width(prompt) + display_width(" "@)
                + display_width("[Enter] Confirm"@) <= available) ==> line == seq![
                glyph,
                plain(prompt),
                plain(" "@),
                SpanModel { content: "[Enter] Confirm"@, style: SpanStyle::Confirmation },
            ]
        }),
{
    let line = step_lines(step, width, now)[0];
    let glyph = plain(glyph_text(step, now) + " "@);
    let prompt = step.kind->Confirm_prompt;
    let available = sat_sub(width, display_width(glyph.content));
    if step.kind->Confirm_responder is None {
        let spans = seq![plain(prompt)];
        assert(seq![plain(prompt)] + Seq::<SpanModel>::empty() =~= spans);
        assert forall|i: int| 0 <= i < spans.len() implies (#[trigger] spans[i]).style != SpanStyle::Confirmation by {}
        lemma_ellipsify_keeps_styles(spans, available, 0, seq![], SpanStyle::Confirmation);
        lemma_ellipsify_keeps_styles(spans, available, 0, seq![], SpanStyle::BlockTitle);
        lemma_ellipsify_keeps_styles(spans, available, 0, seq![], SpanStyle::Error);
        lemma_ellipsify_keeps_styles(spans, available, 0, seq![], SpanStyle::Subtle);
        lemma_ellipsify_keeps_styles(spans, available, 0, seq![], SpanStyle::Variable);
        let own = ellipsify_spec(spans, available);
        assert(line == seq![glyph] + own);
        assert forall|i: int| 0 <= i < line.len() implies (#[trigger] line[i]).style == SpanStyle::Plain by {
            if i > 0 {
                assert(line[i] == own[i - 1]);
            }
        }
    } else if display_width(prompt) + display_width(" "@) + display_width("[Enter] Confirm"@) <= available {
        let hint = SpanModel { content: "[Enter] Confirm"@, style: SpanStyle::Confirmation };
        let spans = seq![plain(prompt), plain(" "@), hint];
        assert(seq![plain(prompt)] + seq![plain(" "@), hint] =~= spans);
        reveal_with_fuel(ellipsify_from, 4);
        assert(spans.drop_first() =~= seq![plain(" "@), hint]);
        assert(spans.drop_first().drop_first() =~= seq![hint]);
        assert(spans.drop_first().drop_first().drop_first() =~= Seq::<SpanModel>::empty());
        assert(ellipsify_spec(spans, available) =~= spans);
        assert(line =~= seq![glyph] + spans);
    }
}

/// The lines' spans as values.
pub open spec fn lines_view(lines: Seq<Vec<StyledSpan>>) -> Seq<Seq<SpanModel>> {
    lines.map_values(|l: Vec<StyledSpan>| spans_view(l@))
}

/// The lines of two runs of steps, one after the other, are the lines of
/// the first followed by those of the second.
pub proof fn lemma_lines_of_concat<C, I>(a: Seq<StepModel<C, I>>, b: Seq<StepModel<C, I>>, width: nat, now: u64)
    ensures
        lines_of(a + b, width, now) == lines_of(a, width, now) + lines_of(b, width, now),
    decreases a.len(),
{
    if a.len() == 0 {
        assert(a + b =~= b);
        assert(lines_of(a, width, now) + lines_of(b, width, now) =~= lines_of(b, width, now));
    } else {
        assert((a + b).drop_first() =~= a.drop_first() + b);
        lemma_lines_of_concat(a.drop_first(), b, width, now);
        assert(lines_of(a + b, width, now) =~= lines_of(a, width, now) + lines_of(b, width, now));
    }
}

/// A number that fits in a `u64` has at most 20 decimal digits.
proof fn lemma_u64_decimal_len(n: nat)
    requires
        n <= u64::MAX,
    ensures
        decimal(n).len() <= 20,
{
    reveal_with_fuel(crate::text::pow10, 21);
    assert(crate::text::pow10(20) == 100_000_000_000_000_000_000nat);
    crate::text::lemma_decimal_len_pow10(n, 20);
}

/// A duration of at most `u64::MAX` seconds is written in at most 65
/// characters.
proof fn lemma_duration_text_len(seconds: nat)
    requires
        seconds <= u64::MAX,
    ensures
        duration_text(seconds).len() <= 65,
{
    lemma_u64_decimal_len(seconds / 3600);
    lemma_u64_decimal_len(seconds / 60 % 60);
    lemma_u64_decimal_len(seconds % 60);
    reveal_strlit("h ");
    reveal_strlit("m ");
    reveal_strlit("s");
}

/// The spinner frame `i`, which is below 10.
fn spinner(i: u64) -> (s: &'static str)
    ensures
        s@ == spinner_frame(i as nat),
{
    if i == 0 {
        "⠋"
    } else if i == 1 {
        "⠙"
    } else if i == 2 {
        "⠹"
    } else if i == 3 {
        "⠸"
    } else if i == 4 {
        "⠼"
    } else if i == 5 {
        "⠴"
    } else if i == 6 {
        "⠦"
    } else if i == 7 {
        "⠧"
    } else if i == 8 {
        "⠇"
    } else {
        "⠏"
    }
}

/// A copy of `spans`.
fn copy_spans(spans: &[StyledSpan]) -> (r: Vec<StyledSpan>)
    ensures
        spans_view(r@) == spans_view(spans@),
{
    let mut r: Vec<StyledSpan> = Vec::new();
    let mut i: usize = 0;
    while i < spans.len()
        invariant
            i <= spans@.len(),
            spans_view(r@) == spans_view(spans@.take(i as int)),
        decreases spans@.len() - i,
    {
        let ghost before = r@;
        r.push(copy_span(&spans[i]));
        assert(spans_view(r@) =~= spans_view(before).push(spans@[i as int]@));
        assert(spans@.take(i + 1) =~= spans@.take(i as int).push(spans@[i as int]));
        assert(spans_view(spans@.take(i + 1)) =~= spans_view(spans@.take(i as int)).push(spans@[i as int]@));
        i += 1;
    }
    assert(spans@.take(i as int) =~= spans@);
    r
}

/// A copy of an optional string.
fn copy_opt(s: &Option<String>) -> (r: Option<String>)
    ensures
        crate::characteriser::steps::opt_view(r) == crate::characteriser::steps::opt_view(*s),
{
    match s {
        Some(s) => Some(s.clone()),
        None => None,
    }
}

impl<C, I> Step<C, I> {
    /// The status glyph shown at the start of the step's line at `now`.
    fn glyph(&self, now: u64) -> (r: String)
        ensures
            r@ == glyph_text(self@, now),
    {
        match self.status {
            StepStatus::Done => to_string("✔"),
            StepStatus::Failed => to_string("✖"),
            StepStatus::Running => {
                let frame = self.elapsed(now) / SPINNER_FRAME_INTERVAL_MS;
                to_string(spinner(frame % 10))
            },
        }
    }

    /// The step as lines laid out in `width` columns at `now`.
    ///
    /// Text is never wrapped: a step produces a fixed number of lines — one
    /// for itself, plus whatever its children produce — and anything too
    /// wide is ellipsified to fit. A line with a right-hand element — a
    /// section's total elapsed time, a running step's elapsed seconds — lays
    /// it out against the right edge and ellipsifies the left part to fit,
    /// so the time stays visible however long the title is.
    ///
    /// A section lays out its title and then its children `INDENT` columns
    /// narrower, indenting what comes back — so the recursion carries the
    /// nesting and no depth parameter is needed.
    pub fn render(&self, width: u16, now: u64) -> (r: Vec<Vec<StyledSpan>>)
        ensures
            lines_view(r@) == step_lines(self@, width as nat, now),
        decreases self,
    {
        let mut glyph_content = self.glyph(now);
        glyph_content.append(" ");
        let glyph = StyledSpan::raw(glyph_content);
        let glyph_width = span_width(glyph.content.as_str());
        let available: u16 = if glyph_width >= width as usize {
            0
        } else {
            width - glyph_width as u16
        };
        let ghost first_glyph = glyph@;
        assert(first_glyph == plain(glyph_text(self@, now) + " "@));
        assert(available == sat_sub(width as nat, display_width(first_glyph.content)));
        let mut lines: Vec<Vec<StyledSpan>> = Vec::new();
        match &self.kind {
            StepKind::Confirm { prompt, responder } => {
                let mut spans = vec![StyledSpan::raw(prompt.clone())];
                // Once it's passed there's nothing to add: the glyph says so.
                if responder.is_some() {
                    spans.push(StyledSpan::raw(to_string(" ")));
                    spans.push(StyledSpan::styled(to_string("[Enter] Confirm"), SpanStyle::Confirmation));
                }
                let ghost hint = if responder.is_some() {
                    seq![plain(" "@), SpanModel { content: "[Enter] Confirm"@, style: SpanStyle::Confirmation }]
                } else {
                    Seq::<SpanModel>::empty()
                };
                assert(spans_view(spans@) =~= seq![plain(prompt@)] + hint);
                lines.push(line(glyph, ellipsify(spans.as_slice(), available)));
                assert(lines_view(lines@) =~= step_lines(self@, width as nat, now));
            },
            StepKind::Input { buffer, error, prompt, responder, unit, value } => {
                let mut head = prompt.clone();
                head.append(": ");
                let mut spans = vec![StyledSpan::raw(head)];
                if responder.is_some() {
                    // A block cursor, since the terminal's own cursor is hidden.
                    let mut entry = buffer.clone();
                    entry.append("█");
                    spans.push(StyledSpan::styled(entry, SpanStyle::Confirmation));
                } else if let Some(value) = value {
                    spans.push(StyledSpan::styled(value.clone(), SpanStyle::Variable));
                }
                if let Some(unit) = unit {
                    let mut u = to_string(" ");
                    u.append(unit.as_str());
                    spans.push(StyledSpan::raw(u));
                }
                if let Some(error) = error {
                    let mut e = to_string("  ");
                    e.append(error.as_str());
                    spans.push(StyledSpan::styled(e, SpanStyle::Error));
                }
                assert(spans_view(spans@) =~= input_spans(
                    buffer@,
                    crate::characteriser::steps::opt_view(copy_opt_spec(error)),
                    prompt@,
                    *responder,
                    crate::characteriser::steps::opt_view(copy_opt_spec(unit)),
                    crate::characteriser::steps::opt_view(copy_opt_spec(value)),
                ));
                lines.push(line(glyph, ellipsify(spans.as_slice(), available)));
                assert(lines_view(lines@) =~= step_lines(self@, width as nat, now));
            },
            StepKind::Section(section) => {
                let elapsed = format_seconds(self.elapsed(now) / 1000);
                proof {
                    lemma_duration_text_len((elapsed_spec(self@, now) / 1000) as nat);
                }
                let title = vec![StyledSpan::styled(section.title.clone(), SpanStyle::BlockTitle)];
                assert(spans_view(title@) =~= seq![SpanModel { content: section@.title, style: SpanStyle::BlockTitle }]);
                lines.push(line(glyph, right_align(title.as_slice(), elapsed.as_str(), available)));
                // Narrowing the width before laying out and indenting after
                // means a nested section's right-aligned elapsed time still
                // lands in the correct column once the indent is prepended.
                let ghost first_line = lines_view(lines@)[0];
                assert(first_line == line_spec(first_glyph, own_spans(self@, available as nat, now)));
                let children = section.render_children(width.saturating_sub(INDENT), now);
                let ghost child_lines = lines_view(children@);
                assert(child_lines == lines_of(section@.children, sat_sub(width as nat, INDENT as nat), now));
                let mut i: usize = 0;
                while i < children.len()
                    invariant
                        i <= children@.len(),
                        child_lines == lines_view(children@),
                        lines@.len() == i + 1,
                        lines_view(lines@)[0] == first_line,
                        lines_view(lines@) =~= seq![lines_view(lines@)[0]] + child_lines.take(i as int).map_values(
                            |l: Seq<SpanModel>| indent_spec(l),
                        ),
                    decreases children@.len() - i,
                {
                    let ghost before = lines@;
                    let indented = indent(copy_spans(children[i].as_slice()));
                    assert(spans_view(indented@) == indent_spec(child_lines[i as int]));
                    lines.push(indented);
                    assert(lines_view(lines@) =~= lines_view(before).push(indent_spec(child_lines[i as int])));
                    assert(child_lines.take(i + 1) =~= child_lines.take(i as int).push(child_lines[i as int]));
                    assert(child_lines.take(i + 1).map_values(|l: Seq<SpanModel>| indent_spec(l))
                        =~= child_lines.take(i as int).map_values(|l: Seq<SpanModel>| indent_spec(l)).push(
                        indent_spec(child_lines[i as int]),
                    ));
                    assert(lines_view(lines@) =~= seq![lines_view(lines@)[0]] + child_lines.take(i + 1).map_values(
                        |l: Seq<SpanModel>| indent_spec(l),
                    ));
                    i += 1;
                }
                assert(child_lines.take(i as int) =~= child_lines);
                assert(lines_view(lines@) =~= step_lines(self@, width as nat, now));
            },
            StepKind::Text { spans } => {
                let spans = copy_spans(spans.as_slice());
                if self.status == StepStatus::Running {
                    let elapsed = format_seconds(self.elapsed(now) / 1000);
                    proof {
                        lemma_duration_text_len((elapsed_spec(self@, now) / 1000) as nat);
                    }
                    lines.push(line(glyph, right_align(spans.as_slice(), elapsed.as_str(), available)));
                } else {
                    lines.push(line(glyph, ellipsify(spans.as_slice(), available)));
                }
                assert(lines_view(lines@) =~= step_lines(self@, width as nat, now));
            },
        }
        lines
    }
}

/// The characters of an optional string, unchanged.
pub open spec fn copy_opt_spec(s: &Option<String>) -> Option<String> {
    *s
}

impl<C, I> Section<C, I> {
    /// The section's children as lines laid out in `width` columns at `now`,
    /// at this section's own level of indentation.
    ///
    /// Used by `Step::render` for nested sections, which indents what comes
    /// back, and by the UI for the root, whose own title is never shown and
    /// whose children aren't indented.
    pub fn render_children(&self, width: u16, now: u64) -> (r: Vec<Vec<StyledSpan>>)
        ensures
            lines_view(r@) == lines_of(self@.children, width as nat, now),
        decreases self,
    {
        let mut lines: Vec<Vec<StyledSpan>> = Vec::new();
        let mut i: usize = 0;
        while i < self.children.len()
            invariant
                i <= self.children@.len(),
                lines_view(lines@) == lines_of(self@.children.take(i as int), width as nat, now),
            decreases self.children@.len() - i,
        {
            proof {
                vstd::std_specs::vec::axiom_vec_index_decreases(self.children, i as int);
                assert(self@.children[i as int] == self.children@[i as int]@);
                assert(self@.children.take(i + 1) =~= self@.children.take(i as int) + seq![self@.children[i as int]]);
                lemma_lines_of_concat(self@.children.take(i as int), seq![self@.children[i as int]], width as nat, now);
                assert(seq![self@.children[i as int]].drop_first() =~= Seq::<StepModel<C, I>>::empty());
                assert(lines_of(Seq::<StepModel<C, I>>::empty(), width as nat, now) =~= Seq::<Seq<SpanModel>>::empty());
                assert(seq![self@.children[i as int]][0] == self@.children[i as int]);
                assert(lines_of(seq![self@.children[i as int]], width as nat, now) =~= step_lines(
                    self@.children[i as int],
                    width as nat,
                    now,
                ));
            }
            let ghost before = lines@;
            let mut child_lines = self.children[i].render(width, now);
            let ghost added = child_lines@;
            lines.append(&mut child_lines);
            assert(lines_view(lines@) =~= lines_view(before) + lines_view(added));
            i += 1;
        }
        assert(self@.children.take(i as int) =~= self@.children);
        lines
    }
}

} // verus!

verus! {

/// The number of lines a step takes: one for itself, plus whatever its
/// children take.
pub open spec fn step_line_count<C, I>(step: StepModel<C, I>) -> nat
    decreases step,
{
    match step.kind {
        KindModel::Section(s) => 1 + children_line_count(s.children),
        _ => 1,
    }
}

/// The number of lines a run of steps takes.
pub open spec fn children_line_count<C, I>(children: Seq<StepModel<C, I>>) -> nat
    decreases children,
{
    if children.len() == 0 {
        0
    } else {
        step_line_count(children[0]) + children_line_count(children.drop_first())
    }
}

/// A step is laid out in as many lines as it takes, whatever the width and
/// the time: only what is on a line depends on them. That's what makes
/// scrolling a slice index.
pub proof fn lemma_step_line_count<C, I>(step: StepModel<C, I>, width: nat, now: u64)
    ensures
        step_lines(step, width, now).len() == step_line_count(step),
    decreases step,
{
    if let KindModel::Section(s) = step.kind {
        lemma_children_line_count(s.children, sat_sub(width, INDENT as nat), now);
    }
}

/// A run of steps is laid out in as many lines as it takes, whatever the
/// width and the time.
pub proof fn lemma_children_line_count<C, I>(children: Seq<StepModel<C, I>>, width: nat, now: u64)
    ensures
        lines_of(children, width, now).len() == children_line_count(children),
    decreases children,
{
    if children.len() > 0 {
        lemma_step_line_count(children[0], width, now);
        lemma_children_line_count(children.drop_first(), width, now);
    }
}

/// The lines of two runs of steps, one after the other, number the lines of
/// each together.
proof fn lemma_children_line_count_concat<C, I>(a: Seq<StepModel<C, I>>, b: Seq<StepModel<C, I>>)
    ensures
        children_line_count(a + b) == children_line_count(a) + children_line_count(b),
    decreases a.len(),
{
    if a.len() == 0 {
        assert(a + b =~= b);
    } else {
        assert((a + b).drop_first() =~= a.drop_first() + b);
        lemma_children_line_count_concat(a.drop_first(), b);
    }
}

/// The index of the first line of the step at `path` among the lines of
/// `tree`'s children.
pub open spec fn line_index<C, I>(tree: SectionModel<C, I>, path: Seq<usize>) -> nat
    decreases path.len(),
{
    if path.len() == 0 || path[0] >= tree.children.len() {
        0
    } else {
        let i = path[0] as int;
        let before = children_line_count(tree.children.take(i));
        if path.len() == 1 {
            before
        } else {
            match tree.children[i].kind {
                KindModel::Section(s) => before + 1 + line_index(s, path.drop_first()),
                _ => before,
            }
        }
    }
}

/// Whether every section on the way to the last step of `tree` holds no
/// more children than a `usize` counts, as every tree built of `Section`s
/// does.
pub open spec fn last_fits<C, I>(tree: SectionModel<C, I>) -> bool
    decreases tree,
{
    &&& tree.children.len() <= usize::MAX
    &&& tree.children.len() > 0 ==> match tree.children.last().kind {
        KindModel::Section(s) => last_fits(s),
        _ => true,
    }
}

/// A tree of `Section`s fits.
pub proof fn lemma_section_fits<C, I>(tree: &Section<C, I>)
    ensures
        last_fits(tree@),
    decreases tree,
{
    let n = tree.children@.len();
    assert(n == tree.children.len());
    if n > 0 {
        let last = tree.children@[n - 1];
        vstd::std_specs::vec::axiom_vec_index_decreases(tree.children, n - 1);
        assert(tree@.children.last() == last@);
        if let StepKind::Section(s) = &last.kind {
            lemma_section_fits(s);
        }
    }
}

/// A pending step must always be visible, and it is always the last line:
/// it's the last step in the tree and a leaf, so following the end of the
/// list shows it.
pub proof fn lemma_pending_is_last_line<C, I>(tree: SectionModel<C, I>)
    requires
        last_fits(tree),
    ensures
        tree.pending_path() matches Some(p) ==> line_index(tree, p) + 1 == children_line_count(tree.children),
    decreases tree,
{
    if tree.children.len() > 0 {
        let last = (tree.children.len() - 1) as usize;
        let before = tree.children.take(last as int);
        assert(tree.children =~= before + seq![tree.children[last as int]]);
        lemma_children_line_count_concat(before, seq![tree.children[last as int]]);
        assert(seq![tree.children[last as int]].drop_first() =~= Seq::<StepModel<C, I>>::empty());
        assert(children_line_count(Seq::<StepModel<C, I>>::empty()) == 0);
        assert(children_line_count(seq![tree.children[last as int]]) == step_line_count(tree.children[last as int]));
        match tree.children[last as int].kind {
            KindModel::Section(s) => {
                lemma_pending_is_last_line(s);
                if let Some(q) = s.pending_path() {
                    let p = seq![last] + q;
                    assert(p.drop_first() =~= q);
                    lemma_step_at_empty_path(s);
                    crate::characteriser::steps::lemma_pending_path_resolves(s);
                }
            },
            _ => {},
        }
    }
}

/// The pending path of a section, when there is one, isn't empty.
proof fn lemma_step_at_empty_path<C, I>(s: SectionModel<C, I>)
    ensures
        s.pending_path() matches Some(q) ==> q.len() > 0,
{
}

} // verus!
