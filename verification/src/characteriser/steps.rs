//! The tree of steps the procedure emits and the application renders.
//!
//! Times are milliseconds since the run started, as the application's clock
//! gives them. A step's responder, which the application takes to answer it,
//! is `C` for a confirmation and `I` for an input.
use vstd::prelude::*;

verus! {

/// How a span of text is shown.
#[derive(Clone, Copy, Debug, PartialEq, Eq, Structural)]
pub enum SpanStyle {
    /// The default style.
    Plain,
    /// A section's title.
    BlockTitle,
    /// What the user has to act on.
    Confirmation,
    /// A failure.
    Error,
    /// Secondary text, such as an elapsed time.
    Subtle,
    /// A value the operator's eye scans for.
    Variable,
}

/// A span of text with a style.
#[derive(Clone, Debug)]
pub struct StyledSpan {
    pub content: String,
    pub style: SpanStyle,
}

/// A span of text with a style, as a value.
pub struct SpanModel {
    pub content: Seq<char>,
    pub style: SpanStyle,
}

impl View for StyledSpan {
    type V = SpanModel;

    open spec fn view(&self) -> SpanModel {
        SpanModel { content: self.content@, style: self.style }
    }
}

impl StyledSpan {
    /// A span in the default style.
    pub fn raw(content: String) -> (r: Self)
        ensures
            r@ == (SpanModel { content: content@, style: SpanStyle::Plain }),
    {
        StyledSpan { content, style: SpanStyle::Plain }
    }

    /// A span in `style`.
    pub fn styled(content: String, style: SpanStyle) -> (r: Self)
        ensures
            r@ == (SpanModel { content: content@, style }),
    {
        StyledSpan { content, style }
    }
}

/// The views of `spans`.
pub open spec fn spans_view(spans: Seq<StyledSpan>) -> Seq<SpanModel> {
    spans.map_values(|s: StyledSpan| s@)
}

/// How a step ended, or that it hasn't yet.
#[derive(Clone, Copy, Debug, PartialEq, Eq, Structural)]
pub enum StepStatus {
    Done,
    Failed,
    Running,
}

impl Default for StepStatus {
    /// A step starts out running.
    fn default() -> (r: Self)
        ensures
            r == StepStatus::Running,
    {
        StepStatus::Running
    }
}

/// What a step displays and how the user interacts with it.
pub enum StepKind<C, I> {
    /// A gate: something the user has to make true, e.g. "Confirm that the
    /// roughing pump is running", before the procedure continues.
    ///
    /// Not a yes/no question. There's no answer to record — the step's
    /// status and `finished_at` say that it was passed and when — and no way
    /// to refuse: a user who can't make it true quits instead.
    Confirm {
        prompt: String,
        /// Taken by the application when the user confirms.
        ///
        /// `Some` exactly while this step is waiting for input, which is what
        /// `Section::pending_mut` looks for.
        responder: Option<C>,
    },

    /// A value typed by the user.
    Input {
        /// What the user has typed so far.
        buffer: String,
        /// Set when the buffer failed to parse, and shown beside the prompt.
        error: Option<String>,
        prompt: String,
        /// Taken by the application when the user submits a value.
        responder: Option<I>,
        /// The unit shown after the input field, e.g. "A".
        unit: Option<String>,
        /// The accepted value, set by the procedure once parsed.
        value: Option<String>,
    },

    /// A group of steps.
    Section(Section<C, I>),

    /// One line of styled text: a remark, a measurement, an error, or
    /// something still in progress.
    ///
    /// A step that is still `Running` renders with a spinner and a live
    /// elapsed time, which is what makes it a "waiting" step; it stops the
    /// moment the procedure finishes it.
    Text { spans: Vec<StyledSpan> },
}

/// A single step in the procedure.
pub struct Step<C, I> {
    /// When the step finished, if it has.
    pub finished_at: Option<u64>,
    pub kind: StepKind<C, I>,
    pub started_at: u64,
    pub status: StepStatus,
}

/// A group of steps with a title.
///
/// The root of the tree has no title, because the UI renders the root's
/// children rather than the root itself.
pub struct Section<C, I> {
    /// The steps nested beneath this one, in the order they began.
    pub children: Vec<Step<C, I>>,
    pub title: String,
}

/// A step's kind, as a value.
pub enum KindModel<C, I> {
    Confirm { prompt: Seq<char>, responder: Option<C> },
    Input {
        buffer: Seq<char>,
        error: Option<Seq<char>>,
        prompt: Seq<char>,
        responder: Option<I>,
        unit: Option<Seq<char>>,
        value: Option<Seq<char>>,
    },
    Section(SectionModel<C, I>),
    Text { spans: Seq<SpanModel> },
}

/// A step, as a value.
pub struct StepModel<C, I> {
    pub finished_at: Option<u64>,
    pub kind: KindModel<C, I>,
    pub started_at: u64,
    pub status: StepStatus,
}

/// A section, as a value.
pub struct SectionModel<C, I> {
    pub children: Seq<StepModel<C, I>>,
    pub title: Seq<char>,
}

/// The characters of an optional string.
pub open spec fn opt_view(s: Option<String>) -> Option<Seq<char>> {
    match s {
        Some(s) => Some(s@),
        None => None,
    }
}

impl<C, I> StepKind<C, I> {
    /// The kind as a value.
    pub open spec fn model(self) -> KindModel<C, I>
        decreases self, 3int,
    {
        match self {
            StepKind::Confirm { prompt, responder } => KindModel::Confirm { prompt: prompt@, responder },
            StepKind::Input { buffer, error, prompt, responder, unit, value } => KindModel::Input {
                buffer: buffer@,
                error: opt_view(error),
                prompt: prompt@,
                responder,
                unit: opt_view(unit),
                value: opt_view(value),
            },
            StepKind::Section(s) => KindModel::Section(s.model()),
            StepKind::Text { spans } => KindModel::Text { spans: spans_view(spans@) },
        }
    }
}

impl<C, I> Step<C, I> {
    /// The step as a value.
    pub open spec fn model(self) -> StepModel<C, I>
        decreases self, 2int,
    {
        StepModel {
            finished_at: self.finished_at,
            kind: self.kind.model(),
            started_at: self.started_at,
            status: self.status,
        }
    }
}

impl<C, I> Section<C, I> {
    /// The section as a value.
    pub open spec fn model(self) -> SectionModel<C, I>
        decreases self, 1int,
    {
        SectionModel {
            children: Seq::new(self.children@.len(), |i: int| self.child_model(i)),
            title: self.title@,
        }
    }

    /// The child at `i` as a value.
    pub open spec fn child_model(self, i: int) -> StepModel<C, I>
        decreases self, 0int,
    {
        if 0 <= i < self.children@.len() {
            proof {
                vstd::std_specs::vec::axiom_vec_index_decreases(self.children, i);
            }
            self.children@[i].model()
        } else {
            arbitrary()
        }
    }
}

impl<C, I> View for StepKind<C, I> {
    type V = KindModel<C, I>;

    open spec fn view(&self) -> KindModel<C, I> {
        self.model()
    }
}

impl<C, I> View for Step<C, I> {
    type V = StepModel<C, I>;

    open spec fn view(&self) -> StepModel<C, I> {
        self.model()
    }
}

impl<C, I> View for Section<C, I> {
    type V = SectionModel<C, I>;

    open spec fn view(&self) -> SectionModel<C, I> {
        self.model()
    }
}

impl<C, I> KindModel<C, I> {
    /// Whether a step of this kind is waiting on the user: it still holds a
    /// responder. Taking the responder is what ends the wait.
    pub open spec fn is_pending(self) -> bool {
        match self {
            KindModel::Confirm { responder, .. } => responder is Some,
            KindModel::Input { responder, .. } => responder is Some,
            _ => false,
        }
    }
}

impl<C, I> SectionModel<C, I> {
    /// The step at `path`, the child indices from this section, if there is
    /// one.
    pub open spec fn step_at(self, path: Seq<usize>) -> Option<StepModel<C, I>>
        decreases path.len(),
    {
        if path.len() == 0 || path[0] >= self.children.len() {
            None
        } else if path.len() == 1 {
            Some(self.children[path[0] as int])
        } else {
            match self.children[path[0] as int].kind {
                KindModel::Section(s) => s.step_at(path.drop_first()),
                _ => None,
            }
        }
    }

    /// The section at `path`, if there is one: this section itself for the
    /// empty path.
    pub open spec fn section_at(self, path: Seq<usize>) -> Option<SectionModel<C, I>>
        decreases path.len(),
    {
        if path.len() == 0 {
            Some(self)
        } else if path[0] >= self.children.len() {
            None
        } else {
            match self.children[path[0] as int].kind {
                KindModel::Section(s) => s.section_at(path.drop_first()),
                _ => None,
            }
        }
    }

    /// This section with the step at `path` replaced by `step`; unchanged if
    /// there is no step at `path`.
    pub open spec fn with_step_at(self, path: Seq<usize>, step: StepModel<C, I>) -> SectionModel<C, I>
        decreases path.len(),
    {
        if path.len() == 0 || path[0] >= self.children.len() {
            self
        } else if path.len() == 1 {
            SectionModel { children: self.children.update(path[0] as int, step), title: self.title }
        } else {
            let child = self.children[path[0] as int];
            match child.kind {
                KindModel::Section(s) => SectionModel {
                    children: self.children.update(
                        path[0] as int,
                        StepModel { kind: KindModel::Section(s.with_step_at(path.drop_first(), step)), ..child },
                    ),
                    title: self.title,
                },
                _ => self,
            }
        }
    }

    /// This section with the section at `path` replaced by `section`;
    /// unchanged if there is no section at `path`.
    pub open spec fn with_section_at(self, path: Seq<usize>, section: SectionModel<C, I>) -> SectionModel<C, I>
        decreases path.len(),
    {
        if path.len() == 0 {
            section
        } else if path[0] >= self.children.len() {
            self
        } else {
            let child = self.children[path[0] as int];
            match child.kind {
                KindModel::Section(s) => SectionModel {
                    children: self.children.update(
                        path[0] as int,
                        StepModel { kind: KindModel::Section(s.with_section_at(path.drop_first(), section)), ..child },
                    ),
                    title: self.title,
                },
                _ => self,
            }
        }
    }

    /// The path of the step waiting on the user, if any.
    ///
    /// The procedure is sequential, so the step awaiting input can only be
    /// the last one in the tree: follow the last child down through nested
    /// sections and check whether what is there still holds a responder.
    pub open spec fn pending_path(self) -> Option<Seq<usize>>
        decreases self,
    {
        if self.children.len() == 0 {
            None
        } else {
            let last = (self.children.len() - 1) as usize;
            match self.children[last as int].kind {
                KindModel::Section(s) => match s.pending_path() {
                    Some(p) => Some(seq![last] + p),
                    None => None,
                },
                k => if k.is_pending() {
                    Some(seq![last])
                } else {
                    None
                },
            }
        }
    }
}

/// A section whose children are `b`'s, which differ from `a`'s at most at
/// `i`, is `a` with the child at `i` replaced.
proof fn lemma_model_update<C, I>(a: Section<C, I>, b: Section<C, I>, i: int)
    requires
        a.title == b.title,
        0 <= i < a.children@.len(),
        b.children@ == a.children@.update(i, b.children@[i]),
    ensures
        b.model() == (SectionModel {
            children: a.model().children.update(i, b.children@[i].model()),
            title: a.model().title,
        }),
        b.children@[i].model() == a.children@[i].model() ==> b.model() == a.model(),
{
    assert(b.model().children =~= a.model().children.update(i, b.children@[i].model()));
    if b.children@[i].model() == a.children@[i].model() {
        assert(b.model().children =~= a.model().children);
    }
}

} // verus!

verus! {

impl<C, I> StepKind<C, I> {
    /// A fatal error, styled as an error.
    ///
    /// The step's `status` carries the failure; this is only its appearance.
    pub fn error(message: String) -> (r: Self)
        ensures
            r@ == (KindModel::<C, I>::Text {
                spans: seq![SpanModel { content: message@, style: SpanStyle::Error }],
            }),
    {
        let spans = vec![StyledSpan::styled(message, SpanStyle::Error)];
        assert(spans_view(spans@) =~= seq![spans@[0]@]);
        StepKind::Text { spans }
    }

    /// A labelled value, e.g. "Forward voltage: 9.61 ± 0.03 mV".
    ///
    /// The label is shown in the default style and the value in the
    /// variable style: the two-tone idiom used for every reading, which is
    /// what the operator's eye scans for.
    pub fn measurement(label: String, value: String) -> (r: Self)
        ensures
            r@ == (KindModel::<C, I>::Text {
                spans: seq![
                    SpanModel { content: label@ + ": "@, style: SpanStyle::Plain },
                    SpanModel { content: value@, style: SpanStyle::Variable },
                ],
            }),
    {
        let mut label = label;
        label.append(": ");
        let spans = vec![StyledSpan::raw(label), StyledSpan::styled(value, SpanStyle::Variable)];
        assert(spans_view(spans@) =~= seq![spans@[0]@, spans@[1]@]);
        StepKind::Text { spans }
    }

    /// A plain line of text.
    pub fn text(text: String) -> (r: Self)
        ensures
            r@ == (KindModel::<C, I>::Text {
                spans: seq![SpanModel { content: text@, style: SpanStyle::Plain }],
            }),
    {
        let spans = vec![StyledSpan::raw(text)];
        assert(spans_view(spans@) =~= seq![spans@[0]@]);
        StepKind::Text { spans }
    }
}

/// How long a step ran for, or has been running at `now`; a clock that
/// reads earlier than the step's start gives zero.
pub open spec fn elapsed_spec<C, I>(step: StepModel<C, I>, now: u64) -> nat {
    let end = match step.finished_at {
        Some(f) => f,
        None => now,
    };
    if end >= step.started_at {
        (end - step.started_at) as nat
    } else {
        0
    }
}

impl<C, I> Step<C, I> {
    /// A step that started at `now` and hasn't finished.
    pub fn new(kind: StepKind<C, I>, now: u64) -> (r: Self)
        ensures
            r@ == (StepModel {
                finished_at: None,
                kind: kind@,
                started_at: now,
                status: StepStatus::Running,
            }),
    {
        Step { finished_at: None, kind, started_at: now, status: StepStatus::Running }
    }

    /// How long the step ran for, or has been running at `now`, in
    /// milliseconds.
    pub fn elapsed(&self, now: u64) -> (r: u64)
        ensures
            r == elapsed_spec(self@, now),
    {
        let end = match self.finished_at {
            Some(f) => f,
            None => now,
        };
        end.saturating_sub(self.started_at)
    }

    /// Whether the step is waiting on the user.
    ///
    /// True exactly while it still holds a responder: taking the responder
    /// is what ends the wait.
    pub fn is_pending(&self) -> (r: bool)
        ensures
            r == self@.kind.is_pending(),
    {
        match &self.kind {
            StepKind::Confirm { responder, .. } => responder.is_some(),
            StepKind::Input { responder, .. } => responder.is_some(),
            _ => false,
        }
    }

    /// Marks the step finished at `now` with `status`.
    pub fn finish(&mut self, status: StepStatus, now: u64)
        ensures
            final(self)@ == (StepModel { finished_at: Some(now), status, ..old(self)@ }),
    {
        self.finished_at = Some(now);
        self.status = status;
    }
}

impl<C, I> Default for Section<C, I> {
    /// The root of a tree: no children and no title.
    fn default() -> (r: Self)
        ensures
            r@ == (SectionModel::<C, I> { children: Seq::empty(), title: Seq::empty() }),
    {
        let r = Section { children: Vec::new(), title: String::new() };
        assert(r@.children =~= Seq::empty());
        r
    }
}

impl<C, I> Section<C, I> {
    /// An empty section titled `title`.
    pub fn new(title: String) -> (r: Self)
        ensures
            r@ == (SectionModel::<C, I> { children: Seq::empty(), title: title@ }),
    {
        let r = Section { children: Vec::new(), title };
        assert(r@.children =~= Seq::empty());
        r
    }

    /// Appends a step that started at `now` and returns its index in
    /// `children`.
    pub fn push(&mut self, kind: StepKind<C, I>, now: u64) -> (index: usize)
        ensures
            index == old(self)@.children.len(),
            final(self)@ == (SectionModel {
                children: old(self)@.children.push(StepModel {
                    finished_at: None,
                    kind: kind@,
                    started_at: now,
                    status: StepStatus::Running,
                }),
                title: old(self)@.title,
            }),
    {
        let ghost old_self = *self;
        let step = Step::new(kind, now);
        self.children.push(step);
        assert(self@.children =~= old_self@.children.push(step@)) by {
            assert forall|i: int| 0 <= i < old_self.children@.len() implies self.children@[i] == old_self.children@[i] by {}
        }
        self.children.len() - 1
    }

    /// The step at `path`, the child indices from this section, if there is
    /// one.
    pub fn step_at(&self, path: &[usize]) -> (r: Option<&Step<C, I>>)
        ensures
            match self@.step_at(path@) {
                None => r is None,
                Some(s) => r matches Some(t) && t@ == s,
            },
        decreases path.len(),
    {
        if path.len() == 0 {
            return None;
        }
        let index = path[0];
        if index >= self.children.len() {
            return None;
        }
        assert(self@.children[index as int] == self.children@[index as int]@);
        if path.len() == 1 {
            return Some(&self.children[index]);
        }
        let (_, rest) = path.split_at(1);
        assert(rest@ == path@.drop_first());
        match &self.children[index].kind {
            StepKind::Section(section) => section.step_at(rest),
            _ => None,
        }
    }

    /// The step at `path`, if there is one, to change in place.
    pub fn step_at_mut(&mut self, path: &[usize]) -> (r: Option<&mut Step<C, I>>)
        ensures
            match old(self)@.step_at(path@) {
                None => r is None && final(self)@ == old(self)@,
                Some(s) => r is Some && r.unwrap()@ == s && final(self)@ == old(self)@.with_step_at(
                    path@,
                    final(r.unwrap())@,
                ),
            },
        decreases path.len(),
    {
        if path.len() == 0 {
            return None;
        }
        let index = path[0];
        if index >= self.children.len() {
            return None;
        }
        proof {
            let a = *old(self);
            let i = index as int;
            assert forall|b: Section<C, I>|
                b.title == a.title && b.children@ == a.children@.update(i, b.children@[i]) implies #[trigger] b.model()
                == (SectionModel { children: a.model().children.update(i, b.children@[i].model()), title: a.model().title })
                && (b.children@[i].model() == a.children@[i].model() ==> b.model() == a.model()) by {
                lemma_model_update(a, b, i);
            }
        }
        if path.len() == 1 {
            return Some(&mut self.children[index]);
        }
        let (_, rest) = path.split_at(1);
        assert(rest@ == path@.drop_first());
        match &mut self.children[index].kind {
            StepKind::Section(section) => section.step_at_mut(rest),
            _ => None,
        }
    }

    /// The section at `path`, if there is one, to change in place: this
    /// section itself for the empty path.
    pub fn section_at_mut(&mut self, path: &[usize]) -> (r: Option<&mut Section<C, I>>)
        ensures
            match old(self)@.section_at(path@) {
                None => r is None && final(self)@ == old(self)@,
                Some(s) => r is Some && r.unwrap()@ == s && final(self)@ == old(self)@.with_section_at(
                    path@,
                    final(r.unwrap())@,
                ),
            },
        decreases path.len(),
    {
        if path.len() == 0 {
            return Some(self);
        }
        let index = path[0];
        if index >= self.children.len() {
            return None;
        }
        proof {
            let a = *old(self);
            let i = index as int;
            assert forall|b: Section<C, I>|
                b.title == a.title && b.children@ == a.children@.update(i, b.children@[i]) implies #[trigger] b.model()
                == (SectionModel { children: a.model().children.update(i, b.children@[i].model()), title: a.model().title })
                && (b.children@[i].model() == a.children@[i].model() ==> b.model() == a.model()) by {
                lemma_model_update(a, b, i);
            }
        }
        let (_, rest) = path.split_at(1);
        assert(rest@ == path@.drop_first());
        match &mut self.children[index].kind {
            StepKind::Section(section) => section.section_at_mut(rest),
            _ => None,
        }
    }
}

} // verus!

verus! {

impl<C, I> Section<C, I> {
    /// The path of the step waiting on the user, if any.
    ///
    /// The procedure is sequential, so the step awaiting input can only be
    /// the last one in the tree: follow the last child down through nested
    /// sections and check whether what is there still holds a responder.
    /// That's a walk of the tree's depth, not its size.
    ///
    /// IMPORTANT: if the procedure ever runs two sections concurrently, this
    /// assumption breaks and this has to become a depth-first search for a
    /// step holding a responder.
    pub fn pending_path(&self) -> (r: Option<Vec<usize>>)
        ensures
            match self@.pending_path() {
                None => r is None,
                Some(p) => r matches Some(v) && v@ == p,
            },
        decreases self,
    {
        let n = self.children.len();
        if n == 0 {
            return None;
        }
        let last = n - 1;
        assert(self@.children[last as int] == self.children@[last as int]@);
        match &self.children[last].kind {
            StepKind::Section(section) => {
                proof {
                    vstd::std_specs::vec::axiom_vec_index_decreases(self.children, last as int);
                }
                match section.pending_path() {
                    Some(p) => {
                        let mut v = vec![last];
                        let mut p = p;
                        v.append(&mut p);
                        Some(v)
                    },
                    None => None,
                }
            },
            _ => if self.children[last].is_pending() {
                Some(vec![last])
            } else {
                None
            },
        }
    }

    /// The step waiting on the user, if any.
    pub fn pending(&self) -> (r: Option<&Step<C, I>>)
        ensures
            match self@.pending_path() {
                None => r is None,
                Some(p) => r matches Some(s) && self@.step_at(p) == Some(s@),
            },
    {
        proof {
            lemma_pending_path_resolves(self@);
        }
        match self.pending_path() {
            Some(p) => self.step_at(p.as_slice()),
            None => None,
        }
    }

    /// The step waiting on the user, if any, to change in place.
    pub fn pending_mut(&mut self) -> (r: Option<&mut Step<C, I>>)
        ensures
            match old(self)@.pending_path() {
                None => r is None && final(self)@ == old(self)@,
                Some(p) => r is Some && old(self)@.step_at(p) == Some(r.unwrap()@) && final(self)@
                    == old(self)@.with_step_at(p, final(r.unwrap())@),
            },
    {
        proof {
            lemma_pending_path_resolves(self@);
        }
        match self.pending_path() {
            Some(p) => self.step_at_mut(p.as_slice()),
            None => None,
        }
    }

    /// Appends a step that started at `now` beneath the section at `parent`
    /// and returns the new step's path, or `None` if there is no section at
    /// `parent`.
    pub fn push_beneath(&mut self, parent: &[usize], kind: StepKind<C, I>, now: u64) -> (r: Option<Vec<usize>>)
        ensures
            match old(self)@.section_at(parent@) {
                None => r is None && final(self)@ == old(self)@,
                Some(s) => r matches Some(p) && p@ == parent@.push(s.children.len() as usize)
                    && final(self)@ == old(self)@.with_section_at(
                    parent@,
                    SectionModel {
                        children: s.children.push(StepModel {
                            finished_at: None,
                            kind: kind@,
                            started_at: now,
                            status: StepStatus::Running,
                        }),
                        title: s.title,
                    },
                ),
            },
    {
        match self.section_at_mut(parent) {
            Some(section) => {
                let index = section.push(kind, now);
                let mut path: Vec<usize> = Vec::new();
                let mut i: usize = 0;
                while i < parent.len()
                    invariant
                        i <= parent@.len(),
                        path@ == parent@.take(i as int),
                    decreases parent@.len() - i,
                {
                    path.push(parent[i]);
                    assert(parent@.take(i + 1) =~= parent@.take(i as int).push(parent@[i as int]));
                    i += 1;
                }
                assert(parent@.take(i as int) =~= parent@);
                path.push(index);
                Some(path)
            },
            None => None,
        }
    }

    /// Marks the step at `path` finished at `now` with `status`, returning
    /// whether there is one.
    pub fn finish_at(&mut self, path: &[usize], status: StepStatus, now: u64) -> (found: bool)
        ensures
            match old(self)@.step_at(path@) {
                None => !found && final(self)@ == old(self)@,
                Some(s) => found && final(self)@ == old(self)@.with_step_at(
                    path@,
                    StepModel { finished_at: Some(now), status, ..s },
                ),
            },
    {
        match self.step_at_mut(path) {
            Some(step) => {
                step.finish(status, now);
                true
            },
            None => false,
        }
    }
}

/// The pending path, when there is one, leads to a step that is waiting on
/// the user.
pub proof fn lemma_pending_path_resolves<C, I>(tree: SectionModel<C, I>)
    ensures
        tree.pending_path() matches Some(p) ==> tree.step_at(p) matches Some(s) && s.kind.is_pending(),
    decreases tree,
{
    if tree.children.len() > 0 {
        let last = (tree.children.len() - 1) as usize;
        match tree.children[last as int].kind {
            KindModel::Section(s) => {
                lemma_pending_path_resolves(s);
                if let Some(p) = s.pending_path() {
                    let q = seq![last] + p;
                    assert(q.drop_first() =~= p);
                    if p.len() == 0 {
                        lemma_step_at_empty(s);
                    }
                }
            },
            _ => {},
        }
    }
}

/// Putting a step that no longer waits on the user in place of the pending
/// step leaves nothing pending: the pending step is always the last one in
/// the tree, so once it's answered nothing else can be.
pub proof fn lemma_answered_not_pending<C, I>(tree: SectionModel<C, I>, step: StepModel<C, I>)
    requires
        tree.pending_path() is Some,
        !step.kind.is_pending(),
        !(step.kind is Section),
    ensures
        tree.with_step_at(tree.pending_path().unwrap(), step).pending_path() is None,
    decreases tree,
{
    let last = (tree.children.len() - 1) as usize;
    let path = tree.pending_path().unwrap();
    let after = tree.with_step_at(path, step);
    match tree.children[last as int].kind {
        KindModel::Section(s) => {
            let p = s.pending_path().unwrap();
            lemma_pending_path_resolves(s);
            if p.len() == 0 {
                assert(p =~= Seq::<usize>::empty());
                lemma_step_at_empty(s);
            }
            assert(path =~= seq![last] + p);
            assert(path.len() > 1 && path[0] == last);
            assert(path.drop_first() =~= p);
            lemma_answered_not_pending(s, step);
            assert(s.with_step_at(p, step).pending_path() is None);
            assert(after.children[last as int].kind == KindModel::Section(s.with_step_at(p, step)));
            assert(after.children.len() == tree.children.len());
        },
        _ => {
            assert(path =~= seq![last]);
            assert(after.children[last as int] == step);
        },
    }
}

/// No step is at the empty path.
proof fn lemma_step_at_empty<C, I>(tree: SectionModel<C, I>)
    ensures
        tree.step_at(Seq::empty()) is None,
{
}

} // verus!

verus! {

/// `tree` after a step is pushed beneath the section at `parent`, as
/// `Section::push_beneath` leaves it.
pub open spec fn pushed_beneath<C, I>(tree: SectionModel<C, I>, parent: Seq<usize>, step: StepModel<C, I>) -> SectionModel<C, I> {
    match tree.section_at(parent) {
        Some(s) => tree.with_section_at(parent, SectionModel { children: s.children.push(step), title: s.title }),
        None => tree,
    }
}

/// Whether `p` leads to `parent` or to one of the sections above it.
pub open spec fn is_prefix(p: Seq<usize>, parent: Seq<usize>) -> bool {
    p.len() <= parent.len() && parent.take(p.len() as int) == p
}

/// The path returned for a pushed step leads to that step. (A section holds
/// fewer children than a `usize` counts.)
pub proof fn lemma_push_beneath_resolves<C, I>(tree: SectionModel<C, I>, parent: Seq<usize>, step: StepModel<C, I>)
    requires
        tree.section_at(parent) is Some,
        tree.section_at(parent).unwrap().children.len() < usize::MAX,
    ensures
        pushed_beneath(tree, parent, step).step_at(
            parent.push(tree.section_at(parent).unwrap().children.len() as usize),
        ) == Some(step),
    decreases parent.len(),
{
    let s = tree.section_at(parent).unwrap();
    let k = s.children.len() as usize;
    if parent.len() > 0 {
        let j = parent[0];
        let child = tree.children[j as int];
        if let KindModel::Section(cs) = child.kind {
            let rest = parent.drop_first();
            assert(parent.push(k).drop_first() =~= rest.push(k));
            lemma_push_beneath_resolves(cs, rest, step);
        }
    }
}

/// Steps are only ever appended — never removed, never reordered — so
/// pushing a step keeps every path that led to a step leading to one, and
/// to the same step unless it is the section the step was pushed beneath or
/// one of the sections above it, which gain the step.
pub proof fn lemma_push_keeps_paths<C, I>(
    tree: SectionModel<C, I>,
    parent: Seq<usize>,
    step: StepModel<C, I>,
    p: Seq<usize>,
)
    requires
        tree.step_at(p) is Some,
    ensures
        pushed_beneath(tree, parent, step).step_at(p) is Some,
        !is_prefix(p, parent) ==> pushed_beneath(tree, parent, step).step_at(p) == tree.step_at(p),
    decreases p.len(),
{
    if tree.section_at(parent) is Some && parent.len() > 0 {
        let j = parent[0];
        let child = tree.children[j as int];
        if let KindModel::Section(cs) = child.kind {
            if p[0] == j && p.len() > 1 {
                let rest = parent.drop_first();
                lemma_push_keeps_paths(cs, rest, step, p.drop_first());
                if is_prefix(p.drop_first(), rest) {
                    assert(parent.take(p.len() as int) =~= seq![j] + rest.take(p.len() - 1));
                    assert(p =~= seq![j] + p.drop_first());
                }
            } else if p[0] == j {
                assert(parent.take(1) =~= seq![j]);
                assert(p =~= seq![j]);
            }
        }
    }
}

/// `tree` after the step at `path` is finished at `now` with `status`, as
/// `Section::finish_at` leaves it.
pub open spec fn finished_at<C, I>(tree: SectionModel<C, I>, path: Seq<usize>, status: StepStatus, now: u64) -> SectionModel<C, I> {
    match tree.step_at(path) {
        Some(s) => tree.with_step_at(path, StepModel { finished_at: Some(now), status, ..s }),
        None => tree,
    }
}

/// Replacing a step with one of the same kind keeps every path that led to
/// a step leading to one.
proof fn lemma_replace_keeps_paths<C, I>(
    tree: SectionModel<C, I>,
    path: Seq<usize>,
    step: StepModel<C, I>,
    p: Seq<usize>,
)
    requires
        tree.step_at(path) matches Some(s) && s.kind == step.kind,
        tree.step_at(p) is Some,
    ensures
        tree.with_step_at(path, step).step_at(p) is Some,
    decreases p.len(),
{
    let j = path[0];
    if path.len() > 1 {
        if let KindModel::Section(cs) = tree.children[j as int].kind {
            if p[0] == j && p.len() > 1 {
                lemma_replace_keeps_paths(cs, path.drop_first(), step, p.drop_first());
            }
        }
    }
}

/// Finishing a step keeps every path that led to a step leading to one, and
/// leads the step's own path to the finished step.
pub proof fn lemma_finish_keeps_paths<C, I>(
    tree: SectionModel<C, I>,
    path: Seq<usize>,
    status: StepStatus,
    now: u64,
    p: Seq<usize>,
)
    requires
        tree.step_at(p) is Some,
    ensures
        finished_at(tree, path, status, now).step_at(p) is Some,
{
    if let Some(s) = tree.step_at(path) {
        lemma_replace_keeps_paths(tree, path, StepModel { finished_at: Some(now), status, ..s }, p);
    }
}

} // verus!

verus! {

/// `kind` without its responder: a step nobody can answer any more, which
/// mustn't still look like it's waiting on the user.
pub open spec fn released<C, I>(kind: KindModel<C, I>) -> KindModel<C, I> {
    match kind {
        KindModel::Confirm { prompt, .. } => KindModel::Confirm { prompt, responder: None },
        KindModel::Input { buffer, error, prompt, unit, value, .. } => KindModel::Input {
            buffer,
            error,
            prompt,
            responder: None,
            unit,
            value,
        },
        k => k,
    }
}

/// An input `kind` that accepted `value`: its error cleared and the value
/// recorded. Any other kind is left as it is.
pub open spec fn accepted<C, I>(kind: KindModel<C, I>, value: Seq<char>) -> KindModel<C, I> {
    match kind {
        KindModel::Input { buffer, prompt, responder, unit, .. } => KindModel::Input {
            buffer,
            error: None,
            prompt,
            responder,
            unit,
            value: Some(value),
        },
        k => k,
    }
}

/// An input `kind` whose submission failed to parse with `error`, asked
/// again in place with a new `responder`. Any other kind is left as it is.
pub open spec fn rejected<C, I>(kind: KindModel<C, I>, error: Seq<char>, responder: I) -> KindModel<C, I> {
    match kind {
        KindModel::Input { buffer, prompt, unit, value, .. } => KindModel::Input {
            buffer,
            error: Some(error),
            prompt,
            responder: Some(responder),
            unit,
            value,
        },
        k => k,
    }
}

/// `tree` with the kind of the step at `path` changed to `kind`.
pub open spec fn with_kind_at<C, I>(tree: SectionModel<C, I>, path: Seq<usize>, kind: KindModel<C, I>) -> SectionModel<C, I> {
    match tree.step_at(path) {
        Some(s) => tree.with_step_at(path, StepModel { kind, ..s }),
        None => tree,
    }
}

impl<C, I> Section<C, I> {
    /// Gives up the responder of the step at `path`, so that it stops
    /// looking like it's waiting on the user; returns whether there is a
    /// step at `path`.
    pub fn release_responder(&mut self, path: &[usize]) -> (found: bool)
        ensures
            found == old(self)@.step_at(path@) is Some,
            final(self)@ == with_kind_at(
                old(self)@,
                path@,
                released(old(self)@.step_at(path@).unwrap().kind),
            ),
    {
        match self.step_at_mut(path) {
            Some(step) => {
                match &mut step.kind {
                    StepKind::Confirm { responder, .. } => {
                        *responder = None;
                    },
                    StepKind::Input { responder, .. } => {
                        *responder = None;
                    },
                    _ => {},
                }
                true
            },
            None => false,
        }
    }

    /// Records that the input at `path` accepted `value`; returns whether
    /// there is a step at `path`.
    pub fn accept_input(&mut self, path: &[usize], value: String) -> (found: bool)
        ensures
            found == old(self)@.step_at(path@) is Some,
            final(self)@ == with_kind_at(
                old(self)@,
                path@,
                accepted(old(self)@.step_at(path@).unwrap().kind, value@),
            ),
    {
        match self.step_at_mut(path) {
            Some(step) => {
                if let StepKind::Input { error, value: v, .. } = &mut step.kind {
                    *error = None;
                    *v = Some(value);
                }
                true
            },
            None => false,
        }
    }

    /// Records that what was submitted to the input at `path` failed to
    /// parse with `error`, and asks again in place with `responder`, so the
    /// step stays the last in the tree; returns whether there is a step at
    /// `path`.
    pub fn reject_input(&mut self, path: &[usize], error: String, responder: I) -> (found: bool)
        ensures
            found == old(self)@.step_at(path@) is Some,
            final(self)@ == with_kind_at(
                old(self)@,
                path@,
                rejected(old(self)@.step_at(path@).unwrap().kind, error@, responder),
            ),
    {
        match self.step_at_mut(path) {
            Some(step) => {
                if let StepKind::Input { error: e, responder: r, .. } = &mut step.kind {
                    *e = Some(error);
                    *r = Some(responder);
                }
                true
            },
            None => false,
        }
    }
}


/// What came of waiting on an input step for a value.
pub enum InputEvent<I> {
    /// The wait ended without a value: the run was cancelled, or nobody can
    /// answer any more.
    Cancelled,
    /// The typed text, trimmed, parsed as a value.
    Accepted(String),
    /// The typed text, trimmed, didn't parse: the parse error, and the
    /// responder the next try is sent through.
    Rejected(String, I),
}

impl<C, I> Section<C, I> {
    /// Records `event` on the input step at `path` at `now`: a cancelled
    /// wait gives up the responder, so the step stops looking like it's
    /// waiting on the user, and fails the step; an accepted value is shown
    /// and finishes the step; a rejected one shows the error beside the
    /// prompt and waits for another try in place, so the step stays the last
    /// one in the tree.
    pub fn input_event(&mut self, path: &[usize], event: InputEvent<I>, now: u64)
        ensures
            match event {
                InputEvent::Cancelled => final(self)@ == finished_at(
                    with_kind_at(old(self)@, path@, released(old(self)@.step_at(path@).unwrap().kind)),
                    path@,
                    StepStatus::Failed,
                    now,
                ),
                InputEvent::Accepted(value) => final(self)@ == finished_at(
                    with_kind_at(old(self)@, path@, accepted(old(self)@.step_at(path@).unwrap().kind, value@)),
                    path@,
                    StepStatus::Done,
                    now,
                ),
                InputEvent::Rejected(error, responder) => final(self)@ == with_kind_at(
                    old(self)@,
                    path@,
                    rejected(old(self)@.step_at(path@).unwrap().kind, error@, responder),
                ),
            },
    {
        match event {
            InputEvent::Cancelled => {
                self.release_responder(path);
                self.finish_at(path, StepStatus::Failed, now);
            },
            InputEvent::Accepted(value) => {
                self.accept_input(path, value);
                self.finish_at(path, StepStatus::Done, now);
            },
            InputEvent::Rejected(error, responder) => {
                self.reject_input(path, error, responder);
            },
        }
    }
}

} // verus!
