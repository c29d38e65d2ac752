//! The render pipeline: one request driven end to end as a state machine.
//!
//! A request acquires an isolated execution context (a tab) from the shared
//! browser resource, loads the sandbox page, injects the rendering payload,
//! evaluates the diagram text, validates the returned markup, and — for
//! raster output — re-navigates to the markup, measures the rendered layout
//! and captures a bitmap. The machine decides every transition; the caller
//! performs each emitted [`Action`] against the browser and feeds the result
//! back as an [`Event`]. The context is closed exactly once on every path
//! that opened one, whichever step failed.

use vstd::prelude::*;

use crate::encode::{decoded_markup, decode_markup, html_page_url, html_data_url, render_call,
    render_script, svg_page_url, svg_data_url};

verus! {

/// The requested output format.
#[derive(Clone, Copy, Debug, PartialEq, Eq, Structural)]
pub enum Format {
    Svg,
    Png,
}

/// Which pipeline step failed.
#[derive(Clone, Copy, Debug, PartialEq, Eq, Structural)]
pub enum FailureKind {
    /// The browser resource could not be replaced after a dead one was found.
    BrowserRestart,
    /// Context creation failed again on the freshly replaced browser.
    TabAfterRestart,
    /// The sandbox page did not load into the context.
    Navigation,
    /// The rendering payload script could not be evaluated.
    PayloadInjection,
    /// The render call itself threw or could not be evaluated.
    Evaluation,
    /// The renderer produced no usable output (empty or the `null` sentinel).
    RenderEmpty,
    /// The context could not be re-navigated to the markup for capture.
    CaptureNavigation,
    /// The capture navigation never signalled completion.
    CaptureWait,
    /// The rendered layout extents could not be measured.
    Measurement,
    /// The bitmap capture failed.
    Capture,
}

/// Where the machine stands; each non-terminal phase awaits the result of
/// the action it emitted.
#[derive(Clone, Copy, Debug, PartialEq, Eq, Structural)]
pub enum Phase {
    /// Awaiting the first context-creation attempt.
    AcquireTab,
    /// Awaiting the one browser-replacement attempt.
    RestartBrowser,
    /// Awaiting the single retry of context creation after replacement.
    RetryTab,
    /// Awaiting navigation to the sandbox page.
    SandboxLoading,
    /// Awaiting evaluation of the rendering payload script.
    PayloadInjecting,
    /// Awaiting the render call's returned value.
    RenderEvaluating,
    /// Awaiting navigation to the markup data URL.
    CaptureNavigating,
    /// Awaiting the navigation-completion signal before measuring.
    CaptureAwaiting,
    /// Awaiting the measured layout extents.
    Measuring,
    /// Awaiting the captured bitmap.
    Capturing,
    /// Awaiting the context's close; the outcome is already fixed.
    Closing,
    /// Terminal: the outcome is ready and no context remains open.
    Done,
}

/// What the caller must do next against the browser.
#[derive(Debug, PartialEq)]
pub enum Action {
    /// Create a fresh context on the current browser resource.
    CreateTab,
    /// Construct a brand-new browser resource and replace the old one.
    ReplaceBrowser,
    /// Navigate the context to the given URL.
    Navigate(String),
    /// Evaluate the given script in the context, discarding its value.
    InjectPayload(String),
    /// Evaluate the given script in the context and report its value.
    EvalRender(String),
    /// Wait for the pending navigation to complete.
    AwaitNavigation,
    /// Evaluate the given script and report the two numbers it returns.
    MeasureLayout(String),
    /// Capture a bitmap clipped to origin (0,0) and the given width and
    /// height, honouring content beyond the viewport.
    CaptureShot(u32, u32),
    /// Close the context.
    CloseTab,
    /// Nothing remains: take the outcome.
    Finish,
}

/// The result of the previous action, reported back by the caller.
#[derive(Debug, PartialEq)]
pub enum Event {
    /// The action succeeded (no value to report).
    Succeeded,
    /// The action failed.
    Failed,
    /// An evaluation succeeded with this raw value.
    Value(String),
    /// A measurement succeeded with these extents, rounded to whole pixels.
    Metrics(u32, u32),
    /// A capture succeeded with these bitmap bytes.
    Bytes(Vec<u8>),
}

/// What one request ends in.
#[derive(Debug, PartialEq)]
pub enum Outcome {
    /// Validated vector markup.
    Svg(String),
    /// Captured bitmap bytes.
    Png(Vec<u8>),
    /// The step that failed.
    Failed(FailureKind),
}

/// Mathematical image of an [`Event`].
pub ghost enum EventModel {
    Succeeded,
    Failed,
    Value(Seq<char>),
    Metrics(u32, u32),
    Bytes(Seq<u8>),
}

/// Mathematical image of an [`Action`].
pub ghost enum ActionModel {
    CreateTab,
    ReplaceBrowser,
    Navigate(Seq<char>),
    InjectPayload(Seq<char>),
    EvalRender(Seq<char>),
    AwaitNavigation,
    MeasureLayout(Seq<char>),
    CaptureShot(u32, u32),
    CloseTab,
    Finish,
}

/// Mathematical image of an [`Outcome`].
pub ghost enum OutcomeModel {
    Svg(Seq<char>),
    Png(Seq<u8>),
    Failed(FailureKind),
}

impl View for Event {
    type V = EventModel;

    open spec fn view(&self) -> EventModel {
        match self {
            Event::Succeeded => EventModel::Succeeded,
            Event::Failed => EventModel::Failed,
            Event::Value(v) => EventModel::Value(v@),
            Event::Metrics(w, h) => EventModel::Metrics(*w, *h),
            Event::Bytes(b) => EventModel::Bytes(b@),
        }
    }
}

impl View for Action {
    type V = ActionModel;

    open spec fn view(&self) -> ActionModel {
        match self {
            Action::CreateTab => ActionModel::CreateTab,
            Action::ReplaceBrowser => ActionModel::ReplaceBrowser,
            Action::Navigate(u) => ActionModel::Navigate(u@),
            Action::InjectPayload(s) => ActionModel::InjectPayload(s@),
            Action::EvalRender(s) => ActionModel::EvalRender(s@),
            Action::AwaitNavigation => ActionModel::AwaitNavigation,
            Action::MeasureLayout(s) => ActionModel::MeasureLayout(s@),
            Action::CaptureShot(w, h) => ActionModel::CaptureShot(*w, *h),
            Action::CloseTab => ActionModel::CloseTab,
            Action::Finish => ActionModel::Finish,
        }
    }
}

impl View for Outcome {
    type V = OutcomeModel;

    open spec fn view(&self) -> OutcomeModel {
        match self {
            Outcome::Svg(m) => OutcomeModel::Svg(m@),
            Outcome::Png(b) => OutcomeModel::Png(b@),
            Outcome::Failed(k) => OutcomeModel::Failed(*k),
        }
    }
}

/// Mathematical image of a [`Session`].
#[verifier::ext_equal]
pub ghost struct Model {
    /// The diagram text of the request.
    pub text: Seq<char>,
    /// The requested output format.
    pub format: Format,
    /// The sandbox page document.
    pub sandbox: Seq<char>,
    /// The rendering payload script.
    pub payload: Seq<char>,
    /// Where the machine stands.
    pub phase: Phase,
    /// The outcome, fixed once the machine reaches `Closing` or `Done`.
    pub outcome: Option<OutcomeModel>,
    /// Whether a context is live right now.
    pub tab_open: bool,
    /// Whether a context was ever created for this request.
    pub had_tab: bool,
    /// How many close actions were emitted so far.
    pub closes: nat,
}

/// The phases during which a context is live.
pub open spec fn open_phase(p: Phase) -> bool {
    ||| p == Phase::SandboxLoading
    ||| p == Phase::PayloadInjecting
    ||| p == Phase::RenderEvaluating
    ||| p == Phase::CaptureNavigating
    ||| p == Phase::CaptureAwaiting
    ||| p == Phase::Measuring
    ||| p == Phase::Capturing
    ||| p == Phase::Closing
}

/// Well-formedness: the context flag tracks the phase; an outcome exists
/// exactly from `Closing` on; a close action was emitted exactly once per
/// context ever opened, and never before the machine moved to close it.
pub open spec fn wf(m: Model) -> bool {
    &&& m.tab_open == open_phase(m.phase)
    &&& (m.outcome is Some <==> (m.phase == Phase::Closing || m.phase == Phase::Done))
    &&& m.closes == (if m.phase == Phase::Closing || (m.phase == Phase::Done && m.had_tab) {
        1nat
    } else {
        0nat
    })
    &&& (m.tab_open ==> m.had_tab)
    &&& (m.had_tab && !m.tab_open ==> m.phase == Phase::Done)
}

/// The model a fresh session starts from.
pub open spec fn init_model(
    text: Seq<char>,
    format: Format,
    sandbox: Seq<char>,
    payload: Seq<char>,
) -> Model {
    Model {
        text,
        format,
        sandbox,
        payload,
        phase: Phase::AcquireTab,
        outcome: None,
        tab_open: false,
        had_tab: false,
        closes: 0,
    }
}

/// Which events can answer the action pending in a phase.
pub open spec fn ev_fits(p: Phase, ev: EventModel) -> bool {
    match p {
        Phase::RenderEvaluating => ev is Value || ev is Failed,
        Phase::Measuring => ev is Metrics || ev is Failed,
        Phase::Capturing => ev is Bytes || ev is Failed,
        Phase::Done => false,
        _ => ev is Succeeded || ev is Failed,
    }
}

/// A failing step with a live context: fix the failure as the outcome and
/// move to close the context.
pub open spec fn fail_close_spec(m: Model, k: FailureKind) -> (Model, ActionModel) {
    (
        Model {
            phase: Phase::Closing,
            outcome: Some(OutcomeModel::Failed(k)),
            closes: 1,
            ..m
        },
        ActionModel::CloseTab,
    )
}

/// The machine's transition relation: from a model and the reported event to
/// the next model and the action the caller must perform.
pub open spec fn step_spec(m: Model, ev: EventModel) -> (Model, ActionModel) {
    match m.phase {
        Phase::AcquireTab => match ev {
            EventModel::Succeeded => (
                Model { phase: Phase::SandboxLoading, tab_open: true, had_tab: true, ..m },
                ActionModel::Navigate(html_page_url(m.sandbox)),
            ),
            _ => (Model { phase: Phase::RestartBrowser, ..m }, ActionModel::ReplaceBrowser),
        },
        Phase::RestartBrowser => match ev {
            EventModel::Succeeded => (
                Model { phase: Phase::RetryTab, ..m },
                ActionModel::CreateTab,
            ),
            _ => (
                Model {
                    phase: Phase::Done,
                    outcome: Some(OutcomeModel::Failed(FailureKind::BrowserRestart)),
                    ..m
                },
                ActionModel::Finish,
            ),
        },
        Phase::RetryTab => match ev {
            EventModel::Succeeded => (
                Model { phase: Phase::SandboxLoading, tab_open: true, had_tab: true, ..m },
                ActionModel::Navigate(html_page_url(m.sandbox)),
            ),
            _ => (
                Model {
                    phase: Phase::Done,
                    outcome: Some(OutcomeModel::Failed(FailureKind::TabAfterRestart)),
                    ..m
                },
                ActionModel::Finish,
            ),
        },
        Phase::SandboxLoading => match ev {
            EventModel::Succeeded => (
                Model { phase: Phase::PayloadInjecting, ..m },
                ActionModel::InjectPayload(m.payload),
            ),
            _ => fail_close_spec(m, FailureKind::Navigation),
        },
        Phase::PayloadInjecting => match ev {
            EventModel::Succeeded => (
                Model { phase: Phase::RenderEvaluating, ..m },
                ActionModel::EvalRender(render_call(m.text)),
            ),
            _ => fail_close_spec(m, FailureKind::PayloadInjection),
        },
        Phase::RenderEvaluating => match ev {
            EventModel::Value(v) => {
                let markup = decoded_markup(v);
                if markup.len() == 0 {
                    fail_close_spec(m, FailureKind::RenderEmpty)
                } else if m.format == Format::Svg {
                    (
                        Model {
                            phase: Phase::Closing,
                            outcome: Some(OutcomeModel::Svg(markup)),
                            closes: 1,
                            ..m
                        },
                        ActionModel::CloseTab,
                    )
                } else {
                    (
                        Model { phase: Phase::CaptureNavigating, ..m },
                        ActionModel::Navigate(svg_page_url(markup)),
                    )
                }
            },
            _ => fail_close_spec(m, FailureKind::Evaluation),
        },
        Phase::CaptureNavigating => match ev {
            EventModel::Succeeded => (
                Model { phase: Phase::CaptureAwaiting, ..m },
                ActionModel::AwaitNavigation,
            ),
            _ => fail_close_spec(m, FailureKind::CaptureNavigation),
        },
        Phase::CaptureAwaiting => match ev {
            EventModel::Succeeded => (
                Model { phase: Phase::Measuring, ..m },
                ActionModel::MeasureLayout(metrics_call()),
            ),
            _ => fail_close_spec(m, FailureKind::CaptureWait),
        },
        Phase::Measuring => match ev {
            EventModel::Metrics(w, h) => (
                Model { phase: Phase::Capturing, ..m },
                ActionModel::CaptureShot(w, h),
            ),
            _ => fail_close_spec(m, FailureKind::Measurement),
        },
        Phase::Capturing => match ev {
            EventModel::Bytes(b) => (
                Model {
                    phase: Phase::Closing,
                    outcome: Some(OutcomeModel::Png(b)),
                    closes: 1,
                    ..m
                },
                ActionModel::CloseTab,
            ),
            _ => fail_close_spec(m, FailureKind::Capture),
        },
        Phase::Closing => (
            Model { phase: Phase::Done, tab_open: false, ..m },
            ActionModel::Finish,
        ),
        Phase::Done => (m, ActionModel::Finish),
    }
}

/// The script that reads the rendered document's full scroll extents.
pub open spec fn metrics_call() -> Seq<char> {
    "({
            width: document.documentElement.scrollWidth,
            height: document.documentElement.scrollHeight
        })"@
}

/// Returns the layout-measurement script.
pub fn metrics_script() -> (r: &'static str)
    ensures
        r@ == metrics_call(),
{
    "({
            width: document.documentElement.scrollWidth,
            height: document.documentElement.scrollHeight
        })"
}

/// One render request driven to completion: holds the request, the two
/// immutable page payloads, and the machine's position.
pub struct Session {
    text: String,
    format: Format,
    sandbox: String,
    payload: String,
    phase: Phase,
    outcome: Option<Outcome>,
    tab_open: bool,
    had_tab: bool,
    closes: u32,
}

impl View for Session {
    type V = Model;

    closed spec fn view(&self) -> Model {
        Model {
            text: self.text@,
            format: self.format,
            sandbox: self.sandbox@,
            payload: self.payload@,
            phase: self.phase,
            outcome: match self.outcome {
                Some(o) => Some(o@),
                None => None,
            },
            tab_open: self.tab_open,
            had_tab: self.had_tab,
            closes: self.closes as nat,
        }
    }
}

impl Session {
    /// Starts a session for one request: the diagram text, the requested
    /// format, the sandbox page document and the rendering payload script.
    pub fn new(text: String, format: Format, sandbox: String, payload: String) -> (s: Session)
        ensures
            s@ == init_model(text@, format, sandbox@, payload@),
            wf(s@),
    {
        Session {
            text,
            format,
            sandbox,
            payload,
            phase: Phase::AcquireTab,
            outcome: None,
            tab_open: false,
            had_tab: false,
            closes: 0,
        }
    }

    /// The action that opens every session: create a context.
    pub fn first_action(&self) -> (a: Action)
        requires
            self@.phase == Phase::AcquireTab,
        ensures
            a@ == ActionModel::CreateTab,
    {
        Action::CreateTab
    }

    /// Where the machine stands.
    pub fn phase(&self) -> (p: Phase)
        ensures
            p == self@.phase,
    {
        self.phase
    }

    /// Whether the session has reached its terminal phase.
    pub fn is_done(&self) -> (b: bool)
        ensures
            b == (self@.phase == Phase::Done),
    {
        match self.phase {
            Phase::Done => true,
            _ => false,
        }
    }

    /// Consumes the previous action's result and says what to do next,
    /// exactly as [`step_spec`] states.
    pub fn step(&mut self, ev: Event) -> (a: Action)
        requires
            wf(old(self)@),
            old(self)@.phase != Phase::Done,
            ev_fits(old(self)@.phase, ev@),
        ensures
            wf(final(self)@),
            (final(self)@, a@) == step_spec(old(self)@, ev@),
    {
        let failed = match &ev {
            Event::Failed => true,
            _ => false,
        };
        match self.phase {
            Phase::AcquireTab => {
                if failed {
                    self.phase = Phase::RestartBrowser;
                    Action::ReplaceBrowser
                } else {
                    self.phase = Phase::SandboxLoading;
                    self.tab_open = true;
                    self.had_tab = true;
                    Action::Navigate(html_data_url(self.sandbox.as_str()))
                }
            },
            Phase::RestartBrowser => {
                if failed {
                    self.phase = Phase::Done;
                    self.outcome = Some(Outcome::Failed(FailureKind::BrowserRestart));
                    Action::Finish
                } else {
                    self.phase = Phase::RetryTab;
                    Action::CreateTab
                }
            },
            Phase::RetryTab => {
                if failed {
                    self.phase = Phase::Done;
                    self.outcome = Some(Outcome::Failed(FailureKind::TabAfterRestart));
                    Action::Finish
                } else {
                    self.phase = Phase::SandboxLoading;
                    self.tab_open = true;
                    self.had_tab = true;
                    Action::Navigate(html_data_url(self.sandbox.as_str()))
                }
            },
            Phase::SandboxLoading => {
                if failed {
                    self.fail_close(FailureKind::Navigation)
                } else {
                    self.phase = Phase::PayloadInjecting;
                    Action::InjectPayload(self.payload.clone())
                }
            },
            Phase::PayloadInjecting => {
                if failed {
                    self.fail_close(FailureKind::PayloadInjection)
                } else {
                    self.phase = Phase::RenderEvaluating;
                    Action::EvalRender(render_script(self.text.as_str()))
                }
            },
            Phase::RenderEvaluating => {
                match ev {
                    Event::Value(v) => {
                        let markup = decode_markup(v.as_str());
                        if markup.as_str().is_empty() {
                            self.fail_close(FailureKind::RenderEmpty)
                        } else {
                            match self.format {
                                Format::Svg => {
                                    self.phase = Phase::Closing;
                                    self.outcome = Some(Outcome::Svg(markup));
                                    self.closes = 1;
                                    Action::CloseTab
                                },
                                Format::Png => {
                                    self.phase = Phase::CaptureNavigating;
                                    Action::Navigate(svg_data_url(markup.as_str()))
                                },
                            }
                        }
                    },
                    _ => self.fail_close(FailureKind::Evaluation),
                }
            },
            Phase::CaptureNavigating => {
                if failed {
                    self.fail_close(FailureKind::CaptureNavigation)
                } else {
                    self.phase = Phase::CaptureAwaiting;
                    Action::AwaitNavigation
                }
            },
            Phase::CaptureAwaiting => {
                if failed {
                    self.fail_close(FailureKind::CaptureWait)
                } else {
                    self.phase = Phase::Measuring;
                    Action::MeasureLayout(String::from_str(metrics_script()))
                }
            },
            Phase::Measuring => {
                match ev {
                    Event::Metrics(w, h) => {
                        self.phase = Phase::Capturing;
                        Action::CaptureShot(w, h)
                    },
                    _ => self.fail_close(FailureKind::Measurement),
                }
            },
            Phase::Capturing => {
                match ev {
                    Event::Bytes(b) => {
                        self.phase = Phase::Closing;
                        self.outcome = Some(Outcome::Png(b));
                        self.closes = 1;
                        Action::CloseTab
                    },
                    _ => self.fail_close(FailureKind::Capture),
                }
            },
            Phase::Closing => {
                self.phase = Phase::Done;
                self.tab_open = false;
                Action::Finish
            },
            Phase::Done => {
                proof {
                    assert(false);
                }
                Action::Finish
            },
        }
    }

    /// A failing step with a live context: record the failure and close.
    fn fail_close(&mut self, k: FailureKind) -> (a: Action)
        requires
            wf(old(self)@),
            open_phase(old(self)@.phase),
            old(self)@.phase != Phase::Closing,
        ensures
            wf(final(self)@),
            (final(self)@, a@) == fail_close_spec(old(self)@, k),
    {
        self.phase = Phase::Closing;
        self.outcome = Some(Outcome::Failed(k));
        self.closes = 1;
        Action::CloseTab
    }

    /// Hands out the outcome of a finished session.
    pub fn finish(self) -> (o: Outcome)
        requires
            wf(self@),
            self@.phase == Phase::Done,
        ensures
            self@.outcome == Some(o@),
    {
        match self.outcome {
            Some(o) => o,
            None => {
                proof {
                    assert(false);
                }
                Outcome::Failed(FailureKind::BrowserRestart)
            },
        }
    }
}

/// The HTTP status a finished request maps to: failures are client errors,
/// both success formats are plain success.
pub open spec fn status_spec(o: OutcomeModel) -> u16 {
    if o is Failed {
        400
    } else {
        200
    }
}

/// Maps an outcome to its HTTP status.
pub fn status_of(o: &Outcome) -> (s: u16)
    ensures
        s == status_spec(o@),
{
    match o {
        Outcome::Failed(_) => 400,
        _ => 200,
    }
}

/// The content type an outcome's body carries.
pub open spec fn content_type_spec(o: OutcomeModel) -> Seq<char> {
    match o {
        OutcomeModel::Svg(_) => "image/svg+xml"@,
        OutcomeModel::Png(_) => "image/png"@,
        OutcomeModel::Failed(_) => "application/json"@,
    }
}

/// Maps an outcome to the content type of its response body.
pub fn content_type_of(o: &Outcome) -> (r: &'static str)
    ensures
        r@ == content_type_spec(o@),
{
    match o {
        Outcome::Svg(_) => "image/svg+xml",
        Outcome::Png(_) => "image/png",
        Outcome::Failed(_) => "application/json",
    }
}

/// The human-readable message for each failure.
pub open spec fn message_spec(k: FailureKind) -> Seq<char> {
    match k {
        FailureKind::BrowserRestart => "Failed to restart browser"@,
        FailureKind::TabAfterRestart => "Failed to create tab even after browser restart"@,
        FailureKind::Navigation => "failed to navigate to tab for diagram"@,
        FailureKind::PayloadInjection => "payload evaluation failed"@,
        FailureKind::Evaluation => "failed to evaluate diagram"@,
        FailureKind::RenderEmpty => "render failed"@,
        FailureKind::CaptureNavigation => "failed to navigate to tab for screenshot"@,
        FailureKind::CaptureWait => "failed to wait until navigated to tab for screenshot"@,
        FailureKind::Measurement => "failed to resize viewport for screenshot"@,
        FailureKind::Capture => "failed to capture screenshot"@,
    }
}

/// Returns the failure's message.
pub fn message_of(k: FailureKind) -> (r: String)
    ensures
        r@ == message_spec(k),
{
    match k {
        FailureKind::BrowserRestart => String::from_str("Failed to restart browser"),
        FailureKind::TabAfterRestart => String::from_str(
            "Failed to create tab even after browser restart",
        ),
        FailureKind::Navigation => String::from_str("failed to navigate to tab for diagram"),
        FailureKind::PayloadInjection => String::from_str("payload evaluation failed"),
        FailureKind::Evaluation => String::from_str("failed to evaluate diagram"),
        FailureKind::RenderEmpty => String::from_str("render failed"),
        FailureKind::CaptureNavigation => String::from_str(
            "failed to navigate to tab for screenshot",
        ),
        FailureKind::CaptureWait => String::from_str(
            "failed to wait until navigated to tab for screenshot",
        ),
        FailureKind::Measurement => String::from_str("failed to resize viewport for screenshot"),
        FailureKind::Capture => String::from_str("failed to capture screenshot"),
    }
}

/// The JSON body a failure response carries.
pub open spec fn error_body_spec(k: FailureKind) -> Seq<char> {
    "{\"message\":\""@ + message_spec(k) + "\"}"@
}

/// Builds the JSON body for a failure response.
pub fn error_body(k: FailureKind) -> (r: String)
    ensures
        r@ == error_body_spec(k),
{
    let r = String::from_str("{\"message\":\"").concat(message_of(k).as_str()).concat("\"}");
    proof {
        assert(r@ =~= error_body_spec(k));
    }
    r
}

/// The format a request names: the raster format when it asks for it by
/// name, the vector format otherwise and by default.
pub fn format_of(f: &Option<String>) -> (r: Format)
    ensures
        r == (match f {
            Some(s) => if s@ == "png"@ {
                Format::Png
            } else {
                Format::Svg
            },
            None => Format::Svg,
        }),
{
    match f {
        Some(s) => {
            let png = String::from_str("png");
            if *s == png {
                Format::Png
            } else {
                Format::Svg
            }
        },
        None => Format::Svg,
    }
}

} // verus!
