//! The pipeline's guarantees, stated and proved over the transition
//! relation: guaranteed context release, the bounded self-healing of the
//! browser resource, and what whole runs of the machine end in.

use vstd::prelude::*;

use crate::encode::{decoded_markup, svg_page_url};
use crate::pipeline::{ActionModel, EventModel, FailureKind, Format, Model, OutcomeModel, Phase,
    content_type_spec, ev_fits, init_model, status_spec, step_spec, wf};

verus! {

/// A whole run of the machine: the model reached after the caller reports
/// the given events, one per emitted action, in order.
pub open spec fn run_spec(m: Model, evs: Seq<EventModel>) -> Model
    decreases evs.len(),
{
    if evs.len() == 0 {
        m
    } else {
        run_spec(step_spec(m, evs[0]).0, evs.subrange(1, evs.len() as int))
    }
}

/// Law: context release is guaranteed. A failure reported in any phase with
/// a live context moves the machine to close that context at once; a close
/// action is emitted only where none was emitted before; and a session that
/// reaches its terminal phase has emitted the close exactly once if it ever
/// opened a context, and never otherwise.
pub proof fn lemma_context_release(m: Model, ev: EventModel)
    requires
        wf(m),
        m.phase != Phase::Done,
        ev_fits(m.phase, ev),
    ensures
        ({
            let (m2, a) = step_spec(m, ev);
            &&& wf(m2)
            &&& (m.tab_open && m.phase != Phase::Closing && ev == EventModel::Failed ==> a
                == ActionModel::CloseTab && m2.phase == Phase::Closing)
            &&& (a == ActionModel::CloseTab ==> m.closes == 0 && m2.closes == 1)
            &&& (a != ActionModel::CloseTab ==> m2.closes == m.closes)
            &&& (m2.phase == Phase::Done && m2.had_tab ==> m2.closes == 1)
            &&& (m2.phase == Phase::Done && !m2.had_tab ==> m2.closes == 0)
        }),
{
}

/// Law: resource self-healing is attempted exactly once per request. The
/// first context-creation failure, and nothing else, triggers the one
/// resource-replacement attempt; a failure of the replacement, or of the
/// single retry after it, ends the request with the matching resource
/// failure and no further attempt.
pub proof fn lemma_self_heal(m: Model, ev: EventModel)
    requires
        wf(m),
        m.phase != Phase::Done,
        ev_fits(m.phase, ev),
    ensures
        ({
            let (m2, a) = step_spec(m, ev);
            &&& (m.phase == Phase::AcquireTab && ev == EventModel::Failed ==> m2.phase
                == Phase::RestartBrowser)
            &&& (a == ActionModel::ReplaceBrowser <==> (m.phase == Phase::AcquireTab && ev
                == EventModel::Failed))
            &&& (m.phase == Phase::RestartBrowser && ev == EventModel::Failed ==> m2.phase
                == Phase::Done && m2.outcome == Some(
                OutcomeModel::Failed(FailureKind::BrowserRestart),
            ))
            &&& (m.phase == Phase::RetryTab && ev == EventModel::Failed ==> m2.phase == Phase::Done
                && m2.outcome == Some(OutcomeModel::Failed(FailureKind::TabAfterRestart)))
        }),
{
}

/// Law: a vector-format request whose browser steps all succeed and whose
/// renderer reply decodes to non-empty markup ends with that markup as a
/// plain success — status 200 under the vector content type — and with the
/// context closed exactly once.
pub proof fn lemma_vector_success(
    text: Seq<char>,
    sandbox: Seq<char>,
    payload: Seq<char>,
    v: Seq<char>,
)
    requires
        decoded_markup(v).len() > 0,
    ensures
        ({
            let m0 = init_model(text, Format::Svg, sandbox, payload);
            let evs = seq![
                EventModel::Succeeded,
                EventModel::Succeeded,
                EventModel::Succeeded,
                EventModel::Value(v),
                EventModel::Succeeded,
            ];
            let mz = run_spec(m0, evs);
            &&& mz.phase == Phase::Done
            &&& mz.outcome == Some(OutcomeModel::Svg(decoded_markup(v)))
            &&& status_spec(mz.outcome->Some_0) == 200
            &&& content_type_spec(mz.outcome->Some_0) == "image/svg+xml"@
            &&& !mz.tab_open
            &&& mz.closes == 1
        }),
{
    let m0 = init_model(text, Format::Svg, sandbox, payload);
    let evs = seq![
        EventModel::Succeeded,
        EventModel::Succeeded,
        EventModel::Succeeded,
        EventModel::Value(v),
        EventModel::Succeeded,
    ];
    let m1 = step_spec(m0, evs[0]).0;
    let e1 = evs.subrange(1, 5);
    assert(run_spec(m0, evs) == run_spec(m1, e1));
    let m2 = step_spec(m1, e1[0]).0;
    let e2 = e1.subrange(1, 4);
    assert(run_spec(m1, e1) == run_spec(m2, e2));
    let m3 = step_spec(m2, e2[0]).0;
    let e3 = e2.subrange(1, 3);
    assert(run_spec(m2, e2) == run_spec(m3, e3));
    assert(e3[0] == EventModel::Value(v));
    let m4 = step_spec(m3, e3[0]).0;
    let e4 = e3.subrange(1, 2);
    assert(run_spec(m3, e3) == run_spec(m4, e4));
    let m5 = step_spec(m4, e4[0]).0;
    let e5 = e4.subrange(1, 1);
    assert(run_spec(m4, e4) == run_spec(m5, e5));
    assert(e5.len() == 0);
    assert(run_spec(m5, e5) == m5);
}

/// Law: a request whose renderer reply decodes to nothing — the renderer
/// rejected the text, replied with the `null` sentinel, or replied with an
/// undecodable value — ends as a client error (status 400) carrying the
/// render failure, with the context closed exactly once and none left open.
pub proof fn lemma_render_rejected(
    text: Seq<char>,
    format: Format,
    sandbox: Seq<char>,
    payload: Seq<char>,
    v: Seq<char>,
)
    requires
        decoded_markup(v).len() == 0,
    ensures
        ({
            let m0 = init_model(text, format, sandbox, payload);
            let evs = seq![
                EventModel::Succeeded,
                EventModel::Succeeded,
                EventModel::Succeeded,
                EventModel::Value(v),
                EventModel::Succeeded,
            ];
            let mz = run_spec(m0, evs);
            &&& mz.phase == Phase::Done
            &&& mz.outcome == Some(OutcomeModel::Failed(FailureKind::RenderEmpty))
            &&& status_spec(mz.outcome->Some_0) == 400
            &&& !mz.tab_open
            &&& mz.closes == 1
        }),
{
    let m0 = init_model(text, format, sandbox, payload);
    let evs = seq![
        EventModel::Succeeded,
        EventModel::Succeeded,
        EventModel::Succeeded,
        EventModel::Value(v),
        EventModel::Succeeded,
    ];
    let m1 = step_spec(m0, evs[0]).0;
    let e1 = evs.subrange(1, 5);
    assert(run_spec(m0, evs) == run_spec(m1, e1));
    let m2 = step_spec(m1, e1[0]).0;
    let e2 = e1.subrange(1, 4);
    assert(run_spec(m1, e1) == run_spec(m2, e2));
    let m3 = step_spec(m2, e2[0]).0;
    let e3 = e2.subrange(1, 3);
    assert(run_spec(m2, e2) == run_spec(m3, e3));
    assert(e3[0] == EventModel::Value(v));
    let m4 = step_spec(m3, e3[0]).0;
    let e4 = e3.subrange(1, 2);
    assert(run_spec(m3, e3) == run_spec(m4, e4));
    let m5 = step_spec(m4, e4[0]).0;
    let e5 = e4.subrange(1, 1);
    assert(run_spec(m4, e4) == run_spec(m5, e5));
    assert(e5.len() == 0);
}

/// Law: a raster-format request whose vector stage validated non-empty
/// markup re-navigates to exactly that markup's data URL, requests the
/// capture at exactly the measured extents, and ends with the captured
/// bytes as a plain success — status 200 under the bitmap content type —
/// with the context closed exactly once.
pub proof fn lemma_raster_success(
    text: Seq<char>,
    sandbox: Seq<char>,
    payload: Seq<char>,
    v: Seq<char>,
    w: u32,
    h: u32,
    bytes: Seq<u8>,
)
    requires
        decoded_markup(v).len() > 0,
    ensures
        ({
            let m0 = init_model(text, Format::Png, sandbox, payload);
            let evs = seq![
                EventModel::Succeeded,
                EventModel::Succeeded,
                EventModel::Succeeded,
                EventModel::Value(v),
                EventModel::Succeeded,
                EventModel::Succeeded,
                EventModel::Metrics(w, h),
                EventModel::Bytes(bytes),
                EventModel::Succeeded,
            ];
            let mz = run_spec(m0, evs);
            &&& mz.phase == Phase::Done
            &&& mz.outcome == Some(OutcomeModel::Png(bytes))
            &&& status_spec(mz.outcome->Some_0) == 200
            &&& content_type_spec(mz.outcome->Some_0) == "image/png"@
            &&& !mz.tab_open
            &&& mz.closes == 1
        }),
        ({
            let m0 = init_model(text, Format::Png, sandbox, payload);
            let after_payload = step_spec(step_spec(step_spec(m0,
                EventModel::Succeeded).0, EventModel::Succeeded).0, EventModel::Succeeded).0;
            // the validated markup is re-navigated to, percent-encoded, as a data URL
            &&& step_spec(after_payload, EventModel::Value(v)).1 == ActionModel::Navigate(
                svg_page_url(decoded_markup(v)),
            )
            // the capture viewport is exactly the measured extents
            &&& ({
                let measuring = step_spec(step_spec(step_spec(after_payload,
                    EventModel::Value(v)).0, EventModel::Succeeded).0, EventModel::Succeeded).0;
                step_spec(measuring, EventModel::Metrics(w, h)).1 == ActionModel::CaptureShot(w, h)
            })
        }),
{
    let m0 = init_model(text, Format::Png, sandbox, payload);
    let evs = seq![
        EventModel::Succeeded,
        EventModel::Succeeded,
        EventModel::Succeeded,
        EventModel::Value(v),
        EventModel::Succeeded,
        EventModel::Succeeded,
        EventModel::Metrics(w, h),
        EventModel::Bytes(bytes),
        EventModel::Succeeded,
    ];
    let m1 = step_spec(m0, evs[0]).0;
    let e1 = evs.subrange(1, 9);
    assert(run_spec(m0, evs) == run_spec(m1, e1));
    let m2 = step_spec(m1, e1[0]).0;
    let e2 = e1.subrange(1, 8);
    assert(run_spec(m1, e1) == run_spec(m2, e2));
    let m3 = step_spec(m2, e2[0]).0;
    let e3 = e2.subrange(1, 7);
    assert(run_spec(m2, e2) == run_spec(m3, e3));
    assert(e3[0] == EventModel::Value(v));
    let m4 = step_spec(m3, e3[0]).0;
    let e4 = e3.subrange(1, 6);
    assert(run_spec(m3, e3) == run_spec(m4, e4));
    let m5 = step_spec(m4, e4[0]).0;
    let e5 = e4.subrange(1, 5);
    assert(run_spec(m4, e4) == run_spec(m5, e5));
    let m6 = step_spec(m5, e5[0]).0;
    let e6 = e5.subrange(1, 4);
    assert(run_spec(m5, e5) == run_spec(m6, e6));
    assert(e6[0] == EventModel::Metrics(w, h));
    let m7 = step_spec(m6, e6[0]).0;
    let e7 = e6.subrange(1, 3);
    assert(run_spec(m6, e6) == run_spec(m7, e7));
    assert(e7[0] == EventModel::Bytes(bytes));
    let m8 = step_spec(m7, e7[0]).0;
    let e8 = e7.subrange(1, 2);
    assert(run_spec(m7, e7) == run_spec(m8, e8));
    let m9 = step_spec(m8, e8[0]).0;
    let e9 = e8.subrange(1, 1);
    assert(run_spec(m8, e8) == run_spec(m9, e9));
    assert(e9.len() == 0);
}

} // verus!
