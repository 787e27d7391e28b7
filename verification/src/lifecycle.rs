//! What holds of the event bridge over whole runs of signals.

use crate::application::{Action, App, AppEvent, Phase, Signal, WindowEvent};
use crate::presentation::SurfaceFailure;
use crate::surface::{has_zero_area, State};
use vstd::prelude::*;

verus! {

/// Whether the context of the application may still be asked for.
pub open spec fn awaits_bootstrap(app: App) -> bool {
    app.phase is NoWindow || app.phase is WindowCreated
}

/// Whether every context that the signals deliver may be applied.
pub open spec fn deliver_sound_contexts(signals: Seq<Signal>) -> bool {
    forall|i: int|
        0 <= i < signals.len() ==> (#[trigger] signals[i] matches Signal::User(
            AppEvent::Ready { renderer },
        ) ==> renderer.wf())
}

/// Resizing the window twice to the same dimensions leaves the application
/// as a single resize does, and applies the same configuration.
pub proof fn lemma_resize_is_idempotent(app: App, window: u64, width: u32, height: u32)
    ensures
        ({
            let resized = WindowEvent::Resized { width, height };
            let once = app.on_window_event(window, resized);
            let twice = once.0.on_window_event(window, resized);
            twice.0 == once.0 && twice.1 == once.1
        }),
        ({
            let once = app.on_reconfigure(width, height);
            let twice = once.0.on_reconfigure(width, height);
            twice.0 == once.0 && twice.1 == once.1
        }),
{
}

/// Dimensions with a zero in them change neither the configuration nor the
/// last known size, and nothing is applied.
pub proof fn lemma_zero_area_changes_nothing(app: App, window: u64, width: u32, height: u32)
    requires
        has_zero_area(width, height),
    ensures
        app.on_reconfigure(width, height) == (app, Seq::<Action>::empty()),
        app.on_window_event(window, WindowEvent::Resized { width, height }) == (
            app,
            Seq::<Action>::empty(),
        ),
{
}

/// A stale surface is configured again at the last known size: the format
/// and the pacing stay, the last known size stays, this frame is given up
/// and the next redraw is asked for.
pub proof fn lemma_recovery_uses_last_known_size(app: App, failure: SurfaceFailure)
    requires
        app.phase is Ready,
        failure is Lost || failure is Outdated,
    ensures
        ({
            let (width, height) = app.last_window_size;
            let (next, actions) = app.on_present_frame(Err(failure));
            let config = app.phase->renderer.config.resized(width, height);
            &&& next.last_window_size == app.last_window_size
            &&& next.window == app.window
            &&& has_zero_area(width, height) ==> next == app && actions == seq![
                Action::RequestRedraw,
            ]
            &&& !has_zero_area(width, height) ==> next.phase == (Phase::Ready {
                renderer: State { config, ..app.phase->renderer },
            }) && actions == seq![Action::Configure { config }, Action::RequestRedraw]
        }),
{
}

/// Running out of memory terminates a ready application with one request to
/// exit.
pub proof fn lemma_out_of_memory_terminates(app: App)
    requires
        app.phase is Ready,
    ensures
        app.on_present_frame(Err(SurfaceFailure::OutOfMemory)) == (
            App { phase: Phase::Terminated, ..app },
            seq![Action::Exit, Action::RequestRedraw],
        ),
{
}

/// A signal leads from a sound state to a sound state, given that a context
/// it delivers is sound.
pub proof fn lemma_step_keeps_wf(app: App, signal: Signal)
    requires
        app.wf(),
        signal matches Signal::User(AppEvent::Ready { renderer }) ==> renderer.wf(),
    ensures
        app.step(signal).0.wf(),
        forall|i: int|
            0 <= i < app.step(signal).1.len() ==> (#[trigger] app.step(signal).1[i] matches Action::Configure {
                config,
            } ==> config.wf()),
{
}

/// One signal asks for the context at most once, and only while it may
/// still be asked for; afterwards it may not.
pub proof fn lemma_step_bootstraps_once(app: App, signal: Signal)
    ensures
        ({
            let (next, actions) = app.step(signal);
            &&& !awaits_bootstrap(app) ==> !awaits_bootstrap(next)
            &&& forall|i: int|
                0 <= i < actions.len() && #[trigger] actions[i] is Bootstrap ==> i == 0
                    && app.phase is WindowCreated && next.phase is ContextPending
        }),
{
}

/// One signal tells the event loop to exit at most once; the application is
/// then terminated, and all that the signal still asks for is a redraw.
pub proof fn lemma_step_exits_once(app: App, signal: Signal)
    ensures
        ({
            let (next, actions) = app.step(signal);
            &&& app.phase is Terminated ==> next == app && actions.len() == 0
            &&& forall|i: int|
                0 <= i < actions.len() && #[trigger] actions[i] is Exit ==> i == 0
                    && next.phase is Terminated
            &&& forall|i: int|
                0 <= i < actions.len() && actions[0] is Exit && i > 0 ==> #[trigger] actions[i]
                    is RequestRedraw
        }),
{
}

/// A terminated application stays terminated and asks for nothing, whatever
/// reaches it.
pub proof fn lemma_terminated_is_final(app: App, signals: Seq<Signal>)
    requires
        app.phase is Terminated,
    ensures
        app.run(signals) == (app, Seq::<Action>::empty()),
    decreases signals.len(),
{
    if signals.len() > 0 {
        lemma_step_exits_once(app, signals[0]);
        lemma_terminated_is_final(app, signals.drop_first());
        assert(app.step(signals[0]).1 + Seq::<Action>::empty() =~= Seq::<Action>::empty());
    }
}

/// Every run keeps a sound state sound and applies only configurations with
/// an area, given that the contexts delivered are sound.
pub proof fn lemma_run_keeps_wf(app: App, signals: Seq<Signal>)
    requires
        app.wf(),
        deliver_sound_contexts(signals),
    ensures
        app.run(signals).0.wf(),
        forall|i: int|
            0 <= i < app.run(signals).1.len() ==> (#[trigger] app.run(signals).1[i] matches Action::Configure {
                config,
            } ==> config.wf()),
    decreases signals.len(),
{
    if signals.len() > 0 {
        let (next, first) = app.step(signals[0]);
        let rest = signals.drop_first();
        assert(signals[0] == signals[0]);
        lemma_step_keeps_wf(app, signals[0]);
        assert forall|i: int| 0 <= i < rest.len() implies (#[trigger] rest[i] matches Signal::User(
            AppEvent::Ready { renderer },
        ) ==> renderer.wf()) by {
            assert(rest[i] == signals[i + 1]);
        }
        lemma_run_keeps_wf(next, rest);
    }
}

/// Once the context was asked for, no run asks for it again.
pub proof fn lemma_no_second_bootstrap(app: App, signals: Seq<Signal>)
    requires
        !awaits_bootstrap(app),
    ensures
        !awaits_bootstrap(app.run(signals).0),
        forall|i: int| 0 <= i < app.run(signals).1.len() ==> !(#[trigger] app.run(signals).1[i] is Bootstrap),
    decreases signals.len(),
{
    if signals.len() > 0 {
        lemma_step_bootstraps_once(app, signals[0]);
        lemma_no_second_bootstrap(app.step(signals[0]).0, signals.drop_first());
    }
}

/// In every run, from every state, the context is asked for at most once:
/// however often the application is resumed and whatever windows are
/// created, two requests for the context are one and the same.
pub proof fn lemma_single_bootstrap(app: App, signals: Seq<Signal>, i: int, j: int)
    requires
        0 <= i < app.run(signals).1.len(),
        0 <= j < app.run(signals).1.len(),
        app.run(signals).1[i] is Bootstrap,
        app.run(signals).1[j] is Bootstrap,
    ensures
        i == j,
    decreases signals.len(),
{
    if signals.len() > 0 {
        let (next, first) = app.step(signals[0]);
        let (last, rest) = next.run(signals.drop_first());
        lemma_step_bootstraps_once(app, signals[0]);
        if i < first.len() || j < first.len() {
            lemma_no_second_bootstrap(next, signals.drop_first());
        } else {
            lemma_single_bootstrap(next, signals.drop_first(), i - first.len(), j - first.len());
        }
    }
}

/// In every run, once the event loop was told to exit, nothing follows but
/// the redraw request of the same signal: no frame is presented, nothing is
/// configured and no second exit is asked for.
pub proof fn lemma_exit_is_final(app: App, signals: Seq<Signal>, i: int, j: int)
    requires
        0 <= i < j < app.run(signals).1.len(),
        app.run(signals).1[i] is Exit,
    ensures
        app.run(signals).1[j] is RequestRedraw,
        app.run(signals).0.phase is Terminated,
    decreases signals.len(),
{
    if signals.len() > 0 {
        let (next, first) = app.step(signals[0]);
        let (last, rest) = next.run(signals.drop_first());
        lemma_step_exits_once(app, signals[0]);
        if i < first.len() {
            lemma_terminated_is_final(next, signals.drop_first());
        } else {
            lemma_exit_is_final(next, signals.drop_first(), i - first.len(), j - first.len());
        }
    }
}

/// The first window that is created leads to exactly one request for the
/// context, for that window and at the size reported when the bootstrap
/// begins.
pub proof fn lemma_first_window_bootstraps(
    app: App,
    window: u64,
    created: (u32, u32),
    width: u32,
    height: u32,
)
    requires
        app.phase is NoWindow,
    ensures
        ({
            let signals = seq![
                Signal::Resumed,
                Signal::WindowCreated { window, width: created.0, height: created.1 },
                Signal::BootstrapStarted { width, height },
            ];
            app.run(signals) == (
                App {
                    phase: Phase::ContextPending,
                    window: Some(window),
                    last_window_size: (width, height),
                },
                seq![
                    Action::CreateWindow { visible: false },
                    Action::BeginBootstrap,
                    Action::Bootstrap { window, width, height },
                ],
            )
        }),
{
    let signals = seq![
        Signal::Resumed,
        Signal::WindowCreated { window, width: created.0, height: created.1 },
        Signal::BootstrapStarted { width, height },
    ];
    let tail = signals.drop_first();
    let last = tail.drop_first();
    assert(last.drop_first().len() == 0);
    let created_app = app.step(signals[0]).0.step(tail[0]).0;
    let pending = created_app.step(last[0]).0;
    assert(pending.run(last.drop_first()) == (pending, Seq::<Action>::empty()));
    assert(created_app.run(last).1 =~= seq![Action::Bootstrap { window, width, height }]);
    assert(app.step(signals[0]).0.run(tail).1 =~= seq![
        Action::BeginBootstrap,
        Action::Bootstrap { window, width, height },
    ]);
    assert(app.run(signals).1 =~= seq![
        Action::CreateWindow { visible: false },
        Action::BeginBootstrap,
        Action::Bootstrap { window, width, height },
    ]);
}

/// A window that is created after the first one is tracked with its size
/// and changes nothing else: the phase stays and nothing is asked for.
pub proof fn lemma_later_window_is_only_tracked(app: App, window: u64, width: u32, height: u32)
    requires
        !(app.phase is NoWindow),
        !(app.phase is Terminated),
    ensures
        app.on_window_created(window, width, height) == (
            App { window: Some(window), last_window_size: (width, height), ..app },
            Seq::<Action>::empty(),
        ),
{
}

/// One signal shows the window only right after the first frame was
/// rendered.
pub proof fn lemma_step_shows_after_first_frame(app: App, signal: Signal)
    ensures
        forall|i: int|
            0 <= i < app.step(signal).1.len() && #[trigger] app.step(signal).1[i] is ShowWindow
                ==> i > 0 && app.step(signal).1[i - 1] is RenderFirstFrame,
{
}

/// In every run the window is shown only right after the first frame was
/// rendered, so the first visible frame is never blank.
pub proof fn lemma_shown_after_first_frame(app: App, signals: Seq<Signal>, i: int)
    requires
        0 <= i < app.run(signals).1.len(),
        app.run(signals).1[i] is ShowWindow,
    ensures
        i > 0,
        app.run(signals).1[i - 1] is RenderFirstFrame,
    decreases signals.len(),
{
    if signals.len() > 0 {
        let (next, first) = app.step(signals[0]);
        lemma_step_shows_after_first_frame(app, signals[0]);
        if i >= first.len() {
            lemma_shown_after_first_frame(next, signals.drop_first(), i - first.len());
        }
    }
}

} // verus!
