//! The event bridge: the state machine that the platform's event loop drives.
//!
//! Every handler takes what the platform reported, moves the application to
//! its next state and answers with the actions that the embedding program has
//! to perform, in order. The program reports what its actions produced (a
//! created window, a built context, the outcome of a presentation) through
//! further handlers.

use crate::presentation::{classify, recovery_of, Recovery, SurfaceFailure};
use crate::surface::{has_zero_area, State, SurfaceConfiguration};
use vstd::prelude::*;

verus! {

/// What the embedding program sends to the bridge on its own behalf.
#[derive(Clone, Copy, Debug, PartialEq, Eq)]
pub enum AppEvent {
    /// The context whose creation the bridge asked for is built.
    Ready { renderer: State },
}

/// What the platform reports about a window.
#[derive(Clone, Copy, Debug, PartialEq, Eq)]
pub enum WindowEvent {
    CloseRequested,
    Resized { width: u32, height: u32 },
    RedrawRequested,
    /// Any report that the bridge has no use for.
    Other,
}

/// Where the application stands between start and termination.
#[derive(Clone, Copy, Debug, PartialEq, Eq)]
pub enum Phase {
    /// No window was created yet.
    NoWindow,
    /// The first window exists, hidden; no context was asked for.
    WindowCreated,
    /// The creation of the context is in flight.
    ContextPending,
    /// The context is built and window events are dispatched.
    Ready { renderer: State },
    /// The application was told to exit. Nothing happens after that.
    Terminated,
}

/// What the embedding program is asked to do.
#[derive(Clone, Copy, Debug, PartialEq, Eq)]
pub enum Action {
    /// Create a window and report it through `window_created`.
    CreateWindow { visible: bool },
    /// Prepare the window for its surface, then report the window's current
    /// inner size through `begin_bootstrap`.
    BeginBootstrap,
    /// Build the context of this window at this size and send it back in
    /// `AppEvent::Ready`.
    Bootstrap { window: u64, width: u32, height: u32 },
    /// Apply this configuration to the surface.
    Configure { config: SurfaceConfiguration },
    /// Render and present one frame at once, whatever comes of it.
    RenderFirstFrame,
    /// Render and present one frame and report the outcome through
    /// `present_frame`.
    PresentFrame,
    /// Make the window visible.
    ShowWindow,
    /// Ask the platform for another redraw of the window.
    RequestRedraw,
    /// Tell the event loop to exit.
    Exit,
}

/// Anything that can reach the bridge, as one value per handler.
#[derive(Clone, Copy, Debug, PartialEq, Eq)]
pub enum Signal {
    Resumed,
    WindowCreated { window: u64, width: u32, height: u32 },
    BootstrapStarted { width: u32, height: u32 },
    User(AppEvent),
    Window { window: u64, event: WindowEvent },
    FramePresented { outcome: Result<(), SurfaceFailure> },
}

/// The bridge's state: the phase, the window whose events are dispatched and
/// the size that the surface was last given.
#[derive(Clone, Copy, Debug, PartialEq, Eq)]
pub struct App {
    pub phase: Phase,
    pub window: Option<u64>,
    pub last_window_size: (u32, u32),
}

impl App {
    /// The state before anything happened.
    pub open spec fn initial() -> App {
        App { phase: Phase::NoWindow, window: None, last_window_size: (0, 0) }
    }

    /// What holds of every state that the handlers lead to: a window is
    /// tracked from the first creation on, and the context of a ready
    /// application has a configuration that may be applied.
    pub open spec fn wf(self) -> bool {
        &&& self.phase is NoWindow ==> self.window is None
        &&& self.phase is WindowCreated || self.phase is ContextPending || self.phase is Ready
            ==> self.window is Some
        &&& self.phase matches Phase::Ready { renderer } ==> renderer.wf()
    }

    /// A resumed application asks for a hidden window, unless it has exited.
    pub open spec fn on_resumed(self) -> (App, Seq<Action>) {
        if self.phase is Terminated {
            (self, seq![])
        } else {
            (self, seq![Action::CreateWindow { visible: false }])
        }
    }

    /// A created window is tracked together with its size. The first one
    /// also starts the bootstrap.
    pub open spec fn on_window_created(self, window: u64, width: u32, height: u32) -> (
        App,
        Seq<Action>,
    ) {
        match self.phase {
            Phase::Terminated => (self, seq![]),
            Phase::NoWindow => (
                App {
                    phase: Phase::WindowCreated,
                    window: Some(window),
                    last_window_size: (width, height),
                },
                seq![Action::BeginBootstrap],
            ),
            _ => (
                App { window: Some(window), last_window_size: (width, height), ..self },
                seq![],
            ),
        }
    }

    /// The context is asked for once, for the tracked window at the size
    /// reported, while the first window waits for it.
    pub open spec fn on_begin_bootstrap(self, width: u32, height: u32) -> (App, Seq<Action>) {
        if self.phase is WindowCreated && self.window is Some {
            (
                App { phase: Phase::ContextPending, last_window_size: (width, height), ..self },
                seq![Action::Bootstrap { window: self.window->0, width, height }],
            )
        } else {
            (self, seq![])
        }
    }

    /// New dimensions reach the surface of a ready application unless one of
    /// them is zero; they become the last known size.
    pub open spec fn on_reconfigure(self, width: u32, height: u32) -> (App, Seq<Action>) {
        if self.phase is Ready && !has_zero_area(width, height) {
            let renderer = self.phase->renderer.reconfigured(width, height);
            (
                App { phase: Phase::Ready { renderer }, last_window_size: (width, height), ..self },
                seq![Action::Configure { config: renderer.config }],
            )
        } else {
            (self, seq![])
        }
    }

    /// The context that was waited for makes the application ready: the
    /// surface takes the last known size, one frame is rendered and only
    /// then the window is shown.
    pub open spec fn on_user_event(self, event: AppEvent) -> (App, Seq<Action>) {
        if self.phase is ContextPending {
            let ready = App { phase: Phase::Ready { renderer: event->renderer }, ..self };
            let (width, height) = self.last_window_size;
            let (configured, configure) = ready.on_reconfigure(width, height);
            (
                configured,
                seq![Action::RequestRedraw] + configure + seq![
                    Action::RenderFirstFrame,
                    Action::ShowWindow,
                ],
            )
        } else {
            (self, seq![])
        }
    }

    /// Events of the tracked window are dispatched: a close request
    /// terminates in any phase; resizes and redraws count once the
    /// application is ready and are dropped before.
    pub open spec fn on_window_event(self, window: u64, event: WindowEvent) -> (App, Seq<Action>) {
        if self.phase is Terminated || self.window != Some(window) {
            (self, seq![])
        } else {
            match event {
                WindowEvent::CloseRequested => (
                    App { phase: Phase::Terminated, ..self },
                    seq![Action::Exit],
                ),
                WindowEvent::Resized { width, height } => self.on_reconfigure(width, height),
                WindowEvent::RedrawRequested => if self.phase is Ready {
                    (self, seq![Action::PresentFrame])
                } else {
                    (self, seq![])
                },
                WindowEvent::Other => (self, seq![]),
            }
        }
    }

    /// The outcome of a presentation is recovered from and the next redraw
    /// is asked for. A stale surface is configured again at the last known
    /// size; running out of memory terminates the application.
    pub open spec fn on_present_frame(self, outcome: Result<(), SurfaceFailure>) -> (
        App,
        Seq<Action>,
    ) {
        if self.phase is Ready {
            match recovery_of(outcome) {
                Recovery::Proceed => (self, seq![Action::RequestRedraw]),
                Recovery::Skip => (self, seq![Action::RequestRedraw]),
                Recovery::Reconfigure => {
                    let (width, height) = self.last_window_size;
                    let (configured, configure) = self.on_reconfigure(width, height);
                    (configured, configure + seq![Action::RequestRedraw])
                },
                Recovery::Terminate => (
                    App { phase: Phase::Terminated, ..self },
                    seq![Action::Exit, Action::RequestRedraw],
                ),
            }
        } else {
            (self, seq![])
        }
    }

    /// The state and the actions that one signal leads to.
    pub open spec fn step(self, signal: Signal) -> (App, Seq<Action>) {
        match signal {
            Signal::Resumed => self.on_resumed(),
            Signal::WindowCreated { window, width, height } => self.on_window_created(
                window,
                width,
                height,
            ),
            Signal::BootstrapStarted { width, height } => self.on_begin_bootstrap(width, height),
            Signal::User(event) => self.on_user_event(event),
            Signal::Window { window, event } => self.on_window_event(window, event),
            Signal::FramePresented { outcome } => self.on_present_frame(outcome),
        }
    }

    /// The state and the actions, in order, that a run of signals leads to.
    pub open spec fn run(self, signals: Seq<Signal>) -> (App, Seq<Action>)
        decreases signals.len(),
    {
        if signals.len() == 0 {
            (self, seq![])
        } else {
            let (next, first) = self.step(signals[0]);
            let (last, rest) = next.run(signals.drop_first());
            (last, first + rest)
        }
    }

    /// The bridge of an application that has not been resumed yet.
    pub fn new() -> (app: App)
        ensures
            app == App::initial(),
            app.wf(),
    {
        App { phase: Phase::NoWindow, window: None, last_window_size: (0, 0) }
    }

    /// Handles the platform's signal that the application was resumed.
    pub fn resumed(&mut self) -> (actions: Vec<Action>)
        ensures
            *final(self) == old(self).on_resumed().0,
            actions@ == old(self).on_resumed().1,
    {
        let mut actions: Vec<Action> = Vec::new();
        match self.phase {
            Phase::Terminated => {},
            _ => {
                actions.push(Action::CreateWindow { visible: false });
            },
        }
        actions
    }

    /// Takes note of a window that the platform created, with its inner
    /// size.
    pub fn window_created(&mut self, window: u64, width: u32, height: u32) -> (actions: Vec<
        Action,
    >)
        ensures
            *final(self) == old(self).on_window_created(window, width, height).0,
            actions@ == old(self).on_window_created(window, width, height).1,
    {
        let mut actions: Vec<Action> = Vec::new();
        match self.phase {
            Phase::Terminated => {},
            Phase::NoWindow => {
                self.phase = Phase::WindowCreated;
                self.window = Some(window);
                self.last_window_size = (width, height);
                actions.push(Action::BeginBootstrap);
            },
            _ => {
                self.window = Some(window);
                self.last_window_size = (width, height);
            },
        }
        actions
    }

    /// Asks for the context of the first window, at the inner size that the
    /// window has now.
    pub fn begin_bootstrap(&mut self, width: u32, height: u32) -> (actions: Vec<Action>)
        ensures
            *final(self) == old(self).on_begin_bootstrap(width, height).0,
            actions@ == old(self).on_begin_bootstrap(width, height).1,
    {
        let mut actions: Vec<Action> = Vec::new();
        match (self.phase, self.window) {
            (Phase::WindowCreated, Some(window)) => {
                self.phase = Phase::ContextPending;
                self.last_window_size = (width, height);
                actions.push(Action::Bootstrap { window, width, height });
            },
            _ => {},
        }
        actions
    }

    /// Gives the surface new dimensions. With a zero dimension, or while no
    /// context is ready, nothing changes and nothing is applied.
    pub fn reconfigure(&mut self, width: u32, height: u32) -> (actions: Vec<Action>)
        ensures
            *final(self) == old(self).on_reconfigure(width, height).0,
            actions@ == old(self).on_reconfigure(width, height).1,
            has_zero_area(width, height) ==> *final(self) == *old(self) && actions@.len() == 0,
    {
        let mut actions: Vec<Action> = Vec::new();
        match self.phase {
            Phase::Ready { renderer } => {
                let mut renderer = renderer;
                match renderer.reconfigure(width, height) {
                    Some(config) => {
                        self.phase = Phase::Ready { renderer };
                        self.last_window_size = (width, height);
                        actions.push(Action::Configure { config });
                    },
                    None => {},
                }
            },
            _ => {},
        }
        actions
    }

    /// Handles an event that the embedding program sent.
    pub fn user_event(&mut self, event: AppEvent) -> (actions: Vec<Action>)
        ensures
            *final(self) == old(self).on_user_event(event).0,
            actions@ == old(self).on_user_event(event).1,
    {
        let mut actions: Vec<Action> = Vec::new();
        match (self.phase, event) {
            (Phase::ContextPending, AppEvent::Ready { renderer }) => {
                self.phase = Phase::Ready { renderer };
                actions.push(Action::RequestRedraw);
                let (width, height) = self.last_window_size;
                let mut configure = self.reconfigure(width, height);
                actions.append(&mut configure);
                actions.push(Action::RenderFirstFrame);
                actions.push(Action::ShowWindow);
            },
            _ => {},
        }
        actions
    }

    /// Handles an event that the platform reported for a window.
    pub fn window_event(&mut self, window: u64, event: WindowEvent) -> (actions: Vec<Action>)
        ensures
            *final(self) == old(self).on_window_event(window, event).0,
            actions@ == old(self).on_window_event(window, event).1,
    {
        let addressed = match self.window {
            Some(current) => current == window,
            None => false,
        };
        let terminated = match self.phase {
            Phase::Terminated => true,
            _ => false,
        };
        if terminated || !addressed {
            return Vec::new();
        }
        match event {
            WindowEvent::CloseRequested => {
                let mut actions: Vec<Action> = Vec::new();
                self.phase = Phase::Terminated;
                actions.push(Action::Exit);
                actions
            },
            WindowEvent::Resized { width, height } => self.reconfigure(width, height),
            WindowEvent::RedrawRequested => {
                let mut actions: Vec<Action> = Vec::new();
                match self.phase {
                    Phase::Ready { .. } => {
                        actions.push(Action::PresentFrame);
                    },
                    _ => {},
                }
                actions
            },
            WindowEvent::Other => Vec::new(),
        }
    }

    /// Takes the outcome of the presentation that `Action::PresentFrame`
    /// asked for.
    pub fn present_frame(&mut self, outcome: Result<(), SurfaceFailure>) -> (actions: Vec<Action>)
        ensures
            *final(self) == old(self).on_present_frame(outcome).0,
            actions@ == old(self).on_present_frame(outcome).1,
    {
        let mut actions: Vec<Action> = Vec::new();
        match self.phase {
            Phase::Ready { .. } => {
                match classify(&outcome) {
                    Recovery::Proceed | Recovery::Skip => {},
                    Recovery::Reconfigure => {
                        let (width, height) = self.last_window_size;
                        actions = self.reconfigure(width, height);
                    },
                    Recovery::Terminate => {
                        self.phase = Phase::Terminated;
                        actions.push(Action::Exit);
                    },
                }
                actions.push(Action::RequestRedraw);
            },
            _ => {},
        }
        actions
    }

    /// Handles any signal by the handler that belongs to it.
    pub fn handle(&mut self, signal: Signal) -> (actions: Vec<Action>)
        ensures
            *final(self) == old(self).step(signal).0,
            actions@ == old(self).step(signal).1,
    {
        match signal {
            Signal::Resumed => self.resumed(),
            Signal::WindowCreated { window, width, height } => self.window_created(
                window,
                width,
                height,
            ),
            Signal::BootstrapStarted { width, height } => self.begin_bootstrap(width, height),
            Signal::User(event) => self.user_event(event),
            Signal::Window { window, event } => self.window_event(window, event),
            Signal::FramePresented { outcome } => self.present_frame(outcome),
        }
    }
}

} // verus!
