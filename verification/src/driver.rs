//! The decisions of the event loop: what each event from the platform and each
//! look at the file watcher leads to.

use crate::app::WindowEvent;
use crate::error::{LoopError, RenderError};
use crate::registry::{lookup, new_context, new_registry, register, registered};
use crate::viewport::Size;
use dashmap::DashMap;
use std::collections::hash_map::RandomState;
use vstd::prelude::*;

verus! {

/// What the platform reports to the loop.
#[derive(Clone, Copy, Debug, PartialEq, Eq, Structural)]
pub enum Event {
    /// Something happened to a window.
    WindowEvent { window_id: u64, event: WindowEvent },
    /// All events that were pending have been handed out.
    MainEventsCleared,
    /// A window has to be drawn anew.
    RedrawRequested(u64),
    /// Anything else.
    Other,
}

/// Whether the loop goes on.
#[derive(Clone, Copy, Debug, PartialEq, Eq, Structural)]
pub enum ControlFlow {
    /// Go on at once, whether or not an event is pending.
    Poll,
    /// Leave the loop.
    Exit,
}

/// Work that the loop has to carry out.
#[derive(Clone, Copy, Debug, PartialEq, Eq, Structural)]
pub enum Command {
    /// Ask the window to redraw.
    RequestRedraw(u64),
    /// Render a frame for the window.
    Render(u64),
    /// Tell the renderer that the window has taken this size.
    Resize(u64, Size),
    /// Hand the event to the overlay's input handling for the window.
    GuiInput(u64),
    /// Let the application hear of the event on the window.
    AppEvent(u64, WindowEvent),
}

/// What an event leads to.
#[derive(Debug, PartialEq, Eq)]
pub struct Dispatch {
    pub control_flow: ControlFlow,
    /// What to do, in this order.
    pub commands: Vec<Command>,
}

/// What a look at the file watcher's channel finds.
#[derive(Clone, Copy, Debug, PartialEq, Eq, Structural)]
pub enum WatchPoll {
    /// A batch of notifications: something under the shader directory changed.
    Changed,
    /// Nothing is waiting.
    Empty,
    /// The watcher is gone.
    Disconnected,
}

/// What the loop does after a look at the file watcher's channel.
#[derive(Clone, Copy, Debug, PartialEq, Eq, Structural)]
pub enum WatchAction {
    Nothing,
    /// Read the shader source again and rebuild the pipeline from it.
    Reload,
}

/// Whether the loop goes on after `event`: it ends when a window is asked to close.
pub open spec fn control_flow_after(event: Event) -> ControlFlow {
    match event {
        Event::WindowEvent { window_id, event: WindowEvent::CloseRequested } => ControlFlow::Exit,
        _ => ControlFlow::Poll,
    }
}

/// The work that `event` leads to when the loop owns `windows`. When the pending
/// events are used up, every window is asked to redraw. A request to redraw and
/// a resize lead to a frame and to a resize of the viewport, if the loop owns the
/// window. Any other event on a window but a request to close goes to the
/// overlay's input handling, if the loop owns the window, and then to the
/// application. Nothing else leads to work.
pub open spec fn commands_for(windows: Seq<u64>, event: Event) -> Seq<Command> {
    match event {
        Event::MainEventsCleared => Seq::new(
            windows.len(),
            |i: int| Command::RequestRedraw(windows[i]),
        ),
        Event::RedrawRequested(window_id) => if windows.contains(window_id) {
            seq![Command::Render(window_id)]
        } else {
            Seq::empty()
        },
        Event::WindowEvent { window_id, event } => match event {
            WindowEvent::CloseRequested => Seq::empty(),
            WindowEvent::Resized(size) => if windows.contains(window_id) {
                seq![Command::Resize(window_id, size)]
            } else {
                Seq::empty()
            },
            WindowEvent::Other => if windows.contains(window_id) {
                seq![Command::GuiInput(window_id), Command::AppEvent(window_id, event)]
            } else {
                seq![Command::AppEvent(window_id, event)]
            },
        },
        Event::Other => Seq::empty(),
    }
}

/// The windows that the loop owns, and the overlay's context of each of them.
pub struct Driver {
    windows: Vec<u64>,
    contexts: DashMap<u64, egui::Context, RandomState>,
}

impl View for Driver {
    type V = Seq<u64>;

    closed spec fn view(&self) -> Seq<u64> {
        self.windows@
    }
}

impl Driver {
    #[verifier::type_invariant]
    spec fn inv(&self) -> bool {
        &&& self.windows@.no_duplicates()
        &&& registered(self.contexts) == self.windows@.to_set()
    }

    /// A loop without windows.
    pub fn new() -> (driver: Driver)
        ensures
            driver@ == Seq::<u64>::empty(),
    {
        let windows: Vec<u64> = Vec::new();
        let contexts = new_registry();
        assert(windows@.to_set() =~= Set::<u64>::empty());
        Driver { windows, contexts }
    }

    /// The overlay's context of the window, which every window of the loop has.
    pub fn context(&self, window_id: u64) -> (found: Option<egui::Context>)
        ensures
            found is Some <==> self@.contains(window_id),
    {
        proof {
            use_type_invariant(self);
        }
        lookup(&self.contexts, window_id)
    }

    /// Whether the loop owns the window.
    pub fn owns(&self, window_id: u64) -> (found: bool)
        ensures
            found == self@.contains(window_id),
    {
        let mut i: usize = 0;
        while i < self.windows.len()
            invariant
                i <= self.windows@.len(),
                forall|j: int| 0 <= j < i ==> self.windows@[j] != window_id,
            decreases self.windows@.len() - i,
        {
            if self.windows[i] == window_id {
                return true;
            }
            i += 1;
        }
        false
    }

    /// Takes a window into the loop and gives it an overlay context of its own. A
    /// window that is already there stays where it is and keeps its context.
    pub fn insert(&mut self, window_id: u64)
        ensures
            final(self)@ == if old(self)@.contains(window_id) {
                old(self)@
            } else {
                old(self)@.push(window_id)
            },
            final(self)@.no_duplicates(),
    {
        proof {
            use_type_invariant(&*self);
        }
        if !self.owns(window_id) {
            // Both fields change together, so they are taken out and put back.
            let mut taken = Driver::new();
            std::mem::swap(self, &mut taken);
            let Driver { mut windows, mut contexts } = taken;
            register(&mut contexts, window_id, new_context());
            windows.push(window_id);
            assert(windows@.to_set() =~= old(self)@.to_set().insert(window_id)) by {
                old(self)@.lemma_push_to_set_commute(window_id);
            }
            *self = Driver { windows, contexts };
        }
    }

    /// Decides what `event` leads to.
    pub fn dispatch(&self, event: &Event) -> (dispatch: Dispatch)
        ensures
            dispatch.control_flow == control_flow_after(*event),
            dispatch.commands@ == commands_for(self@, *event),
    {
        proof {
            use_type_invariant(self);
        }
        let mut control_flow = ControlFlow::Poll;
        let mut commands: Vec<Command> = Vec::new();
        match event {
            Event::WindowEvent { window_id, event: WindowEvent::CloseRequested } => {
                control_flow = ControlFlow::Exit;
            },
            Event::MainEventsCleared => {
                let mut i: usize = 0;
                while i < self.windows.len()
                    invariant
                        i <= self.windows@.len(),
                        commands@ == Seq::new(
                            i as nat,
                            |k: int| Command::RequestRedraw(self.windows@[k]),
                        ),
                    decreases self.windows@.len() - i,
                {
                    commands.push(Command::RequestRedraw(self.windows[i]));
                    i += 1;
                }
            },
            Event::RedrawRequested(window_id) => {
                if self.owns(*window_id) {
                    commands.push(Command::Render(*window_id));
                }
            },
            Event::WindowEvent { window_id, event: WindowEvent::Resized(size) } => {
                if self.owns(*window_id) {
                    commands.push(Command::Resize(*window_id, *size));
                }
            },
            Event::WindowEvent { window_id, event } => {
                if lookup(&self.contexts, *window_id).is_some() {
                    commands.push(Command::GuiInput(*window_id));
                }
                commands.push(Command::AppEvent(*window_id, *event));
            },
            Event::Other => {},
        }
        Dispatch { control_flow, commands }
    }
}

/// Decides what follows a look at the file watcher's channel: a batch of
/// notifications leads to a reload, an empty channel to nothing, and a watcher
/// that is gone ends the loop with an error.
pub fn on_watch(poll: WatchPoll) -> (action: Result<WatchAction, LoopError>)
    ensures
        poll == WatchPoll::Changed ==> action == Ok::<WatchAction, LoopError>(WatchAction::Reload),
        poll == WatchPoll::Empty ==> action == Ok::<WatchAction, LoopError>(WatchAction::Nothing),
        poll == WatchPoll::Disconnected ==> action == Err::<WatchAction, LoopError>(
            LoopError::WatcherDisconnected,
        ),
{
    match poll {
        WatchPoll::Changed => Ok(WatchAction::Reload),
        WatchPoll::Empty => Ok(WatchAction::Nothing),
        WatchPoll::Disconnected => Err(LoopError::WatcherDisconnected),
    }
}

/// Decides what follows a reload: the loop goes on after one that succeeded, and
/// one that failed ends the loop with its error.
pub fn after_reload(reloaded: Result<(), RenderError>) -> (outcome: Result<(), LoopError>)
    ensures
        reloaded is Ok ==> outcome is Ok,
        reloaded matches Err(error) ==> outcome == Err::<(), LoopError>(
            LoopError::ReloadFailed(error),
        ),
{
    match reloaded {
        Ok(()) => Ok(()),
        Err(error) => Err(LoopError::ReloadFailed(error)),
    }
}

} // verus!
