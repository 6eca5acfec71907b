//! The presentation state machine: the aggregate the external event loop
//! owns, and the decisions it makes on every event and redraw tick.

use vstd::prelude::*;

use crate::config::{generate_config, spec_config, SurfaceCaps, SurfaceConfig, WindowSize};
use crate::error::{GuiError, RenderError};
use crate::frame::{frame_plan, spec_frame_plan, AcquireOutcome, FramePlan};

verus! {

/// Events the external event loop hands to the dispatcher, reduced to the
/// kinds the state machine distinguishes.
#[derive(Clone, Copy, PartialEq, Eq, Structural, Debug)]
pub enum GuiEvent {
    /// The platform asked for the window to be redrawn.
    RedrawRequested,
    /// The event queue drained; the loop may schedule the next redraw.
    MainEventsCleared,
    /// The user asked to close the window.
    CloseRequested,
    /// The window was resized to the given physical size.
    Resized(WindowSize),
    /// The scale factor changed, giving the window a new physical size.
    ScaleFactorChanged(WindowSize),
    /// Any other event addressed to the window.
    OtherWindowEvent,
    /// Any other event.
    Other,
}

/// What the event loop must do after dispatching one event.
#[derive(Clone, Copy, PartialEq, Eq, Structural, Debug)]
pub enum EventDirective {
    /// Acquire the next frame and report the outcome through `redraw`.
    AcquireFrame,
    /// Ask the platform to schedule a redraw.
    RequestRedraw,
    /// Apply this configuration to the surface/device pair.
    ApplyConfig(SurfaceConfig),
    /// Leave the event loop and end the process.
    Exit,
    /// Nothing to do.
    Nothing,
}

/// What the event loop must do after a redraw tick.
#[derive(Clone, Copy, PartialEq, Eq, Structural, Debug)]
pub enum LoopDirective {
    /// Record the planned command sequence against the acquired frame,
    /// submit it to the queue, then present the frame.
    SubmitFrame(FramePlan),
    /// Reapply this configuration to the surface, then continue; the
    /// failed frame is skipped.
    Reconfigure(SurfaceConfig),
    /// Terminate the process; no further frames are attempted.
    Exit,
    /// Log the failure and continue; nothing changed.
    LogAndContinue,
    /// Continue; nothing to do.
    Continue,
}

/// The presentation state the external event loop owns: the current
/// surface configuration and the window-size snapshot it was derived from.
#[derive(Clone, Copy, PartialEq, Eq, Structural, Debug)]
pub struct GuiState {
    pub config: SurfaceConfig,
    pub size: WindowSize,
}

impl GuiState {
    /// Invariant: the stored configuration always carries the stored
    /// window size, and that size has positive area, so the configuration
    /// is fit to be applied to the surface.
    pub open spec fn wf(&self) -> bool {
        &&& self.size.positive()
        &&& self.config.width == self.size.width
        &&& self.config.height == self.size.height
    }

    /// The state after a resize request: a positive size replaces the
    /// stored size and the configuration's dimensions; a zero-area size
    /// changes nothing.
    pub open spec fn spec_resize(s: GuiState, size: WindowSize) -> GuiState {
        if size.positive() {
            GuiState {
                size: size,
                config: SurfaceConfig {
                    usage: s.config.usage,
                    format: s.config.format,
                    width: size.width,
                    height: size.height,
                    present_mode: s.config.present_mode,
                    alpha_mode: s.config.alpha_mode,
                },
            }
        } else {
            s
        }
    }

    /// Builds the presentation state from the window's current size and
    /// the capability set the platform reported for the surface/adapter
    /// pair. The caller applies `config` to the surface once, right after
    /// this call.
    pub fn new(size: WindowSize, caps: &SurfaceCaps) -> (state: Self)
        requires
            caps.wf(),
            size.positive(),
        ensures
            state.size == size,
            state.config == spec_config(*caps, size),
            state.wf(),
    {
        let config = generate_config(caps, size);
        GuiState { config, size }
    }

    /// Applies a resize request. With a positive size the stored size and
    /// configuration are updated and the configuration to reapply is
    /// returned; with a zero-area size nothing changes and nothing is to
    /// be applied.
    pub fn resize(&mut self, size: WindowSize) -> (reapply: Option<SurfaceConfig>)
        ensures
            *final(self) == Self::spec_resize(*old(self), size),
            size.positive() ==> reapply == Some(final(self).config),
            !size.positive() ==> reapply is None,
            old(self).wf() ==> final(self).wf(),
    {
        if 0 < size.width && 0 < size.height {
            self.config.height = size.height;
            self.config.width = size.width;
            self.size = size;
            Some(self.config)
        } else {
            None
        }
    }

    /// Pass-through hook reserved for future input handling; no event is
    /// consumed and nothing changes.
    pub fn input(&mut self, _event: &GuiEvent) -> (consumed: bool)
        ensures
            *final(self) == *old(self),
            consumed == false,
    {
        false
    }

    /// Per-tick update step; the surface host has no animated state, so
    /// nothing changes.
    pub fn update(&mut self)
        ensures
            *final(self) == *old(self),
    {
    }

    /// The per-frame render step, fed the acquire outcome by the
    /// collaborator that performed the acquisition. On success it returns
    /// the command sequence to record, submit and present; each failure is
    /// mapped to its `Render` variant. The state never changes.
    pub fn render(&mut self, acquire: AcquireOutcome) -> (frame: Result<FramePlan, GuiError>)
        ensures
            *final(self) == *old(self),
            acquire is Frame ==> frame == Ok::<FramePlan, GuiError>(spec_frame_plan()),
            acquire is Lost ==> frame == Err::<FramePlan, GuiError>(
                GuiError::Render(RenderError::Lost),
            ),
            acquire is OutOfMemory ==> frame == Err::<FramePlan, GuiError>(
                GuiError::Render(RenderError::OutOfMemory),
            ),
            acquire is Other ==> frame == Err::<FramePlan, GuiError>(
                GuiError::Render(RenderError::Other),
            ),
    {
        match acquire {
            AcquireOutcome::Frame => Ok(frame_plan()),
            AcquireOutcome::Lost => Err(GuiError::Render(RenderError::Lost)),
            AcquireOutcome::OutOfMemory => Err(GuiError::Render(RenderError::OutOfMemory)),
            AcquireOutcome::Other => Err(GuiError::Render(RenderError::Other)),
        }
    }

    /// One redraw tick: update, render against the reported acquire
    /// outcome, and decide the loop's follow-up. A lost surface asks for
    /// exactly one reconfiguration with the last valid size; out of memory
    /// asks for termination without any frame submitted; any other failure
    /// is logged and the loop continues. The state is left as it was.
    pub fn redraw(&mut self, acquire: AcquireOutcome) -> (directive: LoopDirective)
        requires
            old(self).wf(),
        ensures
            *final(self) == *old(self),
            final(self).wf(),
            acquire is Frame ==> directive == LoopDirective::SubmitFrame(spec_frame_plan()),
            acquire is Lost ==> directive == LoopDirective::Reconfigure(old(self).config),
            acquire is OutOfMemory ==> directive == LoopDirective::Exit,
            acquire is Other ==> directive == LoopDirective::LogAndContinue,
    {
        self.update();
        match self.render(acquire) {
            Ok(plan) => LoopDirective::SubmitFrame(plan),
            Err(GuiError::Render(RenderError::Lost)) => {
                let size = self.size;
                match self.resize(size) {
                    Some(config) => LoopDirective::Reconfigure(config),
                    None => LoopDirective::Continue,
                }
            },
            Err(GuiError::Render(RenderError::OutOfMemory)) => LoopDirective::Exit,
            Err(GuiError::Render(RenderError::Other)) => LoopDirective::LogAndContinue,
            Err(_) => LoopDirective::Continue,
        }
    }

    /// The event loop's single dispatch function: matches on the event
    /// kind and performs the corresponding operation, returning what the
    /// loop must do next. Window events pass through the `input` hook
    /// first; since nothing is consumed there, each reaches its handler.
    pub fn dispatch(&mut self, event: GuiEvent) -> (directive: EventDirective)
        requires
            old(self).wf(),
        ensures
            final(self).wf(),
            event is RedrawRequested ==> *final(self) == *old(self)
                && directive == EventDirective::AcquireFrame,
            event is MainEventsCleared ==> *final(self) == *old(self)
                && directive == EventDirective::RequestRedraw,
            event is CloseRequested ==> *final(self) == *old(self)
                && directive == EventDirective::Exit,
            event matches GuiEvent::Resized(size) ==> {
                &&& *final(self) == Self::spec_resize(*old(self), size)
                &&& size.positive() ==> directive == EventDirective::ApplyConfig(
                    final(self).config,
                )
                &&& !size.positive() ==> directive == EventDirective::Nothing
            },
            event matches GuiEvent::ScaleFactorChanged(size) ==> {
                &&& *final(self) == Self::spec_resize(*old(self), size)
                &&& size.positive() ==> directive == EventDirective::ApplyConfig(
                    final(self).config,
                )
                &&& !size.positive() ==> directive == EventDirective::Nothing
            },
            event is OtherWindowEvent ==> *final(self) == *old(self)
                && directive == EventDirective::Nothing,
            event is Other ==> *final(self) == *old(self)
                && directive == EventDirective::Nothing,
    {
        match event {
            GuiEvent::RedrawRequested => EventDirective::AcquireFrame,
            GuiEvent::MainEventsCleared => EventDirective::RequestRedraw,
            GuiEvent::CloseRequested => {
                if self.input(&event) {
                    EventDirective::Nothing
                } else {
                    EventDirective::Exit
                }
            },
            GuiEvent::Resized(size) => {
                if self.input(&event) {
                    EventDirective::Nothing
                } else {
                    match self.resize(size) {
                        Some(config) => EventDirective::ApplyConfig(config),
                        None => EventDirective::Nothing,
                    }
                }
            },
            GuiEvent::ScaleFactorChanged(size) => {
                if self.input(&event) {
                    EventDirective::Nothing
                } else {
                    match self.resize(size) {
                        Some(config) => EventDirective::ApplyConfig(config),
                        None => EventDirective::Nothing,
                    }
                }
            },
            GuiEvent::OtherWindowEvent => {
                let _consumed = self.input(&event);
                EventDirective::Nothing
            },
            GuiEvent::Other => EventDirective::Nothing,
        }
    }
}

/// Dimension round trip: after a resize to a positive size the stored
/// configuration carries exactly that size, and `render` leaves the state
/// unchanged (its postcondition), so the configuration the next frame is
/// rendered against carries the resized dimensions.
pub proof fn lemma_resize_dimension_round_trip(s: GuiState, size: WindowSize)
    requires
        size.positive(),
    ensures
        GuiState::spec_resize(s, size).config.width == size.width,
        GuiState::spec_resize(s, size).config.height == size.height,
        GuiState::spec_resize(s, size).size == size,
{
}

/// Zero-dimension boundary: a resize with either dimension zero leaves the
/// stored configuration and size unchanged.
pub proof fn lemma_resize_zero_noop(s: GuiState, size: WindowSize)
    requires
        !size.positive(),
    ensures
        GuiState::spec_resize(s, size) == s,
{
}

/// Idempotence: resizing twice to the same positive size leaves the same
/// state as resizing once.
pub proof fn lemma_resize_idempotent(s: GuiState, size: WindowSize)
    requires
        size.positive(),
    ensures
        GuiState::spec_resize(GuiState::spec_resize(s, size), size) == GuiState::spec_resize(
            s,
            size,
        ),
{
}

} // verus!
