//! The per-frame decisions of the render loop.
//!
//! The loop itself (waiting for window events, acquiring a surface image,
//! submitting and presenting) runs outside; it hands each event and each
//! frame's outcome to a [`FrameDriver`] and carries out the action returned.
use vstd::prelude::*;

verus! {

/// A window event, reduced to what the loop decides on.
#[derive(Clone, Copy, Debug, PartialEq, Eq, Structural)]
pub enum WindowInput {
    CloseRequested,
    EscapePressed,
    /// Any other key was pressed.
    KeyPressed,
    Resized { width: u32, height: u32 },
    RedrawRequested,
    Other,
}

/// How rendering one frame ended.
#[derive(Clone, Copy, Debug, PartialEq, Eq, Structural)]
pub enum FrameResult {
    Presented,
    /// No surface image arrived in time.
    Timeout,
    /// The surface was lost.
    Lost,
    /// The surface no longer matches the window.
    Outdated,
    OutOfMemory,
}

/// What the loop is to do next.
#[derive(Clone, Copy, Debug, PartialEq, Eq, Structural)]
pub enum FrameAction {
    Nothing,
    /// Leave the loop.
    Exit,
    /// Reconfigure the surface and projection for the new size.
    ResizeSurface { width: u32, height: u32 },
    /// Reconfigure the surface at its current size and try again.
    ReconfigureSurface,
    /// Hand the key to the active renderer.
    ForwardKey,
    /// Populate, upload, draw, submit and present one frame.
    RenderFrame,
    /// The frame is complete: advance the statistics frame and ask for the
    /// next redraw.
    FinishFrame,
    /// The frame is complete and was the last one: advance the statistics
    /// frame and leave the loop.
    FinishFrameAndExit,
}

pub struct DriverModel {
    pub presented: nat,
    pub frame_limit: nat,
    pub terminated: bool,
}

impl DriverModel {
    pub open spec fn wf(self) -> bool {
        &&& self.presented <= self.frame_limit + 1
        &&& self.presented > self.frame_limit ==> self.terminated
    }

    pub open spec fn on_input(self, input: WindowInput) -> (Self, FrameAction) {
        if self.terminated {
            (self, FrameAction::Nothing)
        } else {
            match input {
                WindowInput::CloseRequested | WindowInput::EscapePressed => (
                    DriverModel { terminated: true, ..self },
                    FrameAction::Exit,
                ),
                WindowInput::KeyPressed => (self, FrameAction::ForwardKey),
                WindowInput::Resized { width, height } => (
                    self,
                    if width > 0 && height > 0 {
                        FrameAction::ResizeSurface { width, height }
                    } else {
                        FrameAction::Nothing
                    },
                ),
                WindowInput::RedrawRequested => (self, FrameAction::RenderFrame),
                WindowInput::Other => (self, FrameAction::Nothing),
            }
        }
    }

    pub open spec fn on_frame_result(self, result: FrameResult) -> (Self, FrameAction) {
        if self.terminated {
            (self, FrameAction::Nothing)
        } else {
            match result {
                FrameResult::Presented => if self.presented + 1 > self.frame_limit {
                    (
                        DriverModel {
                            presented: self.presented + 1,
                            terminated: true,
                            ..self
                        },
                        FrameAction::FinishFrameAndExit,
                    )
                } else {
                    (
                        DriverModel { presented: self.presented + 1, ..self },
                        FrameAction::FinishFrame,
                    )
                },
                FrameResult::Timeout => (self, FrameAction::Nothing),
                FrameResult::Lost | FrameResult::Outdated => (
                    self,
                    FrameAction::ReconfigureSurface,
                ),
                FrameResult::OutOfMemory => (
                    DriverModel { terminated: true, ..self },
                    FrameAction::Exit,
                ),
            }
        }
    }
}

/// Counts presented frames and stops the loop once more than `frame_limit`
/// frames were presented, or on a close request or escape.
pub struct FrameDriver {
    presented: u64,
    frame_limit: u32,
    terminated: bool,
}

impl View for FrameDriver {
    type V = DriverModel;

    closed spec fn view(&self) -> DriverModel {
        DriverModel {
            presented: self.presented as nat,
            frame_limit: self.frame_limit as nat,
            terminated: self.terminated,
        }
    }
}

impl FrameDriver {
    pub fn new(frame_limit: u32) -> (r: Self)
        ensures
            r@ == (DriverModel { presented: 0, frame_limit: frame_limit as nat, terminated: false }),
            r@.wf(),
    {
        FrameDriver { presented: 0, frame_limit, terminated: false }
    }

    pub fn presented(&self) -> (r: u64)
        ensures
            r == self@.presented,
    {
        self.presented
    }

    pub fn is_terminated(&self) -> (r: bool)
        ensures
            r == self@.terminated,
    {
        self.terminated
    }

    pub fn on_input(&mut self, input: WindowInput) -> (r: FrameAction)
        requires
            old(self)@.wf(),
        ensures
            final(self)@.wf(),
            (final(self)@, r) == old(self)@.on_input(input),
    {
        if self.terminated {
            return FrameAction::Nothing;
        }
        match input {
            WindowInput::CloseRequested | WindowInput::EscapePressed => {
                self.terminated = true;
                FrameAction::Exit
            },
            WindowInput::KeyPressed => FrameAction::ForwardKey,
            WindowInput::Resized { width, height } => {
                if width > 0 && height > 0 {
                    FrameAction::ResizeSurface { width, height }
                } else {
                    FrameAction::Nothing
                }
            },
            WindowInput::RedrawRequested => FrameAction::RenderFrame,
            WindowInput::Other => FrameAction::Nothing,
        }
    }

    pub fn on_frame_result(&mut self, result: FrameResult) -> (r: FrameAction)
        requires
            old(self)@.wf(),
        ensures
            final(self)@.wf(),
            (final(self)@, r) == old(self)@.on_frame_result(result),
    {
        if self.terminated {
            return FrameAction::Nothing;
        }
        match result {
            FrameResult::Presented => {
                self.presented = self.presented + 1;
                if self.presented > self.frame_limit as u64 {
                    self.terminated = true;
                    FrameAction::FinishFrameAndExit
                } else {
                    FrameAction::FinishFrame
                }
            },
            FrameResult::Timeout => FrameAction::Nothing,
            FrameResult::Lost | FrameResult::Outdated => FrameAction::ReconfigureSurface,
            FrameResult::OutOfMemory => {
                self.terminated = true;
                FrameAction::Exit
            },
        }
    }
}

} // verus!
