//! The decisions of the demo's main loop: what is done for each event of the
//! window system, and what the loop remembers from one event to the next.

use vstd::prelude::*;

verus! {

/// What the loop remembers between events.
#[derive(Debug, Clone, Copy, PartialEq, Eq, Structural)]
pub struct LoopState {
    /// A video is being recorded.
    pub recording: bool,
    /// The mouse button that turns the camera is held down.
    pub mouse_dragged: bool,
    /// The window has the focus.
    pub focused: bool,
}

/// A key that the loop itself reacts to.
#[derive(Debug, Clone, Copy, PartialEq, Eq, Structural)]
pub enum LoopKey {
    Escape,
    F11,
    F12,
    Other,
}

/// An event, as far as the loop's decisions read it.
#[derive(Debug, Clone, Copy, PartialEq, Eq, Structural)]
pub enum LoopEvent {
    /// Every pending event was handled.
    MainEventsCleared,
    /// The window won or lost the focus.
    Focused(bool),
    /// The window is asked to close.
    CloseRequested,
    /// A key went down.
    KeyPressed(LoopKey),
    /// The window has a new size.
    Resized { width: u32, height: u32 },
    /// Any other event of the window.
    WindowOther,
    /// The mouse button that turns the camera went down or up.
    DragButton { pressed: bool },
    /// The mouse wheel turned.
    MouseWheel,
    /// The mouse moved.
    MouseMotion,
    /// Any other event of an input device.
    DeviceOther,
    /// The window is to be drawn again.
    RedrawRequested,
    /// A recompiled shader arrived.
    ShaderChanged,
    /// The loop ends.
    LoopDestroyed,
    /// Anything else.
    Other,
}

/// One thing that the loop does.
#[derive(Debug, Clone, Copy, PartialEq, Eq, Structural)]
pub enum LoopAction {
    UpdateInput,
    UpdateContext,
    UpdateDemo,
    RequestRedraw,
    Exit,
    Resize { width: u32, height: u32 },
    AnnounceRecordingStopped,
    SendFinish,
    SendStart,
    CaptureScreenshot,
    ForwardToDemo,
    Zoom,
    Rotate,
    RecordFrameTime,
    Render,
    DeliverShader,
    SayGoodbye,
}

/// How drawing a frame ended.
#[derive(Debug, Clone, Copy, PartialEq, Eq, Structural)]
pub enum RenderOutcome {
    Done,
    SurfaceLost,
    OutOfMemory,
    Failed,
}

/// What follows the drawing of a frame.
#[derive(Debug, Clone, Copy, PartialEq, Eq, Structural)]
pub enum AfterRender {
    /// Nothing.
    Proceed,
    /// Set the surface up again in its size, and draw again.
    Reconfigure,
    /// Leave the loop.
    Exit,
    /// Print the error, and draw again.
    LogAndRedraw,
}

impl LoopEvent {
    /// Whether the event comes from the window.
    pub open spec fn of_window(self) -> bool {
        self is Focused || self is CloseRequested || self is KeyPressed || self is Resized
            || self is WindowOther
    }

    /// Whether the event comes from an input device.
    pub open spec fn of_device(self) -> bool {
        self is DragButton || self is MouseWheel || self is MouseMotion || self is DeviceOther
    }
}

impl LoopState {
    /// The state in which the loop starts.
    pub open spec fn initial() -> LoopState {
        LoopState { recording: false, mouse_dragged: false, focused: false }
    }

    /// The state after an event. A new size ends a recording; F12 starts or
    /// ends one where the encoder is installed; events of input devices count
    /// only while the window has the focus.
    pub open spec fn after(self, event: LoopEvent, ffmpeg_installed: bool) -> LoopState {
        match event {
            LoopEvent::Focused(focused) => LoopState { focused, ..self },
            LoopEvent::Resized { width, height } => LoopState { recording: false, ..self },
            LoopEvent::KeyPressed(LoopKey::F12) => if ffmpeg_installed {
                LoopState { recording: !self.recording, ..self }
            } else {
                self
            },
            LoopEvent::DragButton { pressed } => if self.focused {
                LoopState { mouse_dragged: pressed, ..self }
            } else {
                self
            },
            _ => self,
        }
    }

    /// What the loop does for the window's own part in an event.
    pub open spec fn window_actions(self, event: LoopEvent, ffmpeg_installed: bool) -> Seq<
        LoopAction,
    > {
        match event {
            LoopEvent::CloseRequested => seq![LoopAction::Exit],
            LoopEvent::KeyPressed(LoopKey::Escape) => seq![LoopAction::Exit],
            LoopEvent::KeyPressed(LoopKey::F11) => seq![LoopAction::CaptureScreenshot],
            LoopEvent::KeyPressed(LoopKey::F12) => if !ffmpeg_installed {
                Seq::empty()
            } else if self.recording {
                seq![LoopAction::SendFinish]
            } else {
                seq![LoopAction::SendStart]
            },
            LoopEvent::Resized { width, height } => (if width != 0 && height != 0 {
                seq![LoopAction::Resize { width, height }]
            } else {
                Seq::empty()
            }) + (if self.recording {
                seq![LoopAction::AnnounceRecordingStopped, LoopAction::SendFinish]
            } else {
                Seq::empty()
            }),
            _ => Seq::empty(),
        }
    }

    /// What the loop does for an event, in order. Every event of the window
    /// goes to the input state first and to the demo last.
    pub open spec fn actions(self, event: LoopEvent, ffmpeg_installed: bool) -> Seq<LoopAction> {
        if event.of_window() {
            seq![LoopAction::UpdateInput] + self.window_actions(event, ffmpeg_installed)
                + seq![LoopAction::ForwardToDemo]
        } else if event.of_device() {
            if !self.focused {
                Seq::empty()
            } else if event is MouseWheel {
                seq![LoopAction::Zoom]
            } else if event is MouseMotion && self.mouse_dragged {
                seq![LoopAction::Rotate]
            } else {
                Seq::empty()
            }
        } else {
            match event {
                LoopEvent::MainEventsCleared => seq![
                    LoopAction::UpdateContext,
                    LoopAction::UpdateDemo,
                    LoopAction::RequestRedraw,
                ],
                LoopEvent::RedrawRequested => seq![LoopAction::RecordFrameTime, LoopAction::Render],
                LoopEvent::ShaderChanged => seq![LoopAction::DeliverShader],
                LoopEvent::LoopDestroyed => seq![LoopAction::SayGoodbye],
                _ => Seq::empty(),
            }
        }
    }

    /// The state in which the loop starts.
    pub fn new() -> (state: Self)
        ensures
            state == Self::initial(),
    {
        LoopState { recording: false, mouse_dragged: false, focused: false }
    }

    /// Takes one event: says what to do for it, in order, and remembers what
    /// the next events need.
    pub fn step(&mut self, event: LoopEvent, ffmpeg_installed: bool) -> (actions: Vec<LoopAction>)
        ensures
            *final(self) == old(self).after(event, ffmpeg_installed),
            actions@ == old(self).actions(event, ffmpeg_installed),
    {
        let mut actions: Vec<LoopAction> = Vec::new();
        match event {
            LoopEvent::MainEventsCleared => {
                actions.push(LoopAction::UpdateContext);
                actions.push(LoopAction::UpdateDemo);
                actions.push(LoopAction::RequestRedraw);
            },
            LoopEvent::Focused(focused) => {
                actions.push(LoopAction::UpdateInput);
                self.focused = focused;
                actions.push(LoopAction::ForwardToDemo);
            },
            LoopEvent::CloseRequested | LoopEvent::KeyPressed(LoopKey::Escape) => {
                actions.push(LoopAction::UpdateInput);
                actions.push(LoopAction::Exit);
                actions.push(LoopAction::ForwardToDemo);
            },
            LoopEvent::Resized { width, height } => {
                actions.push(LoopAction::UpdateInput);
                if width != 0 && height != 0 {
                    actions.push(LoopAction::Resize { width, height });
                }
                if self.recording {
                    actions.push(LoopAction::AnnounceRecordingStopped);
                    self.recording = false;
                    actions.push(LoopAction::SendFinish);
                }
                actions.push(LoopAction::ForwardToDemo);
            },
            LoopEvent::KeyPressed(key) => {
                actions.push(LoopAction::UpdateInput);
                match key {
                    LoopKey::F11 => {
                        actions.push(LoopAction::CaptureScreenshot);
                    },
                    LoopKey::F12 => {
                        if ffmpeg_installed {
                            if !self.recording {
                                actions.push(LoopAction::SendStart);
                            } else {
                                actions.push(LoopAction::SendFinish);
                            }
                            self.recording = !self.recording;
                        }
                    },
                    _ => {},
                }
                actions.push(LoopAction::ForwardToDemo);
            },
            LoopEvent::WindowOther => {
                actions.push(LoopAction::UpdateInput);
                actions.push(LoopAction::ForwardToDemo);
            },
            LoopEvent::DragButton { pressed } => {
                if self.focused {
                    self.mouse_dragged = pressed;
                }
            },
            LoopEvent::MouseWheel => {
                if self.focused {
                    actions.push(LoopAction::Zoom);
                }
            },
            LoopEvent::MouseMotion => {
                if self.focused && self.mouse_dragged {
                    actions.push(LoopAction::Rotate);
                }
            },
            LoopEvent::RedrawRequested => {
                actions.push(LoopAction::RecordFrameTime);
                actions.push(LoopAction::Render);
            },
            LoopEvent::ShaderChanged => {
                actions.push(LoopAction::DeliverShader);
            },
            LoopEvent::LoopDestroyed => {
                actions.push(LoopAction::SayGoodbye);
            },
            LoopEvent::DeviceOther | LoopEvent::Other => {},
        }
        assert(actions@ =~= old(self).actions(event, ffmpeg_installed));
        actions
    }

    /// Whether the frame that was drawn goes to the video.
    pub fn captures_frame(&self) -> (capture: bool)
        ensures
            capture == self.recording,
    {
        self.recording
    }
}

/// What follows the drawing of a frame that ended as `outcome` says.
pub open spec fn after_render_of(outcome: RenderOutcome) -> AfterRender {
    match outcome {
        RenderOutcome::Done => AfterRender::Proceed,
        RenderOutcome::SurfaceLost => AfterRender::Reconfigure,
        RenderOutcome::OutOfMemory => AfterRender::Exit,
        RenderOutcome::Failed => AfterRender::LogAndRedraw,
    }
}

/// What follows the drawing of a frame.
pub fn after_render(outcome: RenderOutcome) -> (next: AfterRender)
    ensures
        next == after_render_of(outcome),
{
    match outcome {
        RenderOutcome::Done => AfterRender::Proceed,
        RenderOutcome::SurfaceLost => AfterRender::Reconfigure,
        RenderOutcome::OutOfMemory => AfterRender::Exit,
        RenderOutcome::Failed => AfterRender::LogAndRedraw,
    }
}

/// A tick on which no shader arrived asks for no delivery, whatever else
/// happens on it.
pub proof fn lemma_no_delivery_without_shader(
    state: LoopState,
    event: LoopEvent,
    ffmpeg_installed: bool,
)
    requires
        !(event is ShaderChanged),
    ensures
        !state.actions(event, ffmpeg_installed).contains(LoopAction::DeliverShader),
{
    let actions = state.actions(event, ffmpeg_installed);
    assert forall|i: int| 0 <= i < actions.len() implies actions[i] != LoopAction::DeliverShader by {}
}

} // verus!
