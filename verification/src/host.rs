use vstd::prelude::*;
use crate::geometry::Extent;
use crate::message::Message;
use crate::status::{
    classify_device, classify_present, device_answer, presented, succeeded, DeviceAnswer, Outcome,
    Presented,
};
use crate::surface::{Surface, Tiers};

verus! {

/// Whether the window's output can be seen.
#[derive(Clone, Copy, Debug, PartialEq, Eq, Structural)]
pub enum Visibility {
    /// The window has not been activated yet.
    Hidden,
    /// The host renders on every turn of the loop.
    Visible,
    /// A presentation found the output fully covered. The host does not
    /// render and waits to be told that the occlusion has cleared.
    Occluded,
}

/// The kind of graphics adapter to create a device on.
#[derive(Clone, Copy, Debug, PartialEq, Eq, Structural)]
pub enum Adapter {
    Hardware,
    /// The software rasterizer, tried when hardware is not supported.
    Software,
}

/// What follows a teardown.
#[derive(Clone, Copy, Debug, PartialEq, Eq, Structural)]
pub enum After {
    /// The pass ends; the failure that led here was recovered from.
    Done,
    /// The pass ends in a failure that the host cannot recover from.
    Fatal,
    /// A frame is rendered, which rebuilds the surface from scratch.
    Render,
}

/// Where the host stands in a pass: which command it has issued and is
/// waiting to hear the outcome of.
#[derive(Clone, Copy, Debug, PartialEq, Eq, Structural)]
pub enum Phase {
    /// No pass is under way.
    Idle,
    /// Building the surface: a device on the given adapter.
    Device(Adapter),
    Swapchain,
    Context,
    Backbuffer,
    Composition,
    ContentDevice,
    ContentSized,
    /// Rendering a frame.
    Draw,
    Present,
    Watch,
    /// Tearing down, in this order, and then going on as `After` says.
    ReleaseSized(After),
    ReleaseDevice(After),
    ReleaseContext(After),
    ReleaseSwapchain(After),
    ReleaseComposition(After),
    /// Resizing the swapchain's buffers in place.
    Detach,
    Resize,
    Reattach,
    Discard,
    Recreate,
    /// Finding out whether an occlusion has cleared.
    Probe,
    Unwatch,
}

/// What the driver is to do next. But for the last five, the driver reports
/// the outcome of each command before it asks for another.
#[derive(Clone, Copy, Debug, PartialEq, Eq)]
pub enum Command {
    /// Create a graphics device on an adapter of this kind.
    CreateDevice(Adapter),
    /// Create a swapchain for composition, of the size of the client area.
    CreateSwapchain(Extent),
    /// Create a drawing context on the device.
    CreateContext,
    /// Bind the drawing context to the swapchain's back buffer.
    AttachBackbuffer,
    /// Create the composition visual and target, show the swapchain through
    /// them on the window, and commit.
    Compose,
    /// Have the content create its device resources.
    CreateContentResources,
    /// Have the content create its sized resources.
    CreateSizedResources,
    /// Have the content draw a frame into the bound target.
    Draw,
    /// Present the frame.
    Present,
    /// Ask to be sent the occlusion message once the occlusion clears.
    WatchOcclusion,
    /// Have the content release its sized resources.
    ReleaseSizedResources,
    /// Have the content release its device resources.
    ReleaseContentResources,
    /// Drop the drawing context, and the device with it.
    ReleaseContext,
    /// Drop the swapchain.
    ReleaseSwapchain,
    /// Drop the composition visual and target.
    ReleaseComposition,
    /// Unbind the drawing context from the back buffer.
    DetachBackbuffer,
    /// Resize the swapchain's buffers to this size.
    ResizeBuffers(Extent),
    /// Present without showing anything, to learn whether a frame would be
    /// seen.
    TestPresent,
    /// Withdraw the occlusion watch that was registered under this cookie.
    UnwatchOcclusion(u32),
    /// Post the signal that ends the message loop. The pass is over.
    PostQuit,
    /// Leave the message to default processing. The pass is over.
    DefaultProcessing,
    /// The pass is over.
    Done,
    /// The pass is over, and failed beyond recovery: end the loop and
    /// report the failure.
    Fatal,
    /// A pass is under way; the input was not looked at.
    Busy,
}

/// What the driver hands to the host.
#[derive(Clone, Copy, Debug, PartialEq, Eq)]
pub enum Input {
    /// The loop asks for a frame.
    Frame,
    /// The window procedure received a message.
    Message(Message),
    /// The outcome of the command that the host issued last.
    Outcome(Outcome),
    /// The host is being shut down: release everything.
    Shutdown,
}

/// What the message loop does on its next turn.
#[derive(Clone, Copy, Debug, PartialEq, Eq, Structural)]
pub enum Turn {
    /// Render a frame, then handle the messages that are queued by then,
    /// without waiting for more.
    Render,
    /// Block until the next message arrives.
    Wait,
}

/// The host's record of what exists and of where it stands.
///
/// The host decides; a driver acts. The driver hands each event to
/// [`OverlayHost::step`], carries out the command that comes back, and
/// reports its outcome with the next call, until a command says that the
/// pass is over.
#[derive(Clone, Copy, Debug, PartialEq, Eq)]
pub struct OverlayHost {
    pub visibility: Visibility,
    /// The cookie of the registered occlusion watch.
    pub watch: Option<u32>,
    /// The size of the window's client area.
    pub client: Extent,
    pub surface: Surface,
    pub content: Tiers,
    pub phase: Phase,
}

impl Command {
    /// Whether the command is part of a render attempt.
    pub open spec fn is_render(self) -> bool {
        self is Draw || self is Present
    }

    /// Whether the command ends a pass, so that no outcome is reported.
    pub open spec fn ends_pass(self) -> bool {
        self is PostQuit || self is DefaultProcessing || self is Done || self is Fatal
            || self is Busy
    }

    /// Whether the command is part of a render attempt.
    pub fn renders(&self) -> (yes: bool)
        ensures
            yes == self.is_render(),
    {
        match self {
            Command::Draw => true,
            Command::Present => true,
            _ => false,
        }
    }

    /// Whether the command ends a pass.
    pub fn is_final(&self) -> (yes: bool)
        ensures
            yes == self.ends_pass(),
    {
        match self {
            Command::PostQuit => true,
            Command::DefaultProcessing => true,
            Command::Done => true,
            Command::Fatal => true,
            Command::Busy => true,
            _ => false,
        }
    }
}

impl OverlayHost {
    // ------------------------------------------------------------------
    // The transition function
    // ------------------------------------------------------------------

    /// The host in another phase.
    pub open spec fn at(self, phase: Phase) -> OverlayHost {
        OverlayHost { phase, ..self }
    }

    /// The initial state: hidden, nothing built, no watch.
    pub open spec fn initial(client: Extent) -> OverlayHost {
        OverlayHost {
            visibility: Visibility::Hidden,
            watch: None,
            client,
            surface: Surface {
                context: false,
                swapchain: false,
                visual: false,
                target: false,
                backbuffer: None,
            },
            content: Tiers { device: false, sized: None },
            phase: Phase::Idle,
        }
    }

    /// Starts a frame. While occluded nothing is rendered. Without a
    /// drawing context the surface is built first.
    pub open spec fn begin_frame(self) -> (OverlayHost, Command) {
        if self.visibility is Occluded {
            (self.at(Phase::Idle), Command::Done)
        } else if self.surface.context {
            (self.at(Phase::Draw), Command::Draw)
        } else {
            (self.at(Phase::Device(Adapter::Hardware)), Command::CreateDevice(Adapter::Hardware))
        }
    }

    /// Starts a teardown: the content's sized resources go first.
    pub open spec fn begin_teardown(self, after: After) -> (OverlayHost, Command) {
        (self.at(Phase::ReleaseSized(after)), Command::ReleaseSizedResources)
    }

    /// Goes on after a teardown.
    pub open spec fn finish(self, after: After) -> (OverlayHost, Command) {
        match after {
            After::Done => (self.at(Phase::Idle), Command::Done),
            After::Fatal => (self.at(Phase::Idle), Command::Fatal),
            After::Render => self.at(Phase::Idle).begin_frame(),
        }
    }

    /// What a message leads to, when no pass is under way.
    ///
    /// Painting and a display change ask for a frame. A new size is
    /// recorded and the buffers are resized in place where a surface
    /// stands; a frame follows. The clearance message tests the
    /// presentation where a watch is registered. Activation makes the host
    /// visible and touches nothing else.
    pub open spec fn on_message(self, message: Message) -> (OverlayHost, Command) {
        match message {
            Message::Paint => self.begin_frame(),
            Message::DisplayChange => self.begin_frame(),
            Message::Size { minimized, extent } => {
                if minimized {
                    (self, Command::Done)
                } else {
                    let sized = OverlayHost { client: extent, ..self };
                    if sized.surface.context {
                        (sized.at(Phase::Detach), Command::DetachBackbuffer)
                    } else {
                        sized.begin_frame()
                    }
                }
            },
            Message::OcclusionCleared => match self.watch {
                Some(cookie) => if self.surface.context {
                    (self.at(Phase::Probe), Command::TestPresent)
                } else {
                    (self.at(Phase::Unwatch), Command::UnwatchOcclusion(cookie))
                },
                None => (self, Command::Done),
            },
            Message::Activate => (
                OverlayHost { visibility: Visibility::Visible, ..self },
                Command::Done,
            ),
            Message::Destroy => (self, Command::PostQuit),
            Message::Other => (self, Command::DefaultProcessing),
        }
    }

    /// The next step of building the surface.
    ///
    /// A device that the hardware adapter does not support is tried once
    /// more in software. Until the composition stands, a failure is fatal,
    /// after what was built has been released. A failure of the content to
    /// create its resources counts as a lost device: all is released, and
    /// the next frame starts afresh.
    pub open spec fn resume_build(self, outcome: Outcome) -> (OverlayHost, Command) {
        let ok = succeeded(outcome.code());
        match self.phase {
            Phase::Device(adapter) => match device_answer(outcome.code()) {
                DeviceAnswer::Created => (
                    self.at(Phase::Swapchain),
                    Command::CreateSwapchain(self.client),
                ),
                DeviceAnswer::Unsupported => if adapter is Hardware {
                    (
                        self.at(Phase::Device(Adapter::Software)),
                        Command::CreateDevice(Adapter::Software),
                    )
                } else {
                    (self.at(Phase::Idle), Command::Fatal)
                },
                DeviceAnswer::Failed => (self.at(Phase::Idle), Command::Fatal),
            },
            Phase::Swapchain => if ok {
                (
                    OverlayHost {
                        surface: Surface { swapchain: true, ..self.surface },
                        phase: Phase::Context,
                        ..self
                    },
                    Command::CreateContext,
                )
            } else {
                self.begin_teardown(After::Fatal)
            },
            Phase::Context => if ok {
                (
                    OverlayHost {
                        surface: Surface { context: true, ..self.surface },
                        phase: Phase::Backbuffer,
                        ..self
                    },
                    Command::AttachBackbuffer,
                )
            } else {
                self.begin_teardown(After::Fatal)
            },
            Phase::Backbuffer => if ok {
                (
                    OverlayHost {
                        surface: Surface { backbuffer: Some(self.client), ..self.surface },
                        phase: Phase::Composition,
                        ..self
                    },
                    Command::Compose,
                )
            } else {
                self.begin_teardown(After::Fatal)
            },
            Phase::Composition => if ok {
                (
                    OverlayHost {
                        surface: Surface { visual: true, target: true, ..self.surface },
                        phase: Phase::ContentDevice,
                        ..self
                    },
                    Command::CreateContentResources,
                )
            } else {
                self.begin_teardown(After::Fatal)
            },
            Phase::ContentDevice => if ok {
                (
                    OverlayHost {
                        content: Tiers { device: true, ..self.content },
                        phase: Phase::ContentSized,
                        ..self
                    },
                    Command::CreateSizedResources,
                )
            } else {
                self.begin_teardown(After::Done)
            },
            Phase::ContentSized => if ok {
                OverlayHost {
                    content: Tiers { sized: Some(self.client), ..self.content },
                    phase: Phase::Idle,
                    ..self
                }.begin_frame()
            } else {
                self.begin_teardown(After::Done)
            },
            _ => (self, Command::Done),
        }
    }

    /// The next step of rendering a frame.
    ///
    /// A frame that was drawn is presented. An occluded presentation
    /// registers a watch and, once that is registered, makes the host
    /// occluded. Any other failure to present is a lost device: all is
    /// released. A failure to draw, or to register the watch, is fatal.
    pub open spec fn resume_frame(self, outcome: Outcome) -> (OverlayHost, Command) {
        match self.phase {
            Phase::Draw => if succeeded(outcome.code()) {
                (self.at(Phase::Present), Command::Present)
            } else {
                (self.at(Phase::Idle), Command::Fatal)
            },
            Phase::Present => match presented(outcome.code()) {
                Presented::Shown => (self.at(Phase::Idle), Command::Done),
                Presented::Occluded => (self.at(Phase::Watch), Command::WatchOcclusion),
                Presented::Lost => self.begin_teardown(After::Done),
            },
            Phase::Watch => match outcome {
                Outcome::Watching(cookie) => (
                    OverlayHost {
                        visibility: Visibility::Occluded,
                        watch: Some(cookie),
                        phase: Phase::Idle,
                        ..self
                    },
                    Command::Done,
                ),
                Outcome::Status(_) => (self.at(Phase::Idle), Command::Fatal),
            },
            _ => (self, Command::Done),
        }
    }

    /// The next step of a teardown. Whatever a release reports, the
    /// teardown goes on: sized resources, device resources, drawing
    /// context, swapchain, composition.
    pub open spec fn resume_teardown(self) -> (OverlayHost, Command) {
        match self.phase {
            Phase::ReleaseSized(after) => (
                OverlayHost {
                    content: Tiers { sized: None, ..self.content },
                    phase: Phase::ReleaseDevice(after),
                    ..self
                },
                Command::ReleaseContentResources,
            ),
            Phase::ReleaseDevice(after) => (
                OverlayHost {
                    content: Tiers { device: false, ..self.content },
                    phase: Phase::ReleaseContext(after),
                    ..self
                },
                Command::ReleaseContext,
            ),
            Phase::ReleaseContext(after) => (
                OverlayHost {
                    surface: Surface { context: false, backbuffer: None, ..self.surface },
                    phase: Phase::ReleaseSwapchain(after),
                    ..self
                },
                Command::ReleaseSwapchain,
            ),
            Phase::ReleaseSwapchain(after) => (
                OverlayHost {
                    surface: Surface { swapchain: false, ..self.surface },
                    phase: Phase::ReleaseComposition(after),
                    ..self
                },
                Command::ReleaseComposition,
            ),
            Phase::ReleaseComposition(after) => OverlayHost {
                surface: Surface { visual: false, target: false, ..self.surface },
                ..self
            }.finish(after),
            _ => (self, Command::Done),
        }
    }

    /// The next step of a resize in place: unbind, resize the buffers,
    /// bind again, and have the content make its sized resources anew. Any
    /// failure on the way is a lost device. Either way a frame follows.
    pub open spec fn resume_resize(self, outcome: Outcome) -> (OverlayHost, Command) {
        let ok = succeeded(outcome.code());
        match self.phase {
            Phase::Detach => (
                OverlayHost {
                    surface: Surface { backbuffer: None, ..self.surface },
                    phase: Phase::Resize,
                    ..self
                },
                Command::ResizeBuffers(self.client),
            ),
            Phase::Resize => if ok {
                (self.at(Phase::Reattach), Command::AttachBackbuffer)
            } else {
                self.begin_teardown(After::Render)
            },
            Phase::Reattach => if ok {
                (
                    OverlayHost {
                        surface: Surface { backbuffer: Some(self.client), ..self.surface },
                        phase: Phase::Discard,
                        ..self
                    },
                    Command::ReleaseSizedResources,
                )
            } else {
                self.begin_teardown(After::Render)
            },
            Phase::Discard => (
                OverlayHost {
                    content: Tiers { sized: None, ..self.content },
                    phase: Phase::Recreate,
                    ..self
                },
                Command::CreateSizedResources,
            ),
            Phase::Recreate => if ok {
                OverlayHost {
                    content: Tiers { sized: Some(self.client), ..self.content },
                    phase: Phase::Idle,
                    ..self
                }.begin_frame()
            } else {
                self.begin_teardown(After::Render)
            },
            _ => (self, Command::Done),
        }
    }

    /// The next step of clearing an occlusion. A presentation test that
    /// succeeds, and shows that a frame would be seen, withdraws the watch;
    /// with the watch withdrawn the host is visible.
    pub open spec fn resume_occlusion(self, outcome: Outcome) -> (OverlayHost, Command) {
        match self.phase {
            Phase::Probe => match self.watch {
                Some(cookie) => if presented(outcome.code()) is Shown {
                    (self.at(Phase::Unwatch), Command::UnwatchOcclusion(cookie))
                } else {
                    (self.at(Phase::Idle), Command::Done)
                },
                None => (self.at(Phase::Idle), Command::Done),
            },
            Phase::Unwatch => (
                OverlayHost {
                    visibility: Visibility::Visible,
                    watch: None,
                    phase: Phase::Idle,
                    ..self
                },
                Command::Done,
            ),
            _ => (self, Command::Done),
        }
    }

    /// What the outcome of the last command leads to.
    pub open spec fn resume(self, outcome: Outcome) -> (OverlayHost, Command) {
        match self.phase {
            Phase::Idle => (self, Command::Done),
            Phase::Device(_) | Phase::Swapchain | Phase::Context | Phase::Backbuffer
            | Phase::Composition | Phase::ContentDevice | Phase::ContentSized => self.resume_build(
                outcome,
            ),
            Phase::Draw | Phase::Present | Phase::Watch => self.resume_frame(outcome),
            Phase::ReleaseSized(_) | Phase::ReleaseDevice(_) | Phase::ReleaseContext(_)
            | Phase::ReleaseSwapchain(_) | Phase::ReleaseComposition(_) => self.resume_teardown(),
            Phase::Detach | Phase::Resize | Phase::Reattach | Phase::Discard
            | Phase::Recreate => self.resume_resize(outcome),
            Phase::Probe | Phase::Unwatch => self.resume_occlusion(outcome),
        }
    }

    /// The host's transition function: the state after an input, and the
    /// command that the driver is to carry out.
    ///
    /// An outcome continues the pass that is under way. Anything else
    /// starts a pass, and is turned away while one is under way.
    pub open spec fn next(self, input: Input) -> (OverlayHost, Command) {
        match input {
            Input::Outcome(outcome) => self.resume(outcome),
            _ => if !(self.phase is Idle) {
                (self, Command::Busy)
            } else {
                match input {
                    Input::Frame => self.begin_frame(),
                    Input::Message(message) => self.on_message(message),
                    _ => self.begin_teardown(After::Done),
                }
            },
        }
    }

    /// The state after a run of inputs, each stepping from the state that
    /// the one before it left.
    pub open spec fn after(self, inputs: Seq<Input>) -> OverlayHost
        decreases inputs.len(),
    {
        if inputs.len() == 0 {
            self
        } else {
            self.after(inputs.drop_last()).next(inputs.last()).0
        }
    }

    /// The command whose outcome the host is waiting for, if a pass is
    /// under way.
    pub open spec fn awaited(self) -> Option<Command> {
        match self.phase {
            Phase::Idle => None,
            Phase::Device(adapter) => Some(Command::CreateDevice(adapter)),
            Phase::Swapchain => Some(Command::CreateSwapchain(self.client)),
            Phase::Context => Some(Command::CreateContext),
            Phase::Backbuffer => Some(Command::AttachBackbuffer),
            Phase::Composition => Some(Command::Compose),
            Phase::ContentDevice => Some(Command::CreateContentResources),
            Phase::ContentSized => Some(Command::CreateSizedResources),
            Phase::Draw => Some(Command::Draw),
            Phase::Present => Some(Command::Present),
            Phase::Watch => Some(Command::WatchOcclusion),
            Phase::ReleaseSized(_) => Some(Command::ReleaseSizedResources),
            Phase::ReleaseDevice(_) => Some(Command::ReleaseContentResources),
            Phase::ReleaseContext(_) => Some(Command::ReleaseContext),
            Phase::ReleaseSwapchain(_) => Some(Command::ReleaseSwapchain),
            Phase::ReleaseComposition(_) => Some(Command::ReleaseComposition),
            Phase::Detach => Some(Command::DetachBackbuffer),
            Phase::Resize => Some(Command::ResizeBuffers(self.client)),
            Phase::Reattach => Some(Command::AttachBackbuffer),
            Phase::Discard => Some(Command::ReleaseSizedResources),
            Phase::Recreate => Some(Command::CreateSizedResources),
            Phase::Probe => Some(Command::TestPresent),
            Phase::Unwatch => match self.watch {
                Some(cookie) => Some(Command::UnwatchOcclusion(cookie)),
                None => None,
            },
        }
    }

    /// What the loop does on its next turn: it renders while the host is
    /// visible and waits for a message otherwise.
    pub open spec fn turn_of(self) -> Turn {
        if self.visibility is Visible {
            Turn::Render
        } else {
            Turn::Wait
        }
    }

    // ------------------------------------------------------------------
    // Well-formedness
    // ------------------------------------------------------------------

    /// No pass is under way, and the surface is whole: all of it stands,
    /// bound to a back buffer of the client area's size, with the content's
    /// resources made for that size; or none of it does.
    pub open spec fn settled(self) -> bool {
        ||| self.surface.is_absent() && self.content.is_empty()
        ||| self.surface.is_live_at(self.client) && self.content.is_full_at(self.client)
    }

    /// What holds of the surface and the content in each phase.
    pub open spec fn shaped(self) -> bool {
        let s = self.surface;
        let c = self.content;
        let building = !(self.visibility is Occluded) && !s.visual && !s.target && c.is_empty();
        let whole = s.context && s.swapchain && s.visual && s.target;
        match self.phase {
            Phase::Idle => self.settled(),
            Phase::Device(_) => building && s.is_absent(),
            Phase::Swapchain => building && s.is_absent(),
            Phase::Context => building && s.swapchain && !s.context && s.backbuffer is None,
            Phase::Backbuffer => building && s.swapchain && s.context && s.backbuffer is None,
            Phase::Composition => building && s.swapchain && s.context && s.backbuffer == Some(
                self.client,
            ),
            Phase::ContentDevice => !(self.visibility is Occluded) && s.is_live_at(self.client)
                && c.is_empty(),
            Phase::ContentSized => !(self.visibility is Occluded) && s.is_live_at(self.client)
                && c.device && c.sized is None,
            Phase::Draw | Phase::Present | Phase::Watch => !(self.visibility is Occluded)
                && s.is_live_at(self.client) && c.is_full_at(self.client),
            Phase::ReleaseSized(_) => true,
            Phase::ReleaseDevice(_) => c.sized is None,
            Phase::ReleaseContext(_) => c.is_empty(),
            Phase::ReleaseSwapchain(_) => c.is_empty() && !s.context && s.backbuffer is None,
            Phase::ReleaseComposition(_) => c.is_empty() && !s.context && s.backbuffer is None
                && !s.swapchain,
            Phase::Detach => whole && s.backbuffer is Some && c.device && c.sized is Some,
            Phase::Resize | Phase::Reattach => whole && s.backbuffer is None && c.device
                && c.sized is Some,
            Phase::Discard => s.is_live_at(self.client) && c.device && c.sized is Some,
            Phase::Recreate => s.is_live_at(self.client) && c.device && c.sized is None,
            Phase::Probe => self.watch is Some && s.is_live_at(self.client) && c.is_full_at(
                self.client,
            ),
            Phase::Unwatch => self.watch is Some && self.settled(),
        }
    }

    /// The host's invariant.
    ///
    /// While the host is occluded a watch is registered; an activation
    /// makes the host visible and leaves the watch for the clearance
    /// message to withdraw. The content holds sized resources only beside device resources, and
    /// device resources only while the drawing context stands. A back
    /// buffer is bound only to a drawing context on a swapchain. And the
    /// surface has the shape that the phase asks for.
    pub open spec fn wf(self) -> bool {
        &&& self.visibility is Occluded ==> self.watch is Some
        &&& self.content.ordered()
        &&& self.content.device ==> self.surface.context
        &&& self.surface.backbuffer is Some ==> self.surface.context && self.surface.swapchain
        &&& self.shaped()
    }

    // ------------------------------------------------------------------
    // The host
    // ------------------------------------------------------------------

    /// A host for a window whose client area has the given size: hidden,
    /// with no surface, no content resources and no pass under way.
    pub fn new(client: Extent) -> (host: OverlayHost)
        ensures
            host == OverlayHost::initial(client),
            host.wf(),
    {
        OverlayHost {
            visibility: Visibility::Hidden,
            watch: None,
            client,
            surface: Surface {
                context: false,
                swapchain: false,
                visual: false,
                target: false,
                backbuffer: None,
            },
            content: Tiers { device: false, sized: None },
            phase: Phase::Idle,
        }
    }

    fn moved(self, phase: Phase) -> (host: OverlayHost)
        ensures
            host == self.at(phase),
    {
        OverlayHost { phase, ..self }
    }

    fn start_frame(self) -> (r: (OverlayHost, Command))
        ensures
            r == self.begin_frame(),
    {
        match self.visibility {
            Visibility::Occluded => (self.moved(Phase::Idle), Command::Done),
            _ => {
                if self.surface.context {
                    (self.moved(Phase::Draw), Command::Draw)
                } else {
                    (
                        self.moved(Phase::Device(Adapter::Hardware)),
                        Command::CreateDevice(Adapter::Hardware),
                    )
                }
            },
        }
    }

    fn start_teardown(self, after: After) -> (r: (OverlayHost, Command))
        ensures
            r == self.begin_teardown(after),
    {
        (self.moved(Phase::ReleaseSized(after)), Command::ReleaseSizedResources)
    }

    fn finished(self, after: After) -> (r: (OverlayHost, Command))
        ensures
            r == self.finish(after),
    {
        match after {
            After::Done => (self.moved(Phase::Idle), Command::Done),
            After::Fatal => (self.moved(Phase::Idle), Command::Fatal),
            After::Render => self.moved(Phase::Idle).start_frame(),
        }
    }

    fn handle(self, message: Message) -> (r: (OverlayHost, Command))
        ensures
            r == self.on_message(message),
    {
        match message {
            Message::Paint => self.start_frame(),
            Message::DisplayChange => self.start_frame(),
            Message::Size { minimized, extent } => {
                if minimized {
                    (self, Command::Done)
                } else {
                    let sized = OverlayHost { client: extent, ..self };
                    if sized.surface.context {
                        (sized.moved(Phase::Detach), Command::DetachBackbuffer)
                    } else {
                        sized.start_frame()
                    }
                }
            },
            Message::OcclusionCleared => match self.watch {
                Some(cookie) => {
                    if self.surface.context {
                        (self.moved(Phase::Probe), Command::TestPresent)
                    } else {
                        (self.moved(Phase::Unwatch), Command::UnwatchOcclusion(cookie))
                    }
                },
                None => (self, Command::Done),
            },
            Message::Activate => (
                OverlayHost { visibility: Visibility::Visible, ..self },
                Command::Done,
            ),
            Message::Destroy => (self, Command::PostQuit),
            Message::Other => (self, Command::DefaultProcessing),
        }
    }

    fn built(self, outcome: Outcome) -> (r: (OverlayHost, Command))
        ensures
            r == self.resume_build(outcome),
    {
        let ok = outcome.is_success();
        match self.phase {
            Phase::Device(adapter) => match classify_device(outcome.status()) {
                DeviceAnswer::Created => (
                    self.moved(Phase::Swapchain),
                    Command::CreateSwapchain(self.client),
                ),
                DeviceAnswer::Unsupported => match adapter {
                    Adapter::Hardware => (
                        self.moved(Phase::Device(Adapter::Software)),
                        Command::CreateDevice(Adapter::Software),
                    ),
                    Adapter::Software => (self.moved(Phase::Idle), Command::Fatal),
                },
                DeviceAnswer::Failed => (self.moved(Phase::Idle), Command::Fatal),
            },
            Phase::Swapchain => {
                if ok {
                    (
                        OverlayHost {
                            surface: Surface { swapchain: true, ..self.surface },
                            phase: Phase::Context,
                            ..self
                        },
                        Command::CreateContext,
                    )
                } else {
                    self.start_teardown(After::Fatal)
                }
            },
            Phase::Context => {
                if ok {
                    (
                        OverlayHost {
                            surface: Surface { context: true, ..self.surface },
                            phase: Phase::Backbuffer,
                            ..self
                        },
                        Command::AttachBackbuffer,
                    )
                } else {
                    self.start_teardown(After::Fatal)
                }
            },
            Phase::Backbuffer => {
                if ok {
                    (
                        OverlayHost {
                            surface: Surface { backbuffer: Some(self.client), ..self.surface },
                            phase: Phase::Composition,
                            ..self
                        },
                        Command::Compose,
                    )
                } else {
                    self.start_teardown(After::Fatal)
                }
            },
            Phase::Composition => {
                if ok {
                    (
                        OverlayHost {
                            surface: Surface { visual: true, target: true, ..self.surface },
                            phase: Phase::ContentDevice,
                            ..self
                        },
                        Command::CreateContentResources,
                    )
                } else {
                    self.start_teardown(After::Fatal)
                }
            },
            Phase::ContentDevice => {
                if ok {
                    (
                        OverlayHost {
                            content: Tiers { device: true, ..self.content },
                            phase: Phase::ContentSized,
                            ..self
                        },
                        Command::CreateSizedResources,
                    )
                } else {
                    self.start_teardown(After::Done)
                }
            },
            Phase::ContentSized => {
                if ok {
                    let ready = OverlayHost {
                        content: Tiers { sized: Some(self.client), ..self.content },
                        phase: Phase::Idle,
                        ..self
                    };
                    ready.start_frame()
                } else {
                    self.start_teardown(After::Done)
                }
            },
            _ => (self, Command::Done),
        }
    }

    fn framed(self, outcome: Outcome) -> (r: (OverlayHost, Command))
        ensures
            r == self.resume_frame(outcome),
    {
        match self.phase {
            Phase::Draw => {
                if outcome.is_success() {
                    (self.moved(Phase::Present), Command::Present)
                } else {
                    (self.moved(Phase::Idle), Command::Fatal)
                }
            },
            Phase::Present => match classify_present(outcome.status()) {
                Presented::Shown => (self.moved(Phase::Idle), Command::Done),
                Presented::Occluded => (self.moved(Phase::Watch), Command::WatchOcclusion),
                Presented::Lost => self.start_teardown(After::Done),
            },
            Phase::Watch => match outcome {
                Outcome::Watching(cookie) => (
                    OverlayHost {
                        visibility: Visibility::Occluded,
                        watch: Some(cookie),
                        phase: Phase::Idle,
                        ..self
                    },
                    Command::Done,
                ),
                Outcome::Status(_) => (self.moved(Phase::Idle), Command::Fatal),
            },
            _ => (self, Command::Done),
        }
    }

    fn released(self) -> (r: (OverlayHost, Command))
        ensures
            r == self.resume_teardown(),
    {
        match self.phase {
            Phase::ReleaseSized(after) => (
                OverlayHost {
                    content: Tiers { sized: None, ..self.content },
                    phase: Phase::ReleaseDevice(after),
                    ..self
                },
                Command::ReleaseContentResources,
            ),
            Phase::ReleaseDevice(after) => (
                OverlayHost {
                    content: Tiers { device: false, ..self.content },
                    phase: Phase::ReleaseContext(after),
                    ..self
                },
                Command::ReleaseContext,
            ),
            Phase::ReleaseContext(after) => (
                OverlayHost {
                    surface: Surface { context: false, backbuffer: None, ..self.surface },
                    phase: Phase::ReleaseSwapchain(after),
                    ..self
                },
                Command::ReleaseSwapchain,
            ),
            Phase::ReleaseSwapchain(after) => (
                OverlayHost {
                    surface: Surface { swapchain: false, ..self.surface },
                    phase: Phase::ReleaseComposition(after),
                    ..self
                },
                Command::ReleaseComposition,
            ),
            Phase::ReleaseComposition(after) => {
                let gone = OverlayHost {
                    surface: Surface { visual: false, target: false, ..self.surface },
                    ..self
                };
                gone.finished(after)
            },
            _ => (self, Command::Done),
        }
    }

    fn resized(self, outcome: Outcome) -> (r: (OverlayHost, Command))
        ensures
            r == self.resume_resize(outcome),
    {
        let ok = outcome.is_success();
        match self.phase {
            Phase::Detach => (
                OverlayHost {
                    surface: Surface { backbuffer: None, ..self.surface },
                    phase: Phase::Resize,
                    ..self
                },
                Command::ResizeBuffers(self.client),
            ),
            Phase::Resize => {
                if ok {
                    (self.moved(Phase::Reattach), Command::AttachBackbuffer)
                } else {
                    self.start_teardown(After::Render)
                }
            },
            Phase::Reattach => {
                if ok {
                    (
                        OverlayHost {
                            surface: Surface { backbuffer: Some(self.client), ..self.surface },
                            phase: Phase::Discard,
                            ..self
                        },
                        Command::ReleaseSizedResources,
                    )
                } else {
                    self.start_teardown(After::Render)
                }
            },
            Phase::Discard => (
                OverlayHost {
                    content: Tiers { sized: None, ..self.content },
                    phase: Phase::Recreate,
                    ..self
                },
                Command::CreateSizedResources,
            ),
            Phase::Recreate => {
                if ok {
                    let ready = OverlayHost {
                        content: Tiers { sized: Some(self.client), ..self.content },
                        phase: Phase::Idle,
                        ..self
                    };
                    ready.start_frame()
                } else {
                    self.start_teardown(After::Render)
                }
            },
            _ => (self, Command::Done),
        }
    }

    fn cleared(self, outcome: Outcome) -> (r: (OverlayHost, Command))
        ensures
            r == self.resume_occlusion(outcome),
    {
        match self.phase {
            Phase::Probe => match self.watch {
                Some(cookie) => match classify_present(outcome.status()) {
                    Presented::Shown => (
                        self.moved(Phase::Unwatch),
                        Command::UnwatchOcclusion(cookie),
                    ),
                    _ => (self.moved(Phase::Idle), Command::Done),
                },
                None => (self.moved(Phase::Idle), Command::Done),
            },
            Phase::Unwatch => (
                OverlayHost {
                    visibility: Visibility::Visible,
                    watch: None,
                    phase: Phase::Idle,
                    ..self
                },
                Command::Done,
            ),
            _ => (self, Command::Done),
        }
    }

    fn resumed(self, outcome: Outcome) -> (r: (OverlayHost, Command))
        ensures
            r == self.resume(outcome),
    {
        match self.phase {
            Phase::Idle => (self, Command::Done),
            Phase::Device(_) | Phase::Swapchain | Phase::Context | Phase::Backbuffer
            | Phase::Composition | Phase::ContentDevice | Phase::ContentSized => self.built(
                outcome,
            ),
            Phase::Draw | Phase::Present | Phase::Watch => self.framed(outcome),
            Phase::ReleaseSized(_) | Phase::ReleaseDevice(_) | Phase::ReleaseContext(_)
            | Phase::ReleaseSwapchain(_) | Phase::ReleaseComposition(_) => self.released(),
            Phase::Detach | Phase::Resize | Phase::Reattach | Phase::Discard
            | Phase::Recreate => self.resized(outcome),
            Phase::Probe | Phase::Unwatch => self.cleared(outcome),
        }
    }

    /// Whether no pass is under way.
    pub fn is_idle(&self) -> (yes: bool)
        ensures
            yes == (self.phase is Idle),
    {
        match self.phase {
            Phase::Idle => true,
            _ => false,
        }
    }

    /// Takes an input, moves to the next state and says what the driver is
    /// to do: exactly what [`OverlayHost::next`] says. A well-formed host
    /// stays well-formed.
    pub fn step(&mut self, input: Input) -> (command: Command)
        ensures
            (*final(self), command) == old(self).next(input),
            old(self).wf() ==> final(self).wf(),
    {
        let current = *self;
        let (following, command) = match input {
            Input::Outcome(outcome) => current.resumed(outcome),
            Input::Frame => {
                if current.is_idle() {
                    current.start_frame()
                } else {
                    (current, Command::Busy)
                }
            },
            Input::Message(message) => {
                if current.is_idle() {
                    current.handle(message)
                } else {
                    (current, Command::Busy)
                }
            },
            Input::Shutdown => {
                if current.is_idle() {
                    current.start_teardown(After::Done)
                } else {
                    (current, Command::Busy)
                }
            },
        };
        proof {
            current.lemma_next_keeps_wf(input);
        }
        *self = following;
        command
    }

    /// The command whose outcome the host is waiting for, if a pass is
    /// under way: what a driver that lost track is to carry out.
    pub fn awaiting(&self) -> (command: Option<Command>)
        ensures
            command == self.awaited(),
    {
        match self.phase {
            Phase::Idle => None,
            Phase::Device(adapter) => Some(Command::CreateDevice(adapter)),
            Phase::Swapchain => Some(Command::CreateSwapchain(self.client)),
            Phase::Context => Some(Command::CreateContext),
            Phase::Backbuffer => Some(Command::AttachBackbuffer),
            Phase::Composition => Some(Command::Compose),
            Phase::ContentDevice => Some(Command::CreateContentResources),
            Phase::ContentSized => Some(Command::CreateSizedResources),
            Phase::Draw => Some(Command::Draw),
            Phase::Present => Some(Command::Present),
            Phase::Watch => Some(Command::WatchOcclusion),
            Phase::ReleaseSized(_) => Some(Command::ReleaseSizedResources),
            Phase::ReleaseDevice(_) => Some(Command::ReleaseContentResources),
            Phase::ReleaseContext(_) => Some(Command::ReleaseContext),
            Phase::ReleaseSwapchain(_) => Some(Command::ReleaseSwapchain),
            Phase::ReleaseComposition(_) => Some(Command::ReleaseComposition),
            Phase::Detach => Some(Command::DetachBackbuffer),
            Phase::Resize => Some(Command::ResizeBuffers(self.client)),
            Phase::Reattach => Some(Command::AttachBackbuffer),
            Phase::Discard => Some(Command::ReleaseSizedResources),
            Phase::Recreate => Some(Command::CreateSizedResources),
            Phase::Probe => Some(Command::TestPresent),
            Phase::Unwatch => match self.watch {
                Some(cookie) => Some(Command::UnwatchOcclusion(cookie)),
                None => None,
            },
        }
    }

    /// What the loop does on its next turn.
    pub fn turn(&self) -> (turn: Turn)
        ensures
            turn == self.turn_of(),
    {
        match self.visibility {
            Visibility::Visible => Turn::Render,
            _ => Turn::Wait,
        }
    }

    /// Every step keeps the invariant.
    pub proof fn lemma_next_keeps_wf(self, input: Input)
        ensures
            self.wf() ==> self.next(input).0.wf(),
    {
    }
}

} // verus!
