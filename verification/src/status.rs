use vstd::prelude::*;

verus! {

/// Status code with which a presentation reports that the output is fully
/// covered. It is a success code: the call did nothing wrong, there was
/// simply nobody to show the frame to.
pub const STATUS_OCCLUDED: i32 = 0x087A_0001;

/// Status code with which device creation reports that the requested
/// adapter kind cannot serve the request.
pub const ERROR_UNSUPPORTED: i32 = -2005270524;

/// What the driver reports back after carrying out a command.
#[derive(Clone, Copy, Debug, PartialEq, Eq)]
pub enum Outcome {
    /// The call returned this status code; negative codes are failures.
    Status(i32),
    /// An occlusion watch was registered under this cookie.
    Watching(u32),
}

/// How a presentation ended.
#[derive(Clone, Copy, Debug, PartialEq, Eq, Structural)]
pub enum Presented {
    /// The frame was handed to the compositor.
    Shown,
    /// The output is fully covered; nothing is wrong with the device.
    Occluded,
    /// Any failure: the device and all that hangs on it are gone.
    Lost,
}

/// How a device creation ended.
#[derive(Clone, Copy, Debug, PartialEq, Eq, Structural)]
pub enum DeviceAnswer {
    Created,
    /// The adapter kind is not available; another kind may be.
    Unsupported,
    Failed,
}

/// A status code is a success unless it is negative.
pub open spec fn succeeded(code: i32) -> bool {
    code >= 0
}

/// The classification of a presentation's status code.
pub open spec fn presented(code: i32) -> Presented {
    if code == STATUS_OCCLUDED {
        Presented::Occluded
    } else if code >= 0 {
        Presented::Shown
    } else {
        Presented::Lost
    }
}

/// The classification of a device creation's status code.
pub open spec fn device_answer(code: i32) -> DeviceAnswer {
    if code >= 0 {
        DeviceAnswer::Created
    } else if code == ERROR_UNSUPPORTED {
        DeviceAnswer::Unsupported
    } else {
        DeviceAnswer::Failed
    }
}

impl Outcome {
    /// The status code that an outcome stands for: a registered watch is a
    /// plain success.
    pub open spec fn code(self) -> i32 {
        match self {
            Outcome::Status(code) => code,
            Outcome::Watching(_) => 0,
        }
    }

    /// The outcome of a call that simply succeeded.
    pub fn ok() -> (outcome: Outcome)
        ensures
            outcome == Outcome::Status(0),
    {
        Outcome::Status(0)
    }

    /// The status code of this outcome.
    pub fn status(&self) -> (code: i32)
        ensures
            code == self.code(),
    {
        match self {
            Outcome::Status(code) => *code,
            Outcome::Watching(_) => 0,
        }
    }

    /// Whether the call succeeded.
    pub fn is_success(&self) -> (yes: bool)
        ensures
            yes == succeeded(self.code()),
    {
        self.status() >= 0
    }
}

/// Classifies the status code of a presentation: the occlusion status first
/// (it is not negative, and still no frame was shown), then success, then
/// everything else as device loss.
pub fn classify_present(code: i32) -> (kind: Presented)
    ensures
        kind == presented(code),
{
    if code == STATUS_OCCLUDED {
        Presented::Occluded
    } else if code >= 0 {
        Presented::Shown
    } else {
        Presented::Lost
    }
}

/// Classifies the status code of a device creation.
pub fn classify_device(code: i32) -> (answer: DeviceAnswer)
    ensures
        answer == device_answer(code),
{
    if code >= 0 {
        DeviceAnswer::Created
    } else if code == ERROR_UNSUPPORTED {
        DeviceAnswer::Unsupported
    } else {
        DeviceAnswer::Failed
    }
}

} // verus!
