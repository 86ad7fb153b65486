//! Driver failures and refusals.

use crate::text::concat;
use crate::vulkan;
use crate::vulkan::result_text;
use ash::vk;
use vstd::prelude::*;

verus! {

/// Recoverable driver failures and actionable unsupported-feature diagnostics.
#[derive(Debug, PartialEq, Eq)]
pub enum GpuError {
    DeviceLost,
    Unsupported(String),
    InvalidArgument(&'static str),
    DriverError(vk::Result),
    Loader(String),
    Timeout,
    OutOfDate,
    SurfaceLost,
    WindowMinimized,
}

/// A [`GpuError`] as a value.
pub enum Problem {
    DeviceLost,
    Unsupported(Seq<char>),
    InvalidArgument(&'static str),
    DriverError(vk::Result),
    Loader(Seq<char>),
    Timeout,
    OutOfDate,
    SurfaceLost,
    WindowMinimized,
}

impl View for GpuError {
    type V = Problem;

    open spec fn view(&self) -> Problem {
        match self {
            GpuError::DeviceLost => Problem::DeviceLost,
            GpuError::Unsupported(message) => Problem::Unsupported(message@),
            GpuError::InvalidArgument(message) => Problem::InvalidArgument(message),
            GpuError::DriverError(result) => Problem::DriverError(*result),
            GpuError::Loader(message) => Problem::Loader(message@),
            GpuError::Timeout => Problem::Timeout,
            GpuError::OutOfDate => Problem::OutOfDate,
            GpuError::SurfaceLost => Problem::SurfaceLost,
            GpuError::WindowMinimized => Problem::WindowMinimized,
        }
    }
}

/// What a fallible operation yields, with its error as a value.
pub open spec fn outcome<T>(result: Result<T, GpuError>) -> Result<T, Problem> {
    match result {
        Ok(value) => Ok(value),
        Err(error) => Err(error@),
    }
}

/// A refusal because of the arguments.
pub open spec fn refused<T>(message: &'static str) -> Result<T, Problem> {
    Err(Problem::InvalidArgument(message))
}

/// A refusal because a feature is lacking.
pub open spec fn lacking<T>(message: Seq<char>) -> Result<T, Problem> {
    Err(Problem::Unsupported(message))
}

// Numbers that Vulkan gives to the results told apart here.
pub const RESULT_NOT_READY: i32 = 1;

pub const RESULT_TIMEOUT: i32 = 2;

pub const RESULT_DEVICE_LOST: i32 = -4;

pub const RESULT_FORMAT_NOT_SUPPORTED: i32 = -11;

pub const RESULT_SURFACE_LOST: i32 = -1_000_000_000;

pub const RESULT_OUT_OF_DATE: i32 = -1_000_001_004;

/// The error that a driver result with the given number stands for.
pub open spec fn error_with_code(code: i32, result: vk::Result) -> GpuError {
    if code == RESULT_DEVICE_LOST {
        GpuError::DeviceLost
    } else if code == RESULT_TIMEOUT || code == RESULT_NOT_READY {
        GpuError::Timeout
    } else if code == RESULT_OUT_OF_DATE {
        GpuError::OutOfDate
    } else if code == RESULT_SURFACE_LOST {
        GpuError::SurfaceLost
    } else {
        GpuError::DriverError(result)
    }
}

/// The error that a driver result stands for, as a value.
pub open spec fn problem_of(result: vk::Result) -> Problem {
    error_with_code(vulkan::vk_result_code(result), result)@
}

/// Tells the error of a driver result by its number.
pub fn error_of_code(code: i32, result: vk::Result) -> (r: GpuError)
    ensures
        r == error_with_code(code, result),
{
    if code == RESULT_DEVICE_LOST {
        GpuError::DeviceLost
    } else if code == RESULT_TIMEOUT || code == RESULT_NOT_READY {
        GpuError::Timeout
    } else if code == RESULT_OUT_OF_DATE {
        GpuError::OutOfDate
    } else if code == RESULT_SURFACE_LOST {
        GpuError::SurfaceLost
    } else {
        GpuError::DriverError(result)
    }
}

impl From<vk::Result> for GpuError {
    fn from(result: vk::Result) -> (r: GpuError) {
        error_of_code(result.as_raw(), result)
    }
}

impl vstd::std_specs::convert::FromSpecImpl<vk::Result> for GpuError {
    open spec fn obeys_from_spec() -> bool {
        true
    }

    open spec fn from_spec(result: vk::Result) -> GpuError {
        error_with_code(vulkan::vk_result_code(result), result)
    }
}

impl Clone for GpuError {
    fn clone(&self) -> (r: GpuError)
        ensures
            r@ == self@,
    {
        match self {
            GpuError::DeviceLost => GpuError::DeviceLost,
            GpuError::Unsupported(message) => GpuError::Unsupported(message.clone()),
            GpuError::InvalidArgument(message) => GpuError::InvalidArgument(*message),
            GpuError::DriverError(result) => GpuError::DriverError(*result),
            GpuError::Loader(message) => GpuError::Loader(message.clone()),
            GpuError::Timeout => GpuError::Timeout,
            GpuError::OutOfDate => GpuError::OutOfDate,
            GpuError::SurfaceLost => GpuError::SurfaceLost,
            GpuError::WindowMinimized => GpuError::WindowMinimized,
        }
    }
}

/// The text that an error shows. `driver` is the text of its driver result, if it
/// has one.
pub open spec fn problem_text(problem: Problem, driver: Seq<char>) -> Seq<char> {
    match problem {
        Problem::Unsupported(message) => "unsupported: "@ + message,
        Problem::InvalidArgument(message) => "invalid argument: "@ + message@,
        Problem::Loader(message) => "Vulkan loader: "@ + message,
        Problem::DriverError(_) => "Vulkan: "@ + driver,
        Problem::DeviceLost => "DeviceLost"@,
        Problem::Timeout => "Timeout"@,
        Problem::OutOfDate => "OutOfDate"@,
        Problem::SurfaceLost => "SurfaceLost"@,
        Problem::WindowMinimized => "WindowMinimized"@,
    }
}

impl GpuError {
    /// The text shown to a user, given the text of the driver result.
    pub fn message_with(&self, driver: &str) -> (r: String)
        ensures
            r@ == problem_text(self@, driver@),
    {
        match self {
            GpuError::Unsupported(message) => concat("unsupported: ", message.as_str()),
            GpuError::InvalidArgument(message) => concat("invalid argument: ", message),
            GpuError::Loader(message) => concat("Vulkan loader: ", message.as_str()),
            GpuError::DriverError(_) => concat("Vulkan: ", driver),
            GpuError::DeviceLost => "DeviceLost".to_owned(),
            GpuError::Timeout => "Timeout".to_owned(),
            GpuError::OutOfDate => "OutOfDate".to_owned(),
            GpuError::SurfaceLost => "SurfaceLost".to_owned(),
            GpuError::WindowMinimized => "WindowMinimized".to_owned(),
        }
    }

    /// The text shown to a user.
    pub fn message(&self) -> (r: String)
        ensures
            r@ == (match self@ {
                Problem::DriverError(result) => problem_text(
                    self@,
                    vulkan::vk_result_text(result),
                ),
                _ => problem_text(self@, Seq::empty()),
            }),
    {
        match self {
            GpuError::DriverError(result) => {
                let text = result_text(*result);
                self.message_with(text.as_str())
            },
            _ => {
                let nothing = String::new();
                self.message_with(nothing.as_str())
            },
        }
    }

    /// What a name from the driver that lacks its end is reported as.
    pub fn unterminated_name() -> (r: GpuError)
        ensures
            r@ == Problem::InvalidArgument("driver returned an unterminated name"),
    {
        GpuError::InvalidArgument("driver returned an unterminated name")
    }
}

/// What a driver call yields.
pub open spec fn driver_outcome<T>(reply: Result<T, vk::Result>) -> Result<T, Problem> {
    match reply {
        Ok(value) => Ok(value),
        Err(result) => Err(problem_of(result)),
    }
}

/// Turns the result of a driver call into an error of the library.
pub fn driver_result<T>(reply: Result<T, vk::Result>) -> (r: Result<T, GpuError>)
    ensures
        outcome(r) == driver_outcome(reply),
{
    match reply {
        Ok(value) => Ok(value),
        Err(result) => Err(GpuError::from(result)),
    }
}

/// A refusal that names a lacking feature.
pub fn unsupported(message: &str) -> (r: GpuError)
    ensures
        r@ == Problem::Unsupported(message@),
{
    GpuError::Unsupported(message.to_owned())
}

} // verus!
