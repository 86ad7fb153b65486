//! Decisions of a presentation loop.

use crate::error::GpuError;
use vstd::prelude::*;

verus! {

/// What follows of a failed acquisition.
#[derive(Debug, Clone, Copy, PartialEq, Eq, Structural)]
pub enum AcquireOutcome {
    /// Rebuild the swapchain, and try again with the next frame.
    Rebuild,
    /// Give up this frame and report the error.
    Fail,
}

/// Decides what follows of a failed acquisition.
pub fn after_acquire(error: &GpuError) -> (r: AcquireOutcome)
    ensures
        r == (if *error is OutOfDate {
            AcquireOutcome::Rebuild
        } else {
            AcquireOutcome::Fail
        }),
{
    match error {
        GpuError::OutOfDate => AcquireOutcome::Rebuild,
        _ => AcquireOutcome::Fail,
    }
}

/// What follows of a presentation.
#[derive(Debug, Clone, Copy, PartialEq, Eq, Structural)]
pub enum PresentOutcome {
    /// The frame is shown.
    Shown,
    /// The frame counts, but the swapchain has to be rebuilt.
    Rebuild,
    /// Report the error.
    Fail,
}

/// Decides what follows of a presentation.
pub fn after_present(result: &Result<bool, GpuError>) -> (r: PresentOutcome)
    ensures
        r == (match *result {
            Ok(true) => PresentOutcome::Rebuild,
            Ok(false) => PresentOutcome::Shown,
            Err(error) => if error is OutOfDate {
                PresentOutcome::Rebuild
            } else {
                PresentOutcome::Fail
            },
        }),
{
    match result {
        Ok(suboptimal) => if *suboptimal {
            PresentOutcome::Rebuild
        } else {
            PresentOutcome::Shown
        },
        Err(error) => match error {
            GpuError::OutOfDate => PresentOutcome::Rebuild,
            _ => PresentOutcome::Fail,
        },
    }
}

/// Which of two command buffers records a frame.
pub fn command_slot(rendered: usize) -> (r: usize)
    ensures
        r == rendered as int % 2,
        r < 2,
{
    rendered % 2
}

/// What a loop is run for.
#[derive(Debug, Clone, Copy, PartialEq, Eq, Structural)]
pub struct LoopOptions {
    /// Resize the window after three frames and rebuild after six.
    pub resize_test: bool,
    pub frame_limit: Option<usize>,
}

/// What follows of a redraw.
#[derive(Debug, Clone, Copy, PartialEq, Eq, Structural)]
pub struct LoopStep {
    /// Report the error and leave; nothing else follows.
    pub fail: bool,
    pub request_resize: bool,
    /// Rebuild the swapchain; should that fail, leave.
    pub rebuild: bool,
    pub exit: bool,
    pub redraw: bool,
}

/// What follows of a redraw that had the given result.
pub open spec fn spec_after_redraw(
    failed: bool,
    rendered: usize,
    options: LoopOptions,
) -> LoopStep {
    let over = options.frame_limit matches Some(limit) && rendered >= limit;
    if failed {
        LoopStep { fail: true, request_resize: false, rebuild: false, exit: true, redraw: false }
    } else {
        LoopStep {
            fail: false,
            request_resize: options.resize_test && rendered == 3,
            rebuild: options.resize_test && rendered == 6,
            exit: over,
            redraw: !over,
        }
    }
}

/// Decides what follows of a redraw. A minimized window is no failure.
pub fn after_redraw(result: &Result<(), GpuError>, rendered: usize, options: LoopOptions) -> (r:
    LoopStep)
    ensures
        r == spec_after_redraw(
            *result is Err && !((*result)->Err_0 is WindowMinimized),
            rendered,
            options,
        ),
{
    let failed = match result {
        Ok(_) => false,
        Err(error) => match error {
            GpuError::WindowMinimized => false,
            _ => true,
        },
    };
    if failed {
        return LoopStep {
            fail: true,
            request_resize: false,
            rebuild: false,
            exit: true,
            redraw: false,
        };
    }
    let over = match options.frame_limit {
        Some(limit) => rendered >= limit,
        None => false,
    };
    LoopStep {
        fail: false,
        request_resize: options.resize_test && rendered == 3,
        rebuild: options.resize_test && rendered == 6,
        exit: over,
        redraw: !over,
    }
}

/// A redraw leads to exactly one of another redraw and leaving the loop.
pub proof fn loops_go_on_or_end(failed: bool, rendered: usize, options: LoopOptions)
    ensures
        spec_after_redraw(failed, rendered, options).redraw != spec_after_redraw(
            failed,
            rendered,
            options,
        ).exit,
        failed ==> spec_after_redraw(failed, rendered, options).exit,
{
}

} // verus!
