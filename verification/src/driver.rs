//! The frame driver's policy: what to do with the result of a render.

use vstd::prelude::*;
use crate::context::{lemma_reconfigure_in_place, reconfigure_steps, Step, WgpuContext};
use crate::surface::SurfaceError;

verus! {

/// What the driver does about a presentation error.
#[derive(Clone, Copy, Debug, PartialEq, Eq, Structural)]
pub enum Recovery {
    /// Configure the surface again at the size it has, and go on with the next
    /// tick.
    Reconfigure,
    /// Note the error and go on with the next tick.
    Ignore,
    /// End the session.
    Terminate,
}

/// A lost or outdated surface is configured again, a timeout is passed over,
/// and want of memory or any other error ends the session.
pub open spec fn recovery_of(error: SurfaceError) -> Recovery {
    match error {
        SurfaceError::Lost | SurfaceError::Outdated => Recovery::Reconfigure,
        SurfaceError::Timeout => Recovery::Ignore,
        SurfaceError::OutOfMemory | SurfaceError::Other => Recovery::Terminate,
    }
}

/// The recovery for a presentation error.
pub fn recovery(error: SurfaceError) -> (r: Recovery)
    ensures
        r == recovery_of(error),
{
    match error {
        SurfaceError::Lost => Recovery::Reconfigure,
        SurfaceError::Outdated => Recovery::Reconfigure,
        SurfaceError::Timeout => Recovery::Ignore,
        SurfaceError::OutOfMemory => Recovery::Terminate,
        SurfaceError::Other => Recovery::Terminate,
    }
}

/// Whether the session goes on after a frame.
#[derive(Clone, Copy, Debug, PartialEq, Eq, Structural)]
pub enum Verdict {
    Continue,
    Terminate,
}

/// Settles a frame whose render gave `rendered`. The context is never changed.
/// After a lost or outdated surface the caller gets the steps that configure the
/// surface again at the size it has; in every other case there is nothing to do.
/// The session ends on want of memory and on any other error, and goes on
/// otherwise.
pub fn settle(ctx: &mut WgpuContext, rendered: Result<(), SurfaceError>) -> (r: (
    Verdict,
    Vec<Step>,
))
    ensures
        *final(ctx) == *old(ctx),
        r.0 == Verdict::Terminate <==> rendered.is_err() && recovery_of(rendered.unwrap_err())
            == Recovery::Terminate,
        r.0 == Verdict::Continue <==> rendered.is_ok() || recovery_of(rendered.unwrap_err())
            != Recovery::Terminate,
        rendered.is_err() && recovery_of(rendered.unwrap_err()) == Recovery::Reconfigure ==> r.1@
            == reconfigure_steps(old(ctx).config()),
        rendered.is_ok() || recovery_of(rendered.unwrap_err()) != Recovery::Reconfigure
            ==> r.1@.len() == 0,
{
    match rendered {
        Ok(_) => (Verdict::Continue, Vec::new()),
        Err(error) => match recovery(error) {
            Recovery::Reconfigure => {
                proof {
                    use_type_invariant(&*ctx);
                    lemma_reconfigure_in_place(*ctx);
                }
                let size = ctx.size();
                let steps = ctx.resize(size);
                (Verdict::Continue, steps)
            },
            Recovery::Ignore => (Verdict::Continue, Vec::new()),
            Recovery::Terminate => (Verdict::Terminate, Vec::new()),
        },
    }
}

} // verus!
