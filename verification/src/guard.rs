//! Scoped activation: make a (display, draw, read, context) tuple current,
//! remember what was current before, and restore it afterwards on every
//! exit path — unless the tuple to restore is being invalidated because it
//! is about to be destroyed.

use vstd::prelude::*;

use crate::backend::{Backend, BackendCall, CurrentTuple, NO_DISPLAY};
use crate::ContextError;

verus! {

/// A scoped activation of one (display, draw, read, context) tuple.
///
/// Acquisition queries the backend for the currently-current tuple, then
/// makes the given tuple current. Release restores the remembered tuple,
/// unless the guard was told that tuple is being invalidated. Release is
/// an explicit operation so that its effect on the backend carries a
/// contract; every acquisition must be paired with exactly one release.
#[derive(Debug, Clone, Copy)]
pub struct MakeCurrentGuard {
    /// The display the activation was made against; used to address the
    /// restoring call when nothing was current before.
    pub display: u64,
    /// The tuple that was current when the guard was acquired.
    pub saved: CurrentTuple,
    /// Whether restoration was cancelled.
    pub invalidated: bool,
}

/// The tuple a guard's release makes current: the saved tuple, addressed
/// through the guard's own display when nothing was current before.
pub open spec fn spec_restore_tuple(g: MakeCurrentGuard) -> CurrentTuple {
    CurrentTuple {
        display: if g.saved.display != NO_DISPLAY {
            g.saved.display
        } else {
            g.display
        },
        draw: g.saved.draw,
        read: g.saved.read,
        context: g.saved.context,
    }
}

impl MakeCurrentGuard {
    /// Make the given tuple current, remembering what was current before.
    /// Fails exactly when the backend reports the context lost, in which
    /// case nothing changed and there is nothing to release.
    pub fn new(b: &mut Backend, display: u64, draw: u64, read: u64, context: u64) -> (r: Result<
        MakeCurrentGuard,
        ContextError,
    >)
        ensures
            final(b).log@ == old(b).log@.push(
                BackendCall::MakeCurrent { display, draw, read, context },
            ),
            match r {
                Ok(g) => {
                    &&& !old(b).context_lost
                    &&& g.saved == old(b).current
                    &&& g.display == display
                    &&& !g.invalidated
                    &&& final(b).current == (CurrentTuple { display, draw, read, context })
                    &&& final(b).only_log_and_current_changed(*old(b))
                },
                Err(e) => {
                    &&& old(b).context_lost
                    &&& e == ContextError::ContextLost
                    &&& final(b).only_log_changed(*old(b))
                },
            },
    {
        let saved = CurrentTuple {
            display: b.get_current_display(),
            draw: b.get_current_draw_surface(),
            read: b.get_current_read_surface(),
            context: b.get_current_context(),
        };
        if b.make_current(display, draw, read, context) {
            Ok(MakeCurrentGuard { display, saved, invalidated: false })
        } else {
            Err(ContextError::ContextLost)
        }
    }

    /// Cancel restoration if any part of the saved tuple is among the
    /// handles about to be destroyed: a destroyed tuple must not be made
    /// current again.
    pub fn if_any_same_then_invalidate(&mut self, draw: u64, read: u64, context: u64)
        ensures
            final(self).invalidated == (old(self).invalidated || old(self).saved.draw == draw
                || old(self).saved.read == read || old(self).saved.context == context),
            final(self).saved == old(self).saved,
            final(self).display == old(self).display,
    {
        if self.saved.draw == draw || self.saved.read == read || self.saved.context == context {
            self.invalidated = true;
        }
    }

    /// Restore the tuple that was current at acquisition, unless the
    /// guard was invalidated. Fails exactly when the restoring call
    /// itself reports the context lost.
    pub fn release(self, b: &mut Backend) -> (r: Result<(), ContextError>)
        ensures
            self.invalidated ==> r is Ok && *final(b) == *old(b),
            !self.invalidated ==> {
                &&& final(b).log@ == old(b).log@.push(
                    BackendCall::MakeCurrent {
                        display: spec_restore_tuple(self).display,
                        draw: self.saved.draw,
                        read: self.saved.read,
                        context: self.saved.context,
                    },
                )
                &&& match r {
                    Ok(()) => {
                        &&& !old(b).context_lost
                        &&& final(b).current == spec_restore_tuple(self)
                        &&& final(b).only_log_and_current_changed(*old(b))
                    },
                    Err(e) => {
                        &&& old(b).context_lost
                        &&& e == ContextError::ContextLost
                        &&& final(b).only_log_changed(*old(b))
                    },
                }
            },
    {
        if self.invalidated {
            return Ok(());
        }
        let display = if self.saved.display != NO_DISPLAY {
            self.saved.display
        } else {
            self.display
        };
        if b.make_current(display, self.saved.draw, self.saved.read, self.saved.context) {
            Ok(())
        } else {
            Err(ContextError::ContextLost)
        }
    }
}

} // verus!
