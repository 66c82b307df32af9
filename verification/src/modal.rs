//! The decision core of the prediction-onboarding dialog.
//!
//! The dialog's outward work — authenticating with the service, writing the
//! settings file, rendering — happens in the host application. What belongs
//! to the harness is the dialog's own state: how its sign-in status moves
//! as the user acts and as the host reports results.

use vstd::prelude::*;

use crate::preview::FocusHandle;

verus! {

/// The dialog's sign-in state.
#[derive(Clone, Copy, Debug, PartialEq, Eq, Structural)]
pub enum SignInStatus {
    /// Signed out, or signed in but not from this dialog.
    Idle,
    /// Authentication was started from this dialog and has not finished.
    Waiting,
    /// Signed in after authentication from this dialog.
    SignedIn,
}

/// The prediction-onboarding dialog: its focus handle and sign-in state.
pub struct ZedPredictModal {
    pub focus_handle: FocusHandle,
    pub sign_in_status: SignInStatus,
}

impl ZedPredictModal {
    /// A fresh dialog, idle.
    pub fn new(focus_handle: FocusHandle) -> (r: ZedPredictModal)
        ensures
            r.focus_handle == focus_handle,
            r.sign_in_status == SignInStatus::Idle,
    {
        ZedPredictModal { focus_handle, sign_in_status: SignInStatus::Idle }
    }

    /// The dialog's focus handle.
    pub fn focus_handle(&self) -> (r: FocusHandle)
        ensures
            r == self.focus_handle,
    {
        self.focus_handle
    }

    /// The user pressed sign-in: the dialog waits while the host
    /// authenticates.
    pub fn sign_in(&mut self)
        ensures
            *final(self) == (ZedPredictModal { sign_in_status: SignInStatus::Waiting, ..*old(self) }),
    {
        self.sign_in_status = SignInStatus::Waiting;
    }

    /// The host reports how authentication ended: signed in on success,
    /// back to idle on failure.
    pub fn sign_in_finished(&mut self, ok: bool)
        ensures
            *final(self) == (ZedPredictModal {
                sign_in_status: if ok {
                    SignInStatus::SignedIn
                } else {
                    SignInStatus::Idle
                },
                ..*old(self)
            }),
    {
        self.sign_in_status = if ok {
            SignInStatus::SignedIn
        } else {
            SignInStatus::Idle
        };
    }
}

} // verus!
