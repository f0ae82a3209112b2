//! The maintenance flag.

use vstd::prelude::*;

verus! {

/// The flag that says whether maintenance mode is on.
///
/// The value is the flag itself: whoever holds it exclusively may toggle it,
/// whoever holds it shared may read it. To toggle it from one place while
/// requests are served in another, the host keeps one `MaintenanceState`
/// behind a lock and hands out handles to that lock. The type is deliberately
/// not `Clone`: a copy would be a second, independent flag.
pub struct MaintenanceState {
    pub enabled: bool,
}

impl View for MaintenanceState {
    type V = bool;

    /// `true` exactly when maintenance mode is on.
    open spec fn view(&self) -> bool {
        self.enabled
    }
}

impl MaintenanceState {
    /// The flag as it is created: off.
    pub open spec fn spec_new() -> Self {
        MaintenanceState { enabled: false }
    }

    /// The flag after `enable`, whatever it was before.
    pub open spec fn spec_enable(self) -> Self {
        MaintenanceState { enabled: true }
    }

    /// The flag after `disable`, whatever it was before.
    pub open spec fn spec_disable(self) -> Self {
        MaintenanceState { enabled: false }
    }

    /// Creates a new `MaintenanceState`, with maintenance mode off.
    pub fn new() -> (state: Self)
        ensures
            state == Self::spec_new(),
            !state@,
    {
        MaintenanceState { enabled: false }
    }

    /// Enables maintenance mode.
    /// While it is enabled, requests are answered with the maintenance
    /// response instead of reaching the wrapped handler.
    pub fn enable(&mut self)
        ensures
            *final(self) == old(self).spec_enable(),
            final(self)@,
    {
        self.enabled = true;
    }

    /// Disables maintenance mode.
    /// Requests are handled normally again.
    pub fn disable(&mut self)
        ensures
            *final(self) == old(self).spec_disable(),
            !final(self)@,
    {
        self.enabled = false;
    }

    /// Returns whether maintenance mode is on.
    pub fn status(&self) -> (enabled: bool)
        ensures
            enabled == self@,
    {
        self.enabled
    }
}

/// Enabling is idempotent: a second `enable` changes nothing, and the flag
/// is on after it.
pub proof fn lemma_enable_idempotent(state: MaintenanceState)
    ensures
        state.spec_enable().spec_enable() == state.spec_enable(),
        state.spec_enable().spec_enable()@,
{
}

/// Disabling is idempotent: a second `disable` changes nothing, and the flag
/// is off after it.
pub proof fn lemma_disable_idempotent(state: MaintenanceState)
    ensures
        state.spec_disable().spec_disable() == state.spec_disable(),
        !state.spec_disable().spec_disable()@,
{
}

/// A toggle is seen by the next read: the flag reads on after `enable` and
/// off after `disable`, whatever it read before.
pub proof fn lemma_toggle_is_visible(state: MaintenanceState)
    ensures
        state.spec_enable()@,
        !state.spec_disable()@,
{
}

impl Default for MaintenanceState {
    /// Same as [`MaintenanceState::new`].
    fn default() -> (state: Self)
        ensures
            state == Self::spec_new(),
    {
        MaintenanceState::new()
    }
}

} // verus!
