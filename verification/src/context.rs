//! Per-frame execution context handed through update and render: the
//! resource vault, the window size, and the frame clock. The host event
//! loop owns one and refreshes its timing fields each frame.

use vstd::prelude::*;
use crate::fx::Fx;
use crate::vault::Vault;
use crate::vec2::VecI2;

verus! {

/// What every widget sees during a frame: the vault, the current window
/// size and the frame clock in seconds of fixed-point time.
pub struct GameContext {
    pub vault: Vault,
    pub window_size: VecI2,
    pub time: Fx,
    pub delta_time: Fx,
}

impl GameContext {
    pub fn new(vault: Vault, window_size: VecI2) -> (r: GameContext)
        ensures
            r.vault == vault,
            r.window_size == window_size,
            r.time.v() == 0,
            r.delta_time.v() == 0,
    {
        GameContext { vault, window_size, time: Fx::zero(), delta_time: Fx::zero() }
    }

    pub fn get_window_size(&self) -> (r: VecI2)
        ensures
            r == self.window_size,
    {
        self.window_size
    }

    pub fn set_window_size(&mut self, size: VecI2)
        ensures
            *final(self) == (GameContext { window_size: size, ..*old(self) }),
    {
        self.window_size = size;
    }

    pub fn get_vault(&self) -> (r: &Vault)
        ensures
            *r == self.vault,
    {
        &self.vault
    }

    pub fn get_vault_mut(&mut self) -> (r: &mut Vault)
        ensures
            *r == old(self).vault,
            *final(self) == (GameContext { vault: *final(r), ..*old(self) }),
    {
        &mut self.vault
    }

    pub fn get_delta_time(&self) -> (r: Fx)
        ensures
            r == self.delta_time,
    {
        self.delta_time
    }

    pub fn get_time(&self) -> (r: Fx)
        ensures
            r == self.time,
    {
        self.time
    }

    /// Advance the frame clock by one frame of `delta` seconds.
    pub fn advance_time(&mut self, delta: Fx)
        ensures
            final(self).delta_time == delta,
            final(self).time.v() == crate::fx::fx_add_raw(old(self).time.v(), delta.v()),
            final(self).vault == old(self).vault,
            final(self).window_size == old(self).window_size,
    {
        self.delta_time = delta;
        self.time = self.time.add(delta);
    }
}

} // verus!
