//! The scene capability the host event loop drives: start once, then
//! update, render and react to resizes each frame. Applications
//! implement it for their own scene types.

use vstd::prelude::*;
use crate::context::GameContext;

verus! {

/// What a scene's update asks of the driver afterwards.
pub enum SceneAction {
    Idle,
}

/// One screenful of behaviour, driven by the host loop: `start` once
/// when the scene becomes current, then `update` and `render` each
/// frame, with `resized` whenever the output surface changes.
pub trait Scene {
    fn start(&mut self, ctx: &mut GameContext);

    fn update(&mut self, ctx: &mut GameContext) -> SceneAction;

    fn render(&self, ctx: &GameContext);

    fn resized(&mut self, ctx: &mut GameContext);
}

} // verus!
