//! The per-process context threaded through every callback.

use vstd::prelude::*;

use crate::input::InputContext;
use crate::input::ModifierState;
use crate::render::Globals;
use crate::render::RenderContext;
use crate::time::TimeContext;

verus! {

/// Everything the engine mutates over a run: render-side frame state,
/// input state, and the clock.  Constructed once at startup, passed by
/// reference into every callback, and never global.
#[derive(Debug)]
pub struct Context {
    pub render: RenderContext,
    pub input: InputContext,
    pub time: TimeContext,
}

impl Context {
    /// The parts with internal invariants are well formed.
    pub open spec fn wf(self) -> bool {
        self.render.wf() && self.time.wf()
    }

    /// The startup context: default globals, no pending shapes, nothing
    /// pressed, and the clock started at `now`.
    pub fn new(now: u64) -> (ctx: Context)
        ensures
            ctx.wf(),
            ctx.render.globals == Globals::spec_default(),
            ctx.render.shapes@.len() == 0,
            ctx.render.pending_records == 0,
            ctx.input.keyboard.pressed_set() == Set::<u32>::empty(),
            ctx.input.keyboard.previous_set() == Set::<u32>::empty(),
            ctx.input.keyboard.modifiers() == ModifierState::spec_none(),
            ctx.input.keyboard.previous_modifiers() == ModifierState::spec_none(),
            ctx.input.mouse.pressed_set() == Set::<u32>::empty(),
            ctx.input.mouse.previous_set() == Set::<u32>::empty(),
            ctx.time.start_time == now,
            ctx.time.current_time == now,
    {
        Context {
            render: RenderContext::new(),
            input: InputContext::new(),
            time: TimeContext::new(now),
        }
    }
}

/// The capability the application hands the engine: one-time setup and a
/// per-frame update.  The engine calls `update` once per frame with the
/// frame's delta time as an `f32` bit pattern; returning true ends the
/// run.
pub trait Callbacks {
    /// One-time setup, before the first frame.
    fn init(&mut self, ctx: &mut Context);

    /// Per-frame update; returns true to exit.
    fn update(&mut self, ctx: &mut Context, dt_bits: u32) -> bool;
}

} // verus!
