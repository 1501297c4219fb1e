//! Window and device event decisions.
//!
//! The OS event loop itself lives in the embedding layer; it translates
//! each platform event into a plain [`WindowEvent`] value and hands it to
//! [`handle_window_event`], which performs the state transition.  The
//! policy for presentation errors is [`surface_error_action`].

use vstd::prelude::*;

use crate::context::Context;
use crate::input::ModifierState;

verus! {

/// A window or device event, reduced to the plain values the state
/// transitions read.
///
/// Cursor positions and deltas are `f64` bit patterns.  A keyboard event
/// without a virtual key code never becomes a `KeyboardInput`; a
/// scale-factor change arrives as a `Resized` with the new inner size.
#[derive(Clone, Copy, Debug)]
pub enum WindowEvent {
    /// The user asked to close the window.
    CloseRequested,
    /// The presented surface changed size.
    Resized { width: u32, height: u32 },
    /// The cursor moved; `inside` says whether the new position lies
    /// within the current window bounds.
    CursorMoved { x: u64, y: u64, inside: bool },
    /// A mouse button went down (`pressed`) or up.
    MouseInput { pressed: bool, button: u32 },
    /// The cursor left the window.
    CursorLeft,
    /// The frame's accumulated scroll delta so far.
    MouseWheel { dx: u64, dy: u64 },
    /// A key with the given virtual key code went down (`pressed`) or up.
    KeyboardInput { pressed: bool, keycode: u32 },
    /// The modifier set changed; `state` replaces the current one wholesale.
    ModifiersChanged { state: ModifierState },
    /// The frame's accumulated raw mouse motion so far.
    MouseMotion { dx: u64, dy: u64 },
}

/// What to do about a failed surface presentation.
#[derive(Clone, Copy, Debug, PartialEq, Eq, Structural)]
pub enum SurfaceErrorKind {
    /// The frame took too long to present.
    Timeout,
    /// The surface no longer matches the window configuration.
    Outdated,
    /// The swapchain was lost.
    Lost,
    /// The device is out of memory.
    OutOfMemory,
}

/// The orchestrator's response to a presentation error.
#[derive(Clone, Copy, Debug, PartialEq, Eq, Structural)]
pub enum SurfaceErrorAction {
    /// Reconfigure the surface with the last known window size and retry
    /// next frame.
    Reconfigure,
    /// Unrecoverable: stop the frame loop.
    Exit,
    /// Transient: skip and retry next frame.
    Ignore,
}

/// Decides the response to a presentation error: a lost or outdated
/// surface is reconfigured and retried, memory exhaustion stops the loop,
/// and a timeout is skipped.
pub fn surface_error_action(err: SurfaceErrorKind) -> (a: SurfaceErrorAction)
    ensures
        a == (match err {
            SurfaceErrorKind::Lost => SurfaceErrorAction::Reconfigure,
            SurfaceErrorKind::Outdated => SurfaceErrorAction::Reconfigure,
            SurfaceErrorKind::OutOfMemory => SurfaceErrorAction::Exit,
            SurfaceErrorKind::Timeout => SurfaceErrorAction::Ignore,
        }),
{
    match err {
        SurfaceErrorKind::Lost => SurfaceErrorAction::Reconfigure,
        SurfaceErrorKind::Outdated => SurfaceErrorAction::Reconfigure,
        SurfaceErrorKind::OutOfMemory => SurfaceErrorAction::Exit,
        SurfaceErrorKind::Timeout => SurfaceErrorAction::Ignore,
    }
}

/// Applies one event to the context and says whether the loop should end.
///
/// Only a close request asks for an exit; every other event mutates
/// exactly the piece of state it concerns and leaves the rest alone.
pub fn handle_window_event(ctx: &mut Context, event: WindowEvent) -> (exit: bool)
    ensures
        exit == (event is CloseRequested),
        final(ctx).render.globals == old(ctx).render.globals,
        final(ctx).render.shapes@ == old(ctx).render.shapes@,
        final(ctx).render.pending_records == old(ctx).render.pending_records,
        final(ctx).render.resolution == old(ctx).render.resolution,
        final(ctx).time == old(ctx).time,
        match event {
            WindowEvent::CloseRequested => *final(ctx) == *old(ctx),
            WindowEvent::Resized { width, height } => {
                &&& (width > 0 && height > 0) ==> final(ctx).render.window_size
                    == (crate::render::Size2 { width, height })
                &&& !(width > 0 && height > 0) ==> final(ctx).render.window_size
                    == old(ctx).render.window_size
                &&& final(ctx).input == old(ctx).input
            },
            WindowEvent::CursorMoved { x, y, inside } => {
                &&& final(ctx).input.mouse.spec_pos() == (x, y)
                &&& final(ctx).input.mouse.spec_on_screen() == inside
                &&& final(ctx).input.mouse.pressed_set() == old(ctx).input.mouse.pressed_set()
                &&& final(ctx).input.mouse.previous_set() == old(ctx).input.mouse.previous_set()
                &&& final(ctx).input.mouse.spec_mouse_delta() == old(
                    ctx,
                ).input.mouse.spec_mouse_delta()
                &&& final(ctx).input.mouse.spec_scroll_delta() == old(
                    ctx,
                ).input.mouse.spec_scroll_delta()
                &&& final(ctx).input.keyboard == old(ctx).input.keyboard
                &&& final(ctx).render.window_size == old(ctx).render.window_size
            },
            WindowEvent::MouseInput { pressed, button } => {
                &&& final(ctx).input.mouse.pressed_set() == (if pressed {
                    old(ctx).input.mouse.pressed_set().insert(button)
                } else {
                    old(ctx).input.mouse.pressed_set().remove(button)
                })
                &&& final(ctx).input.mouse.previous_set() == old(ctx).input.mouse.previous_set()
                &&& final(ctx).input.mouse.spec_pos() == old(ctx).input.mouse.spec_pos()
                &&& final(ctx).input.mouse.spec_on_screen() == old(
                    ctx,
                ).input.mouse.spec_on_screen()
                &&& final(ctx).input.mouse.spec_mouse_delta() == old(
                    ctx,
                ).input.mouse.spec_mouse_delta()
                &&& final(ctx).input.mouse.spec_scroll_delta() == old(
                    ctx,
                ).input.mouse.spec_scroll_delta()
                &&& final(ctx).input.keyboard == old(ctx).input.keyboard
                &&& final(ctx).render.window_size == old(ctx).render.window_size
            },
            WindowEvent::CursorLeft => {
                &&& !final(ctx).input.mouse.spec_on_screen()
                &&& final(ctx).input.mouse.spec_pos() == old(ctx).input.mouse.spec_pos()
                &&& final(ctx).input.mouse.pressed_set() == old(ctx).input.mouse.pressed_set()
                &&& final(ctx).input.mouse.previous_set() == old(ctx).input.mouse.previous_set()
                &&& final(ctx).input.mouse.spec_mouse_delta() == old(
                    ctx,
                ).input.mouse.spec_mouse_delta()
                &&& final(ctx).input.mouse.spec_scroll_delta() == old(
                    ctx,
                ).input.mouse.spec_scroll_delta()
                &&& final(ctx).input.keyboard == old(ctx).input.keyboard
                &&& final(ctx).render.window_size == old(ctx).render.window_size
            },
            WindowEvent::MouseWheel { dx, dy } => {
                &&& final(ctx).input.mouse.spec_scroll_delta() == (dx, dy)
                &&& final(ctx).input.mouse.spec_mouse_delta() == old(
                    ctx,
                ).input.mouse.spec_mouse_delta()
                &&& final(ctx).input.mouse.spec_pos() == old(ctx).input.mouse.spec_pos()
                &&& final(ctx).input.mouse.spec_on_screen() == old(
                    ctx,
                ).input.mouse.spec_on_screen()
                &&& final(ctx).input.mouse.pressed_set() == old(ctx).input.mouse.pressed_set()
                &&& final(ctx).input.mouse.previous_set() == old(ctx).input.mouse.previous_set()
                &&& final(ctx).input.keyboard == old(ctx).input.keyboard
                &&& final(ctx).render.window_size == old(ctx).render.window_size
            },
            WindowEvent::KeyboardInput { pressed, keycode } => {
                &&& final(ctx).input.keyboard.pressed_set() == (if pressed {
                    old(ctx).input.keyboard.pressed_set().insert(keycode)
                } else {
                    old(ctx).input.keyboard.pressed_set().remove(keycode)
                })
                &&& final(ctx).input.keyboard.previous_set() == old(
                    ctx,
                ).input.keyboard.previous_set()
                &&& final(ctx).input.keyboard.modifiers() == old(ctx).input.keyboard.modifiers()
                &&& final(ctx).input.keyboard.previous_modifiers() == old(
                    ctx,
                ).input.keyboard.previous_modifiers()
                &&& final(ctx).input.mouse == old(ctx).input.mouse
                &&& final(ctx).render.window_size == old(ctx).render.window_size
            },
            WindowEvent::ModifiersChanged { state } => {
                &&& final(ctx).input.keyboard.modifiers() == state
                &&& final(ctx).input.keyboard.previous_modifiers() == old(
                    ctx,
                ).input.keyboard.previous_modifiers()
                &&& final(ctx).input.keyboard.pressed_set() == old(
                    ctx,
                ).input.keyboard.pressed_set()
                &&& final(ctx).input.keyboard.previous_set() == old(
                    ctx,
                ).input.keyboard.previous_set()
                &&& final(ctx).input.mouse == old(ctx).input.mouse
                &&& final(ctx).render.window_size == old(ctx).render.window_size
            },
            WindowEvent::MouseMotion { dx, dy } => {
                &&& final(ctx).input.mouse.spec_mouse_delta() == (dx, dy)
                &&& final(ctx).input.mouse.spec_scroll_delta() == old(
                    ctx,
                ).input.mouse.spec_scroll_delta()
                &&& final(ctx).input.mouse.spec_pos() == old(ctx).input.mouse.spec_pos()
                &&& final(ctx).input.mouse.spec_on_screen() == old(
                    ctx,
                ).input.mouse.spec_on_screen()
                &&& final(ctx).input.mouse.pressed_set() == old(ctx).input.mouse.pressed_set()
                &&& final(ctx).input.mouse.previous_set() == old(ctx).input.mouse.previous_set()
                &&& final(ctx).input.keyboard == old(ctx).input.keyboard
                &&& final(ctx).render.window_size == old(ctx).render.window_size
            },
        },
{
    match event {
        WindowEvent::CloseRequested => true,
        WindowEvent::Resized { width, height } => {
            ctx.render.resize_window(width, height);
            false
        },
        WindowEvent::CursorMoved { x, y, inside } => {
            ctx.input.mouse.set_pos(x, y, inside);
            false
        },
        WindowEvent::MouseInput { pressed, button } => {
            if pressed {
                ctx.input.mouse.press_button(button);
            } else {
                ctx.input.mouse.release_button(button);
            }
            false
        },
        WindowEvent::CursorLeft => {
            ctx.input.mouse.set_on_screen(false);
            false
        },
        WindowEvent::MouseWheel { dx, dy } => {
            ctx.input.mouse.set_scroll_delta((dx, dy));
            false
        },
        WindowEvent::KeyboardInput { pressed, keycode } => {
            if pressed {
                ctx.input.keyboard.set_key(keycode);
            } else {
                ctx.input.keyboard.release_key(keycode);
            }
            false
        },
        WindowEvent::ModifiersChanged { state } => {
            ctx.input.keyboard.modifiers_changed(state);
            false
        },
        WindowEvent::MouseMotion { dx, dy } => {
            ctx.input.mouse.set_mouse_delta((dx, dy));
            false
        },
    }
}

} // verus!
