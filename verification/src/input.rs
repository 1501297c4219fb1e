//! Per-frame input state with edge detection.
//!
//! Keyboard keys and mouse buttons are tracked as membership sets of plain
//! codes (a key's virtual key code, a button's decoded index).  Edge
//! predicates are derived, never stored: `just pressed` and `released`
//! compare the current set against a snapshot of the previous frame's set.
//! Exactly once per frame boundary the embedding layer calls
//! [`InputContext::snapshot`], which copies every current set into its
//! previous-frame counterpart and zeroes the motion and scroll
//! accumulators.
//!
//! Mouse positions and deltas are carried as raw `f64` bit patterns; they
//! are stored and handed back, never computed with.

use vstd::prelude::*;

verus! {

/// Bit pattern of `0.0f64`, the reset value of the mouse accumulators.
pub const F64_ZERO: u64 = 0;

/// A membership set of input codes, backed by a vector.
///
/// The view is the set of codes present; how often a code occurs in the
/// backing vector is not observable.
#[derive(Debug)]
pub struct KeySet {
    codes: Vec<u32>,
}

impl View for KeySet {
    type V = Set<u32>;

    closed spec fn view(&self) -> Set<u32> {
        Set::new(|k: u32| self.codes@.contains(k))
    }
}

/// Membership in a pushed sequence: the new element, or anything already
/// present.
proof fn lemma_push_contains(s: Seq<u32>, v: u32, x: u32)
    ensures
        s.push(v).contains(x) <==> (s.contains(x) || x == v),
{
    if s.push(v).contains(x) {
        let i = choose|i: int| 0 <= i < s.push(v).len() && s.push(v)[i] == x;
        if i < s.len() {
            assert(s[i] == x);
        }
    }
    if s.contains(x) {
        let i = choose|i: int| 0 <= i < s.len() && s[i] == x;
        assert(s.push(v)[i] == x);
    }
    if x == v {
        assert(s.push(v)[s.len() as int] == x);
    }
}

impl KeySet {
    /// The empty set.
    pub fn new() -> (s: KeySet)
        ensures
            s@ == Set::<u32>::empty(),
    {
        let s = KeySet { codes: Vec::new() };
        proof {
            assert(s@ =~= Set::<u32>::empty());
        }
        s
    }

    /// Membership test.
    pub fn contains(&self, code: u32) -> (r: bool)
        ensures
            r == self@.contains(code),
    {
        let mut i: usize = 0;
        while i < self.codes.len()
            invariant
                i <= self.codes.len(),
                forall|j: int| 0 <= j < i ==> self.codes@[j] != code,
            decreases self.codes.len() - i,
        {
            if self.codes[i] == code {
                return true;
            }
            i = i + 1;
        }
        proof {
            assert(!self.codes@.contains(code)) by {
                if self.codes@.contains(code) {
                    let j = choose|j: int|
                        0 <= j < self.codes@.len() && self.codes@[j] == code;
                    assert(self.codes@[j] != code);
                }
            }
        }
        false
    }

    /// Adds a code; adding one already present changes nothing.
    pub fn insert(&mut self, code: u32)
        ensures
            final(self)@ == old(self)@.insert(code),
    {
        if !self.contains(code) {
            self.codes.push(code);
            proof {
                assert forall|x: u32| self@.contains(x) == old(self)@.insert(code).contains(
                    x,
                ) by {
                    lemma_push_contains(old(self).codes@, code, x);
                }
                assert(self@ =~= old(self)@.insert(code));
            }
        } else {
            proof {
                assert(self@ =~= old(self)@.insert(code));
            }
        }
    }

    /// Removes a code; removing one not present changes nothing.
    pub fn remove(&mut self, code: u32)
        ensures
            final(self)@ == old(self)@.remove(code),
    {
        let mut kept: Vec<u32> = Vec::new();
        let mut i: usize = 0;
        while i < self.codes.len()
            invariant
                i <= self.codes.len(),
                self.codes@ == old(self).codes@,
                forall|x: u32| #[trigger] kept@.contains(x) <==> (self.codes@.take(
                    i as int,
                ).contains(x) && x != code),
            decreases self.codes.len() - i,
        {
            let c = self.codes[i];
            let ghost kept_before = kept@;
            if c != code {
                kept.push(c);
            }
            proof {
                assert(self.codes@.take(i + 1) =~= self.codes@.take(i as int).push(c));
                assert forall|x: u32| #[trigger] kept@.contains(x) <==> (self.codes@.take(
                    i + 1,
                ).contains(x) && x != code) by {
                    lemma_push_contains(self.codes@.take(i as int), c, x);
                    if c != code {
                        lemma_push_contains(kept_before, c, x);
                    }
                }
            }
            i = i + 1;
        }
        proof {
            assert(self.codes@.take(self.codes@.len() as int) =~= self.codes@);
        }
        self.codes = kept;
        proof {
            assert(self@ =~= old(self)@.remove(code));
        }
    }

    /// A copy with the same membership, for the per-frame snapshot.
    pub fn duplicate(&self) -> (s: KeySet)
        ensures
            s@ == self@,
    {
        let mut codes: Vec<u32> = Vec::new();
        let mut i: usize = 0;
        while i < self.codes.len()
            invariant
                i <= self.codes.len(),
                codes@ == self.codes@.take(i as int),
            decreases self.codes.len() - i,
        {
            codes.push(self.codes[i]);
            proof {
                assert(self.codes@.take(i + 1) =~= self.codes@.take(i as int).push(
                    self.codes@[i as int],
                ));
            }
            i = i + 1;
        }
        proof {
            assert(self.codes@.take(self.codes@.len() as int) =~= self.codes@);
        }
        let s = KeySet { codes };
        proof {
            assert(s@ =~= self@);
        }
        s
    }
}

/// One of the four tracked modifier keys.
#[derive(Debug, Hash, Ord, PartialOrd, PartialEq, Eq, Clone, Copy, Structural)]
pub enum KeyModifier {
    Shift,
    Ctrl,
    Alt,
    Logo,
}

/// A wholesale modifier state, as delivered by a modifiers-changed event.
///
/// The event source decodes its platform bitmask into these four flags;
/// each event replaces the previous state entirely.
#[derive(Clone, Copy, Debug, PartialEq, Eq, Structural)]
pub struct ModifierState {
    pub shift: bool,
    pub ctrl: bool,
    pub alt: bool,
    pub logo: bool,
}

impl ModifierState {
    /// Whether the given modifier is down in this state.
    pub open spec fn spec_contains(self, m: KeyModifier) -> bool {
        match m {
            KeyModifier::Shift => self.shift,
            KeyModifier::Ctrl => self.ctrl,
            KeyModifier::Alt => self.alt,
            KeyModifier::Logo => self.logo,
        }
    }

    /// The state with no modifier down.
    pub open spec fn spec_none() -> ModifierState {
        ModifierState { shift: false, ctrl: false, alt: false, logo: false }
    }

    /// Builds a state from the four flags.
    pub fn new(shift: bool, ctrl: bool, alt: bool, logo: bool) -> (s: ModifierState)
        ensures
            s == (ModifierState { shift, ctrl, alt, logo }),
    {
        ModifierState { shift, ctrl, alt, logo }
    }

    /// The state with no modifier down.
    pub fn none() -> (s: ModifierState)
        ensures
            s == ModifierState::spec_none(),
    {
        ModifierState { shift: false, ctrl: false, alt: false, logo: false }
    }

    /// Membership test.
    pub fn contains(&self, m: KeyModifier) -> (r: bool)
        ensures
            r == self.spec_contains(m),
    {
        match m {
            KeyModifier::Shift => self.shift,
            KeyModifier::Ctrl => self.ctrl,
            KeyModifier::Alt => self.alt,
            KeyModifier::Logo => self.logo,
        }
    }
}

/// Keyboard state: the current and previous-frame pressed sets for keys,
/// and the current and previous-frame modifier states.
#[derive(Debug)]
pub struct KeyboardContext {
    pressed: KeySet,
    previous_pressed: KeySet,
    pressed_modifiers: ModifierState,
    previous_pressed_modifiers: ModifierState,
}

impl KeyboardContext {
    /// The keys down right now.
    pub closed spec fn pressed_set(self) -> Set<u32> {
        self.pressed@
    }

    /// The keys down at the last frame boundary.
    pub closed spec fn previous_set(self) -> Set<u32> {
        self.previous_pressed@
    }

    /// The modifiers down right now.
    pub closed spec fn modifiers(self) -> ModifierState {
        self.pressed_modifiers
    }

    /// The modifiers down at the last frame boundary.
    pub closed spec fn previous_modifiers(self) -> ModifierState {
        self.previous_pressed_modifiers
    }

    /// The key is down.
    pub open spec fn spec_key_pressed(self, keycode: u32) -> bool {
        self.pressed_set().contains(keycode)
    }

    /// The key is down and was not down at the last frame boundary.
    pub open spec fn spec_key_just_pressed(self, keycode: u32) -> bool {
        self.pressed_set().contains(keycode) && !self.previous_set().contains(keycode)
    }

    /// The key is up and was down at the last frame boundary.
    pub open spec fn spec_key_released(self, keycode: u32) -> bool {
        !self.pressed_set().contains(keycode) && self.previous_set().contains(keycode)
    }

    /// The modifier is down.
    pub open spec fn spec_modifier_pressed(self, m: KeyModifier) -> bool {
        self.modifiers().spec_contains(m)
    }

    /// The modifier is down and was not down at the last frame boundary.
    pub open spec fn spec_modifier_just_pressed(self, m: KeyModifier) -> bool {
        self.modifiers().spec_contains(m) && !self.previous_modifiers().spec_contains(m)
    }

    /// The modifier is up and was down at the last frame boundary.
    pub open spec fn spec_modifier_released(self, m: KeyModifier) -> bool {
        !self.modifiers().spec_contains(m) && self.previous_modifiers().spec_contains(m)
    }

    /// A context with nothing pressed and no history.
    pub fn new() -> (kc: KeyboardContext)
        ensures
            kc.pressed_set() == Set::<u32>::empty(),
            kc.previous_set() == Set::<u32>::empty(),
            kc.modifiers() == ModifierState::spec_none(),
            kc.previous_modifiers() == ModifierState::spec_none(),
    {
        KeyboardContext {
            pressed: KeySet::new(),
            previous_pressed: KeySet::new(),
            pressed_modifiers: ModifierState::none(),
            previous_pressed_modifiers: ModifierState::none(),
        }
    }

    /// Returns true if the key is down.  Accepts repeating.
    pub fn key_pressed(&self, keycode: u32) -> (r: bool)
        ensures
            r == self.spec_key_pressed(keycode),
    {
        self.pressed.contains(keycode)
    }

    /// Returns true if the key was pressed this frame.  Does not accept
    /// repeating.
    pub fn key_just_pressed(&self, keycode: u32) -> (r: bool)
        ensures
            r == self.spec_key_just_pressed(keycode),
    {
        self.pressed.contains(keycode) && !self.previous_pressed.contains(keycode)
    }

    /// Returns true if the key was released this frame.
    pub fn key_released(&self, keycode: u32) -> (r: bool)
        ensures
            r == self.spec_key_released(keycode),
    {
        !self.pressed.contains(keycode) && self.previous_pressed.contains(keycode)
    }

    /// Returns true if the modifier is down.
    pub fn modifier_pressed(&self, modifier: KeyModifier) -> (r: bool)
        ensures
            r == self.spec_modifier_pressed(modifier),
    {
        self.pressed_modifiers.contains(modifier)
    }

    /// Returns true if the modifier was pressed this frame.
    pub fn modifier_just_pressed(&self, modifier: KeyModifier) -> (r: bool)
        ensures
            r == self.spec_modifier_just_pressed(modifier),
    {
        self.pressed_modifiers.contains(modifier) && !self.previous_pressed_modifiers.contains(
            modifier,
        )
    }

    /// Returns true if the modifier was released this frame.
    pub fn modifier_released(&self, modifier: KeyModifier) -> (r: bool)
        ensures
            r == self.spec_modifier_released(modifier),
    {
        !self.pressed_modifiers.contains(modifier) && self.previous_pressed_modifiers.contains(
            modifier,
        )
    }

    /// Marks a key as down; the event source may repeat this at any point
    /// within a frame.
    pub fn set_key(&mut self, keycode: u32)
        ensures
            final(self).pressed_set() == old(self).pressed_set().insert(keycode),
            final(self).previous_set() == old(self).previous_set(),
            final(self).modifiers() == old(self).modifiers(),
            final(self).previous_modifiers() == old(self).previous_modifiers(),
    {
        self.pressed.insert(keycode);
    }

    /// Marks a key as up.
    pub fn release_key(&mut self, keycode: u32)
        ensures
            final(self).pressed_set() == old(self).pressed_set().remove(keycode),
            final(self).previous_set() == old(self).previous_set(),
            final(self).modifiers() == old(self).modifiers(),
            final(self).previous_modifiers() == old(self).previous_modifiers(),
    {
        self.pressed.remove(keycode);
    }

    /// Replaces the current modifier state wholesale with the state
    /// decoded from a modifiers-changed event.
    pub fn modifiers_changed(&mut self, state: ModifierState)
        ensures
            final(self).modifiers() == state,
            final(self).previous_modifiers() == old(self).previous_modifiers(),
            final(self).pressed_set() == old(self).pressed_set(),
            final(self).previous_set() == old(self).previous_set(),
    {
        self.pressed_modifiers = state;
    }

    /// Copies the current key set into the previous-frame snapshot.
    /// Called exactly once per frame boundary.
    pub fn save_keys(&mut self)
        ensures
            final(self).previous_set() == old(self).pressed_set(),
            final(self).pressed_set() == old(self).pressed_set(),
            final(self).modifiers() == old(self).modifiers(),
            final(self).previous_modifiers() == old(self).previous_modifiers(),
    {
        self.previous_pressed = self.pressed.duplicate();
    }

    /// Copies the current modifier state into the previous-frame snapshot.
    /// Called exactly once per frame boundary.
    pub fn save_modifiers(&mut self)
        ensures
            final(self).previous_modifiers() == old(self).modifiers(),
            final(self).modifiers() == old(self).modifiers(),
            final(self).pressed_set() == old(self).pressed_set(),
            final(self).previous_set() == old(self).previous_set(),
    {
        self.previous_pressed_modifiers = self.pressed_modifiers;
    }
}

/// Mouse state: the current and previous-frame pressed sets for buttons,
/// the cursor position, the frame's accumulated motion and scroll deltas,
/// and whether the cursor is over the window.
///
/// Positions and deltas are `f64` bit patterns supplied by the event
/// source; the deltas are zeroed at each frame boundary so they cover one
/// frame only.
#[derive(Debug)]
pub struct MouseContext {
    on_screen: bool,
    pos_x: u64,
    pos_y: u64,
    delta_x: u64,
    delta_y: u64,
    pressed: KeySet,
    previous_pressed: KeySet,
    scroll_x: u64,
    scroll_y: u64,
}

impl MouseContext {
    /// The buttons down right now.
    pub closed spec fn pressed_set(self) -> Set<u32> {
        self.pressed@
    }

    /// The buttons down at the last frame boundary.
    pub closed spec fn previous_set(self) -> Set<u32> {
        self.previous_pressed@
    }

    /// The cursor position as a pair of `f64` bit patterns.
    pub closed spec fn spec_pos(self) -> (u64, u64) {
        (self.pos_x, self.pos_y)
    }

    /// The frame's motion delta as a pair of `f64` bit patterns.
    pub closed spec fn spec_mouse_delta(self) -> (u64, u64) {
        (self.delta_x, self.delta_y)
    }

    /// The frame's scroll delta as a pair of `f64` bit patterns.
    pub closed spec fn spec_scroll_delta(self) -> (u64, u64) {
        (self.scroll_x, self.scroll_y)
    }

    /// Whether the cursor is over the window.
    pub closed spec fn spec_on_screen(self) -> bool {
        self.on_screen
    }

    /// The button is down.
    pub open spec fn spec_button_pressed(self, button: u32) -> bool {
        self.pressed_set().contains(button)
    }

    /// The button is down and was not down at the last frame boundary.
    pub open spec fn spec_button_just_pressed(self, button: u32) -> bool {
        self.pressed_set().contains(button) && !self.previous_set().contains(button)
    }

    /// The button is up and was down at the last frame boundary.
    pub open spec fn spec_button_released(self, button: u32) -> bool {
        !self.pressed_set().contains(button) && self.previous_set().contains(button)
    }

    /// A context with nothing pressed, the cursor off screen at the
    /// origin, and zeroed accumulators.
    pub fn new() -> (mc: MouseContext)
        ensures
            mc.pressed_set() == Set::<u32>::empty(),
            mc.previous_set() == Set::<u32>::empty(),
            !mc.spec_on_screen(),
            mc.spec_pos() == (F64_ZERO, F64_ZERO),
            mc.spec_mouse_delta() == (F64_ZERO, F64_ZERO),
            mc.spec_scroll_delta() == (F64_ZERO, F64_ZERO),
    {
        MouseContext {
            on_screen: false,
            pos_x: F64_ZERO,
            pos_y: F64_ZERO,
            delta_x: F64_ZERO,
            delta_y: F64_ZERO,
            pressed: KeySet::new(),
            previous_pressed: KeySet::new(),
            scroll_x: F64_ZERO,
            scroll_y: F64_ZERO,
        }
    }

    /// Returns true if the button is down.  Accepts repeating.
    pub fn button_pressed(&self, button: u32) -> (r: bool)
        ensures
            r == self.spec_button_pressed(button),
    {
        self.pressed.contains(button)
    }

    /// Returns true if the button was pressed this frame.  Does not accept
    /// repeating.
    pub fn button_just_pressed(&self, button: u32) -> (r: bool)
        ensures
            r == self.spec_button_just_pressed(button),
    {
        self.pressed.contains(button) && !self.previous_pressed.contains(button)
    }

    /// Returns true if the button was released this frame.
    pub fn button_released(&self, button: u32) -> (r: bool)
        ensures
            r == self.spec_button_released(button),
    {
        !self.pressed.contains(button) && self.previous_pressed.contains(button)
    }

    /// Returns whether the cursor is over the window.
    pub fn on_screen(&self) -> (r: bool)
        ensures
            r == self.spec_on_screen(),
    {
        self.on_screen
    }

    /// Returns the cursor position as `f64` bit patterns.
    pub fn mouse_pos_physical(&self) -> (r: (u64, u64))
        ensures
            r == self.spec_pos(),
    {
        (self.pos_x, self.pos_y)
    }

    /// Returns the frame's motion delta as `f64` bit patterns.
    pub fn mouse_delta(&self) -> (r: (u64, u64))
        ensures
            r == self.spec_mouse_delta(),
    {
        (self.delta_x, self.delta_y)
    }

    /// Returns the frame's scroll delta as `f64` bit patterns.
    pub fn scroll_delta(&self) -> (r: (u64, u64))
        ensures
            r == self.spec_scroll_delta(),
    {
        (self.scroll_x, self.scroll_y)
    }

    /// Forces the on-screen flag; the event source calls this with `false`
    /// on a cursor-left event, since a drag can hold the pointer captured
    /// past the window edge without one.
    pub fn set_on_screen(&mut self, on_screen: bool)
        ensures
            final(self).spec_on_screen() == on_screen,
            final(self).spec_pos() == old(self).spec_pos(),
            final(self).spec_mouse_delta() == old(self).spec_mouse_delta(),
            final(self).spec_scroll_delta() == old(self).spec_scroll_delta(),
            final(self).pressed_set() == old(self).pressed_set(),
            final(self).previous_set() == old(self).previous_set(),
    {
        self.on_screen = on_screen;
    }

    /// Records a cursor position from a cursor-moved event.
    ///
    /// `inside` says whether the position lies within the current window
    /// bounds; the event source computes it, and it becomes the on-screen
    /// flag (a held button can drag the position past the bounds with no
    /// cursor-left event, so it is recomputed on every move).
    pub fn set_pos(&mut self, x: u64, y: u64, inside: bool)
        ensures
            final(self).spec_pos() == (x, y),
            final(self).spec_on_screen() == inside,
            final(self).spec_mouse_delta() == old(self).spec_mouse_delta(),
            final(self).spec_scroll_delta() == old(self).spec_scroll_delta(),
            final(self).pressed_set() == old(self).pressed_set(),
            final(self).previous_set() == old(self).previous_set(),
    {
        self.pos_x = x;
        self.pos_y = y;
        self.on_screen = inside;
    }

    /// Records the frame's motion delta so far, as `f64` bit patterns.
    pub fn set_mouse_delta(&mut self, change: (u64, u64))
        ensures
            final(self).spec_mouse_delta() == change,
            final(self).spec_pos() == old(self).spec_pos(),
            final(self).spec_on_screen() == old(self).spec_on_screen(),
            final(self).spec_scroll_delta() == old(self).spec_scroll_delta(),
            final(self).pressed_set() == old(self).pressed_set(),
            final(self).previous_set() == old(self).previous_set(),
    {
        self.delta_x = change.0;
        self.delta_y = change.1;
    }

    /// Records the frame's scroll delta so far, as `f64` bit patterns.
    pub fn set_scroll_delta(&mut self, change: (u64, u64))
        ensures
            final(self).spec_scroll_delta() == change,
            final(self).spec_pos() == old(self).spec_pos(),
            final(self).spec_on_screen() == old(self).spec_on_screen(),
            final(self).spec_mouse_delta() == old(self).spec_mouse_delta(),
            final(self).pressed_set() == old(self).pressed_set(),
            final(self).previous_set() == old(self).previous_set(),
    {
        self.scroll_x = change.0;
        self.scroll_y = change.1;
    }

    /// Marks a button as down.
    pub fn press_button(&mut self, button: u32)
        ensures
            final(self).pressed_set() == old(self).pressed_set().insert(button),
            final(self).previous_set() == old(self).previous_set(),
            final(self).spec_pos() == old(self).spec_pos(),
            final(self).spec_on_screen() == old(self).spec_on_screen(),
            final(self).spec_mouse_delta() == old(self).spec_mouse_delta(),
            final(self).spec_scroll_delta() == old(self).spec_scroll_delta(),
    {
        self.pressed.insert(button);
    }

    /// Marks a button as up.
    pub fn release_button(&mut self, button: u32)
        ensures
            final(self).pressed_set() == old(self).pressed_set().remove(button),
            final(self).previous_set() == old(self).previous_set(),
            final(self).spec_pos() == old(self).spec_pos(),
            final(self).spec_on_screen() == old(self).spec_on_screen(),
            final(self).spec_mouse_delta() == old(self).spec_mouse_delta(),
            final(self).spec_scroll_delta() == old(self).spec_scroll_delta(),
    {
        self.pressed.remove(button);
    }

    /// Copies the current button set into the previous-frame snapshot.
    /// Called exactly once per frame boundary.
    pub fn save_buttons(&mut self)
        ensures
            final(self).previous_set() == old(self).pressed_set(),
            final(self).pressed_set() == old(self).pressed_set(),
            final(self).spec_pos() == old(self).spec_pos(),
            final(self).spec_on_screen() == old(self).spec_on_screen(),
            final(self).spec_mouse_delta() == old(self).spec_mouse_delta(),
            final(self).spec_scroll_delta() == old(self).spec_scroll_delta(),
    {
        self.previous_pressed = self.pressed.duplicate();
    }

    /// Zeroes the motion and scroll accumulators.  Called exactly once per
    /// frame boundary, after the frame's logic has read them; skipping it
    /// would double-apply the deltas on the next frame.
    pub fn reset_deltas(&mut self)
        ensures
            final(self).spec_mouse_delta() == (F64_ZERO, F64_ZERO),
            final(self).spec_scroll_delta() == (F64_ZERO, F64_ZERO),
            final(self).spec_pos() == old(self).spec_pos(),
            final(self).spec_on_screen() == old(self).spec_on_screen(),
            final(self).pressed_set() == old(self).pressed_set(),
            final(self).previous_set() == old(self).previous_set(),
    {
        self.delta_x = F64_ZERO;
        self.delta_y = F64_ZERO;
        self.scroll_x = F64_ZERO;
        self.scroll_y = F64_ZERO;
    }
}

/// The keyboard and mouse state together.
#[derive(Debug)]
pub struct InputContext {
    pub keyboard: KeyboardContext,
    pub mouse: MouseContext,
}

impl InputContext {
    /// A context with nothing pressed and no history.
    pub fn new() -> (ic: InputContext)
        ensures
            ic.keyboard.pressed_set() == Set::<u32>::empty(),
            ic.keyboard.previous_set() == Set::<u32>::empty(),
            ic.keyboard.modifiers() == ModifierState::spec_none(),
            ic.keyboard.previous_modifiers() == ModifierState::spec_none(),
            ic.mouse.pressed_set() == Set::<u32>::empty(),
            ic.mouse.previous_set() == Set::<u32>::empty(),
            !ic.mouse.spec_on_screen(),
            ic.mouse.spec_pos() == (F64_ZERO, F64_ZERO),
            ic.mouse.spec_mouse_delta() == (F64_ZERO, F64_ZERO),
            ic.mouse.spec_scroll_delta() == (F64_ZERO, F64_ZERO),
    {
        InputContext { keyboard: KeyboardContext::new(), mouse: MouseContext::new() }
    }

    /// The once-per-frame boundary step: copies every current set into its
    /// previous-frame snapshot and zeroes the mouse accumulators.
    ///
    /// It must run after the frame's edge-detection queries and delta
    /// reads, and before the next frame's events arrive.  Skipping it
    /// leaves `just pressed` and `released` reflecting stale history;
    /// running it twice collapses two frames' edges into one.
    pub fn snapshot(&mut self)
        ensures
            final(self).keyboard.previous_set() == old(self).keyboard.pressed_set(),
            final(self).keyboard.pressed_set() == old(self).keyboard.pressed_set(),
            final(self).keyboard.previous_modifiers() == old(self).keyboard.modifiers(),
            final(self).keyboard.modifiers() == old(self).keyboard.modifiers(),
            final(self).mouse.previous_set() == old(self).mouse.pressed_set(),
            final(self).mouse.pressed_set() == old(self).mouse.pressed_set(),
            final(self).mouse.spec_mouse_delta() == (F64_ZERO, F64_ZERO),
            final(self).mouse.spec_scroll_delta() == (F64_ZERO, F64_ZERO),
            final(self).mouse.spec_pos() == old(self).mouse.spec_pos(),
            final(self).mouse.spec_on_screen() == old(self).mouse.spec_on_screen(),
    {
        self.keyboard.save_keys();
        self.keyboard.save_modifiers();
        self.mouse.save_buttons();
        self.mouse.reset_deltas();
    }
}

impl Default for KeyboardContext {
    /// The same state as [`KeyboardContext::new`]: nothing pressed, no
    /// history.
    fn default() -> (kc: KeyboardContext)
        ensures
            kc.pressed_set() == Set::<u32>::empty(),
            kc.previous_set() == Set::<u32>::empty(),
            kc.modifiers() == ModifierState::spec_none(),
            kc.previous_modifiers() == ModifierState::spec_none(),
    {
        KeyboardContext::new()
    }
}

impl Default for MouseContext {
    /// The same state as [`MouseContext::new`]: nothing pressed, cursor
    /// off screen, zeroed accumulators.
    fn default() -> (mc: MouseContext)
        ensures
            mc.pressed_set() == Set::<u32>::empty(),
            mc.previous_set() == Set::<u32>::empty(),
            !mc.spec_on_screen(),
            mc.spec_pos() == (F64_ZERO, F64_ZERO),
            mc.spec_mouse_delta() == (F64_ZERO, F64_ZERO),
            mc.spec_scroll_delta() == (F64_ZERO, F64_ZERO),
    {
        MouseContext::new()
    }
}

impl Default for InputContext {
    /// The same state as [`InputContext::new`].
    fn default() -> (ic: InputContext)
        ensures
            ic.keyboard.pressed_set() == Set::<u32>::empty(),
            ic.keyboard.previous_set() == Set::<u32>::empty(),
            ic.keyboard.modifiers() == ModifierState::spec_none(),
            ic.keyboard.previous_modifiers() == ModifierState::spec_none(),
            ic.mouse.pressed_set() == Set::<u32>::empty(),
            ic.mouse.previous_set() == Set::<u32>::empty(),
    {
        InputContext::new()
    }
}

/// A key event makes the key read as pressed, as just-pressed exactly when
/// the key was not down at the last frame boundary, and never as released.
pub proof fn lemma_set_key_edges(before: KeyboardContext, after: KeyboardContext, k: u32)
    requires
        after.pressed_set() == before.pressed_set().insert(k),
        after.previous_set() == before.previous_set(),
    ensures
        after.spec_key_pressed(k),
        after.spec_key_just_pressed(k) == !before.previous_set().contains(k),
        !after.spec_key_released(k),
{
}

/// A release event makes the key read as not pressed and never as
/// just-pressed; it reads as released exactly when the key was down at the
/// last frame boundary.
pub proof fn lemma_release_key_edges(before: KeyboardContext, after: KeyboardContext, k: u32)
    requires
        after.pressed_set() == before.pressed_set().remove(k),
        after.previous_set() == before.previous_set(),
    ensures
        !after.spec_key_pressed(k),
        !after.spec_key_just_pressed(k),
        after.spec_key_released(k) == before.previous_set().contains(k),
{
}

/// Right after a frame-boundary snapshot, every edge is consumed: no key
/// reads as just-pressed or released, while plain pressed-ness is
/// untouched.  Keys held across the boundary therefore stop reading as
/// just-pressed.
pub proof fn lemma_snapshot_consumes_edges(kb: KeyboardContext, k: u32)
    requires
        kb.previous_set() == kb.pressed_set(),
    ensures
        !kb.spec_key_just_pressed(k),
        !kb.spec_key_released(k),
{
}

/// A modifiers-changed event replaces the current modifier state
/// wholesale: afterwards a modifier reads as pressed exactly when the new
/// state holds it, as just-pressed when the new state holds it and the
/// last frame boundary's did not, and as released in the opposite case.
pub proof fn lemma_modifiers_changed_edges(
    before: KeyboardContext,
    after: KeyboardContext,
    state: ModifierState,
    m: KeyModifier,
)
    requires
        after.modifiers() == state,
        after.previous_modifiers() == before.previous_modifiers(),
    ensures
        after.spec_modifier_pressed(m) == state.spec_contains(m),
        after.spec_modifier_just_pressed(m) == (state.spec_contains(m)
            && !before.previous_modifiers().spec_contains(m)),
        after.spec_modifier_released(m) == (!state.spec_contains(m)
            && before.previous_modifiers().spec_contains(m)),
{
}

} // verus!
