//! Input handling and controller abstractions.
//!
//! The per-tick aggregation takes the host's device snapshots as plain
//! values (newly pressed and released keys, held keys, and gamepad axis
//! readings in milli-units) and folds them into the shared [`SwitchInput`]
//! state: edge-triggered press/release sets, and deadzone-filtered stick
//! vectors where the keyboard takes precedence over gamepads.

use vstd::prelude::*;
use crate::stick::{StickVec, normalized, clamp_to_unit, scaled, isqrt_spec, isqrt_ceil_spec,
    DEADZONE, DEADZONE_SQ, UNIT_SQ};

verus! {

/// Keyboard keys the library can receive from the host's keyboard provider.
///
/// These mirror the physical-key names of the host engine; keys the mapping
/// table does not list are accepted and ignored.
#[derive(Debug, Clone, Copy, PartialEq, Eq, Hash, Structural)]
pub enum KeyCode {
    KeyA,
    KeyD,
    KeyI,
    KeyJ,
    KeyK,
    KeyL,
    KeyQ,
    KeyS,
    KeyW,
    KeyX,
    KeyZ,
    Digit1,
    Digit2,
    Enter,
    Backspace,
    ArrowUp,
    ArrowDown,
    ArrowLeft,
    ArrowRight,
    Space,
    Escape,
    Tab,
}

/// Standard gamepad buttons of the host engine's generic gamepad model.
#[derive(Debug, Clone, Copy, PartialEq, Eq, Hash, Structural)]
pub enum GamepadButton {
    South,
    East,
    North,
    West,
    LeftTrigger,
    LeftTrigger2,
    RightTrigger,
    RightTrigger2,
    Select,
    Start,
    Mode,
    LeftThumb,
    RightThumb,
    DPadUp,
    DPadDown,
    DPadLeft,
    DPadRight,
}

/// Physical buttons of the console's controllers.
#[derive(Debug, Clone, Copy, PartialEq, Eq, Hash, Structural)]
pub enum SwitchButton {
    // Face buttons (right half)
    A,
    B,
    X,
    Y,
    // Shoulder buttons
    L,
    R,
    ZL,
    ZR,
    // Stick buttons
    LeftStick,
    RightStick,
    // System buttons
    Plus,
    Minus,
    Home,
    Capture,
    // D-pad (left half)
    DPadUp,
    DPadDown,
    DPadLeft,
    DPadRight,
    // SL/SR buttons (sideways mode)
    SL,
    SR,
}

impl SwitchButton {
    /// The fixed table from console buttons to standard gamepad buttons.
    pub open spec fn spec_gamepad_button(self) -> GamepadButton {
        match self {
            SwitchButton::A => GamepadButton::East,
            SwitchButton::B => GamepadButton::South,
            SwitchButton::X => GamepadButton::North,
            SwitchButton::Y => GamepadButton::West,
            SwitchButton::L => GamepadButton::LeftTrigger,
            SwitchButton::R => GamepadButton::RightTrigger,
            SwitchButton::ZL => GamepadButton::LeftTrigger2,
            SwitchButton::ZR => GamepadButton::RightTrigger2,
            SwitchButton::LeftStick => GamepadButton::LeftThumb,
            SwitchButton::RightStick => GamepadButton::RightThumb,
            SwitchButton::Plus => GamepadButton::Start,
            SwitchButton::Minus => GamepadButton::Select,
            SwitchButton::Home => GamepadButton::Mode,
            SwitchButton::Capture => GamepadButton::Mode,
            SwitchButton::DPadUp => GamepadButton::DPadUp,
            SwitchButton::DPadDown => GamepadButton::DPadDown,
            SwitchButton::DPadLeft => GamepadButton::DPadLeft,
            SwitchButton::DPadRight => GamepadButton::DPadRight,
            SwitchButton::SL => GamepadButton::LeftTrigger,
            SwitchButton::SR => GamepadButton::RightTrigger,
        }
    }

    /// The fixed table from keyboard keys to console buttons; keys outside
    /// the table map to `None`.
    pub open spec fn spec_from_keycode(key: KeyCode) -> Option<SwitchButton> {
        match key {
            KeyCode::KeyZ => Some(SwitchButton::B),
            KeyCode::KeyX => Some(SwitchButton::A),
            KeyCode::KeyA => Some(SwitchButton::Y),
            KeyCode::KeyS => Some(SwitchButton::X),
            KeyCode::KeyQ => Some(SwitchButton::L),
            KeyCode::KeyW => Some(SwitchButton::R),
            KeyCode::Digit1 => Some(SwitchButton::ZL),
            KeyCode::Digit2 => Some(SwitchButton::ZR),
            KeyCode::Enter => Some(SwitchButton::Plus),
            KeyCode::Backspace => Some(SwitchButton::Minus),
            KeyCode::ArrowUp => Some(SwitchButton::DPadUp),
            KeyCode::ArrowDown => Some(SwitchButton::DPadDown),
            KeyCode::ArrowLeft => Some(SwitchButton::DPadLeft),
            KeyCode::ArrowRight => Some(SwitchButton::DPadRight),
            _ => None,
        }
    }

    /// Map to standard gamepad button.
    pub fn to_gamepad_button(&self) -> (r: GamepadButton)
        ensures
            r == self.spec_gamepad_button(),
    {
        match self {
            SwitchButton::A => GamepadButton::East,
            SwitchButton::B => GamepadButton::South,
            SwitchButton::X => GamepadButton::North,
            SwitchButton::Y => GamepadButton::West,
            SwitchButton::L => GamepadButton::LeftTrigger,
            SwitchButton::R => GamepadButton::RightTrigger,
            SwitchButton::ZL => GamepadButton::LeftTrigger2,
            SwitchButton::ZR => GamepadButton::RightTrigger2,
            SwitchButton::LeftStick => GamepadButton::LeftThumb,
            SwitchButton::RightStick => GamepadButton::RightThumb,
            SwitchButton::Plus => GamepadButton::Start,
            SwitchButton::Minus => GamepadButton::Select,
            SwitchButton::Home => GamepadButton::Mode,
            // No direct mapping for the capture button
            SwitchButton::Capture => GamepadButton::Mode,
            SwitchButton::DPadUp => GamepadButton::DPadUp,
            SwitchButton::DPadDown => GamepadButton::DPadDown,
            SwitchButton::DPadLeft => GamepadButton::DPadLeft,
            SwitchButton::DPadRight => GamepadButton::DPadRight,
            SwitchButton::SL => GamepadButton::LeftTrigger,
            SwitchButton::SR => GamepadButton::RightTrigger,
        }
    }

    /// Map keyboard key to console button (for development).
    pub fn from_keycode(key: KeyCode) -> (r: Option<SwitchButton>)
        ensures
            r == Self::spec_from_keycode(key),
    {
        match key {
            KeyCode::KeyZ => Some(SwitchButton::B),
            KeyCode::KeyX => Some(SwitchButton::A),
            KeyCode::KeyA => Some(SwitchButton::Y),
            KeyCode::KeyS => Some(SwitchButton::X),
            KeyCode::KeyQ => Some(SwitchButton::L),
            KeyCode::KeyW => Some(SwitchButton::R),
            KeyCode::Digit1 => Some(SwitchButton::ZL),
            KeyCode::Digit2 => Some(SwitchButton::ZR),
            KeyCode::Enter => Some(SwitchButton::Plus),
            KeyCode::Backspace => Some(SwitchButton::Minus),
            KeyCode::ArrowUp => Some(SwitchButton::DPadUp),
            KeyCode::ArrowDown => Some(SwitchButton::DPadDown),
            KeyCode::ArrowLeft => Some(SwitchButton::DPadLeft),
            KeyCode::ArrowRight => Some(SwitchButton::DPadRight),
            _ => None,
        }
    }
}

/// Connected controller layouts.
#[derive(Debug, Clone, Copy, PartialEq, Eq, Structural)]
pub enum SwitchController {
    /// Both halves attached, or a full pro-style controller
    Combined,
    /// Left half only
    LeftJoyCon,
    /// Right half only
    RightJoyCon,
    /// One half held sideways (single player with one half)
    Sideways,
}

/// A sequence extended by one element contains exactly the old elements and
/// the new one.
proof fn lemma_push_contains<A>(s: Seq<A>, x: A, c: A)
    ensures
        s.push(x).contains(c) <==> (s.contains(c) || c == x),
{
    if s.push(x).contains(c) {
        let j = choose|j: int| 0 <= j < s.push(x).len() && s.push(x)[j] == c;
        if j < s.len() {
            assert(s[j] == c);
        }
    }
    if s.contains(c) {
        let j = choose|j: int| 0 <= j < s.len() && s[j] == c;
        assert(s.push(x)[j] == c);
    }
    if c == x {
        assert(s.push(x)[s.len() as int] == c);
    }
}

/// Check whether a button list contains a button.
fn contains_button(v: &Vec<SwitchButton>, b: SwitchButton) -> (r: bool)
    ensures
        r == v@.contains(b),
{
    let mut i: usize = 0;
    while i < v.len()
        invariant
            i <= v@.len(),
            forall|j: int| 0 <= j < i ==> v@[j] != b,
        decreases v@.len() - i,
    {
        if v[i] == b {
            return true;
        }
        i += 1;
    }
    false
}

/// Check whether a key list contains a key.
fn key_held(keys: &Vec<KeyCode>, k: KeyCode) -> (r: bool)
    ensures
        r == keys@.contains(k),
{
    let mut i: usize = 0;
    while i < keys.len()
        invariant
            i <= keys@.len(),
            forall|j: int| 0 <= j < i ==> keys@[j] != k,
        decreases keys@.len() - i,
    {
        if keys[i] == k {
            return true;
        }
        i += 1;
    }
    false
}

/// Add a button to a button set unless it is already present.
fn insert_button(v: &mut Vec<SwitchButton>, b: SwitchButton)
    ensures
        forall|c: SwitchButton| #[trigger] final(v)@.contains(c) <==> (old(v)@.contains(c) || c
            == b),
{
    let present = contains_button(v, b);
    if !present {
        v.push(b);
        proof {
            assert forall|c: SwitchButton| #[trigger] v@.contains(c) <==> (old(v)@.contains(c)
                || c == b) by {
                lemma_push_contains(old(v)@, b, c);
            }
        }
    }
}

/// Remove every occurrence of a button from a button set.
fn remove_button(v: &mut Vec<SwitchButton>, b: SwitchButton)
    ensures
        forall|c: SwitchButton| #[trigger] final(v)@.contains(c) <==> (old(v)@.contains(c) && c
            != b),
{
    let mut out: Vec<SwitchButton> = Vec::new();
    let mut i: usize = 0;
    while i < v.len()
        invariant
            i <= v@.len(),
            v@ == old(v)@,
            forall|c: SwitchButton| #[trigger] out@.contains(c) <==> (v@.take(i as int).contains(
                c,
            ) && c != b),
        decreases v@.len() - i,
    {
        let e = v[i];
        proof {
            assert(v@.take(i + 1) =~= v@.take(i as int).push(v@[i as int]));
        }
        if e != b {
            let ghost out0 = out@;
            out.push(e);
            proof {
                assert forall|c: SwitchButton| #[trigger] out@.contains(c) <==> (v@.take(
                    i + 1,
                ).contains(c) && c != b) by {
                    lemma_push_contains(out0, e, c);
                    lemma_push_contains(v@.take(i as int), e, c);
                }
            }
        } else {
            proof {
                assert forall|c: SwitchButton| #[trigger] out@.contains(c) <==> (v@.take(
                    i + 1,
                ).contains(c) && c != b) by {
                    lemma_push_contains(v@.take(i as int), e, c);
                }
            }
        }
        i += 1;
    }
    proof {
        assert(v@.take(v@.len() as int) =~= v@);
    }
    *v = out;
}

/// One gamepad's stick axes for one tick, in milli-units per axis.
#[derive(Debug, Clone, Copy, PartialEq, Eq, Structural)]
pub struct GamepadRead {
    /// Left stick, horizontal axis.
    pub left_x: i32,
    /// Left stick, vertical axis.
    pub left_y: i32,
    /// Right stick, horizontal axis.
    pub right_x: i32,
    /// Right stick, vertical axis.
    pub right_y: i32,
}

impl GamepadRead {
    /// All four axes lie within one full deflection.
    pub open spec fn wf(self) -> bool {
        -1000 <= self.left_x <= 1000 && -1000 <= self.left_y <= 1000 && -1000 <= self.right_x
            <= 1000 && -1000 <= self.right_y <= 1000
    }

    /// The left-stick reading as a vector.
    pub open spec fn left(self) -> StickVec {
        StickVec { x: self.left_x, y: self.left_y }
    }

    /// The right-stick reading as a vector.
    pub open spec fn right(self) -> StickVec {
        StickVec { x: self.right_x, y: self.right_y }
    }
}

/// Whether either axis of a reading exceeds the deadzone on its own, which
/// is what lets a gamepad reading overwrite the stick.
pub open spec fn axis_exceeds_deadzone(v: StickVec) -> bool {
    v.x > DEADZONE || v.x < -DEADZONE || v.y > DEADZONE || v.y < -DEADZONE
}

/// The left stick after the gamepad pass: each pad whose left reading
/// exceeds the deadzone on either axis overwrites the stick, so the last
/// such pad wins and the rest contribute nothing.
pub open spec fn left_after_pads(init: StickVec, pads: Seq<GamepadRead>) -> StickVec
    decreases pads.len(),
{
    if pads.len() == 0 {
        init
    } else if axis_exceeds_deadzone(pads.last().left()) {
        pads.last().left()
    } else {
        left_after_pads(init, pads.drop_last())
    }
}

/// The right stick after the gamepad pass, by the same last-pad-wins rule.
pub open spec fn right_after_pads(init: StickVec, pads: Seq<GamepadRead>) -> StickVec
    decreases pads.len(),
{
    if pads.len() == 0 {
        init
    } else if axis_exceeds_deadzone(pads.last().right()) {
        pads.last().right()
    } else {
        right_after_pads(init, pads.drop_last())
    }
}

/// Some key in `keys` maps to button `b` under the keyboard table.
pub open spec fn keys_map_to(keys: Seq<KeyCode>, b: SwitchButton) -> bool {
    exists|i: int|
        0 <= i < keys.len() && #[trigger] SwitchButton::spec_from_keycode(keys[i]) == Some(b)
}

/// Extending a key list by one key adds exactly the button that key maps to.
proof fn lemma_keys_map_to_push(keys: Seq<KeyCode>, k: KeyCode, b: SwitchButton)
    ensures
        keys_map_to(keys.push(k), b) <==> (keys_map_to(keys, b)
            || SwitchButton::spec_from_keycode(k) == Some(b)),
{
    if keys_map_to(keys.push(k), b) {
        let j = choose|j: int|
            0 <= j < keys.push(k).len() && #[trigger] SwitchButton::spec_from_keycode(
                keys.push(k)[j],
            ) == Some(b);
        if j < keys.len() {
            assert(SwitchButton::spec_from_keycode(keys[j]) == Some(b));
        }
    }
    if keys_map_to(keys, b) {
        let j = choose|j: int|
            0 <= j < keys.len() && #[trigger] SwitchButton::spec_from_keycode(keys[j]) == Some(b);
        assert(SwitchButton::spec_from_keycode(keys.push(k)[j]) == Some(b));
    }
    if SwitchButton::spec_from_keycode(k) == Some(b) {
        assert(SwitchButton::spec_from_keycode(keys.push(k)[keys.len() as int]) == Some(b));
    }
}

/// Keys that the mapping table ignores produce no buttons at all.
pub proof fn lemma_unmapped_keys_produce_no_buttons(keys: Seq<KeyCode>, b: SwitchButton)
    requires
        forall|i: int|
            0 <= i < keys.len() ==> #[trigger] SwitchButton::spec_from_keycode(keys[i]) is None,
    ensures
        !keys_map_to(keys, b),
{
    if keys_map_to(keys, b) {
        let j = choose|j: int|
            0 <= j < keys.len() && #[trigger] SwitchButton::spec_from_keycode(keys[j]) == Some(b);
    }
}

/// One axis of the keyboard-derived movement vector: one full deflection in
/// the positive direction, the negative direction, or neither.
pub open spec fn kb_axis(pos: bool, neg: bool) -> i32 {
    if pos && !neg {
        1000
    } else if neg && !pos {
        -1000i32
    } else {
        0
    }
}

/// The keyboard-derived movement vector: W/I drive the y axis up, S/K down,
/// A/J drive the x axis left, D/L right, one full deflection each.
pub open spec fn kb_vec(held: Seq<KeyCode>) -> StickVec {
    StickVec {
        x: kb_axis(
            held.contains(KeyCode::KeyD) || held.contains(KeyCode::KeyL),
            held.contains(KeyCode::KeyA) || held.contains(KeyCode::KeyJ),
        ),
        y: kb_axis(
            held.contains(KeyCode::KeyW) || held.contains(KeyCode::KeyI),
            held.contains(KeyCode::KeyS) || held.contains(KeyCode::KeyK),
        ),
    }
}

/// The left stick after combining keyboard and gamepad input: a keyboard
/// vector beyond the deadzone is normalized to unit length and wins over
/// whatever the gamepads set; otherwise a stick left below the deadzone is
/// zeroed, and anything else is kept.
pub open spec fn resolved_left_stick(
    init: StickVec,
    pads: Seq<GamepadRead>,
    held: Seq<KeyCode>,
) -> StickVec {
    let after = left_after_pads(init, pads);
    let kb = kb_vec(held);
    if kb.mag_sq() > DEADZONE_SQ {
        StickVec {
            x: scaled(kb.x as int, 1000, isqrt_spec(kb.mag_sq())) as i32,
            y: scaled(kb.y as int, 1000, isqrt_spec(kb.mag_sq())) as i32,
        }
    } else if after.mag_sq() < DEADZONE_SQ {
        StickVec { x: 0, y: 0 }
    } else {
        after
    }
}

/// Shared input state, updated once per tick.
///
/// The `just_pressed` and `just_released` sets are valid for exactly one
/// tick: they are cleared at the start of every update before being
/// repopulated.
#[derive(Debug)]
pub struct SwitchInput {
    /// Left stick position in milli-units (-1000 to 1000 per axis).
    pub left_stick: StickVec,
    /// Right stick position in milli-units (-1000 to 1000 per axis).
    pub right_stick: StickVec,
    /// Currently pressed buttons. Managed by the per-tick updater.
    pub pressed: Vec<SwitchButton>,
    /// Buttons just pressed this tick. Managed by the per-tick updater.
    pub just_pressed: Vec<SwitchButton>,
    /// Buttons just released this tick. Managed by the per-tick updater.
    pub just_released: Vec<SwitchButton>,
}

impl Default for SwitchInput {
    /// The initial input state: neutral sticks and no buttons.
    fn default() -> (r: Self)
        ensures
            r.left_stick == (StickVec { x: 0, y: 0 }),
            r.right_stick == (StickVec { x: 0, y: 0 }),
            r.pressed@ == Seq::<SwitchButton>::empty(),
            r.just_pressed@ == Seq::<SwitchButton>::empty(),
            r.just_released@ == Seq::<SwitchButton>::empty(),
            r.wf(),
    {
        SwitchInput {
            left_stick: StickVec::zero(),
            right_stick: StickVec::zero(),
            pressed: Vec::new(),
            just_pressed: Vec::new(),
            just_released: Vec::new(),
        }
    }
}

impl SwitchInput {
    /// Both stick vectors lie within one full deflection per axis.
    pub open spec fn wf(self) -> bool {
        self.left_stick.in_unit_box() && self.right_stick.in_unit_box()
    }

    /// Check if a button is currently pressed.
    pub fn pressed(&self, button: SwitchButton) -> (r: bool)
        ensures
            r == self.pressed@.contains(button),
    {
        contains_button(&self.pressed, button)
    }

    /// Check if a button was just pressed this tick.
    pub fn just_pressed(&self, button: SwitchButton) -> (r: bool)
        ensures
            r == self.just_pressed@.contains(button),
    {
        contains_button(&self.just_pressed, button)
    }

    /// Check if a button was just released this tick.
    pub fn just_released(&self, button: SwitchButton) -> (r: bool)
        ensures
            r == self.just_released@.contains(button),
    {
        contains_button(&self.just_released, button)
    }

    /// The movement vector before clamping: the left stick nudged by one
    /// full deflection per held d-pad direction, x axis.
    pub open spec fn movement_raw_x(self) -> int {
        self.left_stick.x + (if self.pressed@.contains(SwitchButton::DPadRight) {
            1000int
        } else {
            0int
        }) - (if self.pressed@.contains(SwitchButton::DPadLeft) {
            1000int
        } else {
            0int
        })
    }

    /// The movement vector before clamping, y axis.
    pub open spec fn movement_raw_y(self) -> int {
        self.left_stick.y + (if self.pressed@.contains(SwitchButton::DPadUp) {
            1000int
        } else {
            0int
        }) - (if self.pressed@.contains(SwitchButton::DPadDown) {
            1000int
        } else {
            0int
        })
    }

    /// Squared magnitude of the unclamped movement vector.
    pub open spec fn movement_raw_sq(self) -> int {
        self.movement_raw_x() * self.movement_raw_x() + self.movement_raw_y()
            * self.movement_raw_y()
    }

    /// Get movement direction from left stick or D-pad: the stick is nudged
    /// by one full deflection per held d-pad direction, then the result is
    /// clamped to the unit disc, so its magnitude never exceeds 1.0.
    pub fn movement(&self) -> (r: StickVec)
        requires
            self.wf(),
        ensures
            r.mag_sq() <= UNIT_SQ,
            r.in_unit_box(),
            self.movement_raw_sq() <= UNIT_SQ ==> r.x == self.movement_raw_x() && r.y
                == self.movement_raw_y(),
            self.movement_raw_sq() > UNIT_SQ ==> r.x == scaled(
                self.movement_raw_x(),
                1000,
                isqrt_ceil_spec(self.movement_raw_sq()),
            ) && r.y == scaled(self.movement_raw_y(), 1000, isqrt_ceil_spec(self.movement_raw_sq())),
    {
        let mut x = self.left_stick.x;
        let mut y = self.left_stick.y;
        // Also check D-pad
        if self.pressed(SwitchButton::DPadUp) {
            y = y + 1000;
        }
        if self.pressed(SwitchButton::DPadDown) {
            y = y - 1000;
        }
        if self.pressed(SwitchButton::DPadLeft) {
            x = x - 1000;
        }
        if self.pressed(SwitchButton::DPadRight) {
            x = x + 1000;
        }
        clamp_to_unit(StickVec::new(x, y))
    }
}

/// Update the shared input state from one tick's device snapshots.
///
/// Clears the transient press/release sets, folds newly pressed and released
/// keys through the keyboard mapping table into the button sets, lets each
/// gamepad reading beyond the deadzone overwrite a stick (last pad wins),
/// and finally resolves the left stick: a keyboard movement vector beyond
/// the deadzone is normalized and takes precedence, and a leftover stick
/// below the deadzone is zeroed.
pub fn update_switch_input(
    input: &mut SwitchInput,
    just_pressed_keys: &Vec<KeyCode>,
    just_released_keys: &Vec<KeyCode>,
    held_keys: &Vec<KeyCode>,
    gamepads: &Vec<GamepadRead>,
)
    requires
        old(input).wf(),
        forall|i: int| 0 <= i < gamepads@.len() ==> (#[trigger] gamepads@[i]).wf(),
    ensures
        final(input).wf(),
        forall|b: SwitchButton| #[trigger] final(input).just_pressed@.contains(b) <==> keys_map_to(
            just_pressed_keys@,
            b,
        ),
        forall|b: SwitchButton| #[trigger] final(input).just_released@.contains(b)
            <==> keys_map_to(just_released_keys@, b),
        forall|b: SwitchButton| #[trigger] final(input).pressed@.contains(b) <==> ((old(
            input,
        ).pressed@.contains(b) || keys_map_to(just_pressed_keys@, b)) && !keys_map_to(
            just_released_keys@,
            b,
        )),
        final(input).left_stick == resolved_left_stick(
            old(input).left_stick,
            gamepads@,
            held_keys@,
        ),
        final(input).right_stick == right_after_pads(old(input).right_stick, gamepads@),
{
    let ghost pressed0 = input.pressed@;

    // Clear frame-specific state
    input.just_pressed = Vec::new();
    input.just_released = Vec::new();

    // Update from keyboard (development mode)
    let mut i: usize = 0;
    while i < just_pressed_keys.len()
        invariant
            i <= just_pressed_keys@.len(),
            forall|b: SwitchButton| #[trigger] input.pressed@.contains(b) <==> (pressed0.contains(
                b,
            ) || keys_map_to(just_pressed_keys@.take(i as int), b)),
            forall|b: SwitchButton| #[trigger] input.just_pressed@.contains(b) <==> keys_map_to(
                just_pressed_keys@.take(i as int),
                b,
            ),
            input.just_released@ == Seq::<SwitchButton>::empty(),
            input.left_stick == old(input).left_stick,
            input.right_stick == old(input).right_stick,
        decreases just_pressed_keys@.len() - i,
    {
        let key = just_pressed_keys[i];
        if let Some(button) = SwitchButton::from_keycode(key) {
            insert_button(&mut input.pressed, button);
            insert_button(&mut input.just_pressed, button);
        }
        proof {
            assert(just_pressed_keys@.take(i + 1) =~= just_pressed_keys@.take(i as int).push(
                just_pressed_keys@[i as int],
            ));
            assert forall|b: SwitchButton| #[trigger] input.pressed@.contains(b) <==> (
            pressed0.contains(b) || keys_map_to(just_pressed_keys@.take(i + 1), b)) by {
                lemma_keys_map_to_push(just_pressed_keys@.take(i as int), key, b);
            }
            assert forall|b: SwitchButton| #[trigger] input.just_pressed@.contains(b)
                <==> keys_map_to(just_pressed_keys@.take(i + 1), b) by {
                lemma_keys_map_to_push(just_pressed_keys@.take(i as int), key, b);
            }
        }
        i = i + 1;
    }
    proof {
        assert(just_pressed_keys@.take(just_pressed_keys@.len() as int) =~= just_pressed_keys@);
    }
    let ghost pressed1 = input.pressed@;
    let ghost jp1 = input.just_pressed@;

    let mut i: usize = 0;
    while i < just_released_keys.len()
        invariant
            i <= just_released_keys@.len(),
            forall|b: SwitchButton| #[trigger] input.pressed@.contains(b) <==> (pressed1.contains(
                b,
            ) && !keys_map_to(just_released_keys@.take(i as int), b)),
            forall|b: SwitchButton| #[trigger] input.just_released@.contains(b) <==> keys_map_to(
                just_released_keys@.take(i as int),
                b,
            ),
            input.just_pressed@ == jp1,
            input.left_stick == old(input).left_stick,
            input.right_stick == old(input).right_stick,
        decreases just_released_keys@.len() - i,
    {
        let key = just_released_keys[i];
        if let Some(button) = SwitchButton::from_keycode(key) {
            remove_button(&mut input.pressed, button);
            insert_button(&mut input.just_released, button);
        }
        proof {
            assert(just_released_keys@.take(i + 1) =~= just_released_keys@.take(i as int).push(
                just_released_keys@[i as int],
            ));
            assert forall|b: SwitchButton| #[trigger] input.pressed@.contains(b) <==> (
            pressed1.contains(b) && !keys_map_to(just_released_keys@.take(i + 1), b)) by {
                lemma_keys_map_to_push(just_released_keys@.take(i as int), key, b);
            }
            assert forall|b: SwitchButton| #[trigger] input.just_released@.contains(b)
                <==> keys_map_to(just_released_keys@.take(i + 1), b) by {
                lemma_keys_map_to_push(just_released_keys@.take(i as int), key, b);
            }
        }
        i = i + 1;
    }
    proof {
        assert(just_released_keys@.take(just_released_keys@.len() as int) =~= just_released_keys@);
    }

    // Keyboard movement (WASD or IJKL)
    let mut kx: i32 = 0;
    let mut ky: i32 = 0;
    if key_held(held_keys, KeyCode::KeyW) || key_held(held_keys, KeyCode::KeyI) {
        ky = ky + 1000;
    }
    if key_held(held_keys, KeyCode::KeyS) || key_held(held_keys, KeyCode::KeyK) {
        ky = ky - 1000;
    }
    if key_held(held_keys, KeyCode::KeyA) || key_held(held_keys, KeyCode::KeyJ) {
        kx = kx - 1000;
    }
    if key_held(held_keys, KeyCode::KeyD) || key_held(held_keys, KeyCode::KeyL) {
        kx = kx + 1000;
    }
    let kb = StickVec::new(kx, ky);
    proof {
        assert(kb == kb_vec(held_keys@));
    }

    // Update from gamepads
    let ghost pressed2 = input.pressed@;
    let ghost jp2 = input.just_pressed@;
    let ghost jr2 = input.just_released@;
    let mut g: usize = 0;
    while g < gamepads.len()
        invariant
            g <= gamepads@.len(),
            forall|i: int| 0 <= i < gamepads@.len() ==> (#[trigger] gamepads@[i]).wf(),
            input.left_stick == left_after_pads(old(input).left_stick, gamepads@.take(g as int)),
            input.right_stick == right_after_pads(old(input).right_stick, gamepads@.take(g as int)),
            old(input).wf(),
            input.left_stick.in_unit_box(),
            input.right_stick.in_unit_box(),
            input.pressed@ == pressed2,
            input.just_pressed@ == jp2,
            input.just_released@ == jr2,
        decreases gamepads@.len() - g,
    {
        let pad = gamepads[g];
        // Left stick
        if pad.left_x > DEADZONE || pad.left_x < -DEADZONE || pad.left_y > DEADZONE || pad.left_y
            < -DEADZONE {
            input.left_stick = StickVec::new(pad.left_x, pad.left_y);
        }
        // Right stick
        if pad.right_x > DEADZONE || pad.right_x < -DEADZONE || pad.right_y > DEADZONE
            || pad.right_y < -DEADZONE {
            input.right_stick = StickVec::new(pad.right_x, pad.right_y);
        }
        proof {
            assert(gamepads@.take(g + 1) =~= gamepads@.take(g as int).push(gamepads@[g as int]));
            assert(gamepads@.take(g + 1).drop_last() =~= gamepads@.take(g as int));
        }
        g = g + 1;
    }
    proof {
        assert(gamepads@.take(gamepads@.len() as int) =~= gamepads@);
    }

    // Combine keyboard and gamepad for left stick
    let ksq = kb.len_sq();
    if ksq > DEADZONE_SQ {
        input.left_stick = normalized(kb);
    } else {
        let csq = input.left_stick.len_sq();
        if csq < DEADZONE_SQ {
            input.left_stick = StickVec::zero();
        }
    }
}

} // verus!
