//! The interactive parameter state of the spiral and the input events that change it.
//!
//! Every real-valued parameter is held in fixed point: a value `v` is stored as the
//! integer `v * SCALE`, so `zoom == 1500` means a zoom of 1.5. Steps of 1.0, 0.5 and
//! 0.1 are then exact, and clamping never meets a rounding error.
use vstd::prelude::*;

verus! {

/// Fixed-point scale of every real-valued parameter.
pub const SCALE: u64 = 1000;

pub const ZOOM_MIN: u64 = 100;

pub const ZOOM_MAX: u64 = 5000;

pub const ZOOM_DEFAULT: u64 = 1000;

/// Auto-rotation per tick, in thousandths of a radian (0.01 rad).
pub const SPEED: i64 = 10;

pub const SIZE_MIN: u64 = 1000;

pub const SIZE_MAX: u64 = 20000;

pub const SIZE_STEP: u64 = 1000;

pub const SIZE_DEFAULT: u64 = 5000;

pub const TURNS_MIN: u64 = 1000;

pub const TURNS_MAX: u64 = 10000;

pub const TURNS_STEP: u64 = 500;

pub const TURNS_DEFAULT: u64 = 4000;

pub const N_MIN: u64 = 500;

pub const N_MAX: u64 = 10000;

pub const N_STEP: u64 = 100;

pub const N_DEFAULT: u64 = 2000;

/// The multiplier has a floor and no ceiling of its own; its store stops at `u64::MAX`.
pub const MULTIPLIER_MIN: u64 = 1000;

pub const MULTIPLIER_STEP: u64 = 1000;

pub const MULTIPLIER_DEFAULT: u64 = 10000;

/// A scroll of `d` thousandths of a line scales the zoom by `(ZOOM_FACTOR_DEN + d) / ZOOM_FACTOR_DEN`,
/// that is by `1 + 0.1 * lines`.
pub const ZOOM_FACTOR_DEN: i64 = 10000;

/// The mathematical value of a `ParameterState`, every field in the fixed-point units above.
pub struct Params {
    pub zoom: int,
    /// Thousandths of a radian.
    pub rotation: int,
    /// Thousandths of a radian per tick.
    pub speed: int,
    pub auto_rotate: bool,
    pub spiral_size: int,
    pub turns: int,
    pub n: int,
    pub multiplier: int,
}

pub open spec fn clamp(x: int, lo: int, hi: int) -> int {
    if x < lo {
        lo
    } else if x > hi {
        hi
    } else {
        x
    }
}

/// Two's-complement wrap of a sum into `i64`.
pub open spec fn wrap_i64(x: int) -> int {
    if x > i64::MAX {
        x - 0x1_0000_0000_0000_0000
    } else if x < i64::MIN {
        x + 0x1_0000_0000_0000_0000
    } else {
        x
    }
}

/// The state at startup, and after a reset.
pub open spec fn defaults() -> Params {
    Params {
        zoom: ZOOM_DEFAULT as int,
        rotation: 0,
        speed: SPEED as int,
        auto_rotate: false,
        spiral_size: SIZE_DEFAULT as int,
        turns: TURNS_DEFAULT as int,
        n: N_DEFAULT as int,
        multiplier: MULTIPLIER_DEFAULT as int,
    }
}

/// The new zoom after a scroll of `delta` thousandths of a line, rounded down and clamped.
pub open spec fn scroll_zoom(zoom: int, delta: int) -> int {
    clamp(
        (zoom * (ZOOM_FACTOR_DEN + delta)) / (ZOOM_FACTOR_DEN as int),
        ZOOM_MIN as int,
        ZOOM_MAX as int,
    )
}

impl Params {
    /// Every field lies in its clamp range (and fits its store).
    pub open spec fn in_range(self) -> bool {
        &&& ZOOM_MIN <= self.zoom <= ZOOM_MAX
        &&& i64::MIN <= self.rotation <= i64::MAX
        &&& self.speed == SPEED
        &&& SIZE_MIN <= self.spiral_size <= SIZE_MAX
        &&& TURNS_MIN <= self.turns <= TURNS_MAX
        &&& N_MIN <= self.n <= N_MAX
        &&& MULTIPLIER_MIN <= self.multiplier <= u64::MAX
    }

    pub open spec fn toggled(self) -> Params {
        Params { auto_rotate: !self.auto_rotate, ..self }
    }

    pub open spec fn size_increased(self) -> Params {
        Params { spiral_size: clamp(self.spiral_size + SIZE_STEP, SIZE_MIN as int, SIZE_MAX as int), ..self }
    }

    pub open spec fn size_decreased(self) -> Params {
        Params { spiral_size: clamp(self.spiral_size - SIZE_STEP, SIZE_MIN as int, SIZE_MAX as int), ..self }
    }

    pub open spec fn turns_increased(self) -> Params {
        Params { turns: clamp(self.turns + TURNS_STEP, TURNS_MIN as int, TURNS_MAX as int), ..self }
    }

    pub open spec fn turns_decreased(self) -> Params {
        Params { turns: clamp(self.turns - TURNS_STEP, TURNS_MIN as int, TURNS_MAX as int), ..self }
    }

    pub open spec fn n_increased(self) -> Params {
        Params { n: clamp(self.n + N_STEP, N_MIN as int, N_MAX as int), ..self }
    }

    pub open spec fn n_decreased(self) -> Params {
        Params { n: clamp(self.n - N_STEP, N_MIN as int, N_MAX as int), ..self }
    }

    pub open spec fn multiplier_increased(self) -> Params {
        Params { multiplier: clamp(self.multiplier + MULTIPLIER_STEP, MULTIPLIER_MIN as int, u64::MAX as int), ..self }
    }

    pub open spec fn multiplier_decreased(self) -> Params {
        Params { multiplier: clamp(self.multiplier - MULTIPLIER_STEP, MULTIPLIER_MIN as int, u64::MAX as int), ..self }
    }

    pub open spec fn scrolled(self, delta: int) -> Params {
        Params { zoom: scroll_zoom(self.zoom, delta), ..self }
    }

    pub open spec fn ticked(self) -> Params {
        if self.auto_rotate {
            Params { rotation: wrap_i64(self.rotation + self.speed), ..self }
        } else {
            self
        }
    }

    pub open spec fn after_key(self, key: Key) -> Params {
        match key {
            Key::Space => self.toggled(),
            Key::Up => self.size_increased(),
            Key::Down => self.size_decreased(),
            Key::Left => self.turns_decreased(),
            Key::Right => self.turns_increased(),
            Key::Q => self.n_increased(),
            Key::A => self.n_decreased(),
            Key::R => defaults(),
            Key::M => self.multiplier_increased(),
            Key::N => self.multiplier_decreased(),
            Key::Other => self,
        }
    }

    /// Only a scroll counted in lines moves the zoom, and only its vertical part.
    pub open spec fn after_wheel(self, delta: ScrollDelta) -> Params {
        match delta {
            ScrollDelta::Lines { x: _, y } => self.scrolled(y as int),
            ScrollDelta::Pixels => self,
        }
    }

    pub open spec fn after_event(self, event: Event) -> Params {
        match event {
            Event::KeyPressed(key) => self.after_key(key),
            Event::Wheel(delta) => self.after_wheel(delta),
            Event::Tick => self.ticked(),
        }
    }

    /// The state after each event of `events`, in order.
    pub open spec fn after_events(self, events: Seq<Event>) -> Params
        decreases events.len(),
    {
        if events.len() == 0 {
            self
        } else {
            self.after_event(events[0]).after_events(events.drop_first())
        }
    }
}

/// The keys that drive the parameters; any other key is `Other` and changes nothing.
#[derive(Clone, Copy, Debug, PartialEq, Eq)]
pub enum Key {
    /// Toggles auto-rotation.
    Space,
    /// Grows the spiral.
    Up,
    /// Shrinks the spiral.
    Down,
    /// Fewer turns.
    Left,
    /// More turns.
    Right,
    /// Raises `n`.
    Q,
    /// Lowers `n`.
    A,
    /// Restores the startup state.
    R,
    /// Raises the multiplier.
    M,
    /// Lowers the multiplier.
    N,
    Other,
}

/// A mouse-wheel movement: in lines (thousandths of a line, both axes) or in pixels.
#[derive(Clone, Copy, Debug, PartialEq, Eq)]
pub enum ScrollDelta {
    Lines { x: i64, y: i64 },
    Pixels,
}

/// One input to the state machine.
#[derive(Clone, Copy, Debug, PartialEq, Eq)]
pub enum Event {
    KeyPressed(Key),
    Wheel(ScrollDelta),
    /// Once per frame, before rendering.
    Tick,
}

/// The live parameters. Fields are private: the operations below are the only way
/// to change them, and each keeps every field in its range.
#[derive(Clone, Copy, Debug, PartialEq, Eq)]
pub struct ParameterState {
    zoom: u64,
    rotation: i64,
    speed: i64,
    auto_rotate: bool,
    spiral_size: u64,
    turns: u64,
    n: u64,
    multiplier: u64,
}

impl View for ParameterState {
    type V = Params;

    closed spec fn view(&self) -> Params {
        Params {
            zoom: self.zoom as int,
            rotation: self.rotation as int,
            speed: self.speed as int,
            auto_rotate: self.auto_rotate,
            spiral_size: self.spiral_size as int,
            turns: self.turns as int,
            n: self.n as int,
            multiplier: self.multiplier as int,
        }
    }
}

impl ParameterState {
    #[verifier::type_invariant]
    spec fn inv(self) -> bool {
        self@.in_range()
    }

    /// The startup state.
    pub fn new() -> (r: ParameterState)
        ensures
            r@ == defaults(),
    {
        ParameterState {
            zoom: ZOOM_DEFAULT,
            rotation: 0,
            speed: SPEED,
            auto_rotate: false,
            spiral_size: SIZE_DEFAULT,
            turns: TURNS_DEFAULT,
            n: N_DEFAULT,
            multiplier: MULTIPLIER_DEFAULT,
        }
    }

    pub fn toggle_auto_rotate(&mut self)
        ensures
            final(self)@ == old(self)@.toggled(),
    {
        proof { use_type_invariant(&*self); }
        self.auto_rotate = !self.auto_rotate;
    }

    pub fn increase_size(&mut self)
        ensures
            final(self)@ == old(self)@.size_increased(),
    {
        proof { use_type_invariant(&*self); }
        self.spiral_size = if self.spiral_size + SIZE_STEP > SIZE_MAX {
            SIZE_MAX
        } else {
            self.spiral_size + SIZE_STEP
        };
    }

    pub fn decrease_size(&mut self)
        ensures
            final(self)@ == old(self)@.size_decreased(),
    {
        proof { use_type_invariant(&*self); }
        self.spiral_size = if self.spiral_size < SIZE_MIN + SIZE_STEP {
            SIZE_MIN
        } else {
            self.spiral_size - SIZE_STEP
        };
    }

    pub fn increase_turns(&mut self)
        ensures
            final(self)@ == old(self)@.turns_increased(),
    {
        proof { use_type_invariant(&*self); }
        self.turns = if self.turns + TURNS_STEP > TURNS_MAX {
            TURNS_MAX
        } else {
            self.turns + TURNS_STEP
        };
    }

    pub fn decrease_turns(&mut self)
        ensures
            final(self)@ == old(self)@.turns_decreased(),
    {
        proof { use_type_invariant(&*self); }
        self.turns = if self.turns < TURNS_MIN + TURNS_STEP {
            TURNS_MIN
        } else {
            self.turns - TURNS_STEP
        };
    }

    pub fn increase_n(&mut self)
        ensures
            final(self)@ == old(self)@.n_increased(),
    {
        proof { use_type_invariant(&*self); }
        self.n = if self.n + N_STEP > N_MAX {
            N_MAX
        } else {
            self.n + N_STEP
        };
    }

    pub fn decrease_n(&mut self)
        ensures
            final(self)@ == old(self)@.n_decreased(),
    {
        proof { use_type_invariant(&*self); }
        self.n = if self.n < N_MIN + N_STEP {
            N_MIN
        } else {
            self.n - N_STEP
        };
    }

    pub fn increase_multiplier(&mut self)
        ensures
            final(self)@ == old(self)@.multiplier_increased(),
    {
        proof { use_type_invariant(&*self); }
        self.multiplier = self.multiplier.saturating_add(MULTIPLIER_STEP);
    }

    pub fn decrease_multiplier(&mut self)
        ensures
            final(self)@ == old(self)@.multiplier_decreased(),
    {
        proof { use_type_invariant(&*self); }
        self.multiplier = if self.multiplier < MULTIPLIER_MIN + MULTIPLIER_STEP {
            MULTIPLIER_MIN
        } else {
            self.multiplier - MULTIPLIER_STEP
        };
    }

    /// Restores every field, `auto_rotate` included, to its startup value.
    pub fn reset(&mut self)
        ensures
            final(self)@ == defaults(),
    {
        *self = ParameterState::new();
    }

    /// Scales the zoom by `1 + 0.1 * lines` for a scroll of `delta` thousandths of a
    /// line, rounding down, then clamps it.
    pub fn apply_scroll(&mut self, delta: i64)
        ensures
            final(self)@ == old(self)@.scrolled(delta as int),
    {
        proof { use_type_invariant(&*self); }
        let factor: i128 = ZOOM_FACTOR_DEN as i128 + delta as i128;
        if factor <= 0 {
            proof {
                let z = self.zoom as int;
                let f = factor as int;
                assert(z * f <= 0) by (nonlinear_arith)
                    requires z >= 0, f <= 0;
                assert((z * f) / 10000 <= 0) by (nonlinear_arith)
                    requires z * f <= 0;
            }
            self.zoom = ZOOM_MIN;
        } else {
            let z: u128 = self.zoom as u128;
            let f: u128 = factor as u128;
            proof {
                assert(z * f <= 5000 * 0x1_0000_0000_0000_0000) by (nonlinear_arith)
                    requires z <= 5000, f <= 0x1_0000_0000_0000_0000;
            }
            let scaled: u128 = z * f / (ZOOM_FACTOR_DEN as u128);
            self.zoom = if scaled < ZOOM_MIN as u128 {
                ZOOM_MIN
            } else if scaled > ZOOM_MAX as u128 {
                ZOOM_MAX
            } else {
                scaled as u64
            };
        }
    }

    /// Advances the rotation by `speed` when auto-rotation is on. The rotation is
    /// unbounded in meaning; its store wraps, which at 0.01 rad a tick takes longer
    /// than any run.
    pub fn tick(&mut self)
        ensures
            final(self)@ == old(self)@.ticked(),
    {
        proof { use_type_invariant(&*self); }
        if self.auto_rotate {
            self.rotation = self.rotation.wrapping_add(self.speed);
        }
    }

    pub fn key_pressed(&mut self, key: Key)
        ensures
            final(self)@ == old(self)@.after_key(key),
    {
        match key {
            Key::Space => self.toggle_auto_rotate(),
            Key::Up => self.increase_size(),
            Key::Down => self.decrease_size(),
            Key::Left => self.decrease_turns(),
            Key::Right => self.increase_turns(),
            Key::Q => self.increase_n(),
            Key::A => self.decrease_n(),
            Key::R => self.reset(),
            Key::M => self.increase_multiplier(),
            Key::N => self.decrease_multiplier(),
            Key::Other => {},
        }
    }

    pub fn mouse_wheel(&mut self, delta: ScrollDelta)
        ensures
            final(self)@ == old(self)@.after_wheel(delta),
    {
        match delta {
            ScrollDelta::Lines { x: _, y } => self.apply_scroll(y),
            ScrollDelta::Pixels => {},
        }
    }

    pub fn handle_event(&mut self, event: Event)
        ensures
            final(self)@ == old(self)@.after_event(event),
    {
        match event {
            Event::KeyPressed(key) => self.key_pressed(key),
            Event::Wheel(delta) => self.mouse_wheel(delta),
            Event::Tick => self.tick(),
        }
    }

    pub fn zoom(&self) -> (r: u64)
        ensures
            r == self@.zoom,
            self@.in_range(),
    {
        proof { use_type_invariant(self); }
        self.zoom
    }

    pub fn rotation(&self) -> (r: i64)
        ensures
            r == self@.rotation,
            self@.in_range(),
    {
        proof { use_type_invariant(self); }
        self.rotation
    }

    pub fn speed(&self) -> (r: i64)
        ensures
            r == self@.speed,
            self@.in_range(),
    {
        proof { use_type_invariant(self); }
        self.speed
    }

    pub fn auto_rotate(&self) -> (r: bool)
        ensures
            r == self@.auto_rotate,
            self@.in_range(),
    {
        proof { use_type_invariant(self); }
        self.auto_rotate
    }

    pub fn spiral_size(&self) -> (r: u64)
        ensures
            r == self@.spiral_size,
            self@.in_range(),
    {
        proof { use_type_invariant(self); }
        self.spiral_size
    }

    pub fn turns(&self) -> (r: u64)
        ensures
            r == self@.turns,
            self@.in_range(),
    {
        proof { use_type_invariant(self); }
        self.turns
    }

    pub fn n(&self) -> (r: u64)
        ensures
            r == self@.n,
            self@.in_range(),
    {
        proof { use_type_invariant(self); }
        self.n
    }

    pub fn multiplier(&self) -> (r: u64)
        ensures
            r == self@.multiplier,
            self@.in_range(),
    {
        proof { use_type_invariant(self); }
        self.multiplier
    }
}

} // verus!
