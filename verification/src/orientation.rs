use crate::fixed::{lemma_times_zero, Fixed};
use crate::input::{axis, lean, signed, InputSnapshot};
use vstd::prelude::*;

verus! {

/// The steepest pitch upward, in degrees: 89.9.
pub const PITCH_MAX_RAW: i64 = 89_900_000_000;

/// The steepest pitch downward, in degrees: -89.9.
pub const PITCH_MIN_RAW: i64 = -89_900_000_000;

/// Pixels of horizontal mouse motion per radian of orbit.
pub const ORBIT_PIXELS_PER_RADIAN: i64 = 75;

/// Degrees per pixel of mouse motion of a default controller: 3.2.
pub const DEFAULT_MOUSE_SENSITIVITY_RAW: i64 = 3_200_000_000;

/// Degrees per frame of a held look key of a default controller: 4.5.
pub const DEFAULT_KEY_SENSITIVITY_RAW: i64 = 4_500_000_000;

/// How look input turns the player on a frame.
#[derive(Clone, Copy, Debug, PartialEq, Eq, Structural)]
pub enum LookMode {
    /// Mouse and look keys add to yaw and pitch.
    FreeLook,
    /// Horizontal mouse motion swings the player about the world origin
    /// while the left mouse button is held.
    Orbit { button_held: bool },
}

/// What the driver does to the player's transform after a look update.
#[derive(Clone, Copy, Debug, PartialEq, Eq, Structural)]
pub enum LookCommand {
    /// Leave the transform as it is.
    Keep,
    /// Set the rotation to `yaw` degrees about the vertical axis, then
    /// `pitch` degrees about the sideways axis.
    Face { yaw: Fixed, pitch: Fixed },
    /// Rotate the transform about the world origin by `angle` radians about
    /// the vertical axis.
    Swing { angle: Fixed },
}

/// A mouse button.
#[derive(Clone, Copy, Debug, PartialEq, Eq, Structural)]
pub enum MouseButton {
    Left,
    Right,
    Middle,
    Other,
}

/// A mouse button went down or up.
#[derive(Clone, Copy, Debug, PartialEq, Eq, Structural)]
pub struct ButtonEvent {
    pub button: MouseButton,
    pub pressed: bool,
}

/// Whether the left mouse button is held after `events`, in the order they
/// came: its last event decides, and without one it stays as it was.
pub open spec fn spec_held_after(held: bool, events: Seq<ButtonEvent>) -> bool
    decreases events.len(),
{
    if events.len() == 0 {
        held
    } else if events.last().button == MouseButton::Left {
        events.last().pressed
    } else {
        spec_held_after(held, events.drop_last())
    }
}

/// Whether the left mouse button is held after `events`, in the order they
/// came.
pub fn held_after(held: bool, events: &[ButtonEvent]) -> (r: bool)
    ensures
        r == spec_held_after(held, events@),
{
    let mut down = held;
    let mut i: usize = 0;
    while i < events.len()
        invariant
            i <= events.len(),
            down == spec_held_after(held, events@.take(i as int)),
        decreases events.len() - i,
    {
        proof {
            let next = events@.take(i + 1);
            assert(next.drop_last() == events@.take(i as int));
            assert(next.last() == events@[i as int]);
        }
        if events[i].button == MouseButton::Left {
            down = events[i].pressed;
        }
        i += 1;
    }
    proof {
        assert(events@.take(events.len() as int) == events@);
    }
    down
}

/// Saturating sum of `deltas`, taken left to right.
pub open spec fn spec_total(deltas: Seq<Fixed>) -> Fixed
    decreases deltas.len(),
{
    if deltas.len() == 0 {
        Fixed::zero()
    } else {
        spec_total(deltas.drop_last()).plus(deltas.last())
    }
}

/// The motion of a frame from the motions of its mouse events: their
/// saturating sum, taken in the order they came.
pub fn total(deltas: &[Fixed]) -> (r: Fixed)
    ensures
        r == spec_total(deltas@),
{
    let mut sum = Fixed::zero();
    let mut i: usize = 0;
    while i < deltas.len()
        invariant
            i <= deltas.len(),
            sum == spec_total(deltas@.take(i as int)),
        decreases deltas.len() - i,
    {
        proof {
            let next = deltas@.take(i + 1);
            assert(next.drop_last() == deltas@.take(i as int));
            assert(next.last() == deltas@[i as int]);
        }
        sum = sum.plus(deltas[i]);
        i += 1;
    }
    proof {
        assert(deltas@.take(deltas.len() as int) == deltas@);
    }
    sum
}

/// Yaw and pitch of the player with the sensitivities that drive them.
pub ghost struct LookModel {
    pub mouse_sensitivity: Fixed,
    pub key_sensitivity: Fixed,
    pub yaw: Fixed,
    pub pitch: Fixed,
}

impl LookModel {
    /// The pitch lies within the limits.
    pub open spec fn level(self) -> bool {
        PITCH_MIN_RAW <= self.pitch@ <= PITCH_MAX_RAW
    }

    /// Free look: the yaw gains the horizontal mouse motion times the mouse
    /// sensitivity and the look keys' side times the key sensitivity. The
    /// pitch loses the vertical mouse motion times the mouse sensitivity,
    /// gains the look keys' side times the key sensitivity, and is then
    /// held within the limit.
    pub open spec fn turned(self, input: &InputSnapshot) -> LookModel {
        LookModel {
            yaw: self.yaw.plus(input.mouse_dx.times(self.mouse_sensitivity)).plus(
                signed(axis(input.look_right, input.look_left), self.key_sensitivity),
            ),
            pitch: self.pitch.minus(input.mouse_dy.times(self.mouse_sensitivity)).plus(
                signed(axis(input.look_up, input.look_down), self.key_sensitivity),
            ).clamp(Fixed { raw: PITCH_MIN_RAW }, Fixed { raw: PITCH_MAX_RAW }),
            ..self
        }
    }

    /// The state after a look update: only free look changes it.
    pub open spec fn updated(self, mode: LookMode, input: &InputSnapshot) -> LookModel {
        match mode {
            LookMode::FreeLook => self.turned(input),
            LookMode::Orbit { .. } => self,
        }
    }

    /// What a look update asks of the driver. Free look faces the new yaw
    /// and pitch. Orbit with the button held swings by the horizontal mouse
    /// motion, sign turned, over [`ORBIT_PIXELS_PER_RADIAN`]; with the button
    /// up it keeps the transform.
    pub open spec fn command(self, mode: LookMode, input: &InputSnapshot) -> LookCommand {
        match mode {
            LookMode::FreeLook => LookCommand::Face {
                yaw: self.turned(input).yaw,
                pitch: self.turned(input).pitch,
            },
            LookMode::Orbit { button_held } => if button_held {
                LookCommand::Swing { angle: input.mouse_dx.neg().over_int(ORBIT_PIXELS_PER_RADIAN) }
            } else {
                LookCommand::Keep
            },
        }
    }
}

impl LookModel {
    /// Free look over the frames `inputs`, in the order they came.
    pub open spec fn turned_through(self, inputs: Seq<InputSnapshot>) -> LookModel
        decreases inputs.len(),
    {
        if inputs.len() == 0 {
            self
        } else {
            self.turned_through(inputs.drop_last()).turned(&inputs.last())
        }
    }

    /// After a frame of free look the pitch lies within the limits, whatever
    /// it was and however large the input.
    pub proof fn lemma_turned_is_level(self, input: &InputSnapshot)
        ensures
            self.turned(input).level(),
    {
    }

    /// After any number of frames of free look, a pitch that began within
    /// the limits lies within them.
    pub proof fn lemma_turned_through_is_level(self, inputs: Seq<InputSnapshot>)
        requires
            self.level(),
        ensures
            self.turned_through(inputs).level(),
        decreases inputs.len(),
    {
        if inputs.len() > 0 {
            self.turned_through(inputs.drop_last()).lemma_turned_is_level(&inputs.last());
        }
    }

    /// A frame with no look key held and no mouse motion leaves yaw and
    /// pitch as they were: free look faces where it faced, a held orbit
    /// swings by nothing, and an orbit with the button up keeps the
    /// transform.
    pub proof fn lemma_idle_look(self, mode: LookMode, input: &InputSnapshot)
        requires
            self.level(),
            !input.looking(),
        ensures
            self.updated(mode, input) == self,
            self.command(mode, input) == match mode {
                LookMode::FreeLook => LookCommand::Face { yaw: self.yaw, pitch: self.pitch },
                LookMode::Orbit { button_held } => if button_held {
                    LookCommand::Swing { angle: Fixed::zero() }
                } else {
                    LookCommand::Keep
                },
            },
    {
        lemma_times_zero(self.mouse_sensitivity);
    }
}

/// Turns look input into the player's yaw and pitch.
pub struct OrientationController {
    mouse_sensitivity: Fixed,
    key_sensitivity: Fixed,
    yaw: Fixed,
    pitch: Fixed,
}

impl View for OrientationController {
    type V = LookModel;

    closed spec fn view(&self) -> LookModel {
        LookModel {
            mouse_sensitivity: self.mouse_sensitivity,
            key_sensitivity: self.key_sensitivity,
            yaw: self.yaw,
            pitch: self.pitch,
        }
    }
}

impl OrientationController {
    #[verifier::type_invariant]
    spec fn pitch_within_limit(&self) -> bool {
        PITCH_MIN_RAW <= self.pitch.raw <= PITCH_MAX_RAW
    }

    /// A controller that looks straight ahead, with the given degrees per
    /// pixel of mouse motion and degrees per frame of a held look key.
    pub fn new(mouse_sensitivity: Fixed, key_sensitivity: Fixed) -> (r: OrientationController)
        ensures
            r@ == (LookModel {
                mouse_sensitivity,
                key_sensitivity,
                yaw: Fixed::zero(),
                pitch: Fixed::zero(),
            }),
    {
        OrientationController {
            mouse_sensitivity,
            key_sensitivity,
            yaw: Fixed::zero(),
            pitch: Fixed::zero(),
        }
    }

    /// Yaw in degrees.
    pub fn yaw(&self) -> (r: Fixed)
        ensures
            r == self@.yaw,
    {
        self.yaw
    }

    /// Pitch in degrees. It never leaves the limit.
    pub fn pitch(&self) -> (r: Fixed)
        ensures
            r == self@.pitch,
            self@.level(),
    {
        proof {
            use_type_invariant(self);
        }
        self.pitch
    }

    /// Degrees per pixel of mouse motion.
    pub fn mouse_sensitivity(&self) -> (r: Fixed)
        ensures
            r == self@.mouse_sensitivity,
    {
        self.mouse_sensitivity
    }

    /// Degrees per frame of a held look key.
    pub fn key_sensitivity(&self) -> (r: Fixed)
        ensures
            r == self@.key_sensitivity,
    {
        self.key_sensitivity
    }

    /// Turns the controller to the given yaw and pitch in degrees, with the
    /// pitch brought within the limits.
    pub fn set_facing(&mut self, yaw: Fixed, pitch: Fixed)
        ensures
            final(self)@ == (LookModel {
                yaw,
                pitch: pitch.clamp(Fixed { raw: PITCH_MIN_RAW }, Fixed { raw: PITCH_MAX_RAW }),
                ..old(self)@
            }),
            final(self)@.level(),
    {
        proof {
            use_type_invariant(&*self);
        }
        let held = pitch.clamp(Fixed::from_raw(PITCH_MIN_RAW), Fixed::from_raw(PITCH_MAX_RAW));
        self.yaw = yaw;
        self.pitch = held;
    }

    /// Takes in the look input of one frame and says what the driver does
    /// to the transform.
    pub fn update(&mut self, mode: LookMode, input: &InputSnapshot) -> (command: LookCommand)
        ensures
            final(self)@ == old(self)@.updated(mode, input),
            command == old(self)@.command(mode, input),
            old(self)@.level(),
            final(self)@.level(),
            !input.looking() ==> final(self)@ == old(self)@,
    {
        proof {
            use_type_invariant(&*self);
        }
        match mode {
            LookMode::FreeLook => {
                let yaw = self.yaw.plus(input.mouse_dx.times(self.mouse_sensitivity)).plus(
                    lean(input.look_right, input.look_left, self.key_sensitivity),
                );
                let pitch = self.pitch.minus(input.mouse_dy.times(self.mouse_sensitivity)).plus(
                    lean(input.look_up, input.look_down, self.key_sensitivity),
                ).clamp(Fixed::from_raw(PITCH_MIN_RAW), Fixed::from_raw(PITCH_MAX_RAW));
                self.yaw = yaw;
                self.pitch = pitch;
                LookCommand::Face { yaw, pitch }
            },
            LookMode::Orbit { button_held } => {
                if button_held {
                    LookCommand::Swing {
                        angle: input.mouse_dx.neg().over_int(ORBIT_PIXELS_PER_RADIAN),
                    }
                } else {
                    LookCommand::Keep
                }
            },
        }
    }
}

impl Default for OrientationController {
    /// The controller with 3.2 degrees per pixel and 4.5 degrees per frame
    /// of a held look key.
    fn default() -> (r: OrientationController)
        ensures
            r@ == (LookModel {
                mouse_sensitivity: Fixed { raw: DEFAULT_MOUSE_SENSITIVITY_RAW },
                key_sensitivity: Fixed { raw: DEFAULT_KEY_SENSITIVITY_RAW },
                yaw: Fixed::zero(),
                pitch: Fixed::zero(),
            }),
    {
        OrientationController::new(
            Fixed::from_raw(DEFAULT_MOUSE_SENSITIVITY_RAW),
            Fixed::from_raw(DEFAULT_KEY_SENSITIVITY_RAW),
        )
    }
}

} // verus!
