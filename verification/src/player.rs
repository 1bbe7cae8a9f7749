use crate::countdown::{fresh, rewound, runs_once, ticked, Countdown, TimerState};
use crate::fixed::Fixed;
use crate::vec3::Vec3;
use vstd::prelude::*;

verus! {

/// Ground speed of a default player: 3.0.
pub const DEFAULT_SPEED_RAW: i64 = 3_000_000_000;

/// Jump force of a default player: 13.0.
pub const DEFAULT_JUMP_FORCE_RAW: i64 = 13_000_000_000;

/// Gravity of a default player: -9.81.
pub const DEFAULT_GRAVITY_RAW: i64 = -9_810_000_000;

/// Run of the float timer of a new player: one second.
pub const DEFAULT_TIMER_NANOS: u64 = 1_000_000_000;

/// Length of the float window: 200 milliseconds.
pub const FLOAT_WINDOW_NANOS: u64 = 200_000_000;

/// Upward velocity added per frame of float assist: 0.5.
pub const FLOAT_IMPULSE_RAW: i64 = 500_000_000;

/// Where the jump machine stands.
///
/// The machine is the one with float assist: a press on the ground jumps, a
/// press in the air opens a short window, and holding the key while the
/// window is open adds an upward impulse each frame. There is no toggle into
/// flight: [`PlayerState::set_flying`] is the caller's to use.
#[derive(Clone, Copy, Debug, PartialEq, Eq, Structural)]
pub enum JumpPhase {
    /// On the ground.
    Grounded,
    /// In the air with the float window shut.
    Airborne,
    /// In the air with the float window open.
    Floatable,
}

/// The physical state of the player, with the float timer as its fields.
pub ghost struct PlayerModel {
    pub speed: Fixed,
    pub is_flying: bool,
    pub is_on_ground: bool,
    pub jump_force: Fixed,
    pub gravity: Fixed,
    pub velocity: Vec3,
    pub can_float: bool,
    pub timer: TimerState,
}

impl PlayerModel {
    /// A player at rest on the ground with the given constants.
    pub open spec fn initial(speed: Fixed, jump_force: Fixed, gravity: Fixed) -> PlayerModel {
        PlayerModel {
            speed,
            is_flying: false,
            is_on_ground: true,
            jump_force,
            gravity,
            velocity: Vec3::zero(),
            can_float: false,
            timer: fresh(DEFAULT_TIMER_NANOS as nat),
        }
    }

    /// Standing wins over the float window: a player on the ground is
    /// grounded whatever `can_float` says.
    pub open spec fn phase(self) -> JumpPhase {
        if self.is_on_ground {
            JumpPhase::Grounded
        } else if self.can_float {
            JumpPhase::Floatable
        } else {
            JumpPhase::Airborne
        }
    }

    /// The float timer advances by `nanos`; the tick on which it expires
    /// shuts the float window.
    pub open spec fn timer_ticked(self, nanos: u64) -> PlayerModel {
        let timer = ticked(self.timer, nanos as nat);
        PlayerModel { timer, can_float: self.can_float && !timer.just_finished, ..self }
    }

    /// One move of the jump machine. `pressed` is the jump key's rising
    /// edge, `held` its level.
    ///
    /// On the ground a press jumps: the vertical velocity becomes the jump
    /// force, the player leaves the ground with the float window shut, and
    /// the float timer starts over. In the air with the window open, each
    /// frame on which the key is held adds the float impulse. In the air
    /// with the window shut, a press opens it and starts the float timer
    /// with the short window. Anything else changes nothing.
    pub open spec fn jumped(self, pressed: bool, held: bool) -> PlayerModel {
        if self.is_on_ground {
            if pressed {
                PlayerModel {
                    velocity: Vec3 { y: self.jump_force, ..self.velocity },
                    is_on_ground: false,
                    can_float: false,
                    timer: rewound(self.timer),
                    ..self
                }
            } else {
                self
            }
        } else if self.can_float {
            if held {
                PlayerModel {
                    velocity: Vec3 {
                        y: self.velocity.y.plus(Fixed { raw: FLOAT_IMPULSE_RAW }),
                        ..self.velocity
                    },
                    ..self
                }
            } else {
                self
            }
        } else if pressed {
            PlayerModel { can_float: true, timer: fresh(FLOAT_WINDOW_NANOS as nat), ..self }
        } else {
            self
        }
    }

    /// Gravity acts for `dt` seconds unless the player is flying.
    pub open spec fn pulled(self, dt: Fixed) -> PlayerModel {
        if self.is_flying {
            self
        } else {
            PlayerModel {
                velocity: Vec3 { y: self.velocity.y.plus(self.gravity.times(dt)), ..self.velocity },
                ..self
            }
        }
    }

    /// Vertical integration: the position moves by the velocity times `dt`,
    /// and the ground plane at height zero stops the fall. At or below the
    /// plane the player stands on it with no vertical velocity; above it the
    /// player is in the air.
    pub open spec fn settled(self, translation: Vec3, dt: Fixed) -> (PlayerModel, Vec3) {
        let moved = translation.plus(self.velocity.scale(dt));
        if moved.y@ <= 0 {
            (
                PlayerModel {
                    is_on_ground: true,
                    velocity: Vec3 { y: Fixed::zero(), ..self.velocity },
                    ..self
                },
                Vec3 { y: Fixed::zero(), ..moved },
            )
        } else {
            (PlayerModel { is_on_ground: false, ..self }, moved)
        }
    }
}

/// Sum of the tick lengths `ticks`, in nanoseconds.
pub open spec fn span(ticks: Seq<u64>) -> nat
    decreases ticks.len(),
{
    if ticks.len() == 0 {
        0
    } else {
        span(ticks.drop_last()) + ticks.last() as nat
    }
}

impl PlayerModel {
    /// The float timer runs once, and the float window is open only while
    /// the timer has not finished.
    pub open spec fn coherent(self) -> bool {
        &&& runs_once(self.timer)
        &&& self.can_float ==> !self.timer.finished
    }

    /// The jump machine over frames of the lengths `ticks` with the jump
    /// key held down throughout and never pressed anew: on each frame the
    /// float timer ticks and the machine then moves.
    pub open spec fn held(self, ticks: Seq<u64>) -> PlayerModel
        decreases ticks.len(),
    {
        if ticks.len() == 0 {
            self
        } else {
            self.held(ticks.drop_last()).timer_ticked(ticks.last()).jumped(false, true)
        }
    }

    /// A new player is coherent.
    pub proof fn lemma_initial_coherent(speed: Fixed, jump_force: Fixed, gravity: Fixed)
        ensures
            PlayerModel::initial(speed, jump_force, gravity).coherent(),
    {
    }

    /// The float timer and the jump machine keep a player coherent.
    pub proof fn lemma_stays_coherent(self, nanos: u64, pressed: bool, held: bool)
        requires
            self.coherent(),
        ensures
            self.timer_ticked(nanos).coherent(),
            self.jumped(pressed, held).coherent(),
    {
    }

    /// A jump from the ground gives the jump force as vertical velocity and
    /// takes the player off the ground with the float window shut.
    pub proof fn lemma_jump_leaves_ground(self, held: bool)
        requires
            self.is_on_ground,
        ensures
            self.jumped(true, held).velocity.y == self.jump_force,
            !self.jumped(true, held).is_on_ground,
            self.jumped(true, held).phase() == JumpPhase::Airborne,
    {
    }

    /// While the float window is open, a frame on which the jump key is held
    /// raises the vertical velocity by the float impulse: strictly, unless
    /// it already is the largest value.
    pub proof fn lemma_float_raises(self, pressed: bool)
        requires
            self.phase() == JumpPhase::Floatable,
        ensures
            self.jumped(pressed, true).velocity.y == self.velocity.y.plus(
                Fixed { raw: FLOAT_IMPULSE_RAW },
            ),
            self.velocity.y@ < i64::MAX ==> self.jumped(pressed, true).velocity.y@
                > self.velocity.y@,
    {
    }

    /// Holding the jump key with the float window open through frames that
    /// end before the float timer runs out keeps the window open, the player
    /// in the air and the timer running, whatever the velocity.
    pub proof fn lemma_float_stalls(self, ticks: Seq<u64>)
        requires
            self.coherent(),
            self.phase() == JumpPhase::Floatable,
            self.timer.elapsed + span(ticks) < self.timer.duration,
        ensures
            self.held(ticks).phase() == JumpPhase::Floatable,
            self.held(ticks).coherent(),
            self.held(ticks).timer.elapsed == self.timer.elapsed + span(ticks),
            self.held(ticks).timer.duration == self.timer.duration,
        decreases ticks.len(),
    {
        if ticks.len() > 0 {
            self.lemma_float_stalls(ticks.drop_last());
        }
    }

    /// Holding the jump key through frames that end before the float timer
    /// runs out keeps the window open and raises the vertical velocity by
    /// one float impulse per frame.
    pub proof fn lemma_float_window_open(self, ticks: Seq<u64>)
        requires
            self.coherent(),
            self.phase() == JumpPhase::Floatable,
            self.timer.elapsed + span(ticks) < self.timer.duration,
            self.velocity.y@ + ticks.len() * FLOAT_IMPULSE_RAW <= i64::MAX,
        ensures
            self.held(ticks).phase() == JumpPhase::Floatable,
            self.held(ticks).velocity.y@ == self.velocity.y@ + ticks.len() * FLOAT_IMPULSE_RAW,
        decreases ticks.len(),
    {
        self.lemma_float_stalls(ticks);
        if ticks.len() > 0 {
            let before = ticks.drop_last();
            assert((ticks.len() - 1) * FLOAT_IMPULSE_RAW == ticks.len() * FLOAT_IMPULSE_RAW
                - FLOAT_IMPULSE_RAW) by (nonlinear_arith);
            self.lemma_float_stalls(before);
            self.lemma_float_window_open(before);
        }
    }

    /// With the float window shut and no new press, holding the jump key
    /// changes nothing but the float timer, however long it is held.
    pub proof fn lemma_shut_window_stays_shut(self, ticks: Seq<u64>)
        requires
            !self.can_float,
        ensures
            self.held(ticks) == (PlayerModel { timer: self.held(ticks).timer, ..self }),
        decreases ticks.len(),
    {
        if ticks.len() > 0 {
            self.lemma_shut_window_stays_shut(ticks.drop_last());
        }
    }

    /// Holding the jump key in the air through frames that last as long as
    /// the float timer has left, or longer, ends with the window shut.
    pub proof fn lemma_float_window_shuts(self, ticks: Seq<u64>)
        requires
            self.coherent(),
            !self.is_on_ground,
            self.timer.elapsed + span(ticks) >= self.timer.duration,
            ticks.len() > 0,
        ensures
            !self.held(ticks).can_float,
        decreases ticks.len(),
    {
        let before = ticks.drop_last();
        if !self.can_float {
            self.lemma_shut_window_stays_shut(ticks);
        } else if self.timer.elapsed + span(before) >= self.timer.duration {
            if before.len() > 0 {
                self.lemma_float_window_shuts(before);
                self.held(before).lemma_shut_window_stays_shut(seq![ticks.last()]);
                assert(seq![ticks.last()].drop_last() =~= Seq::<u64>::empty());
                assert(self.held(before).held(seq![ticks.last()]) == self.held(ticks)) by {
                    reveal_with_fuel(PlayerModel::held, 2);
                }
            }
        } else {
            self.lemma_float_stalls(before);
        }
    }
}

/// The physical state of the player.
///
/// The speed, the jump force and the gravity are fixed when the player is
/// made. The rest changes only through the methods below.
pub struct PlayerState {
    speed: Fixed,
    is_flying: bool,
    is_on_ground: bool,
    jump_force: Fixed,
    gravity: Fixed,
    velocity: Vec3,
    can_float: bool,
    float_timer: Countdown,
}

impl View for PlayerState {
    type V = PlayerModel;

    closed spec fn view(&self) -> PlayerModel {
        PlayerModel {
            speed: self.speed,
            is_flying: self.is_flying,
            is_on_ground: self.is_on_ground,
            jump_force: self.jump_force,
            gravity: self.gravity,
            velocity: self.velocity,
            can_float: self.can_float,
            timer: self.float_timer@,
        }
    }
}

impl PlayerState {
    /// A player at rest on the ground: not flying, float window shut, and a
    /// float timer of one second at its start.
    pub fn new(speed: Fixed, jump_force: Fixed, gravity: Fixed) -> (r: PlayerState)
        ensures
            r@ == PlayerModel::initial(speed, jump_force, gravity),
            r@.coherent(),
    {
        PlayerState {
            speed,
            is_flying: false,
            is_on_ground: true,
            jump_force,
            gravity,
            velocity: Vec3::zero(),
            can_float: false,
            float_timer: Countdown::new(DEFAULT_TIMER_NANOS),
        }
    }

    /// Greatest ground speed.
    pub fn speed(&self) -> (r: Fixed)
        ensures
            r == self@.speed,
    {
        self.speed
    }

    /// Upward velocity that a jump gives.
    pub fn jump_force(&self) -> (r: Fixed)
        ensures
            r == self@.jump_force,
    {
        self.jump_force
    }

    /// Vertical acceleration; negative pulls down.
    pub fn gravity(&self) -> (r: Fixed)
        ensures
            r == self@.gravity,
    {
        self.gravity
    }

    /// Velocity in world space.
    pub fn velocity(&self) -> (r: Vec3)
        ensures
            r == self@.velocity,
    {
        self.velocity
    }

    /// Whether gravity is switched off.
    pub fn is_flying(&self) -> (r: bool)
        ensures
            r == self@.is_flying,
    {
        self.is_flying
    }

    /// Whether the player stands on the ground plane.
    pub fn is_on_ground(&self) -> (r: bool)
        ensures
            r == self@.is_on_ground,
    {
        self.is_on_ground
    }

    /// Whether the float window is open.
    pub fn can_float(&self) -> (r: bool)
        ensures
            r == self@.can_float,
    {
        self.can_float
    }

    /// Where the jump machine stands.
    pub fn phase(&self) -> (r: JumpPhase)
        ensures
            r == self@.phase(),
    {
        if self.is_on_ground {
            JumpPhase::Grounded
        } else if self.can_float {
            JumpPhase::Floatable
        } else {
            JumpPhase::Airborne
        }
    }

    /// Replaces the velocity.
    pub fn set_velocity(&mut self, velocity: Vec3)
        ensures
            final(self)@ == (PlayerModel { velocity, ..old(self)@ }),
    {
        self.velocity = velocity;
    }

    /// Switches gravity off or on.
    pub fn set_flying(&mut self, is_flying: bool)
        ensures
            final(self)@ == (PlayerModel { is_flying, ..old(self)@ }),
    {
        self.is_flying = is_flying;
    }

    /// Advances the float timer by `nanos` nanoseconds and shuts the float
    /// window if the timer expired on this tick.
    pub fn tick_float_timer(&mut self, nanos: u64)
        ensures
            final(self)@ == old(self)@.timer_ticked(nanos),
    {
        if self.float_timer.tick(nanos) {
            self.can_float = false;
        }
    }

    /// One move of the jump machine; see [`PlayerModel::jumped`]. A press
    /// on the ground gives the jump force as vertical velocity and takes the
    /// player off the ground. Without a press, and without the key held
    /// while the float window is open in the air, nothing changes.
    pub fn jump(&mut self, pressed: bool, held: bool)
        ensures
            final(self)@ == old(self)@.jumped(pressed, held),
            old(self)@.is_on_ground && pressed ==> final(self)@.velocity.y == old(self)@.jump_force
                && !final(self)@.is_on_ground,
            !pressed && !(held && old(self)@.phase() == JumpPhase::Floatable) ==> final(self)@
                == old(self)@,
    {
        if self.is_on_ground {
            if pressed {
                self.velocity.y = self.jump_force;
                self.is_on_ground = false;
                self.can_float = false;
                self.float_timer.reset();
            }
        } else if self.can_float {
            if held {
                self.velocity.y = self.velocity.y.plus(Fixed::from_raw(FLOAT_IMPULSE_RAW));
            }
        } else if pressed {
            self.can_float = true;
            self.float_timer.restart(FLOAT_WINDOW_NANOS);
        }
    }

    /// Lets gravity act for `dt` seconds unless the player is flying.
    pub fn apply_gravity(&mut self, dt: Fixed)
        ensures
            final(self)@ == old(self)@.pulled(dt),
    {
        if !self.is_flying {
            self.velocity.y = self.velocity.y.plus(self.gravity.times(dt));
        }
    }

    /// Vertical integration with the ground clamp; see
    /// [`PlayerModel::settled`]. Afterwards the position is at or above the
    /// ground plane, the player stands exactly where the height is zero, and
    /// a standing player has no vertical velocity.
    pub fn settle(&mut self, translation: &mut Vec3, dt: Fixed)
        ensures
            (final(self)@, *final(translation)) == old(self)@.settled(*old(translation), dt),
            final(translation).y@ >= 0,
            final(self)@.is_on_ground <==> final(translation).y@ == 0,
            final(self)@.is_on_ground ==> final(self)@.velocity.y@ == 0,
    {
        let moved = translation.plus(self.velocity.scale(dt));
        *translation = moved;
        if moved.y.raw <= 0 {
            self.is_on_ground = true;
            self.velocity.y = Fixed::zero();
            translation.y = Fixed::zero();
        } else {
            self.is_on_ground = false;
        }
    }
}

impl Default for PlayerState {
    /// The player with speed 3.0, jump force 13.0 and gravity -9.81.
    fn default() -> (r: PlayerState)
        ensures
            r@ == PlayerModel::initial(
                Fixed { raw: DEFAULT_SPEED_RAW },
                Fixed { raw: DEFAULT_JUMP_FORCE_RAW },
                Fixed { raw: DEFAULT_GRAVITY_RAW },
            ),
    {
        PlayerState::new(
            Fixed::from_raw(DEFAULT_SPEED_RAW),
            Fixed::from_raw(DEFAULT_JUMP_FORCE_RAW),
            Fixed::from_raw(DEFAULT_GRAVITY_RAW),
        )
    }
}

} // verus!
