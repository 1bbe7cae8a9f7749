use crate::fixed::{
    lemma_blend_toward_zero, lemma_friction_holds_cap, lemma_square_bounds, lemma_times_bounded,
    lemma_times_sign, lemma_times_zero, lemma_within_one, magnitude, toward_zero, Fixed, SCALE,
};
use crate::input::{axis, lean, signed, InputSnapshot};
use crate::player::{JumpPhase, PlayerModel, PlayerState, FLOAT_IMPULSE_RAW};
use crate::vec3::{lemma_scale_zero, Vec3};
use vstd::prelude::*;

verus! {

/// Acceleration of a default controller: 5.0.
pub const DEFAULT_ACCELERATION_RAW: i64 = 5_000_000_000;

/// Friction of a default controller: 4.0.
pub const DEFAULT_FRICTION_RAW: i64 = 4_000_000_000;

/// Share of the speed beyond which a velocity change counts as over the
/// threshold: 0.9.
pub const OVER_THRESHOLD_RAW: i64 = 900_000_000;

/// Each component of a unit vector along a diagonal: the square root of one
/// half, rounded toward zero.
pub const DIAGONAL_RAW: i64 = 707_106_781;

/// The look direction and the direction to its right, as the driver reads
/// them from the player's orientation.
#[derive(Clone, Copy, Debug, PartialEq, Eq, Structural)]
pub struct Basis {
    pub forward: Vec3,
    pub right: Vec3,
}

/// The movement the held keys ask for, in the player's own frame: `z`
/// forward, `x` to the right, of length `speed` unless no direction is left.
/// Along a diagonal each component is `speed` times [`DIAGONAL_RAW`].
pub open spec fn spec_key_direction(input: &InputSnapshot, speed: Fixed) -> Vec3 {
    let x = axis(input.right, input.left);
    let z = axis(input.forward, input.backward);
    let along = if x != 0 && z != 0 {
        speed.times(Fixed { raw: DIAGONAL_RAW })
    } else {
        speed
    };
    Vec3 { x: signed(x, along), y: Fixed::zero(), z: signed(z, along) }
}

/// The movement the held keys ask for, in the player's own frame.
#[verifier::when_used_as_spec(spec_key_direction)]
pub fn key_direction(input: &InputSnapshot, speed: Fixed) -> (r: Vec3)
    ensures
        r == spec_key_direction(input, speed),
        r.is_zero() <== !input.moving(),
{
    let sideways = input.left != input.right;
    let lengthways = input.forward != input.backward;
    let along = if sideways && lengthways {
        speed.times(Fixed::from_raw(DIAGONAL_RAW))
    } else {
        speed
    };
    Vec3 {
        x: lean(input.right, input.left, along),
        y: Fixed::zero(),
        z: lean(input.forward, input.backward, along),
    }
}

impl Basis {
    /// `direction` carried from the player's frame into world space:
    /// `forward` times its `z` plus `right` times its `x`.
    pub open spec fn spec_resolve(&self, direction: Vec3) -> Vec3 {
        self.forward.scale(direction.z).plus(self.right.scale(direction.x))
    }

    /// `direction` carried from the player's frame into world space.
    #[verifier::when_used_as_spec(spec_resolve)]
    pub fn resolve(&self, direction: Vec3) -> (r: Vec3)
        ensures
            r == self.spec_resolve(direction),
    {
        self.forward.scale(direction.z).plus(self.right.scale(direction.x))
    }
}

/// Whether friction acts on a frame: no direction is asked for, or the
/// change from `velocity` to `direction` is longer than 0.9 times `speed`.
pub open spec fn spec_friction_applies(direction: Vec3, velocity: Vec3, speed: Fixed) -> bool {
    direction.is_zero() || direction.minus(velocity).longer_than(
        speed.times(Fixed { raw: OVER_THRESHOLD_RAW }),
    )
}

/// Whether friction acts on a frame.
#[verifier::when_used_as_spec(spec_friction_applies)]
pub fn friction_applies(direction: Vec3, velocity: Vec3, speed: Fixed) -> (r: bool)
    ensures
        r == spec_friction_applies(direction, velocity, speed),
{
    direction.is_zero() || direction.minus(velocity).longer_than(
        speed.times(Fixed::from_raw(OVER_THRESHOLD_RAW)),
    )
}

/// The tuning of the movement integrator.
#[derive(Clone, Copy, Debug, PartialEq, Eq, Structural)]
pub struct MovementController {
    /// How fast the held keys build up velocity.
    pub acceleration: Fixed,
    /// How fast friction takes velocity away.
    pub friction: Fixed,
}

impl MovementController {
    /// `velocity` after the keys act on it for `dt` seconds: it gains
    /// `wish` times the acceleration times `dt`.
    pub open spec fn accelerated(&self, velocity: Vec3, wish: Vec3, dt: Fixed) -> Vec3 {
        velocity.plus(wish.scale(self.acceleration).scale(dt))
    }

    /// `velocity` after friction acts on it for `dt` seconds: it is blended
    /// toward zero by the share friction times `dt`.
    pub open spec fn slowed(&self, velocity: Vec3, dt: Fixed) -> Vec3 {
        velocity.lerp(Vec3::zero(), self.friction.times(dt))
    }

    /// Horizontal integration: the velocity gains the world-space wish, and
    /// friction then acts where [`spec_friction_applies`] holds of the
    /// velocity the frame began with.
    pub open spec fn spec_drive(
        &self,
        p: PlayerModel,
        basis: &Basis,
        input: &InputSnapshot,
    ) -> PlayerModel {
        let dt = input.dt();
        let direction = key_direction(input, p.speed);
        let pushed = self.accelerated(p.velocity, basis.resolve(direction), dt);
        PlayerModel {
            velocity: if friction_applies(direction, p.velocity, p.speed) {
                self.slowed(pushed, dt)
            } else {
                pushed
            },
            ..p
        }
    }

    /// The change that the keys ask of the velocity, as far as one frame
    /// allows it: the change from the velocity to the asked direction,
    /// shortened to the acceleration times the frame time.
    pub open spec fn spec_acceleration_effect(
        &self,
        p: PlayerModel,
        input: &InputSnapshot,
    ) -> Vec3 {
        key_direction(input, p.speed).minus(p.velocity).clamp_length_max(
            self.acceleration.times(input.dt()),
        )
    }

    /// One whole frame, in this order: the float timer ticks, the keys and
    /// friction act on the velocity, gravity acts, the jump machine moves,
    /// the position is moved by the world-space wish times `dt`, and it is
    /// last integrated and clamped to the ground. Nothing moves the position
    /// after the clamp, so no frame ends below the ground plane, and a jump
    /// leaves the frame with the whole jump force.
    pub open spec fn spec_step(
        &self,
        p: PlayerModel,
        translation: Vec3,
        basis: &Basis,
        input: &InputSnapshot,
    ) -> (PlayerModel, Vec3) {
        let dt = input.dt();
        let ticked = p.timer_ticked(input.dt_nanos);
        let driven = self.spec_drive(ticked, basis, input);
        let jumped = driven.pulled(dt).jumped(input.jump_pressed, input.jump_held);
        let wish = basis.resolve(key_direction(input, p.speed));
        jumped.settled(translation.plus(wish.scale(dt)), dt)
    }

    /// The keys do not lift the player: the world-space wish does not rise,
    /// and where it falls the acceleration is not negative and friction
    /// times the frame time is a share between nothing and all.
    pub open spec fn keeps_down(&self, speed: Fixed, basis: &Basis, input: &InputSnapshot) -> bool {
        let wish = basis.resolve(key_direction(input, speed));
        wish.y@ == 0 || (wish.y@ < 0 && self.acceleration@ >= 0 && 0 <= self.friction.times(
            input.dt(),
        )@ <= SCALE)
    }

    /// Whether friction over a frame of `dt` seconds holds a velocity
    /// component within `cap` against keys whose wish is no further from
    /// zero than `reach`: the acceleration and `dt` are not negative,
    /// friction times `dt` is a share between nothing and all, `cap` and
    /// `reach` are not negative, the products stay below the largest value,
    /// and the share that friction takes of `cap` plus the most the keys can
    /// add comes to that most or more.
    pub open spec fn spec_holds_cap(&self, cap: Fixed, reach: Fixed, dt: Fixed) -> bool {
        let share = self.friction.times(dt);
        let most = reach.times(self.acceleration).times(dt);
        &&& self.acceleration@ >= 0
        &&& dt@ >= 0
        &&& 0 <= share@ <= SCALE
        &&& cap@ >= 0
        &&& reach@ >= 0
        &&& reach.times(self.acceleration)@ < i64::MAX
        &&& cap@ + most@ < i64::MAX
        &&& ((cap@ + most@) * share@) / (SCALE as int) >= most@
    }

    /// The furthest from zero that a velocity component stands after a
    /// frame on which friction does not act: the speed, the change that
    /// friction lets pass, and the most the keys can add.
    pub open spec fn free_run(&self, speed: Fixed, reach: Fixed, dt: Fixed) -> int {
        speed@ + speed.times(Fixed { raw: OVER_THRESHOLD_RAW })@ + reach.times(
            self.acceleration,
        ).times(dt)@
    }

    /// A controller with the given acceleration and friction.
    pub fn new(acceleration: Fixed, friction: Fixed) -> (r: MovementController)
        ensures
            r.acceleration == acceleration,
            r.friction == friction,
    {
        MovementController { acceleration, friction }
    }

    /// Whether friction over a frame of `dt` seconds holds a velocity
    /// component within `cap` against keys whose wish is no further from
    /// zero than `reach`; see [`MovementController::spec_holds_cap`].
    #[verifier::when_used_as_spec(spec_holds_cap)]
    pub fn holds_cap(&self, cap: Fixed, reach: Fixed, dt: Fixed) -> (r: bool)
        ensures
            r == self.spec_holds_cap(cap, reach, dt),
    {
        let share = self.friction.times(dt);
        let grown = reach.times(self.acceleration);
        let most = grown.times(dt);
        if self.acceleration.raw < 0 || dt.raw < 0 || share.raw < 0 || share.raw > SCALE
            || cap.raw < 0 || reach.raw < 0 || grown.raw == i64::MAX {
            return false;
        }
        let top: i128 = cap.raw as i128 + most.raw as i128;
        if top >= i64::MAX as i128 {
            return false;
        }
        assert(0 <= top * share.raw as i128 <= 0x7fff_ffff_ffff_ffff * 1_000_000_000)
            by (nonlinear_arith)
            requires
                0 <= top <= 0x7fff_ffff_ffff_ffff,
                0 <= share.raw <= 1_000_000_000,
        ;
        (top * share.raw as i128) / (SCALE as i128) >= most.raw as i128
    }

    /// The change that the keys ask of the velocity, as far as one frame
    /// allows it; see [`MovementController::spec_acceleration_effect`]. It is
    /// no longer than the acceleration times the frame time. The frame itself
    /// does not add it: [`MovementController::drive`] pushes along the
    /// world-space wish.
    pub fn acceleration_effect(&self, player: &PlayerState, input: &InputSnapshot) -> (r: Vec3)
        ensures
            r == self.spec_acceleration_effect(player@, input),
            r.length_squared() <= self.acceleration.times(input.dt())@ * self.acceleration.times(
                input.dt(),
            )@,
    {
        let most = self.acceleration.times(input.dt());
        let change = key_direction(input, player.speed()).minus(player.velocity());
        proof {
            change.lemma_clamp_is_short(most);
        }
        change.clamp_length_max(most)
    }

    /// Horizontal integration; see [`MovementController::spec_drive`].
    pub fn drive(&self, player: &mut PlayerState, basis: &Basis, input: &InputSnapshot)
        ensures
            final(player)@ == self.spec_drive(old(player)@, basis, input),
    {
        let dt = input.dt();
        let direction = key_direction(input, player.speed());
        let damp = friction_applies(direction, player.velocity(), player.speed());
        let wish = basis.resolve(direction);
        let pushed = player.velocity().plus(wish.scale(self.acceleration).scale(dt));
        if damp {
            player.set_velocity(pushed.lerp(Vec3::zero(), self.friction.times(dt)));
        } else {
            player.set_velocity(pushed);
        }
    }

    /// Advances the player and its position by one frame; see
    /// [`MovementController::spec_step`]. The frame ends at or above the
    /// ground plane, with the player standing exactly where the height is
    /// zero, and a standing player has no vertical velocity. A jump press on
    /// the ground that takes the player off the plane leaves the frame with
    /// the jump force as vertical velocity.
    pub fn step(
        &self,
        player: &mut PlayerState,
        translation: &mut Vec3,
        basis: &Basis,
        input: &InputSnapshot,
    )
        ensures
            (final(player)@, *final(translation)) == self.spec_step(
                old(player)@,
                *old(translation),
                basis,
                input,
            ),
            final(player)@.speed == old(player)@.speed,
            final(player)@.jump_force == old(player)@.jump_force,
            final(player)@.gravity == old(player)@.gravity,
            final(player)@.is_flying == old(player)@.is_flying,
            final(translation).y@ >= 0,
            final(player)@.is_on_ground <==> final(translation).y@ == 0,
            final(player)@.is_on_ground ==> final(player)@.velocity.y@ == 0,
            old(player)@.is_on_ground && input.jump_pressed && final(translation).y@ > 0
                ==> final(player)@.velocity.y == old(player)@.jump_force
                && !final(player)@.is_on_ground,
            old(player)@.coherent() ==> final(player)@.coherent(),
    {
        let dt = input.dt();
        player.tick_float_timer(input.dt_nanos);
        self.drive(player, basis, input);
        player.apply_gravity(dt);
        player.jump(input.jump_pressed, input.jump_held);
        let wish = basis.resolve(key_direction(input, player.speed()));
        *translation = translation.plus(wish.scale(dt));
        player.settle(translation, dt);
        proof {
            if old(player)@.coherent() {
                self.lemma_step_keeps_coherent(old(player)@, *old(translation), basis, input);
            }
        }
    }
}

/// With no movement key held, no direction is asked for.
pub proof fn lemma_idle_direction(input: &InputSnapshot, speed: Fixed)
    requires
        !input.moving(),
    ensures
        key_direction(input, speed) == Vec3::zero(),
{
}

impl Basis {
    /// Neither direction of the basis rises or falls.
    pub open spec fn level(&self) -> bool {
        self.forward.y.is_zero() && self.right.y.is_zero()
    }

    /// No direction in the player's frame is no direction in world space.
    pub proof fn lemma_resolve_zero(&self)
        ensures
            self.resolve(Vec3::zero()) == Vec3::zero(),
    {
        lemma_scale_zero(self.forward, Fixed::zero());
        lemma_scale_zero(self.right, Fixed::zero());
    }

    /// A level basis carries every direction to one that neither rises nor
    /// falls.
    pub proof fn lemma_resolve_level(&self, direction: Vec3)
        requires
            self.level(),
        ensures
            self.resolve(direction).y == Fixed::zero(),
    {
        lemma_times_zero(direction.z);
        lemma_times_zero(direction.x);
    }
}

impl MovementController {
    /// On a frame with no movement key held, where friction times the frame
    /// time is a share between nothing and all, each horizontal component
    /// of the velocity moves toward zero and never past it, and strictly
    /// closer where its share comes to a raw unit or more: its magnitude
    /// loses the share of it, rounded down.
    pub proof fn lemma_idle_velocity_decays(
        &self,
        p: PlayerModel,
        translation: Vec3,
        basis: &Basis,
        input: &InputSnapshot,
    )
        requires
            !input.moving(),
            0 <= self.friction.times(input.dt())@ <= SCALE,
        ensures
            ({
                let after = self.spec_step(p, translation, basis, input).0.velocity;
                let share = self.friction.times(input.dt())@;
                &&& toward_zero(p.velocity.x@, after.x@)
                &&& toward_zero(p.velocity.z@, after.z@)
                &&& magnitude(p.velocity.x@) * share >= SCALE ==> magnitude(after.x@) < magnitude(
                    p.velocity.x@,
                )
                &&& magnitude(p.velocity.z@) * share >= SCALE ==> magnitude(after.z@) < magnitude(
                    p.velocity.z@,
                )
                &&& p.velocity.x@ > i64::MIN ==> magnitude(after.x@) == magnitude(p.velocity.x@)
                    - (magnitude(p.velocity.x@) * share) / (SCALE as int)
                &&& p.velocity.z@ > i64::MIN ==> magnitude(after.z@) == magnitude(p.velocity.z@)
                    - (magnitude(p.velocity.z@) * share) / (SCALE as int)
            }),
    {
        let dt = input.dt();
        let share = self.friction.times(dt);
        let ticked = p.timer_ticked(input.dt_nanos);
        lemma_idle_direction(input, p.speed);
        basis.lemma_resolve_zero();
        lemma_scale_zero(Vec3::zero(), self.acceleration);
        lemma_scale_zero(Vec3::zero(), dt);
        assert(self.accelerated(p.velocity, Vec3::zero(), dt) == p.velocity);
        let driven = self.spec_drive(ticked, basis, input);
        assert(driven.velocity == self.slowed(p.velocity, dt));
        lemma_blend_toward_zero(p.velocity.x, share);
        lemma_blend_toward_zero(p.velocity.z, share);
    }

    /// With keys along at most one axis held, a speed that is not negative
    /// and a basis whose horizontal components are no further from zero than
    /// one, each horizontal component of the world-space wish is no further
    /// from zero than the speed.
    pub proof fn lemma_single_axis_wish(speed: Fixed, basis: &Basis, input: &InputSnapshot)
        requires
            speed@ >= 0,
            axis(input.right, input.left) == 0 || axis(input.forward, input.backward) == 0,
            magnitude(basis.forward.x@) <= SCALE,
            magnitude(basis.forward.z@) <= SCALE,
            magnitude(basis.right.x@) <= SCALE,
            magnitude(basis.right.z@) <= SCALE,
        ensures
            magnitude(basis.resolve(key_direction(input, speed)).x@) <= speed@,
            magnitude(basis.resolve(key_direction(input, speed)).z@) <= speed@,
    {
        let direction = key_direction(input, speed);
        lemma_within_one(basis.forward.x, direction.z);
        lemma_within_one(basis.forward.z, direction.z);
        lemma_within_one(basis.right.x, direction.x);
        lemma_within_one(basis.right.z, direction.x);
    }

    /// For a speed that is not negative, no component of the asked direction
    /// is further from zero than the speed.
    pub proof fn lemma_direction_within_speed(input: &InputSnapshot, speed: Fixed)
        requires
            speed@ >= 0,
        ensures
            magnitude(key_direction(input, speed).x@) <= speed@,
            magnitude(key_direction(input, speed).y@) <= speed@,
            magnitude(key_direction(input, speed).z@) <= speed@,
    {
        lemma_within_one(Fixed { raw: DIAGONAL_RAW }, speed);
    }

    /// The horizontal velocity after a frame is the velocity pushed by the
    /// keys and, where friction acts, blended toward zero: gravity, the jump
    /// machine and the ground leave it alone.
    pub proof fn lemma_horizontal_velocity(
        &self,
        p: PlayerModel,
        translation: Vec3,
        basis: &Basis,
        input: &InputSnapshot,
    )
        ensures
            ({
                let after = self.spec_step(p, translation, basis, input).0.velocity;
                let driven = self.spec_drive(p, basis, input).velocity;
                after.x == driven.x && after.z == driven.z
            }),
    {
    }

    /// On a frame on which friction acts and holds `cap` against `reach`,
    /// horizontal velocity components that are no further from zero than
    /// `cap` stay so, where the horizontal components of the world-space wish
    /// are no further from zero than `reach`.
    pub proof fn lemma_speed_cap(
        &self,
        p: PlayerModel,
        translation: Vec3,
        basis: &Basis,
        input: &InputSnapshot,
        cap: Fixed,
        reach: Fixed,
    )
        requires
            self.holds_cap(cap, reach, input.dt()),
            friction_applies(key_direction(input, p.speed), p.velocity, p.speed),
            magnitude(p.velocity.x@) <= cap@,
            magnitude(p.velocity.z@) <= cap@,
            magnitude(basis.resolve(key_direction(input, p.speed)).x@) <= reach@,
            magnitude(basis.resolve(key_direction(input, p.speed)).z@) <= reach@,
        ensures
            magnitude(self.spec_step(p, translation, basis, input).0.velocity.x@) <= cap@,
            magnitude(self.spec_step(p, translation, basis, input).0.velocity.z@) <= cap@,
    {
        let dt = input.dt();
        let share = self.friction.times(dt);
        let wish = basis.resolve(key_direction(input, p.speed));
        let grown = reach.times(self.acceleration);
        let most = grown.times(dt);
        lemma_times_bounded(wish.x, self.acceleration, reach);
        lemma_times_bounded(wish.z, self.acceleration, reach);
        lemma_times_bounded(wish.x.times(self.acceleration), dt, grown);
        lemma_times_bounded(wish.z.times(self.acceleration), dt, grown);
        let gain = wish.scale(self.acceleration).scale(dt);
        lemma_friction_holds_cap(p.velocity.x, gain.x, share, cap, most);
        lemma_friction_holds_cap(p.velocity.z, gain.z, share, cap, most);
        self.lemma_horizontal_velocity(p, translation, basis, input);
        assert(self.spec_drive(p, basis, input).velocity == self.slowed(
            self.accelerated(p.velocity, wish, dt),
            dt,
        ));
    }

    /// After a frame on which friction does not act, no horizontal velocity
    /// component is further from zero than [`MovementController::free_run`],
    /// whatever it was before: friction lets go only of a velocity within
    /// 0.9 times the speed of the asked direction. This holds for a speed
    /// and an acceleration that are not negative, a wish whose horizontal
    /// components are no further from zero than `reach`, and values below
    /// the largest.
    pub proof fn lemma_free_run(
        &self,
        p: PlayerModel,
        translation: Vec3,
        basis: &Basis,
        input: &InputSnapshot,
        reach: Fixed,
    )
        requires
            !friction_applies(key_direction(input, p.speed), p.velocity, p.speed),
            p.speed@ >= 0,
            self.acceleration@ >= 0,
            reach.times(self.acceleration)@ < i64::MAX,
            self.free_run(p.speed, reach, input.dt()) < i64::MAX,
            magnitude(basis.resolve(key_direction(input, p.speed)).x@) <= reach@,
            magnitude(basis.resolve(key_direction(input, p.speed)).z@) <= reach@,
        ensures
            magnitude(self.spec_step(p, translation, basis, input).0.velocity.x@)
                <= self.free_run(p.speed, reach, input.dt()),
            magnitude(self.spec_step(p, translation, basis, input).0.velocity.z@)
                <= self.free_run(p.speed, reach, input.dt()),
    {
        let dt = input.dt();
        let direction = key_direction(input, p.speed);
        let wish = basis.resolve(direction);
        let grown = reach.times(self.acceleration);
        let slack = p.speed.times(Fixed { raw: OVER_THRESHOLD_RAW });
        let change = direction.minus(p.velocity);
        lemma_times_sign(reach, self.acceleration);
        lemma_times_sign(grown, dt);
        lemma_times_bounded(wish.x, self.acceleration, reach);
        lemma_times_bounded(wish.z, self.acceleration, reach);
        lemma_times_bounded(wish.x.times(self.acceleration), dt, grown);
        lemma_times_bounded(wish.z.times(self.acceleration), dt, grown);
        Self::lemma_direction_within_speed(input, p.speed);
        assert(change.x@ * change.x@ <= change.length_squared() && change.z@ * change.z@
            <= change.length_squared()) by (nonlinear_arith)
            requires
                change.length_squared() == change.x@ * change.x@ + change.y@ * change.y@
                    + change.z@ * change.z@,
        ;
        lemma_square_bounds(change.x@, slack@);
        lemma_square_bounds(change.z@, slack@);
        self.lemma_horizontal_velocity(p, translation, basis, input);
    }

    /// On every frame, horizontal velocity components that are no further
    /// from zero than `cap` stay so, where friction holds `cap` against
    /// `reach`, `cap` is no less than [`MovementController::free_run`], the
    /// speed is not negative and the horizontal components of the
    /// world-space wish are no further from zero than `reach`.
    pub proof fn lemma_speed_bound(
        &self,
        p: PlayerModel,
        translation: Vec3,
        basis: &Basis,
        input: &InputSnapshot,
        cap: Fixed,
        reach: Fixed,
    )
        requires
            self.holds_cap(cap, reach, input.dt()),
            p.speed@ >= 0,
            self.free_run(p.speed, reach, input.dt()) <= cap@,
            magnitude(p.velocity.x@) <= cap@,
            magnitude(p.velocity.z@) <= cap@,
            magnitude(basis.resolve(key_direction(input, p.speed)).x@) <= reach@,
            magnitude(basis.resolve(key_direction(input, p.speed)).z@) <= reach@,
        ensures
            magnitude(self.spec_step(p, translation, basis, input).0.velocity.x@) <= cap@,
            magnitude(self.spec_step(p, translation, basis, input).0.velocity.z@) <= cap@,
    {
        if friction_applies(key_direction(input, p.speed), p.velocity, p.speed) {
            self.lemma_speed_cap(p, translation, basis, input, cap, reach);
        } else {
            lemma_times_sign(reach, self.acceleration);
            lemma_times_sign(reach.times(self.acceleration), input.dt());
            self.lemma_free_run(p, translation, basis, input, reach);
        }
    }

    /// A controller whose acceleration and friction are the whole numbers
    /// `push` and `drag` holds `cap` against `reach` on any frame on which
    /// friction times the frame time is no more than all, where `drag` times
    /// `cap` is `push` times `reach` or more. For acceleration 5 and friction
    /// 4 that is any `cap` from five fourths of `reach`, on frames of up to a
    /// quarter of a second.
    pub proof fn lemma_whole_tuning_holds_cap(
        &self,
        push: nat,
        drag: nat,
        cap: Fixed,
        reach: Fixed,
        dt: Fixed,
    )
        requires
            self.acceleration@ == push * SCALE,
            self.friction@ == drag * SCALE,
            dt@ >= 0,
            drag * dt@ <= SCALE,
            0 <= reach@,
            0 <= cap@,
            push * reach@ < i64::MAX,
            drag * cap@ >= push * reach@,
            cap@ + push * reach@ < i64::MAX,
        ensures
            self.holds_cap(cap, reach, dt),
    {
        let s = SCALE as int;
        let grown = reach.times(self.acceleration);
        assert(reach@ * (push * s) == (push * reach@) * s) by (nonlinear_arith);
        assert(((push * reach@) * s) / s == push * reach@) by (nonlinear_arith)
            requires
                s > 0,
        ;
        assert(grown@ == push * reach@);
        assert((drag * s) * dt@ == (drag * dt@) * s) by (nonlinear_arith);
        assert(((drag * dt@) * s) / s == drag * dt@) by (nonlinear_arith)
            requires
                s > 0,
        ;
        let share = self.friction.times(dt);
        assert(share@ == drag * dt@);
        let whole = grown@ * dt@;
        if drag == 0 {
            assert(whole == 0) by (nonlinear_arith)
                requires
                    whole == grown@ * dt@,
                    grown@ == 0,
            ;
        } else {
            assert(0 <= whole <= grown@ * s) by (nonlinear_arith)
                requires
                    whole == grown@ * dt@,
                    grown@ >= 0,
                    dt@ >= 0,
                    drag >= 1,
                    drag * dt@ <= s,
            ;
        }
        let most = grown.times(dt);
        assert(most@ == whole / s);
        assert((cap@ + most@) * share@ >= whole) by (nonlinear_arith)
            requires
                share@ == drag * dt@,
                whole == (push * reach@) * dt@,
                drag * cap@ >= push * reach@,
                most@ >= 0,
                dt@ >= 0,
                cap@ >= 0,
        ;
    }

    /// A controller whose acceleration and friction are the whole numbers
    /// `push` and `drag` keeps horizontal velocity components that are no
    /// further from zero than `cap` so on every frame on which friction
    /// times the frame time is no more than all, where `cap` is no less than
    /// [`MovementController::free_run`], `drag` times `cap` is `push` times
    /// `reach` or more, the speed is not negative and the horizontal
    /// components of the world-space wish are no further from zero than
    /// `reach`. For acceleration 5, friction 4 and a wish within the speed,
    /// the free run itself is such a cap.
    pub proof fn lemma_whole_tuning_speed_bound(
        &self,
        push: nat,
        drag: nat,
        p: PlayerModel,
        translation: Vec3,
        basis: &Basis,
        input: &InputSnapshot,
        cap: Fixed,
        reach: Fixed,
    )
        requires
            self.acceleration@ == push * SCALE,
            self.friction@ == drag * SCALE,
            drag * input.dt()@ <= SCALE,
            p.speed@ >= 0,
            0 <= reach@,
            push * reach@ < i64::MAX,
            drag * cap@ >= push * reach@,
            cap@ + push * reach@ < i64::MAX,
            self.free_run(p.speed, reach, input.dt()) <= cap@,
            magnitude(p.velocity.x@) <= cap@,
            magnitude(p.velocity.z@) <= cap@,
            magnitude(basis.resolve(key_direction(input, p.speed)).x@) <= reach@,
            magnitude(basis.resolve(key_direction(input, p.speed)).z@) <= reach@,
        ensures
            magnitude(self.spec_step(p, translation, basis, input).0.velocity.x@) <= cap@,
            magnitude(self.spec_step(p, translation, basis, input).0.velocity.z@) <= cap@,
    {
        self.lemma_whole_tuning_holds_cap(push, drag, cap, reach, input.dt());
        self.lemma_speed_bound(p, translation, basis, input, cap, reach);
    }

    /// A frame keeps a coherent player coherent.
    pub proof fn lemma_step_keeps_coherent(
        &self,
        p: PlayerModel,
        translation: Vec3,
        basis: &Basis,
        input: &InputSnapshot,
    )
        requires
            p.coherent(),
        ensures
            self.spec_step(p, translation, basis, input).0.coherent(),
    {
        let ticked = p.timer_ticked(input.dt_nanos);
        p.lemma_stays_coherent(input.dt_nanos, input.jump_pressed, input.jump_held);
        let pulled = self.spec_drive(ticked, basis, input).pulled(input.dt());
        pulled.lemma_stays_coherent(input.dt_nanos, input.jump_pressed, input.jump_held);
    }

    /// Where no movement key is held or the basis is level, the world-space
    /// wish neither rises nor falls, whatever it is scaled by, and the keys
    /// do not lift the player.
    pub proof fn lemma_flat_wish(&self, speed: Fixed, basis: &Basis, input: &InputSnapshot)
        requires
            !input.moving() || basis.level(),
        ensures
            ({
                let wish = basis.resolve(key_direction(input, speed));
                &&& wish.y == Fixed::zero()
                &&& wish.scale(input.dt()).y == Fixed::zero()
                &&& wish.scale(self.acceleration).scale(input.dt()).y == Fixed::zero()
                &&& self.keeps_down(speed, basis, input)
            }),
    {
        let direction = key_direction(input, speed);
        if basis.level() {
            basis.lemma_resolve_level(direction);
        } else {
            lemma_idle_direction(input, speed);
            basis.lemma_resolve_zero();
        }
        lemma_times_zero(input.dt());
        lemma_times_zero(self.acceleration);
    }

    /// After every frame the player is at or above the ground plane, stands
    /// on the ground exactly where the height is zero, and has no vertical
    /// velocity while standing.
    pub proof fn lemma_never_below_ground(
        &self,
        p: PlayerModel,
        translation: Vec3,
        basis: &Basis,
        input: &InputSnapshot,
    )
        ensures
            ({
                let (q, t) = self.spec_step(p, translation, basis, input);
                &&& t.y@ >= 0
                &&& q.is_on_ground <==> t.y@ == 0
                &&& q.is_on_ground ==> q.velocity.y@ == 0
            }),
    {
    }

    /// A jump press on the ground that takes the player off the plane leaves
    /// the frame with the jump force as vertical velocity, the player in the
    /// air and the float window shut.
    pub proof fn lemma_jump_frame(
        &self,
        p: PlayerModel,
        translation: Vec3,
        basis: &Basis,
        input: &InputSnapshot,
    )
        requires
            p.is_on_ground,
            input.jump_pressed,
            self.spec_step(p, translation, basis, input).1.y@ > 0,
        ensures
            ({
                let q = self.spec_step(p, translation, basis, input).0;
                &&& q.velocity.y == p.jump_force
                &&& !q.is_on_ground
                &&& !q.can_float
            }),
    {
    }

    /// A jump press on the ground takes the player off the plane where the
    /// height is not negative, the jump force times the frame time comes to
    /// a raw unit or more, and no movement key is held or the basis is
    /// level.
    pub proof fn lemma_jump_lifts(
        &self,
        p: PlayerModel,
        translation: Vec3,
        basis: &Basis,
        input: &InputSnapshot,
    )
        requires
            p.is_on_ground,
            input.jump_pressed,
            translation.y@ >= 0,
            p.jump_force.times(input.dt())@ > 0,
            !input.moving() || basis.level(),
        ensures
            self.spec_step(p, translation, basis, input).1.y@ > 0,
            self.spec_step(p, translation, basis, input).0.velocity.y == p.jump_force,
            !self.spec_step(p, translation, basis, input).0.is_on_ground,
    {
        self.lemma_flat_wish(p.speed, basis, input);
    }

    /// Over a frame with no movement key held and no jump press, a player
    /// that stands at height zero with no vertical velocity, under gravity
    /// that does not push upward, keeps standing there, and its velocity is
    /// blended once toward zero by friction times the frame time.
    pub proof fn lemma_idle_frame_blends(
        &self,
        p: PlayerModel,
        translation: Vec3,
        basis: &Basis,
        input: &InputSnapshot,
    )
        requires
            p.is_on_ground,
            p.velocity.y@ == 0,
            translation.y@ == 0,
            p.gravity@ <= 0,
            !input.jump_pressed,
            !input.moving(),
        ensures
            ({
                let (q, t) = self.spec_step(p, translation, basis, input);
                &&& q.velocity == self.slowed(p.velocity, input.dt())
                &&& q.velocity.y@ == 0
                &&& q.is_on_ground
                &&& t.y@ == 0
            }),
    {
        let dt = input.dt();
        self.lemma_flat_wish(p.speed, basis, input);
        self.lemma_rest_is_kept(p, translation, basis, input);
        self.lemma_horizontal_velocity(p, translation, basis, input);
        lemma_idle_direction(input, p.speed);
        basis.lemma_resolve_zero();
        lemma_scale_zero(Vec3::zero(), self.acceleration);
        lemma_scale_zero(Vec3::zero(), dt);
        lemma_times_zero(self.friction.times(dt));
        assert(self.accelerated(p.velocity, Vec3::zero(), dt) == p.velocity);
    }

    /// On a frame inside the float window with the jump key held, the
    /// vertical velocity of a player that stays in the air rises, where the
    /// float impulse is more than gravity and friction take. The window
    /// stays open. This holds where no movement key is held or the basis is
    /// level, friction times the frame time is a share between nothing and
    /// all, and the values are far from the ends of the range.
    pub proof fn lemma_float_frame_rises(
        &self,
        p: PlayerModel,
        translation: Vec3,
        basis: &Basis,
        input: &InputSnapshot,
    )
        requires
            p.coherent(),
            p.phase() == JumpPhase::Floatable,
            p.timer.elapsed + input.dt_nanos < p.timer.duration,
            input.jump_held,
            !input.moving() || basis.level(),
            0 <= self.friction.times(input.dt())@ <= SCALE,
            magnitude(p.velocity.y@) <= 1_000_000_000_000_000_000,
            magnitude(p.gravity.times(input.dt())@) <= 1_000_000_000_000_000_000,
            FLOAT_IMPULSE_RAW + (if p.is_flying {
                0
            } else {
                p.gravity.times(input.dt())@
            }) - (magnitude(p.velocity.y@) * self.friction.times(input.dt())@) / (SCALE as int)
                > 0,
        ensures
            ({
                let q = self.spec_step(p, translation, basis, input).0;
                &&& q.can_float
                &&& !q.is_on_ground ==> q.velocity.y@ > p.velocity.y@
            }),
    {
        let dt = input.dt();
        let share = self.friction.times(dt);
        self.lemma_flat_wish(p.speed, basis, input);
        lemma_blend_toward_zero(p.velocity.y, share);
        let ticked = p.timer_ticked(input.dt_nanos);
        let driven = self.spec_drive(ticked, basis, input);
        assert(driven.velocity.y == p.velocity.y || driven.velocity.y == self.slowed(
            p.velocity,
            dt,
        ).y);
    }

    /// A player that stands still on the ground under gravity that does not
    /// push upward stays so over a frame without a jump press on which the
    /// keys do not lift it.
    pub proof fn lemma_rest_is_kept(
        &self,
        p: PlayerModel,
        translation: Vec3,
        basis: &Basis,
        input: &InputSnapshot,
    )
        requires
            p.is_on_ground,
            p.velocity.y@ == 0,
            translation.y@ == 0,
            p.gravity@ <= 0,
            !input.jump_pressed,
            self.keeps_down(p.speed, basis, input),
        ensures
            ({
                let (q, t) = self.spec_step(p, translation, basis, input);
                &&& q.is_on_ground
                &&& q.velocity.y@ == 0
                &&& t.y@ == 0
                &&& q.gravity == p.gravity
            }),
    {
        let dt = input.dt();
        let share = self.friction.times(dt);
        let ticked = p.timer_ticked(input.dt_nanos);
        let direction = key_direction(input, p.speed);
        let wish = basis.resolve(direction);
        lemma_times_zero(self.acceleration);
        lemma_times_zero(dt);
        lemma_times_zero(share);
        if wish.y@ < 0 {
            lemma_times_sign(wish.y, self.acceleration);
        }
        lemma_times_sign(wish.y.times(self.acceleration), dt);
        lemma_times_sign(wish.y, dt);
        let pushed = self.accelerated(p.velocity, wish, dt);
        assert(pushed.y@ <= 0);
        if wish.y@ < 0 {
            lemma_blend_toward_zero(pushed.y, share);
        } else {
            assert(pushed.y == Fixed::zero());
        }
        let driven = self.spec_drive(ticked, basis, input);
        assert(driven.velocity.y@ <= 0);
        lemma_times_sign(p.gravity, dt);
        let pulled = driven.pulled(dt);
        assert(pulled.velocity.y@ <= 0);
        let jumped = pulled.jumped(input.jump_pressed, input.jump_held);
        assert(jumped.velocity.y == pulled.velocity.y);
        lemma_times_sign(jumped.velocity.y, dt);
    }
}

impl Default for MovementController {
    /// The controller with acceleration 5.0 and friction 4.0.
    fn default() -> (r: MovementController)
        ensures
            r.acceleration == (Fixed { raw: DEFAULT_ACCELERATION_RAW }),
            r.friction == (Fixed { raw: DEFAULT_FRICTION_RAW }),
    {
        MovementController {
            acceleration: Fixed::from_raw(DEFAULT_ACCELERATION_RAW),
            friction: Fixed::from_raw(DEFAULT_FRICTION_RAW),
        }
    }
}

} // verus!
