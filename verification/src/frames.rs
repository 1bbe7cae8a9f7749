use crate::fixed::{magnitude, toward_zero, Fixed, SCALE};
use crate::input::InputSnapshot;
use crate::movement::{friction_applies, key_direction, Basis, MovementController};
use crate::player::{PlayerModel, PlayerState};
use crate::vec3::Vec3;
use vstd::prelude::*;

verus! {

impl MovementController {
    /// `frames` frames in a row with the same basis and the same input.
    pub open spec fn spec_repeat(
        &self,
        p: PlayerModel,
        translation: Vec3,
        basis: &Basis,
        input: &InputSnapshot,
        frames: nat,
    ) -> (PlayerModel, Vec3)
        decreases frames,
    {
        if frames == 0 {
            (p, translation)
        } else {
            let (q, t) = self.spec_repeat(p, translation, basis, input, (frames - 1) as nat);
            self.spec_step(q, t, basis, input)
        }
    }

    /// Advances the player and its position by `frames` frames in a row
    /// with the same basis and the same input.
    pub fn repeat(
        &self,
        player: &mut PlayerState,
        translation: &mut Vec3,
        basis: &Basis,
        input: &InputSnapshot,
        frames: u32,
    )
        ensures
            (final(player)@, *final(translation)) == self.spec_repeat(
                old(player)@,
                *old(translation),
                basis,
                input,
                frames as nat,
            ),
    {
        let mut done: u32 = 0;
        while done < frames
            invariant
                done <= frames,
                (player@, *translation) == self.spec_repeat(
                    old(player)@,
                    *old(translation),
                    basis,
                    input,
                    done as nat,
                ),
            decreases frames - done,
        {
            self.step(player, translation, basis, input);
            done += 1;
        }
    }

    /// Frames change neither the speed, the jump force, the gravity nor
    /// whether the player is flying.
    pub proof fn lemma_repeat_keeps_constants(
        &self,
        p: PlayerModel,
        translation: Vec3,
        basis: &Basis,
        input: &InputSnapshot,
        frames: nat,
    )
        ensures
            ({
                let q = self.spec_repeat(p, translation, basis, input, frames).0;
                &&& q.speed == p.speed
                &&& q.jump_force == p.jump_force
                &&& q.gravity == p.gravity
                &&& q.is_flying == p.is_flying
            }),
        decreases frames,
    {
        if frames > 0 {
            self.lemma_repeat_keeps_constants(p, translation, basis, input, (frames - 1) as nat);
        }
    }

    /// Frames keep a coherent player coherent.
    pub proof fn lemma_repeat_keeps_coherent(
        &self,
        p: PlayerModel,
        translation: Vec3,
        basis: &Basis,
        input: &InputSnapshot,
        frames: nat,
    )
        requires
            p.coherent(),
        ensures
            self.spec_repeat(p, translation, basis, input, frames).0.coherent(),
        decreases frames,
    {
        if frames > 0 {
            self.lemma_repeat_keeps_coherent(p, translation, basis, input, (frames - 1) as nat);
            let (q, t) = self.spec_repeat(p, translation, basis, input, (frames - 1) as nat);
            self.lemma_step_keeps_coherent(q, t, basis, input);
        }
    }

    /// Over any number of frames with no movement key held, where friction
    /// times the frame time is a share between nothing and all, each
    /// horizontal component of the velocity lies between zero and what it
    /// was at the start.
    pub proof fn lemma_idle_frames_decay(
        &self,
        p: PlayerModel,
        translation: Vec3,
        basis: &Basis,
        input: &InputSnapshot,
        frames: nat,
    )
        requires
            !input.moving(),
            0 <= self.friction.times(input.dt())@ <= SCALE,
        ensures
            ({
                let after = self.spec_repeat(p, translation, basis, input, frames).0.velocity;
                &&& toward_zero(p.velocity.x@, after.x@)
                &&& toward_zero(p.velocity.z@, after.z@)
            }),
        decreases frames,
    {
        if frames > 0 {
            self.lemma_idle_frames_decay(p, translation, basis, input, (frames - 1) as nat);
            let (q, t) = self.spec_repeat(p, translation, basis, input, (frames - 1) as nat);
            self.lemma_idle_velocity_decays(q, t, basis, input);
        }
    }

    /// After one frame or more the player is at or above the ground plane,
    /// stands on the ground exactly where the height is zero, and has no
    /// vertical velocity while standing.
    pub proof fn lemma_frames_never_below_ground(
        &self,
        p: PlayerModel,
        translation: Vec3,
        basis: &Basis,
        input: &InputSnapshot,
        frames: nat,
    )
        requires
            frames > 0,
        ensures
            ({
                let (q, t) = self.spec_repeat(p, translation, basis, input, frames);
                &&& t.y@ >= 0
                &&& q.is_on_ground <==> t.y@ == 0
                &&& q.is_on_ground ==> q.velocity.y@ == 0
            }),
    {
        let (q, t) = self.spec_repeat(p, translation, basis, input, (frames - 1) as nat);
        self.lemma_never_below_ground(q, t, basis, input);
    }

    /// Under gravity that does not push upward and without a jump press, a
    /// player that has landed by the end of frame `landed` stands still on
    /// the ground at the end of every later frame, where the keys do not
    /// lift it.
    pub proof fn lemma_lands_for_good(
        &self,
        p: PlayerModel,
        translation: Vec3,
        basis: &Basis,
        input: &InputSnapshot,
        landed: nat,
        frames: nat,
    )
        requires
            p.gravity@ <= 0,
            !input.jump_pressed,
            self.keeps_down(p.speed, basis, input),
            0 < landed <= frames,
            self.spec_repeat(p, translation, basis, input, landed).0.is_on_ground,
        ensures
            ({
                let (q, t) = self.spec_repeat(p, translation, basis, input, frames);
                &&& q.is_on_ground
                &&& q.velocity.y@ == 0
                &&& t.y@ == 0
            }),
        decreases frames,
    {
        if frames == landed {
            self.lemma_frames_never_below_ground(p, translation, basis, input, frames);
        } else {
            let before = (frames - 1) as nat;
            self.lemma_lands_for_good(p, translation, basis, input, landed, before);
            self.lemma_repeat_keeps_constants(p, translation, basis, input, before);
            let (q, t) = self.spec_repeat(p, translation, basis, input, before);
            self.lemma_rest_is_kept(q, t, basis, input);
        }
    }

    /// Over any number of frames with the same keys held, horizontal
    /// velocity components that start no further from zero than `cap` never
    /// get further, where friction holds `cap` against `reach`, `cap` is no
    /// less than [`MovementController::free_run`], the speed is not negative
    /// and the horizontal components of the world-space wish are no further
    /// from zero than `reach`.
    pub proof fn lemma_frames_keep_speed_bound(
        &self,
        p: PlayerModel,
        translation: Vec3,
        basis: &Basis,
        input: &InputSnapshot,
        cap: Fixed,
        reach: Fixed,
        frames: nat,
    )
        requires
            self.holds_cap(cap, reach, input.dt()),
            p.speed@ >= 0,
            self.free_run(p.speed, reach, input.dt()) <= cap@,
            magnitude(p.velocity.x@) <= cap@,
            magnitude(p.velocity.z@) <= cap@,
            magnitude(basis.resolve(key_direction(input, p.speed)).x@) <= reach@,
            magnitude(basis.resolve(key_direction(input, p.speed)).z@) <= reach@,
        ensures
            magnitude(self.spec_repeat(p, translation, basis, input, frames).0.velocity.x@)
                <= cap@,
            magnitude(self.spec_repeat(p, translation, basis, input, frames).0.velocity.z@)
                <= cap@,
        decreases frames,
    {
        if frames > 0 {
            let before = (frames - 1) as nat;
            self.lemma_frames_keep_speed_bound(p, translation, basis, input, cap, reach, before);
            self.lemma_repeat_keeps_constants(p, translation, basis, input, before);
            let (q, t) = self.spec_repeat(p, translation, basis, input, before);
            self.lemma_speed_bound(q, t, basis, input, cap, reach);
        }
    }

    /// Over frames with the same keys held on each of which friction acts
    /// and holds `cap` against `reach`, horizontal velocity components that
    /// start no further from zero than `cap` never get further, where the
    /// horizontal components of the world-space wish are no further from
    /// zero than `reach`.
    pub proof fn lemma_frames_keep_speed_cap(
        &self,
        p: PlayerModel,
        translation: Vec3,
        basis: &Basis,
        input: &InputSnapshot,
        cap: Fixed,
        reach: Fixed,
        frames: nat,
    )
        requires
            self.holds_cap(cap, reach, input.dt()),
            forall|k: nat|
                k < frames ==> friction_applies(
                    key_direction(input, p.speed),
                    (#[trigger] self.spec_repeat(p, translation, basis, input, k)).0.velocity,
                    p.speed,
                ),
            magnitude(p.velocity.x@) <= cap@,
            magnitude(p.velocity.z@) <= cap@,
            magnitude(basis.resolve(key_direction(input, p.speed)).x@) <= reach@,
            magnitude(basis.resolve(key_direction(input, p.speed)).z@) <= reach@,
        ensures
            magnitude(self.spec_repeat(p, translation, basis, input, frames).0.velocity.x@)
                <= cap@,
            magnitude(self.spec_repeat(p, translation, basis, input, frames).0.velocity.z@)
                <= cap@,
        decreases frames,
    {
        if frames > 0 {
            let before = (frames - 1) as nat;
            self.lemma_frames_keep_speed_cap(p, translation, basis, input, cap, reach, before);
            self.lemma_repeat_keeps_constants(p, translation, basis, input, before);
            let (q, t) = self.spec_repeat(p, translation, basis, input, before);
            self.lemma_speed_cap(q, t, basis, input, cap, reach);
        }
    }
}

} // verus!
