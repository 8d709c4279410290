//! Actors: a screen rectangle that walks, turns round, falls and respawns,
//! together with the animation that is drawn in it.
//!
//! A sprite is drawn the way its sheet shows it while the rectangle's width
//! is positive, and mirrored while it is negative. The sheet shows actors
//! looking left, so an actor that faces right has a width that is not
//! positive, and one that faces left a width that is not negative. Every
//! operation keeps the two in step.

use crate::animation::{Animation, AnimationView};
use crate::geometry::{column_x, minus, narrow, plus, saturate, ScreenRect, SheetRegion};
use crate::geometry::{MAX_COLUMN, SCREEN_TOP, UNITS_PER_PIXEL};
use crate::random::random_below;
use vstd::prelude::*;

verus! {

/// What a [`Char_action`] is, mathematically.
pub struct ActorView {
    /// Where the actor is drawn.
    pub screen_region: ScreenRect,
    /// The animation drawn there.
    pub animation: AnimationView,
    /// Coordinate units covered per tick, walking or falling.
    pub speed: i32,
    /// Which way the actor looks.
    pub facing_right: bool,
    /// The entry of the shared sprite list that shows this actor.
    pub sprites_index: usize,
    /// How far the rectangle's origin moves when the actor turns round.
    pub flip_offset: u32,
}

impl ActorView {
    /// The sign of the width agrees with the direction the actor faces.
    pub open spec fn facing_matches_width(self) -> bool {
        if self.facing_right {
            self.screen_region.width <= 0
        } else {
            self.screen_region.width >= 0
        }
    }

    /// The animation is valid and the width agrees with the facing.
    pub open spec fn valid(self) -> bool {
        self.animation.valid() && self.facing_matches_width()
    }

    /// One step in the direction the actor faces.
    pub open spec fn walked(self) -> ActorView {
        let r = self.screen_region;
        let x = if self.facing_right {
            r.x + self.speed
        } else {
            r.x - self.speed
        };
        ActorView { screen_region: ScreenRect { x: saturate(x), ..r }, ..self }
    }

    /// The actor turned to the left. A mirrored rectangle is turned back
    /// and its origin moves left by the flip offset.
    pub open spec fn faced_left(self) -> ActorView {
        let r = self.screen_region;
        if r.width < 0 {
            ActorView {
                facing_right: false,
                screen_region: ScreenRect {
                    x: saturate(r.x - self.flip_offset),
                    width: saturate(-r.width),
                    ..r
                },
                ..self
            }
        } else {
            ActorView { facing_right: false, ..self }
        }
    }

    /// The actor turned to the right. An unmirrored rectangle is mirrored
    /// and its origin moves right by the flip offset.
    pub open spec fn faced_right(self) -> ActorView {
        let r = self.screen_region;
        if r.width > 0 {
            ActorView {
                facing_right: true,
                screen_region: ScreenRect {
                    x: saturate(r.x + self.flip_offset),
                    width: saturate(-r.width),
                    ..r
                },
                ..self
            }
        } else {
            ActorView { facing_right: true, ..self }
        }
    }

    /// The actor back at the top of the screen, in pixel column `column`.
    pub open spec fn respawned(self, column: u32) -> ActorView {
        ActorView {
            screen_region: ScreenRect { x: column_x(column), y: SCREEN_TOP, ..self.screen_region },
            ..self
        }
    }

    /// Whether one more step down takes the actor to the bottom edge.
    pub open spec fn lands(self) -> bool {
        self.screen_region.y - self.speed <= 0
    }

    /// One step down. An actor that reaches the bottom edge respawns in
    /// `column`; for any other the column plays no part.
    pub open spec fn moved_down(self, column: u32) -> ActorView {
        let r = self.screen_region;
        if self.lands() {
            self.respawned(column)
        } else {
            ActorView { screen_region: ScreenRect { y: saturate(r.y - self.speed), ..r }, ..self }
        }
    }

    /// The same actor with another speed.
    pub open spec fn with_speed(self, speed: i32) -> ActorView {
        ActorView { speed, ..self }
    }

    /// The same actor, its animation one tick further.
    pub open spec fn animated(self) -> ActorView {
        ActorView { animation: self.animation.ticked(), ..self }
    }

    /// The same actor, its animation at the rest frame.
    pub open spec fn rested(self) -> ActorView {
        ActorView { animation: self.animation.stopped(), ..self }
    }
}

/// Turning left twice is turning left once.
pub proof fn lemma_face_left_idempotent(a: ActorView)
    ensures
        a.faced_left().faced_left() == a.faced_left(),
{
}

/// Turning right twice is turning right once.
pub proof fn lemma_face_right_idempotent(a: ActorView)
    ensures
        a.faced_right().faced_right() == a.faced_right(),
{
}

/// Whatever an actor does, its width goes on agreeing with its facing and
/// its animation stays valid.
pub proof fn lemma_moves_keep_valid(a: ActorView, column: u32, speed: i32)
    requires
        a.valid(),
    ensures
        a.walked().valid(),
        a.faced_left().valid(),
        a.faced_right().valid(),
        a.respawned(column).valid(),
        a.moved_down(column).valid(),
        a.with_speed(speed).valid(),
        a.animated().valid(),
        a.rested().valid(),
{
}

/// Respawn bounds: an actor that reaches the bottom edge reappears at the
/// top of the screen, and if it is given a column of the visible range,
/// in that column.
pub proof fn lemma_respawn_bounds(a: ActorView, column: u32)
    ensures
        a.lands() ==> a.moved_down(column) == a.respawned(column),
        a.respawned(column).screen_region.y == SCREEN_TOP,
        column <= MAX_COLUMN ==> a.respawned(column).screen_region.x == column * UNITS_PER_PIXEL,
        column <= MAX_COLUMN ==> 0 <= a.respawned(column).screen_region.x <= MAX_COLUMN
            * UNITS_PER_PIXEL,
{
    assert(UNITS_PER_PIXEL == 10);
}

/// Where an actor stands and which way it looks: the two change together.
#[derive(Clone, Copy, Debug)]
struct Pose {
    region: ScreenRect,
    facing_right: bool,
}

/// An actor of the game.
#[allow(non_camel_case_types)]
#[derive(Debug)]
pub struct Char_action {
    pose: Pose,
    animation: Animation,
    speed: i32,
    sprites_index: usize,
    flip_offset: u32,
}

impl View for Char_action {
    type V = ActorView;

    closed spec fn view(&self) -> ActorView {
        ActorView {
            screen_region: self.pose.region,
            animation: self.animation@,
            speed: self.speed,
            facing_right: self.pose.facing_right,
            sprites_index: self.sprites_index,
            flip_offset: self.flip_offset,
        }
    }
}

/// A pixel column of the visible range, drawn at random.
pub(crate) fn random_column() -> (column: u32)
    ensures
        column <= MAX_COLUMN,
{
    random_below(MAX_COLUMN + 1)
}

impl Char_action {
    /// Holds of every `Char_action` at all times.
    #[verifier::type_invariant]
    pub open spec fn well_formed(self) -> bool {
        self@.valid()
    }

    /// An actor drawn in `screen_re` with animation `anim`, moving `spe`
    /// coordinate units per tick, shown by entry `sprites_ind` of the
    /// sprite list, whose origin moves by `flip_offset` when it turns.
    ///
    /// A rectangle whose width contradicts `facing_rig` is rejected: a
    /// positive width with an actor that faces right, a negative one with
    /// an actor that faces left.
    pub fn new(
        screen_re: ScreenRect,
        anim: Animation,
        spe: i32,
        facing_rig: bool,
        sprites_ind: usize,
        flip_offset: u32,
    ) -> (made: Option<Char_action>)
        ensures
            made is None <==> (if facing_rig {
                screen_re.width > 0
            } else {
                screen_re.width < 0
            }),
            made matches Some(actor) ==> actor@ == (ActorView {
                screen_region: screen_re,
                animation: anim@,
                speed: spe,
                facing_right: facing_rig,
                sprites_index: sprites_ind,
                flip_offset,
            }),
    {
        proof {
            use_type_invariant(&anim);
        }
        let mismatch = if facing_rig {
            screen_re.width > 0
        } else {
            screen_re.width < 0
        };
        if mismatch {
            None
        } else {
            Some(
                Char_action {
                    pose: Pose { region: screen_re, facing_right: facing_rig },
                    animation: anim,
                    speed: spe,
                    sprites_index: sprites_ind,
                    flip_offset,
                },
            )
        }
    }

    /// Moves one step in the direction the actor faces. Nothing stops it
    /// at the edge of the screen.
    pub fn walk(&mut self)
        ensures
            final(self)@ == old(self)@.walked(),
        no_unwind
    {
        proof {
            use_type_invariant(&*self);
        }
        let r = self.pose.region;
        let x: i32 = if self.pose.facing_right {
            plus(r.x, self.speed)
        } else {
            minus(r.x, self.speed)
        };
        self.pose = Pose { region: ScreenRect { x, ..r }, ..self.pose };
    }

    /// Turns the actor to the left.
    pub fn face_left(&mut self)
        ensures
            final(self)@ == old(self)@.faced_left(),
        no_unwind
    {
        proof {
            use_type_invariant(&*self);
        }
        let r = self.pose.region;
        if r.width < 0 {
            let x: i32 = narrow(r.x as i64 - self.flip_offset as i64);
            let width: i32 = narrow(-(r.width as i64));
            self.pose = Pose { region: ScreenRect { x, width, ..r }, facing_right: false };
        } else {
            self.pose = Pose { region: r, facing_right: false };
        }
    }

    /// Turns the actor to the right.
    pub fn face_right(&mut self)
        ensures
            final(self)@ == old(self)@.faced_right(),
        no_unwind
    {
        proof {
            use_type_invariant(&*self);
        }
        let r = self.pose.region;
        if r.width > 0 {
            let x: i32 = narrow(r.x as i64 + self.flip_offset as i64);
            let width: i32 = narrow(-(r.width as i64));
            self.pose = Pose { region: ScreenRect { x, width, ..r }, facing_right: true };
        } else {
            self.pose = Pose { region: r, facing_right: true };
        }
    }

    /// Puts the actor back at the top of the screen, in pixel column
    /// `column`.
    pub fn respawn_at(&mut self, column: u32)
        ensures
            final(self)@ == old(self)@.respawned(column),
            final(self)@.screen_region.y == SCREEN_TOP,
            column <= MAX_COLUMN ==> 0 <= final(self)@.screen_region.x <= MAX_COLUMN
                * UNITS_PER_PIXEL,
        no_unwind
    {
        proof {
            use_type_invariant(&*self);
            assert(UNITS_PER_PIXEL == 10);
            lemma_respawn_bounds(self@, column);
        }
        let x: i32 = narrow(column as i64 * UNITS_PER_PIXEL as i64);
        self.pose = Pose {
            region: ScreenRect { x, y: SCREEN_TOP, ..self.pose.region },
            ..self.pose
        };
    }

    /// Moves the actor one step down; if that takes it to the bottom edge,
    /// it respawns in pixel column `column`.
    pub fn move_down_at(&mut self, column: u32)
        ensures
            final(self)@ == old(self)@.moved_down(column),
            old(self)@.lands() ==> final(self)@.screen_region.y == SCREEN_TOP,
            old(self)@.lands() && column <= MAX_COLUMN ==> 0 <= final(self)@.screen_region.x
                <= MAX_COLUMN * UNITS_PER_PIXEL,
        no_unwind
    {
        proof {
            use_type_invariant(&*self);
        }
        let r = self.pose.region;
        let y: i32 = minus(r.y, self.speed);
        if y <= 0 {
            self.respawn_at(column);
        } else {
            self.pose = Pose { region: ScreenRect { y, ..r }, ..self.pose };
        }
    }

    /// Puts the actor back at the top of the screen, in a pixel column
    /// drawn at random from the visible range.
    pub fn reset_y(&mut self)
        ensures
            exists|column: u32|
                column <= MAX_COLUMN && final(self)@ == #[trigger] old(self)@.respawned(column),
            final(self)@.screen_region.y == SCREEN_TOP,
            0 <= final(self)@.screen_region.x <= MAX_COLUMN * UNITS_PER_PIXEL,
    {
        let column: u32 = random_column();
        self.respawn_at(column);
    }

    /// Moves the actor one step down; if that takes it to the bottom edge,
    /// it respawns at the top of the screen, in a pixel column drawn at
    /// random from the visible range.
    pub fn move_down(&mut self)
        ensures
            exists|column: u32|
                column <= MAX_COLUMN && final(self)@ == #[trigger] old(self)@.moved_down(column),
            old(self)@.lands() ==> final(self)@.screen_region.y == SCREEN_TOP,
            old(self)@.lands() ==> 0 <= final(self)@.screen_region.x <= MAX_COLUMN
                * UNITS_PER_PIXEL,
    {
        proof {
            use_type_invariant(&*self);
        }
        let r = self.pose.region;
        let y: i32 = minus(r.y, self.speed);
        if y <= 0 {
            let column: u32 = random_column();
            self.respawn_at(column);
            assert(self@ == old(self)@.moved_down(column));
        } else {
            self.pose = Pose { region: ScreenRect { y, ..r }, ..self.pose };
            assert(self@ == old(self)@.moved_down(0));
        }
    }

    /// Sets the number of coordinate units covered per tick.
    pub fn set_speed(&mut self, speed: i32)
        ensures
            final(self)@ == old(self)@.with_speed(speed),
        no_unwind
    {
        proof {
            use_type_invariant(&*self);
        }
        self.speed = speed;
    }

    /// Advances the actor's animation by one tick.
    pub fn animate(&mut self)
        ensures
            final(self)@ == old(self)@.animated(),
        no_unwind
    {
        proof {
            use_type_invariant(&*self);
            use_type_invariant(&self.animation);
        }
        self.animation.tick();
    }

    /// Returns the actor's animation to its rest frame.
    pub fn rest(&mut self)
        ensures
            final(self)@ == old(self)@.rested(),
        no_unwind
    {
        proof {
            use_type_invariant(&*self);
        }
        self.animation.stop();
    }

    /// Where the actor is drawn.
    pub fn screen_region(&self) -> (region: ScreenRect)
        ensures
            region == self@.screen_region,
        no_unwind
    {
        self.pose.region
    }

    /// The sprite-sheet region of the animation's current frame.
    pub fn sheet_region(&self) -> (region: SheetRegion)
        ensures
            region == self@.animation.current(),
        no_unwind
    {
        self.animation.get_current_state()
    }

    /// The actor's animation.
    pub fn animation(&self) -> (animation: &Animation)
        ensures
            animation@ == self@.animation,
        no_unwind
    {
        &self.animation
    }

    /// Coordinate units covered per tick.
    pub fn speed(&self) -> (speed: i32)
        ensures
            speed == self@.speed,
        no_unwind
    {
        self.speed
    }

    /// Which way the actor looks.
    pub fn facing_right(&self) -> (facing: bool)
        ensures
            facing == self@.facing_right,
        no_unwind
    {
        self.pose.facing_right
    }

    /// The entry of the shared sprite list that shows this actor.
    pub fn sprites_index(&self) -> (index: usize)
        ensures
            index == self@.sprites_index,
        no_unwind
    {
        self.sprites_index
    }

    /// How far the rectangle's origin moves when the actor turns round.
    pub fn flip_offset(&self) -> (offset: u32)
        ensures
            offset == self@.flip_offset,
        no_unwind
    {
        self.flip_offset
    }
}

} // verus!
