//! One tick of the game: the falling actor descends, the player is steered
//! by the keys that are held, both are written to the sprite list, and a
//! catch is scored.

use crate::char_action::{random_column, ActorView, Char_action};
use crate::game_state::{init_game_state, GameState};
use crate::geometry::{plus, saturate, ScreenRect, SheetRegion, MAX_COLUMN};
use vstd::prelude::*;

verus! {

/// What a catch adds to the falling actor's speed, in coordinate units per
/// tick.
pub const SPEED_STEP: i32 = 1;

/// The keys that are held during a tick.
#[derive(Clone, Copy, Debug, PartialEq, Eq, Structural)]
pub struct Input {
    pub left: bool,
    pub right: bool,
}

/// One entry of the sprite list: what is drawn, and where.
#[derive(Clone, Copy, Debug, PartialEq, Eq, Structural)]
pub struct Sprite {
    pub screen_region: ScreenRect,
    pub sheet_region: SheetRegion,
}

/// A box on the screen, over the integers. `y` is its bottom edge and it
/// extends upward by `height`.
pub struct Hitbox {
    pub x: int,
    pub y: int,
    pub width: int,
    pub height: int,
}

/// The box of an actor that is never mirrored: its rectangle as it is.
pub open spec fn plain_box(a: ActorView) -> Hitbox {
    let r = a.screen_region;
    Hitbox { x: r.x as int, y: r.y as int, width: r.width as int, height: r.height as int }
}

/// The box of an actor that may be mirrored. A rectangle that faces right
/// has its origin on the right; the box starts at its left edge instead,
/// so that its width is never negative.
pub open spec fn upright_box(a: ActorView) -> Hitbox {
    let r = a.screen_region;
    if a.facing_right {
        Hitbox { x: r.x + r.width, y: r.y as int, width: -r.width, height: r.height as int }
    } else {
        plain_box(a)
    }
}

/// Whether two boxes share a point of their interiors.
pub open spec fn overlap(a: Hitbox, b: Hitbox) -> bool {
    &&& a.x + a.width > b.x
    &&& a.x < b.x + b.width
    &&& a.y - a.height < b.y
    &&& a.y > b.y - b.height
}

/// What a [`Game`] is, mathematically.
pub struct GameView {
    /// The actor that the keys steer.
    pub player: ActorView,
    /// The actor that falls and is caught.
    pub faller: ActorView,
    /// Score and edge trigger.
    pub state: GameState,
    /// How many ticks ended with the falling actor on the player.
    pub nut_count: u32,
    /// What the renderer draws.
    pub sprites: Seq<Sprite>,
}

/// What one tick is given: the keys held, and the columns in which the
/// falling actor would respawn on landing and on being caught.
pub struct Turn {
    pub input: Input,
    pub fall_column: u32,
    pub catch_column: u32,
}

impl GameView {
    /// Both actors are valid and each has its entry in the sprite list.
    pub open spec fn valid(self) -> bool {
        &&& self.player.valid()
        &&& self.faller.valid()
        &&& self.player.sprites_index < self.sprites.len()
        &&& self.faller.sprites_index < self.sprites.len()
    }

    /// The falling actor one step further down, respawned in `column` if it
    /// landed.
    pub open spec fn fallen(self, column: u32) -> GameView {
        GameView { faller: self.faller.moved_down(column), ..self }
    }

    /// The player after the keys had their say: left wins over right, and
    /// with neither held the animation returns to its rest frame.
    pub open spec fn steered(self, input: Input) -> GameView {
        let player = if input.left {
            self.player.faced_left().walked().animated()
        } else if input.right {
            self.player.faced_right().walked().animated()
        } else {
            self.player.rested()
        };
        GameView { player, ..self }
    }

    /// The sprite list brought up to date: the player's entry gets its
    /// rectangle and current frame, the falling actor's entry its
    /// rectangle.
    pub open spec fn published(self) -> GameView {
        let own = Sprite {
            screen_region: self.player.screen_region,
            sheet_region: self.player.animation.current(),
        };
        let first = self.sprites.update(self.player.sprites_index as int, own);
        let other = Sprite {
            screen_region: self.faller.screen_region,
            ..first[self.faller.sprites_index as int]
        };
        GameView { sprites: first.update(self.faller.sprites_index as int, other), ..self }
    }

    /// Whether the falling actor is on the player.
    pub open spec fn caught(self) -> bool {
        overlap(plain_box(self.faller), upright_box(self.player))
    }

    /// The catch counter after one more catch; it stops at `u32::MAX`.
    pub open spec fn next_nut_count(self) -> u32 {
        if self.nut_count < u32::MAX {
            (self.nut_count + 1) as u32
        } else {
            self.nut_count
        }
    }

    /// The catch settled. A caught actor is counted, gets faster and
    /// respawns in `column`, and the score rises if the tick before did not
    /// already raise it. Without a catch only the edge trigger is
    /// released.
    pub open spec fn settled(self, column: u32) -> GameView {
        if self.caught() {
            GameView {
                faller: self.faller.with_speed(saturate(self.faller.speed + SPEED_STEP)).respawned(
                    column,
                ),
                state: self.state.after_check(true),
                nut_count: self.next_nut_count(),
                ..self
            }
        } else {
            GameView { state: self.state.after_check(false), ..self }
        }
    }

    /// One whole tick.
    pub open spec fn stepped(self, input: Input, fall_column: u32, catch_column: u32) -> GameView {
        self.fallen(fall_column).steered(input).published().settled(catch_column)
    }

    /// One tick after the other, in the order of `turns`.
    pub open spec fn played(self, turns: Seq<Turn>) -> GameView
        decreases turns.len(),
    {
        if turns.len() == 0 {
            self
        } else {
            let t = turns[0];
            self.stepped(t.input, t.fall_column, t.catch_column).played(turns.drop_first())
        }
    }

    /// What a tick publishes for the score display: the new score if the
    /// tick from `before` to `self` changed it.
    pub open spec fn score_news(self, before: GameView) -> Option<usize> {
        if self.state.score != before.state.score {
            Some(self.state.score)
        } else {
            None
        }
    }
}

/// A tick keeps a valid game valid and the sprite list at its length.
pub proof fn lemma_step_keeps_valid(g: GameView, input: Input, fall_column: u32, catch_column: u32)
    requires
        g.valid(),
    ensures
        g.stepped(input, fall_column, catch_column).valid(),
        g.stepped(input, fall_column, catch_column).sprites.len() == g.sprites.len(),
{
}

/// The box that stands for the player in the overlap test never has a
/// negative width.
pub proof fn lemma_upright_box_has_width(a: ActorView)
    requires
        a.valid(),
    ensures
        upright_box(a).width >= 0,
        a.facing_right ==> upright_box(a).x + upright_box(a).width == a.screen_region.x,
{
}

/// A tick never lowers the score, and raises it by at most one.
pub proof fn lemma_step_never_lowers_score(
    g: GameView,
    input: Input,
    fall_column: u32,
    catch_column: u32,
)
    ensures
        g.state.score <= g.stepped(input, fall_column, catch_column).state.score <= g.state.score
            + 1,
{
}

/// Score monotonicity: whatever is played, the score never goes down.
pub proof fn lemma_score_never_decreases(g: GameView, turns: Seq<Turn>)
    ensures
        g.played(turns).state.score >= g.state.score,
    decreases turns.len(),
{
    if turns.len() > 0 {
        let t = turns[0];
        lemma_step_never_lowers_score(g, t.input, t.fall_column, t.catch_column);
        lemma_score_never_decreases(
            g.stepped(t.input, t.fall_column, t.catch_column),
            turns.drop_first(),
        );
    }
}

/// Whether the falling actor is on the player. The player's box is the
/// upright one; the falling actor is taken as never mirrored.
pub fn catches(player: &Char_action, faller: &Char_action) -> (hit: bool)
    ensures
        hit == overlap(plain_box(faller@), upright_box(player@)),
    no_unwind
{
    let a = faller.screen_region();
    let b = player.screen_region();
    let left: i64 = if player.facing_right() {
        b.x as i64 + b.width as i64
    } else {
        b.x as i64
    };
    let width: i64 = if player.facing_right() {
        -(b.width as i64)
    } else {
        b.width as i64
    };
    a.x as i64 + a.width as i64 > left && (a.x as i64) < left + width && a.y as i64
        - (a.height as i64) < b.y as i64 && a.y as i64 > b.y as i64 - b.height as i64
}

/// The game: two actors, the score, and the sprite list that shows them.
#[derive(Debug)]
pub struct Game {
    player: Char_action,
    faller: Char_action,
    state: GameState,
    nut_count: u32,
    sprites: Vec<Sprite>,
}

impl View for Game {
    type V = GameView;

    closed spec fn view(&self) -> GameView {
        GameView {
            player: self.player@,
            faller: self.faller@,
            state: self.state,
            nut_count: self.nut_count,
            sprites: self.sprites@,
        }
    }
}

impl Game {
    /// Holds of every `Game` at all times.
    #[verifier::type_invariant]
    pub open spec fn well_formed(self) -> bool {
        self@.valid()
    }

    /// A game at the start of a session. An actor whose entry the sprite
    /// list does not have is rejected.
    pub fn new(player: Char_action, faller: Char_action, sprites: Vec<Sprite>) -> (made: Option<
        Game,
    >)
        ensures
            made is None <==> (player@.sprites_index >= sprites@.len() || faller@.sprites_index
                >= sprites@.len()),
            made matches Some(game) ==> game@ == (GameView {
                player: player@,
                faller: faller@,
                state: GameState { chars_typed: 0, score: 0, score_changing: false },
                nut_count: 0,
                sprites: sprites@,
            }),
    {
        proof {
            use_type_invariant(&player);
            use_type_invariant(&faller);
        }
        if player.sprites_index() >= sprites.len() || faller.sprites_index() >= sprites.len() {
            None
        } else {
            Some(Game { player, faller, state: init_game_state(), nut_count: 0, sprites })
        }
    }

    /// Steers the player by the keys that are held.
    fn steer(&mut self, input: Input)
        ensures
            final(self)@ == old(self)@.steered(input),
        no_unwind
    {
        proof {
            use_type_invariant(&*self);
        }
        if input.left {
            self.player.face_left();
            self.player.walk();
            self.player.animate();
        } else if input.right {
            self.player.face_right();
            self.player.walk();
            self.player.animate();
        } else {
            self.player.rest();
        }
    }

    /// Writes both actors to the sprite list.
    fn publish(&mut self)
        ensures
            final(self)@ == old(self)@.published(),
        no_unwind
    {
        proof {
            use_type_invariant(&*self);
        }
        let own: usize = self.player.sprites_index();
        let other: usize = self.faller.sprites_index();
        self.sprites[own] = Sprite {
            screen_region: self.player.screen_region(),
            sheet_region: self.player.sheet_region(),
        };
        let kept = self.sprites[other].sheet_region;
        self.sprites[other] = Sprite {
            screen_region: self.faller.screen_region(),
            sheet_region: kept,
        };
    }

    /// Settles this tick's catch, if there is one.
    fn settle(&mut self, column: u32)
        ensures
            final(self)@ == old(self)@.settled(column),
        no_unwind
    {
        proof {
            use_type_invariant(&*self);
        }
        if catches(&self.player, &self.faller) {
            if self.nut_count < u32::MAX {
                self.nut_count = self.nut_count + 1;
            }
            let faster: i32 = plus(self.faller.speed(), SPEED_STEP);
            self.faller.set_speed(faster);
            self.faller.respawn_at(column);
            self.state.record_check(true);
        } else {
            self.state.record_check(false);
        }
    }

    /// Runs one tick in which the falling actor respawns in `fall_column`
    /// if it lands and in `catch_column` if it is caught. Returns the new
    /// score if the tick changed it.
    pub fn update_with(&mut self, input: Input, fall_column: u32, catch_column: u32) -> (news:
        Option<usize>)
        ensures
            final(self)@ == old(self)@.stepped(input, fall_column, catch_column),
            final(self)@.state.score >= old(self)@.state.score,
            news == final(self)@.score_news(old(self)@),
        no_unwind
    {
        proof {
            use_type_invariant(&*self);
        }
        let before: usize = self.state.score;
        self.faller.move_down_at(fall_column);
        self.steer(input);
        self.publish();
        self.settle(catch_column);
        if self.state.score != before {
            Some(self.state.score)
        } else {
            None
        }
    }

    /// Runs one tick, with respawn columns drawn at random from the
    /// visible range. Returns the new score if the tick changed it.
    pub fn update(&mut self, input: Input) -> (news: Option<usize>)
        ensures
            exists|fall_column: u32, catch_column: u32|
                fall_column <= MAX_COLUMN && catch_column <= MAX_COLUMN && final(self)@
                    == #[trigger] old(self)@.stepped(input, fall_column, catch_column),
            final(self)@.state.score >= old(self)@.state.score,
            news == final(self)@.score_news(old(self)@),
    {
        let fall_column: u32 = random_column();
        let catch_column: u32 = random_column();
        self.update_with(input, fall_column, catch_column)
    }

    /// The actor that the keys steer.
    pub fn player(&self) -> (player: &Char_action)
        ensures
            player@ == self@.player,
        no_unwind
    {
        &self.player
    }

    /// The actor that falls and is caught.
    pub fn faller(&self) -> (faller: &Char_action)
        ensures
            faller@ == self@.faller,
        no_unwind
    {
        &self.faller
    }

    /// Score and edge trigger.
    pub fn state(&self) -> (state: GameState)
        ensures
            state == self@.state,
        no_unwind
    {
        self.state
    }

    /// How many ticks ended with the falling actor on the player.
    pub fn nut_count(&self) -> (count: u32)
        ensures
            count == self@.nut_count,
        no_unwind
    {
        self.nut_count
    }

    /// What the renderer draws, one entry per sprite slot.
    pub fn sprites(&self) -> (sprites: &Vec<Sprite>)
        ensures
            sprites@ == self@.sprites,
        no_unwind
    {
        &self.sprites
    }
}

} // verus!
