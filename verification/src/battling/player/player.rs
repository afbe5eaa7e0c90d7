use crate::battling::enemy::Enemy;
use crate::math::{advance, moved, Rect, Vec2};
use crate::platform::{Command, CommandView, Input, Texture};
use crate::tier::Tier;
use vstd::prelude::*;

verus! {

/// How fast the player walks: 250 pixels per second.
pub const PLAYER_SPEED: i32 = 250000;

#[derive(Clone, Copy, Debug, PartialEq, Eq, Structural)]
pub struct Player {
    pub rect: Rect,
    pub texture: Texture,
}

impl Player {
    /// Where the keys of a frame take a coordinate. Of two opposite keys the
    /// one toward zero wins.
    pub open spec fn walked(pos: i32, back: bool, forth: bool, dt: u32) -> i32 {
        if back {
            moved(pos as int, -PLAYER_SPEED as int, dt as int) as i32
        } else if forth {
            moved(pos as int, PLAYER_SPEED as int, dt as int) as i32
        } else {
            pos
        }
    }

    /// The player after the frame: each axis moves by itself.
    pub open spec fn updated(self, input: Input) -> Player {
        Player {
            rect: Rect {
                x: Self::walked(self.rect.x, input.left, input.right, input.dt),
                y: Self::walked(self.rect.y, input.up, input.down, input.dt),
                ..self.rect
            },
            ..self
        }
    }

    /// The player after the given frames, one after the other.
    pub open spec fn updated_through(self, frames: Seq<Input>) -> Player
        decreases frames.len(),
    {
        if frames.len() == 0 {
            self
        } else {
            self.updated_through(frames.drop_last()).updated(frames.last())
        }
    }

    /// The player back in the middle of the screen.
    pub open spec fn recentered(self, screen: Vec2) -> Player {
        let corner = self.rect.centered_corner(screen);
        Player { rect: Rect { x: corner.x, y: corner.y, ..self.rect }, ..self }
    }

    pub open spec fn drawn(self) -> CommandView {
        CommandView::Texture { texture: self.texture, x: self.rect.x, y: self.rect.y }
    }

    /// Whether the enemy's box and the player's share a point.
    pub open spec fn hit_by(self, enemy: Enemy) -> bool {
        enemy.rect.meets(self.rect)
    }

    /// A player of the given size in the middle of the screen, as the first
    /// character.
    pub fn new(screen: Vec2, size: Vec2) -> (p: Self)
        ensures
            p.rect.w == size.x,
            p.rect.h == size.y,
            p.texture == Texture::Regular(Tier::Apple),
            p == p.recentered(screen),
    {
        let rect = Rect::new(0, 0, size.x, size.y);
        let corner = rect.centered(screen);
        Self {
            rect: Rect::new(corner.x, corner.y, size.x, size.y),
            texture: Texture::Regular(Tier::Apple),
        }
    }

    fn walk(pos: i32, back: bool, forth: bool, dt: u32) -> (r: i32)
        ensures
            r == Self::walked(pos, back, forth, dt),
    {
        if back {
            advance(pos, -PLAYER_SPEED, dt)
        } else if forth {
            advance(pos, PLAYER_SPEED, dt)
        } else {
            pos
        }
    }

    /// Walks where the keys say.
    pub fn update(&mut self, input: &Input)
        ensures
            *final(self) == old(self).updated(*input),
    {
        self.rect.x = Self::walk(self.rect.x, input.left, input.right, input.dt);
        self.rect.y = Self::walk(self.rect.y, input.up, input.down, input.dt);
    }

    pub fn draw(&self) -> (c: Command)
        ensures
            c@ == self.drawn(),
    {
        Command::Texture { texture: self.texture, x: self.rect.x, y: self.rect.y }
    }

    /// Puts the player back in the middle of the screen.
    pub fn reset(&mut self, screen: Vec2)
        ensures
            *final(self) == old(self).recentered(screen),
    {
        let corner = self.rect.centered(screen);
        self.rect.x = corner.x;
        self.rect.y = corner.y;
    }

    /// Whether the enemy touches the player.
    pub fn is_collision(&self, enemy: Enemy) -> (b: bool)
        ensures
            b == self.hit_by(enemy),
    {
        enemy.rect.intersect(self.rect).is_some()
    }
}

/// Whether no direction key is down.
pub open spec fn idle(input: Input) -> bool {
    !input.left && !input.right && !input.up && !input.down
}

/// While no key is down the player stays where it is, through any number of
/// frames of any length.
pub proof fn lemma_idle_player_stays(p: Player, frames: Seq<Input>)
    requires
        forall|i: int| 0 <= i < frames.len() ==> idle(#[trigger] frames[i]),
    ensures
        p.updated_through(frames) == p,
    decreases frames.len(),
{
    if frames.len() > 0 {
        lemma_idle_player_stays(p, frames.drop_last());
        assert(idle(frames.last()));
    }
}

} // verus!
