use crate::math::{aim, aimed, Rect, Vec2};
use crate::platform::{Command, CommandView, Texture};
use crate::tier::Tier;
use vstd::prelude::*;

verus! {

/// How fast an enemy runs: 250 pixels per second.
pub const ENEMY_SPEED: u32 = 250000;

#[derive(Clone, Copy, Debug, PartialEq, Eq, Structural)]
pub struct Enemy {
    pub rect: Rect,
    pub is_alive: bool,
    pub has_given_money: bool,
    pub texture: Texture,
    pub vel: Vec2,
    pub worth: i32,
}

impl Enemy {
    /// A new enemy at `pos` that runs toward `player_pos`. Its box is a
    /// square as wide as its picture.
    pub open spec fn spawned(pos: Vec2, player_pos: Vec2, size: Vec2) -> Enemy {
        Enemy {
            rect: Rect { x: pos.x, y: pos.y, w: size.x, h: size.x },
            is_alive: true,
            has_given_money: false,
            texture: Texture::Enemy(Tier::Orange),
            vel: aimed(pos, player_pos, ENEMY_SPEED as int),
            worth: 1,
        }
    }

    /// The enemy after `dt` microseconds; a dead one stays where it is.
    pub open spec fn updated(self, dt: u32) -> Enemy {
        if self.is_alive {
            Enemy { rect: self.rect.shifted(self.vel, dt), ..self }
        } else {
            self
        }
    }

    /// The enemy after frames of the given lengths, one after the other.
    pub open spec fn updated_through(self, frames: Seq<u32>) -> Enemy
        decreases frames.len(),
    {
        if frames.len() == 0 {
            self
        } else {
            self.updated_through(frames.drop_last()).updated(frames.last())
        }
    }

    /// The command that draws the enemy; a dead one is not drawn.
    pub open spec fn drawn(self) -> Option<CommandView> {
        if self.is_alive {
            Some(CommandView::Texture { texture: self.texture, x: self.rect.x, y: self.rect.y })
        } else {
            None
        }
    }

    /// A new enemy at `pos` that runs toward `player_pos`.
    pub fn new(pos: Vec2, player_pos: Vec2, size: Vec2) -> (e: Self)
        ensures
            e == Self::spawned(pos, player_pos, size),
    {
        Self {
            rect: Rect::new(pos.x, pos.y, size.x, size.x),
            texture: Texture::Enemy(Tier::Orange),
            is_alive: true,
            has_given_money: false,
            vel: aim(pos, player_pos, ENEMY_SPEED),
            worth: 1,
        }
    }

    /// Runs for `dt` microseconds.
    pub fn update(&mut self, dt: u32)
        ensures
            *final(self) == old(self).updated(dt),
    {
        if self.is_alive {
            self.rect = self.rect.shift(self.vel, dt);
        }
    }

    pub fn draw(&self) -> (c: Option<Command>)
        ensures
            c is Some == self.drawn() is Some,
            c matches Some(command) ==> Some(command@) == self.drawn(),
    {
        if self.is_alive {
            Some(Command::Texture { texture: self.texture, x: self.rect.x, y: self.rect.y })
        } else {
            None
        }
    }
}

/// An enemy without velocity stays where it is, through any number of
/// frames of any length.
pub proof fn lemma_resting_enemy_stays(e: Enemy, frames: Seq<u32>)
    requires
        e.vel == (Vec2 { x: 0, y: 0 }),
    ensures
        e.updated_through(frames) == e,
    decreases frames.len(),
{
    if frames.len() > 0 {
        lemma_resting_enemy_stays(e, frames.drop_last());
    }
}

} // verus!
