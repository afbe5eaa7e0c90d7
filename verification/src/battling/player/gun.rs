use crate::math::{clamp, saturate, Rect, Vec2};
use crate::objects::bullets::STARTING_BULLETS;
use crate::platform::{Command, CommandView, Texture};
use vstd::prelude::*;

verus! {

#[derive(Clone, Copy, Debug, PartialEq, Eq, Structural)]
pub struct Gun {
    pub rect: Rect,
    /// Armed while the fire button is up: one shot per press.
    pub can_shoot: bool,
    /// The rounds left.
    pub bullets: usize,
}

impl Gun {
    /// The gun at another place.
    pub open spec fn moved_to(self, pos: Vec2) -> Gun {
        Gun { rect: Rect { x: pos.x, y: pos.y, ..self.rect }, ..self }
    }

    /// The gun as a life starts: loaded, armed, at the given place.
    pub open spec fn reloaded(self, pos: Vec2) -> Gun {
        Gun {
            rect: Rect { x: pos.x, y: pos.y, ..self.rect },
            can_shoot: true,
            bullets: STARTING_BULLETS,
        }
    }

    /// The way from the gun to the pointer.
    pub open spec fn sight(self, pointer: Vec2) -> Vec2 {
        Vec2 {
            x: clamp(pointer.x - self.rect.x) as i32,
            y: clamp(pointer.y - self.rect.y) as i32,
        }
    }

    /// The gun's picture, turned toward the pointer.
    pub open spec fn drawn(self, pointer: Vec2) -> CommandView {
        CommandView::TextureAimed {
            texture: Texture::Gun,
            x: self.rect.x,
            y: self.rect.y,
            aim: self.sight(pointer),
        }
    }

    /// A gun of the given size in the middle of the screen, empty and not
    /// armed.
    pub fn new(screen: Vec2, size: Vec2) -> (g: Self)
        ensures
            g.rect.w == size.x,
            g.rect.h == size.y,
            g.rect.centered_corner(screen) == (Vec2 { x: g.rect.x, y: g.rect.y }),
            !g.can_shoot,
            g.bullets == 0,
    {
        let rect = Rect::new(0, 0, size.x, size.y);
        let corner = rect.centered(screen);
        Self { rect: Rect::new(corner.x, corner.y, size.x, size.y), can_shoot: false, bullets: 0 }
    }

    /// Moves the gun to the player.
    pub fn update(&mut self, player_pos: Vec2)
        ensures
            *final(self) == old(self).moved_to(player_pos),
    {
        self.rect.x = player_pos.x;
        self.rect.y = player_pos.y;
    }

    pub fn draw(&self, pointer: Vec2) -> (c: Command)
        ensures
            c@ == self.drawn(pointer),
    {
        Command::TextureAimed {
            texture: Texture::Gun,
            x: self.rect.x,
            y: self.rect.y,
            aim: Vec2 {
                x: saturate(pointer.x as i64 - self.rect.x as i64),
                y: saturate(pointer.y as i64 - self.rect.y as i64),
            },
        }
    }

    /// Loads and arms the gun and moves it to the player.
    pub fn reset(&mut self, player_pos: Vec2)
        ensures
            *final(self) == old(self).reloaded(player_pos),
    {
        self.bullets = STARTING_BULLETS;
        self.can_shoot = true;
        self.rect.x = player_pos.x;
        self.rect.y = player_pos.y;
    }
}

} // verus!
