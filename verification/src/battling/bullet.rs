use crate::battling::enemy::Enemy;
use crate::math::{aim, aimed, lemma_scaled_is_direction, scaled, Rect, Vec2};
use crate::platform::{Command, CommandView, Texture};
use vstd::prelude::*;

verus! {

/// How fast a bullet flies: 500 pixels per second.
pub const BULLET_SPEED: u32 = 500000;

#[derive(Clone, Copy, Debug, PartialEq, Eq, Structural)]
pub struct Bullet {
    pub rect: Rect,
    pub vel: Vec2,
}

impl Bullet {
    /// A bullet of the given size at `pos`, on its way to `target`.
    pub open spec fn fired(pos: Vec2, target: Vec2, size: Vec2) -> Bullet {
        Bullet {
            rect: Rect { x: pos.x, y: pos.y, w: size.x, h: size.y },
            vel: aimed(pos, target, BULLET_SPEED as int),
        }
    }

    /// The bullet after `dt` microseconds of flight.
    pub open spec fn updated(self, dt: u32) -> Bullet {
        Bullet { rect: self.rect.shifted(self.vel, dt), ..self }
    }

    /// The bullet after frames of the given lengths, one after the other.
    pub open spec fn updated_through(self, frames: Seq<u32>) -> Bullet
        decreases frames.len(),
    {
        if frames.len() == 0 {
            self
        } else {
            self.updated_through(frames.drop_last()).updated(frames.last())
        }
    }

    pub open spec fn drawn(self) -> CommandView {
        CommandView::Texture { texture: Texture::Bullet, x: self.rect.x, y: self.rect.y }
    }

    /// Whether the bullet's box and the enemy's share a point.
    pub open spec fn hits(self, enemy: Enemy) -> bool {
        enemy.rect.meets(self.rect)
    }

    /// A bullet of the given size at `pos` that flies toward `target`.
    pub fn new(pos: Vec2, target: Vec2, size: Vec2) -> (b: Self)
        ensures
            b == Self::fired(pos, target, size),
    {
        Self { rect: Rect::new(pos.x, pos.y, size.x, size.y), vel: aim(pos, target, BULLET_SPEED) }
    }

    /// Flies for `dt` microseconds.
    pub fn update(&mut self, dt: u32)
        ensures
            *final(self) == old(self).updated(dt),
    {
        self.rect = self.rect.shift(self.vel, dt);
    }

    pub fn draw(&self) -> (c: Command)
        ensures
            c@ == self.drawn(),
    {
        Command::Texture { texture: Texture::Bullet, x: self.rect.x, y: self.rect.y }
    }

    /// Whether the bullet touches the enemy.
    pub fn is_collision(&self, enemy: Enemy) -> (b: bool)
        ensures
            b == self.hits(enemy),
    {
        enemy.rect.intersect(self.rect).is_some()
    }
}

/// A bullet without velocity stays where it is, through any number of
/// frames of any length.
pub proof fn lemma_resting_bullet_stays(b: Bullet, frames: Seq<u32>)
    requires
        b.vel == (Vec2 { x: 0, y: 0 }),
    ensures
        b.updated_through(frames) == b,
    decreases frames.len(),
{
    if frames.len() > 0 {
        lemma_resting_bullet_stays(b, frames.drop_last());
    }
}

/// A bullet fired at `pos` toward another point `target` flies along the
/// way from `pos` to `target` at the bullet speed: each component `v` of its
/// velocity has the sign of the way's component `d`, and its size is the
/// whole part of `speed * |d| / length of the way`. So the velocity is not
/// longer than the bullet speed.
pub proof fn lemma_bullet_flies_toward(pos: Vec2, target: Vec2, size: Vec2)
    requires
        pos != target,
    ensures
        ({
            let v = Bullet::fired(pos, target, size).vel;
            let dx = target.x - pos.x;
            let dy = target.y - pos.y;
            let len2 = dx * dx + dy * dy;
            let speed2 = BULLET_SPEED * BULLET_SPEED;
            let mx = if v.x < 0 {
                -v.x
            } else {
                v.x as int
            };
            let my = if v.y < 0 {
                -v.y
            } else {
                v.y as int
            };
            &&& Bullet::fired(pos, target, size).rect == (Rect {
                x: pos.x,
                y: pos.y,
                w: size.x,
                h: size.y,
            })
            &&& (dx > 0 ==> v.x >= 0) && (dx < 0 ==> v.x <= 0) && (dx == 0 ==> v.x == 0)
            &&& (dy > 0 ==> v.y >= 0) && (dy < 0 ==> v.y <= 0) && (dy == 0 ==> v.y == 0)
            &&& v.x * v.x * len2 <= speed2 * (dx * dx) < (mx + 1) * (mx + 1) * len2
            &&& v.y * v.y * len2 <= speed2 * (dy * dy) < (my + 1) * (my + 1) * len2
            &&& v.x * v.x + v.y * v.y <= speed2
        }),
{
    let dx = target.x - pos.x;
    let dy = target.y - pos.y;
    let speed = BULLET_SPEED as int;
    lemma_scaled_is_direction(dx, dy, speed);
    lemma_scaled_is_direction(dy, dx, speed);
    let a = scaled(dx, dy, speed);
    let b = scaled(dy, dx, speed);
    let len2 = dx * dx + dy * dy;
    assert(dy * dy + dx * dx == len2);
    assert(len2 > 0) by (nonlinear_arith)
        requires
            dx != 0 || dy != 0,
            len2 == dx * dx + dy * dy,
    ;
    assert(a * a + b * b <= speed * speed) by (nonlinear_arith)
        requires
            a * a * len2 <= speed * speed * (dx * dx),
            b * b * len2 <= speed * speed * (dy * dy),
            len2 == dx * dx + dy * dy,
            len2 > 0,
    ;
}

} // verus!
