//! The battlefield: the player shoots the enemies that run at it.

use crate::battling::bullet::Bullet;
use crate::battling::enemy::Enemy;
use crate::battling::player::gun::Gun;
use crate::battling::player::player::Player;
use crate::math::{clamp, saturate, Rect, Vec2};
use crate::objects::bullets::{Bullets, BulletsView, STARTING_BULLETS};
use crate::objects::button::{Button, ButtonView};
use crate::objects::money::{Money, MoneyView};
use crate::platform::{
    emit, extend, no_commands, views, Color, Command, CommandView, Font, Input, Sound, Sprites, Texture,
};
use crate::random::roll;
use crate::states::game_state::GameState;
use crate::tier::Tier;
use crate::upgrading::bullet_button::{
    BUTTON_FONT_SIZE, BUTTON_HEIGHT, BUTTON_INSET, BUTTON_WIDTH,
};
use crate::upgrading::character::{Character, CharacterView};
use vstd::prelude::*;
use vstd::string::*;

verus! {

/// The frames between two enemies.
pub const ENEMY_SPAWN_TIME: u32 = 50;

/// How loud a death is, in percent.
pub const DEATH_VOLUME: u8 = 50;

/// How loud shots and kills are, in percent.
pub const SHOT_VOLUME: u8 = 30;

/// How far the retreat button stands from the top.
pub const RETREAT_Y: i32 = 20000;

/// The edge of the screen at which an enemy appears.
#[derive(Clone, Copy, Debug, PartialEq, Eq, Structural)]
pub enum Location {
    Top,
    Right,
    Bottom,
    Left,
}

/// A length of the screen; a negative one counts as nothing.
pub open spec fn extent(d: int) -> int {
    if d < 0 {
        0
    } else {
        d
    }
}

impl Location {
    /// The edge for a number from 1 to 4; other numbers name no edge.
    pub open spec fn numbered(n: int) -> Option<Location> {
        if n == 1 {
            Some(Location::Top)
        } else if n == 2 {
            Some(Location::Right)
        } else if n == 3 {
            Some(Location::Bottom)
        } else if n == 4 {
            Some(Location::Left)
        } else {
            None
        }
    }

    /// How long the edge is on a screen of the given size.
    pub open spec fn length(self, screen: Vec2) -> int {
        match self {
            Location::Top | Location::Bottom => extent(screen.x as int),
            Location::Right | Location::Left => extent(screen.y as int),
        }
    }

    /// The point on the edge that lies `along` from its start.
    pub open spec fn point(self, along: i32, screen: Vec2) -> Vec2 {
        match self {
            Location::Top => Vec2 { x: along, y: 0 },
            Location::Right => Vec2 { x: screen.x, y: along },
            Location::Bottom => Vec2 { x: along, y: screen.y },
            Location::Left => Vec2 { x: 0, y: along },
        }
    }

    /// The edge for a number from 1 to 4.
    pub fn from_roll(n: u32) -> (l: Option<Location>)
        ensures
            l == Self::numbered(n as int),
    {
        if n == 1 {
            Some(Location::Top)
        } else if n == 2 {
            Some(Location::Right)
        } else if n == 3 {
            Some(Location::Bottom)
        } else if n == 4 {
            Some(Location::Left)
        } else {
            None
        }
    }

    /// How long the edge is on a screen of the given size.
    pub fn span(&self, screen: Vec2) -> (n: u32)
        ensures
            n as int == self.length(screen),
    {
        let d: i32 = match self {
            Location::Top | Location::Bottom => screen.x,
            Location::Right | Location::Left => screen.y,
        };
        if d < 0 {
            0
        } else {
            d as u32
        }
    }

    /// The point on the edge that lies `along` from its start.
    pub fn at(&self, along: i32, screen: Vec2) -> (p: Vec2)
        ensures
            p == self.point(along, screen),
    {
        match self {
            Location::Top => Vec2 { x: along, y: 0 },
            Location::Right => Vec2 { x: screen.x, y: along },
            Location::Bottom => Vec2 { x: along, y: screen.y },
            Location::Left => Vec2 { x: 0, y: along },
        }
    }
}

/// A point of an edge lies on the rim of the screen: one coordinate is 0 or
/// the screen's size that way, the other lies between 0 and the screen's size
/// the other way.
pub proof fn lemma_edge_point_on_rim(location: Location, along: i32, screen: Vec2)
    requires
        screen.x >= 0,
        screen.y >= 0,
        0 <= along <= location.length(screen),
    ensures
        ({
            let p = location.point(along, screen);
            ||| (p.y == 0 || p.y == screen.y) && 0 <= p.x <= screen.x
            ||| (p.x == 0 || p.x == screen.x) && 0 <= p.y <= screen.y
        }),
{
}

#[derive(Clone, Debug, PartialEq, Eq)]
pub struct Battling {
    pub game_state: GameState,
    pub money: Money,
    pub bullet_count: Bullets,
    pub character: Character,
    pub gun: Gun,
    /// Set when a life ended for want of bullets and money.
    pub out_of_bullets: bool,
    pub player: Player,
    pub retreat_button: Button,
    pub bullets: Vec<Bullet>,
    pub enemies: Vec<Enemy>,
    /// The frames until the next enemy appears.
    pub enemy_spawn_timer: u32,
    pub sprites: Sprites,
}

pub struct BattlingView {
    pub game_state: GameState,
    pub money: MoneyView,
    pub bullet_count: BulletsView,
    pub character: CharacterView,
    pub gun: Gun,
    pub out_of_bullets: bool,
    pub player: Player,
    pub retreat_button: ButtonView,
    pub bullets: Seq<Bullet>,
    pub enemies: Seq<Enemy>,
    pub enemy_spawn_timer: u32,
    pub sprites: Sprites,
}

impl View for Battling {
    type V = BattlingView;

    open spec fn view(&self) -> BattlingView {
        BattlingView {
            game_state: self.game_state,
            money: self.money@,
            bullet_count: self.bullet_count@,
            character: self.character@,
            gun: self.gun,
            out_of_bullets: self.out_of_bullets,
            player: self.player,
            retreat_button: self.retreat_button@,
            bullets: self.bullets@,
            enemies: self.enemies@,
            enemy_spawn_timer: self.enemy_spawn_timer,
            sprites: self.sprites,
        }
    }
}

/// Where the retreat button stands on a screen of the given size.
pub open spec fn retreat_corner(screen: Vec2, y: i32) -> Vec2 {
    Vec2 { x: clamp(screen.x - BUTTON_INSET) as i32, y }
}

/// One frame of flight.
pub open spec fn flight(dt: u32) -> spec_fn(Bullet) -> Bullet {
    |b: Bullet| b.updated(dt)
}

/// Whether a bullet is still on the screen or touches it.
pub open spec fn bullet_stays(screen: Vec2) -> spec_fn(Bullet) -> bool {
    |b: Bullet| !b.rect.outside(screen)
}

pub open spec fn bullet_picture() -> spec_fn(Bullet) -> CommandView {
    |b: Bullet| b.drawn()
}

/// One frame of running.
pub open spec fn run(dt: u32) -> spec_fn(Enemy) -> Enemy {
    |e: Enemy| e.updated(dt)
}

/// Whether an enemy is still on the screen or touches it.
pub open spec fn enemy_stays(screen: Vec2) -> spec_fn(Enemy) -> bool {
    |e: Enemy| !e.rect.outside(screen)
}

pub open spec fn alive() -> spec_fn(Enemy) -> bool {
    |e: Enemy| e.is_alive
}

pub open spec fn enemy_picture() -> spec_fn(Enemy) -> CommandView {
    |e: Enemy| CommandView::Texture { texture: e.texture, x: e.rect.x, y: e.rect.y }
}

/// Whether one of the bullets touches the enemy.
pub open spec fn is_shot(bullets: Seq<Bullet>, e: Enemy) -> bool {
    exists|j: int| 0 <= j < bullets.len() && (#[trigger] bullets[j]).hits(e)
}

/// Whether none of the bullets touches the enemy.
pub open spec fn survives(bullets: Seq<Bullet>) -> spec_fn(Enemy) -> bool {
    |e: Enemy| !is_shot(bullets, e)
}

/// The counter after the rewards came in, one after the other.
pub open spec fn credited(m: MoneyView, rewards: Seq<usize>, screen: Vec2) -> MoneyView
    decreases rewards.len(),
{
    if rewards.len() == 0 {
        m
    } else {
        credited(m, rewards.drop_last(), screen).incremented(rewards.last(), screen)
    }
}

/// Whether each reward lies within the bounds of the tier.
pub open spec fn fair(rewards: Seq<usize>, tier: Tier) -> bool {
    forall|i: int|
        0 <= i < rewards.len() ==> tier.least_reward() <= (#[trigger] rewards[i])
            <= tier.greatest_reward()
}

/// What the enemies look like while a character of the given tier is
/// equipped: the next character up, or the monkey at the last tier.
pub open spec fn enemy_look(tier: Tier) -> Texture {
    match tier.successor() {
        Some(next) => Texture::Enemy(next),
        None => Texture::Monkey,
    }
}

pub open spec fn dressed(texture: Texture) -> spec_fn(Enemy) -> Enemy {
    |e: Enemy| Enemy { texture, ..e }
}

pub open spec fn kill_sound() -> spec_fn(int) -> CommandView {
    |i: int| CommandView::Play { sound: Sound::Kill, volume: SHOT_VOLUME }
}

impl BattlingView {
    /// The battlefield as a game starts.
    pub open spec fn fresh(screen: Vec2, sprites: Sprites, player: Player, gun: Gun) -> BattlingView {
        BattlingView {
            game_state: GameState::Battling,
            money: MoneyView::fresh(screen),
            bullet_count: BulletsView::fresh(),
            character: CharacterView {
                character: Tier::Apple.label(),
                can_set: true,
                texture: Texture::Display(Tier::Apple),
                texture_size: sprites.player,
            },
            gun,
            out_of_bullets: false,
            player,
            retreat_button: ButtonView {
                rect: Rect {
                    x: retreat_corner(screen, RETREAT_Y).x,
                    y: RETREAT_Y,
                    w: BUTTON_WIDTH,
                    h: BUTTON_HEIGHT,
                },
                text: "Retreat"@,
                font: Font::RobotoMedium,
                bg: Color::Red,
                font_size: BUTTON_FONT_SIZE,
                can_click: false,
            },
            bullets: Seq::empty(),
            enemies: Seq::empty(),
            enemy_spawn_timer: ENEMY_SPAWN_TIME,
            sprites,
        }
    }

    // ---- the player and the gun ----

    /// The battlefield after the gun took over the stock, the player walked
    /// and the gun followed to the player's middle.
    pub open spec fn walked(self, input: Input) -> BattlingView {
        let player = self.player.updated(input);
        BattlingView {
            player,
            gun: Gun { bullets: self.bullet_count.bullets, ..self.gun }.moved_to(
                player.rect.middle(),
            ),
            ..self
        }
    }

    /// The player and the gun as the frame found them.
    pub open spec fn walk_commands(self, input: Input) -> Seq<CommandView> {
        seq![self.player.drawn(), self.gun.drawn(input.pointer)]
    }

    // ---- the end of a life ----

    /// Whether some enemy touches the player.
    pub open spec fn struck(self) -> bool {
        exists|i: int| 0 <= i < self.enemies.len() && self.player.hit_by(#[trigger] self.enemies[i])
    }

    /// Whether nothing is left to fight with: no round in the gun, no money,
    /// no bullet in flight.
    pub open spec fn starved(self) -> bool {
        self.gun.bullets == 0 && self.money.money == 0 && self.bullets.len() == 0
    }

    /// The field swept: nothing flies or runs, the player stands in the
    /// middle, the gun lies loaded at the player's far corner with its latch
    /// down.
    pub open spec fn swept(self, screen: Vec2) -> BattlingView {
        let player = self.player.recentered(screen);
        BattlingView {
            player,
            gun: Gun { can_shoot: false, ..self.gun.reloaded(player.rect.far_corner()) },
            enemies: Seq::empty(),
            bullets: Seq::empty(),
            ..self
        }
    }

    /// The field after the player died: swept, money and stock as at the
    /// start, the state `Dead`.
    pub open spec fn lost(self, screen: Vec2) -> BattlingView {
        BattlingView {
            money: MoneyView { money: 0, ..self.money },
            bullet_count: BulletsView { bullets: STARTING_BULLETS, ..self.bullet_count },
            game_state: GameState::Dead,
            ..self.swept(screen)
        }
    }

    /// The field after the check for the end of a life. A touch comes
    /// first, then the retreat, then starvation.
    pub open spec fn after_reset(self, input: Input) -> BattlingView {
        if self.struck() {
            self.lost(input.screen)
        } else if self.retreat_button.pressed(input) {
            BattlingView { game_state: GameState::Upgrading, ..self.swept(input.screen) }
        } else if self.starved() {
            BattlingView { out_of_bullets: true, ..self.lost(input.screen) }
        } else {
            self
        }
    }

    /// A death by touch is heard.
    pub open spec fn reset_commands(self) -> Seq<CommandView> {
        if self.struck() {
            seq![CommandView::Play { sound: Sound::Die, volume: DEATH_VOLUME }]
        } else {
            Seq::empty()
        }
    }

    // ---- shooting ----

    /// Whether this frame fires: the button is down, the latch is up and a
    /// round is left.
    pub open spec fn fires(self, input: Input) -> bool {
        input.pointer_down && self.gun.can_shoot && self.gun.bullets > 0
    }

    /// The bullet that a shot sends off: from the gun's middle toward the
    /// pointer.
    pub open spec fn shot(self, input: Input) -> Bullet {
        Bullet::fired(self.gun.rect.middle(), input.pointer, self.sprites.bullet)
    }

    /// The field after the check for a shot. A shot takes one round and
    /// lets the latch down; the latch goes up when the button is up. Without
    /// a round, or within one press, nothing happens.
    pub open spec fn after_shot(self, input: Input) -> BattlingView {
        if !input.pointer_down {
            BattlingView { gun: Gun { can_shoot: true, ..self.gun }, ..self }
        } else if self.fires(input) {
            BattlingView {
                gun: Gun { can_shoot: false, bullets: (self.gun.bullets - 1) as usize, ..self.gun },
                bullet_count: self.bullet_count.decremented(),
                bullets: self.bullets.push(self.shot(input)),
                ..self
            }
        } else {
            self
        }
    }

    /// A shot is heard.
    pub open spec fn shot_commands(self, input: Input) -> Seq<CommandView> {
        if self.fires(input) {
            seq![CommandView::Play { sound: Sound::Shoot, volume: SHOT_VOLUME }]
        } else {
            Seq::empty()
        }
    }

    // ---- flight and pruning ----

    /// The bullets after the frame, as they are drawn: all of them, moved.
    pub open spec fn flown(self, input: Input) -> Seq<Bullet> {
        self.bullets.map_values(flight(input.dt))
    }

    /// The field after the bullets flew: those that left the screen are
    /// gone.
    pub open spec fn bullets_flown(self, input: Input) -> BattlingView {
        BattlingView { bullets: self.flown(input).filter(bullet_stays(input.screen)), ..self }
    }

    pub open spec fn bullet_commands(self, input: Input) -> Seq<CommandView> {
        self.flown(input).map_values(bullet_picture())
    }

    /// The enemies after the frame, as they are drawn: all of them, moved.
    pub open spec fn ran(self, input: Input) -> Seq<Enemy> {
        self.enemies.map_values(run(input.dt))
    }

    /// The field after the enemies ran: those that left the screen are
    /// gone.
    pub open spec fn enemies_run(self, input: Input) -> BattlingView {
        BattlingView { enemies: self.ran(input).filter(enemy_stays(input.screen)), ..self }
    }

    pub open spec fn enemy_commands(self, input: Input) -> Seq<CommandView> {
        self.ran(input).filter(alive()).map_values(enemy_picture())
    }

    // ---- new enemies ----

    /// The field after an enemy appeared on the given edge, `along` from
    /// the edge's start, running at the player's corner.
    pub open spec fn spawned_at(self, location: Location, along: i32, screen: Vec2) -> BattlingView {
        BattlingView {
            enemies: self.enemies.push(
                Enemy::spawned(
                    location.point(along, screen),
                    Vec2 { x: self.player.rect.x, y: self.player.rect.y },
                    self.sprites.enemy,
                ),
            ),
            enemy_spawn_timer: ENEMY_SPAWN_TIME,
            ..self
        }
    }

    /// The field one frame nearer to the next enemy.
    pub open spec fn waited(self) -> BattlingView {
        BattlingView { enemy_spawn_timer: (self.enemy_spawn_timer - 1) as u32, ..self }
    }

    /// Whether `spawn` is a possible outcome of this frame: no enemy while
    /// the countdown runs, one on some edge when it has run out.
    pub open spec fn may_spawn(self, spawn: Option<(Location, i32)>, screen: Vec2) -> bool {
        match spawn {
            None => self.enemy_spawn_timer > 0,
            Some((location, along)) => self.enemy_spawn_timer == 0 && 0 <= along
                <= location.length(screen),
        }
    }

    pub open spec fn after_spawn(self, spawn: Option<(Location, i32)>, screen: Vec2) -> BattlingView {
        match spawn {
            None => self.waited(),
            Some((location, along)) => self.spawned_at(location, along, screen),
        }
    }

    // ---- kills ----

    /// The enemies that no bullet touches.
    pub open spec fn survivors(self) -> Seq<Enemy> {
        self.enemies.filter(survives(self.bullets))
    }

    /// How many enemies some bullet touches.
    pub open spec fn kills(self) -> int {
        self.enemies.len() - self.survivors().len()
    }

    /// Whether `rewards` is a possible outcome of this frame: one reward
    /// within the tier's bounds for each kill, or none at all while the
    /// character's name is on no rung.
    pub open spec fn pays(self, rewards: Seq<usize>) -> bool {
        match self.character.tier() {
            Some(tier) => rewards.len() == self.kills() && fair(rewards, tier),
            None => rewards.len() == 0,
        }
    }

    /// The field after the kills: the enemies that were shot are gone, the
    /// rewards are in. The bullets fly on.
    pub open spec fn after_collisions(self, rewards: Seq<usize>, screen: Vec2) -> BattlingView {
        BattlingView {
            enemies: self.survivors(),
            money: credited(self.money, rewards, screen),
            ..self
        }
    }

    /// Each kill is heard.
    pub open spec fn collision_commands(self) -> Seq<CommandView> {
        Seq::new(self.kills() as nat, kill_sound())
    }

    // ---- looks ----

    /// The player in the picture of the equipped character. A name that is
    /// on no rung changes nothing.
    pub open spec fn player_dressed(self) -> BattlingView {
        match self.character.tier() {
            Some(tier) => BattlingView {
                player: Player { texture: Texture::Regular(tier), ..self.player },
                ..self
            },
            None => self,
        }
    }

    /// The enemies in the picture that belongs to the equipped character.
    pub open spec fn enemies_dressed(self) -> BattlingView {
        match self.character.tier() {
            Some(tier) => BattlingView {
                enemies: self.enemies.map_values(dressed(enemy_look(tier))),
                ..self
            },
            None => self,
        }
    }

    // ---- the counters and the button ----

    pub open spec fn hud_drawn(self, input: Input) -> BattlingView {
        let button = self.retreat_button.after_draw(input);
        BattlingView {
            money: self.money.shown(input.screen),
            bullet_count: self.bullet_count.shown(),
            retreat_button: button.placed(
                retreat_corner(input.screen, button.rect.y),
                Vec2 { x: button.rect.w, y: button.rect.h },
            ),
            ..self
        }
    }

    pub open spec fn hud_commands(self, input: Input) -> Seq<CommandView> {
        seq![
            self.money.shown(input.screen).text.drawn(),
            self.bullet_count.shown().text.drawn(),
        ] + self.retreat_button.drawn(input)
    }

    // ---- the whole frame ----

    /// The field when it is time to look at the countdown: the player and
    /// the gun have moved, the life was checked, a shot was fired if one was
    /// due, the bullets have flown.
    pub open spec fn before_spawn(self, input: Input) -> BattlingView {
        self.walked(input).after_reset(input).after_shot(input).bullets_flown(input)
    }

    /// The field when it is time to look for kills: an enemy has appeared if
    /// one was due, the enemies have run.
    pub open spec fn before_kills(self, input: Input, spawn: Option<(Location, i32)>) -> BattlingView {
        self.before_spawn(input).after_spawn(spawn, input.screen).enemies_run(input)
    }

    /// Whether chance may decide the frame so: `spawn` says where an enemy
    /// appears, `rewards` what the kills pay.
    pub open spec fn possible(
        self,
        input: Input,
        spawn: Option<(Location, i32)>,
        rewards: Seq<usize>,
    ) -> bool {
        &&& self.before_spawn(input).may_spawn(spawn, input.screen)
        &&& self.before_kills(input, spawn).pays(rewards)
    }

    /// The field after the frame, where chance decided as `spawn` and
    /// `rewards` say.
    pub open spec fn stepped(
        self,
        input: Input,
        spawn: Option<(Location, i32)>,
        rewards: Seq<usize>,
    ) -> BattlingView {
        self.before_kills(input, spawn).after_collisions(
            rewards,
            input.screen,
        ).player_dressed().enemies_dressed().hud_drawn(input)
    }

    /// What the frame draws and plays, in order.
    pub open spec fn frame_commands(
        self,
        input: Input,
        spawn: Option<(Location, i32)>,
        rewards: Seq<usize>,
    ) -> Seq<CommandView> {
        let walked = self.walked(input);
        let checked = walked.after_reset(input);
        let shot = checked.after_shot(input);
        let spawned = shot.bullets_flown(input).after_spawn(spawn, input.screen);
        let run = spawned.enemies_run(input);
        let dressed = run.after_collisions(rewards, input.screen).player_dressed().enemies_dressed();
        self.walk_commands(input) + walked.reset_commands() + checked.shot_commands(input)
            + shot.bullet_commands(input) + spawned.enemy_commands(input)
            + run.collision_commands() + dressed.hud_commands(input)
    }
}

impl Battling {
    /// The battlefield as a game starts, on a screen of the given size.
    pub fn new(screen: Vec2, sprites: Sprites) -> (b: Self)
        ensures
            b@ == BattlingView::fresh(screen, sprites, b.player, b.gun),
            b.player.rect.w == sprites.player.x,
            b.player.rect.h == sprites.player.y,
            b.player.texture == Texture::Regular(Tier::Apple),
            b.player == b.player.recentered(screen),
            b.gun.rect.w == sprites.gun.x,
            b.gun.rect.h == sprites.gun.y,
            b.gun.rect.centered_corner(screen) == (Vec2 { x: b.gun.rect.x, y: b.gun.rect.y }),
            !b.gun.can_shoot,
            b.gun.bullets == 0,
    {
        Self {
            game_state: GameState::Battling,
            money: Money::new(screen),
            bullet_count: Bullets::new(),
            character: Character::new(sprites.player),
            gun: Gun::new(screen, sprites.gun),
            out_of_bullets: false,
            player: Player::new(screen, sprites.player),
            retreat_button: Button::new(
                Vec2 { x: saturate(screen.x as i64 - BUTTON_INSET as i64), y: RETREAT_Y },
                Vec2 { x: BUTTON_WIDTH, y: BUTTON_HEIGHT },
                String::from_str("Retreat"),
                Color::Red,
                BUTTON_FONT_SIZE,
            ),
            bullets: Vec::new(),
            enemies: Vec::new(),
            enemy_spawn_timer: ENEMY_SPAWN_TIME,
            sprites,
        }
    }

    /// Hands the stock to the gun, draws the player and the gun and moves
    /// both.
    fn walk(&mut self, input: &Input) -> (out: Vec<Command>)
        ensures
            final(self)@ == old(self)@.walked(*input),
            views(out@) == old(self)@.walk_commands(*input),
    {
        self.gun.bullets = self.bullet_count.bullets;
        let mut out = no_commands();
        emit(&mut out, self.player.draw());
        self.player.update(input);
        emit(&mut out, self.gun.draw(input.pointer));
        self.gun.update(self.player.rect.center());
        assert(views(out@) =~= old(self)@.walk_commands(*input));
        out
    }

    /// Whether some enemy touches the player.
    pub fn is_struck(&self) -> (b: bool)
        ensures
            b == self@.struck(),
    {
        let mut i: usize = 0;
        while i < self.enemies.len()
            invariant
                i <= self.enemies.len(),
                forall|k: int| 0 <= k < i ==> !self.player.hit_by(#[trigger] self.enemies@[k]),
            decreases self.enemies.len() - i,
        {
            if self.player.is_collision(self.enemies[i]) {
                assert(self@.player.hit_by(self@.enemies[i as int]));
                assert(self@.struck());
                return true;
            }
            i += 1;
        }
        false
    }

    fn sweep(&mut self, screen: Vec2)
        ensures
            final(self)@ == old(self)@.swept(screen),
    {
        self.player.reset(screen);
        self.gun.reset(self.player.rect.opposite());
        self.enemies.clear();
        self.bullets.clear();
        self.gun.can_shoot = false;
    }

    fn lose(&mut self, screen: Vec2)
        ensures
            final(self)@ == old(self)@.lost(screen),
    {
        self.sweep(screen);
        self.money.reset();
        self.bullet_count.reset();
        self.game_state = GameState::Dead;
    }

    /// Ends the life or the battle if it is time: on a touch the player
    /// dies; else on the retreat button the battle gives way to the upgrade
    /// screen; else without rounds, money and bullets in flight the player
    /// dies of want.
    pub fn check_reset(&mut self, input: &Input) -> (out: Vec<Command>)
        ensures
            final(self)@ == old(self)@.after_reset(*input),
            views(out@) == old(self)@.reset_commands(),
    {
        let mut out = no_commands();
        if self.is_struck() {
            self.lose(input.screen);
            emit(&mut out, Command::Play { sound: Sound::Die, volume: DEATH_VOLUME });
            assert(views(out@) =~= old(self)@.reset_commands());
        } else if self.retreat_button.is_pressed(input) {
            self.sweep(input.screen);
            self.game_state = GameState::Upgrading;
        } else if self.gun.bullets == 0 && self.money.money == 0 && self.bullets.is_empty() {
            self.lose(input.screen);
            self.out_of_bullets = true;
        }
        out
    }

    /// Fires if the button went down, the latch is up and a round is left.
    pub fn check_shoot_bullet(&mut self, input: &Input) -> (out: Vec<Command>)
        ensures
            final(self)@ == old(self)@.after_shot(*input),
            views(out@) == old(self)@.shot_commands(*input),
    {
        let mut out = no_commands();
        if !input.pointer_down {
            self.gun.can_shoot = true;
        } else if self.gun.can_shoot && self.gun.bullets > 0 {
            self.gun.bullets -= 1;
            self.bullet_count.decrement();
            self.bullets.push(Bullet::new(self.gun.rect.center(), input.pointer, self.sprites.bullet));
            self.gun.can_shoot = false;
            emit(&mut out, Command::Play { sound: Sound::Shoot, volume: SHOT_VOLUME });
            assert(views(out@) =~= old(self)@.shot_commands(*input));
        }
        out
    }

    /// Lets the bullets fly, draws them and drops those that have left the
    /// screen.
    pub fn update_bullets(&mut self, input: &Input) -> (out: Vec<Command>)
        ensures
            final(self)@ == old(self)@.bullets_flown(*input),
            views(out@) == old(self)@.bullet_commands(*input),
    {
        let ghost flown = self@.flown(*input);
        let mut kept: Vec<Bullet> = Vec::new();
        let mut out: Vec<Command> = Vec::new();
        assert(views(out@) =~= flown.take(0).map_values(bullet_picture()));
        assert(kept@ =~= flown.take(0).filter(bullet_stays(input.screen)));
        let mut i: usize = 0;
        while i < self.bullets.len()
            invariant
                i <= self.bullets.len(),
                *self == *old(self),
                flown == self@.flown(*input),
                kept@ == flown.take(i as int).filter(bullet_stays(input.screen)),
                views(out@) == flown.take(i as int).map_values(bullet_picture()),
            decreases self.bullets.len() - i,
        {
            let mut bullet = self.bullets[i];
            bullet.update(input.dt);
            proof {
                assert(flown.take(i + 1) =~= flown.take(i as int).push(bullet));
                flown.take(i as int).lemma_filter_push(bullet, bullet_stays(input.screen));
            }
            emit(&mut out, bullet.draw());
            assert(views(out@) =~= flown.take(i + 1).map_values(bullet_picture()));
            if !bullet.rect.is_outside(input.screen) {
                kept.push(bullet);
            }
            i += 1;
        }
        assert(flown.take(i as int) =~= flown);
        self.bullets = kept;
        out
    }

    /// Puts an enemy on the given edge, `along` from the edge's start, and
    /// starts the countdown to the next one.
    pub fn spawn_enemy(&mut self, location: Location, along: i32, screen: Vec2)
        ensures
            final(self)@ == old(self)@.spawned_at(location, along, screen),
    {
        let pos = location.at(along, screen);
        self.enemies.push(Enemy::new(pos, self.player.rect.point(), self.sprites.enemy));
        self.enemy_spawn_timer = ENEMY_SPAWN_TIME;
    }

    /// Counts the frames down and, when none is left, lets an enemy appear
    /// at a random point of a random edge.
    pub fn check_spawn_enemy(&mut self, input: &Input)
        ensures
            exists|spawn: Option<(Location, i32)>|
                old(self)@.may_spawn(spawn, input.screen) && final(self)@ == old(self)@.after_spawn(
                    spawn,
                    input.screen,
                ),
    {
        if self.enemy_spawn_timer > 0 {
            self.enemy_spawn_timer -= 1;
            assert(old(self)@.may_spawn(None, input.screen) && self@ == old(self)@.after_spawn(
                None,
                input.screen,
            ));
        } else {
            let location = match Location::from_roll(roll(1, 4)) {
                Some(location) => location,
                None => Location::Left,
            };
            let along: i32 = roll(0, location.span(input.screen)) as i32;
            self.spawn_enemy(location, along, input.screen);
            assert(old(self)@.may_spawn(Some((location, along)), input.screen) && self@ == old(
                self,
            )@.after_spawn(Some((location, along)), input.screen));
        }
    }

    /// Lets the enemies run, draws them and drops those that have left the
    /// screen.
    pub fn update_enemies(&mut self, input: &Input) -> (out: Vec<Command>)
        ensures
            final(self)@ == old(self)@.enemies_run(*input),
            views(out@) == old(self)@.enemy_commands(*input),
    {
        let ghost ran = self@.ran(*input);
        let mut kept: Vec<Enemy> = Vec::new();
        let mut out: Vec<Command> = Vec::new();
        assert(views(out@) =~= ran.take(0).filter(alive()).map_values(enemy_picture()));
        assert(kept@ =~= ran.take(0).filter(enemy_stays(input.screen)));
        let mut i: usize = 0;
        while i < self.enemies.len()
            invariant
                i <= self.enemies.len(),
                *self == *old(self),
                ran == self@.ran(*input),
                kept@ == ran.take(i as int).filter(enemy_stays(input.screen)),
                views(out@) == ran.take(i as int).filter(alive()).map_values(enemy_picture()),
            decreases self.enemies.len() - i,
        {
            let mut enemy = self.enemies[i];
            enemy.update(input.dt);
            proof {
                assert(ran.take(i + 1) =~= ran.take(i as int).push(enemy));
                ran.take(i as int).lemma_filter_push(enemy, enemy_stays(input.screen));
                ran.take(i as int).lemma_filter_push(enemy, alive());
            }
            match enemy.draw() {
                Some(command) => {
                    emit(&mut out, command);
                },
                None => {},
            }
            assert(views(out@) =~= ran.take(i + 1).filter(alive()).map_values(enemy_picture()));
            if !enemy.rect.is_outside(input.screen) {
                kept.push(enemy);
            }
            i += 1;
        }
        assert(ran.take(i as int) =~= ran);
        self.enemies = kept;
        out
    }

    /// Whether one of the bullets in flight touches the enemy.
    pub fn is_hit(&self, enemy: Enemy) -> (b: bool)
        ensures
            b == is_shot(self.bullets@, enemy),
    {
        let mut j: usize = 0;
        while j < self.bullets.len()
            invariant
                j <= self.bullets.len(),
                forall|k: int| 0 <= k < j ==> !(#[trigger] self.bullets@[k]).hits(enemy),
            decreases self.bullets.len() - j,
        {
            if self.bullets[j].is_collision(enemy) {
                assert(self.bullets@[j as int].hits(enemy));
                return true;
            }
            j += 1;
        }
        false
    }

    /// Takes one reward in.
    pub fn credit_kill(&mut self, reward: usize, screen: Vec2)
        ensures
            final(self)@ == (BattlingView {
                money: old(self)@.money.incremented(reward, screen),
                ..old(self)@
            }),
    {
        self.money.increment(reward, screen);
    }

    /// Removes every enemy that a bullet touches. Each kill pays a random
    /// reward within the bounds of the equipped tier and is heard.
    pub fn check_bullet_and_enemy_collision(&mut self, screen: Vec2) -> (out: Vec<Command>)
        ensures
            exists|rewards: Seq<usize>|
                old(self)@.pays(rewards) && final(self)@ == old(self)@.after_collisions(
                    rewards,
                    screen,
                ),
            views(out@) == old(self)@.collision_commands(),
    {
        let tier = self.character.tier();
        let ghost rewards: Seq<usize> = Seq::empty();
        let mut kept: Vec<Enemy> = Vec::new();
        let mut out: Vec<Command> = Vec::new();
        assert(views(out@) =~= Seq::new(0, kill_sound()));
        assert(kept@ =~= self.enemies@.take(0).filter(survives(self.bullets@)));
        let mut i: usize = 0;
        while i < self.enemies.len()
            invariant
                i <= self.enemies.len(),
                kept.len() <= i,
                tier == old(self)@.character.tier(),
                self@ == (BattlingView { money: self@.money, ..old(self)@ }),
                self@.money == credited(old(self)@.money, rewards, screen),
                kept@ == self.enemies@.take(i as int).filter(survives(self.bullets@)),
                views(out@) == Seq::new((i - kept.len()) as nat, kill_sound()),
                tier matches Some(t) ==> rewards.len() == i - kept.len() && fair(rewards, t),
                tier is None ==> rewards.len() == 0,
            decreases self.enemies.len() - i,
        {
            let enemy = self.enemies[i];
            proof {
                assert(self.enemies@.take(i + 1) =~= self.enemies@.take(i as int).push(enemy));
                self.enemies@.take(i as int).lemma_filter_push(enemy, survives(self.bullets@));
            }
            if self.is_hit(enemy) {
                match tier {
                    Some(t) => {
                        let (least, greatest) = t.reward_range();
                        let reward: usize = roll(least, greatest) as usize;
                        self.credit_kill(reward, screen);
                        proof {
                            assert(rewards.push(reward).drop_last() =~= rewards);
                            rewards = rewards.push(reward);
                        }
                    },
                    None => {},
                }
                emit(&mut out, Command::Play { sound: Sound::Kill, volume: SHOT_VOLUME });
                assert(views(out@) =~= Seq::new((i + 1 - kept.len()) as nat, kill_sound()));
            } else {
                kept.push(enemy);
            }
            i += 1;
        }
        assert(self.enemies@.take(i as int) =~= self.enemies@);
        self.enemies = kept;
        assert(old(self)@.pays(rewards) && self@ == old(self)@.after_collisions(rewards, screen));
        out
    }

    /// Gives the player the picture of the equipped character.
    pub fn set_player_character(&mut self)
        ensures
            final(self)@ == old(self)@.player_dressed(),
    {
        match self.character.tier() {
            Some(tier) => {
                self.player.texture = Texture::Regular(tier);
            },
            None => {},
        }
    }

    /// The picture of the enemies while the given tier is equipped.
    pub fn enemy_texture(tier: Tier) -> (t: Texture)
        ensures
            t == enemy_look(tier),
    {
        match tier.next() {
            Some(next) => Texture::Enemy(next),
            None => Texture::Monkey,
        }
    }

    /// Gives every enemy the picture that belongs to the equipped
    /// character.
    pub fn set_enemy_character(&mut self)
        ensures
            final(self)@ == old(self)@.enemies_dressed(),
    {
        match self.character.tier() {
            Some(tier) => {
                let texture = Self::enemy_texture(tier);
                let ghost target = self.enemies@.map_values(dressed(texture));
                let mut i: usize = 0;
                while i < self.enemies.len()
                    invariant
                        i <= self.enemies.len(),
                        self.enemies.len() == target.len(),
                        target == old(self)@.enemies.map_values(dressed(texture)),
                        self@ == (BattlingView { enemies: self@.enemies, ..old(self)@ }),
                        forall|k: int| 0 <= k < i ==> self.enemies@[k] == target[k],
                        forall|k: int|
                            i <= k < self.enemies.len() ==> self.enemies@[k] == old(
                                self,
                            )@.enemies[k],
                    decreases self.enemies.len() - i,
                {
                    let mut enemy = self.enemies[i];
                    enemy.texture = texture;
                    self.enemies.set(i, enemy);
                    i += 1;
                }
                assert(self.enemies@ =~= target);
            },
            None => {},
        }
    }

    /// Draws the counters and the retreat button and keeps the button at
    /// the right edge.
    fn draw_hud(&mut self, input: &Input) -> (out: Vec<Command>)
        ensures
            final(self)@ == old(self)@.hud_drawn(*input),
            views(out@) == old(self)@.hud_commands(*input),
    {
        let mut out = no_commands();
        emit(&mut out, self.money.draw(input.screen));
        emit(&mut out, self.bullet_count.draw());
        extend(&mut out, self.retreat_button.draw(input));
        let size = self.retreat_button.rect.size();
        self.retreat_button.update(
            Vec2 {
                x: saturate(input.screen.x as i64 - BUTTON_INSET as i64),
                y: self.retreat_button.rect.y,
            },
            size,
        );
        assert(views(out@) =~= old(self)@.hud_commands(*input));
        out
    }

    /// One frame of the battle: moves the player and the gun, checks the
    /// life, fires, lets bullets and enemies move, counts the kills, and
    /// draws all of it.
    pub fn start(&mut self, input: &Input) -> (out: Vec<Command>)
        ensures
            exists|spawn: Option<(Location, i32)>, rewards: Seq<usize>|
                {
                    &&& old(self)@.possible(*input, spawn, rewards)
                    &&& final(self)@ == old(self)@.stepped(*input, spawn, rewards)
                    &&& views(out@) == old(self)@.frame_commands(*input, spawn, rewards)
                },
    {
        let mut out = self.walk(input);
        extend(&mut out, self.check_reset(input));
        extend(&mut out, self.check_shoot_bullet(input));
        extend(&mut out, self.update_bullets(input));
        let ghost waiting = self@;
        self.check_spawn_enemy(input);
        let ghost spawn = choose|spawn: Option<(Location, i32)>|
            waiting.may_spawn(spawn, input.screen) && self@ == waiting.after_spawn(
                spawn,
                input.screen,
            );
        extend(&mut out, self.update_enemies(input));
        let ghost aimed = self@;
        extend(&mut out, self.check_bullet_and_enemy_collision(input.screen));
        let ghost rewards = choose|rewards: Seq<usize>|
            aimed.pays(rewards) && self@ == aimed.after_collisions(rewards, input.screen);
        self.set_player_character();
        self.set_enemy_character();
        extend(&mut out, self.draw_hud(input));
        assert(old(self)@.possible(*input, spawn, rewards));
        assert(self@ == old(self)@.stepped(*input, spawn, rewards));
        assert(views(out@) == old(self)@.frame_commands(*input, spawn, rewards));
        out
    }
}

/// An enemy that appears stands on the rim of the screen: one coordinate of
/// its corner is 0 or the screen's size that way, the other lies between 0
/// and the screen's size the other way.
pub proof fn lemma_spawn_on_rim(field: BattlingView, location: Location, along: i32, screen: Vec2)
    requires
        screen.x >= 0,
        screen.y >= 0,
        field.may_spawn(Some((location, along)), screen),
    ensures
        ({
            let after = field.after_spawn(Some((location, along)), screen);
            let e = after.enemies.last();
            &&& after.enemies.len() == field.enemies.len() + 1
            &&& ((e.rect.y == 0 || e.rect.y == screen.y) && 0 <= e.rect.x <= screen.x) || ((
            e.rect.x == 0 || e.rect.x == screen.x) && 0 <= e.rect.y <= screen.y)
        }),
{
    lemma_edge_point_on_rim(location, along, screen);
}

/// Rewards never take money away, and as long as the counter can hold the
/// sum, rewards that each lie between `least` and `greatest` add between
/// `least` and `greatest` for each of them.
pub proof fn lemma_credited_bounds(
    m: MoneyView,
    rewards: Seq<usize>,
    screen: Vec2,
    least: int,
    greatest: int,
)
    requires
        0 <= least <= greatest,
        forall|i: int| 0 <= i < rewards.len() ==> least <= (#[trigger] rewards[i]) <= greatest,
    ensures
        credited(m, rewards, screen).money >= m.money,
        m.money + rewards.len() * greatest <= usize::MAX ==> m.money + rewards.len() * least
            <= credited(m, rewards, screen).money <= m.money + rewards.len() * greatest,
    decreases rewards.len(),
{
    if rewards.len() > 0 {
        let n = rewards.len() as int;
        lemma_credited_bounds(m, rewards.drop_last(), screen, least, greatest);
        assert(rewards.drop_last().len() == n - 1);
        assert((n - 1) * greatest + greatest == n * greatest) by (nonlinear_arith);
        assert((n - 1) * least + least == n * least) by (nonlinear_arith);
        assert((n - 1) * greatest >= 0) by (nonlinear_arith)
            requires
                n >= 1,
                greatest >= 0,
        ;
    }
}

/// After the check for kills, no enemy that a bullet touched is left, every
/// enemy that no bullet touched is still there, and, as long as the counter
/// can hold it, the money has grown by an amount between the least and the
/// greatest reward of the equipped tier for each kill.
pub proof fn lemma_kills_pay(field: BattlingView, rewards: Seq<usize>, screen: Vec2, tier: Tier)
    requires
        field.character.tier() == Some(tier),
        field.pays(rewards),
    ensures
        ({
            let after = field.after_collisions(rewards, screen);
            let gain = after.money.money - field.money.money;
            &&& forall|e: Enemy| is_shot(field.bullets, e) ==> !after.enemies.contains(e)
            &&& forall|e: Enemy|
                field.enemies.contains(e) && !is_shot(field.bullets, e)
                    ==> after.enemies.contains(e)
            &&& 0 <= field.kills() <= field.enemies.len()
            &&& after.bullets == field.bullets
            &&& field.money.money + field.kills() * tier.greatest_reward() <= usize::MAX
                ==> field.kills() * tier.least_reward() <= gain <= field.kills()
                * tier.greatest_reward()
        }),
{
    let keep = survives(field.bullets);
    field.enemies.lemma_filter_len(keep);
    let after = field.after_collisions(rewards, screen);
    assert forall|e: Enemy| is_shot(field.bullets, e) implies !after.enemies.contains(e) by {
        if after.enemies.contains(e) {
            let i = choose|i: int| 0 <= i < after.enemies.len() && after.enemies[i] == e;
            field.enemies.lemma_filter_pred(keep, i);
        }
    }
    assert forall|e: Enemy|
        field.enemies.contains(e) && !is_shot(field.bullets, e) implies after.enemies.contains(
        e,
    ) by {
        let i = choose|i: int| 0 <= i < field.enemies.len() && field.enemies[i] == e;
        field.enemies.lemma_filter_contains(keep, i);
    }
    lemma_credited_bounds(
        field.money,
        rewards,
        screen,
        tier.least_reward() as int,
        tier.greatest_reward() as int,
    );
}

/// Firing with an empty gun does nothing: the field stays as it is and
/// nothing is heard.
pub proof fn lemma_empty_gun_does_nothing(field: BattlingView, input: Input)
    requires
        field.gun.bullets == 0,
        input.pointer_down,
    ensures
        field.after_shot(input) == field,
        field.shot_commands(input) == Seq::<CommandView>::empty(),
{
}

/// A shot takes exactly one round from the gun and from the stock that
/// agrees with it, and never more than is there.
pub proof fn lemma_shot_takes_one_round(field: BattlingView, input: Input)
    requires
        field.fires(input),
        field.gun.bullets == field.bullet_count.bullets,
    ensures
        field.after_shot(input).gun.bullets == field.gun.bullets - 1,
        field.after_shot(input).bullet_count.bullets == field.bullet_count.bullets - 1,
        field.after_shot(input).bullets == field.bullets.push(field.shot(input)),
{
}

/// Both deaths, by touch and by want, leave no bullet and no enemy, put
/// money and stock back to where a life starts, and lead to `Dead`. Death by
/// want, and only it, raises the flag that says so.
pub proof fn lemma_death_resets(field: BattlingView, input: Input)
    requires
        field.struck() || (!field.retreat_button.pressed(input) && field.starved()),
    ensures
        ({
            let after = field.after_reset(input);
            &&& after.bullets.len() == 0
            &&& after.enemies.len() == 0
            &&& after.money.money == 0
            &&& after.bullet_count.bullets == STARTING_BULLETS
            &&& after.game_state == GameState::Dead
            &&& !after.gun.can_shoot
            &&& after.out_of_bullets == (field.out_of_bullets || !field.struck())
        }),
{
}

/// A retreat leaves no bullet and no enemy and leads to the upgrade screen
/// with money and stock as they were.
pub proof fn lemma_retreat_keeps_purse(field: BattlingView, input: Input)
    requires
        !field.struck(),
        field.retreat_button.pressed(input),
    ensures
        ({
            let after = field.after_reset(input);
            &&& after.bullets.len() == 0
            &&& after.enemies.len() == 0
            &&& after.money == field.money
            &&& after.bullet_count == field.bullet_count
            &&& after.game_state == GameState::Upgrading
            &&& !after.gun.can_shoot
        }),
{
}

/// A frame that starts with nothing left to fight with (no bullet in the
/// stock, no money, no bullet in flight) ends the life for want, unless an
/// enemy touches the player or the player retreats in that very frame: the
/// state is `Dead` and the flag that names the cause is up.
pub proof fn lemma_want_ends_the_life(
    field: BattlingView,
    input: Input,
    spawn: Option<(Location, i32)>,
    rewards: Seq<usize>,
)
    requires
        field.bullet_count.bullets == 0,
        field.money.money == 0,
        field.bullets.len() == 0,
        !field.walked(input).struck(),
        !field.retreat_button.pressed(input),
    ensures
        field.stepped(input, spawn, rewards).game_state == GameState::Dead,
        field.stepped(input, spawn, rewards).out_of_bullets,
        field.stepped(input, spawn, rewards).bullet_count.bullets == STARTING_BULLETS,
        field.stepped(input, spawn, rewards).bullets.len() == 0,
{
    let walked = field.walked(input);
    assert(walked.starved());
    let checked = walked.after_reset(input);
    assert(checked.game_state == GameState::Dead && checked.out_of_bullets);
    assert(checked.bullets.len() == 0);
    let shot = checked.after_shot(input);
    assert(!checked.fires(input));
    assert(shot.bullets.len() == 0);
    let flown = shot.bullets_flown(input);
    assert(shot.flown(input).len() == 0);
    shot.flown(input).lemma_filter_len(bullet_stays(input.screen));
}

/// Within a whole frame: the enemies that are left are those that no
/// bullet touched when the kills were counted, in their order and at their
/// places, and, as long as the counter can hold it, the money has grown over
/// what it was then by an amount between the least and the greatest reward of
/// the equipped tier for each enemy that a bullet touched.
pub proof fn lemma_frame_kills_pay(
    field: BattlingView,
    input: Input,
    spawn: Option<(Location, i32)>,
    rewards: Seq<usize>,
    tier: Tier,
)
    requires
        field.possible(input, spawn, rewards),
        field.before_kills(input, spawn).character.tier() == Some(tier),
    ensures
        ({
            let aimed = field.before_kills(input, spawn);
            let after = field.stepped(input, spawn, rewards);
            let gain = after.money.money - aimed.money.money;
            &&& after.enemies.len() == aimed.survivors().len()
            &&& forall|i: int|
                0 <= i < after.enemies.len() ==> (#[trigger] after.enemies[i]).rect
                    == aimed.survivors()[i].rect && !is_shot(aimed.bullets, aimed.survivors()[i])
            &&& after.bullets == aimed.bullets
            &&& aimed.money.money + aimed.kills() * tier.greatest_reward() <= usize::MAX
                ==> aimed.kills() * tier.least_reward() <= gain <= aimed.kills()
                * tier.greatest_reward()
        }),
{
    let aimed = field.before_kills(input, spawn);
    lemma_kills_pay(aimed, rewards, input.screen, tier);
    let survivors = aimed.survivors();
    assert forall|i: int| 0 <= i < survivors.len() implies !is_shot(
        aimed.bullets,
        #[trigger] survivors[i],
    ) by {
        aimed.enemies.lemma_filter_pred(survives(aimed.bullets), i);
    }
}

} // verus!
