use banana_man::battling::bullet::Bullet;
use banana_man::battling::enemy::Enemy;
use banana_man::math::{Rect, Vec2};
use banana_man::platform::{Color, Command, Font, Input, Sound, Sprites, Texture};
use banana_man::states::battling::{Battling, Location};
use banana_man::states::game_state::GameState;
use banana_man::tier::Tier;

fn screen() -> Vec2 {
    Vec2 { x: 800_000, y: 600_000 }
}

fn sprites() -> Sprites {
    Sprites {
        player: Vec2 { x: 50_000, y: 60_000 },
        gun: Vec2 { x: 30_000, y: 20_000 },
        bullet: Vec2 { x: 10_000, y: 10_000 },
        enemy: Vec2 { x: 40_000, y: 30_000 },
    }
}

fn quiet() -> Input {
    Input {
        dt: 16_000,
        fps: 60,
        screen: screen(),
        pointer: Vec2 { x: 0, y: 0 },
        pointer_down: false,
        pointer_pressed: false,
        left: false,
        right: false,
        up: false,
        down: false,
    }
}

fn held(x: i32, y: i32) -> Input {
    Input { pointer: Vec2 { x, y }, pointer_down: true, ..quiet() }
}

fn field() -> Battling {
    Battling::new(screen(), sprites())
}

fn enemy_at(f: &Battling, x: i32, y: i32) -> Enemy {
    Enemy::new(Vec2 { x, y }, f.player.rect.point(), f.sprites.enemy)
}

fn resting_bullet(x: i32, y: i32) -> Bullet {
    Bullet::new(Vec2 { x, y }, Vec2 { x, y }, Vec2 { x: 10_000, y: 10_000 })
}

fn on_rim(e: &Enemy) -> bool {
    let s = screen();
    ((e.rect.y == 0 || e.rect.y == s.y) && 0 <= e.rect.x && e.rect.x <= s.x)
        || ((e.rect.x == 0 || e.rect.x == s.x) && 0 <= e.rect.y && e.rect.y <= s.y)
}

#[test]
fn a_new_field_is_empty() {
    let f = field();
    assert_eq!(f.game_state, GameState::Battling);
    assert_eq!(f.money.money, 0);
    assert_eq!(f.bullet_count.bullets, 3);
    assert_eq!(f.character.character, "Apple");
    assert!(!f.out_of_bullets);
    assert!(f.bullets.is_empty());
    assert!(f.enemies.is_empty());
    assert_eq!(f.enemy_spawn_timer, 50);
    assert_eq!(f.player.rect, Rect::new(375_000, 270_000, 50_000, 60_000));
    assert_eq!(f.gun.rect, Rect::new(385_000, 290_000, 30_000, 20_000));
    assert_eq!(f.gun.bullets, 0);
    assert!(!f.gun.can_shoot);
    assert_eq!(f.retreat_button.rect, Rect::new(580_000, 20_000, 200_000, 50_000));
    assert_eq!(f.retreat_button.text, "Retreat");
    assert_eq!(f.retreat_button.bg, Color::Red);
}

#[test]
fn a_quiet_frame_draws_the_field() {
    let mut f = field();
    let out = f.start(&quiet());
    let text = |text: &str, x: i32, y: i32, font_size: u16| Command::Text {
        text: text.to_string(),
        x,
        y,
        font: Font::RobotoMedium,
        font_size,
        color: Color::Black,
    };
    assert_eq!(
        out,
        vec![
            Command::Texture { texture: Texture::Regular(Tier::Apple), x: 375_000, y: 270_000 },
            Command::TextureAimed {
                texture: Texture::Gun,
                x: 385_000,
                y: 290_000,
                aim: Vec2 { x: -385_000, y: -290_000 },
            },
            text("$0", 377_500, 40_000, 30),
            text("Bullets: 3", 20_000, 40_000, 30),
            Command::Rectangle { rect: Rect::new(580_000, 20_000, 200_000, 50_000), color: Color::Red },
            text("Retreat", 657_500, 52_500, 15),
        ]
    );
    assert_eq!(f.game_state, GameState::Battling);
    assert_eq!(f.gun.bullets, 3);
    assert!(f.gun.can_shoot);
    assert_eq!(f.gun.rect, Rect::new(400_000, 300_000, 30_000, 20_000));
    assert_eq!(f.enemy_spawn_timer, 49);
    assert_eq!(f.player.rect, Rect::new(375_000, 270_000, 50_000, 60_000));
}

#[test]
fn the_retreat_button_follows_the_right_edge() {
    let mut f = field();
    f.start(&Input { screen: Vec2 { x: 1_000_000, y: 700_000 }, ..quiet() });
    assert_eq!(f.retreat_button.rect, Rect::new(780_000, 20_000, 200_000, 50_000));
}

#[test]
fn a_shot_takes_a_round_and_sends_a_bullet() {
    let mut f = field();
    f.gun.bullets = 3;
    f.gun.can_shoot = true;
    let out = f.check_shoot_bullet(&held(500_000, 300_000));
    assert_eq!(out, vec![Command::Play { sound: Sound::Shoot, volume: 30 }]);
    assert_eq!(f.gun.bullets, 2);
    assert_eq!(f.bullet_count.bullets, 2);
    assert!(!f.gun.can_shoot);
    assert_eq!(
        f.bullets,
        vec![Bullet {
            rect: Rect::new(400_000, 300_000, 10_000, 10_000),
            vel: Vec2 { x: 500_000, y: 0 }
        }]
    );
}

#[test]
fn one_press_fires_one_shot() {
    let mut f = field();
    f.gun.bullets = 3;
    f.gun.can_shoot = true;
    f.check_shoot_bullet(&held(500_000, 300_000));
    let after_first = f.clone();
    let out = f.check_shoot_bullet(&held(500_000, 300_000));
    assert!(out.is_empty());
    assert_eq!(f, after_first);
    let out = f.check_shoot_bullet(&quiet());
    assert!(out.is_empty());
    assert!(f.gun.can_shoot);
    assert_eq!(f.bullets.len(), 1);
    let out = f.check_shoot_bullet(&held(500_000, 300_000));
    assert_eq!(out.len(), 1);
    assert_eq!(f.bullets.len(), 2);
    assert_eq!(f.gun.bullets, 1);
}

#[test]
fn firing_with_an_empty_gun_does_nothing() {
    let mut f = field();
    f.gun.bullets = 0;
    f.bullet_count.bullets = 0;
    f.gun.can_shoot = true;
    let before = f.clone();
    let out = f.check_shoot_bullet(&held(500_000, 300_000));
    assert!(out.is_empty());
    assert_eq!(f, before);
}

#[test]
fn ammunition_never_goes_below_nothing() {
    let mut f = field();
    f.money.money = 1;
    for i in 0..20 {
        let input = if i % 2 == 0 { quiet() } else { held(500_000, 300_000) };
        f.start(&input);
        assert!(f.bullet_count.bullets <= 3);
    }
    assert_eq!(f.bullet_count.bullets, 0);
    assert_eq!(f.gun.bullets, 0);
    assert_eq!(f.game_state, GameState::Battling);
}

#[test]
fn the_first_frame_does_not_fire_while_the_latch_is_down() {
    let mut f = field();
    f.start(&held(500_000, 300_000));
    assert!(f.bullets.is_empty());
    assert_eq!(f.bullet_count.bullets, 3);
    f.start(&quiet());
    f.start(&held(500_000, 300_000));
    assert_eq!(f.bullet_count.bullets, 2);
}

#[test]
fn bullets_fly_and_leave() {
    let mut f = field();
    let b = Bullet::new(
        Vec2 { x: 790_000, y: 100 },
        Vec2 { x: 800_000, y: 100 },
        Vec2 { x: 10_000, y: 10_000 },
    );
    f.bullets = vec![b, resting_bullet(5, 5)];
    let out = f.update_bullets(&quiet());
    assert_eq!(
        out,
        vec![
            Command::Texture { texture: Texture::Bullet, x: 798_000, y: 100 },
            Command::Texture { texture: Texture::Bullet, x: 5, y: 5 },
        ]
    );
    assert_eq!(f.bullets.len(), 2);
    assert_eq!(f.bullets[0].rect.x, 798_000);
    let out = f.update_bullets(&quiet());
    assert_eq!(
        out,
        vec![
            Command::Texture { texture: Texture::Bullet, x: 806_000, y: 100 },
            Command::Texture { texture: Texture::Bullet, x: 5, y: 5 },
        ]
    );
    assert_eq!(f.bullets, vec![resting_bullet(5, 5)]);
}

#[test]
fn bullets_leave_on_every_side() {
    let mut f = field();
    let size = Vec2 { x: 10_000, y: 10_000 };
    let aimed = |from: Vec2, to: Vec2| Bullet::new(from, to, size);
    f.bullets = vec![
        aimed(Vec2 { x: -9_000, y: 50_000 }, Vec2 { x: -100_000, y: 50_000 }),
        aimed(Vec2 { x: 50_000, y: -9_000 }, Vec2 { x: 50_000, y: -100_000 }),
        aimed(Vec2 { x: 50_000, y: 599_000 }, Vec2 { x: 50_000, y: 900_000 }),
        aimed(Vec2 { x: -5_000, y: 50_000 }, Vec2 { x: 100_000, y: 50_000 }),
    ];
    f.update_bullets(&quiet());
    assert_eq!(f.bullets.len(), 1);
    assert_eq!(f.bullets[0].rect, Rect::new(3_000, 50_000, 10_000, 10_000));
}

#[test]
fn enemies_appear_on_the_edge_that_is_named() {
    let mut f = field();
    f.enemy_spawn_timer = 0;
    f.spawn_enemy(Location::Top, 123, screen());
    f.spawn_enemy(Location::Right, 123, screen());
    f.spawn_enemy(Location::Bottom, 123, screen());
    f.spawn_enemy(Location::Left, 123, screen());
    let corners: Vec<Vec2> = f.enemies.iter().map(|e| e.rect.point()).collect();
    assert_eq!(
        corners,
        vec![
            Vec2 { x: 123, y: 0 },
            Vec2 { x: 800_000, y: 123 },
            Vec2 { x: 123, y: 600_000 },
            Vec2 { x: 0, y: 123 },
        ]
    );
    assert_eq!(f.enemy_spawn_timer, 50);
    for e in &f.enemies {
        assert!(on_rim(e));
        assert_eq!(e.rect.w, 40_000);
        assert_eq!(e.rect.h, 40_000);
    }
    assert_eq!(f.enemies[3], enemy_at(&f, 0, 123));
}

#[test]
fn edges_have_numbers_and_lengths() {
    assert_eq!(Location::from_roll(1), Some(Location::Top));
    assert_eq!(Location::from_roll(2), Some(Location::Right));
    assert_eq!(Location::from_roll(3), Some(Location::Bottom));
    assert_eq!(Location::from_roll(4), Some(Location::Left));
    assert_eq!(Location::from_roll(0), None);
    assert_eq!(Location::from_roll(5), None);
    assert_eq!(Location::Top.span(screen()), 800_000);
    assert_eq!(Location::Left.span(screen()), 600_000);
    assert_eq!(Location::Bottom.span(Vec2 { x: -5, y: 7 }), 0);
    assert_eq!(Location::Right.at(9, screen()), Vec2 { x: 800_000, y: 9 });
}

#[test]
fn the_countdown_runs_before_an_enemy_appears() {
    let mut f = field();
    for left in (0..50).rev() {
        f.check_spawn_enemy(&quiet());
        assert_eq!(f.enemy_spawn_timer, left);
        assert!(f.enemies.is_empty());
    }
    f.check_spawn_enemy(&quiet());
    assert_eq!(f.enemies.len(), 1);
    assert_eq!(f.enemy_spawn_timer, 50);
}

#[test]
fn random_enemies_stand_on_the_rim() {
    let mut f = field();
    let mut top = false;
    let mut right = false;
    let mut bottom = false;
    let mut left = false;
    let mut places = Vec::new();
    for _ in 0..400 {
        f.enemy_spawn_timer = 0;
        f.enemies.clear();
        f.check_spawn_enemy(&quiet());
        assert_eq!(f.enemies.len(), 1);
        let e = f.enemies[0];
        assert!(on_rim(&e));
        assert_eq!(e, enemy_at(&f, e.rect.x, e.rect.y));
        top = top || (e.rect.y == 0 && e.rect.x != 0 && e.rect.x != 800_000);
        bottom = bottom || (e.rect.y == 600_000 && e.rect.x != 0 && e.rect.x != 800_000);
        left = left || (e.rect.x == 0 && e.rect.y != 0 && e.rect.y != 600_000);
        right = right || (e.rect.x == 800_000 && e.rect.y != 0 && e.rect.y != 600_000);
        if !places.contains(&e.rect.point()) {
            places.push(e.rect.point());
        }
    }
    assert!(top && right && bottom && left);
    assert!(places.len() > 100);
}

#[test]
fn enemies_run_and_leave() {
    let mut f = field();
    let runner = enemy_at(&f, 375_000, 0);
    let mut leaver = enemy_at(&f, 100_000, 100_000);
    leaver.vel = Vec2 { x: 0, y: -250_000 };
    leaver.rect.y = -38_000;
    let mut dead = enemy_at(&f, 10, 10);
    dead.is_alive = false;
    f.enemies = vec![runner, leaver, dead];
    let out = f.update_enemies(&quiet());
    assert_eq!(
        out,
        vec![
            Command::Texture { texture: Texture::Enemy(Tier::Orange), x: 375_000, y: 4_000 },
            Command::Texture { texture: Texture::Enemy(Tier::Orange), x: 100_000, y: -42_000 },
        ]
    );
    assert_eq!(f.enemies.len(), 2);
    assert_eq!(f.enemies[0].rect, Rect::new(375_000, 4_000, 40_000, 40_000));
    assert_eq!(f.enemies[1], dead);
}

#[test]
fn a_shot_enemy_is_gone_and_pays() {
    let mut f = field();
    let hit = enemy_at(&f, 100_000, 100_000);
    let spared = enemy_at(&f, 500_000, 500_000);
    let bullet = resting_bullet(110_000, 110_000);
    f.enemies = vec![hit, spared];
    f.bullets = vec![bullet];
    assert!(f.is_hit(hit));
    assert!(!f.is_hit(spared));
    let out = f.check_bullet_and_enemy_collision(screen());
    assert_eq!(out, vec![Command::Play { sound: Sound::Kill, volume: 30 }]);
    assert_eq!(f.enemies, vec![spared]);
    assert!(!f.enemies.contains(&hit));
    assert!(f.money.money >= 1 && f.money.money <= 10);
    assert_eq!(f.bullets, vec![bullet]);
}

#[test]
fn the_reward_grows_with_the_tier() {
    for (name, least, greatest) in [
        ("Apple", 1, 10),
        ("Orange", 1, 10),
        ("Pear", 5, 50),
        ("Pineapple", 10, 100),
        ("Banana", 100, 1_000),
    ] {
        for _ in 0..50 {
            let mut f = field();
            f.character.set(name.to_string());
            f.money.money = 7;
            f.enemies = vec![enemy_at(&f, 100_000, 100_000)];
            f.bullets = vec![resting_bullet(110_000, 110_000)];
            f.check_bullet_and_enemy_collision(screen());
            assert!(f.enemies.is_empty());
            let gain = f.money.money - 7;
            assert!(least <= gain && gain <= greatest);
        }
    }
}

#[test]
fn one_bullet_kills_every_enemy_it_touches() {
    let mut f = field();
    let a = enemy_at(&f, 100_000, 100_000);
    let b = enemy_at(&f, 105_000, 95_000);
    let c = enemy_at(&f, 100_000, 100_000);
    let far = enemy_at(&f, 300_000, 100_000);
    f.enemies = vec![a, far, b, c];
    f.bullets = vec![resting_bullet(110_000, 110_000), resting_bullet(112_000, 110_000)];
    let out = f.check_bullet_and_enemy_collision(screen());
    assert_eq!(out.len(), 3);
    assert_eq!(f.enemies, vec![far]);
    assert!(f.money.money >= 3 && f.money.money <= 30);
    assert_eq!(f.bullets.len(), 2);
}

#[test]
fn without_a_tier_a_kill_pays_nothing() {
    let mut f = field();
    f.character.set("Kiwi".to_string());
    f.money.money = 7;
    f.enemies = vec![enemy_at(&f, 100_000, 100_000)];
    f.bullets = vec![resting_bullet(110_000, 110_000)];
    let out = f.check_bullet_and_enemy_collision(screen());
    assert_eq!(out.len(), 1);
    assert!(f.enemies.is_empty());
    assert_eq!(f.money.money, 7);
}

#[test]
fn no_touch_no_kill() {
    let mut f = field();
    f.enemies = vec![enemy_at(&f, 100_000, 100_000)];
    f.bullets = vec![resting_bullet(150_001, 100_000)];
    let before = f.clone();
    let out = f.check_bullet_and_enemy_collision(screen());
    assert!(out.is_empty());
    assert_eq!(f, before);
}

#[test]
fn credit_kill_adds_the_reward() {
    let mut f = field();
    f.credit_kill(9, screen());
    f.credit_kill(4, screen());
    assert_eq!(f.money.money, 13);
}

#[test]
fn a_touch_kills_the_player() {
    let mut f = field();
    f.money.money = 50;
    f.bullet_count.bullets = 1;
    f.gun.bullets = 1;
    f.gun.can_shoot = true;
    f.player.rect.x = 100_000;
    f.enemies = vec![enemy_at(&f, 110_000, 280_000), enemy_at(&f, 700_000, 10_000)];
    f.bullets = vec![resting_bullet(5, 5)];
    assert!(f.is_struck());
    let out = f.check_reset(&quiet());
    assert_eq!(out, vec![Command::Play { sound: Sound::Die, volume: 50 }]);
    assert!(f.enemies.is_empty());
    assert!(f.bullets.is_empty());
    assert_eq!(f.money.money, 0);
    assert_eq!(f.bullet_count.bullets, 3);
    assert_eq!(f.game_state, GameState::Dead);
    assert!(!f.out_of_bullets);
    assert!(!f.gun.can_shoot);
    assert_eq!(f.gun.bullets, 3);
    assert_eq!(f.player.rect, Rect::new(375_000, 270_000, 50_000, 60_000));
    assert_eq!(f.gun.rect, Rect::new(425_000, 330_000, 30_000, 20_000));
}

#[test]
fn want_kills_the_player() {
    let mut f = field();
    f.gun.bullets = 0;
    f.bullet_count.bullets = 0;
    f.enemies = vec![enemy_at(&f, 700_000, 10_000)];
    assert!(!f.is_struck());
    let out = f.check_reset(&quiet());
    assert!(out.is_empty());
    assert!(f.enemies.is_empty());
    assert!(f.bullets.is_empty());
    assert_eq!(f.money.money, 0);
    assert_eq!(f.bullet_count.bullets, 3);
    assert_eq!(f.game_state, GameState::Dead);
    assert!(f.out_of_bullets);
    assert!(!f.gun.can_shoot);
}

#[test]
fn no_want_while_anything_is_left() {
    let mut with_money = field();
    with_money.gun.bullets = 0;
    with_money.money.money = 1;
    let before = with_money.clone();
    assert!(with_money.check_reset(&quiet()).is_empty());
    assert_eq!(with_money, before);

    let mut with_round = field();
    with_round.gun.bullets = 1;
    let before = with_round.clone();
    with_round.check_reset(&quiet());
    assert_eq!(with_round, before);

    let mut with_flight = field();
    with_flight.gun.bullets = 0;
    with_flight.bullets = vec![resting_bullet(5, 5)];
    let before = with_flight.clone();
    with_flight.check_reset(&quiet());
    assert_eq!(with_flight, before);
}

#[test]
fn a_retreat_keeps_the_purse() {
    let mut f = field();
    f.money.money = 50;
    f.bullet_count.bullets = 1;
    f.gun.bullets = 1;
    f.enemies = vec![enemy_at(&f, 700_000, 400_000)];
    f.bullets = vec![resting_bullet(5, 5)];
    let out = f.check_reset(&held(600_000, 30_000));
    assert!(out.is_empty());
    assert_eq!(f.game_state, GameState::Upgrading);
    assert_eq!(f.money.money, 50);
    assert_eq!(f.bullet_count.bullets, 1);
    assert!(f.enemies.is_empty());
    assert!(f.bullets.is_empty());
    assert!(!f.gun.can_shoot);
    assert!(!f.out_of_bullets);
    assert_eq!(f.player.rect, Rect::new(375_000, 270_000, 50_000, 60_000));
}

#[test]
fn a_touch_comes_before_a_retreat_and_a_retreat_before_want() {
    let mut f = field();
    f.money.money = 50;
    f.enemies = vec![enemy_at(&f, 380_000, 280_000)];
    f.check_reset(&held(600_000, 30_000));
    assert_eq!(f.game_state, GameState::Dead);
    assert_eq!(f.money.money, 0);

    let mut g = field();
    g.gun.bullets = 0;
    g.bullet_count.bullets = 0;
    g.check_reset(&held(600_000, 30_000));
    assert_eq!(g.game_state, GameState::Upgrading);
    assert!(!g.out_of_bullets);
    assert_eq!(g.bullet_count.bullets, 0);
}

#[test]
fn an_enemy_from_the_north_kills_the_idle_player_in_time() {
    let mut f = field();
    let distance = 100_000;
    let enemy = enemy_at(&f, 375_000, 270_000 - 40_000 - distance);
    assert_eq!(enemy.vel, Vec2 { x: 0, y: 250_000 });
    f.enemies = vec![enemy];
    let expected_ticks = distance / (250 * 16);
    let mut ticks = 0;
    while f.game_state == GameState::Battling && ticks < 1_000 {
        f.start(&quiet());
        ticks += 1;
        if f.game_state == GameState::Battling {
            assert_eq!(f.enemies.len(), 1);
            assert_eq!(f.enemies[0].rect.y, 130_000 + 4_000 * ticks);
        }
    }
    assert_eq!(f.game_state, GameState::Dead);
    assert!(!f.out_of_bullets);
    assert_eq!(ticks, 26);
    assert!((ticks - expected_ticks).abs() <= 1);
    assert!(f.enemies.is_empty());
    assert_eq!(f.money.money, 0);
    assert_eq!(f.bullet_count.bullets, 3);
}

#[test]
fn with_nothing_left_the_next_tick_ends_the_life() {
    let mut f = field();
    f.bullet_count.bullets = 0;
    assert_eq!(f.money.money, 0);
    assert!(f.bullets.is_empty());
    let out = f.start(&quiet());
    assert_eq!(f.game_state, GameState::Dead);
    assert!(f.out_of_bullets);
    assert_eq!(f.bullet_count.bullets, 3);
    assert_eq!(f.money.money, 0);
    assert!(!out.contains(&Command::Play { sound: Sound::Die, volume: 50 }));
}

#[test]
fn the_player_wears_the_equipped_character() {
    let mut f = field();
    f.character.set("Pear".to_string());
    f.set_player_character();
    assert_eq!(f.player.texture, Texture::Regular(Tier::Pear));
    f.character.set("Kiwi".to_string());
    f.set_player_character();
    assert_eq!(f.player.texture, Texture::Regular(Tier::Pear));
}

#[test]
fn enemies_wear_the_next_character_up() {
    assert_eq!(Battling::enemy_texture(Tier::Apple), Texture::Enemy(Tier::Orange));
    assert_eq!(Battling::enemy_texture(Tier::Orange), Texture::Enemy(Tier::Pear));
    assert_eq!(Battling::enemy_texture(Tier::Pear), Texture::Enemy(Tier::Pineapple));
    assert_eq!(Battling::enemy_texture(Tier::Pineapple), Texture::Enemy(Tier::Banana));
    assert_eq!(Battling::enemy_texture(Tier::Banana), Texture::Monkey);
    let mut f = field();
    f.enemies = vec![enemy_at(&f, 1, 1), enemy_at(&f, 2, 2)];
    f.character.set("Banana".to_string());
    f.set_enemy_character();
    assert_eq!(f.enemies[0].texture, Texture::Monkey);
    assert_eq!(f.enemies[1].texture, Texture::Monkey);
    assert_eq!(f.enemies[1].rect, Rect::new(2, 2, 40_000, 40_000));
    f.character.set("Kiwi".to_string());
    f.set_enemy_character();
    assert_eq!(f.enemies[0].texture, Texture::Monkey);
    f.character.set("Orange".to_string());
    f.set_enemy_character();
    assert_eq!(f.enemies[0].texture, Texture::Enemy(Tier::Pear));
}

#[test]
fn a_shot_in_a_frame_kills_in_a_later_frame() {
    let mut f = field();
    f.start(&quiet());
    let target = enemy_at(&f, 600_000, 300_000);
    f.enemies = vec![target];
    f.start(&held(700_000, 305_000));
    assert_eq!(f.bullets.len(), 1);
    assert_eq!(f.bullet_count.bullets, 2);
    let mut frames = 0;
    while !f.enemies.is_empty() && frames < 100 {
        f.start(&held(700_000, 305_000));
        frames += 1;
    }
    assert!(f.enemies.is_empty());
    assert_eq!(f.game_state, GameState::Battling);
    assert!(f.money.money >= 1 && f.money.money <= 10);
    assert_eq!(f.bullet_count.bullets, 2);
}
