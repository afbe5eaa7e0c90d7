use banana_man::math::{Rect, Vec2};
use banana_man::platform::{Color, Command, Input, Texture};
use banana_man::states::game_state::GameState;
use banana_man::states::upgrading::Upgrading;
use banana_man::tier::Tier;
use banana_man::upgrading::bullet_button::BulletButton;

fn screen() -> Vec2 {
    Vec2 { x: 800_000, y: 600_000 }
}

fn size() -> Vec2 {
    Vec2 { x: 100_000, y: 80_000 }
}

fn quiet() -> Input {
    Input {
        dt: 16_000,
        fps: 60,
        screen: screen(),
        pointer: Vec2 { x: 0, y: 0 },
        pointer_down: false,
        pointer_pressed: false,
        left: false,
        right: false,
        up: false,
        down: false,
    }
}

fn held(x: i32, y: i32) -> Input {
    Input { pointer: Vec2 { x, y }, pointer_down: true, ..quiet() }
}

fn on_upgrade() -> Input {
    held(100_000, 440_000)
}

fn on_buy() -> Input {
    held(100_000, 500_000)
}

fn on_battle() -> Input {
    held(100_000, 560_000)
}

fn shop() -> Upgrading {
    Upgrading::new(screen(), Vec2 { x: 50_000, y: 60_000 })
}

#[test]
fn a_new_upgrade_screen() {
    let u = shop();
    assert_eq!(u.game_state, GameState::Upgrading);
    assert_eq!(u.money.money, 0);
    assert_eq!(u.bullets.bullets, 3);
    assert_eq!(u.character.character, "Apple");
    assert_eq!(u.upgrade_button.rect, Rect::new(20_000, 420_000, 200_000, 50_000));
    assert_eq!(u.buy_bullets_button.rect, Rect::new(20_000, 480_000, 200_000, 50_000));
    assert_eq!(u.battle_button.rect, Rect::new(20_000, 540_000, 200_000, 50_000));
    assert_eq!(u.upgrade_button.text, "Upgrade");
    assert_eq!(u.buy_bullets_button.text, "Buy Bullets");
    assert_eq!(u.battle_button.text, "Battle");
    assert_eq!(u.upgrade_button.bg, Color::Gray);
    assert!(u.can_press_buy_bullet_buttons);
    assert!(!u.is_showing_buy_bullet_buttons);
    let bundles: Vec<(u32, usize)> =
        u.buy_bullet_buttons.iter().map(|b| (b.number, b.bullet_count)).collect();
    assert_eq!(bundles, vec![(1, 100), (2, 50), (3, 10), (4, 1)]);
    assert_eq!(u.buy_bullet_buttons[0].button.text, "100x Bullet(s)");
    assert_eq!(u.buy_bullet_buttons[3].button.text, "1x Bullet(s)");
    assert_eq!(u.buy_bullet_buttons[0].button.rect, Rect::new(580_000, 540_000, 200_000, 50_000));
}

#[test]
fn a_quiet_frame_draws_the_upgrade_screen() {
    let mut u = shop();
    let out = u.start(&quiet(), size());
    assert_eq!(out.len(), 9);
    assert_eq!(
        out[0],
        Command::Rectangle { rect: Rect::new(20_000, 540_000, 200_000, 50_000), color: Color::Gray }
    );
    assert_eq!(
        out[8],
        Command::Texture { texture: Texture::Display(Tier::Apple), x: 350_000, y: 260_000 }
    );
    assert_eq!(u.upgrade_button.text, "Upgrade: $100");
    assert_eq!(u.game_state, GameState::Upgrading);
}

#[test]
fn the_upgrade_is_refused_without_the_money() {
    let mut u = shop();
    u.money.money = 99;
    u.start(&on_upgrade(), size());
    assert_eq!(u.character.character, "Apple");
    assert_eq!(u.money.money, 99);
    assert!(u.character.can_set);
}

#[test]
fn the_upgrade_takes_the_price_and_goes_one_tier_up() {
    let mut u = shop();
    u.money.money = 100;
    u.start(&on_upgrade(), size());
    assert_eq!(u.character.character, "Orange");
    assert_eq!(u.character.texture, Texture::Display(Tier::Orange));
    assert_eq!(u.money.money, 0);
    assert!(!u.character.can_set);
    assert_eq!(u.upgrade_button.text, "Upgrade: $100");
}

#[test]
fn the_ladder_is_climbed_at_the_price_of_each_tier() {
    let mut u = shop();
    u.money.money = 10_000;
    let mut seen = Vec::new();
    for _ in 0..6 {
        u.check_upgrade(&quiet());
        u.check_upgrade(&on_upgrade());
        seen.push((u.character.character.clone(), u.money.money));
    }
    assert_eq!(
        seen,
        vec![
            ("Orange".to_string(), 9_900),
            ("Pear".to_string(), 9_800),
            ("Pineapple".to_string(), 9_300),
            ("Banana".to_string(), 8_300),
            ("Banana".to_string(), 8_300),
            ("Banana".to_string(), 8_300),
        ]
    );
    u.set_upgrade_button_text();
    assert_eq!(u.upgrade_button.text, "Upgrade: Max");
}

#[test]
fn the_upgrade_is_refused_at_the_last_tier() {
    let mut u = shop();
    u.character.set("Banana".to_string());
    u.money.money = 1_000_000;
    u.start(&on_upgrade(), size());
    assert_eq!(u.character.character, "Banana");
    assert_eq!(u.money.money, 1_000_000);
}

#[test]
fn the_upgrade_is_refused_without_a_tier() {
    let mut u = shop();
    u.character.set("Kiwi".to_string());
    u.money.money = 1_000_000;
    u.start(&on_upgrade(), size());
    assert_eq!(u.character.character, "Kiwi");
    assert_eq!(u.money.money, 1_000_000);
    assert_eq!(u.upgrade_button.text, "Upgrade: Max");
}

#[test]
fn the_upgrade_needs_a_press_on_its_button() {
    let mut u = shop();
    u.money.money = 500;
    u.start(&quiet(), size());
    u.start(&held(500_000, 100_000), size());
    u.start(&Input { pointer_down: false, ..on_upgrade() }, size());
    assert_eq!(u.character.character, "Apple");
    assert_eq!(u.money.money, 500);
}

#[test]
fn one_press_buys_one_upgrade() {
    let mut u = shop();
    u.money.money = 100;
    u.start(&on_upgrade(), size());
    assert_eq!(u.character.character, "Orange");
    assert_eq!(u.money.money, 0);
    u.money.money = 100;
    u.start(&on_upgrade(), size());
    u.start(&on_upgrade(), size());
    assert_eq!(u.character.character, "Orange");
    assert_eq!(u.money.money, 100);
    u.start(&quiet(), size());
    assert!(u.character.can_set);
    u.start(&on_upgrade(), size());
    assert_eq!(u.character.character, "Pear");
    assert_eq!(u.money.money, 0);
}

#[test]
fn the_label_names_the_price() {
    let mut u = shop();
    for (name, label) in [
        ("Apple", "Upgrade: $100"),
        ("Orange", "Upgrade: $100"),
        ("Pear", "Upgrade: $500"),
        ("Pineapple", "Upgrade: $1000"),
        ("Banana", "Upgrade: Max"),
    ] {
        u.character.set(name.to_string());
        u.set_upgrade_button_text();
        assert_eq!(u.upgrade_button.text, label);
    }
}

#[test]
fn the_battle_button_leads_to_the_battle() {
    let mut u = shop();
    u.check_battle_button(&quiet());
    assert_eq!(u.game_state, GameState::Upgrading);
    u.check_battle_button(&on_battle());
    assert_eq!(u.game_state, GameState::Battling);
    let mut v = shop();
    v.start(&on_battle(), size());
    assert_eq!(v.game_state, GameState::Battling);
}

#[test]
fn each_press_shows_or_hides_the_bundles() {
    let mut u = shop();
    u.start(&on_buy(), size());
    assert!(u.is_showing_buy_bullet_buttons);
    u.start(&on_buy(), size());
    assert!(u.is_showing_buy_bullet_buttons);
    u.start(&quiet(), size());
    assert!(u.is_showing_buy_bullet_buttons);
    u.start(&on_buy(), size());
    assert!(!u.is_showing_buy_bullet_buttons);
    u.start(&on_buy(), size());
    assert!(!u.is_showing_buy_bullet_buttons);
}

#[test]
fn hidden_bundles_are_not_drawn_and_do_not_sell() {
    let mut u = shop();
    u.money.money = 500;
    let out = u.start(&held(700_000, 380_000), size());
    assert_eq!(out.len(), 9);
    assert_eq!(u.money.money, 500);
    assert_eq!(u.bullets.bullets, 3);
}

#[test]
fn shown_bundles_are_drawn_and_put_in_rows() {
    let mut u = shop();
    u.is_showing_buy_bullet_buttons = true;
    let out = u.start(&quiet(), size());
    assert_eq!(out.len(), 17);
    let rects: Vec<Rect> = u.buy_bullet_buttons.iter().map(|b| b.button.rect).collect();
    assert_eq!(
        rects,
        vec![
            Rect::new(600_000, 540_000, 200_000, 50_000),
            Rect::new(600_000, 480_000, 200_000, 50_000),
            Rect::new(600_000, 420_000, 200_000, 50_000),
            Rect::new(600_000, 360_000, 200_000, 50_000),
        ]
    );
}

#[test]
fn a_bundle_sells_once_per_press() {
    let mut u = shop();
    u.is_showing_buy_bullet_buttons = true;
    u.money.money = 5;
    u.start(&held(700_000, 380_000), size());
    assert_eq!(u.money.money, 4);
    assert_eq!(u.bullets.bullets, 4);
    u.start(&held(700_000, 380_000), size());
    assert_eq!(u.money.money, 4);
    assert_eq!(u.bullets.bullets, 4);
    u.start(&quiet(), size());
    u.start(&held(700_000, 380_000), size());
    assert_eq!(u.money.money, 3);
    assert_eq!(u.bullets.bullets, 5);
}

#[test]
fn a_bundle_is_refused_without_the_money() {
    let mut u = shop();
    u.is_showing_buy_bullet_buttons = true;
    u.money.money = 99;
    u.start(&held(700_000, 560_000), size());
    assert_eq!(u.money.money, 99);
    assert_eq!(u.bullets.bullets, 3);
    u.start(&quiet(), size());
    u.money.money = 100;
    u.start(&held(700_000, 560_000), size());
    assert_eq!(u.money.money, 0);
    assert_eq!(u.bullets.bullets, 103);
}

#[test]
fn bundle_prices() {
    for (row, count, y) in [(1, 100, 560_000), (2, 50, 500_000), (3, 10, 440_000), (4, 1, 380_000)] {
        let mut u = shop();
        u.is_showing_buy_bullet_buttons = true;
        u.money.money = 1_000;
        u.start(&held(700_000, y), size());
        assert_eq!(u.money.money, 1_000 - count);
        assert_eq!(u.bullets.bullets, 3 + count);
        assert!(!u.buy_bullet_buttons[row - 1].can_press);
    }
}

#[test]
fn a_bundle_button_alone() {
    let mut b = BulletButton::new(2, 50, screen());
    assert_eq!(b.button.rect, Rect::new(580_000, 540_000, 200_000, 50_000));
    assert_eq!(b.button.text, "50x Bullet(s)");
    assert!(b.can_press);
    b.money = 120;
    b.bullets = 1;
    b.update(&held(650_000, 490_000));
    assert_eq!(b.button.rect, Rect::new(600_000, 480_000, 200_000, 50_000));
    assert_eq!((b.money, b.bullets, b.can_press), (70, 51, false));
    b.update(&held(650_000, 490_000));
    assert_eq!((b.money, b.bullets, b.can_press), (70, 51, false));
    b.update(&quiet());
    assert!(b.can_press);
    b.update(&held(650_000, 490_000));
    assert_eq!((b.money, b.bullets, b.can_press), (20, 101, false));
    b.update(&quiet());
    b.update(&held(650_000, 490_000));
    assert_eq!((b.money, b.bullets), (20, 101));
    let out = b.draw(&quiet());
    assert_eq!(out.len(), 2);
}

#[test]
fn a_bundle_stops_at_the_most_the_stock_can_hold() {
    let mut b = BulletButton::new(4, 1, screen());
    b.money = 1;
    b.bullets = usize::MAX;
    b.update(&held(650_000, 370_000));
    assert_eq!((b.money, b.bullets), (0, usize::MAX));
}
