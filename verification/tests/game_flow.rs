use banana_man::game::Game;
use banana_man::math::Vec2;
use banana_man::platform::{Color, Command, Input, Sound, Sprites};
use banana_man::states::game_state::GameState;

fn screen() -> Vec2 {
    Vec2 { x: 800_000, y: 600_000 }
}

fn sprites() -> Sprites {
    Sprites {
        player: Vec2 { x: 50_000, y: 60_000 },
        gun: Vec2 { x: 30_000, y: 20_000 },
        bullet: Vec2 { x: 10_000, y: 10_000 },
        enemy: Vec2 { x: 40_000, y: 30_000 },
    }
}

fn quiet() -> Input {
    Input {
        dt: 16_000,
        fps: 60,
        screen: screen(),
        pointer: Vec2 { x: 0, y: 0 },
        pointer_down: false,
        pointer_pressed: false,
        left: false,
        right: false,
        up: false,
        down: false,
    }
}

fn clicked(x: i32, y: i32) -> Input {
    Input { pointer: Vec2 { x, y }, pointer_down: true, pointer_pressed: true, ..quiet() }
}

fn size() -> Vec2 {
    Vec2 { x: 100_000, y: 80_000 }
}

fn step(game: &mut Game, input: &Input) -> Vec<Command> {
    game.frame(input, size(), size())
}

fn game() -> Game {
    Game::new(screen(), sprites())
}

fn theme() -> Command {
    Command::Play { sound: Sound::Theme, volume: 50 }
}

fn into_battle(game: &mut Game) {
    step(game, &quiet());
    step(game, &clicked(350_000, 260_000));
    step(game, &quiet());
    assert_eq!(game.game_state, GameState::Battling);
}

#[test]
fn the_game_starts_at_the_menu() {
    let g = game();
    assert_eq!(g.game_state, GameState::Menu);
    assert_eq!(g.own_state(), GameState::Menu);
    assert_eq!(g.music_timer, 0);
    assert_eq!(g.battling.game_state, GameState::Battling);
    assert_eq!(g.upgrading.game_state, GameState::Upgrading);
    assert_eq!(g.dead.game_state, GameState::Dead);
    assert_eq!(g.tutorial.game_state, GameState::Tutorial);
}

#[test]
fn a_frame_of_the_menu_is_silent() {
    let mut g = game();
    g.music_timer = 500;
    let out = step(&mut g, &quiet());
    assert_eq!(out.len(), 7);
    assert_eq!(out[0], Command::Clear { color: Color::Green });
    assert_eq!(out[1], Command::Stop { sound: Sound::Theme });
    assert_eq!(g.music_timer, 0);
    assert_eq!(g.game_state, GameState::Menu);
}

#[test]
fn play_leads_to_the_battle_over_a_frame_that_only_switches() {
    let mut g = game();
    step(&mut g, &quiet());
    step(&mut g, &clicked(350_000, 260_000));
    assert_eq!(g.game_state, GameState::Menu);
    assert_eq!(g.menu.game_state, GameState::Battling);
    let before = g.clone();
    let out = step(&mut g, &clicked(350_000, 260_000));
    assert_eq!(out, vec![Command::Clear { color: Color::Green }]);
    assert_eq!(g.game_state, GameState::Battling);
    assert_eq!(g.battling, before.battling);
    assert_eq!(g.menu, before.menu);
}

#[test]
fn the_theme_starts_with_the_battle_and_again_when_it_has_run_out() {
    let mut g = game();
    into_battle(&mut g);
    let out = step(&mut g, &quiet());
    assert_eq!(out[0], Command::Clear { color: Color::Green });
    assert_eq!(out[1], theme());
    assert_eq!(g.music_timer, 13_000_000);
    let out = step(&mut g, &quiet());
    assert!(!out.contains(&theme()));
    assert_eq!(g.music_timer, 12_983_334);
    g.music_timer = 10_000;
    let out = step(&mut g, &quiet());
    assert!(!out.contains(&theme()));
    assert_eq!(g.music_timer, 0);
    let out = step(&mut g, &quiet());
    assert_eq!(out[1], theme());
    assert_eq!(g.music_timer, 13_000_000);
}

#[test]
fn without_a_frame_rate_the_countdown_runs_out_at_once() {
    let mut g = game();
    into_battle(&mut g);
    step(&mut g, &quiet());
    step(&mut g, &Input { fps: 0, ..quiet() });
    assert_eq!(g.music_timer, 0);
}

#[test]
fn the_upgrade_screen_learns_the_purse_of_the_battle() {
    let mut g = game();
    into_battle(&mut g);
    g.battling.money.money = 77;
    g.battling.bullet_count.bullets = 2;
    g.upgrading.character.set("Pear".to_string());
    step(&mut g, &quiet());
    assert_eq!(g.upgrading.money.money, 77);
    assert_eq!(g.upgrading.bullets.bullets, 2);
    assert_eq!(g.battling.character.character, "Pear");
}

#[test]
fn retreat_and_back() {
    let mut g = game();
    into_battle(&mut g);
    g.battling.money.money = 150;
    step(&mut g, &quiet());
    step(&mut g, &clicked(600_000, 30_000));
    assert_eq!(g.battling.game_state, GameState::Upgrading);
    assert_eq!(g.game_state, GameState::Battling);
    step(&mut g, &quiet());
    assert_eq!(g.game_state, GameState::Upgrading);
    assert_eq!(g.own_state(), GameState::Upgrading);
    step(&mut g, &quiet());
    assert_eq!(g.upgrading.money.money, 150);
    step(&mut g, &clicked(100_000, 440_000));
    assert_eq!(g.upgrading.character.character, "Orange");
    assert_eq!(g.upgrading.money.money, 50);
    step(&mut g, &quiet());
    assert_eq!(g.battling.money.money, 50);
    step(&mut g, &clicked(100_000, 560_000));
    assert_eq!(g.upgrading.game_state, GameState::Battling);
    step(&mut g, &quiet());
    assert_eq!(g.game_state, GameState::Battling);
    assert_eq!(g.battling.game_state, GameState::Battling);
    step(&mut g, &quiet());
    assert_eq!(g.battling.character.character, "Orange");
    assert_eq!(g.battling.money.money, 50);
    assert_eq!(g.game_state, GameState::Battling);
}

#[test]
fn death_leads_to_the_dead_screen_and_try_again_to_the_battle() {
    let mut g = game();
    into_battle(&mut g);
    g.battling.bullet_count.bullets = 0;
    step(&mut g, &quiet());
    assert_eq!(g.battling.game_state, GameState::Dead);
    assert!(g.battling.out_of_bullets);
    step(&mut g, &quiet());
    assert_eq!(g.game_state, GameState::Dead);
    let out = step(&mut g, &quiet());
    assert_eq!(out[1], Command::Stop { sound: Sound::Theme });
    assert!(g.dead.out_of_bullets);
    assert_eq!(g.dead.title, "You ran out of bullets");
    assert_eq!(g.music_timer, 0);
    step(&mut g, &clicked(350_000, 260_000));
    assert_eq!(g.dead.game_state, GameState::Battling);
    step(&mut g, &quiet());
    assert_eq!(g.game_state, GameState::Battling);
    assert_eq!(g.battling.game_state, GameState::Battling);
    let out = step(&mut g, &quiet());
    assert_eq!(out[1], theme());
    assert_eq!(g.game_state, GameState::Battling);
    assert_eq!(g.battling.bullet_count.bullets, 3);
}

#[test]
fn after_a_death_the_menu_leads_to_the_battle_again() {
    let mut g = game();
    into_battle(&mut g);
    g.battling.bullet_count.bullets = 0;
    step(&mut g, &quiet());
    step(&mut g, &quiet());
    step(&mut g, &quiet());
    assert_eq!(g.game_state, GameState::Dead);
    step(&mut g, &clicked(350_000, 320_000));
    assert_eq!(g.dead.game_state, GameState::Menu);
    step(&mut g, &quiet());
    assert_eq!(g.game_state, GameState::Menu);
    assert_eq!(g.menu.game_state, GameState::Menu);
    step(&mut g, &quiet());
    assert_eq!(g.game_state, GameState::Menu);
    step(&mut g, &clicked(350_000, 260_000));
    step(&mut g, &quiet());
    assert_eq!(g.game_state, GameState::Battling);
    for _ in 0..10 {
        step(&mut g, &quiet());
        assert_eq!(g.game_state, GameState::Battling);
    }
}

#[test]
fn the_tutorial_and_back() {
    let mut g = game();
    step(&mut g, &quiet());
    step(&mut g, &clicked(350_000, 320_000));
    step(&mut g, &quiet());
    assert_eq!(g.game_state, GameState::Tutorial);
    let out = step(&mut g, &quiet());
    assert_eq!(out.len(), 6);
    assert_eq!(g.game_state, GameState::Tutorial);
    step(&mut g, &clicked(100_000, 40_000));
    assert_eq!(g.tutorial.game_state, GameState::Menu);
    step(&mut g, &quiet());
    assert_eq!(g.game_state, GameState::Menu);
    step(&mut g, &quiet());
    assert_eq!(g.game_state, GameState::Menu);
    step(&mut g, &clicked(350_000, 320_000));
    step(&mut g, &quiet());
    assert_eq!(g.game_state, GameState::Tutorial);
    assert_eq!(g.tutorial.game_state, GameState::Tutorial);
}

#[test]
fn switch_to_tells_the_new_screen_that_it_is_itself() {
    let mut g = game();
    g.battling.game_state = GameState::Dead;
    g.switch_to(GameState::Battling);
    assert_eq!(g.game_state, GameState::Battling);
    assert_eq!(g.battling.game_state, GameState::Battling);
    assert_eq!(g.own_state(), GameState::Battling);
}
