use banana_man::math::{Rect, Vec2};
use banana_man::objects::button::Button;
use banana_man::platform::{Color, Command, Font, Input, Sound};

fn input(pointer: Vec2, down: bool) -> Input {
    Input {
        dt: 16_000,
        fps: 60,
        screen: Vec2 { x: 800_000, y: 600_000 },
        pointer,
        pointer_down: down,
        pointer_pressed: false,
        left: false,
        right: false,
        up: false,
        down: false,
    }
}

fn play() -> Button {
    Button::new(
        Vec2 { x: 100_000, y: 100_000 },
        Vec2 { x: 200_000, y: 50_000 },
        "Play".to_string(),
        Color::Red,
        15,
    )
}

fn face() -> Vec<Command> {
    vec![
        Command::Rectangle { rect: Rect::new(100_000, 100_000, 200_000, 50_000), color: Color::Red },
        Command::Text {
            text: "Play".to_string(),
            x: 188_750,
            y: 132_500,
            font: Font::RobotoMedium,
            font_size: 15,
            color: Color::Black,
        },
    ]
}

#[test]
fn a_new_button_is_not_armed() {
    let b = play();
    assert_eq!(b.rect, Rect::new(100_000, 100_000, 200_000, 50_000));
    assert_eq!(b.text, "Play");
    assert_eq!(b.bg, Color::Red);
    assert_eq!(b.font_size, 15);
    assert!(!b.can_click);
}

#[test]
fn a_button_is_pressed_by_a_held_pointer_on_it() {
    let b = play();
    assert!(b.is_pressed(&input(Vec2 { x: 150_000, y: 120_000 }, true)));
    assert!(b.is_pressed(&input(Vec2 { x: 100_000, y: 100_000 }, true)));
    assert!(!b.is_pressed(&input(Vec2 { x: 150_000, y: 120_000 }, false)));
    assert!(!b.is_pressed(&input(Vec2 { x: 300_000, y: 120_000 }, true)));
    assert!(!b.is_pressed(&input(Vec2 { x: 150_000, y: 150_000 }, true)));
    assert!(!b.is_pressed(&input(Vec2 { x: 99_999, y: 120_000 }, true)));
}

#[test]
fn a_button_draws_its_face() {
    let mut b = play();
    let out = b.draw(&input(Vec2 { x: 0, y: 0 }, false));
    assert_eq!(out, face());
    assert!(b.can_click);
}

#[test]
fn a_button_clicks_once_per_press() {
    let mut b = play();
    let on = input(Vec2 { x: 150_000, y: 120_000 }, true);
    let off = input(Vec2 { x: 150_000, y: 120_000 }, false);
    assert_eq!(b.draw(&on), face());
    assert!(!b.can_click);
    assert_eq!(b.draw(&off), face());
    assert!(b.can_click);
    let mut clicked = face();
    clicked.push(Command::Play { sound: Sound::Click, volume: 50 });
    assert_eq!(b.draw(&on), clicked);
    assert!(!b.can_click);
    assert_eq!(b.draw(&on), face());
    assert!(!b.can_click);
    assert_eq!(b.draw(&off), face());
    assert_eq!(b.draw(&on), clicked);
}

#[test]
fn a_button_without_words_is_drawn_too() {
    let mut b = Button::new(
        Vec2 { x: 0, y: 0 },
        Vec2 { x: 100, y: 100 },
        String::new(),
        Color::Gray,
        15,
    );
    let out = b.draw(&input(Vec2 { x: -1, y: -1 }, false));
    assert_eq!(
        out[1],
        Command::Text {
            text: String::new(),
            x: 3_800,
            y: 7_550,
            font: Font::RobotoMedium,
            font_size: 15,
            color: Color::Black,
        }
    );
}

#[test]
fn update_moves_and_resizes() {
    let mut b = play();
    b.update(Vec2 { x: 1, y: 2 }, Vec2 { x: 3, y: 4 });
    assert_eq!(b.rect, Rect::new(1, 2, 3, 4));
    assert_eq!(b.text, "Play");
}
