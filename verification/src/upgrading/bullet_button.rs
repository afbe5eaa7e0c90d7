//! A button that sells a bundle of bullets, one bullet for one unit of
//! money.

use crate::math::{clamp, saturate, Rect, Vec2};
use crate::objects::button::{Button, ButtonView};
use crate::objects::money::capped_sum;
use crate::objects::text::{decimal, decimal_string};
use crate::platform::{views, Color, Command, Font, Input};
use vstd::prelude::*;
use vstd::string::*;

verus! {

/// How far the bundles stand from the right edge while they are shown.
pub const BUNDLE_INSET: i32 = 200000;

/// How far the bundles' buttons stand from the right edge when made.
pub const BUTTON_INSET: i32 = 220000;

/// The height of one row of bundles.
pub const BUNDLE_ROW: i32 = 60000;

pub const BUTTON_WIDTH: i32 = 200000;

pub const BUTTON_HEIGHT: i32 = 50000;

pub const BUTTON_FONT_SIZE: u16 = 15;

#[derive(Clone, Debug, PartialEq, Eq)]
pub struct BulletButton {
    pub button: Button,
    /// The row, counted from the bottom of the screen.
    pub number: u32,
    /// The bullets in the bundle, which is also its price.
    pub bullet_count: usize,
    /// Armed while the button is up: one purchase per press.
    pub can_press: bool,
    /// The buyer's bullets, handed in before and read back after `update`.
    pub bullets: usize,
    /// The buyer's money, handed in before and read back after `update`.
    pub money: usize,
}

pub struct BulletButtonView {
    pub button: ButtonView,
    pub number: u32,
    pub bullet_count: usize,
    pub can_press: bool,
    pub bullets: usize,
    pub money: usize,
}

impl View for BulletButton {
    type V = BulletButtonView;

    open spec fn view(&self) -> BulletButtonView {
        BulletButtonView {
            button: self.button@,
            number: self.number,
            bullet_count: self.bullet_count,
            can_press: self.can_press,
            bullets: self.bullets,
            money: self.money,
        }
    }
}

/// What stands on the button of a bundle.
pub open spec fn bundle_label(bullet_count: usize) -> Seq<char> {
    decimal(bullet_count as nat) + "x Bullet(s)"@
}

impl BulletButtonView {
    pub open spec fn fresh(number: u32, bullet_count: usize, screen: Vec2) -> BulletButtonView {
        BulletButtonView {
            button: ButtonView {
                rect: Rect {
                    x: clamp(screen.x - BUTTON_INSET) as i32,
                    y: clamp(screen.y - BUNDLE_ROW) as i32,
                    w: BUTTON_WIDTH,
                    h: BUTTON_HEIGHT,
                },
                text: bundle_label(bullet_count),
                font: Font::RobotoMedium,
                bg: Color::Gray,
                font_size: BUTTON_FONT_SIZE,
                can_click: false,
            },
            number,
            bullet_count,
            bullets: 0,
            money: 0,
            can_press: true,
        }
    }

    /// Where the button belongs on a screen of the given size.
    pub open spec fn place(self, screen: Vec2) -> Vec2 {
        Vec2 {
            x: clamp(screen.x - BUNDLE_INSET) as i32,
            y: clamp(screen.y - self.number * BUNDLE_ROW) as i32,
        }
    }

    /// The button where it belongs, at the size it has.
    pub open spec fn placed(self, screen: Vec2) -> ButtonView {
        let at = self.place(screen);
        ButtonView { rect: Rect { x: at.x, y: at.y, ..self.button.rect }, ..self.button }
    }

    /// Whether this frame buys the bundle: the button is pressed where it
    /// now stands, this press has bought nothing yet, and the money
    /// suffices.
    pub open spec fn sells(self, input: Input) -> bool {
        self.placed(input.screen).pressed(input) && self.can_press && self.money
            >= self.bullet_count
    }

    /// The button after a frame.
    pub open spec fn updated(self, input: Input) -> BulletButtonView {
        let button = self.placed(input.screen);
        if self.sells(input) {
            BulletButtonView {
                button,
                bullets: capped_sum(self.bullets as int, self.bullet_count as int) as usize,
                money: (self.money - self.bullet_count) as usize,
                can_press: false,
                ..self
            }
        } else {
            BulletButtonView {
                button,
                can_press: self.can_press || !button.pressed(input),
                ..self
            }
        }
    }
}

impl BulletButton {
    /// The button of the bundle of `bullet_count` bullets in row `number`.
    pub fn new(number: u32, bullet_count: usize, screen: Vec2) -> (b: Self)
        ensures
            b@ == BulletButtonView::fresh(number, bullet_count, screen),
    {
        let mut label = decimal_string(bullet_count);
        label.append("x Bullet(s)");
        Self {
            button: Button::new(
                Vec2 {
                    x: saturate(screen.x as i64 - BUTTON_INSET as i64),
                    y: saturate(screen.y as i64 - BUNDLE_ROW as i64),
                },
                Vec2 { x: BUTTON_WIDTH, y: BUTTON_HEIGHT },
                label,
                Color::Gray,
                BUTTON_FONT_SIZE,
            ),
            number,
            bullet_count,
            bullets: 0,
            money: 0,
            can_press: true,
        }
    }

    /// Puts the button in its place and sells the bundle if it is bought.
    pub fn update(&mut self, input: &Input)
        ensures
            final(self)@ == old(self)@.updated(*input),
    {
        assert(0 <= (self.number as int) * (BUNDLE_ROW as int) <= 0xffff_ffff * 60000)
            by (nonlinear_arith)
            requires
                0 <= self.number as int <= 0xffff_ffff,
                BUNDLE_ROW == 60000,
        ;
        let rows: i64 = (self.number as i64) * (BUNDLE_ROW as i64);
        let size = self.button.rect.size();
        self.button.update(
            Vec2 {
                x: saturate(input.screen.x as i64 - BUNDLE_INSET as i64),
                y: saturate(input.screen.y as i64 - rows),
            },
            size,
        );
        let pressed = self.button.is_pressed(input);
        if pressed && self.can_press && self.money >= self.bullet_count {
            self.bullets = self.bullets.saturating_add(self.bullet_count);
            self.money -= self.bullet_count;
            self.can_press = false;
        } else if !pressed {
            self.can_press = true;
        }
    }

    pub fn draw(&mut self, input: &Input) -> (out: Vec<Command>)
        ensures
            final(self)@ == (BulletButtonView {
                button: old(self)@.button.after_draw(*input),
                ..old(self)@
            }),
            views(out@) == old(self)@.button.drawn(*input),
    {
        self.button.draw(input)
    }
}

} // verus!
