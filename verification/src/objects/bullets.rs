//! The player's stock of bullets and its line on the screen.

use crate::math::Vec2;
use crate::objects::money::{COUNTER_SIZE, COUNTER_Y};
use crate::objects::text::{decimal, numbered, Text, TextView};
use crate::platform::{Color, Command, Font};
use vstd::prelude::*;

verus! {

/// The bullets that a life starts with.
pub const STARTING_BULLETS: usize = 3;

/// Where the line starts.
pub const BULLETS_X: i32 = 20000;

#[derive(Clone, Debug, PartialEq, Eq)]
pub struct Bullets {
    pub text: Text,
    pub bullets: usize,
}

pub struct BulletsView {
    pub text: TextView,
    pub bullets: usize,
}

impl View for Bullets {
    type V = BulletsView;

    open spec fn view(&self) -> BulletsView {
        BulletsView { text: self.text@, bullets: self.bullets }
    }
}

/// A stock as the screen shows it.
pub open spec fn bullets_label(bullets: usize) -> Seq<char> {
    "Bullets: "@ + decimal(bullets as nat)
}

impl BulletsView {
    pub open spec fn fresh() -> BulletsView {
        BulletsView {
            text: TextView {
                font: Font::RobotoMedium,
                text: bullets_label(STARTING_BULLETS),
                pos: Vec2 { x: BULLETS_X, y: COUNTER_Y },
                font_size: COUNTER_SIZE,
                color: Color::Black,
            },
            bullets: STARTING_BULLETS,
        }
    }

    /// The stock with one bullet less; an empty stock stays empty.
    pub open spec fn decremented(self) -> BulletsView {
        BulletsView {
            text: TextView { pos: Vec2 { x: BULLETS_X, y: COUNTER_Y }, ..self.text },
            bullets: if self.bullets > 0 {
                (self.bullets - 1) as usize
            } else {
                0
            },
        }
    }

    /// The stock with its line brought up to date.
    pub open spec fn shown(self) -> BulletsView {
        BulletsView {
            text: TextView { text: bullets_label(self.bullets), ..self.text },
            bullets: self.bullets,
        }
    }
}

impl Bullets {
    /// The stock at the start of a life.
    pub fn new() -> (b: Self)
        ensures
            b@ == BulletsView::fresh(),
    {
        Self {
            bullets: STARTING_BULLETS,
            text: Text::new(
                Vec2 { x: BULLETS_X, y: COUNTER_Y },
                Font::RobotoMedium,
                numbered("Bullets: ", STARTING_BULLETS),
                COUNTER_SIZE,
                Color::Black,
            ),
        }
    }

    /// Back to the stock at the start of a life.
    pub fn reset(&mut self)
        ensures
            final(self)@ == (BulletsView { bullets: STARTING_BULLETS, ..old(self)@ }),
    {
        self.bullets = STARTING_BULLETS;
    }

    /// Takes one bullet out. An empty stock stays empty.
    pub fn decrement(&mut self)
        ensures
            final(self)@ == old(self)@.decremented(),
    {
        self.text.pos = Vec2 { x: BULLETS_X, y: COUNTER_Y };
        if self.bullets > 0 {
            self.bullets -= 1;
        }
    }

    /// Brings the line up to date and draws it.
    pub fn draw(&mut self) -> (c: Command)
        ensures
            final(self)@ == old(self)@.shown(),
            c@ == final(self)@.text.drawn(),
    {
        self.text.change(numbered("Bullets: ", self.bullets));
        self.text.draw()
    }

    /// A copy of the stock.
    pub fn duplicate(&self) -> (b: Self)
        ensures
            b@ == self@,
    {
        Self { text: self.text.duplicate(), bullets: self.bullets }
    }
}

} // verus!
