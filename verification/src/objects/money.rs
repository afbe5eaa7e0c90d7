//! The player's money and its line on the screen.

use crate::math::Vec2;
use crate::objects::text::{
    decimal, line_start, numbered, start_of_line, Text, TextView, GLYPH,
};
use crate::platform::{Color, Command, Font};
use vstd::prelude::*;
use vstd::string::*;

verus! {

/// The height at which the counters stand.
pub const COUNTER_Y: i32 = 40000;

/// The size of the counters' letters.
pub const COUNTER_SIZE: u16 = 30;

#[derive(Clone, Debug, PartialEq, Eq)]
pub struct Money {
    pub text: Text,
    pub money: usize,
}

pub struct MoneyView {
    pub text: TextView,
    pub money: usize,
}

impl View for Money {
    type V = MoneyView;

    open spec fn view(&self) -> MoneyView {
        MoneyView { text: self.text@, money: self.money }
    }
}

/// An amount as the screen shows it.
pub open spec fn money_label(money: usize) -> Seq<char> {
    "$"@ + decimal(money as nat)
}

/// Where the line for an amount stands on a screen of the given size.
pub open spec fn money_place(money: usize, screen: Vec2) -> Vec2 {
    Vec2 {
        x: line_start(screen.x as int, money_label(money).len() as int, GLYPH as int) as i32,
        y: COUNTER_Y,
    }
}

/// The sum of two amounts, as far as a counter can hold it.
pub open spec fn capped_sum(a: int, b: int) -> int {
    if a + b > usize::MAX as int {
        usize::MAX as int
    } else {
        a + b
    }
}

impl MoneyView {
    pub open spec fn fresh(screen: Vec2) -> MoneyView {
        MoneyView {
            text: TextView {
                font: Font::RobotoMedium,
                text: money_label(0),
                pos: money_place(0, screen),
                font_size: COUNTER_SIZE,
                color: Color::Black,
            },
            money: 0,
        }
    }

    /// The counter after `amount` came in: the line moves to where the old
    /// amount belongs, the amount grows.
    pub open spec fn incremented(self, amount: usize, screen: Vec2) -> MoneyView {
        MoneyView {
            text: TextView { pos: money_place(self.money, screen), ..self.text },
            money: capped_sum(self.money as int, amount as int) as usize,
        }
    }

    /// The counter with its line brought up to date.
    pub open spec fn shown(self, screen: Vec2) -> MoneyView {
        MoneyView {
            text: TextView {
                text: money_label(self.money),
                pos: money_place(self.money, screen),
                ..self.text
            },
            money: self.money,
        }
    }
}

impl Money {
    fn place(money: usize, screen: Vec2) -> (r: (String, Vec2))
        ensures
            r.0@ == money_label(money),
            r.1 == money_place(money, screen),
    {
        let label = numbered("$", money);
        let glyphs: usize = label.as_str().unicode_len();
        (label, Vec2 { x: start_of_line(screen.x, glyphs, GLYPH), y: COUNTER_Y })
    }

    /// No money, on a screen of the given size.
    pub fn new(screen: Vec2) -> (m: Self)
        ensures
            m@ == MoneyView::fresh(screen),
    {
        let (label, pos) = Self::place(0, screen);
        Self { money: 0, text: Text::new(pos, Font::RobotoMedium, label, COUNTER_SIZE, Color::Black) }
    }

    /// Adds `amount`. The counter stops at the largest amount it can hold.
    pub fn increment(&mut self, amount: usize, screen: Vec2)
        ensures
            final(self)@ == old(self)@.incremented(amount, screen),
    {
        let (_, pos) = Self::place(self.money, screen);
        self.text.pos = pos;
        self.money = self.money.saturating_add(amount);
    }

    /// Takes all the money away.
    pub fn reset(&mut self)
        ensures
            final(self)@ == (MoneyView { money: 0, ..old(self)@ }),
    {
        self.money = 0;
    }

    /// Brings the line up to date and draws it.
    pub fn draw(&mut self, screen: Vec2) -> (c: Command)
        ensures
            final(self)@ == old(self)@.shown(screen),
            c@ == final(self)@.text.drawn(),
    {
        let (label, pos) = Self::place(self.money, screen);
        self.text.change(label);
        self.text.pos = pos;
        self.text.draw()
    }

    /// A copy of the counter.
    pub fn duplicate(&self) -> (m: Self)
        ensures
            m@ == self@,
    {
        Self { text: self.text.duplicate(), money: self.money }
    }
}

} // verus!
