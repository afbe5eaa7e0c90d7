//! A rectangle with a label that the pointer can press.

use crate::math::{clamp, half, halve, saturate, Rect, Vec2};
use crate::objects::text::{saturate_wide, GLYPH};
use crate::platform::{emit, no_commands, views, Color, Command, CommandView, Font, Input, Sound};
use vstd::prelude::*;
use vstd::string::*;

verus! {

/// Half the width of a glyph.
pub const HALF_GLYPH: i32 = 3750;

/// How loud a click is, in percent.
pub const CLICK_VOLUME: u8 = 50;

#[derive(Clone, Debug, PartialEq, Eq)]
pub struct Button {
    pub rect: Rect,
    pub text: String,
    pub font: Font,
    pub bg: Color,
    pub font_size: u16,
    /// Armed while the button is not pressed: the click sounds once per
    /// press.
    pub can_click: bool,
}

pub struct ButtonView {
    pub rect: Rect,
    pub text: Seq<char>,
    pub font: Font,
    pub bg: Color,
    pub font_size: u16,
    pub can_click: bool,
}

impl View for Button {
    type V = ButtonView;

    open spec fn view(&self) -> ButtonView {
        ButtonView {
            rect: self.rect,
            text: self.text@,
            font: self.font,
            bg: self.bg,
            font_size: self.font_size,
            can_click: self.can_click,
        }
    }
}

impl ButtonView {
    /// The pointer's button is down and the pointer is on the rectangle.
    pub open spec fn pressed(self, input: Input) -> bool {
        input.pointer_down && self.rect.holds(input.pointer)
    }

    /// Where the label starts: the middle of the rectangle, less half a
    /// glyph for each glyph but one.
    pub open spec fn label_x(self) -> int {
        clamp(self.rect.x + half(self.rect.w as int) - (self.text.len() - 1) * HALF_GLYPH)
    }

    /// The label's baseline: one glyph under the middle of the rectangle.
    pub open spec fn label_y(self) -> int {
        clamp(self.rect.y + half(self.rect.h as int) + GLYPH)
    }

    /// Whether drawing in this frame sounds the click.
    pub open spec fn clicks(self, input: Input) -> bool {
        self.pressed(input) && self.can_click
    }

    /// The commands of one frame: the background, the label and, on the
    /// first frame of a press, the click.
    pub open spec fn drawn(self, input: Input) -> Seq<CommandView> {
        let face = seq![
            CommandView::Rectangle { rect: self.rect, color: self.bg },
            CommandView::Text {
                text: self.text,
                x: self.label_x() as i32,
                y: self.label_y() as i32,
                font: self.font,
                font_size: self.font_size,
                color: Color::Black,
            },
        ];
        if self.clicks(input) {
            face.push(CommandView::Play { sound: Sound::Click, volume: CLICK_VOLUME })
        } else {
            face
        }
    }

    /// The button after it was drawn: disarmed by a press, armed again once
    /// the press has ended.
    pub open spec fn after_draw(self, input: Input) -> ButtonView {
        ButtonView { can_click: !self.pressed(input), ..self }
    }

    /// The button moved and resized.
    pub open spec fn placed(self, pos: Vec2, size: Vec2) -> ButtonView {
        ButtonView { rect: Rect { x: pos.x, y: pos.y, w: size.x, h: size.y }, ..self }
    }
}

impl Button {
    pub fn new(pos: Vec2, size: Vec2, text: String, bg: Color, font_size: u16) -> (b: Self)
        ensures
            b@ == (ButtonView {
                rect: Rect { x: pos.x, y: pos.y, w: size.x, h: size.y },
                text: text@,
                font: Font::RobotoMedium,
                bg,
                font_size,
                can_click: false,
            }),
    {
        Self {
            rect: Rect::new(pos.x, pos.y, size.x, size.y),
            text,
            font: Font::RobotoMedium,
            bg,
            font_size,
            can_click: false,
        }
    }

    /// Whether the pointer holds the button down.
    pub fn is_pressed(&self, input: &Input) -> (b: bool)
        ensures
            b == self@.pressed(*input),
    {
        input.pointer_down && self.rect.contains(input.pointer)
    }

    /// Draws the button and sounds the click on the first frame of a press.
    pub fn draw(&mut self, input: &Input) -> (out: Vec<Command>)
        ensures
            final(self)@ == old(self)@.after_draw(*input),
            views(out@) == old(self)@.drawn(*input),
    {
        let glyphs: usize = self.text.as_str().unicode_len();
        assert(-0x1_0000_0000_0000 <= (glyphs as int - 1) * (HALF_GLYPH as int)
            <= 0x1_0000_0000_0000_0000_0000) by (nonlinear_arith)
            requires
                0 <= glyphs as int <= 0xffff_ffff_ffff_ffff,
                HALF_GLYPH == 3750,
        ;
        let spread: i128 = (glyphs as i128 - 1) * (HALF_GLYPH as i128);
        let x: i32 = saturate_wide(self.rect.x as i128 + halve(self.rect.w) as i128 - spread);
        let y: i32 = saturate(self.rect.y as i64 + halve(self.rect.h) as i64 + GLYPH as i64);
        let mut out = no_commands();
        emit(&mut out, Command::Rectangle { rect: self.rect, color: self.bg });
        emit(
            &mut out,
            Command::Text {
                text: self.text.clone(),
                x,
                y,
                font: self.font,
                font_size: self.font_size,
                color: Color::Black,
            },
        );
        let pressed = self.is_pressed(input);
        if pressed && self.can_click {
            emit(&mut out, Command::Play { sound: Sound::Click, volume: CLICK_VOLUME });
            self.can_click = false;
        } else if !pressed {
            self.can_click = true;
        }
        assert(views(out@) =~= old(self)@.drawn(*input));
        out
    }

    /// Moves and resizes the button.
    pub fn update(&mut self, pos: Vec2, size: Vec2)
        ensures
            final(self)@ == old(self)@.placed(pos, size),
    {
        self.rect.x = pos.x;
        self.rect.y = pos.y;
        self.rect.w = size.x;
        self.rect.h = size.y;
    }
}

} // verus!
