//! What the library and the platform say to each other: the input of one
//! frame, the handles of the assets, and the commands that a frame produces.

use crate::math::{Rect, Vec2};
use crate::tier::Tier;
use vstd::prelude::*;

verus! {

/// What the platform reports at the start of a frame.
#[derive(Clone, Copy, Debug, PartialEq, Eq, Structural)]
pub struct Input {
    /// Microseconds since the last frame.
    pub dt: u32,
    /// Frames per second, as the platform measures them.
    pub fps: u32,
    /// Width and height of the screen.
    pub screen: Vec2,
    /// Where the pointer is.
    pub pointer: Vec2,
    /// Whether the pointer's button is held down.
    pub pointer_down: bool,
    /// Whether the pointer's button went down in this very frame.
    pub pointer_pressed: bool,
    pub left: bool,
    pub right: bool,
    pub up: bool,
    pub down: bool,
}

/// The sizes of the pictures that move on the battlefield.
#[derive(Clone, Copy, Debug, PartialEq, Eq, Structural)]
pub struct Sprites {
    pub player: Vec2,
    pub gun: Vec2,
    pub bullet: Vec2,
    pub enemy: Vec2,
}

#[derive(Clone, Copy, Debug, PartialEq, Eq, Structural)]
pub enum Color {
    Red,
    Gray,
    Black,
    White,
    Green,
}

#[derive(Clone, Copy, Debug, PartialEq, Eq, Structural)]
pub enum Font {
    RobotoMedium,
}

#[derive(Clone, Copy, Debug, PartialEq, Eq, Structural)]
pub enum Sound {
    Theme,
    Shoot,
    Kill,
    Die,
    Click,
}

/// The pictures that the game shows.
#[derive(Clone, Copy, Debug, PartialEq, Eq, Structural)]
pub enum Texture {
    /// The player, as a character of the given tier.
    Regular(Tier),
    /// The large picture of a character on the upgrade screen.
    Display(Tier),
    /// An enemy that looks like the character of the given tier.
    Enemy(Tier),
    /// The enemy of a player who has reached the last tier.
    Monkey,
    Bullet,
    Gun,
    /// The picture on the given page of the tutorial.
    Lesson(usize),
}

/// One thing for the platform to draw or to play.
#[derive(Clone, Debug, PartialEq, Eq)]
pub enum Command {
    /// Draw a picture with its top-left corner at `(x, y)`.
    Texture { texture: Texture, x: i32, y: i32 },
    /// Draw a picture at `(x, y)`, turned so that it points along `aim`.
    TextureAimed { texture: Texture, x: i32, y: i32, aim: Vec2 },
    Text { text: String, x: i32, y: i32, font: Font, font_size: u16, color: Color },
    Rectangle { rect: Rect, color: Color },
    /// Fill the whole screen with one color.
    Clear { color: Color },
    /// Play a sound once, at `volume` percent.
    Play { sound: Sound, volume: u8 },
    Stop { sound: Sound },
}

/// A command as a mathematical value.
pub enum CommandView {
    Texture { texture: Texture, x: i32, y: i32 },
    TextureAimed { texture: Texture, x: i32, y: i32, aim: Vec2 },
    Text { text: Seq<char>, x: i32, y: i32, font: Font, font_size: u16, color: Color },
    Rectangle { rect: Rect, color: Color },
    Clear { color: Color },
    Play { sound: Sound, volume: u8 },
    Stop { sound: Sound },
}

impl View for Command {
    type V = CommandView;

    open spec fn view(&self) -> CommandView {
        match *self {
            Command::Texture { texture, x, y } => CommandView::Texture { texture, x, y },
            Command::TextureAimed { texture, x, y, aim } => CommandView::TextureAimed {
                texture,
                x,
                y,
                aim,
            },
            Command::Text { text, x, y, font, font_size, color } => CommandView::Text {
                text: text@,
                x,
                y,
                font,
                font_size,
                color,
            },
            Command::Rectangle { rect, color } => CommandView::Rectangle { rect, color },
            Command::Clear { color } => CommandView::Clear { color },
            Command::Play { sound, volume } => CommandView::Play { sound, volume },
            Command::Stop { sound } => CommandView::Stop { sound },
        }
    }
}

/// A list of commands as a mathematical value.
pub open spec fn views(commands: Seq<Command>) -> Seq<CommandView> {
    commands.map_values(|c: Command| c@)
}

/// An empty list of commands.
pub fn no_commands() -> (out: Vec<Command>)
    ensures
        views(out@) == Seq::<CommandView>::empty(),
{
    let out: Vec<Command> = Vec::new();
    assert(views(out@) =~= Seq::<CommandView>::empty());
    out
}

/// Moves the commands of `more` to the end of `out`.
pub fn extend(out: &mut Vec<Command>, more: Vec<Command>)
    ensures
        views(final(out)@) == views(old(out)@) + views(more@),
{
    let ghost added = more@;
    let mut rest = more;
    out.append(&mut rest);
    assert(views(out@) =~= views(old(out)@) + views(added));
}

/// Puts one command at the end of `out`.
pub fn emit(out: &mut Vec<Command>, command: Command)
    ensures
        views(final(out)@) == views(old(out)@).push(command@),
{
    out.push(command);
    assert(views(out@) =~= views(old(out)@).push(command@));
}

} // verus!
