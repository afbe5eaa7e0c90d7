//! The character that the player has equipped.

use crate::math::{half, halve, Vec2};
use crate::platform::{Command, CommandView, Texture};
use crate::tier::Tier;
use vstd::prelude::*;

verus! {

#[derive(Clone, Debug, PartialEq, Eq)]
pub struct Character {
    /// The character's name.
    pub character: String,
    /// Armed while the upgrade button is up: one purchase per press.
    pub can_set: bool,
    /// The large picture that the upgrade screen shows.
    pub texture: Texture,
    /// The size of the first character's picture on the battlefield.
    pub texture_size: Vec2,
}

pub struct CharacterView {
    pub character: Seq<char>,
    pub can_set: bool,
    pub texture: Texture,
    pub texture_size: Vec2,
}

impl View for Character {
    type V = CharacterView;

    open spec fn view(&self) -> CharacterView {
        CharacterView {
            character: self.character@,
            can_set: self.can_set,
            texture: self.texture,
            texture_size: self.texture_size,
        }
    }
}

impl CharacterView {
    /// The rung that the character stands on; a name that is on no rung has
    /// none.
    pub open spec fn tier(self) -> Option<Tier> {
        Tier::named(self.character)
    }

    /// The character under a new name. A name that is on no rung keeps the
    /// picture that was there.
    pub open spec fn renamed(self, name: Seq<char>) -> CharacterView {
        CharacterView {
            character: name,
            texture: match Tier::named(name) {
                Some(tier) => Texture::Display(tier),
                None => self.texture,
            },
            ..self
        }
    }

    /// The picture, of the given size, in the middle of the screen.
    pub open spec fn drawn(self, screen: Vec2, size: Vec2) -> CommandView {
        CommandView::Texture {
            texture: self.texture,
            x: (half(screen.x as int) - half(size.x as int)) as i32,
            y: (half(screen.y as int) - half(size.y as int)) as i32,
        }
    }
}

impl Character {
    /// The first character.
    pub fn new(texture_size: Vec2) -> (c: Self)
        ensures
            c@ == (CharacterView {
                character: Tier::Apple.label(),
                can_set: true,
                texture: Texture::Display(Tier::Apple),
                texture_size,
            }),
    {
        Self {
            texture: Texture::Display(Tier::Apple),
            can_set: true,
            character: Tier::Apple.name(),
            texture_size,
        }
    }

    /// The rung that the character stands on.
    pub fn tier(&self) -> (t: Option<Tier>)
        ensures
            t == self@.tier(),
    {
        Tier::from_name(&self.character)
    }

    /// Equips the character with the given name.
    pub fn set(&mut self, texture: String)
        ensures
            final(self)@ == old(self)@.renamed(texture@),
    {
        match Tier::from_name(&texture) {
            Some(tier) => {
                self.texture = Texture::Display(tier);
            },
            None => {},
        }
        self.character = texture;
    }

    /// Draws the picture, whose size is `size`, in the middle of the screen.
    pub fn draw(&self, screen: Vec2, size: Vec2) -> (c: Command)
        ensures
            c@ == self@.drawn(screen, size),
    {
        Command::Texture {
            texture: self.texture,
            x: halve(screen.x) - halve(size.x),
            y: halve(screen.y) - halve(size.y),
        }
    }

    /// A copy of the character.
    pub fn duplicate(&self) -> (c: Self)
        ensures
            c@ == self@,
    {
        Self {
            character: self.character.clone(),
            can_set: self.can_set,
            texture: self.texture,
            texture_size: self.texture_size,
        }
    }
}

} // verus!
