//! The first screen: play, or read the tutorial.

use crate::math::{clamp, half, halve, saturate, Rect, Vec2};
use crate::objects::button::{Button, ButtonView};
use crate::objects::money::COUNTER_SIZE;
use crate::objects::text::{line_start, start_of_line, TITLE_GLYPH};
use crate::platform::{emit, extend, no_commands, views, Color, Command, CommandView, Font, Input};
use crate::states::game_state::GameState;
use crate::upgrading::bullet_button::{BUTTON_HEIGHT, BUTTON_INSET, BUTTON_WIDTH};
use vstd::prelude::*;
use vstd::string::*;

verus! {

/// The height at which a screen's title stands.
pub const TITLE_Y: i32 = 30000;

/// Half the width of a button: how far left of the middle a centered button
/// starts.
pub const HALF_BUTTON: i32 = 100000;

/// How far above the middle of the screen the upper of two choices stands.
pub const UPPER_CHOICE: i32 = -55000;

/// How far below the middle of the screen the lower of two choices stands.
pub const LOWER_CHOICE: i32 = 5000;

/// Where a choice stands that lies `offset` below the middle of the screen.
pub open spec fn choice_corner(screen: Vec2, offset: int) -> Vec2 {
    Vec2 {
        x: (half(screen.x as int) - HALF_BUTTON) as i32,
        y: clamp(half(screen.y as int) + offset) as i32,
    }
}

/// Where a choice stands that lies `offset` below the middle of the screen.
pub fn corner_of_choice(screen: Vec2, offset: i32) -> (p: Vec2)
    ensures
        p == choice_corner(screen, offset as int),
{
    Vec2 {
        x: halve(screen.x) - HALF_BUTTON,
        y: saturate(halve(screen.y) as i64 + offset as i64),
    }
}

/// The command that draws a title about the middle of the screen.
pub open spec fn title_drawn(title: Seq<char>, screen: Vec2, y: i32) -> CommandView {
    CommandView::Text {
        text: title,
        x: line_start(screen.x as int, title.len() as int, TITLE_GLYPH as int) as i32,
        y,
        font: Font::RobotoMedium,
        font_size: COUNTER_SIZE,
        color: Color::Black,
    }
}

/// The command that draws a title about the middle of the screen.
pub fn draw_title(title: &String, screen: Vec2, y: i32) -> (c: Command)
    ensures
        c@ == title_drawn(title@, screen, y),
{
    let glyphs: usize = title.as_str().unicode_len();
    Command::Text {
        text: title.clone(),
        x: start_of_line(screen.x, glyphs, TITLE_GLYPH),
        y,
        font: Font::RobotoMedium,
        font_size: COUNTER_SIZE,
        color: Color::Black,
    }
}

/// A red button as the menus make them.
pub open spec fn red_button(text: Seq<char>, corner: Vec2, font_size: u16) -> ButtonView {
    ButtonView {
        rect: Rect { x: corner.x, y: corner.y, w: BUTTON_WIDTH, h: BUTTON_HEIGHT },
        text,
        font: Font::RobotoMedium,
        bg: Color::Red,
        font_size,
        can_click: false,
    }
}

/// A red button as the menus make them.
pub fn make_red_button(text: &str, corner: Vec2, font_size: u16) -> (b: Button)
    ensures
        b@ == red_button(text@, corner, font_size),
{
    Button::new(
        corner,
        Vec2 { x: BUTTON_WIDTH, y: BUTTON_HEIGHT },
        String::from_str(text),
        Color::Red,
        font_size,
    )
}

pub open spec fn button_view() -> spec_fn(Button) -> ButtonView {
    |b: Button| b@
}

#[derive(Clone, Debug, PartialEq, Eq)]
pub struct Menu {
    pub title: String,
    pub options: Vec<Button>,
    pub game_state: GameState,
    /// Armed once a frame has passed in which the pointer's button did not
    /// go down.
    pub can_press_options: bool,
}

pub struct MenuView {
    pub title: Seq<char>,
    pub options: Seq<ButtonView>,
    pub game_state: GameState,
    pub can_press_options: bool,
}

impl View for Menu {
    type V = MenuView;

    open spec fn view(&self) -> MenuView {
        MenuView {
            title: self.title@,
            options: self.options@.map_values(button_view()),
            game_state: self.game_state,
            can_press_options: self.can_press_options,
        }
    }
}

/// Where the button with the given words belongs, as an offset from the
/// middle of the screen, and where it leads. Other words belong to no choice.
pub open spec fn menu_choice(text: Seq<char>) -> Option<(i32, GameState)> {
    if text == "Play"@ {
        Some((UPPER_CHOICE, GameState::Battling))
    } else if text == "Tutorial"@ {
        Some((LOWER_CHOICE, GameState::Tutorial))
    } else {
        None
    }
}

/// A button of the menu after its turn: drawn and, if it is a choice, put
/// where it belongs.
pub open spec fn menu_served(b: ButtonView, input: Input) -> ButtonView {
    match menu_choice(b.text) {
        Some((offset, _)) => b.after_draw(input).placed(
            choice_corner(input.screen, offset as int),
            Vec2 { x: BUTTON_WIDTH, y: BUTTON_HEIGHT },
        ),
        None => b.after_draw(input),
    }
}

/// Where the button leads in this frame, if it is a choice and pressed
/// where it now stands.
pub open spec fn menu_taken(b: ButtonView, input: Input) -> Option<GameState> {
    match menu_choice(b.text) {
        Some((_, target)) => if menu_served(b, input).pressed(input) {
            Some(target)
        } else {
            None
        },
        None => None,
    }
}

/// The buttons after each had its turn, and the state that the last press
/// among them asked for.
pub open spec fn menu_pass(options: Seq<ButtonView>, state: GameState, armed: bool, input: Input)
    -> (Seq<ButtonView>, GameState)
    decreases options.len(),
{
    if options.len() == 0 {
        (Seq::empty(), state)
    } else {
        let (done, s) = menu_pass(options.drop_last(), state, armed, input);
        let taken = menu_taken(options.last(), input);
        (
            done.push(menu_served(options.last(), input)),
            if armed && taken is Some {
                taken->0
            } else {
                s
            },
        )
    }
}

/// What the buttons draw, in turn.
pub open spec fn options_drawn(options: Seq<ButtonView>, input: Input) -> Seq<CommandView>
    decreases options.len(),
{
    if options.len() == 0 {
        Seq::empty()
    } else {
        options_drawn(options.drop_last(), input) + options.last().drawn(input)
    }
}

impl MenuView {
    pub open spec fn fresh(screen: Vec2) -> MenuView {
        MenuView {
            title: "Becoming the Banana Man"@,
            options: seq![
                red_button(
                    "Play"@,
                    Vec2 {
                        x: (half(screen.x as int) - HALF_BUTTON) as i32,
                        y: clamp(half(screen.y as int) - 200000) as i32,
                    },
                    15,
                ),
                red_button(
                    "Tutorial"@,
                    Vec2 { x: clamp(screen.x - BUTTON_INSET) as i32, y: 20000 },
                    14,
                ),
            ],
            game_state: GameState::Menu,
            can_press_options: false,
        }
    }

    /// Whether the choices answer in this frame.
    pub open spec fn armed(self, input: Input) -> bool {
        self.can_press_options || !input.pointer_pressed
    }

    /// The menu after the frame.
    pub open spec fn stepped(self, input: Input) -> MenuView {
        let (options, game_state) = menu_pass(
            self.options,
            self.game_state,
            self.armed(input),
            input,
        );
        MenuView { options, game_state, can_press_options: self.armed(input), ..self }
    }

    /// What the frame draws and plays, in order.
    pub open spec fn frame_commands(self, input: Input) -> Seq<CommandView> {
        seq![title_drawn(self.title, input.screen, TITLE_Y)] + options_drawn(self.options, input)
    }
}

impl Menu {
    /// The menu on a screen of the given size.
    pub fn new(screen: Vec2) -> (m: Self)
        ensures
            m@ == MenuView::fresh(screen),
    {
        let mut options: Vec<Button> = Vec::new();
        options.push(
            make_red_button(
                "Play",
                Vec2 {
                    x: halve(screen.x) - HALF_BUTTON,
                    y: saturate(halve(screen.y) as i64 - 200000),
                },
                15,
            ),
        );
        options.push(
            make_red_button(
                "Tutorial",
                Vec2 { x: saturate(screen.x as i64 - BUTTON_INSET as i64), y: 20000 },
                14,
            ),
        );
        let m = Self {
            title: String::from_str("Becoming the Banana Man"),
            options,
            game_state: GameState::Menu,
            can_press_options: false,
        };
        assert(m@.options =~= MenuView::fresh(screen).options);
        m
    }

    /// Which choice a button is.
    fn choice(text: &String) -> (c: Option<(i32, GameState)>)
        ensures
            c == menu_choice(text@),
    {
        if *text == String::from_str("Play") {
            Some((UPPER_CHOICE, GameState::Battling))
        } else if *text == String::from_str("Tutorial") {
            Some((LOWER_CHOICE, GameState::Tutorial))
        } else {
            None
        }
    }

    /// One frame of the menu: draws the title and the buttons and follows a
    /// press.
    pub fn start(&mut self, input: &Input) -> (out: Vec<Command>)
        ensures
            final(self)@ == old(self)@.stepped(*input),
            views(out@) == old(self)@.frame_commands(*input),
    {
        if !input.pointer_pressed {
            self.can_press_options = true;
        }
        let mut out = no_commands();
        emit(&mut out, draw_title(&self.title, input.screen, TITLE_Y));
        let ghost all = old(self)@.options;
        let ghost armed = old(self)@.armed(*input);
        let mut i: usize = 0;
        assert(all.take(0) =~= Seq::<ButtonView>::empty());
        assert(views(out@) =~= seq![title_drawn(self.title@, input.screen, TITLE_Y)]
            + options_drawn(all.take(0), *input));
        while i < self.options.len()
            invariant
                i <= self.options.len(),
                all == old(self)@.options,
                armed == old(self)@.armed(*input),
                self.options.len() == all.len(),
                self.title@ == old(self).title@,
                self.can_press_options == armed,
                menu_pass(all.take(i as int), old(self).game_state, armed, *input) == (
                    self@.options.take(i as int),
                    self.game_state,
                ),
                forall|k: int| i <= k < all.len() ==> self@.options[k] == all[k],
                views(out@) == seq![title_drawn(self.title@, input.screen, TITLE_Y)]
                    + options_drawn(all.take(i as int), *input),
            decreases self.options.len() - i,
        {
            let ghost seen = self@.options;
            let mut option = self.options.remove(i);
            assert(option@ == all[i as int]) by {
                assert(seen[i as int] == all[i as int]);
            }
            extend(&mut out, option.draw(input));
            match Self::choice(&option.text) {
                Some((offset, target)) => {
                    option.update(
                        corner_of_choice(input.screen, offset),
                        Vec2 { x: BUTTON_WIDTH, y: BUTTON_HEIGHT },
                    );
                    if option.is_pressed(input) && self.can_press_options {
                        self.game_state = target;
                    }
                },
                None => {},
            }
            self.options.insert(i, option);
            proof {
                let now = self@.options;
                assert(all.take(i + 1).drop_last() =~= all.take(i as int));
                assert(all.take(i + 1).last() == all[i as int]);
                assert forall|k: int| 0 <= k < now.len() && k != i implies now[k] == seen[k] by {}
                assert(now.take(i + 1) =~= seen.take(i as int).push(now[i as int]));
                assert(views(out@) =~= seq![title_drawn(self.title@, input.screen, TITLE_Y)]
                    + options_drawn(all.take(i + 1), *input));
            }
            i += 1;
        }
        assert(all.take(i as int) =~= all);
        assert(self@.options.take(i as int) =~= self@.options);
        out
    }
}

/// The menu leads nowhere but to the battle or to the tutorial: after the
/// buttons had their turn, the state is what it was, `Battling` or
/// `Tutorial`; and while the choices do not answer, it is what it was.
pub proof fn lemma_menu_leads_on(
    options: Seq<ButtonView>,
    state: GameState,
    armed: bool,
    input: Input,
)
    ensures
        ({
            let after = menu_pass(options, state, armed, input).1;
            &&& after == state || after == GameState::Battling || after == GameState::Tutorial
            &&& !armed ==> after == state
        }),
        menu_pass(options, state, armed, input).0.len() == options.len(),
    decreases options.len(),
{
    if options.len() > 0 {
        lemma_menu_leads_on(options.drop_last(), state, armed, input);
    }
}

} // verus!
