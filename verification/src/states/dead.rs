//! The screen after a death: try again, or go back to the menu.

use crate::math::{clamp, half, halve, saturate, Vec2};
use crate::objects::button::{Button, ButtonView};
use crate::platform::{emit, extend, no_commands, views, Command, CommandView, Input};
use crate::states::game_state::GameState;
use crate::states::menu::{
    button_view, choice_corner, corner_of_choice, draw_title, make_red_button, options_drawn,
    red_button, title_drawn, HALF_BUTTON, LOWER_CHOICE, TITLE_Y, UPPER_CHOICE,
};
use crate::upgrading::bullet_button::{BUTTON_HEIGHT, BUTTON_INSET, BUTTON_WIDTH};
use vstd::prelude::*;
use vstd::string::*;

verus! {

#[derive(Clone, Debug, PartialEq, Eq)]
pub struct Dead {
    pub game_state: GameState,
    /// Whether the life ended for want of bullets and money.
    pub out_of_bullets: bool,
    pub title: String,
    pub options: Vec<Button>,
    /// Armed once a frame has passed in which the pointer's button did not
    /// go down; let down by a press on a choice.
    pub can_press_options: bool,
}

pub struct DeadView {
    pub game_state: GameState,
    pub out_of_bullets: bool,
    pub title: Seq<char>,
    pub options: Seq<ButtonView>,
    pub can_press_options: bool,
}

impl View for Dead {
    type V = DeadView;

    open spec fn view(&self) -> DeadView {
        DeadView {
            game_state: self.game_state,
            out_of_bullets: self.out_of_bullets,
            title: self.title@,
            options: self.options@.map_values(button_view()),
            can_press_options: self.can_press_options,
        }
    }
}

/// What the screen says of the death.
pub open spec fn epitaph(out_of_bullets: bool) -> Seq<char> {
    if out_of_bullets {
        "You ran out of bullets"@
    } else {
        "You died"@
    }
}

/// Where the button with the given words belongs, as an offset from the
/// middle of the screen, and where it leads. Other words belong to no choice.
pub open spec fn dead_choice(text: Seq<char>) -> Option<(i32, GameState)> {
    if text == "Try Again"@ {
        Some((UPPER_CHOICE, GameState::Battling))
    } else if text == "Menu"@ {
        Some((LOWER_CHOICE, GameState::Menu))
    } else {
        None
    }
}

/// A button of the screen after its turn: drawn and, if it is a choice, put
/// where it belongs.
pub open spec fn dead_served(b: ButtonView, input: Input) -> ButtonView {
    match dead_choice(b.text) {
        Some((offset, _)) => b.after_draw(input).placed(
            choice_corner(input.screen, offset as int),
            Vec2 { x: BUTTON_WIDTH, y: BUTTON_HEIGHT },
        ),
        None => b.after_draw(input),
    }
}

/// Where the button leads in this frame, if it is a choice and pressed
/// where it now stands.
pub open spec fn dead_taken(b: ButtonView, input: Input) -> Option<GameState> {
    match dead_choice(b.text) {
        Some((_, target)) => if dead_served(b, input).pressed(input) {
            Some(target)
        } else {
            None
        },
        None => None,
    }
}

/// The buttons after each had its turn, the state that a press among them
/// asked for, and the latch. The first press that the latch lets through
/// lets the latch down.
pub open spec fn dead_pass(options: Seq<ButtonView>, state: GameState, armed: bool, input: Input)
    -> (Seq<ButtonView>, GameState, bool)
    decreases options.len(),
{
    if options.len() == 0 {
        (Seq::empty(), state, armed)
    } else {
        let (done, s, a) = dead_pass(options.drop_last(), state, armed, input);
        let taken = dead_taken(options.last(), input);
        let served = done.push(dead_served(options.last(), input));
        if a && taken is Some {
            (served, taken->0, false)
        } else {
            (served, s, a)
        }
    }
}

impl DeadView {
    pub open spec fn fresh(screen: Vec2) -> DeadView {
        DeadView {
            game_state: GameState::Dead,
            out_of_bullets: false,
            title: "You Died"@,
            options: seq![
                red_button(
                    "Menu"@,
                    Vec2 {
                        x: (half(screen.x as int) - HALF_BUTTON) as i32,
                        y: clamp(half(screen.y as int) - 200000) as i32,
                    },
                    15,
                ),
                red_button(
                    "Try Again"@,
                    Vec2 { x: clamp(screen.x - BUTTON_INSET) as i32, y: 20000 },
                    14,
                ),
            ],
            can_press_options: false,
        }
    }

    /// Whether the choices answer at the start of this frame's pass.
    pub open spec fn armed(self, input: Input) -> bool {
        self.can_press_options || !input.pointer_pressed
    }

    /// The screen after the frame.
    pub open spec fn stepped(self, input: Input) -> DeadView {
        let (options, game_state, can_press_options) = dead_pass(
            self.options,
            self.game_state,
            self.armed(input),
            input,
        );
        DeadView {
            options,
            game_state,
            can_press_options,
            title: epitaph(self.out_of_bullets),
            ..self
        }
    }

    /// What the frame draws and plays, in order.
    pub open spec fn frame_commands(self, input: Input) -> Seq<CommandView> {
        seq![title_drawn(epitaph(self.out_of_bullets), input.screen, TITLE_Y)] + options_drawn(
            self.options,
            input,
        )
    }
}

impl Dead {
    /// The screen on a screen of the given size.
    pub fn new(screen: Vec2) -> (d: Self)
        ensures
            d@ == DeadView::fresh(screen),
    {
        let mut options: Vec<Button> = Vec::new();
        options.push(
            make_red_button(
                "Menu",
                Vec2 {
                    x: halve(screen.x) - HALF_BUTTON,
                    y: saturate(halve(screen.y) as i64 - 200000),
                },
                15,
            ),
        );
        options.push(
            make_red_button(
                "Try Again",
                Vec2 { x: saturate(screen.x as i64 - BUTTON_INSET as i64), y: 20000 },
                14,
            ),
        );
        let d = Self {
            game_state: GameState::Dead,
            out_of_bullets: false,
            title: String::from_str("You Died"),
            options,
            can_press_options: false,
        };
        assert(d@.options =~= DeadView::fresh(screen).options);
        d
    }

    /// Which choice a button is.
    fn choice(text: &String) -> (c: Option<(i32, GameState)>)
        ensures
            c == dead_choice(text@),
    {
        if *text == String::from_str("Try Again") {
            Some((UPPER_CHOICE, GameState::Battling))
        } else if *text == String::from_str("Menu") {
            Some((LOWER_CHOICE, GameState::Menu))
        } else {
            None
        }
    }

    /// One frame of the screen: says how the life ended, draws the buttons
    /// and follows a press.
    pub fn start(&mut self, input: &Input) -> (out: Vec<Command>)
        ensures
            final(self)@ == old(self)@.stepped(*input),
            views(out@) == old(self)@.frame_commands(*input),
    {
        if !input.pointer_pressed {
            self.can_press_options = true;
        }
        self.title = if self.out_of_bullets {
            String::from_str("You ran out of bullets")
        } else {
            String::from_str("You died")
        };
        let mut out = no_commands();
        emit(&mut out, draw_title(&self.title, input.screen, TITLE_Y));
        let ghost all = old(self)@.options;
        let ghost armed = old(self)@.armed(*input);
        let mut i: usize = 0;
        assert(all.take(0) =~= Seq::<ButtonView>::empty());
        assert(views(out@) =~= seq![title_drawn(self.title@, input.screen, TITLE_Y)]
            + options_drawn(all.take(0), *input));
        while i < self.options.len()
            invariant
                i <= self.options.len(),
                all == old(self)@.options,
                armed == old(self)@.armed(*input),
                self.options.len() == all.len(),
                self.title@ == epitaph(old(self).out_of_bullets),
                self.out_of_bullets == old(self).out_of_bullets,
                dead_pass(all.take(i as int), old(self).game_state, armed, *input) == (
                    self@.options.take(i as int),
                    self.game_state,
                    self.can_press_options,
                ),
                forall|k: int| i <= k < all.len() ==> self@.options[k] == all[k],
                views(out@) == seq![title_drawn(self.title@, input.screen, TITLE_Y)]
                    + options_drawn(all.take(i as int), *input),
            decreases self.options.len() - i,
        {
            let ghost seen = self@.options;
            let mut option = self.options.remove(i);
            assert(option@ == all[i as int]) by {
                assert(seen[i as int] == all[i as int]);
            }
            extend(&mut out, option.draw(input));
            match Self::choice(&option.text) {
                Some((offset, target)) => {
                    option.update(
                        corner_of_choice(input.screen, offset),
                        Vec2 { x: BUTTON_WIDTH, y: BUTTON_HEIGHT },
                    );
                    if option.is_pressed(input) && self.can_press_options {
                        self.game_state = target;
                        self.can_press_options = false;
                    }
                },
                None => {},
            }
            self.options.insert(i, option);
            proof {
                let now = self@.options;
                assert(all.take(i + 1).drop_last() =~= all.take(i as int));
                assert(all.take(i + 1).last() == all[i as int]);
                assert forall|k: int| 0 <= k < now.len() && k != i implies now[k] == seen[k] by {}
                assert(now.take(i + 1) =~= seen.take(i as int).push(now[i as int]));
                assert(views(out@) =~= seq![title_drawn(self.title@, input.screen, TITLE_Y)]
                    + options_drawn(all.take(i + 1), *input));
            }
            i += 1;
        }
        assert(all.take(i as int) =~= all);
        assert(self@.options.take(i as int) =~= self@.options);
        out
    }
}

/// The title names the way the life ended: want of bullets when the flag
/// is up, a plain death when it is not.
pub proof fn lemma_title_follows_flag(screen: DeadView, input: Input)
    ensures
        screen.stepped(input).title == epitaph(screen.out_of_bullets),
        screen.stepped(input).out_of_bullets == screen.out_of_bullets,
        screen.frame_commands(input)[0] == title_drawn(
            epitaph(screen.out_of_bullets),
            input.screen,
            TITLE_Y,
        ),
{
}

/// The screen leads nowhere but back to the battle or to the menu: after
/// the buttons had their turn, the state is what it was, `Battling` or
/// `Menu`.
pub proof fn lemma_dead_leads_back(
    options: Seq<ButtonView>,
    state: GameState,
    armed: bool,
    input: Input,
)
    ensures
        ({
            let after = dead_pass(options, state, armed, input).1;
            after == state || after == GameState::Battling || after == GameState::Menu
        }),
        dead_pass(options, state, armed, input).0.len() == options.len(),
    decreases options.len(),
{
    if options.len() > 0 {
        lemma_dead_leads_back(options.drop_last(), state, armed, input);
    }
}

} // verus!
