//! The tutorial: pages of advice, some with a picture, and buttons to leaf
//! through them.

use crate::math::{clamp, half, halve, saturate, Vec2};
use crate::objects::button::{Button, ButtonView};
use crate::platform::{emit, extend, no_commands, views, Command, CommandView, Input, Texture};
use crate::states::game_state::GameState;
use crate::states::menu::{button_view, draw_title, make_red_button, red_button, title_drawn};
use crate::states::upgrading::MARGIN;
use crate::upgrading::bullet_button::{
    BUTTON_FONT_SIZE, BUTTON_HEIGHT, BUTTON_INSET, BUTTON_WIDTH,
};
use vstd::prelude::*;
use vstd::string::*;

verus! {

/// The number of pages.
pub const PAGES: usize = 8;

/// The height at which the advice stands.
pub const ADVICE_Y: i32 = 100000;

/// How far left of the middle of the screen a picture starts.
pub const PICTURE_INSET: i32 = 200000;

/// How far above the bottom edge the buttons that turn the pages stand.
pub const LEAF_RISE: i32 = 100000;

/// The advice on a page. Past the last page there is none.
pub open spec fn advice(page: int) -> Seq<char> {
    if page == 0 {
        "Use WASD keys or arrow keys to move"@
    } else if page == 1 {
        "Click to shoot"@
    } else if page == 2 {
        "When you kill an enemy, you get money"@
    } else if page == 3 {
        "If you get hit or run out of bullets, you die"@
    } else if page == 4 {
        "Click retreat button to go back to the upgrades"@
    } else if page == 5 {
        "Click the upgrade button to upgrade your character"@
    } else if page == 6 {
        "Click the buy bullets button to buy bullets ($1)"@
    } else if page == 7 {
        "Click the battle button to go back to battling"@
    } else {
        ""@
    }
}

/// The picture on a page. The first page has none.
pub open spec fn picture(page: int) -> Option<Texture> {
    if 1 <= page < PAGES {
        Some(Texture::Lesson(page as usize))
    } else {
        None
    }
}

/// What the buttons of the tutorial do.
#[derive(Clone, Copy, Debug, PartialEq, Eq, Structural)]
pub enum Leaf {
    Next,
    Previous,
    Close,
}

/// What the button with the given words does. Other words do nothing.
pub open spec fn leaf_of(text: Seq<char>) -> Option<Leaf> {
    if text == "Next"@ {
        Some(Leaf::Next)
    } else if text == "Previous"@ {
        Some(Leaf::Previous)
    } else if text == "Close"@ {
        Some(Leaf::Close)
    } else {
        None
    }
}

/// What the buttons read and change: the open page, the two latches and
/// the state.
#[derive(Clone, Copy, Debug, PartialEq, Eq, Structural)]
pub struct Reading {
    pub page: usize,
    pub can_next: bool,
    pub can_previous: bool,
    pub game_state: GameState,
}

/// Where a button belongs on a screen of the given size.
pub open spec fn leaf_corner(leaf: Leaf, screen: Vec2) -> Vec2 {
    match leaf {
        Leaf::Next => Vec2 {
            x: clamp(screen.x - BUTTON_INSET) as i32,
            y: clamp(screen.y - LEAF_RISE) as i32,
        },
        Leaf::Previous => Vec2 { x: MARGIN, y: clamp(screen.y - LEAF_RISE) as i32 },
        Leaf::Close => Vec2 { x: MARGIN, y: MARGIN },
    }
}

/// Whether a button is shown while the given page is open: there is no way
/// on from the last page and no way back from the first.
pub open spec fn leaf_shown(leaf: Leaf, page: usize) -> bool {
    match leaf {
        Leaf::Next => page < PAGES - 1,
        Leaf::Previous => page > 0,
        Leaf::Close => true,
    }
}

/// What a press on a shown button does, and what the lack of one.
pub open spec fn leafed(leaf: Leaf, pressed: bool, r: Reading) -> Reading {
    match leaf {
        Leaf::Next => if pressed && r.can_next {
            Reading { page: (r.page + 1) as usize, can_next: false, ..r }
        } else if !pressed {
            Reading { can_next: true, ..r }
        } else {
            r
        },
        Leaf::Previous => if pressed && r.can_previous {
            Reading { page: (r.page - 1) as usize, can_previous: false, ..r }
        } else if !pressed {
            Reading { can_previous: true, ..r }
        } else {
            r
        },
        Leaf::Close => if pressed {
            Reading { game_state: GameState::Menu, ..r }
        } else {
            r
        },
    }
}

/// Whether a button has its turn: its words name a leaf, and that leaf is
/// shown.
pub open spec fn has_turn(b: ButtonView, r: Reading) -> bool {
    leaf_of(b.text) matches Some(leaf) && leaf_shown(leaf, r.page)
}

/// A button after its turn: drawn and put where it belongs. A button that
/// is not shown stays as it is.
pub open spec fn leaf_served(b: ButtonView, r: Reading, input: Input) -> ButtonView {
    if has_turn(b, r) {
        b.after_draw(input).placed(
            leaf_corner(leaf_of(b.text)->0, input.screen),
            Vec2 { x: BUTTON_WIDTH, y: BUTTON_HEIGHT },
        )
    } else {
        b
    }
}

/// What the buttons read and change, after a button's turn.
pub open spec fn leaf_read(b: ButtonView, r: Reading, input: Input) -> Reading {
    if has_turn(b, r) {
        leafed(leaf_of(b.text)->0, leaf_served(b, r, input).pressed(input), r)
    } else {
        r
    }
}

/// What a button draws in its turn.
pub open spec fn leaf_drawn(b: ButtonView, r: Reading, input: Input) -> Seq<CommandView> {
    if has_turn(b, r) {
        b.drawn(input)
    } else {
        Seq::empty()
    }
}

/// The buttons after each had its turn, what they left to read, and what
/// they drew.
pub open spec fn leaf_pass(options: Seq<ButtonView>, r: Reading, input: Input) -> (
    Seq<ButtonView>,
    Reading,
    Seq<CommandView>,
)
    decreases options.len(),
{
    if options.len() == 0 {
        (Seq::empty(), r, Seq::empty())
    } else {
        let (done, read, drawn) = leaf_pass(options.drop_last(), r, input);
        let b = options.last();
        (
            done.push(leaf_served(b, read, input)),
            leaf_read(b, read, input),
            drawn + leaf_drawn(b, read, input),
        )
    }
}

#[derive(Clone, Debug, PartialEq, Eq)]
pub struct Tutorial {
    pub game_state: GameState,
    /// The open page, from 0.
    pub message_index: usize,
    pub options: Vec<Button>,
    /// Armed while the button to the next page is up.
    pub can_press_next_button: bool,
    /// Armed while the button to the page before is up.
    pub can_press_previous_button: bool,
}

pub struct TutorialView {
    pub game_state: GameState,
    pub message_index: usize,
    pub options: Seq<ButtonView>,
    pub can_press_next_button: bool,
    pub can_press_previous_button: bool,
}

impl View for Tutorial {
    type V = TutorialView;

    open spec fn view(&self) -> TutorialView {
        TutorialView {
            game_state: self.game_state,
            message_index: self.message_index,
            options: self.options@.map_values(button_view()),
            can_press_next_button: self.can_press_next_button,
            can_press_previous_button: self.can_press_previous_button,
        }
    }
}

impl TutorialView {
    pub open spec fn fresh(screen: Vec2) -> TutorialView {
        TutorialView {
            game_state: GameState::Tutorial,
            message_index: 0,
            options: seq![
                red_button("Next"@, leaf_corner(Leaf::Next, screen), BUTTON_FONT_SIZE),
                red_button("Previous"@, leaf_corner(Leaf::Previous, screen), BUTTON_FONT_SIZE),
                red_button("Close"@, leaf_corner(Leaf::Close, screen), BUTTON_FONT_SIZE),
            ],
            can_press_next_button: false,
            can_press_previous_button: false,
        }
    }

    /// What the buttons read.
    pub open spec fn reading(self) -> Reading {
        Reading {
            page: self.message_index,
            can_next: self.can_press_next_button,
            can_previous: self.can_press_previous_button,
            game_state: self.game_state,
        }
    }

    /// The tutorial after the frame.
    pub open spec fn stepped(self, input: Input) -> TutorialView {
        let (options, read, _) = leaf_pass(self.options, self.reading(), input);
        TutorialView {
            game_state: read.game_state,
            message_index: read.page,
            options,
            can_press_next_button: read.can_next,
            can_press_previous_button: read.can_previous,
        }
    }

    /// The open page: its advice and, if it has one, its picture, whose size
    /// is `picture_size`.
    pub open spec fn page_commands(self, input: Input, picture_size: Vec2) -> Seq<CommandView> {
        let words = seq![title_drawn(advice(self.message_index as int), input.screen, ADVICE_Y)];
        match picture(self.message_index as int) {
            Some(texture) => words.push(
                CommandView::Texture {
                    texture,
                    x: clamp(half(input.screen.x as int) - PICTURE_INSET) as i32,
                    y: (half(input.screen.y as int) - half(picture_size.y as int)) as i32,
                },
            ),
            None => words,
        }
    }

    /// What the frame draws and plays, in order.
    pub open spec fn frame_commands(self, input: Input, picture_size: Vec2) -> Seq<CommandView> {
        self.page_commands(input, picture_size) + leaf_pass(self.options, self.reading(), input).2
    }
}

impl Tutorial {
    /// The tutorial, open at its first page, on a screen of the given size.
    pub fn new(screen: Vec2) -> (t: Self)
        ensures
            t@ == TutorialView::fresh(screen),
    {
        let mut options: Vec<Button> = Vec::new();
        options.push(make_red_button("Next", Self::corner(Leaf::Next, screen), BUTTON_FONT_SIZE));
        options.push(
            make_red_button("Previous", Self::corner(Leaf::Previous, screen), BUTTON_FONT_SIZE),
        );
        options.push(make_red_button("Close", Self::corner(Leaf::Close, screen), BUTTON_FONT_SIZE));
        let t = Self {
            game_state: GameState::Tutorial,
            message_index: 0,
            options,
            can_press_next_button: false,
            can_press_previous_button: false,
        };
        assert(t@.options =~= TutorialView::fresh(screen).options);
        t
    }

    /// The advice on a page.
    pub fn message(page: usize) -> (s: String)
        ensures
            s@ == advice(page as int),
    {
        if page == 0 {
            String::from_str("Use WASD keys or arrow keys to move")
        } else if page == 1 {
            String::from_str("Click to shoot")
        } else if page == 2 {
            String::from_str("When you kill an enemy, you get money")
        } else if page == 3 {
            String::from_str("If you get hit or run out of bullets, you die")
        } else if page == 4 {
            String::from_str("Click retreat button to go back to the upgrades")
        } else if page == 5 {
            String::from_str("Click the upgrade button to upgrade your character")
        } else if page == 6 {
            String::from_str("Click the buy bullets button to buy bullets ($1)")
        } else if page == 7 {
            String::from_str("Click the battle button to go back to battling")
        } else {
            String::from_str("")
        }
    }

    /// The picture on a page.
    pub fn image(page: usize) -> (t: Option<Texture>)
        ensures
            t == picture(page as int),
    {
        if 1 <= page && page < PAGES {
            Some(Texture::Lesson(page))
        } else {
            None
        }
    }

    /// What a button does.
    fn leaf(text: &String) -> (l: Option<Leaf>)
        ensures
            l == leaf_of(text@),
    {
        if *text == String::from_str("Next") {
            Some(Leaf::Next)
        } else if *text == String::from_str("Previous") {
            Some(Leaf::Previous)
        } else if *text == String::from_str("Close") {
            Some(Leaf::Close)
        } else {
            None
        }
    }

    fn corner(leaf: Leaf, screen: Vec2) -> (p: Vec2)
        ensures
            p == leaf_corner(leaf, screen),
    {
        match leaf {
            Leaf::Next => Vec2 {
                x: saturate(screen.x as i64 - BUTTON_INSET as i64),
                y: saturate(screen.y as i64 - LEAF_RISE as i64),
            },
            Leaf::Previous => Vec2 { x: MARGIN, y: saturate(screen.y as i64 - LEAF_RISE as i64) },
            Leaf::Close => Vec2 { x: MARGIN, y: MARGIN },
        }
    }

    fn shown(leaf: Leaf, page: usize) -> (b: bool)
        ensures
            b == leaf_shown(leaf, page),
    {
        match leaf {
            Leaf::Next => page < PAGES - 1,
            Leaf::Previous => page > 0,
            Leaf::Close => true,
        }
    }

    fn reading(&self) -> (r: Reading)
        ensures
            r == self@.reading(),
    {
        Reading {
            page: self.message_index,
            can_next: self.can_press_next_button,
            can_previous: self.can_press_previous_button,
            game_state: self.game_state,
        }
    }

    /// What a press on a shown button does, and what the lack of one.
    fn turn_leaf(leaf: Leaf, pressed: bool, r: Reading) -> (after: Reading)
        requires
            leaf_shown(leaf, r.page),
        ensures
            after == leafed(leaf, pressed, r),
    {
        let mut after = r;
        match leaf {
            Leaf::Next => {
                if pressed && r.can_next {
                    after.page = r.page + 1;
                    after.can_next = false;
                } else if !pressed {
                    after.can_next = true;
                }
            },
            Leaf::Previous => {
                if pressed && r.can_previous {
                    after.page = r.page - 1;
                    after.can_previous = false;
                } else if !pressed {
                    after.can_previous = true;
                }
            },
            Leaf::Close => {
                if pressed {
                    after.game_state = GameState::Menu;
                }
            },
        }
        after
    }

    /// Draws the open page, whose picture has the size `picture_size`.
    fn draw_page(&self, input: &Input, picture_size: Vec2) -> (out: Vec<Command>)
        ensures
            views(out@) == self@.page_commands(*input, picture_size),
    {
        let mut out = no_commands();
        let words = Self::message(self.message_index);
        emit(&mut out, draw_title(&words, input.screen, ADVICE_Y));
        match Self::image(self.message_index) {
            Some(texture) => {
                emit(
                    &mut out,
                    Command::Texture {
                        texture,
                        x: saturate(halve(input.screen.x) as i64 - PICTURE_INSET as i64),
                        y: halve(input.screen.y) - halve(picture_size.y),
                    },
                );
            },
            None => {},
        }
        assert(views(out@) =~= self@.page_commands(*input, picture_size));
        out
    }

    /// One frame of the tutorial: draws the open page, whose picture has the
    /// size `picture_size`, and the buttons, and follows a press.
    pub fn start(&mut self, input: &Input, picture_size: Vec2) -> (out: Vec<Command>)
        ensures
            final(self)@ == old(self)@.stepped(*input),
            views(out@) == old(self)@.frame_commands(*input, picture_size),
    {
        let mut out = self.draw_page(input, picture_size);
        let ghost page = views(out@);
        let ghost all = old(self)@.options;
        let ghost first = old(self)@.reading();
        let mut read = self.reading();
        let mut i: usize = 0;
        assert(all.take(0) =~= Seq::<ButtonView>::empty());
        assert(views(out@) =~= page + leaf_pass(all.take(0), first, *input).2);
        while i < self.options.len()
            invariant
                i <= self.options.len(),
                all == old(self)@.options,
                first == old(self)@.reading(),
                page == old(self)@.page_commands(*input, picture_size),
                self.options.len() == all.len(),
                leaf_pass(all.take(i as int), first, *input).0 == self@.options.take(i as int),
                leaf_pass(all.take(i as int), first, *input).1 == read,
                forall|k: int| i <= k < all.len() ==> self@.options[k] == all[k],
                views(out@) == page + leaf_pass(all.take(i as int), first, *input).2,
            decreases self.options.len() - i,
        {
            let ghost seen = self@.options;
            let ghost before = read;
            let mut option = self.options.remove(i);
            assert(option@ == all[i as int]) by {
                assert(seen[i as int] == all[i as int]);
            }
            match Self::leaf(&option.text) {
                Some(leaf) => {
                    if Self::shown(leaf, read.page) {
                        extend(&mut out, option.draw(input));
                        option.update(
                            Self::corner(leaf, input.screen),
                            Vec2 { x: BUTTON_WIDTH, y: BUTTON_HEIGHT },
                        );
                        read = Self::turn_leaf(leaf, option.is_pressed(input), read);
                    }
                },
                None => {},
            }
            self.options.insert(i, option);
            proof {
                let now = self@.options;
                assert(all.take(i + 1).drop_last() =~= all.take(i as int));
                assert(all.take(i + 1).last() == all[i as int]);
                assert forall|k: int| 0 <= k < now.len() && k != i implies now[k] == seen[k] by {}
                assert(now[i as int] == leaf_served(all[i as int], before, *input));
                assert(now.take(i + 1) =~= seen.take(i as int).push(now[i as int]));
                assert(views(out@) =~= page + leaf_pass(all.take(i + 1), first, *input).2);
            }
            i += 1;
        }
        assert(all.take(i as int) =~= all);
        assert(self@.options.take(i as int) =~= self@.options);
        self.message_index = read.page;
        self.can_press_next_button = read.can_next;
        self.can_press_previous_button = read.can_previous;
        self.game_state = read.game_state;
        out
    }
}

/// Leafing never leaves the book: from a page of the tutorial, whatever
/// the buttons and the input, the frame ends on a page of the tutorial, at
/// most one page away for each button.
pub proof fn lemma_leaf_stays_in_book(b: ButtonView, r: Reading, input: Input)
    requires
        r.page < PAGES,
    ensures
        leaf_read(b, r, input).page < PAGES,
        r.page - 1 <= leaf_read(b, r, input).page <= r.page + 1,
{
}

} // verus!
