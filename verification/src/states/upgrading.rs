//! The upgrade screen: the player spends money on the next character and on
//! bullets.

use crate::math::{clamp, saturate, Rect, Vec2};
use crate::objects::bullets::{Bullets, BulletsView};
use crate::objects::button::{Button, ButtonView};
use crate::objects::money::{Money, MoneyView};
use crate::objects::text::{decimal, numbered};
use crate::platform::{emit, extend, no_commands, views, Color, Command, CommandView, Font, Input};
use crate::states::game_state::GameState;
use crate::tier::{lemma_name_finds_tier, Tier};
use crate::upgrading::bullet_button::{
    BulletButton, BulletButtonView, BUTTON_FONT_SIZE, BUTTON_HEIGHT, BUTTON_WIDTH,
};
use crate::upgrading::character::{Character, CharacterView};
use vstd::prelude::*;
use vstd::string::*;

verus! {

/// How far the screen's own buttons stand from the left edge.
pub const MARGIN: i32 = 20000;

/// How far above the bottom edge the battle button stands.
pub const BATTLE_RISE: i32 = 60000;

/// How far above the bottom edge the button that shows the bundles stands.
pub const BUY_RISE: i32 = 120000;

/// How far above the bottom edge the upgrade button stands.
pub const UPGRADE_RISE: i32 = 180000;

#[derive(Clone, Debug, PartialEq, Eq)]
pub struct Upgrading {
    pub game_state: GameState,
    pub money: Money,
    pub bullets: Bullets,
    pub character: Character,
    pub upgrade_button: Button,
    pub buy_bullets_button: Button,
    pub battle_button: Button,
    /// The bundles of bullets on offer, from the bottom row up.
    pub buy_bullet_buttons: Vec<BulletButton>,
    /// Armed while the button that shows the bundles is up.
    pub can_press_buy_bullet_buttons: bool,
    pub is_showing_buy_bullet_buttons: bool,
}

pub struct UpgradingView {
    pub game_state: GameState,
    pub money: MoneyView,
    pub bullets: BulletsView,
    pub character: CharacterView,
    pub upgrade_button: ButtonView,
    pub buy_bullets_button: ButtonView,
    pub battle_button: ButtonView,
    pub buy_bullet_buttons: Seq<BulletButtonView>,
    pub can_press_buy_bullet_buttons: bool,
    pub is_showing_buy_bullet_buttons: bool,
}

pub open spec fn bundle_view() -> spec_fn(BulletButton) -> BulletButtonView {
    |b: BulletButton| b@
}

impl View for Upgrading {
    type V = UpgradingView;

    open spec fn view(&self) -> UpgradingView {
        UpgradingView {
            game_state: self.game_state,
            money: self.money@,
            bullets: self.bullets@,
            character: self.character@,
            upgrade_button: self.upgrade_button@,
            buy_bullets_button: self.buy_bullets_button@,
            battle_button: self.battle_button@,
            buy_bullet_buttons: self.buy_bullet_buttons@.map_values(bundle_view()),
            can_press_buy_bullet_buttons: self.can_press_buy_bullet_buttons,
            is_showing_buy_bullet_buttons: self.is_showing_buy_bullet_buttons,
        }
    }
}

/// One of the screen's own buttons as it is made.
pub open spec fn plain_button(text: Seq<char>, rise: i32, screen: Vec2) -> ButtonView {
    ButtonView {
        rect: Rect {
            x: MARGIN,
            y: clamp(screen.y - rise) as i32,
            w: BUTTON_WIDTH,
            h: BUTTON_HEIGHT,
        },
        text,
        font: Font::RobotoMedium,
        bg: Color::Gray,
        font_size: BUTTON_FONT_SIZE,
        can_click: false,
    }
}

/// What stands on the upgrade button: the price of the next character, or
/// that there is none to buy.
pub open spec fn upgrade_label(tier: Option<Tier>) -> Seq<char> {
    match tier {
        Some(t) => if t.successor() is Some {
            "Upgrade: $"@ + decimal(t.cost())
        } else {
            "Upgrade: Max"@
        },
        None => "Upgrade: Max"@,
    }
}

/// A bundle's button after it was handed the buyer's purse, drawn, and
/// updated.
pub open spec fn served(b: BulletButtonView, bullets: usize, money: usize, input: Input)
    -> BulletButtonView {
    BulletButtonView { bullets, money, button: b.button.after_draw(input), ..b }.updated(input)
}

/// The bundles after each was served in turn, the purse going from one to
/// the next; with them, the bullets and the money that the last one left.
pub open spec fn shopped(
    buttons: Seq<BulletButtonView>,
    bullets: usize,
    money: usize,
    input: Input,
) -> (Seq<BulletButtonView>, usize, usize)
    decreases buttons.len(),
{
    if buttons.len() == 0 {
        (Seq::empty(), bullets, money)
    } else {
        let (done, b, m) = shopped(buttons.drop_last(), bullets, money, input);
        let last = served(buttons.last(), b, m, input);
        (done.push(last), last.bullets, last.money)
    }
}

/// What the bundles draw, in turn.
pub open spec fn shop_commands(buttons: Seq<BulletButtonView>, input: Input) -> Seq<CommandView>
    decreases buttons.len(),
{
    if buttons.len() == 0 {
        Seq::empty()
    } else {
        shop_commands(buttons.drop_last(), input) + buttons.last().button.drawn(input)
    }
}

impl UpgradingView {
    pub open spec fn fresh(screen: Vec2, texture_size: Vec2) -> UpgradingView {
        UpgradingView {
            game_state: GameState::Upgrading,
            money: MoneyView::fresh(screen),
            bullets: BulletsView::fresh(),
            character: CharacterView {
                character: Tier::Apple.label(),
                can_set: true,
                texture: crate::platform::Texture::Display(Tier::Apple),
                texture_size,
            },
            upgrade_button: plain_button("Upgrade"@, UPGRADE_RISE, screen),
            buy_bullets_button: plain_button("Buy Bullets"@, BUY_RISE, screen),
            battle_button: plain_button("Battle"@, BATTLE_RISE, screen),
            buy_bullet_buttons: seq![
                BulletButtonView::fresh(1, 100, screen),
                BulletButtonView::fresh(2, 50, screen),
                BulletButtonView::fresh(3, 10, screen),
                BulletButtonView::fresh(4, 1, screen),
            ],
            can_press_buy_bullet_buttons: true,
            is_showing_buy_bullet_buttons: false,
        }
    }

    // ---- the screen's own buttons, the counters and the character ----

    /// The screen after its buttons, counters and character were drawn and
    /// the buttons put where they belong.
    pub open spec fn laid_out(self, input: Input) -> UpgradingView {
        let upgrade = self.upgrade_button.after_draw(input);
        let buy = self.buy_bullets_button.after_draw(input);
        UpgradingView {
            battle_button: self.battle_button.after_draw(input).placed(
                Vec2 { x: MARGIN, y: clamp(input.screen.y - BATTLE_RISE) as i32 },
                Vec2 { x: BUTTON_WIDTH, y: BUTTON_HEIGHT },
            ),
            upgrade_button: upgrade.placed(
                Vec2 { x: buy.rect.x, y: clamp(input.screen.y - UPGRADE_RISE) as i32 },
                Vec2 { x: upgrade.rect.w, y: upgrade.rect.h },
            ),
            buy_bullets_button: buy.placed(
                Vec2 { x: buy.rect.x, y: clamp(input.screen.y - BUY_RISE) as i32 },
                Vec2 { x: buy.rect.w, y: buy.rect.h },
            ),
            money: self.money.shown(input.screen),
            bullets: self.bullets.shown(),
            ..self
        }
    }

    pub open spec fn layout_commands(self, input: Input, display_size: Vec2) -> Seq<CommandView> {
        self.battle_button.drawn(input) + self.upgrade_button.drawn(input)
            + self.buy_bullets_button.drawn(input) + seq![
            self.money.shown(input.screen).text.drawn(),
            self.bullets.shown().text.drawn(),
            self.character.drawn(input.screen, display_size),
        ]
    }

    // ---- the next character ----

    /// The character that an upgrade would buy, if the equipped one has a
    /// tier and it is not the last.
    pub open spec fn on_offer(self) -> Option<Tier> {
        match self.character.tier() {
            Some(tier) => tier.successor(),
            None => None,
        }
    }

    /// What the upgrade costs: the price of the equipped tier.
    pub open spec fn price(self) -> nat {
        match self.character.tier() {
            Some(tier) => tier.cost(),
            None => 0,
        }
    }

    /// Whether this frame buys the next character: the button is pressed,
    /// this press has bought nothing yet, there is a next character, and the
    /// money suffices.
    pub open spec fn upgrades(self, input: Input) -> bool {
        &&& self.upgrade_button.pressed(input)
        &&& self.on_offer() is Some
        &&& self.character.can_set
        &&& self.money.money >= self.price()
    }

    /// The screen after the check for an upgrade. A purchase takes the
    /// price, equips the next character and lets the latch down; the latch
    /// goes up when the button is up.
    pub open spec fn after_upgrade(self, input: Input) -> UpgradingView {
        if self.upgrades(input) {
            UpgradingView {
                money: MoneyView { money: (self.money.money - self.price()) as usize, ..self.money },
                character: CharacterView {
                    can_set: false,
                    ..self.character.renamed(self.on_offer()->0.label())
                },
                ..self
            }
        } else if !self.upgrade_button.pressed(input) {
            UpgradingView { character: CharacterView { can_set: true, ..self.character }, ..self }
        } else {
            self
        }
    }

    // ---- back to the battle ----

    pub open spec fn after_battle_button(self, input: Input) -> UpgradingView {
        if self.battle_button.pressed(input) {
            UpgradingView { game_state: GameState::Battling, ..self }
        } else {
            self
        }
    }

    // ---- the label of the upgrade button ----

    pub open spec fn relabelled(self) -> UpgradingView {
        UpgradingView {
            upgrade_button: ButtonView {
                text: upgrade_label(self.character.tier()),
                ..self.upgrade_button
            },
            ..self
        }
    }

    // ---- the bundles ----

    /// The screen after the button that shows and hides the bundles was
    /// looked at: each press turns them on or off once.
    pub open spec fn toggled(self, input: Input) -> UpgradingView {
        let pressed = self.buy_bullets_button.pressed(input);
        UpgradingView {
            is_showing_buy_bullet_buttons: if pressed && self.can_press_buy_bullet_buttons {
                !self.is_showing_buy_bullet_buttons
            } else {
                self.is_showing_buy_bullet_buttons
            },
            can_press_buy_bullet_buttons: !pressed,
            ..self
        }
    }

    /// The screen after the bundles were served, if they are shown.
    pub open spec fn after_shop(self, input: Input) -> UpgradingView {
        let s = self.toggled(input);
        if s.is_showing_buy_bullet_buttons {
            let (buttons, bullets, money) = shopped(
                s.buy_bullet_buttons,
                s.bullets.bullets,
                s.money.money,
                input,
            );
            UpgradingView {
                buy_bullet_buttons: buttons,
                bullets: BulletsView { bullets, ..s.bullets },
                money: MoneyView { money, ..s.money },
                ..s
            }
        } else {
            s
        }
    }

    pub open spec fn after_shop_commands(self, input: Input) -> Seq<CommandView> {
        let s = self.toggled(input);
        if s.is_showing_buy_bullet_buttons {
            shop_commands(s.buy_bullet_buttons, input)
        } else {
            Seq::empty()
        }
    }

    // ---- the whole frame ----

    /// The screen after the frame.
    pub open spec fn stepped(self, input: Input) -> UpgradingView {
        self.laid_out(input).after_upgrade(input).after_battle_button(input).relabelled().after_shop(
            input,
        )
    }

    /// What the frame draws and plays, in order.
    pub open spec fn frame_commands(self, input: Input, display_size: Vec2) -> Seq<CommandView> {
        self.layout_commands(input, display_size) + self.laid_out(input).after_upgrade(
            input,
        ).after_battle_button(input).relabelled().after_shop_commands(input)
    }
}

impl Upgrading {
    fn plain(text: &str, rise: i32, screen: Vec2) -> (b: Button)
        ensures
            b@ == plain_button(text@, rise, screen),
    {
        Button::new(
            Vec2 { x: MARGIN, y: saturate(screen.y as i64 - rise as i64) },
            Vec2 { x: BUTTON_WIDTH, y: BUTTON_HEIGHT },
            String::from_str(text),
            Color::Gray,
            BUTTON_FONT_SIZE,
        )
    }

    /// The upgrade screen as a game starts, on a screen of the given size.
    pub fn new(screen: Vec2, texture_size: Vec2) -> (u: Self)
        ensures
            u@ == UpgradingView::fresh(screen, texture_size),
    {
        let mut bundles: Vec<BulletButton> = Vec::new();
        bundles.push(BulletButton::new(1, 100, screen));
        bundles.push(BulletButton::new(2, 50, screen));
        bundles.push(BulletButton::new(3, 10, screen));
        bundles.push(BulletButton::new(4, 1, screen));
        let u = Self {
            game_state: GameState::Upgrading,
            money: Money::new(screen),
            bullets: Bullets::new(),
            character: Character::new(texture_size),
            buy_bullet_buttons: bundles,
            upgrade_button: Self::plain("Upgrade", UPGRADE_RISE, screen),
            buy_bullets_button: Self::plain("Buy Bullets", BUY_RISE, screen),
            battle_button: Self::plain("Battle", BATTLE_RISE, screen),
            can_press_buy_bullet_buttons: true,
            is_showing_buy_bullet_buttons: false,
        };
        assert(u@.buy_bullet_buttons =~= UpgradingView::fresh(
            screen,
            texture_size,
        ).buy_bullet_buttons);
        u
    }

    /// Draws the screen's own buttons, the counters and the character, whose
    /// picture has the size `display_size`, and puts the buttons where they
    /// belong.
    fn lay_out(&mut self, input: &Input, display_size: Vec2) -> (out: Vec<Command>)
        ensures
            final(self)@ == old(self)@.laid_out(*input),
            views(out@) == old(self)@.layout_commands(*input, display_size),
    {
        let mut out = self.battle_button.draw(input);
        self.battle_button.update(
            Vec2 { x: MARGIN, y: saturate(input.screen.y as i64 - BATTLE_RISE as i64) },
            Vec2 { x: BUTTON_WIDTH, y: BUTTON_HEIGHT },
        );
        extend(&mut out, self.upgrade_button.draw(input));
        let size = self.upgrade_button.rect.size();
        self.upgrade_button.update(
            Vec2 {
                x: self.buy_bullets_button.rect.x,
                y: saturate(input.screen.y as i64 - UPGRADE_RISE as i64),
            },
            size,
        );
        extend(&mut out, self.buy_bullets_button.draw(input));
        let size = self.buy_bullets_button.rect.size();
        self.buy_bullets_button.update(
            Vec2 {
                x: self.buy_bullets_button.rect.x,
                y: saturate(input.screen.y as i64 - BUY_RISE as i64),
            },
            size,
        );
        emit(&mut out, self.money.draw(input.screen));
        emit(&mut out, self.bullets.draw());
        emit(&mut out, self.character.draw(input.screen, display_size));
        assert(views(out@) =~= old(self)@.layout_commands(*input, display_size));
        out
    }

    /// Buys the next character if the upgrade button asks for it and the
    /// money suffices.
    pub fn check_upgrade(&mut self, input: &Input)
        ensures
            final(self)@ == old(self)@.after_upgrade(*input),
    {
        let pressed = self.upgrade_button.is_pressed(input);
        let offer: Option<(Tier, Tier)> = match self.character.tier() {
            Some(tier) => match tier.next() {
                Some(next) => Some((tier, next)),
                None => None,
            },
            None => None,
        };
        match offer {
            Some((tier, next)) => {
                if pressed && self.character.can_set && self.money.money >= tier.price() {
                    self.money.money -= tier.price();
                    self.character.set(next.name());
                    self.character.can_set = false;
                    return ;
                }
            },
            None => {},
        }
        if !pressed {
            self.character.can_set = true;
        }
    }

    /// Goes back to the battle if the battle button is pressed.
    pub fn check_battle_button(&mut self, input: &Input)
        ensures
            final(self)@ == old(self)@.after_battle_button(*input),
    {
        if self.battle_button.is_pressed(input) {
            self.game_state = GameState::Battling;
        }
    }

    /// Writes the price of the next character on the upgrade button.
    pub fn set_upgrade_button_text(&mut self)
        ensures
            final(self)@ == old(self)@.relabelled(),
    {
        let priced: Option<Tier> = match self.character.tier() {
            Some(tier) => if tier.next().is_some() {
                Some(tier)
            } else {
                None
            },
            None => None,
        };
        self.upgrade_button.text = match priced {
            Some(tier) => numbered("Upgrade: $", tier.price()),
            None => String::from_str("Upgrade: Max"),
        };
    }

    /// Shows or hides the bundles when their button is pressed and, while
    /// they are shown, serves each in turn: hands it the purse, draws it,
    /// lets it sell, and takes the purse back.
    pub fn buy_bullet_buttons_stuff(&mut self, input: &Input) -> (out: Vec<Command>)
        ensures
            final(self)@ == old(self)@.after_shop(*input),
            views(out@) == old(self)@.after_shop_commands(*input),
    {
        let pressed = self.buy_bullets_button.is_pressed(input);
        if pressed && self.can_press_buy_bullet_buttons {
            self.is_showing_buy_bullet_buttons = !self.is_showing_buy_bullet_buttons;
        }
        self.can_press_buy_bullet_buttons = !pressed;
        let mut out = no_commands();
        if self.is_showing_buy_bullet_buttons {
            let ghost before = self@;
            let ghost all = before.buy_bullet_buttons;
            let mut i: usize = 0;
            assert(all.take(0) =~= Seq::<BulletButtonView>::empty());
            while i < self.buy_bullet_buttons.len()
                invariant
                    i <= self.buy_bullet_buttons.len(),
                    before == old(self)@.toggled(*input),
                    all == before.buy_bullet_buttons,
                    self.buy_bullet_buttons.len() == all.len(),
                    self@ == (UpgradingView {
                        buy_bullet_buttons: self@.buy_bullet_buttons,
                        bullets: BulletsView { bullets: self.bullets.bullets, ..before.bullets },
                        money: MoneyView { money: self.money.money, ..before.money },
                        ..before
                    }),
                    shopped(
                        all.take(i as int),
                        before.bullets.bullets,
                        before.money.money,
                        *input,
                    ) == (
                        self@.buy_bullet_buttons.take(i as int),
                        self.bullets.bullets,
                        self.money.money,
                    ),
                    forall|k: int| i <= k < all.len() ==> self@.buy_bullet_buttons[k] == all[k],
                    views(out@) == shop_commands(all.take(i as int), *input),
                decreases self.buy_bullet_buttons.len() - i,
            {
                let ghost seen = self@.buy_bullet_buttons;
                let mut button = self.buy_bullet_buttons.remove(i);
                assert(button@ == all[i as int]) by {
                    assert(seen[i as int] == all[i as int]);
                }
                button.bullets = self.bullets.bullets;
                button.money = self.money.money;
                extend(&mut out, button.draw(input));
                button.update(input);
                self.bullets.bullets = button.bullets;
                self.money.money = button.money;
                self.buy_bullet_buttons.insert(i, button);
                proof {
                    let now = self@.buy_bullet_buttons;
                    assert(all.take(i + 1).drop_last() =~= all.take(i as int));
                    assert(all.take(i + 1).last() == all[i as int]);
                    assert(now.len() == all.len());
                    assert forall|k: int| 0 <= k < now.len() && k != i implies now[k]
                        == seen[k] by {}
                    assert(now.take(i + 1) =~= seen.take(i as int).push(now[i as int]));
                }
                i += 1;
            }
            assert(all.take(i as int) =~= all);
            assert(self@.buy_bullet_buttons.take(i as int) =~= self@.buy_bullet_buttons);
        }
        out
    }

    /// One frame of the upgrade screen. `display_size` is the size of the
    /// picture of the equipped character.
    pub fn start(&mut self, input: &Input, display_size: Vec2) -> (out: Vec<Command>)
        ensures
            final(self)@ == old(self)@.stepped(*input),
            views(out@) == old(self)@.frame_commands(*input, display_size),
    {
        let mut out = self.lay_out(input, display_size);
        self.check_upgrade(input);
        self.check_battle_button(input);
        self.set_upgrade_button_text();
        extend(&mut out, self.buy_bullet_buttons_stuff(input));
        out
    }
}

/// The rule of the upgrade. A purchase happens only with a character that
/// has a tier other than the last and with money that covers the price of
/// that tier; it takes exactly that price and moves the character exactly one
/// rung up. Without a purchase, money and character stay as they are.
pub proof fn lemma_upgrade_rule(screen: UpgradingView, input: Input)
    ensures
        ({
            let after = screen.after_upgrade(input);
            &&& screen.upgrades(input) ==> {
                &&& screen.character.tier() matches Some(tier)
                &&& tier != Tier::Banana
                &&& screen.money.money >= tier.cost()
                &&& after.money.money == screen.money.money - tier.cost()
                &&& after.character.tier() matches Some(next)
                &&& next.rank() == tier.rank() + 1
                &&& after.character.texture == crate::platform::Texture::Display(next)
            }
            &&& !screen.upgrades(input) ==> {
                &&& after.money == screen.money
                &&& after.character.character == screen.character.character
                &&& after.character.texture == screen.character.texture
            }
            &&& (screen.character.tier() matches Some(tier) && screen.money.money < tier.cost())
                ==> !screen.upgrades(input)
            &&& screen.character.tier() == Some(Tier::Banana) ==> !screen.upgrades(input)
            &&& screen.character.tier() is None ==> !screen.upgrades(input)
        }),
{
    if screen.upgrades(input) {
        let tier = screen.character.tier()->0;
        let next = tier.successor()->0;
        lemma_name_finds_tier(next);
    }
}

/// One press buys one upgrade. After a purchase, frames in which the
/// button is still held change nothing, whatever the money.
pub proof fn lemma_one_upgrade_per_press(screen: UpgradingView, first: Input, second: Input)
    requires
        screen.upgrades(first),
        screen.after_upgrade(first).upgrade_button.pressed(second),
    ensures
        !screen.after_upgrade(first).upgrades(second),
        screen.after_upgrade(first).after_upgrade(second) == screen.after_upgrade(first),
{
}

/// The rule of a bundle. A purchase happens only with money that covers
/// the bundle; it takes exactly the bundle's price and, as far as the stock
/// can hold them, adds exactly the bundle's bullets. Without a purchase the
/// purse stays as it is.
pub proof fn lemma_bundle_rule(button: BulletButtonView, input: Input)
    ensures
        ({
            let after = button.updated(input);
            &&& button.sells(input) ==> {
                &&& button.money >= button.bullet_count
                &&& after.money == button.money - button.bullet_count
                &&& after.bullets == crate::objects::money::capped_sum(
                    button.bullets as int,
                    button.bullet_count as int,
                )
                &&& !after.can_press
            }
            &&& !button.sells(input) ==> after.money == button.money && after.bullets
                == button.bullets
        }),
{
}

/// The bundles never pay the buyer: after they were served, the money is
/// no more and the stock no less than before.
pub proof fn lemma_shop_only_sells(
    buttons: Seq<BulletButtonView>,
    bullets: usize,
    money: usize,
    input: Input,
)
    ensures
        shopped(buttons, bullets, money, input).2 <= money,
        shopped(buttons, bullets, money, input).1 >= bullets,
        shopped(buttons, bullets, money, input).0.len() == buttons.len(),
    decreases buttons.len(),
{
    if buttons.len() > 0 {
        lemma_shop_only_sells(buttons.drop_last(), bullets, money, input);
    }
}

/// A frame of the upgrade screen never adds money and never lowers the
/// character: the tier after the frame is the tier before or the next one up.
pub proof fn lemma_frame_only_spends(screen: UpgradingView, input: Input)
    ensures
        screen.stepped(input).money.money <= screen.money.money,
        screen.stepped(input).bullets.bullets >= screen.bullets.bullets,
        screen.character.tier() matches Some(tier) ==> {
            ||| screen.stepped(input).character.tier() == Some(tier)
            ||| screen.stepped(input).character.tier() == tier.successor()
        },
{
    let laid = screen.laid_out(input);
    lemma_upgrade_rule(laid, input);
    let marked = laid.after_upgrade(input).after_battle_button(input).relabelled().toggled(input);
    lemma_shop_only_sells(
        marked.buy_bullet_buttons,
        marked.bullets.bullets,
        marked.money.money,
        input,
    );
}

} // verus!
