//! The game as a whole: five screens, one of them active, and the music.

use crate::math::Vec2;
use crate::platform::{
    emit, extend, no_commands, views, Color, Command, CommandView, Input, Sound, Sprites,
};
use crate::states::battling::{Battling, BattlingView, Location};
use crate::states::dead::{Dead, DeadView};
use crate::states::game_state::GameState;
use crate::states::menu::{Menu, MenuView};
use crate::states::tutorial::{Tutorial, TutorialView};
use crate::states::upgrading::{Upgrading, UpgradingView};
use vstd::prelude::*;

verus! {

/// How long the theme plays, in microseconds.
pub const MUSIC_TIME: u32 = 13000000;

/// The microseconds in a second.
pub const SECOND: u32 = 1000000;

/// How loud the theme is, in percent.
pub const MUSIC_VOLUME: u8 = 50;

#[derive(Clone, Debug, PartialEq, Eq)]
pub struct Game {
    /// The active screen.
    pub game_state: GameState,
    pub battling: Battling,
    pub upgrading: Upgrading,
    pub menu: Menu,
    pub dead: Dead,
    pub tutorial: Tutorial,
    /// The microseconds until the theme starts again.
    pub music_timer: u32,
}

pub struct GameView {
    pub game_state: GameState,
    pub battling: BattlingView,
    pub upgrading: UpgradingView,
    pub menu: MenuView,
    pub dead: DeadView,
    pub tutorial: TutorialView,
    pub music_timer: u32,
}

impl View for Game {
    type V = GameView;

    open spec fn view(&self) -> GameView {
        GameView {
            game_state: self.game_state,
            battling: self.battling@,
            upgrading: self.upgrading@,
            menu: self.menu@,
            dead: self.dead@,
            tutorial: self.tutorial@,
            music_timer: self.music_timer,
        }
    }
}

/// The time that one frame takes off the countdown at the given rate of
/// frames; without a rate, all of it.
pub open spec fn music_step(timer: u32, fps: u32) -> int {
    if fps == 0 {
        timer as int
    } else {
        SECOND as int / fps as int
    }
}

/// The countdown after a frame: started anew when it has run out, else
/// shortened by the frame, but not below zero.
pub open spec fn music_after(timer: u32, fps: u32) -> u32 {
    if timer == 0 {
        MUSIC_TIME
    } else if music_step(timer, fps) >= timer {
        0
    } else {
        (timer - music_step(timer, fps)) as u32
    }
}

/// The theme starts when the countdown has run out.
pub open spec fn music_commands(timer: u32) -> Seq<CommandView> {
    if timer == 0 {
        seq![CommandView::Play { sound: Sound::Theme, volume: MUSIC_VOLUME }]
    } else {
        Seq::empty()
    }
}

/// The commands that silence the theme.
pub open spec fn silence() -> Seq<CommandView> {
    seq![CommandView::Stop { sound: Sound::Theme }]
}

/// Every frame starts on a green screen.
pub open spec fn backdrop() -> Seq<CommandView> {
    seq![CommandView::Clear { color: Color::Green }]
}

impl GameView {
    /// The state that the active screen itself is in. When it differs from
    /// the active state, the screen asks to give way to another.
    pub open spec fn own_state(self) -> GameState {
        match self.game_state {
            GameState::Menu => self.menu.game_state,
            GameState::Dead => self.dead.game_state,
            GameState::Battling => self.battling.game_state,
            GameState::Upgrading => self.upgrading.game_state,
            GameState::Tutorial => self.tutorial.game_state,
        }
    }

    /// The game after `target` became the active screen. The screen that
    /// takes over is told that it is itself.
    pub open spec fn switched(self, target: GameState) -> GameView {
        let s = GameView { game_state: target, ..self };
        match target {
            GameState::Menu => GameView {
                menu: MenuView { game_state: GameState::Menu, ..s.menu },
                ..s
            },
            GameState::Dead => GameView {
                dead: DeadView { game_state: GameState::Dead, ..s.dead },
                ..s
            },
            GameState::Battling => GameView {
                battling: BattlingView { game_state: GameState::Battling, ..s.battling },
                ..s
            },
            GameState::Upgrading => GameView {
                upgrading: UpgradingView { game_state: GameState::Upgrading, ..s.upgrading },
                ..s
            },
            GameState::Tutorial => GameView {
                tutorial: TutorialView { game_state: GameState::Tutorial, ..s.tutorial },
                ..s
            },
        }
    }

    /// The game before a frame of battle: the upgrade screen has learned the
    /// purse of the battle, the battle the character of the upgrade screen,
    /// and the music has moved on.
    pub open spec fn ready_to_battle(self, input: Input) -> GameView {
        GameView {
            upgrading: UpgradingView {
                money: self.battling.money,
                bullets: self.battling.bullet_count,
                ..self.upgrading
            },
            battling: BattlingView { character: self.upgrading.character, ..self.battling },
            music_timer: music_after(self.music_timer, input.fps),
            ..self
        }
    }

    /// The game before a frame of the upgrade screen: the battle has
    /// learned the purse of the upgrade screen, and the music has moved on.
    pub open spec fn ready_to_upgrade(self, input: Input) -> GameView {
        GameView {
            battling: BattlingView {
                money: self.upgrading.money,
                bullet_count: self.upgrading.bullets,
                ..self.battling
            },
            music_timer: music_after(self.music_timer, input.fps),
            ..self
        }
    }

    /// Whether chance may decide the frame so. Chance has a say only in a
    /// frame of battle.
    pub open spec fn possible(
        self,
        input: Input,
        spawn: Option<(Location, i32)>,
        rewards: Seq<usize>,
    ) -> bool {
        if self.own_state() == self.game_state && self.game_state == GameState::Battling {
            self.ready_to_battle(input).battling.possible(input, spawn, rewards)
        } else {
            spawn is None && rewards.len() == 0
        }
    }

    /// The game after the frame. A screen that asks to give way is replaced
    /// and nothing else happens; else the active screen has its frame.
    pub open spec fn stepped(
        self,
        input: Input,
        spawn: Option<(Location, i32)>,
        rewards: Seq<usize>,
    ) -> GameView {
        if self.own_state() != self.game_state {
            self.switched(self.own_state())
        } else {
            match self.game_state {
                GameState::Battling => {
                    let s = self.ready_to_battle(input);
                    GameView { battling: s.battling.stepped(input, spawn, rewards), ..s }
                },
                GameState::Upgrading => {
                    let s = self.ready_to_upgrade(input);
                    GameView { upgrading: s.upgrading.stepped(input), ..s }
                },
                GameState::Menu => GameView {
                    menu: self.menu.stepped(input),
                    music_timer: 0,
                    ..self
                },
                GameState::Dead => GameView {
                    dead: DeadView {
                        out_of_bullets: self.battling.out_of_bullets,
                        ..self.dead
                    }.stepped(input),
                    music_timer: 0,
                    ..self
                },
                GameState::Tutorial => GameView {
                    tutorial: self.tutorial.stepped(input),
                    ..self
                },
            }
        }
    }

    /// What the frame draws and plays, in order.
    pub open spec fn frame_commands(
        self,
        input: Input,
        display_size: Vec2,
        picture_size: Vec2,
        spawn: Option<(Location, i32)>,
        rewards: Seq<usize>,
    ) -> Seq<CommandView> {
        if self.own_state() != self.game_state {
            backdrop()
        } else {
            match self.game_state {
                GameState::Battling => backdrop() + music_commands(self.music_timer)
                    + self.ready_to_battle(input).battling.frame_commands(input, spawn, rewards),
                GameState::Upgrading => backdrop() + music_commands(self.music_timer)
                    + self.ready_to_upgrade(input).upgrading.frame_commands(input, display_size),
                GameState::Menu => backdrop() + silence() + self.menu.frame_commands(input),
                GameState::Dead => backdrop() + silence() + DeadView {
                    out_of_bullets: self.battling.out_of_bullets,
                    ..self.dead
                }.frame_commands(input),
                GameState::Tutorial => backdrop() + self.tutorial.frame_commands(
                    input,
                    picture_size,
                ),
            }
        }
    }
}

impl Game {
    /// A new game, at the menu, on a screen of the given size.
    pub fn new(screen: Vec2, sprites: Sprites) -> (g: Self)
        ensures
            g.game_state == GameState::Menu,
            g.music_timer == 0,
            g@.own_state() == GameState::Menu,
            g@.battling == BattlingView::fresh(screen, sprites, g.battling.player, g.battling.gun),
            g@.upgrading == UpgradingView::fresh(screen, sprites.player),
            g@.menu == MenuView::fresh(screen),
            g@.dead == DeadView::fresh(screen),
            g@.tutorial == TutorialView::fresh(screen),
    {
        Self {
            game_state: GameState::Menu,
            battling: Battling::new(screen, sprites),
            upgrading: Upgrading::new(screen, sprites.player),
            menu: Menu::new(screen),
            dead: Dead::new(screen),
            tutorial: Tutorial::new(screen),
            music_timer: 0,
        }
    }

    /// The state that the active screen itself is in.
    pub fn own_state(&self) -> (s: GameState)
        ensures
            s == self@.own_state(),
    {
        match self.game_state {
            GameState::Menu => self.menu.game_state,
            GameState::Dead => self.dead.game_state,
            GameState::Battling => self.battling.game_state,
            GameState::Upgrading => self.upgrading.game_state,
            GameState::Tutorial => self.tutorial.game_state,
        }
    }

    /// Makes `target` the active screen.
    pub fn switch_to(&mut self, target: GameState)
        ensures
            final(self)@ == old(self)@.switched(target),
    {
        self.game_state = target;
        match target {
            GameState::Menu => {
                self.menu.game_state = GameState::Menu;
            },
            GameState::Dead => {
                self.dead.game_state = GameState::Dead;
            },
            GameState::Battling => {
                self.battling.game_state = GameState::Battling;
            },
            GameState::Upgrading => {
                self.upgrading.game_state = GameState::Upgrading;
            },
            GameState::Tutorial => {
                self.tutorial.game_state = GameState::Tutorial;
            },
        }
    }

    /// Lets a frame pass for the music: starts the theme when the countdown
    /// has run out, else shortens the countdown.
    fn play_music(&mut self, fps: u32) -> (out: Vec<Command>)
        ensures
            final(self)@ == (GameView {
                music_timer: music_after(old(self).music_timer, fps),
                ..old(self)@
            }),
            views(out@) == music_commands(old(self).music_timer),
    {
        let mut out = no_commands();
        if self.music_timer == 0 {
            emit(&mut out, Command::Play { sound: Sound::Theme, volume: MUSIC_VOLUME });
            self.music_timer = MUSIC_TIME;
            assert(views(out@) =~= music_commands(old(self).music_timer));
        } else {
            let step: u32 = if fps == 0 {
                self.music_timer
            } else {
                SECOND / fps
            };
            self.music_timer = if step >= self.music_timer {
                0
            } else {
                self.music_timer - step
            };
        }
        out
    }

    /// One frame of the game. `display_size` is the size of the picture of
    /// the equipped character, `picture_size` the size of the picture on the
    /// open page of the tutorial.
    pub fn frame(&mut self, input: &Input, display_size: Vec2, picture_size: Vec2) -> (out: Vec<
        Command,
    >)
        ensures
            exists|spawn: Option<(Location, i32)>, rewards: Seq<usize>|
                {
                    &&& old(self)@.possible(*input, spawn, rewards)
                    &&& final(self)@ == old(self)@.stepped(*input, spawn, rewards)
                    &&& views(out@) == old(self)@.frame_commands(
                        *input,
                        display_size,
                        picture_size,
                        spawn,
                        rewards,
                    )
                },
    {
        let mut out = no_commands();
        emit(&mut out, Command::Clear { color: Color::Green });
        assert(views(out@) =~= backdrop());
        let ghost mut spawn: Option<(Location, i32)> = None;
        let ghost mut rewards: Seq<usize> = Seq::empty();
        let own = self.own_state();
        if own != self.game_state {
            self.switch_to(own);
        } else {
            match self.game_state {
                GameState::Battling => {
                    self.upgrading.money = self.battling.money.duplicate();
                    self.upgrading.bullets = self.battling.bullet_count.duplicate();
                    self.battling.character = self.upgrading.character.duplicate();
                    extend(&mut out, self.play_music(input.fps));
                    let ghost ready = self@;
                    assert(ready == old(self)@.ready_to_battle(*input));
                    let battle = self.battling.start(input);
                    proof {
                        let pair = choose|s: Option<(Location, i32)>, r: Seq<usize>|
                            {
                                &&& ready.battling.possible(*input, s, r)
                                &&& self.battling@ == ready.battling.stepped(*input, s, r)
                                &&& views(battle@) == ready.battling.frame_commands(*input, s, r)
                            };
                        spawn = pair.0;
                        rewards = pair.1;
                    }
                    extend(&mut out, battle);
                },
                GameState::Upgrading => {
                    self.battling.money = self.upgrading.money.duplicate();
                    self.battling.bullet_count = self.upgrading.bullets.duplicate();
                    extend(&mut out, self.play_music(input.fps));
                    extend(&mut out, self.upgrading.start(input, display_size));
                },
                GameState::Menu => {
                    emit(&mut out, Command::Stop { sound: Sound::Theme });
                    assert(views(out@) =~= backdrop() + silence());
                    self.music_timer = 0;
                    extend(&mut out, self.menu.start(input));
                },
                GameState::Dead => {
                    self.dead.out_of_bullets = self.battling.out_of_bullets;
                    emit(&mut out, Command::Stop { sound: Sound::Theme });
                    assert(views(out@) =~= backdrop() + silence());
                    self.music_timer = 0;
                    extend(&mut out, self.dead.start(input));
                },
                GameState::Tutorial => {
                    extend(&mut out, self.tutorial.start(input, picture_size));
                },
            }
        }
        assert(old(self)@.possible(*input, spawn, rewards));
        assert(self@ == old(self)@.stepped(*input, spawn, rewards));
        assert(views(out@) == old(self)@.frame_commands(
            *input,
            display_size,
            picture_size,
            spawn,
            rewards,
        ));
        out
    }
}

/// After every frame the active screen is one of the five, and the frame
/// either lets the active screen act or replaces it by the one it asked
/// for: a frame that replaces the screen leaves the new screen in its own
/// state, so that the next frame is its.
pub proof fn lemma_switch_settles(game: GameView, input: Input)
    requires
        game.own_state() != game.game_state,
    ensures
        ({
            let after = game.stepped(input, None, Seq::empty());
            &&& after.game_state == game.own_state()
            &&& after.own_state() == after.game_state
            &&& after.music_timer == game.music_timer
        }),
{
}

} // verus!
