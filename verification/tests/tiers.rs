use banana_man::math::Vec2;
use banana_man::platform::{Command, Texture};
use banana_man::tier::Tier;
use banana_man::upgrading::character::Character;

#[test]
fn every_tier_is_found_under_its_name() {
    for tier in [Tier::Apple, Tier::Orange, Tier::Pear, Tier::Pineapple, Tier::Banana] {
        assert_eq!(Tier::from_name(&tier.name()), Some(tier));
    }
    assert_eq!(Tier::Apple.name(), "Apple");
    assert_eq!(Tier::Pineapple.name(), "Pineapple");
}

#[test]
fn a_name_on_no_rung_has_no_tier() {
    assert_eq!(Tier::from_name(&"Kiwi".to_string()), None);
    assert_eq!(Tier::from_name(&"apple".to_string()), None);
    assert_eq!(Tier::from_name(&String::new()), None);
}

#[test]
fn the_ladder_goes_up_one_rung_at_a_time() {
    assert_eq!(Tier::Apple.next(), Some(Tier::Orange));
    assert_eq!(Tier::Orange.next(), Some(Tier::Pear));
    assert_eq!(Tier::Pear.next(), Some(Tier::Pineapple));
    assert_eq!(Tier::Pineapple.next(), Some(Tier::Banana));
    assert_eq!(Tier::Banana.next(), None);
}

#[test]
fn prices_of_the_tiers() {
    assert_eq!(Tier::Apple.price(), 100);
    assert_eq!(Tier::Orange.price(), 100);
    assert_eq!(Tier::Pear.price(), 500);
    assert_eq!(Tier::Pineapple.price(), 1_000);
    assert_eq!(Tier::Banana.price(), 10_000);
}

#[test]
fn rewards_are_a_hundredth_to_a_tenth_of_the_price() {
    for tier in [Tier::Apple, Tier::Orange, Tier::Pear, Tier::Pineapple, Tier::Banana] {
        let (least, greatest) = tier.reward_range();
        assert_eq!(least as usize, tier.price() / 100);
        assert_eq!(greatest as usize, tier.price() / 10);
    }
    assert_eq!(Tier::Pear.reward_range(), (5, 50));
}

#[test]
fn the_first_character_is_the_apple() {
    let c = Character::new(Vec2 { x: 50_000, y: 60_000 });
    assert_eq!(c.character, "Apple");
    assert!(c.can_set);
    assert_eq!(c.texture, Texture::Display(Tier::Apple));
    assert_eq!(c.texture_size, Vec2 { x: 50_000, y: 60_000 });
    assert_eq!(c.tier(), Some(Tier::Apple));
}

#[test]
fn set_equips_a_character_by_name() {
    let mut c = Character::new(Vec2 { x: 50_000, y: 60_000 });
    c.set("Pear".to_string());
    assert_eq!(c.character, "Pear");
    assert_eq!(c.texture, Texture::Display(Tier::Pear));
    assert_eq!(c.tier(), Some(Tier::Pear));
    assert!(c.can_set);
}

#[test]
fn set_with_a_name_on_no_rung_keeps_the_picture() {
    let mut c = Character::new(Vec2 { x: 50_000, y: 60_000 });
    c.set("Kiwi".to_string());
    assert_eq!(c.character, "Kiwi");
    assert_eq!(c.texture, Texture::Display(Tier::Apple));
    assert_eq!(c.tier(), None);
}

#[test]
fn the_character_is_drawn_in_the_middle() {
    let c = Character::new(Vec2 { x: 50_000, y: 60_000 });
    assert_eq!(
        c.draw(Vec2 { x: 800_000, y: 600_000 }, Vec2 { x: 100_000, y: 80_000 }),
        Command::Texture { texture: Texture::Display(Tier::Apple), x: 350_000, y: 260_000 }
    );
    assert_eq!(c.duplicate(), c);
}
