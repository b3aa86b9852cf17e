use dreamcaller::ability_data::condition::Condition;
use dreamcaller::ability_data::effect::{Effect, EffectWithOptions};
use dreamcaller::ability_data::standard_effect::StandardEffect;
use dreamcaller::ability_data::trigger_event::TriggerEvent;
use dreamcaller::ability_data::triggered_ability::TriggeredAbility;
use dreamcaller::core_data::display_types::{
    AudioClipAddress, EffectAddress, FontAddress, Milliseconds, ProjectileAddress, SpriteAddress,
    TextureAddress, Url,
};
use dreamcaller::core_data::identifiers::CardId;
use dreamcaller::core_data::types::{CardFacing, PlayerName};
use dreamcaller::display_data::battle_view::{BattleView, ClientBattleId, PlayerView};
use dreamcaller::display_data::card_view::{CardView, ClientCardId};
use dreamcaller::display_data::command::{CommandSequence, UpdateBattleCommand};
use dreamcaller::display_data::object_position::{ObjectPosition, Position};
use dreamcaller::core_data::numerics::Points;

#[test]
fn effect_with_options_builders() {
    let unit = EffectWithOptions::new(StandardEffect::TakeExtraTurn);
    assert_eq!(
        unit,
        EffectWithOptions {
            effect: StandardEffect::TakeExtraTurn,
            optional: false,
            condition: None
        }
    );
    assert_eq!(unit.to_effect(), Effect::Effect(StandardEffect::TakeExtraTurn));
    let conditional = EffectWithOptions::new(StandardEffect::TakeExtraTurn)
        .with_condition(Condition::ThisCharacterIsInYourVoid);
    assert_eq!(conditional.condition, Some(Condition::ThisCharacterIsInYourVoid));
    assert!(!conditional.optional);
    assert_eq!(
        conditional.to_effect(),
        Effect::WithOptions(EffectWithOptions {
            effect: StandardEffect::TakeExtraTurn,
            optional: false,
            condition: Some(Condition::ThisCharacterIsInYourVoid),
        })
    );
    let optional = EffectWithOptions {
        effect: StandardEffect::YouWinTheGame,
        optional: true,
        condition: None,
    };
    assert!(matches!(optional.to_effect(), Effect::WithOptions(_)));
}

#[test]
fn triggered_ability_new_has_no_options() {
    let ability = TriggeredAbility::new(
        TriggerEvent::GainEnergy,
        Effect::Effect(StandardEffect::TakeExtraTurn),
    );
    assert_eq!(ability.trigger, TriggerEvent::GainEnergy);
    assert_eq!(ability.effect, Effect::Effect(StandardEffect::TakeExtraTurn));
    assert_eq!(ability.options, None);
}

#[test]
fn display_types_keep_their_value() {
    assert_eq!(Url::new("a/b".to_string()).url_value, "a/b");
    assert_eq!(ProjectileAddress::new("p".to_string()).projectile, "p");
    assert_eq!(EffectAddress::new("e".to_string()).effect, "e");
    assert_eq!(AudioClipAddress::new("a".to_string()).audio_clip, "a");
    assert_eq!(TextureAddress::new("t".to_string()).texture, "t");
    assert_eq!(SpriteAddress::new("s".to_string()).sprite, "s");
    assert_eq!(FontAddress::new("f".to_string()).font, "f");
    assert_eq!(Milliseconds::new(300).milliseconds_value, 300);
}

#[test]
fn card_id_splits_a_number_into_index_and_version() {
    let id = CardId::from_int(0x0000_0005_0000_0007);
    assert_eq!(id, CardId { idx: 7, version: 5 });
    assert_eq!(id.to_int(), 0x0000_0005_0000_0007);
    let even = CardId::from_int(0x0000_0004_ffff_ffff);
    assert_eq!(even, CardId { idx: 0xffff_ffff, version: 5 });
    assert_eq!(even.to_int(), 0x0000_0005_ffff_ffff);
    let zero = CardId::from_int(0);
    assert_eq!(zero, CardId { idx: 0, version: 1 });
    assert_eq!(zero.to_int(), 1 << 32);
    let max = CardId::from_int(u64::MAX);
    assert_eq!(max.to_int(), u64::MAX);
    assert_eq!(CardId::from_int(max.to_int()), max);
}

#[test]
fn object_position_default() {
    assert_eq!(
        ObjectPosition::default(),
        ObjectPosition { position: Position::Default, sorting_key: 0, sorting_sub_key: 0 }
    );
}

fn groups(sequence: &CommandSequence<u32>) -> Vec<Vec<u32>> {
    sequence.groups.iter().map(|g| g.commands.clone()).collect()
}

#[test]
fn command_sequences() {
    assert_eq!(groups(&CommandSequence::from_command(7)), vec![vec![7]]);
    assert_eq!(
        groups(&CommandSequence::sequential(vec![1, 2, 3])),
        vec![vec![1], vec![2], vec![3]]
    );
    assert_eq!(groups(&CommandSequence::sequential(vec![])), Vec::<Vec<u32>>::new());
    assert_eq!(groups(&CommandSequence::parallel(vec![1, 2, 3])), vec![vec![1, 2, 3]]);
    assert_eq!(
        groups(&CommandSequence::optional_sequential(vec![None, Some(4), None, Some(5), Some(6)])),
        vec![vec![4], vec![5], vec![6]]
    );
    assert_eq!(
        groups(&CommandSequence::optional_sequential(vec![None, None])),
        Vec::<Vec<u32>>::new()
    );
}

#[test]
fn update_battle_command_has_no_sound() {
    let battle = BattleView {
        id: ClientBattleId("b".to_string()),
        user: PlayerView { score: Points(0), can_act: true },
        enemy: PlayerView { score: Points(2), can_act: false },
        cards: vec![],
        status_description: "Status".to_string(),
        controls: vec![],
    };
    let command = UpdateBattleCommand::new(battle.clone());
    assert_eq!(command.battle, battle);
    assert_eq!(command.update_sound, None);
}

fn deck_card(player: PlayerName, sorting_key: u32, name: &str) -> CardView {
    CardView {
        id: ClientCardId::CardId(name.to_string()),
        position: ObjectPosition {
            position: Position::InDeck(player),
            sorting_key,
            sorting_sub_key: 0,
        },
        card_back: Url::new("back".to_string()),
        revealed: None,
        revealed_to_opponents: false,
        card_facing: CardFacing::FaceDown,
        create_position: None,
        destroy_position: None,
    }
}

#[test]
fn move_to_position_replaces_the_first_matching_card() {
    let battle = BattleView {
        id: ClientBattleId("b".to_string()),
        user: PlayerView { score: Points(0), can_act: true },
        enemy: PlayerView { score: Points(0), can_act: false },
        cards: vec![
            deck_card(PlayerName::Enemy, 7, "enemy"),
            deck_card(PlayerName::User, 6, "other key"),
            deck_card(PlayerName::User, 7, "first"),
            deck_card(PlayerName::User, 7, "second"),
        ],
        status_description: "Status".to_string(),
        controls: vec![],
    };
    let mut replacement = deck_card(PlayerName::User, 7, "moved");
    replacement.position.position = Position::InHand(PlayerName::User);
    let moved = battle.clone().move_to_position(7, replacement.clone());
    assert_eq!(moved.cards.len(), 4);
    assert_eq!(moved.cards[0], battle.cards[0]);
    assert_eq!(moved.cards[1], battle.cards[1]);
    assert_eq!(moved.cards[2], replacement);
    assert_eq!(moved.cards[3], battle.cards[3]);
    assert_eq!(moved.id, battle.id);
    let unchanged = battle.clone().move_to_position(8, replacement);
    assert_eq!(unchanged, battle);
}

#[test]
fn copies_are_equal_to_what_they_copy() {
    let texts = [
        "Until end of turn, whenever you play a character, draw a card.",
        "Draw a card. You may discard 2 cards. If you control 2 other characters, gain $1.",
        "$fastactivated $1, abandon a character: dissolve an enemy character with cost $2 or less.",
        "$materialized, $judgment: {kw: foresee} 2.",
        "You may play this event from your void for $1 by abandoning 2 characters. If you do, \
         gain 1 $point for each card you have drawn this turn.",
        "Dissolve an enemy character with cost less than or equal to the number of characters \
         you control.",
    ];
    for text in texts {
        let ability = dreamcaller::parser::ability_parser::parse(text).unwrap();
        let copy = ability.clone();
        assert_eq!(copy, ability);
    }
}
