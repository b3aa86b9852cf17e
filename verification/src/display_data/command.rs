use crate::core_data::display_types::{
    AudioClipAddress, EffectAddress, Milliseconds, ProjectileAddress,
};
use crate::core_data::identifiers::CardId;
use crate::core_data::numerics::Points;
use crate::core_data::types::PlayerName;
use crate::display_data::battle_view::BattleView;
use crate::display_data::card_view::CardView;
use crate::display_data::object_position::ObjectPosition;
use vstd::prelude::*;

verus! {

/// A list of [ParallelCommandGroup]s to execute sequentially. The kind of
/// command is left open, so that a client can add commands of its own.
#[derive(Clone, Debug)]
pub struct CommandSequence<C> {
    pub groups: Vec<ParallelCommandGroup<C>>,
}

/// A set of commands to execute simultaneously.
#[derive(Clone, Debug)]
pub struct ParallelCommandGroup<C> {
    pub commands: Vec<C>,
}

/// The groups of a sequence, each as the sequence of its commands.
pub open spec fn groups_of<C>(sequence: CommandSequence<C>) -> Seq<Seq<C>> {
    Seq::new(sequence.groups@.len(), |i: int| sequence.groups@[i].commands@)
}

/// The commands that are present in a list of optional commands, in order.
pub open spec fn present<C>(items: Seq<Option<C>>) -> Seq<C>
    decreases items.len(),
{
    if items.len() == 0 {
        Seq::empty()
    } else {
        let before = present(items.drop_last());
        match items.last() {
            Some(command) => before.push(command),
            None => before,
        }
    }
}

impl<C> CommandSequence<C> {
    /// A sequence of one group that holds `command` alone.
    pub fn from_command(command: C) -> (made: Self)
        ensures
            groups_of(made) == seq![seq![command]],
    {
        let mut commands: Vec<C> = Vec::new();
        commands.push(command);
        let mut groups: Vec<ParallelCommandGroup<C>> = Vec::new();
        groups.push(ParallelCommandGroup { commands });
        let made = Self { groups };
        proof {
            assert(made.groups@[0].commands@ =~= seq![command]);
            assert(groups_of(made) =~= seq![seq![command]]);
        }
        made
    }

    /// One group for each command, in the order given: the commands run one
    /// after the other.
    pub fn sequential(sequence: Vec<C>) -> (made: Self)
        ensures
            groups_of(made) == Seq::new(sequence@.len(), |i: int| seq![sequence@[i]]),
    {
        let ghost given = sequence@;
        let mut rest = sequence;
        let mut reversed: Vec<ParallelCommandGroup<C>> = Vec::new();
        while rest.len() > 0
            invariant
                rest@.len() + reversed@.len() == given.len(),
                rest@ == given.subrange(0, rest@.len() as int),
                forall|i: int|
                    0 <= i < reversed@.len() ==> #[trigger] reversed@[i].commands@ == seq![
                        given[given.len() - 1 - i],
                    ],
            decreases rest@.len(),
        {
            let command = rest.pop().unwrap();
            let mut commands: Vec<C> = Vec::new();
            commands.push(command);
            proof {
                assert(commands@ =~= seq![command]);
                assert(rest@ =~= given.subrange(0, rest@.len() as int));
            }
            reversed.push(ParallelCommandGroup { commands });
        }
        let mut groups: Vec<ParallelCommandGroup<C>> = Vec::new();
        while reversed.len() > 0
            invariant
                groups@.len() + reversed@.len() == given.len(),
                forall|i: int|
                    0 <= i < reversed@.len() ==> #[trigger] reversed@[i].commands@ == seq![
                        given[given.len() - 1 - i],
                    ],
                forall|i: int|
                    0 <= i < groups@.len() ==> #[trigger] groups@[i].commands@ == seq![given[i]],
            decreases reversed@.len(),
        {
            let group = reversed.pop().unwrap();
            groups.push(group);
        }
        let made = Self { groups };
        proof {
            assert(groups_of(made) =~= Seq::new(given.len(), |i: int| seq![given[i]]));
        }
        made
    }

    /// One group that holds all the commands: they run at the same time.
    pub fn parallel(commands: Vec<C>) -> (made: Self)
        ensures
            groups_of(made) == seq![commands@],
    {
        let mut groups: Vec<ParallelCommandGroup<C>> = Vec::new();
        groups.push(ParallelCommandGroup { commands });
        let made = Self { groups };
        proof {
            assert(groups_of(made) =~= seq![commands@]);
        }
        made
    }

    /// One group for each command that is present, in the order given.
    pub fn optional_sequential(sequence: Vec<Option<C>>) -> (made: Self)
        ensures
            groups_of(made) == Seq::new(
                present(sequence@).len(),
                |i: int| seq![present(sequence@)[i]],
            ),
    {
        let ghost given = sequence@;
        let mut rest = sequence;
        let mut kept: Vec<C> = Vec::new();
        let mut reversed: Vec<Option<C>> = Vec::new();
        while rest.len() > 0
            invariant
                rest@.len() + reversed@.len() == given.len(),
                rest@ == given.subrange(0, rest@.len() as int),
                forall|i: int|
                    0 <= i < reversed@.len() ==> #[trigger] reversed@[i] == given[given.len() - 1
                        - i],
            decreases rest@.len(),
        {
            let item = rest.pop().unwrap();
            proof {
                assert(rest@ =~= given.subrange(0, rest@.len() as int));
            }
            reversed.push(item);
        }
        proof {
            assert(given.subrange(0, 0) =~= Seq::<Option<C>>::empty());
        }
        while reversed.len() > 0
            invariant
                reversed@.len() <= given.len(),
                forall|i: int|
                    0 <= i < reversed@.len() ==> #[trigger] reversed@[i] == given[given.len() - 1
                        - i],
                kept@ == present(given.subrange(0, given.len() - reversed@.len())),
            decreases reversed@.len(),
        {
            let ghost done = given.len() - reversed@.len();
            let item = reversed.pop().unwrap();
            proof {
                assert(item == given[done]);
                let longer = given.subrange(0, done + 1);
                assert(longer.drop_last() =~= given.subrange(0, done));
                assert(longer.last() == given[done]);
            }
            match item {
                Some(command) => {
                    kept.push(command);
                },
                None => {},
            }
        }
        proof {
            assert(given.subrange(0, given.len() as int) =~= given);
        }
        Self::sequential(kept)
    }
}

/// Announces a turn or the end of the game.
#[derive(Clone, Copy, Debug, PartialEq, Eq, Structural)]
pub enum GameMessageType {
    YourTurn,
    EnemyTurn,
    Victory,
    Defeat,
}

/// Identifies an object that an animation starts from or ends at.
#[derive(Clone, Copy, Debug, PartialEq, Eq, Structural)]
pub enum GameObjectId {
    CardId(CardId),
    Deck(PlayerName),
    Void(PlayerName),
    Avatar(PlayerName),
}

/// Replaces what the client shows of a battle.
#[derive(Clone, Debug, PartialEq, Eq)]
pub struct UpdateBattleCommand {
    /// The battle to update.
    pub battle: BattleView,
    /// Sound to play when the battle is updated.
    pub update_sound: Option<AudioClipAddress>,
}

impl UpdateBattleCommand {
    /// An update without a sound.
    pub fn new(battle: BattleView) -> (made: Self)
        ensures
            made.battle == battle,
            made.update_sound is None,
    {
        Self { battle, update_sound: None }
    }
}

/// Fires a projectile from one object at another.
#[derive(Clone, Debug, PartialEq, Eq)]
pub struct FireProjectileCommand {
    /// The source to fire the projectile from.
    pub source_id: GameObjectId,
    /// The target to fire the projectile to.
    pub target_id: GameObjectId,
    /// Projectile to fire from the 'source_id' card to 'target_id'
    pub projectile: ProjectileAddress,
    /// How long the projectile should take to hit its target. Defaults to 300ms.
    pub travel_duration: Option<Milliseconds>,
    /// Sound to play when the projectile is fired.
    pub fire_sound: Option<AudioClipAddress>,
    /// Sound to play when the projectile hits its target.
    pub impact_sound: Option<AudioClipAddress>,
    /// Additional effect to display on the target on hit.
    pub additional_hit: Option<EffectAddress>,
    /// Delay before showing the additional hit. If provided, the hit effect of
    /// the projectile itself will be hidden before showing the new hit effect.
    pub additional_hit_delay: Option<Milliseconds>,
    /// During to wait for the project's impact effect before continuing
    pub wait_duration: Option<Milliseconds>,
    /// If true, the target will be hidden after being hit during the
    /// 'wait_duration' and before jumping to 'jump_to_position'.
    pub hide_on_hit: bool,
    /// Position for the target to jump to after being hit.
    pub jump_to_position: Option<ObjectPosition>,
}

/// Dissolves a card, or brings a dissolved card back.
#[derive(Clone, Copy, Debug, PartialEq, Eq, Structural)]
pub struct DissolveCardCommand {
    /// The card to dissolve.
    ///
    /// Once a card is dissolved, it will be invisible until a reverse dissolve
    /// is applied to it.
    pub target: CardId,
    /// If true, dissolve will be played backwards to "create" the card.
    pub reverse: bool,
}

/// Shows the cards that the user draws.
#[derive(Clone, Debug, PartialEq, Eq)]
pub struct DrawUserCardsCommand {
    /// Cards to draw. Must already be present in user deck.
    pub cards: Vec<CardView>,
    /// Time to wait between drawing subsequent cards.
    pub stagger_interval: Milliseconds,
    /// Time to display each card before moving it to hand.
    ///
    /// Should be less than stagger_interval for best results.
    pub pause_duration: Milliseconds,
}

/// Shows the judgment animation of a player.
#[derive(Clone, Copy, Debug, PartialEq, Eq, Structural)]
pub struct DisplayJudgmentCommand {
    /// The player to display the judgment animation for.
    pub player: PlayerName,
    /// The new score for the player, if it has changed.
    pub new_score: Option<Points>,
}

} // verus!
