use crate::core_data::numerics::Points;
use crate::core_data::types::PlayerName;
use crate::display_data::card_view::CardView;
use crate::display_data::object_position::Position;
use vstd::prelude::*;

verus! {

/// Represents the visual state of an ongoing dream battle
#[derive(Clone, Debug, PartialEq, Eq)]
pub struct BattleView {
    /// Unique identifier for this dream battle
    pub id: ClientBattleId,
    /// Player who is operating the client
    pub user: PlayerView,
    /// Opponent of user
    pub enemy: PlayerView,
    /// Visual state of cards in the game
    pub cards: Vec<CardView>,
    /// Describes the status of the game, e.g. which phase & step the game is in
    pub status_description: String,
    /// User interaction options
    pub controls: Vec<ControlView>,
}

/// True if `card` lies in the deck of the user under `sorting_key`.
pub open spec fn in_user_deck(card: CardView, sorting_key: u32) -> bool {
    card.position.position == Position::InDeck(PlayerName::User) && card.position.sorting_key
        == sorting_key
}

/// The index of the first of `cards` that lies in the deck of the user
/// under `sorting_key`, or the number of cards if there is none.
pub open spec fn first_in_user_deck(cards: Seq<CardView>, sorting_key: u32) -> int
    decreases cards.len(),
{
    if cards.len() == 0 {
        0
    } else if in_user_deck(cards[0], sorting_key) {
        0
    } else {
        1 + first_in_user_deck(cards.drop_first(), sorting_key)
    }
}

/// The first card in the deck of the user under `sorting_key` has index
/// `first_in_user_deck`, and no card before it lies there.
pub proof fn lemma_first_in_user_deck(cards: Seq<CardView>, sorting_key: u32)
    ensures
        0 <= first_in_user_deck(cards, sorting_key) <= cards.len(),
        forall|i: int|
            0 <= i < first_in_user_deck(cards, sorting_key) ==> !in_user_deck(
                #[trigger] cards[i],
                sorting_key,
            ),
        first_in_user_deck(cards, sorting_key) < cards.len() ==> in_user_deck(
            cards[first_in_user_deck(cards, sorting_key)],
            sorting_key,
        ),
    decreases cards.len(),
{
    if cards.len() > 0 && !in_user_deck(cards[0], sorting_key) {
        let rest = cards.drop_first();
        lemma_first_in_user_deck(rest, sorting_key);
        assert forall|i: int| 0 <= i < first_in_user_deck(cards, sorting_key) implies !in_user_deck(
            #[trigger] cards[i],
            sorting_key,
        ) by {
            if i > 0 {
                assert(cards[i] == rest[i - 1]);
            }
        }
        let first = first_in_user_deck(rest, sorting_key);
        if first < rest.len() {
            assert(cards[first + 1] == rest[first]);
        }
    }
}

impl BattleView {
    /// Puts `replacement` in the place of the first card that lies in the
    /// deck of the user under `sorting_key`. Without such a card, nothing
    /// changes.
    pub fn move_to_position(self, sorting_key: u32, replacement: CardView) -> (moved: BattleView)
        ensures
            moved.id == self.id,
            moved.user == self.user,
            moved.enemy == self.enemy,
            moved.status_description == self.status_description,
            moved.controls == self.controls,
            moved.cards@ == if first_in_user_deck(self.cards@, sorting_key) < self.cards@.len() {
                self.cards@.update(first_in_user_deck(self.cards@, sorting_key), replacement)
            } else {
                self.cards@
            },
    {
        let mut cards = self.cards;
        let mut i: usize = 0;
        proof {
            lemma_first_in_user_deck(cards@, sorting_key);
        }
        while i < cards.len()
            invariant
                i <= cards@.len(),
                cards@ == self.cards@,
                i <= first_in_user_deck(cards@, sorting_key) <= cards@.len(),
                forall|j: int|
                    0 <= j < first_in_user_deck(cards@, sorting_key) ==> !in_user_deck(
                        #[trigger] cards@[j],
                        sorting_key,
                    ),
                first_in_user_deck(cards@, sorting_key) < cards@.len() ==> in_user_deck(
                    cards@[first_in_user_deck(cards@, sorting_key)],
                    sorting_key,
                ),
            decreases cards@.len() - i,
        {
            let found = match cards[i].position.position {
                Position::InDeck(PlayerName::User) => cards[i].position.sorting_key == sorting_key,
                _ => false,
            };
            if found {
                cards.set(i, replacement);
                return BattleView {
                    id: self.id,
                    user: self.user,
                    enemy: self.enemy,
                    cards,
                    status_description: self.status_description,
                    controls: self.controls,
                };
            }
            i += 1;
        }
        BattleView {
            id: self.id,
            user: self.user,
            enemy: self.enemy,
            cards,
            status_description: self.status_description,
            controls: self.controls,
        }
    }
}

/// Identifies a battle in client code
#[derive(Clone, Debug, PartialEq, Eq)]
pub struct ClientBattleId(pub String);

/// User interaction options
#[derive(Clone, Debug, PartialEq, Eq)]
pub enum ControlView {
    Button(ButtonView),
}

/// Button to perform some game action
#[derive(Clone, Debug, PartialEq, Eq)]
pub struct ButtonView {
    pub label: String,
    pub kind: ButtonKind,
}

/// Controls color for buttons
#[derive(Clone, Copy, Debug, Eq, PartialEq, Hash, Structural)]
pub enum ButtonKind {
    /// Emphasized button, primary game action
    Primary,
    /// Deemphasized button, additional game actions
    Default,
}

/// Identifies a player in the context of the user interface.
#[derive(Clone, Debug, Eq, PartialEq, Copy, Hash, Ord, PartialOrd, Structural)]
pub enum DisplayPlayer {
    /// Player who is currently operating the client
    User,
    /// Opponent of user, i.e. the AI enemy
    Enemy,
}

/// Represents the visual state of a player in a game
#[derive(Clone, Copy, Debug, Eq, PartialEq, Hash, Structural)]
pub struct PlayerView {
    /// Current score total
    pub score: Points,
    /// Can this player currently take a game action?
    pub can_act: bool,
}

} // verus!
