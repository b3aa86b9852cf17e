use crate::ability_data::predicate::Predicate;
use vstd::prelude::*;

verus! {

/// Describes possible game events which may cause a triggered ability to
/// trigger.
#[derive(Debug, PartialEq, Eq)]
pub enum TriggerEvent {
    Abandon(Predicate),
    Banished(Predicate),
    Discard(Predicate),
    Dissolved(Predicate),
    DrawAllCardsInCopyOfDeck,
    EndOfYourTurn,
    GainEnergy,
    Keywords(Vec<TriggerKeyword>),
    Materialize(Predicate),
    MaterializeNthThisTurn(Predicate, u64),
    Play(Predicate),
    PlayFromHand(Predicate),
}

/// A trigger that card text names by a keyword.
#[derive(Debug, Copy, Clone, PartialEq, Eq, Structural)]
pub enum TriggerKeyword {
    Materialized,
    Judgment,
    Dissolved,
}

/// Mathematical model of a [`TriggerEvent`]: the keywords as a sequence;
/// every other event is plain data and stands for itself.
pub enum TriggerEventModel {
    Keywords(Seq<TriggerKeyword>),
    Plain(TriggerEvent),
}

impl TriggerEvent {
    /// True if the keywords of a keyword trigger are an ordered set: at
    /// least one, none twice.
    pub open spec fn well_formed(self) -> bool {
        match self {
            TriggerEvent::Keywords(keywords) => keywords@.len() > 0 && keywords@.no_duplicates(),
            _ => true,
        }
    }
}

impl View for TriggerEvent {
    type V = TriggerEventModel;

    open spec fn view(&self) -> TriggerEventModel {
        match *self {
            TriggerEvent::Keywords(keywords) => TriggerEventModel::Keywords(keywords@),
            _ => TriggerEventModel::Plain(*self),
        }
    }
}

impl Clone for TriggerEvent {
    /// A copy of the event, with the same model. It is equal to the event
    /// unless the event is a list of keywords, which is copied item by item.
    fn clone(&self) -> (copy: Self)
        ensures
            copy@ == self@,
            !(self is Keywords) ==> copy == *self,
    {
        match self {
            TriggerEvent::Abandon(a) => TriggerEvent::Abandon(a.clone()),
            TriggerEvent::Banished(a) => TriggerEvent::Banished(a.clone()),
            TriggerEvent::Discard(a) => TriggerEvent::Discard(a.clone()),
            TriggerEvent::Dissolved(a) => TriggerEvent::Dissolved(a.clone()),
            TriggerEvent::DrawAllCardsInCopyOfDeck => TriggerEvent::DrawAllCardsInCopyOfDeck,
            TriggerEvent::EndOfYourTurn => TriggerEvent::EndOfYourTurn,
            TriggerEvent::GainEnergy => TriggerEvent::GainEnergy,
            TriggerEvent::Keywords(a) => TriggerEvent::Keywords(copy_keywords(a)),
            TriggerEvent::Materialize(a) => TriggerEvent::Materialize(a.clone()),
            TriggerEvent::MaterializeNthThisTurn(a, b) => {
                TriggerEvent::MaterializeNthThisTurn(a.clone(), *b)
            },
            TriggerEvent::Play(a) => TriggerEvent::Play(a.clone()),
            TriggerEvent::PlayFromHand(a) => TriggerEvent::PlayFromHand(a.clone()),
        }
    }
}

/// A copy of a list of keywords, in the same order.
fn copy_keywords(keywords: &Vec<TriggerKeyword>) -> (copy: Vec<TriggerKeyword>)
    ensures
        copy@ == keywords@,
{
    let mut copy: Vec<TriggerKeyword> = Vec::new();
    let mut i: usize = 0;
    while i < keywords.len()
        invariant
            i <= keywords@.len(),
            copy@ == keywords@.subrange(0, i as int),
        decreases keywords@.len() - i,
    {
        copy.push(keywords[i]);
        proof {
            assert(copy@ =~= keywords@.subrange(0, i + 1));
        }
        i += 1;
    }
    proof {
        assert(keywords@.subrange(0, keywords@.len() as int) =~= keywords@);
    }
    copy
}

} // verus!
