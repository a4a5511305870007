//! The conversation: turns in the order they were committed. Turns are added
//! at the end, and only the last one can change.

use crate::model::{ChatMessage, Turn, TurnUpdate, Update};
use vstd::prelude::*;

verus! {

/// Why the store did not change.
#[derive(Clone, Copy, Debug, PartialEq, Eq, Structural)]
pub enum StoreError {
    /// There is no turn at the end that takes the update: the store is empty,
    /// or its last turn is closed.
    NoOpenTurn,
}

/// The turns that a sequence of messages stands for.
pub open spec fn turns_of(messages: Seq<ChatMessage>) -> Seq<Turn> {
    messages.map_values(|m: ChatMessage| m@)
}

/// Whether the last of `turns` takes `update`.
pub open spec fn takes_update(turns: Seq<Turn>, update: Update) -> bool {
    turns.len() > 0 && turns.last().accepts(update)
}

/// `turns` with `update` applied to the last turn, where it takes it.
pub open spec fn with_last_updated(turns: Seq<Turn>, update: Update) -> Seq<Turn> {
    if takes_update(turns, update) {
        turns.update(turns.len() - 1, turns.last().updated(update))
    } else {
        turns
    }
}

/// The ordered list of turns.
#[derive(Debug, PartialEq, Eq)]
pub struct ConversationStore {
    turns: Vec<ChatMessage>,
}

impl View for ConversationStore {
    type V = Seq<Turn>;

    closed spec fn view(&self) -> Seq<Turn> {
        turns_of(self.turns@)
    }
}

impl ConversationStore {
    /// A conversation without turns.
    pub fn new() -> (store: Self)
        ensures
            store@ == Seq::<Turn>::empty(),
    {
        let store = ConversationStore { turns: Vec::new() };
        assert(store@ =~= Seq::<Turn>::empty());
        store
    }

    pub fn len(&self) -> (n: usize)
        ensures
            n == self@.len(),
    {
        self.turns.len()
    }

    pub fn is_empty(&self) -> (empty: bool)
        ensures
            empty == (self@.len() == 0),
    {
        self.turns.len() == 0
    }

    /// Adds `turn` at the end. Every turn that was there stays where it was.
    pub fn append(&mut self, turn: ChatMessage)
        ensures
            final(self)@ == old(self)@.push(turn@),
    {
        self.turns.push(turn);
        assert(self@ =~= old(self)@.push(turn@));
    }

    /// Applies `update` to the last turn. This is the one way in which a
    /// committed turn changes. It fails, and changes nothing, where the store
    /// is empty or the last turn does not take the update.
    pub fn mutate_last(&mut self, update: TurnUpdate) -> (result: Result<(), StoreError>)
        ensures
            result is Ok <==> takes_update(old(self)@, update@),
            result is Err ==> result == Err::<(), StoreError>(StoreError::NoOpenTurn),
            final(self)@ == with_last_updated(old(self)@, update@),
    {
        match self.turns.pop() {
            None => {
                Err(StoreError::NoOpenTurn)
            },
            Some(turn) => {
                let mut turn = turn;
                let applied = turn.apply(update);
                self.turns.push(turn);
                assert(self@ =~= with_last_updated(old(self)@, update@));
                if applied {
                    Ok(())
                } else {
                    Err(StoreError::NoOpenTurn)
                }
            },
        }
    }

    /// The turns in order, to read.
    pub fn snapshot(&self) -> (turns: &Vec<ChatMessage>)
        ensures
            turns_of(turns@) == self@,
    {
        &self.turns
    }

    /// The last turn, where there is one.
    pub fn last(&self) -> (turn: Option<&ChatMessage>)
        ensures
            match turn {
                Some(t) => self@.len() > 0 && t@ == self@.last(),
                None => self@.len() == 0,
            },
    {
        let n: usize = self.turns.len();
        if n == 0 {
            None
        } else {
            Some(&self.turns[n - 1])
        }
    }

    /// The turn at `index`, where there is one.
    pub fn get(&self, index: usize) -> (turn: Option<&ChatMessage>)
        ensures
            match turn {
                Some(t) => index < self@.len() && t@ == self@[index as int],
                None => index >= self@.len(),
            },
    {
        if index < self.turns.len() {
            Some(&self.turns[index])
        } else {
            None
        }
    }
}

} // verus!
