//! Whole exchanges: what a run of events makes of the conversation, and what
//! holds of every run.

use crate::controller::{
    generation_failure, Chat, Event, Occurrence, Phase, StreamingController, Unavailable,
};
use crate::model::{Content, Elapsed, TokenRate, Turn};
use crate::store::ConversationStore;
use crate::text::blank;
use vstd::prelude::*;

verus! {

/// The events that a sequence of exec events stands for.
pub open spec fn occurrences(events: Seq<Event>) -> Seq<Occurrence> {
    events.map_values(|e: Event| e@)
}

/// One `Delta` event for each fragment, in order.
pub open spec fn deltas(fragments: Seq<Seq<char>>) -> Seq<Occurrence> {
    fragments.map_values(|text: Seq<char>| Occurrence::Delta(text))
}

/// How many turns report a failure.
pub open spec fn error_turns(turns: Seq<Turn>) -> nat
    decreases turns.len(),
{
    if turns.len() == 0 {
        0
    } else {
        error_turns(turns.drop_last()) + if turns.last().content is Error {
            1nat
        } else {
            0nat
        }
    }
}

/// Whether every turn is well formed.
pub open spec fn all_well_formed(turns: Seq<Turn>) -> bool {
    forall|i: int| 0 <= i < turns.len() ==> (#[trigger] turns[i]).wf()
}

impl Chat {
    /// After the events of `events`, one after the other.
    pub open spec fn after_all(self, events: Seq<Occurrence>, now: Seq<char>) -> Chat
        decreases events.len(),
    {
        if events.len() == 0 {
            self
        } else {
            self.after(events.first(), now).after_all(events.drop_first(), now)
        }
    }

    /// The answer that is being written: the open turn at the end, with `text`
    /// for its text and `count` fragments counted.
    pub open spec fn answering(self, text: Seq<char>, count: int) -> bool {
        &&& self.phase == Phase::Streaming
        &&& self.turns.len() > 0
        &&& self.turns.last().is_open()
        &&& self.turns.last().content == Content::Text(text)
        &&& self.turns.last().token_count == count
    }
}

/// Events taken one batch after the other are the events taken in one run.
pub proof fn lemma_after_all_split(
    chat: Chat,
    first: Seq<Occurrence>,
    second: Seq<Occurrence>,
    now: Seq<char>,
)
    ensures
        chat.after_all(first + second, now) == chat.after_all(first, now).after_all(second, now),
    decreases first.len(),
{
    if first.len() == 0 {
        assert(first + second =~= second);
    } else {
        assert((first + second).drop_first() =~= first.drop_first() + second);
        lemma_after_all_split(chat.after(first.first(), now), first.drop_first(), second, now);
    }
}

/// No event shortens the conversation or touches a turn before the last, and
/// whatever happens to the last turn, its sender and its timestamp stay. A last
/// turn that is closed stays as it is. Well-formed turns stay well formed.
pub proof fn lemma_history_is_kept(chat: Chat, event: Occurrence, now: Seq<char>)
    ensures
        chat.turns.len() <= chat.after(event, now).turns.len(),
        forall|i: int|
            0 <= i < chat.turns.len() - 1 ==> (#[trigger] chat.after(event, now).turns[i])
                == chat.turns[i],
        chat.turns.len() > 0 ==> ({
            let was = chat.turns.last();
            let is = chat.after(event, now).turns[chat.turns.len() - 1];
            &&& is.is_user == was.is_user
            &&& is.timestamp == was.timestamp
            &&& !was.is_open() ==> is == was
        }),
        all_well_formed(chat.turns) ==> all_well_formed(chat.after(event, now).turns),
{
    let next = chat.after(event, now);
    if all_well_formed(chat.turns) {
        assert forall|i: int| 0 <= i < next.turns.len() implies (#[trigger] next.turns[i]).wf() by {
            if i < chat.turns.len() {
                assert(chat.turns[i].wf());
            }
        }
    }
}

/// What holds of one event holds of every run of events.
pub proof fn lemma_history_is_kept_throughout(chat: Chat, events: Seq<Occurrence>, now: Seq<char>)
    ensures
        chat.turns.len() <= chat.after_all(events, now).turns.len(),
        forall|i: int|
            0 <= i < chat.turns.len() - 1 ==> (#[trigger] chat.after_all(events, now).turns[i])
                == chat.turns[i],
        chat.turns.len() > 0 ==> ({
            let was = chat.turns.last();
            let is = chat.after_all(events, now).turns[chat.turns.len() - 1];
            &&& is.is_user == was.is_user
            &&& is.timestamp == was.timestamp
            &&& !was.is_open() ==> is == was
        }),
        all_well_formed(chat.turns) ==> all_well_formed(chat.after_all(events, now).turns),
    decreases events.len(),
{
    if events.len() > 0 {
        let next = chat.after(events.first(), now);
        lemma_history_is_kept(chat, events.first(), now);
        lemma_history_is_kept_throughout(next, events.drop_first(), now);
        let end = chat.after_all(events, now);
        assert forall|i: int| 0 <= i < chat.turns.len() - 1 implies (#[trigger] end.turns[i])
            == chat.turns[i] by {
            assert(next.turns[i] == chat.turns[i]);
        }
        if chat.turns.len() > 0 {
            let at = chat.turns.len() - 1;
            if at < next.turns.len() - 1 {
                assert(end.turns[at] == next.turns[at]);
            }
        }
    }
}

/// A prompt submitted while a generation is in flight, and a blank prompt at
/// any time, leave the conversation and the flag as they are.
pub proof fn lemma_refused_submission_is_inert(chat: Chat, prompt: Seq<char>, now: Seq<char>)
    requires
        blank(prompt) || chat.in_flight(),
    ensures
        chat.submit(prompt, now) == chat,
{
}

/// The fragments of a stream end up behind the open turn's text in the order
/// in which they came, each counted once, and until the stream ends the turn
/// has no rate.
pub proof fn lemma_deltas_concatenate(
    chat: Chat,
    text: Seq<char>,
    count: int,
    fragments: Seq<Seq<char>>,
    now: Seq<char>,
)
    requires
        chat.answering(text, count),
        count + fragments.len() <= u64::MAX,
    ensures
        chat.after_all(deltas(fragments), now).answering(
            text + fragments.flatten(),
            count + fragments.len(),
        ),
        chat.after_all(deltas(fragments), now).turns == chat.turns.update(
            chat.turns.len() - 1,
            Turn {
                content: Content::Text(text + fragments.flatten()),
                token_count: (count + fragments.len()) as u64,
                ..chat.turns.last()
            },
        ),
        chat.after_all(deltas(fragments), now).pending == chat.pending,
        chat.after_all(deltas(fragments), now).turns.last().tokens_per_second() is None,
    decreases fragments.len(),
{
    if fragments.len() == 0 {
        assert(text + fragments.flatten() =~= text);
        assert(chat.turns.update(chat.turns.len() - 1, chat.turns.last()) =~= chat.turns);
    } else {
        let head = fragments.first();
        let rest = fragments.drop_first();
        let next = chat.after(deltas(fragments).first(), now);
        assert(deltas(fragments).drop_first() =~= deltas(rest));
        assert(next == chat.delta(head));
        assert(next.turns.last() == chat.turns.last().with_delta(head));
        lemma_deltas_concatenate(next, text + head, count + 1, rest, now);
        assert((text + head) + rest.flatten() =~= text + fragments.flatten());
        assert(next.turns.update(
            next.turns.len() - 1,
            Turn {
                content: Content::Text(text + fragments.flatten()),
                token_count: (count + fragments.len()) as u64,
                ..next.turns.last()
            },
        ) =~= chat.turns.update(
            chat.turns.len() - 1,
            Turn {
                content: Content::Text(text + fragments.flatten()),
                token_count: (count + fragments.len()) as u64,
                ..chat.turns.last()
            },
        ));
    }
}

/// The events of an exchange that runs to its end.
pub open spec fn completed_exchange(
    prompt: Seq<char>,
    fragments: Seq<Seq<char>>,
    elapsed: Elapsed,
) -> Seq<Occurrence> {
    seq![Occurrence::Submit(prompt), Occurrence::SessionReady] + deltas(fragments)
        + seq![Occurrence::StreamEnded(elapsed)]
}

/// The events of an exchange whose stream fails after some fragments.
pub open spec fn broken_exchange(
    prompt: Seq<char>,
    fragments: Seq<Seq<char>>,
    reason: Seq<char>,
) -> Seq<Occurrence> {
    seq![Occurrence::Submit(prompt), Occurrence::SessionReady] + deltas(fragments)
        + seq![Occurrence::StreamFailed(reason)]
}

/// The events of an exchange for which no session could be had.
pub open spec fn refused_exchange(prompt: Seq<char>, error: Unavailable) -> Seq<Occurrence> {
    seq![Occurrence::Submit(prompt), Occurrence::SessionFailed(error)]
}

/// The answer as it stands in the conversation while `fragments` have arrived.
pub open spec fn answer(fragments: Seq<Seq<char>>, now: Seq<char>) -> Turn {
    Turn {
        content: Content::Text(fragments.flatten()),
        token_count: fragments.len() as u64,
        ..Turn::placeholder(now)
    }
}

/// The start of every exchange: the prompt is taken, the session arrives, and
/// the fragments come in.
proof fn lemma_exchange_begins(
    chat: Chat,
    prompt: Seq<char>,
    fragments: Seq<Seq<char>>,
    now: Seq<char>,
)
    requires
        !chat.in_flight(),
        !blank(prompt),
        fragments.len() <= u64::MAX,
    ensures
        ({
            let begun = chat.after_all(
                seq![Occurrence::Submit(prompt), Occurrence::SessionReady] + deltas(fragments),
                now,
            );
            &&& begun.phase == Phase::Streaming
            &&& begun.turns == chat.turns.push(Turn::user(prompt, now)).push(
                answer(fragments, now),
            )
        }),
{
    let opening = seq![Occurrence::Submit(prompt), Occurrence::SessionReady];
    let submitted = chat.after(opening[0], now);
    let ready = submitted.after(opening[1], now);
    assert(chat.after_all(opening, now) == ready) by {
        assert(opening.drop_first() =~= seq![opening[1]]);
        assert(opening.drop_first().drop_first() =~= Seq::<Occurrence>::empty());
        reveal_with_fuel(Chat::after_all, 3);
    }
    lemma_after_all_split(chat, opening, deltas(fragments), now);
    lemma_deltas_concatenate(ready, Seq::empty(), 0, fragments, now);
    let begun = ready.after_all(deltas(fragments), now);
    assert(Seq::<char>::empty() + fragments.flatten() =~= fragments.flatten());
    assert(begun.turns =~= chat.turns.push(Turn::user(prompt, now)).push(answer(fragments, now)));
}

/// An exchange that runs to its end adds exactly the user's turn and the
/// answer. The answer's text is the fragments put together in the order in
/// which they came, its count is their number, and its rate is that number
/// over the time the stream ran. The flag is cleared.
pub proof fn lemma_completed_exchange(
    chat: Chat,
    prompt: Seq<char>,
    fragments: Seq<Seq<char>>,
    elapsed: Elapsed,
    now: Seq<char>,
)
    requires
        !chat.in_flight(),
        !blank(prompt),
        fragments.len() <= u64::MAX,
    ensures
        ({
            let end = chat.after_all(completed_exchange(prompt, fragments, elapsed), now);
            &&& !end.in_flight()
            &&& end.turns == chat.turns.push(Turn::user(prompt, now)).push(
                answer(fragments, now).finished(elapsed),
            )
            &&& end.turns.last().tokens_per_second() == Some(
                TokenRate { tokens: fragments.len() as u64, elapsed },
            )
        }),
{
    let opening = seq![Occurrence::Submit(prompt), Occurrence::SessionReady] + deltas(fragments);
    let closing = seq![Occurrence::StreamEnded(elapsed)];
    lemma_exchange_begins(chat, prompt, fragments, now);
    lemma_after_all_split(chat, opening, closing, now);
    let begun = chat.after_all(opening, now);
    assert(begun.after_all(closing, now) == begun.after(closing[0], now)) by {
        assert(closing.drop_first() =~= Seq::<Occurrence>::empty());
        reveal_with_fuel(Chat::after_all, 2);
    }
    let end = begun.after(closing[0], now);
    assert(end.turns =~= chat.turns.push(Turn::user(prompt, now)).push(
        answer(fragments, now).finished(elapsed),
    ));
}

/// An exchange whose stream fails keeps the text that has arrived and shows
/// the failure behind it; where nothing has arrived, the failure takes the
/// placeholder's place. Either way the conversation ends with the failure,
/// exactly one more turn reports a failure than before, and the flag is
/// cleared.
pub proof fn lemma_broken_exchange(
    chat: Chat,
    prompt: Seq<char>,
    fragments: Seq<Seq<char>>,
    reason: Seq<char>,
    now: Seq<char>,
)
    requires
        !chat.in_flight(),
        !blank(prompt),
        fragments.len() <= u64::MAX,
    ensures
        ({
            let end = chat.after_all(broken_exchange(prompt, fragments, reason), now);
            let asked = chat.turns.push(Turn::user(prompt, now));
            let partial = answer(fragments, now);
            &&& !end.in_flight()
            &&& fragments.flatten().len() > 0 ==> end.turns == asked.push(partial).push(
                Turn::error(generation_failure(reason), now),
            )
            &&& fragments.flatten().len() == 0 ==> end.turns == asked.push(
                partial.failed(generation_failure(reason)),
            )
            &&& end.turns.last().content == Content::Error(generation_failure(reason))
            &&& error_turns(end.turns) == error_turns(chat.turns) + 1
        }),
{
    let opening = seq![Occurrence::Submit(prompt), Occurrence::SessionReady] + deltas(fragments);
    let closing = seq![Occurrence::StreamFailed(reason)];
    lemma_exchange_begins(chat, prompt, fragments, now);
    lemma_after_all_split(chat, opening, closing, now);
    let begun = chat.after_all(opening, now);
    assert(begun.after_all(closing, now) == begun.after(closing[0], now)) by {
        assert(closing.drop_first() =~= Seq::<Occurrence>::empty());
        reveal_with_fuel(Chat::after_all, 2);
    }
    let end = begun.after(closing[0], now);
    let asked = chat.turns.push(Turn::user(prompt, now));
    let partial = answer(fragments, now);
    let failure = generation_failure(reason);
    assert(begun.turns.last() == partial);
    lemma_error_turns_push(chat.turns, Turn::user(prompt, now));
    if fragments.flatten().len() > 0 {
        assert(partial.content != Content::Text(Seq::empty()));
        assert(end.turns =~= asked.push(partial).push(Turn::error(failure, now)));
        lemma_error_turns_push(asked, partial);
        lemma_error_turns_push(asked.push(partial), Turn::error(failure, now));
    } else {
        assert(fragments.flatten() =~= Seq::<char>::empty());
        assert(partial.is_placeholder());
        assert(end.turns =~= asked.push(partial.failed(failure)));
        lemma_error_turns_push(asked, partial.failed(failure));
    }
}

/// Where no session can be had, the conversation gains the user's turn and one
/// turn that reports the failure in the placeholder's place, and the flag is
/// cleared.
pub proof fn lemma_refused_exchange(
    chat: Chat,
    prompt: Seq<char>,
    error: Unavailable,
    now: Seq<char>,
)
    requires
        !chat.in_flight(),
        !blank(prompt),
    ensures
        ({
            let end = chat.after_all(refused_exchange(prompt, error), now);
            &&& !end.in_flight()
            &&& end.turns == chat.turns.push(Turn::user(prompt, now)).push(
                Turn::error(error.description(), now),
            )
            &&& error_turns(end.turns) == error_turns(chat.turns) + 1
        }),
{
    let events = refused_exchange(prompt, error);
    let submitted = chat.after(events[0], now);
    let end = submitted.after(events[1], now);
    assert(chat.after_all(events, now) == end) by {
        assert(events.drop_first() =~= seq![events[1]]);
        assert(events.drop_first().drop_first() =~= Seq::<Occurrence>::empty());
        reveal_with_fuel(Chat::after_all, 3);
    }
    let asked = chat.turns.push(Turn::user(prompt, now));
    assert(submitted.turns.last().is_placeholder());
    assert(end.turns =~= asked.push(Turn::error(error.description(), now)));
    lemma_error_turns_push(chat.turns, Turn::user(prompt, now));
    lemma_error_turns_push(asked, Turn::error(error.description(), now));
}

/// A turn added at the end counts as a failure exactly if it reports one.
pub proof fn lemma_error_turns_push(turns: Seq<Turn>, turn: Turn)
    ensures
        error_turns(turns.push(turn)) == error_turns(turns) + if turn.content is Error {
            1nat
        } else {
            0nat
        },
{
    assert(turns.push(turn).drop_last() =~= turns);
}

impl StreamingController {
    /// Takes the events of `events` one after the other.
    pub fn replay(&mut self, store: &mut ConversationStore, events: &Vec<Event>, now: &str)
        ensures
            final(self)@.with(final(store)@) == old(self)@.with(old(store)@).after_all(
                occurrences(events@),
                now@,
            ),
    {
        let ghost start = self@.with(store@);
        let ghost all = occurrences(events@);
        let mut i: usize = 0;
        proof {
            assert(all.skip(0) =~= all);
        }
        while i < events.len()
            invariant
                i <= events.len(),
                all == occurrences(events@),
                start.after_all(all, now@) == self@.with(store@).after_all(all.skip(i as int), now@),
            decreases events.len() - i,
        {
            proof {
                assert(all.skip(i as int).first() == events@[i as int]@);
                assert(all.skip(i as int).drop_first() =~= all.skip(i + 1));
            }
            let _ = self.handle(store, &events[i], now);
            i = i + 1;
        }
        proof {
            assert(all.skip(i as int) =~= Seq::<Occurrence>::empty());
        }
    }
}

} // verus!
