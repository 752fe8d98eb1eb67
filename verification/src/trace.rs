//! What an exchange does over whole sequences of reports: how long it waits, which
//! words it passes over, and that it comes to its end when the hardware answers.

use vstd::prelude::*;
use crate::channel::MailboxChannel;
use crate::exchange::{Action, Event, Exchange, Phase};
use crate::message::spec_judge;
use crate::registers::{spec_is_empty, spec_is_full, Port};
use crate::word::{
    lemma_export_then_import, lemma_tag_round_trip, payload_of, spec_export, spec_import,
    spec_read, spec_write, tag_of, CHANNEL_MASK,
};

verus! {

impl Exchange {
    /// The state after a sequence of events, reported one by one.
    pub open spec fn run(self, events: Seq<Event>) -> Exchange
        decreases events.len(),
    {
        if events.len() == 0 {
            self
        } else {
            self.spec_step(events[0]).run(events.drop_first())
        }
    }

    /// Takes a recorded sequence of reports, one by one, and gives the state the
    /// exchange is in after the last.
    pub fn replay(self, events: &[Event]) -> (end: Exchange)
        ensures
            end == self.run(events@),
            end.channel == self.channel,
            end.bus == self.bus,
    {
        let mut state = self;
        let mut done: usize = 0;
        while done < events.len()
            invariant
                done <= events.len(),
                state == self.run(events@.take(done as int)),
            decreases events.len() - done,
        {
            proof {
                let seen = events@.take(done as int);
                assert(events@.take(done + 1) =~= seen + seq![events@[done as int]]);
                lemma_run_append(self, seen, seq![events@[done as int]]);
                lemma_run_one(state, events@[done as int]);
            }
            state = state.step(events[done]);
            done += 1;
        }
        proof {
            assert(events@.take(done as int) =~= events@);
            lemma_request_is_kept(self, events@);
        }
        state
    }
}

/// The reports of a sequence of status words, one read of the status register each.
pub open spec fn polls(statuses: Seq<u32>) -> Seq<Event> {
    Seq::new(statuses.len(), |i: int| Event::Word(statuses[i]))
}

/// The reports of the inbound FIFO handing over the words of `fifo` in order: before
/// each word the status `ready` is read, then the word is taken out.
pub open spec fn arrivals(ready: u32, fifo: Seq<u32>) -> Seq<Event>
    decreases fifo.len(),
{
    if fifo.len() == 0 {
        Seq::empty()
    } else {
        seq![Event::Word(ready), Event::Word(fifo[0])] + arrivals(ready, fifo.drop_first())
    }
}

/// Each phase is entered in one way only. In particular the word is posted only after
/// a status without the "full" flag was read, the inbound FIFO is read only after a
/// status without the "empty" flag was read, the second cache maintenance starts only
/// after a word with the channel's own tag was taken out, and the message is read back
/// only after that cache maintenance.
pub proof fn lemma_phase_entries(exchange: Exchange, event: Event)
    ensures
        ({
            let next = exchange.spec_step(event);
            next.phase != exchange.phase ==> match next.phase {
                Phase::Clean => false,
                Phase::AwaitSpace => exchange.phase == Phase::Clean && event == Event::Done,
                Phase::Post => exchange.phase == Phase::AwaitSpace && (event matches Event::Word(
                    status,
                ) && !spec_is_full(status)),
                Phase::AwaitResponse => (exchange.phase == Phase::Post && event == Event::Done)
                    || (exchange.phase == Phase::Fetch && (event matches Event::Word(word)
                    && tag_of(word) != exchange.channel.spec_id())),
                Phase::Fetch => exchange.phase == Phase::AwaitResponse && (
                event matches Event::Word(status) && !spec_is_empty(status)),
                Phase::Refresh => exchange.phase == Phase::Fetch && (event matches Event::Word(
                    word,
                ) && tag_of(word) == exchange.channel.spec_id()),
                Phase::Reload => exchange.phase == Phase::Refresh && event == Event::Done,
            }
        }),
{
}

/// Running over a sequence and then over another is running over the two joined.
pub proof fn lemma_run_append(exchange: Exchange, first: Seq<Event>, second: Seq<Event>)
    ensures
        exchange.run(first + second) == exchange.run(first).run(second),
    decreases first.len(),
{
    if first.len() == 0 {
        assert(first + second =~= second);
    } else {
        assert((first + second).drop_first() =~= first.drop_first() + second);
        lemma_run_append(exchange.spec_step(first[0]), first.drop_first(), second);
    }
}

/// Running over one event is one step.
pub proof fn lemma_run_one(exchange: Exchange, event: Event)
    ensures
        exchange.run(seq![event]) == exchange.spec_step(event),
{
    assert(seq![event].drop_first() =~= Seq::<Event>::empty());
    assert(exchange.spec_step(event).run(Seq::<Event>::empty()) == exchange.spec_step(event));
}

/// Whatever is reported, an exchange keeps its channel and its bus address.
pub proof fn lemma_request_is_kept(exchange: Exchange, events: Seq<Event>)
    ensures
        exchange.run(events).channel == exchange.channel,
        exchange.run(events).bus == exchange.bus,
    decreases events.len(),
{
    if events.len() > 0 {
        lemma_request_is_kept(exchange.spec_step(events[0]), events.drop_first());
    }
}

/// An exchange that is over stays over, whatever is reported to it.
pub proof fn lemma_over_stays_over(exchange: Exchange, events: Seq<Event>)
    requires
        exchange.phase == Phase::Reload,
    ensures
        exchange.run(events) == exchange,
    decreases events.len(),
{
    if events.len() > 0 {
        lemma_over_stays_over(exchange.spec_step(events[0]), events.drop_first());
    }
}

/// While every status read from the outbound FIFO has the "full" flag set, the
/// exchange waits: it asks for the status again and posts nothing.
pub proof fn lemma_waits_while_full(exchange: Exchange, statuses: Seq<u32>)
    requires
        exchange.phase == Phase::AwaitSpace,
        forall|i: int| 0 <= i < statuses.len() ==> spec_is_full(#[trigger] statuses[i]),
    ensures
        exchange.run(polls(statuses)) == exchange,
        exchange.run(polls(statuses)).spec_pending() == Action::Read(Port::OutboundStatus),
    decreases statuses.len(),
{
    if statuses.len() > 0 {
        assert(polls(statuses).drop_first() =~= polls(statuses.drop_first()));
        assert(spec_is_full(statuses[0]));
        assert(exchange.spec_step(polls(statuses)[0]) == exchange);
        lemma_waits_while_full(exchange, statuses.drop_first());
    }
}

/// The exchange posts its word at the first status without the "full" flag, after
/// exactly as many fruitless polls as there were statuses with the flag before it.
pub proof fn lemma_posts_when_space(exchange: Exchange, full: Seq<u32>, space: u32)
    requires
        exchange.phase == Phase::AwaitSpace,
        forall|i: int| 0 <= i < full.len() ==> spec_is_full(#[trigger] full[i]),
        !spec_is_full(space),
    ensures
        exchange.run(polls(full.push(space))).phase == Phase::Post,
        exchange.run(polls(full.push(space))).spec_pending() == Action::Write(
            Port::OutboundData,
            spec_write(exchange.channel, exchange.bus),
        ),
        forall|k: int|
            0 <= k <= full.len() ==> (#[trigger] exchange.run(polls(full.take(k)))).phase
                == Phase::AwaitSpace,
{
    assert(polls(full.push(space)) =~= polls(full) + seq![Event::Word(space)]);
    lemma_run_append(exchange, polls(full), seq![Event::Word(space)]);
    lemma_waits_while_full(exchange, full);
    lemma_run_one(exchange, Event::Word(space));
    assert forall|k: int| 0 <= k <= full.len() implies (#[trigger] exchange.run(
        polls(full.take(k)),
    )).phase == Phase::AwaitSpace by {
        lemma_waits_while_full(exchange, full.take(k));
    }
}

/// While every status read from the inbound FIFO has the "empty" flag set, the
/// exchange waits: it asks for the status again and takes no word out.
pub proof fn lemma_waits_while_empty(exchange: Exchange, statuses: Seq<u32>)
    requires
        exchange.phase == Phase::AwaitResponse,
        forall|i: int| 0 <= i < statuses.len() ==> spec_is_empty(#[trigger] statuses[i]),
    ensures
        exchange.run(polls(statuses)) == exchange,
        exchange.run(polls(statuses)).spec_pending() == Action::Read(Port::InboundStatus),
    decreases statuses.len(),
{
    if statuses.len() > 0 {
        assert(polls(statuses).drop_first() =~= polls(statuses.drop_first()));
        assert(spec_is_empty(statuses[0]));
        assert(exchange.spec_step(polls(statuses)[0]) == exchange);
        lemma_waits_while_empty(exchange, statuses.drop_first());
    }
}

/// The exchange takes a word out of the inbound FIFO at the first status without the
/// "empty" flag, and not before.
pub proof fn lemma_fetches_when_ready(exchange: Exchange, empty: Seq<u32>, ready: u32)
    requires
        exchange.phase == Phase::AwaitResponse,
        forall|i: int| 0 <= i < empty.len() ==> spec_is_empty(#[trigger] empty[i]),
        !spec_is_empty(ready),
    ensures
        exchange.run(polls(empty.push(ready))).phase == Phase::Fetch,
        exchange.run(polls(empty.push(ready))).spec_pending() == Action::Read(Port::InboundData),
        forall|k: int|
            0 <= k <= empty.len() ==> (#[trigger] exchange.run(polls(empty.take(k)))).phase
                == Phase::AwaitResponse,
{
    assert(polls(empty.push(ready)) =~= polls(empty) + seq![Event::Word(ready)]);
    lemma_run_append(exchange, polls(empty), seq![Event::Word(ready)]);
    lemma_waits_while_empty(exchange, empty);
    lemma_run_one(exchange, Event::Word(ready));
    assert forall|k: int| 0 <= k <= empty.len() implies (#[trigger] exchange.run(
        polls(empty.take(k)),
    )).phase == Phase::AwaitResponse by {
        lemma_waits_while_empty(exchange, empty.take(k));
    }
}

/// Words for other channels are taken out of the inbound FIFO and passed over: after
/// any number of them the exchange waits as before.
pub proof fn lemma_foreign_words_are_skipped(exchange: Exchange, ready: u32, fifo: Seq<u32>)
    requires
        exchange.phase == Phase::AwaitResponse,
        !spec_is_empty(ready),
        forall|i: int|
            0 <= i < fifo.len() ==> tag_of(#[trigger] fifo[i]) != exchange.channel.spec_id(),
    ensures
        exchange.run(arrivals(ready, fifo)) == exchange,
    decreases fifo.len(),
{
    if fifo.len() > 0 {
        let round = seq![Event::Word(ready), Event::Word(fifo[0])];
        let waiting = exchange.spec_step(Event::Word(ready));
        assert(round.drop_first() =~= seq![Event::Word(fifo[0])]);
        lemma_run_one(waiting, Event::Word(fifo[0]));
        assert(tag_of(fifo[0]) != exchange.channel.spec_id());
        assert(exchange.run(round) == exchange);
        lemma_run_append(exchange, round, arrivals(ready, fifo.drop_first()));
        lemma_foreign_words_are_skipped(exchange, ready, fifo.drop_first());
    }
}

/// The answer is the first word in the inbound FIFO that carries the channel's own
/// tag: the words before it are passed over, and with it the wait ends. What is read
/// from it is its payload, with no bit in the tag's place.
pub proof fn lemma_first_addressed_word_is_taken(
    exchange: Exchange,
    ready: u32,
    foreign: Seq<u32>,
    answer: u32,
)
    requires
        exchange.phase == Phase::AwaitResponse,
        !spec_is_empty(ready),
        forall|i: int|
            0 <= i < foreign.len() ==> tag_of(#[trigger] foreign[i])
                != exchange.channel.spec_id(),
        tag_of(answer) == exchange.channel.spec_id(),
    ensures
        arrivals(ready, foreign.push(answer)) == arrivals(ready, foreign) + seq![
            Event::Word(ready),
            Event::Word(answer),
        ],
        exchange.run(arrivals(ready, foreign)).phase == Phase::AwaitResponse,
        exchange.run(arrivals(ready, foreign.push(answer))).phase == Phase::Refresh,
        spec_read(exchange.channel, answer) == Some(payload_of(answer)),
        forall|i: int|
            0 <= i < foreign.len() ==> spec_read(exchange.channel, #[trigger] foreign[i])
                is None,
{
    lemma_arrivals_push(ready, foreign, answer);
    let round = seq![Event::Word(ready), Event::Word(answer)];
    lemma_foreign_words_are_skipped(exchange, ready, foreign);
    lemma_run_append(exchange, arrivals(ready, foreign), round);
    let waiting = exchange.spec_step(Event::Word(ready));
    assert(round.drop_first() =~= seq![Event::Word(answer)]);
    lemma_run_one(waiting, Event::Word(answer));
}

/// There is no way past a full outbound FIFO: as long as every word that is reported
/// has the "full" flag set, nothing is posted, however many reports come in.
pub proof fn lemma_blocks_while_full(exchange: Exchange, events: Seq<Event>)
    requires
        exchange.phase == Phase::Clean || exchange.phase == Phase::AwaitSpace,
        forall|i: int|
            0 <= i < events.len() ==> (#[trigger] events[i] matches Event::Word(status)
                ==> spec_is_full(status)),
    ensures
        exchange.run(events).phase == Phase::Clean || exchange.run(events).phase
            == Phase::AwaitSpace,
        !(exchange.run(events).spec_pending() is Write),
    decreases events.len(),
{
    if events.len() > 0 {
        let rest = events.drop_first();
        assert forall|i: int| 0 <= i < rest.len() implies (#[trigger] rest[i] matches Event::Word(
            status,
        ) ==> spec_is_full(status)) by {
            assert(rest[i] == events[i + 1]);
        }
        lemma_blocks_while_full(exchange.spec_step(events[0]), rest);
    }
}

/// There is no way to the end without an answer: as long as no word that is reported
/// carries the channel's tag, the exchange gets neither to the second cache
/// maintenance nor to reading the message back, however many reports come in.
pub proof fn lemma_blocks_without_answer(exchange: Exchange, events: Seq<Event>)
    requires
        exchange.phase != Phase::Refresh,
        exchange.phase != Phase::Reload,
        forall|i: int|
            0 <= i < events.len() ==> (#[trigger] events[i] matches Event::Word(word) ==> tag_of(
                word,
            ) != exchange.channel.spec_id()),
    ensures
        exchange.run(events).phase != Phase::Refresh,
        exchange.run(events).phase != Phase::Reload,
        !(exchange.run(events).spec_pending() is Reload),
    decreases events.len(),
{
    if events.len() > 0 {
        let rest = events.drop_first();
        assert forall|i: int| 0 <= i < rest.len() implies (#[trigger] rest[i] matches Event::Word(
            word,
        ) ==> tag_of(word) != exchange.channel.spec_id()) by {
            assert(rest[i] == events[i + 1]);
        }
        lemma_blocks_without_answer(exchange.spec_step(events[0]), rest);
    }
}

/// The reports of a FIFO with one more word at its end.
pub proof fn lemma_arrivals_push(ready: u32, fifo: Seq<u32>, word: u32)
    ensures
        arrivals(ready, fifo.push(word)) == arrivals(ready, fifo) + seq![
            Event::Word(ready),
            Event::Word(word),
        ],
    decreases fifo.len(),
{
    let round = seq![Event::Word(ready), Event::Word(word)];
    if fifo.len() == 0 {
        assert(fifo.push(word).drop_first() =~= Seq::<u32>::empty());
        assert(arrivals(ready, fifo.push(word)) =~= round + arrivals(
            ready,
            Seq::<u32>::empty(),
        ));
        assert(arrivals(ready, fifo.push(word)) =~= arrivals(ready, fifo) + round);
    } else {
        assert(fifo.push(word).drop_first() =~= fifo.drop_first().push(word));
        lemma_arrivals_push(ready, fifo.drop_first(), word);
        let head = seq![Event::Word(ready), Event::Word(fifo[0])];
        assert(head + (arrivals(ready, fifo.drop_first()) + round) =~= (head + arrivals(
            ready,
            fifo.drop_first(),
        )) + round);
    }
}

/// The word that an exchange posts for a 16-byte aligned message is read back on the
/// same channel as the bus address of the message, exactly; and the message is read
/// back from its address without the two alias bits.
pub proof fn lemma_posted_word_reads_back(channel: MailboxChannel, address: u32)
    requires
        address & CHANNEL_MASK == 0,
    ensures
        ({
            let exchange = Exchange::spec_new(channel, address);
            let word = spec_write(exchange.channel, exchange.bus);
            &&& word == spec_export(address) | channel.spec_id()
            &&& spec_read(channel, word) == Some(spec_export(address))
            &&& spec_import(spec_export(address)) == address & !0xC000_0000u32
            &&& address < 0x4000_0000 ==> spec_import(spec_export(address)) == address
        }),
{
    assert(address & 0x0000_000Fu32 == 0 ==> (address | 0xC000_0000u32) & 0x0000_000Fu32 == 0)
        by (bit_vector);
    lemma_tag_round_trip(channel.spec_id(), spec_export(address));
    lemma_export_then_import(address);
}

/// When the hardware answers, the exchange comes to its end: after the first cache
/// maintenance, any number of polls of a full outbound FIFO, the posting, any number of
/// words for other channels, the answer, and the second cache maintenance, all that is
/// left is to read the message back from the address it was sent from.
pub proof fn lemma_exchange_completes(
    channel: MailboxChannel,
    address: u32,
    full: Seq<u32>,
    space: u32,
    ready: u32,
    foreign: Seq<u32>,
    answer: u32,
)
    requires
        forall|i: int| 0 <= i < full.len() ==> spec_is_full(#[trigger] full[i]),
        !spec_is_full(space),
        !spec_is_empty(ready),
        forall|i: int| 0 <= i < foreign.len() ==> tag_of(#[trigger] foreign[i]) != channel.spec_id(),
        tag_of(answer) == channel.spec_id(),
    ensures
        ({
            let events = seq![Event::Done] + polls(full.push(space)) + seq![Event::Done]
                + arrivals(ready, foreign.push(answer)) + seq![Event::Done];
            let end = Exchange::spec_new(channel, address).run(events);
            &&& end.phase == Phase::Reload
            &&& end.spec_pending() == Action::Reload(address & !0xC000_0000u32)
        }),
{
    let begin = Exchange::spec_new(channel, address);
    let cleaned = begin.run(seq![Event::Done]);
    lemma_run_one(begin, Event::Done);
    let spaced = cleaned.run(polls(full.push(space)));
    lemma_posts_when_space(cleaned, full, space);
    lemma_request_is_kept(cleaned, polls(full.push(space)));
    let posted = spaced.run(seq![Event::Done]);
    lemma_run_one(spaced, Event::Done);
    let answered = posted.run(arrivals(ready, foreign.push(answer)));
    lemma_first_addressed_word_is_taken(posted, ready, foreign, answer);
    lemma_request_is_kept(posted, arrivals(ready, foreign.push(answer)));
    let end = answered.run(seq![Event::Done]);
    lemma_run_one(answered, Event::Done);
    let a = seq![Event::Done];
    let b = polls(full.push(space));
    let c = arrivals(ready, foreign.push(answer));
    lemma_run_append(begin, a, b);
    lemma_run_append(begin, a + b, a);
    lemma_run_append(begin, a + b + a, c);
    lemma_run_append(begin, a + b + a + c, a);
    lemma_export_then_import(address);
}

/// Nothing is carried from one exchange to the next. A second exchange for the same
/// request starts from the beginning, with the cache maintenance, whatever was
/// reported to the first; and its response is judged on its own state word, so that
/// the same request can succeed once and fail the next time.
pub proof fn lemma_exchanges_are_independent<T>(
    channel: MailboxChannel,
    address: u32,
    events: Seq<Event>,
    request: T,
    first: u32,
    second: u32,
)
    ensures
        Exchange::spec_new(channel, address).run(events).channel == channel,
        Exchange::spec_new(channel, address).run(events).bus == spec_export(address),
        Exchange::spec_new(channel, address).phase == Phase::Clean,
        Exchange::spec_new(channel, address).spec_pending() == Action::CleanInvalidate,
        spec_judge(first, request) is Ok <==> first == 0x8000_0000u32,
        spec_judge(second, request) is Ok <==> second == 0x8000_0000u32,
        first == 0x8000_0000u32 && second != 0x8000_0000u32 ==> spec_judge(first, request)
            != spec_judge(second, request),
{
    lemma_request_is_kept(Exchange::spec_new(channel, address), events);
}

} // verus!
