use ruspiro_mailbox::message::conclude;
use ruspiro_mailbox::word::{import, read};
use ruspiro_mailbox::{
    Action, Event, Exchange, MailboxChannel, MailboxMessage, MailboxResult, Phase, Port,
    SEND_FAILED,
};
use std::collections::{HashMap, VecDeque};

const FULL: u32 = 0x8000_0000;
const EMPTY: u32 = 0x4000_0000;

#[derive(Clone, Copy, Debug, PartialEq, Eq)]
struct ClockRate {
    size: u32,
    state: u32,
    tag: u32,
    clock: u32,
    rate: u32,
}

impl MailboxMessage for ClockRate {
    fn get_state(&self) -> u32 {
        self.state
    }
}

fn request() -> ClockRate {
    ClockRate { size: 32, state: 0, tag: 0x0003_0002, clock: 4, rate: 0 }
}

/// A mailbox in memory: the registers hand out what was queued for them, and a posted
/// word is answered by rewriting the message it points to.
struct Board {
    memory: HashMap<u32, ClockRate>,
    outbound_status: VecDeque<u32>,
    inbound_status: VecDeque<u32>,
    inbound: VecDeque<u32>,
    responder: fn(ClockRate) -> ClockRate,
    log: Vec<Action>,
    taken: Vec<u32>,
    accepted: Vec<u32>,
}

impl Board {
    fn new(responder: fn(ClockRate) -> ClockRate) -> Board {
        Board {
            memory: HashMap::new(),
            outbound_status: VecDeque::new(),
            inbound_status: VecDeque::new(),
            inbound: VecDeque::new(),
            responder,
            log: Vec::new(),
            taken: Vec::new(),
            accepted: Vec::new(),
        }
    }

    fn load(&mut self, port: Port) -> u32 {
        match port {
            Port::OutboundStatus => self.outbound_status.pop_front().unwrap_or(0),
            Port::InboundStatus => {
                let queued = self.inbound_status.pop_front();
                queued.unwrap_or(if self.inbound.is_empty() { EMPTY } else { 0 })
            }
            Port::InboundData => {
                let word = self.inbound.pop_front().expect("read from an empty FIFO");
                self.taken.push(word);
                word
            }
            Port::OutboundData => panic!("read from a write-only register"),
        }
    }

    fn store(&mut self, port: Port, word: u32) {
        assert_eq!(port, Port::OutboundData);
        let address = import(word & 0xFFFF_FFF0);
        let message = self.memory[&address];
        self.memory.insert(address, (self.responder)(message));
        self.inbound.push_back(word);
    }

    fn count(&self, action: Action) -> usize {
        self.log.iter().filter(|&&logged| logged == action).count()
    }
}

fn send_message(
    board: &mut Board,
    channel: MailboxChannel,
    address: u32,
    message: ClockRate,
) -> MailboxResult<ClockRate> {
    board.memory.insert(address, message);
    let mut exchange = Exchange::new(channel, address);
    loop {
        let action = exchange.pending();
        board.log.push(action);
        let event = match action {
            Action::CleanInvalidate => Event::Done,
            Action::Read(port) => {
                let word = board.load(port);
                if port == Port::InboundData {
                    if let Some(data) = read(channel, word) {
                        board.accepted.push(data);
                    }
                }
                Event::Word(word)
            }
            Action::Write(port, word) => {
                board.store(port, word);
                Event::Done
            }
            Action::Reload(address) => return conclude(board.memory[&address]),
        };
        exchange = exchange.step(event);
    }
}

fn succeed(message: ClockRate) -> ClockRate {
    ClockRate { state: 0x8000_0000, rate: 250_000_000, ..message }
}

fn fail(message: ClockRate) -> ClockRate {
    ClockRate { state: 0x8000_0001, rate: 0x1234, ..message }
}

fn garble(message: ClockRate) -> ClockRate {
    ClockRate { state: 0xDEAD_BEEF, rate: 0x5678, ..message }
}

fn ignore(message: ClockRate) -> ClockRate {
    message
}

#[test]
fn new_exchange_starts_with_cache_maintenance() {
    let exchange = Exchange::new(MailboxChannel::PropertyTagsVc, 0x0008_1230);
    assert_eq!(exchange.channel, MailboxChannel::PropertyTagsVc);
    assert_eq!(exchange.bus, 0xC008_1230);
    assert_eq!(exchange.phase, Phase::Clean);
    assert_eq!(exchange.pending(), Action::CleanInvalidate);
    assert!(!exchange.is_over());
}

#[test]
fn each_phase_asks_for_its_action() {
    let at = |phase| Exchange { channel: MailboxChannel::PropertyTagsVc, bus: 0xC008_1230, phase };
    assert_eq!(at(Phase::Clean).pending(), Action::CleanInvalidate);
    assert_eq!(at(Phase::AwaitSpace).pending(), Action::Read(Port::OutboundStatus));
    assert_eq!(at(Phase::Post).pending(), Action::Write(Port::OutboundData, 0xC008_1238));
    assert_eq!(at(Phase::AwaitResponse).pending(), Action::Read(Port::InboundStatus));
    assert_eq!(at(Phase::Fetch).pending(), Action::Read(Port::InboundData));
    assert_eq!(at(Phase::Refresh).pending(), Action::CleanInvalidate);
    assert_eq!(at(Phase::Reload).pending(), Action::Reload(0x0008_1230));
    assert!(at(Phase::Reload).is_over());
    assert!(!at(Phase::Refresh).is_over());
}

#[test]
fn exchange_walks_through_its_phases_in_order() {
    let mut exchange = Exchange::new(MailboxChannel::PropertyTagsVc, 0x0008_1230);
    let reports = [
        (Event::Done, Phase::AwaitSpace),
        (Event::Word(0), Phase::Post),
        (Event::Done, Phase::AwaitResponse),
        (Event::Word(0), Phase::Fetch),
        (Event::Word(0xC008_1238), Phase::Refresh),
        (Event::Done, Phase::Reload),
    ];
    for (event, phase) in reports {
        exchange = exchange.step(event);
        assert_eq!(exchange.phase, phase);
        assert_eq!(exchange.channel, MailboxChannel::PropertyTagsVc);
        assert_eq!(exchange.bus, 0xC008_1230);
    }
    assert_eq!(exchange.pending(), Action::Reload(0x0008_1230));
}

#[test]
fn an_event_of_the_wrong_kind_changes_nothing() {
    let at = |phase| Exchange { channel: MailboxChannel::VirtualUart, bus: 0xC000_0040, phase };
    for phase in [Phase::Clean, Phase::Post, Phase::Refresh] {
        assert_eq!(at(phase).step(Event::Word(0)), at(phase));
        assert_eq!(at(phase).step(Event::Word(0xFFFF_FFFF)), at(phase));
    }
    for phase in [Phase::AwaitSpace, Phase::AwaitResponse, Phase::Fetch] {
        assert_eq!(at(phase).step(Event::Done), at(phase));
    }
}

#[test]
fn a_finished_exchange_stays_finished() {
    let over =
        Exchange { channel: MailboxChannel::PowerMgmt, bus: 0xC000_0040, phase: Phase::Reload };
    assert_eq!(over.step(Event::Done), over);
    assert_eq!(over.step(Event::Word(0)), over);
    assert_eq!(over.replay(&[Event::Done, Event::Word(0xC000_0040), Event::Done]), over);
}

#[test]
fn write_waits_exactly_while_the_fifo_is_full() {
    let mut board = Board::new(succeed);
    board.outbound_status.extend([FULL, FULL, 0]);
    let result = send_message(&mut board, MailboxChannel::PropertyTagsVc, 0x0008_1230, request());
    assert!(result.is_ok());
    let first_write =
        board.log.iter().position(|action| matches!(action, Action::Write(_, _))).unwrap();
    assert_eq!(
        board.log[..=first_write],
        [
            Action::CleanInvalidate,
            Action::Read(Port::OutboundStatus),
            Action::Read(Port::OutboundStatus),
            Action::Read(Port::OutboundStatus),
            Action::Write(Port::OutboundData, 0xC008_1238),
        ]
    );
    assert_eq!(board.count(Action::Read(Port::OutboundStatus)) - 1, 2);
    assert!(board.outbound_status.is_empty());
}

#[test]
fn write_is_not_pending_before_the_full_flag_clears() {
    let waiting = Exchange::new(MailboxChannel::PropertyTagsVc, 0x0008_1230).step(Event::Done);
    let mut exchange = waiting;
    let mut polls = 0;
    for status in [FULL, FULL | EMPTY, FULL | 1, 0xFFFF_FFFF] {
        exchange = exchange.step(Event::Word(status));
        polls += 1;
        assert_eq!(exchange, waiting);
        assert_eq!(exchange.pending(), Action::Read(Port::OutboundStatus));
    }
    assert_eq!(polls, 4);
    exchange = exchange.step(Event::Word(EMPTY));
    assert_eq!(exchange.pending(), Action::Write(Port::OutboundData, 0xC008_1238));
}

#[test]
fn read_waits_while_the_fifo_is_empty() {
    let mut board = Board::new(succeed);
    board.inbound_status.extend([EMPTY, EMPTY | FULL, EMPTY, 0]);
    let result = send_message(&mut board, MailboxChannel::PropertyTagsVc, 0x0008_1230, request());
    assert!(result.is_ok());
    assert_eq!(board.count(Action::Read(Port::InboundStatus)), 4);
    assert_eq!(board.count(Action::Read(Port::InboundData)), 1);
    let fetch =
        board.log.iter().position(|&action| action == Action::Read(Port::InboundData)).unwrap();
    assert_eq!(board.log[fetch - 4..fetch], [Action::Read(Port::InboundStatus); 4]);
}

#[test]
fn read_skips_words_for_other_channels() {
    let mut board = Board::new(ignore);
    board.inbound.extend([0x0000_0102, 0x0000_0208, 0x0000_0308, 0x0000_0401]);
    board.inbound_status.extend([0, 0, 0, 0]);
    board.memory.insert(0x0008_1230, request());
    let mut exchange = Exchange::new(MailboxChannel::PropertyTagsVc, 0x0008_1230)
        .replay(&[Event::Done, Event::Word(0), Event::Done]);
    assert_eq!(exchange.phase, Phase::AwaitResponse);
    let mut returned = None;
    while exchange.phase != Phase::Refresh {
        let event = match exchange.pending() {
            Action::Read(port) => {
                let word = board.load(port);
                if port == Port::InboundData {
                    returned = read(MailboxChannel::PropertyTagsVc, word);
                }
                Event::Word(word)
            }
            other => panic!("unexpected action {:?}", other),
        };
        exchange = exchange.step(event);
    }
    assert_eq!(returned, Some(0x0000_0200));
    assert_eq!(board.taken, [0x0000_0102, 0x0000_0208]);
    assert_eq!(board.inbound, [0x0000_0308, 0x0000_0401]);
}

#[test]
fn foreign_traffic_before_the_answer_is_dropped() {
    let mut board = Board::new(succeed);
    board.inbound.extend([0x0000_0102, 0xC008_1239, 0xC008_1230]);
    let result = send_message(&mut board, MailboxChannel::PropertyTagsVc, 0x0008_1230, request());
    assert_eq!(result, Ok(succeed(request())));
    assert_eq!(board.taken, [0x0000_0102, 0xC008_1239, 0xC008_1230, 0xC008_1238]);
    assert_eq!(board.accepted, [0xC008_1230]);
    assert_eq!(board.count(Action::Read(Port::InboundData)), 4);
    assert!(board.inbound.is_empty());
}

#[test]
fn send_goes_through_the_hardware_in_order() {
    let mut board = Board::new(succeed);
    let result = send_message(&mut board, MailboxChannel::PropertyTagsVc, 0x0008_1230, request());
    assert!(result.is_ok());
    assert_eq!(
        board.log,
        [
            Action::CleanInvalidate,
            Action::Read(Port::OutboundStatus),
            Action::Write(Port::OutboundData, 0xC008_1238),
            Action::Read(Port::InboundStatus),
            Action::Read(Port::InboundData),
            Action::CleanInvalidate,
            Action::Reload(0x0008_1230),
        ]
    );
}

#[test]
fn send_returns_the_message_as_the_responder_wrote_it() {
    let mut board = Board::new(succeed);
    let result = send_message(&mut board, MailboxChannel::PropertyTagsVc, 0x0008_1230, request());
    assert_eq!(
        result,
        Ok(ClockRate { size: 32, state: 0x8000_0000, tag: 0x0003_0002, clock: 4, rate: 250_000_000 })
    );
}

#[test]
fn send_fails_on_an_error_response() {
    let mut board = Board::new(fail);
    let result = send_message(&mut board, MailboxChannel::PropertyTagsVc, 0x0008_1230, request());
    assert_eq!(result, Err("unable to send mailbox property tag message."));
}

#[test]
fn send_fails_on_an_unrecognized_state() {
    let mut board = Board::new(garble);
    let result = send_message(&mut board, MailboxChannel::PropertyTagsVc, 0x0008_1230, request());
    assert_eq!(result, Err(SEND_FAILED));
}

#[test]
fn send_fails_when_the_message_was_left_untouched() {
    let mut board = Board::new(ignore);
    let result = send_message(&mut board, MailboxChannel::PropertyTagsVc, 0x0008_1230, request());
    assert_eq!(result, Err(SEND_FAILED));
}

#[test]
fn sending_twice_makes_two_exchanges() {
    let mut board = Board::new(succeed);
    let first = send_message(&mut board, MailboxChannel::PropertyTagsVc, 0x0008_1230, request());
    assert_eq!(first, Ok(succeed(request())));
    assert_eq!(board.log.len(), 7);
    board.responder = fail;
    let second = send_message(&mut board, MailboxChannel::PropertyTagsVc, 0x0008_1230, request());
    assert_eq!(second, Err(SEND_FAILED));
    assert_eq!(board.log.len(), 14);
    assert_eq!(board.log[..7], board.log[7..]);
    assert_eq!(board.count(Action::CleanInvalidate), 4);
    assert_eq!(board.count(Action::Write(Port::OutboundData, 0xC008_1238)), 2);
    assert_eq!(board.taken, [0xC008_1238, 0xC008_1238]);
}

#[test]
fn replay_gives_the_state_after_the_last_report() {
    let begin = Exchange::new(MailboxChannel::PropertyTagsArm, 0x0000_4000);
    assert_eq!(begin.replay(&[]), begin);
    let waiting = begin.replay(&[Event::Done, Event::Word(FULL), Event::Word(FULL)]);
    assert_eq!(waiting.phase, Phase::AwaitSpace);
    let posting = waiting.replay(&[Event::Word(0)]);
    assert_eq!(posting.pending(), Action::Write(Port::OutboundData, 0xC000_4009));
    let end = begin.replay(&[
        Event::Done,
        Event::Word(FULL),
        Event::Word(0),
        Event::Done,
        Event::Word(EMPTY),
        Event::Word(0),
        Event::Word(0xC000_4008),
        Event::Word(0),
        Event::Word(0xC000_4009),
        Event::Done,
    ]);
    assert_eq!(
        end,
        Exchange { channel: MailboxChannel::PropertyTagsArm, bus: 0xC000_4000, phase: Phase::Reload }
    );
    assert_eq!(end.pending(), Action::Reload(0x0000_4000));
}

#[test]
fn replay_agrees_with_stepping() {
    let events = [
        Event::Done,
        Event::Done,
        Event::Word(FULL),
        Event::Word(3),
        Event::Word(7),
        Event::Done,
        Event::Word(EMPTY),
        Event::Done,
        Event::Word(0),
        Event::Word(0x52),
    ];
    let begin = Exchange::new(MailboxChannel::VirtualUart, 0x50);
    let mut stepped = begin;
    for (seen, event) in events.iter().enumerate() {
        assert_eq!(begin.replay(&events[..seen]), stepped);
        stepped = stepped.step(*event);
    }
    assert_eq!(begin.replay(&events), stepped);
    assert_eq!(stepped.phase, Phase::Refresh);
}

#[test]
fn posted_word_reads_back_as_the_bus_address() {
    for address in [0u32, 0x10, 0x0008_1230, 0x3FFF_FFF0] {
        let exchange = Exchange::new(MailboxChannel::PropertyTagsVc, address)
            .replay(&[Event::Done, Event::Word(0)]);
        match exchange.pending() {
            Action::Write(Port::OutboundData, word) => {
                assert_eq!(word, (address | 0xC000_0000) | 8);
                assert_eq!(read(MailboxChannel::PropertyTagsVc, word), Some(address | 0xC000_0000));
                assert_eq!(import(address | 0xC000_0000), address);
            }
            other => panic!("unexpected action {:?}", other),
        }
    }
}

#[test]
fn registers_are_used_in_their_direction_only() {
    let mut board = Board::new(succeed);
    board.outbound_status.extend([FULL, 0]);
    board.inbound.extend([0x17, 0x21]);
    send_message(&mut board, MailboxChannel::FrameBuffer, 0x0000_0020, request()).unwrap();
    for action in &board.log {
        match action {
            Action::Read(port) => assert!(!port.is_write_only()),
            Action::Write(port, _) => assert!(port.is_write_only()),
            Action::CleanInvalidate | Action::Reload(_) => {}
        }
    }
}

#[test]
fn nothing_is_posted_while_every_status_is_full() {
    let begin = Exchange::new(MailboxChannel::PropertyTagsVc, 0x0008_1230);
    let mut events = vec![Event::Done];
    for round in 0..100u32 {
        events.push(Event::Word(FULL | round));
        events.push(Event::Done);
        let state = begin.replay(&events);
        assert_eq!(state.phase, Phase::AwaitSpace);
        assert_eq!(state.pending(), Action::Read(Port::OutboundStatus));
    }
}

#[test]
fn exchange_does_not_end_without_an_answer() {
    let waiting = Exchange::new(MailboxChannel::PropertyTagsVc, 0x0008_1230)
        .replay(&[Event::Done, Event::Word(0), Event::Done]);
    let mut events = Vec::new();
    for word in [0x0000_0102u32, 0xC008_1239, 0xC008_1230, 0xFFFF_FFF7, 0x0000_0001] {
        events.push(Event::Word(0));
        events.push(Event::Word(word));
        let state = waiting.replay(&events);
        assert_eq!(state, waiting);
        assert!(!state.is_over());
    }
    events.push(Event::Word(0));
    events.push(Event::Word(0x0000_0008));
    assert_eq!(waiting.replay(&events).phase, Phase::Refresh);
}
