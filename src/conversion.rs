//! One conversion as a sequence of collaborator operations: select the chip,
//! exchange the request frame, deselect the chip, decode the reply.
//!
//! A [`Conversion`] names the operation due next; whoever owns the SPI bus and
//! the chip select line performs it and hands the outcome back.
use vstd::prelude::*;

use crate::channel::{Channels4, Channels8};
use crate::protocol::{decode, decode_spec, lemma_decode_bounded, request_frame, request_spec};

verus! {

/// Why a read failed, with the error that the failing collaborator reported.
#[derive(Debug)]
pub enum Error<SpiE, PinE> {
    /// The SPI transfer failed.
    Spi(SpiE),
    /// Driving the chip select line failed.
    Pin(PinE),
}

/// The operation that a conversion asks for next.
#[derive(Clone, Copy, Debug)]
pub enum Action {
    /// Drive chip select low (active).
    Select,
    /// Transfer these bytes full-duplex; the reply overwrites them.
    Transfer([u8; 3]),
    /// Drive chip select high (inactive).
    Deselect,
    /// Nothing more: the result is ready.
    Stop,
}

/// The outcome of an operation, as the collaborator reported it.
pub enum Event<SpiE, PinE> {
    /// Outcome of driving the chip select line.
    Pin(Result<(), PinE>),
    /// Outcome of the transfer: the bytes received, or the bus error.
    Bus(Result<[u8; 3], SpiE>),
}

/// How far a conversion has got.
pub enum Stage<SpiE, PinE> {
    /// Waiting for chip select to go active.
    Selecting,
    /// Waiting for the transfer of the request frame.
    Transferring,
    /// Waiting for chip select to go inactive; holds the reply received.
    Deselecting([u8; 3]),
    /// Over, with its result.
    Finished(Result<u16, Error<SpiE, PinE>>),
}

/// The operation due at `stage`, for a conversion that sends `frame`.
pub open spec fn pending<SpiE, PinE>(frame: [u8; 3], stage: Stage<SpiE, PinE>) -> Action {
    match stage {
        Stage::Selecting => Action::Select,
        Stage::Transferring => Action::Transfer(frame),
        Stage::Deselecting(_) => Action::Deselect,
        Stage::Finished(_) => Action::Stop,
    }
}

/// Whether `event` reports the outcome of the operation due at `stage`.
pub open spec fn answers<SpiE, PinE>(stage: Stage<SpiE, PinE>, event: Event<SpiE, PinE>) -> bool {
    match stage {
        Stage::Selecting => event is Pin,
        Stage::Transferring => event is Bus,
        Stage::Deselecting(_) => event is Pin,
        Stage::Finished(_) => false,
    }
}

/// The stage after `event`. A failure ends the conversion at once with the
/// collaborator's error; an event that answers nothing due is ignored.
pub open spec fn next_stage<SpiE, PinE>(
    stage: Stage<SpiE, PinE>,
    event: Event<SpiE, PinE>,
) -> Stage<SpiE, PinE> {
    match stage {
        Stage::Selecting => match event {
            Event::Pin(Ok(_)) => Stage::Transferring,
            Event::Pin(Err(e)) => Stage::Finished(Err(Error::Pin(e))),
            _ => stage,
        },
        Stage::Transferring => match event {
            Event::Bus(Ok(reply)) => Stage::Deselecting(reply),
            Event::Bus(Err(e)) => Stage::Finished(Err(Error::Spi(e))),
            _ => stage,
        },
        Stage::Deselecting(reply) => match event {
            Event::Pin(Ok(_)) => Stage::Finished(Ok(decode_spec(reply[1], reply[2]))),
            Event::Pin(Err(e)) => Stage::Finished(Err(Error::Pin(e))),
            _ => stage,
        },
        Stage::Finished(_) => stage,
    }
}

/// A conversion in progress: the request frame it sends and its stage.
pub struct Conversion<SpiE, PinE> {
    frame: [u8; 3],
    stage: Stage<SpiE, PinE>,
}

impl<SpiE, PinE> Conversion<SpiE, PinE> {
    /// The request frame that this conversion sends.
    pub closed spec fn frame(self) -> [u8; 3] {
        self.frame
    }

    /// How far this conversion has got.
    pub closed spec fn stage(self) -> Stage<SpiE, PinE> {
        self.stage
    }

    /// A conversion on the channel at `address`, not yet begun.
    fn new(address: u8) -> (r: Self)
        requires
            address < 8,
        ensures
            r.frame()@ == request_spec(address),
            r.stage() is Selecting,
    {
        Conversion { frame: request_frame(address), stage: Stage::Selecting }
    }

    /// A conversion on an MCP3008 channel, not yet begun.
    pub fn channel8(ch: Channels8) -> (r: Self)
        ensures
            r.frame()@ == request_spec(ch.address()),
            r.stage() is Selecting,
    {
        Conversion::new(ch.addr())
    }

    /// A conversion on an MCP3004 channel, not yet begun.
    pub fn channel4(ch: Channels4) -> (r: Self)
        ensures
            r.frame()@ == request_spec(ch.address()),
            r.stage() is Selecting,
    {
        Conversion::new(ch.addr())
    }

    /// The operation due next.
    pub fn action(&self) -> (r: Action)
        ensures
            r == pending(self.frame(), self.stage()),
    {
        match self.stage {
            Stage::Selecting => Action::Select,
            Stage::Transferring => Action::Transfer(self.frame),
            Stage::Deselecting(_) => Action::Deselect,
            Stage::Finished(_) => Action::Stop,
        }
    }

    /// The conversion after the collaborator reported `event`.
    pub fn advance(self, event: Event<SpiE, PinE>) -> (r: Self)
        ensures
            r.frame() == self.frame(),
            r.stage() == next_stage(self.stage(), event),
    {
        let frame = self.frame;
        let stage = match self.stage {
            Stage::Selecting => match event {
                Event::Pin(Ok(_)) => Stage::Transferring,
                Event::Pin(Err(e)) => Stage::Finished(Err(Error::Pin(e))),
                Event::Bus(_) => Stage::Selecting,
            },
            Stage::Transferring => match event {
                Event::Bus(Ok(reply)) => Stage::Deselecting(reply),
                Event::Bus(Err(e)) => Stage::Finished(Err(Error::Spi(e))),
                Event::Pin(_) => Stage::Transferring,
            },
            Stage::Deselecting(reply) => match event {
                Event::Pin(Ok(_)) => Stage::Finished(Ok(decode(reply[1], reply[2]))),
                Event::Pin(Err(e)) => Stage::Finished(Err(Error::Pin(e))),
                Event::Bus(_) => Stage::Deselecting(reply),
            },
            Stage::Finished(r) => Stage::Finished(r),
        };
        Conversion { frame, stage }
    }

    /// The result, once the conversion is over.
    pub fn result(self) -> (r: Option<Result<u16, Error<SpiE, PinE>>>)
        ensures
            self.stage() is Finished <==> r is Some,
            self.stage() matches Stage::Finished(res) ==> r == Some(res),
    {
        match self.stage {
            Stage::Finished(res) => Some(res),
            _ => None,
        }
    }
}

/// The stage reached from `stage` once the events `events` have come, in order.
pub open spec fn run<SpiE, PinE>(
    stage: Stage<SpiE, PinE>,
    events: Seq<Event<SpiE, PinE>>,
) -> Stage<SpiE, PinE>
    decreases events.len(),
{
    if events.len() == 0 {
        stage
    } else {
        run(next_stage(stage, events[0]), events.drop_first())
    }
}

/// The operations performed on the way from `stage` through `events`: each
/// operation that was due when an event reported its outcome.
pub open spec fn performed<SpiE, PinE>(
    frame: [u8; 3],
    stage: Stage<SpiE, PinE>,
    events: Seq<Event<SpiE, PinE>>,
) -> Seq<Action>
    decreases events.len(),
{
    if events.len() == 0 {
        seq![]
    } else {
        let done = if answers(stage, events[0]) {
            seq![pending(frame, stage)]
        } else {
            seq![]
        };
        done + performed(frame, next_stage(stage, events[0]), events.drop_first())
    }
}

/// The operations that can lead from `stage` to the result `r`.
spec fn leads_to<SpiE, PinE>(
    frame: [u8; 3],
    stage: Stage<SpiE, PinE>,
    r: Result<u16, Error<SpiE, PinE>>,
    ops: Seq<Action>,
) -> bool {
    &&& !(stage is Finished) ==> !(r matches Ok(v) && v > 1023)
    &&& match stage {
        Stage::Finished(res) => ops == Seq::<Action>::empty() && r == res,
        Stage::Deselecting(_) => ops == seq![Action::Deselect] && !(r matches Err(Error::Spi(_))),
        Stage::Transferring => match r {
            Err(Error::Spi(_)) => ops == seq![Action::Transfer(frame)],
            _ => ops == seq![Action::Transfer(frame), Action::Deselect],
        },
        Stage::Selecting => match r {
            Ok(_) => ops == seq![Action::Select, Action::Transfer(frame), Action::Deselect],
            Err(Error::Spi(_)) => ops == seq![Action::Select, Action::Transfer(frame)],
            Err(Error::Pin(_)) => ops == seq![Action::Select] || ops == seq![
                Action::Select,
                Action::Transfer(frame),
                Action::Deselect,
            ],
        },
    }
}

/// Whatever result a run from `stage` ends with, the operations performed on
/// the way are those that `leads_to` allows for it.
proof fn lemma_run_leads_to<SpiE, PinE>(
    frame: [u8; 3],
    stage: Stage<SpiE, PinE>,
    events: Seq<Event<SpiE, PinE>>,
)
    requires
        run(stage, events) is Finished,
    ensures
        leads_to(frame, stage, run(stage, events)->Finished_0, performed(frame, stage, events)),
    decreases events.len(),
{
    if events.len() > 0 {
        let rest = events.drop_first();
        let next = next_stage(stage, events[0]);
        lemma_run_leads_to(frame, next, rest);
        if let Stage::Deselecting(reply) = stage {
            lemma_decode_bounded(reply[1], reply[2]);
        }
        let tail = performed(frame, next, rest);
        assert(run(stage, events) == run(next, rest));
        if !answers(stage, events[0]) {
            assert(performed(frame, stage, events) =~= tail);
        } else {
            let op = pending(frame, stage);
            assert(performed(frame, stage, events) =~= seq![op] + tail);
            if next is Finished {
                assert(performed(frame, stage, events) =~= seq![op]);
            } else if next is Transferring {
                assert(seq![op] + tail =~= seq![Action::Select, Action::Transfer(frame), Action::Deselect]
                    || seq![op] + tail =~= seq![Action::Select, Action::Transfer(frame)]);
            } else {
                assert(seq![op] + tail =~= seq![Action::Transfer(frame), Action::Deselect]);
            }
        }
    }
}

/// A conversion that ends with a value has performed exactly three operations:
/// select, one transfer of its request frame, deselect, in that order.
pub proof fn lemma_successful_read_sequence<SpiE, PinE>(
    c: Conversion<SpiE, PinE>,
    events: Seq<Event<SpiE, PinE>>,
)
    requires
        c.stage() is Selecting,
        run(c.stage(), events) matches Stage::Finished(Ok(_)),
    ensures
        performed(c.frame(), c.stage(), events) == seq![
            Action::Select,
            Action::Transfer(c.frame()),
            Action::Deselect,
        ],
{
    lemma_run_leads_to(c.frame(), c.stage(), events);
}

/// A conversion whose value comes back from a successful run yields at most 1023.
pub proof fn lemma_successful_read_bounded<SpiE, PinE>(
    c: Conversion<SpiE, PinE>,
    events: Seq<Event<SpiE, PinE>>,
)
    requires
        c.stage() is Selecting,
        run(c.stage(), events) matches Stage::Finished(Ok(_)),
    ensures
        run(c.stage(), events)->Finished_0->Ok_0 <= 1023,
{
    lemma_run_leads_to(c.frame(), c.stage(), events);
}

/// Select, a transfer that returns `reply`, and deselect, all successful, end a
/// conversion with the value decoded from the second and third bytes of `reply`.
pub proof fn lemma_successful_read_value<SpiE, PinE>(c: Conversion<SpiE, PinE>, reply: [u8; 3])
    requires
        c.stage() is Selecting,
    ensures
        run(
            c.stage(),
            seq![
                Event::<SpiE, PinE>::Pin(Ok(())),
                Event::Bus(Ok(reply)),
                Event::Pin(Ok(())),
            ],
        ) == Stage::<SpiE, PinE>::Finished(Ok(decode_spec(reply[1], reply[2]))),
{
    let events = seq![
        Event::<SpiE, PinE>::Pin(Ok(())),
        Event::Bus(Ok(reply)),
        Event::Pin(Ok(())),
    ];
    assert(events.drop_first().drop_first().drop_first() =~= Seq::<Event<SpiE, PinE>>::empty());
    reveal_with_fuel(run, 4);
}

/// A conversion whose transfer failed ends with the bus error, having selected
/// the chip and attempted the transfer only: chip select is never driven inactive.
pub proof fn lemma_failed_transfer_stops<SpiE, PinE>(
    c: Conversion<SpiE, PinE>,
    events: Seq<Event<SpiE, PinE>>,
)
    requires
        c.stage() is Selecting,
        run(c.stage(), events) matches Stage::Finished(Err(Error::Spi(_))),
    ensures
        performed(c.frame(), c.stage(), events) == seq![Action::Select, Action::Transfer(c.frame())],
        forall|i: int|
            0 <= i < performed(c.frame(), c.stage(), events).len() ==> !(#[trigger] performed(
                c.frame(),
                c.stage(),
                events,
            )[i] is Deselect),
{
    lemma_run_leads_to(c.frame(), c.stage(), events);
}

/// A conversion that ends with a chip select error either failed to select the
/// chip, and did nothing else, or completed its transfer and then failed to
/// deselect: a select line failure is never reported as a bus failure.
pub proof fn lemma_pin_error_sequence<SpiE, PinE>(
    c: Conversion<SpiE, PinE>,
    events: Seq<Event<SpiE, PinE>>,
)
    requires
        c.stage() is Selecting,
        run(c.stage(), events) matches Stage::Finished(Err(Error::Pin(_))),
    ensures
        performed(c.frame(), c.stage(), events) == seq![Action::Select]
            || performed(c.frame(), c.stage(), events) == seq![
            Action::Select,
            Action::Transfer(c.frame()),
            Action::Deselect,
        ],
{
    lemma_run_leads_to(c.frame(), c.stage(), events);
}

/// After a successful select and transfer, a failed deselect ends the
/// conversion with that chip select error, not with a bus error.
pub proof fn lemma_failed_deselect_reports_pin<SpiE, PinE>(
    c: Conversion<SpiE, PinE>,
    reply: [u8; 3],
    e: PinE,
)
    requires
        c.stage() is Selecting,
    ensures
        run(
            c.stage(),
            seq![Event::<SpiE, PinE>::Pin(Ok(())), Event::Bus(Ok(reply)), Event::Pin(Err(e))],
        ) == Stage::<SpiE, PinE>::Finished(Err(Error::Pin(e))),
{
    let events = seq![Event::<SpiE, PinE>::Pin(Ok(())), Event::Bus(Ok(reply)), Event::Pin(Err(e))];
    assert(events.drop_first().drop_first().drop_first() =~= Seq::<Event<SpiE, PinE>>::empty());
    reveal_with_fuel(run, 4);
}

} // verus!
