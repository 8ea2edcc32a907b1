//! The call protocol of one channel, as a machine that decides and a
//! driver that acts.
//!
//! The channel is half duplex and carries one call at a time. A call goes
//! through four states: from `Idle` it enters `Draining`, in which whatever
//! the channel still holds is read and thrown away without ever waiting,
//! and which a read that returns nothing ends, since the device has hung
//! up; then `Sending`, in which the frame is written; then `AwaitingResponse`,
//! in which the response is read chunk by chunk until its frame closes; and
//! then it is back in `Idle`. The machine tells its driver what to do next,
//! and the driver reports what came of it.

use crate::call::Call;
use crate::codec::{decode, decoded, encode, payload_of, CAPACITY};
use crate::error::{BusError, BusFailure};
use crate::frame::{fed, frame_of, FrameModel, FrameReader, FrameStep};
use crate::json::{Json, JsonValue};
use crate::response::{MessageType, Response, RpcFailure};
use crate::types::DeviceData;
use vstd::prelude::*;
use vstd::slice::slice_to_vec;

verus! {

/// Where a channel stands in a call.
#[derive(Debug, Clone, Copy, PartialEq, Eq, Structural)]
pub enum BusState {
    Idle,
    Draining,
    Sending,
    AwaitingResponse,
}

/// What the driver reports.
#[derive(Debug, PartialEq, Eq)]
pub enum BusEvent {
    /// The check without waiting found the channel readable, or not.
    Readable(bool),
    /// One read was made and the bytes it returned, this many, were thrown
    /// away; none if the stream has ended.
    Discarded(usize),
    /// The frame was written in full.
    Written,
    /// The channel became readable and one read returned these bytes; none
    /// if the stream has ended.
    Chunk(Vec<u8>),
    /// The device failed.
    Failed,
}

/// What the driver is to do next.
#[derive(Debug, PartialEq, Eq)]
pub enum BusAction {
    /// Check, without waiting, whether the channel is readable, and report
    /// `Readable`.
    Poll,
    /// Read once, throw away what was read, and report `Discarded` with
    /// the number of bytes that the read returned.
    Discard,
    /// Write all of these bytes, and report `Written`.
    Write(Vec<u8>),
    /// Wait until the channel is readable, read once, and report `Chunk`.
    Receive,
    /// The call has ended, with this response or this failure.
    Done(Result<Response<Json>, BusError>),
}

/// The model of a [`BusEvent`].
pub enum EventModel {
    Readable(bool),
    Discarded(usize),
    Written,
    Chunk(Seq<u8>),
    Failed,
}

/// The model of a [`BusAction`].
pub enum ActionModel {
    Poll,
    Discard,
    Write(Seq<u8>),
    Receive,
    Done(Result<(MessageType, JsonValue), BusFailure>),
}

impl View for BusEvent {
    type V = EventModel;

    open spec fn view(&self) -> EventModel {
        match self {
            BusEvent::Readable(ready) => EventModel::Readable(*ready),
            BusEvent::Discarded(count) => EventModel::Discarded(*count),
            BusEvent::Written => EventModel::Written,
            BusEvent::Chunk(bytes) => EventModel::Chunk(bytes@),
            BusEvent::Failed => EventModel::Failed,
        }
    }
}

/// What a call returned, by its model.
pub open spec fn outcome(returned: Result<Response<Json>, BusError>) -> Result<
    (MessageType, JsonValue),
    BusFailure,
> {
    match returned {
        Ok(response) => Ok((response.msg_type, response.data@)),
        Err(e) => Err(e@),
    }
}

impl View for BusAction {
    type V = ActionModel;

    open spec fn view(&self) -> ActionModel {
        match self {
            BusAction::Poll => ActionModel::Poll,
            BusAction::Discard => ActionModel::Discard,
            BusAction::Write(bytes) => ActionModel::Write(bytes@),
            BusAction::Receive => ActionModel::Receive,
            BusAction::Done(returned) => ActionModel::Done(outcome(*returned)),
        }
    }
}

/// The model of a channel: its state, the frame that waits to be written,
/// and what has been read of the response.
pub struct BusModel {
    pub state: BusState,
    pub outgoing: Seq<u8>,
    pub incoming: Seq<u8>,
}

impl BusModel {
    /// A channel between calls.
    pub open spec fn idle() -> BusModel {
        BusModel { state: BusState::Idle, outgoing: Seq::empty(), incoming: Seq::empty() }
    }

    /// A channel on which a call has just begun.
    pub open spec fn begun(frame: Seq<u8>) -> BusModel {
        BusModel { state: BusState::Draining, outgoing: frame, incoming: Seq::empty() }
    }

    /// Whether, in this state, the driver may report `event`.
    pub open spec fn accepts(self, event: EventModel) -> bool {
        match self.state {
            BusState::Idle => false,
            BusState::Draining => event is Readable || event is Discarded || event is Failed,
            BusState::Sending => event is Written || event is Failed,
            BusState::AwaitingResponse => event is Chunk || event is Failed,
        }
    }

    /// The state after `event`, and what the driver is to do next.
    ///
    /// While draining, a read that returned bytes is followed by another
    /// check, and a read that returned none ends the call: the stream has
    /// ended, and to check again would find it readable for ever.
    pub open spec fn next(self, event: EventModel) -> (BusModel, ActionModel) {
        match event {
            EventModel::Failed => (BusModel::idle(), ActionModel::Done(Err(BusFailure::Io))),
            EventModel::Readable(true) => (self, ActionModel::Discard),
            EventModel::Discarded(count) => {
                if count == 0 {
                    (BusModel::idle(), ActionModel::Done(Err(BusFailure::Io)))
                } else {
                    (self, ActionModel::Poll)
                }
            },
            EventModel::Readable(false) => (
                BusModel { state: BusState::Sending, outgoing: Seq::empty(), incoming: Seq::empty() },
                ActionModel::Write(self.outgoing),
            ),
            EventModel::Written => (
                BusModel {
                    state: BusState::AwaitingResponse,
                    outgoing: Seq::empty(),
                    incoming: Seq::empty(),
                },
                ActionModel::Receive,
            ),
            EventModel::Chunk(bytes) => match fed(self.incoming, bytes) {
                FrameModel::More => (
                    BusModel {
                        state: BusState::AwaitingResponse,
                        outgoing: Seq::empty(),
                        incoming: self.incoming + bytes,
                    },
                    ActionModel::Receive,
                ),
                FrameModel::Broken => (
                    BusModel::idle(),
                    ActionModel::Done(Err(BusFailure::Framing)),
                ),
                FrameModel::Frame(payload) => (BusModel::idle(), ActionModel::Done(decoded(payload))),
            },
        }
    }

    /// The state after a run of events, each of them accepted in turn, and
    /// what the driver was told after each.
    pub open spec fn run(self, events: Seq<EventModel>) -> (BusModel, Seq<ActionModel>)
        decreases events.len(),
    {
        if events.len() == 0 {
            (self, Seq::empty())
        } else {
            let (after, action) = self.next(events[0]);
            let (last, actions) = after.run(events.drop_first());
            (last, seq![action] + actions)
        }
    }
}

/// Whether every read of a drain returned something.
pub open spec fn all_positive(reads: Seq<usize>) -> bool {
    forall|i: int| 0 <= i < reads.len() ==> reads[i] > 0
}

/// What the driver reports while it drains a channel: readable and
/// discarded, once for each of `reads` with the number of bytes that the
/// read returned; and then either not readable, or, where the device has
/// hung up, readable once more and a read that returned nothing.
pub open spec fn drain_events(reads: Seq<usize>, hung_up: bool) -> Seq<EventModel>
    decreases reads.len(),
{
    if reads.len() == 0 {
        if hung_up {
            seq![EventModel::Readable(true), EventModel::Discarded(0)]
        } else {
            seq![EventModel::Readable(false)]
        }
    } else {
        seq![EventModel::Readable(true), EventModel::Discarded(reads[0])] + drain_events(
            reads.drop_first(),
            hung_up,
        )
    }
}

/// What the driver is told while it drains such a channel: to discard and
/// to check again, once for each read; and then either to write the frame,
/// or, where the device has hung up, to discard once more and that the call
/// has failed.
pub open spec fn drain_actions(reads: Seq<usize>, hung_up: bool, frame: Seq<u8>) -> Seq<
    ActionModel,
>
    decreases reads.len(),
{
    if reads.len() == 0 {
        if hung_up {
            seq![ActionModel::Discard, ActionModel::Done(Err(BusFailure::Io))]
        } else {
            seq![ActionModel::Write(frame)]
        }
    } else {
        seq![ActionModel::Discard, ActionModel::Poll] + drain_actions(
            reads.drop_first(),
            hung_up,
            frame,
        )
    }
}

/// Where a drain leaves the channel: ready to send, or, where the device
/// has hung up, idle again.
pub open spec fn drained(hung_up: bool) -> BusModel {
    if hung_up {
        BusModel::idle()
    } else {
        BusModel { state: BusState::Sending, outgoing: Seq::empty(), incoming: Seq::empty() }
    }
}

/// Draining does not wait and comes to an end.
///
/// However many reads find bytes on the channel, each of them is answered
/// with the order to throw them away and check again. The first check that
/// finds nothing ends the draining, and the frame is handed out to be
/// written. The first read that returns nothing ends it too: the device has
/// hung up, the call fails, and no further check or read is asked for. The
/// order to wait for the channel is not among the orders given.
pub proof fn lemma_drain_ends(frame: Seq<u8>, reads: Seq<usize>, hung_up: bool)
    requires
        all_positive(reads),
    ensures
        BusModel::begun(frame).run(drain_events(reads, hung_up)) == (
            drained(hung_up),
            drain_actions(reads, hung_up, frame),
        ),
        forall|i: int|
            0 <= i < drain_actions(reads, hung_up, frame).len() ==> !(#[trigger] drain_actions(
                reads,
                hung_up,
                frame,
            )[i] is Receive),
    decreases reads.len(),
{
    let start = BusModel::begun(frame);
    let events = drain_events(reads, hung_up);
    let none = Seq::<EventModel>::empty();
    if reads.len() == 0 {
        if hung_up {
            let tail = events.drop_first();
            assert(tail =~= seq![EventModel::Discarded(0)]);
            assert(tail.drop_first() =~= none);
            assert(start.next(events[0]).0 == start);
            assert(BusModel::idle().run(tail.drop_first()).1 =~= Seq::<ActionModel>::empty());
            assert(start.run(tail).1 =~= seq![ActionModel::Done(Err(BusFailure::Io))]);
            assert(start.run(events).1 =~= drain_actions(reads, hung_up, frame));
        } else {
            assert(events.drop_first() =~= none);
            assert(start.next(events[0]).0.run(events.drop_first()).1 =~= Seq::<
                ActionModel,
            >::empty());
            assert(start.run(events).1 =~= drain_actions(reads, hung_up, frame));
        }
    } else {
        let rest = drain_events(reads.drop_first(), hung_up);
        assert(all_positive(reads.drop_first())) by {
            assert forall|i: int| 0 <= i < reads.drop_first().len() implies reads.drop_first()[i]
                > 0 by {
                assert(reads.drop_first()[i] == reads[i + 1]);
            }
        }
        lemma_drain_ends(frame, reads.drop_first(), hung_up);
        assert(reads[0] > 0);
        assert(events.drop_first() =~= seq![EventModel::Discarded(reads[0])] + rest);
        assert(events.drop_first().drop_first() =~= rest);
        assert(start.next(events[0]).0 == start);
        assert(start.next(events.drop_first()[0]).0 == start);
        let tail = start.run(events.drop_first());
        assert(tail.1 =~= seq![ActionModel::Poll] + drain_actions(
            reads.drop_first(),
            hung_up,
            frame,
        ));
        assert(start.run(events).1 =~= drain_actions(reads, hung_up, frame));
    }
}

/// A read that returned nothing is never repeated: while draining, it is
/// answered with the end of the call.
pub proof fn lemma_empty_read_ends_drain(bus: BusModel)
    requires
        bus.state == BusState::Draining,
    ensures
        bus.accepts(EventModel::Discarded(0)),
        bus.next(EventModel::Discarded(0)) == (
            BusModel::idle(),
            ActionModel::Done(Err(BusFailure::Io)),
        ),
{
}

/// A call is in flight until its end is handed out: an accepted event
/// brings the channel back to `Idle` exactly when the machine answers it
/// with `Done`.
pub proof fn lemma_idle_only_when_done(bus: BusModel, event: EventModel)
    requires
        bus.accepts(event),
    ensures
        bus.next(event).0.state == BusState::Idle <==> bus.next(event).1 is Done,
        bus.next(event).0.state != BusState::Idle ==> bus.next(event).0.accepts(EventModel::Failed),
{
}

/// The protocol state of one channel.
///
/// The value is owned by whoever drives the channel, and every operation
/// on it takes it exclusively, so two calls cannot be interleaved.
pub struct DeviceBus {
    state: BusState,
    outgoing: Vec<u8>,
    reader: FrameReader,
}

impl View for DeviceBus {
    type V = BusModel;

    closed spec fn view(&self) -> BusModel {
        BusModel { state: self.state, outgoing: self.outgoing@, incoming: self.reader@ }
    }
}

impl DeviceBus {
    /// What holds of every bus: there is a frame waiting only while the
    /// channel is drained, and a response under way only while one is
    /// awaited.
    pub closed spec fn well_formed(&self) -> bool {
        &&& self.reader.well_formed()
        &&& self.state != BusState::Draining ==> self.outgoing@ == Seq::<u8>::empty()
        &&& self.state != BusState::AwaitingResponse ==> self.reader@ == Seq::<u8>::empty()
    }

    /// A bus between calls.
    pub fn new() -> (bus: DeviceBus)
        ensures
            bus.well_formed(),
            bus@ == BusModel::idle(),
    {
        DeviceBus { state: BusState::Idle, outgoing: Vec::new(), reader: FrameReader::new() }
    }

    /// Where the channel stands.
    pub fn state(&self) -> (state: BusState)
        ensures
            state == self@.state,
    {
        self.state
    }

    /// Whether no call is in flight.
    pub fn is_idle(&self) -> (idle: bool)
        ensures
            idle == (self@.state == BusState::Idle),
    {
        self.state == BusState::Idle
    }

    /// Whether, in this state, the driver may report `event`.
    pub fn accepts(&self, event: &BusEvent) -> (accepted: bool)
        ensures
            accepted == self@.accepts(event@),
    {
        match self.state {
            BusState::Idle => false,
            BusState::Draining => match event {
                BusEvent::Readable(_) => true,
                BusEvent::Discarded(_) => true,
                BusEvent::Failed => true,
                _ => false,
            },
            BusState::Sending => match event {
                BusEvent::Written => true,
                BusEvent::Failed => true,
                _ => false,
            },
            BusState::AwaitingResponse => match event {
                BusEvent::Chunk(_) => true,
                BusEvent::Failed => true,
                _ => false,
            },
        }
    }

    /// Begins a call.
    ///
    /// The call is encoded at once. If it is too large for the working
    /// buffer it fails here, the channel stays idle, and nothing is ever
    /// written for it. Otherwise the channel is to be drained first.
    pub fn call(&mut self, msg: Call) -> (r: Result<BusAction, BusError>)
        requires
            old(self).well_formed(),
            old(self)@.state == BusState::Idle,
        ensures
            final(self).well_formed(),
            match r {
                Ok(action) => {
                    &&& payload_of(msg.msg_type, msg.payload()).len() <= CAPACITY
                    &&& action@ == ActionModel::Poll
                    &&& final(self)@ == BusModel::begun(
                        frame_of(payload_of(msg.msg_type, msg.payload())),
                    )
                },
                Err(e) => {
                    &&& payload_of(msg.msg_type, msg.payload()).len() > CAPACITY
                    &&& e@ == BusFailure::Rpc(RpcFailure::MessageTooLarge)
                    &&& final(self)@ == old(self)@
                },
            },
    {
        match encode(msg) {
            Ok(framed) => {
                self.outgoing = framed;
                self.state = BusState::Draining;
                Ok(BusAction::Poll)
            },
            Err(e) => Err(e),
        }
    }

    /// Begins a call with a frame that the caller has put together.
    pub fn call_preserialized(&mut self, msg: &[u8]) -> (action: BusAction)
        requires
            old(self).well_formed(),
            old(self)@.state == BusState::Idle,
        ensures
            final(self).well_formed(),
            action@ == ActionModel::Poll,
            final(self)@ == BusModel::begun(msg@),
    {
        self.outgoing = slice_to_vec(msg);
        self.state = BusState::Draining;
        BusAction::Poll
    }

    /// Takes what the driver reports and says what it is to do next.
    pub fn step(&mut self, event: BusEvent) -> (action: BusAction)
        requires
            old(self).well_formed(),
            old(self)@.accepts(event@),
        ensures
            final(self).well_formed(),
            final(self)@ == old(self)@.next(event@).0,
            action@ == old(self)@.next(event@).1,
    {
        match event {
            BusEvent::Failed => {
                self.outgoing = Vec::new();
                self.reader.reset();
                self.state = BusState::Idle;
                BusAction::Done(Err(BusError::Io))
            },
            BusEvent::Readable(true) => BusAction::Discard,
            BusEvent::Discarded(count) => {
                if count == 0 {
                    self.outgoing = Vec::new();
                    self.reader.reset();
                    self.state = BusState::Idle;
                    BusAction::Done(Err(BusError::Io))
                } else {
                    BusAction::Poll
                }
            },
            BusEvent::Readable(false) => {
                let mut framed: Vec<u8> = Vec::new();
                std::mem::swap(&mut framed, &mut self.outgoing);
                self.state = BusState::Sending;
                BusAction::Write(framed)
            },
            BusEvent::Written => {
                self.state = BusState::AwaitingResponse;
                BusAction::Receive
            },
            BusEvent::Chunk(bytes) => match self.reader.feed(bytes.as_slice()) {
                FrameStep::More => BusAction::Receive,
                FrameStep::Broken => {
                    self.state = BusState::Idle;
                    BusAction::Done(Err(BusError::Framing))
                },
                FrameStep::Frame(payload) => {
                    self.state = BusState::Idle;
                    let returned = decode(payload.as_slice());
                    BusAction::Done(returned)
                },
            },
        }
    }

    /// The device that offers the kind `kind`: the id of the first entry of
    /// the directory that lists it, in the order of the directory, and
    /// `None` if no entry does.
    pub fn find(devices: &Vec<DeviceData>, kind: &str) -> (found: Option<String>)
        ensures
            match found {
                Some(id) => exists|at: int|
                    {
                        &&& 0 <= at < devices.len()
                        &&& (#[trigger] devices[at]).offers(kind@)
                        &&& id@ == devices[at].device_id@
                        &&& forall|before: int|
                            0 <= before < at ==> !(#[trigger] devices[before]).offers(kind@)
                    },
                None => forall|at: int|
                    0 <= at < devices.len() ==> !(#[trigger] devices[at]).offers(kind@),
            },
    {
        let mut i: usize = 0;
        while i < devices.len()
            invariant
                i <= devices.len(),
                forall|before: int| 0 <= before < i ==> !(#[trigger] devices[before]).offers(kind@),
            decreases devices.len() - i,
        {
            if devices[i].has_type(kind) {
                return Some(devices[i].device_id.clone());
            }
            i = i + 1;
        }
        None
    }
}

} // verus!
