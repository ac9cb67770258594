//! The interrupt- and timer-driven task pipeline of the two nodes.
//!
//! The hardware collaborators — radio transceiver, serial ports, timer,
//! sampler — stay outside.  What lives here is the decision and data
//! logic of each task body: how the counters move, which drained packets
//! reach the `Process` queue, which jobs a periodic tick requests, and
//! the bytes handed to the radio and the flight controller.  The caller
//! performs the requested hardware actions and feeds the outcomes back
//! in as plain values.

use vstd::prelude::*;
use crate::protocol::{Transmitter, TransmitterMessage, decode_spec, encode_spec};
use crate::sumd;

verus! {

/// Outcome of bringing the radio up at startup.  A failure leaves the
/// node running in a degraded, radio-less mode; it is reported in every
/// status line rather than halting the pipeline.
#[derive(Clone, Copy, Debug, PartialEq, Eq, Structural)]
pub enum InitStatus {
    Ready,
    RadioInitFailed,
    RadioReceiveFailed,
}

/// The transceiver's operating mode, as the pipeline drives it.
#[derive(Clone, Copy, Debug, PartialEq, Eq, Structural)]
pub enum RadioMode {
    Standby,
    Receiving,
    Transmitting,
}

/// The mode moves the pipeline performs: the receiver enters receive mode
/// once and holds it; the transmitter steps from standby to transmitting
/// and back around each burst.
pub open spec fn mode_transition_allowed(from: RadioMode, to: RadioMode) -> bool {
    match (from, to) {
        (RadioMode::Standby, RadioMode::Receiving) => true,
        (RadioMode::Standby, RadioMode::Transmitting) => true,
        (RadioMode::Transmitting, RadioMode::Standby) => true,
        _ => false,
    }
}

/// Whether the pipeline may switch the radio from one mode to another.
pub fn transition_allowed(from: RadioMode, to: RadioMode) -> (r: bool)
    ensures
        r == mode_transition_allowed(from, to),
{
    match (from, to) {
        (RadioMode::Standby, RadioMode::Receiving) => true,
        (RadioMode::Standby, RadioMode::Transmitting) => true,
        (RadioMode::Transmitting, RadioMode::Standby) => true,
        _ => false,
    }
}

/// The next value of a free-running diagnostic counter: wraps to zero at
/// the top rather than halt the pipeline.
pub open spec fn wrap_inc(x: u32) -> u32 {
    if x == 0xffff_ffff {
        0
    } else {
        (x + 1) as u32
    }
}

/// How many envelopes went missing between the last seen sequence id and
/// a newly arrived one.  Ids rise by exactly one per legitimate
/// transmission, so the gap is the shortfall; an id at or below the last
/// seen one counts no loss (a sender restart or reordering is tolerated
/// rather than underflowed on).
pub open spec fn gap(last: u32, arrived: u32) -> u32 {
    if arrived > last {
        (arrived - last - 1) as u32
    } else {
        0
    }
}

/// Accumulate a gap into the missed counter, saturating at the top so a
/// runaway id cannot wrap the diagnostic back to small values.
pub open spec fn sat_add(x: u32, y: u32) -> u32 {
    if x + y > 0xffff_ffff {
        0xffff_ffff
    } else {
        (x + y) as u32
    }
}

/// Loss accounting stays at zero over a gap-free stream: processing a
/// payload whose sequence id follows the last seen one by exactly one
/// adds nothing to the missed count.
pub proof fn lemma_sequential_ids_no_loss(s: Status, payload: Seq<u8>)
    requires
        decode_spec(payload) matches Some(t) && t.correlation_id == s.last_correlation_id + 1,
    ensures
        processed(s, payload).missed_messages == s.missed_messages,
{
}

/// Receiver-side shared diagnostic state, created once at startup with
/// zeroed counters and mutated only inside task bodies.
#[derive(Clone, Copy, Debug)]
pub struct Status {
    pub init: InitStatus,
    pub counter: u32,
    pub last_correlation_id: u32,
    pub missed_messages: u32,
    pub values: [u16; 4],
    pub interrupts: u32,
    pub missed_interrupts: u32,
}

/// What `Process` makes of the shared state on one payload: a
/// well-formed envelope moves the last seen sequence id, adds the id gap
/// to the missed count and overwrites the current values; a malformed
/// payload changes nothing.
pub open spec fn processed(s: Status, payload: Seq<u8>) -> Status {
    match decode_spec(payload) {
        Option::None => s,
        Option::Some(t) => match t.body {
            TransmitterMessage::ChannelValues(vals) => Status {
                last_correlation_id: t.correlation_id,
                missed_messages: sat_add(s.missed_messages, gap(s.last_correlation_id, t.correlation_id)),
                values: vals,
                ..s
            },
        },
    }
}

impl Status {
    /// The state a node starts with: all counters zeroed, neutral values.
    pub fn startup(init: InitStatus) -> (r: Status)
        ensures
            r.init == init,
            r.counter == 0,
            r.last_correlation_id == 0,
            r.missed_messages == 0,
            r.values@ =~= seq![0u16, 0u16, 0u16, 0u16],
            r.interrupts == 0,
            r.missed_interrupts == 0,
    {
        Status {
            init,
            counter: 0,
            last_correlation_id: 0,
            missed_messages: 0,
            values: [0, 0, 0, 0],
            interrupts: 0,
            missed_interrupts: 0,
        }
    }

    /// The `Process` task body: decode one drained payload and fold it
    /// into the shared state.  Decode failure is silent and non-fatal:
    /// the packet is dropped and the state left as it was.
    pub fn process(&mut self, payload: &[u8])
        ensures
            *final(self) == processed(*old(self), payload@),
    {
        match Transmitter::decode(payload) {
            Ok(t) => {
                let g: u32 = if t.correlation_id > self.last_correlation_id {
                    t.correlation_id - self.last_correlation_id - 1
                } else {
                    0
                };
                self.missed_messages = if self.missed_messages > 0xffff_ffff - g {
                    0xffff_ffff
                } else {
                    self.missed_messages + g
                };
                self.last_correlation_id = t.correlation_id;
                match t.body {
                    TransmitterMessage::ChannelValues(values) => {
                        self.values = values;
                    },
                }
            },
            Err(_) => {},
        }
    }
}

/// Depth of the bounded spawn queue in front of the `Process` task.  A
/// full queue is a first-class outcome — the packet is dropped and the
/// overload shows up in the interrupt counters — never a blocking wait.
pub const PROCESS_QUEUE_CAPACITY: usize = 4;

/// What one timer tick decides.  The caller performs each requested job:
/// drains the radio when a `Receive` run was newly requested, sends the
/// output frame, toggles the liveness indicator, emits the status line.
/// A status-line request carries the tick-local can-read and FIFO-full
/// flags, so they need no slot in the shared state.
pub struct TickActions {
    pub spawn_receive: bool,
    pub send_to_flight_controller: bool,
    pub toggle_led: bool,
    pub log_status: Option<(bool, bool)>,
}

/// The receiver node: the shared status, the bounded queue of payloads
/// waiting for `Process`, and the single pending slot of the `Receive`
/// task (a run that is already requested cannot be requested twice).
pub struct Receiver {
    pub status: Status,
    pub process_queue: Vec<Vec<u8>>,
    pub receive_pending: bool,
}

impl Receiver {
    /// A receiver right after startup: zeroed status, nothing queued.
    pub fn startup(init: InitStatus) -> (r: Receiver)
        ensures
            r.status.init == init,
            r.status.counter == 0,
            r.status.last_correlation_id == 0,
            r.status.missed_messages == 0,
            r.status.values@ =~= seq![0u16, 0u16, 0u16, 0u16],
            r.status.interrupts == 0,
            r.status.missed_interrupts == 0,
            r.process_queue@ =~= Seq::<Vec<u8>>::empty(),
            r.receive_pending == false,
    {
        Receiver { status: Status::startup(init), process_queue: Vec::new(), receive_pending: false }
    }

    /// The radio-ready interrupt handler: count the interrupt and request
    /// one `Receive` run; when that request is already pending, count the
    /// missed interrupt instead of blocking or dropping data silently.
    pub fn interrupt(&mut self)
        ensures
            final(self).status.init == old(self).status.init,
            final(self).status.counter == old(self).status.counter,
            final(self).status.last_correlation_id == old(self).status.last_correlation_id,
            final(self).status.missed_messages == old(self).status.missed_messages,
            final(self).status.values == old(self).status.values,
            final(self).status.interrupts == wrap_inc(old(self).status.interrupts),
            final(self).status.missed_interrupts == if old(self).receive_pending {
                wrap_inc(old(self).status.missed_interrupts)
            } else {
                old(self).status.missed_interrupts
            },
            final(self).receive_pending == true,
            final(self).process_queue == old(self).process_queue,
    {
        self.status.interrupts = wrap_inc_u32(self.status.interrupts);
        if self.receive_pending {
            self.status.missed_interrupts = wrap_inc_u32(self.status.missed_interrupts);
        } else {
            self.receive_pending = true;
        }
    }

    /// The `Receive` task body: consume the pending request and drain the
    /// radio FIFO front to back, handing each packet to the `Process`
    /// queue.  When the queue fills, the packet already read is dropped
    /// and draining stops — the loop provably terminates rather than spin
    /// on backpressure — leaving the rest of the FIFO for a later run.
    pub fn receive(&mut self, fifo: &mut Vec<Vec<u8>>)
        requires
            old(self).process_queue@.len() <= PROCESS_QUEUE_CAPACITY,
        ensures
            final(self).status == old(self).status,
            final(self).receive_pending == false,
            final(self).process_queue@.len() <= PROCESS_QUEUE_CAPACITY,
            old(self).process_queue@.len() + old(fifo)@.len() <= PROCESS_QUEUE_CAPACITY
                ==> final(self).process_queue@ == old(self).process_queue@ + old(fifo)@
                && final(fifo)@.len() == 0,
            old(self).process_queue@.len() + old(fifo)@.len() > PROCESS_QUEUE_CAPACITY
                ==> final(self).process_queue@ == old(self).process_queue@
                + old(fifo)@.take(PROCESS_QUEUE_CAPACITY - old(self).process_queue@.len())
                && final(fifo)@ == old(fifo)@.skip(
                PROCESS_QUEUE_CAPACITY - old(self).process_queue@.len() + 1),
    {
        self.receive_pending = false;
        let ghost fifo0 = fifo@;
        let ghost q0 = self.process_queue@;
        let ghost s0 = self.status;
        let ghost mut moved: int = 0;
        let ghost mut dropped: bool = false;
        #[verifier::loop_isolation(true)]
        while fifo.len() > 0
            invariant_except_break
                0 <= moved,
                moved + fifo@.len() == fifo0.len(),
                fifo@ == fifo0.skip(moved),
                self.process_queue@ == q0 + fifo0.take(moved),
                self.process_queue@.len() <= PROCESS_QUEUE_CAPACITY,
                self.status == s0,
                self.receive_pending == false,
                !dropped,
            ensures
                self.status == s0,
                self.receive_pending == false,
                0 <= moved <= fifo0.len(),
                self.process_queue@ == q0 + fifo0.take(moved),
                self.process_queue@.len() <= PROCESS_QUEUE_CAPACITY,
                !dropped ==> fifo@.len() == 0 && moved == fifo0.len(),
                dropped ==> self.process_queue@.len() == PROCESS_QUEUE_CAPACITY && moved + 1
                    <= fifo0.len() && fifo@ == fifo0.skip(moved + 1),
            decreases fifo@.len(),
        {
            let packet = fifo.remove(0);
            if self.process_queue.len() < PROCESS_QUEUE_CAPACITY {
                self.process_queue.push(packet);
                proof {
                    assert(fifo@ =~= fifo0.skip(moved + 1));
                    assert(self.process_queue@ =~= q0 + fifo0.take(moved + 1));
                    moved = moved + 1;
                }
            } else {
                proof {
                    dropped = true;
                    assert(fifo@ =~= fifo0.skip(moved + 1));
                }
                break;
            }
        }
        proof {
            if q0.len() + fifo0.len() <= PROCESS_QUEUE_CAPACITY {
                assert(!dropped);
                assert(fifo0.take(fifo0.len() as int) =~= fifo0);
            } else {
                assert(dropped);
                assert(moved == PROCESS_QUEUE_CAPACITY - q0.len());
            }
        }
    }

    /// Run one queued `Process` task, if any payload waits; reports
    /// whether one did.
    pub fn process_next(&mut self) -> (r: bool)
        ensures
            r <==> old(self).process_queue@.len() > 0,
            !r ==> *final(self) == *old(self),
            r ==> final(self).process_queue@ == old(self).process_queue@.skip(1),
            r ==> final(self).status == processed(old(self).status, old(self).process_queue@[0]@),
            r ==> final(self).receive_pending == old(self).receive_pending,
    {
        if self.process_queue.len() == 0 {
            return false;
        }
        let packet = self.process_queue.remove(0);
        self.status.process(packet.as_slice());
        proof {
            assert(self.process_queue@ =~= old(self).process_queue@.skip(1));
        }
        true
    }

    /// The periodic `Tick` task: poll whether the radio holds data (the
    /// scheduling fallback to the interrupt path), request the periodic
    /// jobs by the tick counter — every 10th tick an output frame, every
    /// 500th a liveness toggle, every 1000th a status line carrying the
    /// tick-local radio flags — and advance the counter.  The contract
    /// holds whatever state the queues are in, so ticking carries on
    /// normally under backpressure.
    pub fn tick(&mut self, can_read: bool, is_full: bool) -> (a: TickActions)
        ensures
            final(self).status.init == old(self).status.init,
            final(self).status.last_correlation_id == old(self).status.last_correlation_id,
            final(self).status.missed_messages == old(self).status.missed_messages,
            final(self).status.values == old(self).status.values,
            final(self).status.interrupts == old(self).status.interrupts,
            final(self).status.missed_interrupts == old(self).status.missed_interrupts,
            final(self).status.counter == wrap_inc(old(self).status.counter),
            final(self).process_queue == old(self).process_queue,
            final(self).receive_pending == (old(self).receive_pending || can_read),
            a.spawn_receive == (can_read && !old(self).receive_pending),
            a.send_to_flight_controller == (old(self).status.counter % 10 == 0),
            a.toggle_led == (old(self).status.counter % 500 == 0),
            a.log_status == if old(self).status.counter % 1000 == 0 {
                Some((can_read, is_full))
            } else {
                None::<(bool, bool)>
            },
    {
        let a = TickActions {
            spawn_receive: can_read && !self.receive_pending,
            send_to_flight_controller: self.status.counter % 10 == 0,
            toggle_led: self.status.counter % 500 == 0,
            log_status: if self.status.counter % 1000 == 0 {
                Some((can_read, is_full))
            } else {
                None
            },
        };
        if can_read {
            self.receive_pending = true;
        }
        self.status.counter = wrap_inc_u32(self.status.counter);
        a
    }

    /// The `SendToFlightController` task body: the bytes of one live
    /// output frame over the current channel values.  The caller writes
    /// them to the serial port byte by byte, retrying while the port is
    /// busy.
    pub fn send_to_flight_controller(&self) -> (r: Vec<u8>)
        ensures
            r@ == sumd::frame_bytes(sumd::Status::Live, self.status.values@),
    {
        match sumd::encode_frame(sumd::Status::Live, self.status.values.as_slice()) {
            Ok(bytes) => bytes,
            Err(_) => {
                proof {
                    assert(false);
                }
                Vec::new()
            },
        }
    }
}

/// What one `Transmit` run hands back: the encoded envelope for the
/// radio, and whether to toggle the liveness indicator.
pub struct TransmitActions {
    pub packet: Vec<u8>,
    pub toggle_led: bool,
}

/// The transmitter node's state: the sequence counter, increased by one
/// per transmitted envelope.
pub struct Sender {
    pub correlation_id: u32,
}

impl Sender {
    /// A sender right after startup, about to emit sequence id zero.
    pub fn startup() -> (r: Sender)
        ensures
            r.correlation_id == 0,
    {
        Sender { correlation_id: 0 }
    }

    /// The `Transmit` task body: wrap the sampled channel values in an
    /// envelope under the current sequence id, encode it for the radio,
    /// and advance the sequence.  Every 500th sequence id asks for a
    /// liveness toggle.  The caller moves the radio to transmit mode,
    /// sends the packet, waits boundedly for the FIFO to empty and
    /// returns to standby; a send failure is tolerated — the next sample
    /// supersedes it.
    pub fn transmit(&mut self, values: [u16; 4]) -> (a: TransmitActions)
        ensures
            final(self).correlation_id == wrap_inc(old(self).correlation_id),
            a.packet@ == encode_spec(
                Transmitter {
                    correlation_id: old(self).correlation_id,
                    body: TransmitterMessage::ChannelValues(values),
                },
            ),
            a.toggle_led == (old(self).correlation_id % 500 == 0),
    {
        let envelope = Transmitter {
            correlation_id: self.correlation_id,
            body: TransmitterMessage::ChannelValues(values),
        };
        let packet = match envelope.encode() {
            Ok(p) => p,
            Err(_) => {
                proof {
                    assert(false);
                }
                Vec::new()
            },
        };
        let toggle_led = self.correlation_id % 500 == 0;
        self.correlation_id = wrap_inc_u32(self.correlation_id);
        TransmitActions { packet, toggle_led }
    }
}

/// The `SampleTick` mapping from raw joystick samples to channel values:
/// the sampler delivers 12-bit words, shifted up into the full 16-bit
/// range.
pub fn scale_samples(raw: &[u16; 4]) -> (r: [u16; 4])
    ensures
        r[0] == raw[0] << 4,
        r[1] == raw[1] << 4,
        r[2] == raw[2] << 4,
        r[3] == raw[3] << 4,
{
    [raw[0] << 4, raw[1] << 4, raw[2] << 4, raw[3] << 4]
}

/// The next value of a free-running counter, wrapping at the top.
fn wrap_inc_u32(x: u32) -> (r: u32)
    ensures
        r == wrap_inc(x),
{
    if x == 0xffff_ffff {
        0
    } else {
        x + 1
    }
}

} // verus!
