//! The pure core of the multiplexed client: sequence number
//! allocation, the pending-response table, and the decisions the
//! connection actor takes for each action. The asynchronous shell —
//! socket, timers and channels — drives this core from outside the
//! verified library and performs the effects it prescribes.

use vstd::prelude::*;

use crate::command::Command;
use crate::values::InterfaceVersion;

verus! {

/// An error surfaced to a caller of the client.
#[derive(Debug)]
pub enum Error {
    /// The connection actor terminated or its queue closed.
    ConnectionClosed,
    /// No response arrived within the timeout, in milliseconds.
    ResponseTimeout { sequence_number: u32, timeout_millis: u64 },
    /// A response arrived with a failure status or an unexpected body.
    UnexpectedResponse(Command),
    /// A bind carried an interface version other than 5.0 while the
    /// version check was enabled.
    UnsupportedInterfaceVersion(InterfaceVersion),
}

/// An SMPP event, published on the event stream of a connection.
#[derive(Debug)]
pub enum Event {
    /// A command was received from the server.
    Incoming(Command),
    /// An error occurred.
    Error(Error),
}

/// An SMPP event with insights.
#[derive(Debug)]
pub enum InsightEvent {
    /// A command was received from the server.
    Incoming(Command),
    /// An error occurred.
    Error(Error),
    /// An insight event.
    Insight(Insight),
}

/// Connection insight event.
#[derive(Debug, PartialEq, Eq, Structural)]
pub enum Insight {
    /// Sent an enquire link command with this sequence number.
    SentEnquireLink(u32),
    /// Received the response to an enquire link with this sequence
    /// number.
    ReceivedEnquireLinkResp(u32),
    /// Received an enquire link command with this sequence number.
    ReceivedEnquireLink(u32),
    /// Sent the response to an enquire link with this sequence number.
    SentEnquireLinkResp(u32),
}

/// An event sink that discards everything.
#[derive(Debug)]
pub struct DiscardEventChannel;

impl DiscardEventChannel {
    /// Discards an error event.
    pub fn send_error(&self, error: Error) {
    }

    /// Discards an incoming command event.
    pub fn send_incoming(&self, command: Command) {
    }

    /// Discards an insight event.
    pub fn send_insight(&self, insight: Insight) {
    }
}

/// An action submitted to the connection actor through its queue.
#[derive(Debug)]
pub enum Action {
    /// Write a command and register its sequence number so the
    /// response can be routed back.
    RegisteredRequest(Command),
    /// Write a command without expecting a response.
    UnregisteredRequest(Command),
    /// Evict a pending sequence number whose caller gave up.
    Remove(u32),
    /// Stop reading, fail everything pending and terminate.
    Close,
    /// A no-op probe: reaching the actor at all proves it is alive.
    Ping,
    /// Report the pending sequence numbers.
    PendingResponses,
}

/// The effect the actor's shell must perform after the core has
/// processed one action.
#[derive(Debug)]
pub enum ActionEffect {
    /// Write the command to the socket, then acknowledge registration.
    WriteRegistered(Command),
    /// Write the command to the socket, then acknowledge.
    WriteUnregistered(Command),
    /// Nothing to do: the entry, if any, was evicted.
    Removed,
    /// Fail each of these pending requests with "connection closed",
    /// stop timers and terminate.
    CloseNow(Vec<u32>),
    /// Nothing to do: the probe reached the actor.
    Pong,
    /// Report these pending sequence numbers to the asker.
    Report(Vec<u32>),
}

/// The monotonically increasing sequence number allocator. Allocation
/// steps by two — the client uses odd sequence numbers, the server
/// even ones — and wraps without panicking.
#[derive(Debug, Clone, Copy, PartialEq, Eq, Structural)]
pub struct SequenceNumbers {
    value: u32,
}

impl SequenceNumbers {
    /// The next number that will be allocated.
    pub closed spec fn spec_value(&self) -> u32 {
        self.value
    }

    /// Starts allocating from 1.
    pub fn new() -> (r: SequenceNumbers)
        ensures
            r.spec_value() == 1u32,
    {
        SequenceNumbers { value: 1 }
    }

    /// Allocates the next sequence number: returns the current value
    /// and steps it by two, wrapping around instead of panicking.
    pub fn next_sequence_number(&mut self) -> (r: u32)
        ensures
            r == old(self).spec_value(),
            final(self).spec_value() == ((old(self).spec_value() + 2) % 0x1_0000_0000) as u32,
    {
        let current = self.value;
        self.value = if current <= 0xFFFF_FFFD {
            current + 2
        } else {
            let next = (current as u64 + 2) % 0x1_0000_0000;
            next as u32
        };
        current
    }
}

/// The connection actor's own state: the pending-response table and
/// whether a close was requested. All mutation goes through
/// [`ConnectionCore::handle_action`] and
/// [`ConnectionCore::on_incoming`], so the shell around it holds no
/// protocol state of its own.
#[derive(Debug)]
pub struct ConnectionCore {
    pending: Vec<u32>,
    closed: bool,
}

impl ConnectionCore {
    /// The pending sequence numbers, in registration order.
    pub closed spec fn spec_pending(&self) -> Seq<u32> {
        self.pending@
    }

    /// Whether a close was requested.
    pub closed spec fn spec_closed(&self) -> bool {
        self.closed
    }

    /// A fresh core: nothing pending, open.
    pub fn new() -> (r: ConnectionCore)
        ensures
            r.spec_pending() == Seq::<u32>::empty(),
            !r.spec_closed(),
    {
        ConnectionCore { pending: Vec::new(), closed: false }
    }

    /// The pending sequence numbers, in registration order.
    pub fn pending_responses(&self) -> (r: Vec<u32>)
        ensures
            r@ == self.spec_pending(),
    {
        let mut out: Vec<u32> = Vec::new();
        let mut i: usize = 0;
        while i < self.pending.len()
            invariant
                i <= self.pending@.len(),
                out@ == self.pending@.take(i as int),
            decreases self.pending@.len() - i,
        {
            out.push(self.pending[i]);
            proof {
                assert(self.pending@.take(i + 1) =~= self.pending@.take(i as int).push(
                    self.pending@[i as int],
                ));
            }
            i += 1;
        }
        proof {
            assert(self.pending@.take(i as int) =~= self.pending@);
        }
        out
    }

    /// Registers a request: its sequence number joins the pending
    /// table.
    pub fn register(&mut self, sequence_number: u32)
        ensures
            final(self).spec_pending() == old(self).spec_pending().push(sequence_number),
            final(self).spec_closed() == old(self).spec_closed(),
    {
        self.pending.push(sequence_number);
    }

    /// Evicts a sequence number from the pending table. Afterwards the
    /// table no longer contains it: the pending slot is reclaimed the
    /// moment a caller times out or drops its request.
    pub fn remove(&mut self, sequence_number: u32)
        ensures
            final(self).spec_pending() == old(self).spec_pending().filter(
                |s: u32| s != sequence_number,
            ),
            !final(self).spec_pending().contains(sequence_number),
            final(self).spec_closed() == old(self).spec_closed(),
    {
        let mut kept: Vec<u32> = Vec::new();
        let mut i: usize = 0;
        proof {
            assert(self.pending@.take(0).filter(|s: u32| s != sequence_number)
                =~= Seq::<u32>::empty());
        }
        while i < self.pending.len()
            invariant
                i <= self.pending@.len(),
                kept@ == self.pending@.take(i as int).filter(|s: u32| s != sequence_number),
            decreases self.pending@.len() - i,
        {
            let x = self.pending[i];
            proof {
                let pred = |s: u32| s != sequence_number;
                let t1 = self.pending@.take(i + 1);
                assert(t1.drop_last() =~= self.pending@.take(i as int));
                assert(t1.last() == self.pending@[i as int]);
                reveal_with_fuel(Seq::filter, 2);
            }
            if x != sequence_number {
                kept.push(x);
            }
            i += 1;
        }
        proof {
            assert(self.pending@.take(i as int) =~= self.pending@);
            let filtered = self.pending@.filter(|s: u32| s != sequence_number);
            assert(!filtered.contains(sequence_number)) by {
                if filtered.contains(sequence_number) {
                    let j = choose|j: int|
                        0 <= j < filtered.len() && filtered[j] == sequence_number;
                    self.pending@.lemma_filter_contains(|s: u32| s != sequence_number, j);
                }
            }
        }
        self.pending = kept;
    }

    /// Routes an incoming command's sequence number: when it is
    /// pending, the entry is removed and the command belongs to the
    /// waiting caller; otherwise the command is server-originated or
    /// unmatched and belongs on the event stream.
    pub fn on_incoming(&mut self, sequence_number: u32) -> (r: bool)
        ensures
            r == old(self).spec_pending().contains(sequence_number),
            final(self).spec_pending() == old(self).spec_pending().filter(
                |s: u32| s != sequence_number,
            ),
            !final(self).spec_pending().contains(sequence_number),
            final(self).spec_closed() == old(self).spec_closed(),
    {
        let was_pending = self.contains(sequence_number);
        self.remove(sequence_number);
        was_pending
    }

    /// Whether a sequence number is pending.
    pub fn contains(&self, sequence_number: u32) -> (r: bool)
        ensures
            r == self.spec_pending().contains(sequence_number),
    {
        let mut i: usize = 0;
        while i < self.pending.len()
            invariant
                i <= self.pending@.len(),
                forall|j: int| 0 <= j < i ==> self.pending@[j] != sequence_number,
            decreases self.pending@.len() - i,
        {
            if self.pending[i] == sequence_number {
                return true;
            }
            i += 1;
        }
        false
    }

    /// Closes the core: every pending request is drained, to be failed
    /// with "connection closed" by the shell, and nothing can be
    /// registered afterwards.
    pub fn close(&mut self) -> (r: Vec<u32>)
        ensures
            r@ == old(self).spec_pending(),
            final(self).spec_pending() == Seq::<u32>::empty(),
            final(self).spec_closed(),
    {
        self.closed = true;
        let mut drained: Vec<u32> = Vec::new();
        core::mem::swap(&mut drained, &mut self.pending);
        drained
    }

    /// Processes one action from the queue and prescribes the effect
    /// the shell must perform. This is the whole decision logic of the
    /// connection actor: writes happen in queue order, a registered
    /// request joins the pending table before its write, a remove
    /// evicts, a close drains.
    pub fn handle_action(&mut self, action: Action) -> (r: ActionEffect)
        ensures
            match action {
                Action::RegisteredRequest(c) => {
                    &&& r matches ActionEffect::WriteRegistered(w) && w == c
                    &&& final(self).spec_pending() == old(self).spec_pending().push(
                        c@.sequence_number,
                    )
                    &&& final(self).spec_closed() == old(self).spec_closed()
                },
                Action::UnregisteredRequest(c) => {
                    &&& r matches ActionEffect::WriteUnregistered(w) && w == c
                    &&& final(self).spec_pending() == old(self).spec_pending()
                    &&& final(self).spec_closed() == old(self).spec_closed()
                },
                Action::Remove(s) => {
                    &&& r is Removed
                    &&& final(self).spec_pending() == old(self).spec_pending().filter(
                        |x: u32| x != s,
                    )
                    &&& !final(self).spec_pending().contains(s)
                    &&& final(self).spec_closed() == old(self).spec_closed()
                },
                Action::Close => {
                    &&& r matches ActionEffect::CloseNow(p) && p@ == old(self).spec_pending()
                    &&& final(self).spec_pending() == Seq::<u32>::empty()
                    &&& final(self).spec_closed()
                },
                Action::Ping => {
                    &&& r is Pong
                    &&& final(self).spec_pending() == old(self).spec_pending()
                    &&& final(self).spec_closed() == old(self).spec_closed()
                },
                Action::PendingResponses => {
                    &&& r matches ActionEffect::Report(p) && p@ == old(self).spec_pending()
                    &&& final(self).spec_pending() == old(self).spec_pending()
                    &&& final(self).spec_closed() == old(self).spec_closed()
                },
            },
    {
        match action {
            Action::RegisteredRequest(command) => {
                let sequence_number = command.sequence_number();
                self.register(sequence_number);
                ActionEffect::WriteRegistered(command)
            },
            Action::UnregisteredRequest(command) => ActionEffect::WriteUnregistered(command),
            Action::Remove(sequence_number) => {
                self.remove(sequence_number);
                ActionEffect::Removed
            },
            Action::Close => ActionEffect::CloseNow(self.close()),
            Action::Ping => ActionEffect::Pong,
            Action::PendingResponses => ActionEffect::Report(self.pending_responses()),
        }
    }
}

/// The interface-version guard of the client builder: when the check
/// is enabled, a bind carrying any version other than 5.0 is rejected
/// before it reaches the actor; otherwise every version passes.
pub fn check_interface_version(check: bool, interface_version: InterfaceVersion) -> (r: Result<
    (),
    Error,
>)
    ensures
        match r {
            Ok(u) => !check || interface_version == InterfaceVersion::Smpp5_0,
            Err(e) => {
                &&& check
                &&& interface_version != InterfaceVersion::Smpp5_0
                &&& e matches Error::UnsupportedInterfaceVersion(v) && v == interface_version
            },
        },
{
    if check && !matches!(interface_version, InterfaceVersion::Smpp5_0) {
        return Err(Error::UnsupportedInterfaceVersion(interface_version));
    }
    Ok(())
}

} // verus!
