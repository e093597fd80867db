//! The request broker: the single-in-flight admission state, the transfer
//! buffer's ownership hand-off, and the two-phase transmit-then-receive
//! exchange.
//!
//! The broker never performs I/O itself.  Submitting a request yields a
//! `Transmit` action holding the framed transfer buffer; the surrounding code
//! hands that buffer to the transport and feeds the completion events back
//! through `transmitted_buffer` and `received_buffer` (or reports a
//! synchronous hand-off rejection through `transmit_rejected` /
//! `receive_rejected`).  Each terminal event yields at most one notification
//! for the owning process.

use vstd::prelude::*;

use crate::codes::ErrorCode;
use crate::codes::into_statuscode;
use crate::codes::statuscode;
use crate::frame::build_frame;
use crate::frame::frame_spec;
use crate::frame::required_len;
use crate::storage::StorageTable;
use crate::storage::receive_into;

verus! {

/// Every process other than `pid` sees the same records in `post` as in
/// `pre`: the same existence and the same three regions.
pub open spec fn regions_unchanged_except(pre: StorageTable, post: StorageTable, pid: u32) -> bool {
    &&& forall|q: u32| q != pid ==> (post.contains(q) <==> pre.contains(q))
    &&& forall|q: u32| q != pid ==> post.address_of(q) == pre.address_of(q)
    &&& forall|q: u32| q != pid ==> post.data_out_of(q) == pre.data_out_of(q)
    &&& forall|q: u32| q != pid ==> post.data_in_of(q) == pre.data_in_of(q)
}

/// The admission state machine: whether a request is outstanding, and for whom.
#[derive(Copy, Clone, Debug, PartialEq, Eq, Structural)]
pub enum NetworkState {
    /// No request outstanding.
    Idle,
    /// A request is outstanding on behalf of the given process.
    Requesting(u32),
}

/// Who holds the transfer buffer: the driver, or the transport (for a
/// transmit or for a receive).
#[derive(Copy, Clone, Debug, PartialEq, Eq, Structural)]
pub enum Phase {
    /// The driver holds the buffer.
    Held,
    /// The buffer is lent to the transport for a transmit.
    Transmitting,
    /// The buffer is lent to the transport for a receive.
    Receiving,
}

/// The one-shot result delivered to the process that owns a finished request:
/// a numeric status (0 for success) and the received length (0 on failure).
#[derive(Copy, Clone, Debug, PartialEq, Eq, Structural)]
pub struct Notification {
    pub pid: u32,
    pub status: u32,
    pub length: usize,
}

/// What a command dispatch came to.
#[derive(Debug, PartialEq, Eq)]
pub enum CommandResult {
    /// The command succeeded with no further work.
    Success,
    /// The command failed; nothing was mutated.
    Failure(ErrorCode),
    /// The request was admitted: hand this framed buffer, with the frame's
    /// length, to the transport.
    Transmit(Vec<u8>, usize),
}

/// What a transmit-completion event came to.
#[derive(Debug, PartialEq, Eq)]
pub enum TransmitOutcome {
    /// Transmit succeeded: re-arm the transport for reception into this
    /// buffer, up to the given capacity.
    Receive(Vec<u8>, usize),
    /// Transmit failed: the request is finished; deliver the notification,
    /// if any process owned the request.
    Done(Option<Notification>),
}

/// The request broker.
pub struct Network {
    /// The admission state.
    pub state: NetworkState,
    /// Who holds the transfer buffer.
    pub phase: Phase,
    /// The transfer buffer while the driver holds it; `None` while it is
    /// lent to the transport.
    pub buffer: Option<Vec<u8>>,
    /// The transfer buffer's fixed capacity.
    pub capacity: usize,
    /// The per-process storage records.
    pub apps: StorageTable,
}

impl Network {
    /// Well-formed: the transfer buffer is held by exactly one side, its
    /// length is the fixed capacity, and the storage table has one record
    /// per process.
    pub open spec fn wf(self) -> bool {
        &&& (self.buffer is Some <==> self.phase is Held)
        &&& (self.buffer matches Some(b) ==> b@.len() == self.capacity)
        &&& self.apps.wf()
    }

    /// How many bytes the frame for `pid`'s registered regions needs.
    pub open spec fn required_of(self, pid: u32) -> nat {
        required_len(self.apps.address_of(pid).len(), self.apps.data_out_of(pid).len())
    }

    /// A fresh broker owning the given transfer buffer, idle, with no
    /// per-process records.
    pub fn new(buffer: Vec<u8>) -> (r: Network)
        ensures
            r.wf(),
            r.state is Idle,
            r.phase is Held,
            r.capacity == buffer@.len(),
            (r.buffer matches Some(b) && b@ == buffer@),
            forall|q: u32| !r.apps.contains(q),
    {
        let capacity = buffer.len();
        Network {
            state: NetworkState::Idle,
            phase: Phase::Held,
            buffer: Some(buffer),
            capacity,
            apps: StorageTable::new(),
        }
    }

    /// Dispatch a command issued by process `process_id`.
    ///
    /// Command 0 is a liveness probe and always succeeds with no side effect.
    /// Command 1 submits a GET/POST request: while a request is outstanding
    /// it fails with `Busy` and mutates nothing (mutual exclusion); if the
    /// frame would not fit the transfer buffer it fails with `SizeExceeded`
    /// and mutates nothing; if the buffer is unavailable it fails with
    /// `OutOfResources` and mutates nothing; otherwise the frame for the
    /// process's registered regions is built inside the transfer buffer,
    /// the broker moves to `Requesting(process_id)`, and the framed buffer is
    /// handed out for transmission.  Any other command fails with
    /// `Unsupported` and mutates nothing.
    pub fn command(&mut self, command_num: usize, process_id: u32) -> (r: CommandResult)
        requires
            old(self).wf(),
        ensures
            final(self).wf(),
            final(self).capacity == old(self).capacity,
            command_num == 0 ==> (r is Success && *final(self) == *old(self)),
            (command_num != 0 && command_num != 1) ==> (
                r == CommandResult::Failure(ErrorCode::Unsupported) && *final(self) == *old(self)
            ),
            (command_num == 1 && old(self).state matches NetworkState::Requesting(_)) ==> (
                r == CommandResult::Failure(ErrorCode::Busy) && *final(self) == *old(self)
            ),
            (command_num == 1 && old(self).state is Idle
                && old(self).required_of(process_id) > old(self).capacity) ==> (
                r == CommandResult::Failure(ErrorCode::SizeExceeded) && *final(self) == *old(self)
            ),
            (command_num == 1 && old(self).state is Idle
                && old(self).required_of(process_id) <= old(self).capacity
                && old(self).buffer is None) ==> (
                r == CommandResult::Failure(ErrorCode::OutOfResources) && *final(self) == *old(self)
            ),
            (command_num == 1 && old(self).state is Idle
                && old(self).required_of(process_id) <= old(self).capacity
                && old(self).buffer is Some) ==> (
                (r matches CommandResult::Transmit(buf, len)
                    && len == old(self).required_of(process_id)
                    && buf@.len() == old(self).capacity
                    && buf@.subrange(0, len as int) == frame_spec(
                        old(self).apps.address_of(process_id),
                        old(self).apps.data_out_of(process_id),
                    ))
                && final(self).state == NetworkState::Requesting(process_id)
                && final(self).phase is Transmitting
                && final(self).buffer is None
                && final(self).apps == old(self).apps
            ),
    {
        if command_num == 0 {
            return CommandResult::Success;
        }
        if command_num != 1 {
            return CommandResult::Failure(ErrorCode::Unsupported);
        }
        match self.state {
            NetworkState::Requesting(_) => CommandResult::Failure(ErrorCode::Busy),
            NetworkState::Idle => {
                let idx = self.apps.find(process_id);
                let mut a: usize = 0;
                let mut d: usize = 0;
                match idx {
                    Some(i) => {
                        proof {
                            self.apps.lemma_index_unique(process_id, i as int);
                        }
                        a = self.apps.entries[i].storage.address.len();
                        d = self.apps.entries[i].storage.data_out.len();
                    }
                    None => {}
                }
                let cap = self.capacity;
                let fits: bool = if d == 0 {
                    cap >= 6 && a <= cap - 6
                } else {
                    cap >= 7 && a <= cap - 7 && d <= cap - 7 - a
                };
                proof {
                    assert(fits == (required_len(a as nat, d as nat) <= cap as nat));
                }
                if !fits {
                    return CommandResult::Failure(ErrorCode::SizeExceeded);
                }
                match self.buffer.take() {
                    None => CommandResult::Failure(ErrorCode::OutOfResources),
                    Some(mut buffer) => {
                        let n = match idx {
                            Some(i) => build_frame(
                                &mut buffer,
                                &self.apps.entries[i].storage.address,
                                &self.apps.entries[i].storage.data_out,
                            ),
                            None => {
                                let empty: Vec<u8> = Vec::new();
                                proof {
                                    assert(empty@ =~= Seq::<u8>::empty());
                                }
                                build_frame(&mut buffer, &empty, &empty)
                            }
                        };
                        self.phase = Phase::Transmitting;
                        self.state = NetworkState::Requesting(process_id);
                        CommandResult::Transmit(buffer, n)
                    }
                }
            }
        }
    }

    /// The transport rejected the transmit hand-off synchronously: reclaim
    /// the buffer and return the broker to `Idle`.  The rejection is the
    /// command's own result; no notification is owed.
    pub fn transmit_rejected(&mut self, buffer: Vec<u8>)
        requires
            old(self).wf(),
            old(self).phase is Transmitting,
            buffer@.len() == old(self).capacity,
        ensures
            final(self).wf(),
            final(self).state is Idle,
            final(self).phase is Held,
            (final(self).buffer matches Some(b) && b@ == buffer@),
            final(self).capacity == old(self).capacity,
            final(self).apps == old(self).apps,
    {
        self.buffer = Some(buffer);
        self.phase = Phase::Held;
        self.state = NetworkState::Idle;
    }

    /// React to the transmit-completion event.  On success the buffer is
    /// immediately re-armed for reception up to its full capacity; on failure
    /// the request is finished: the buffer returns to the driver, the state
    /// returns to `Idle`, and the owning process (if any) is owed a failure
    /// notification with length 0.
    pub fn transmitted_buffer(&mut self, tx_buffer: Vec<u8>, rval: Result<(), ErrorCode>) -> (r:
        TransmitOutcome)
        requires
            old(self).wf(),
            old(self).phase is Transmitting,
            tx_buffer@.len() == old(self).capacity,
        ensures
            final(self).wf(),
            final(self).capacity == old(self).capacity,
            final(self).apps == old(self).apps,
            rval is Ok ==> (
                final(self).state == old(self).state
                && final(self).phase is Receiving
                && final(self).buffer is None
                && (r matches TransmitOutcome::Receive(b, n)
                    && b@ == tx_buffer@
                    && n == old(self).capacity)
            ),
            rval matches Err(e) ==> (
                final(self).state is Idle
                && final(self).phase is Held
                && (final(self).buffer matches Some(b) && b@ == tx_buffer@)
                && (match old(self).state {
                    NetworkState::Requesting(p) => r == TransmitOutcome::Done(
                        Some((Notification { pid: p, status: statuscode(Err(e)), length: 0 })),
                    ),
                    NetworkState::Idle => r == TransmitOutcome::Done(None::<Notification>),
                })
            ),
    {
        match rval {
            Ok(()) => {
                let cap = self.capacity;
                self.phase = Phase::Receiving;
                TransmitOutcome::Receive(tx_buffer, cap)
            }
            Err(e) => {
                self.buffer = Some(tx_buffer);
                self.phase = Phase::Held;
                let note = match self.state {
                    NetworkState::Requesting(p) => Some(
                        Notification { pid: p, status: into_statuscode(Err(e)), length: 0 },
                    ),
                    NetworkState::Idle => None,
                };
                self.state = NetworkState::Idle;
                TransmitOutcome::Done(note)
            }
        }
    }

    /// The transport rejected the receive hand-off synchronously: reclaim the
    /// buffer, finish the request, and return the failure notification owed
    /// to the owning process (if any).
    pub fn receive_rejected(&mut self, buffer: Vec<u8>, code: ErrorCode) -> (r: Option<
        Notification>)
        requires
            old(self).wf(),
            old(self).phase is Receiving,
            buffer@.len() == old(self).capacity,
        ensures
            final(self).wf(),
            final(self).state is Idle,
            final(self).phase is Held,
            (final(self).buffer matches Some(b) && b@ == buffer@),
            final(self).capacity == old(self).capacity,
            final(self).apps == old(self).apps,
            match old(self).state {
                NetworkState::Requesting(p) => r == Some(
                    (Notification { pid: p, status: statuscode(Err(code)), length: 0 }),
                ),
                NetworkState::Idle => r is None,
            },
    {
        self.buffer = Some(buffer);
        self.phase = Phase::Held;
        let note = match self.state {
            NetworkState::Requesting(p) => Some(
                Notification { pid: p, status: into_statuscode(Err(code)), length: 0 },
            ),
            NetworkState::Idle => None,
        };
        self.state = NetworkState::Idle;
        note
    }

    /// React to the receive-completion event; this finishes the request in
    /// every outcome: the buffer returns to the driver and the broker returns
    /// to `Idle`.  On success the `rx_len` received bytes are delivered into
    /// the owner's incoming-payload region (skipped if they do not fit, with
    /// the last copied byte forced to the terminator 0) and the owner is owed
    /// a success notification carrying `rx_len`; on failure the owner is owed
    /// a failure notification with length 0.
    pub fn received_buffer(&mut self, rx_buffer: Vec<u8>, rx_len: usize, rval: Result<
        (),
        ErrorCode,
    >) -> (r: Option<Notification>)
        requires
            old(self).wf(),
            old(self).phase is Receiving,
            rx_buffer@.len() == old(self).capacity,
            rx_len <= rx_buffer@.len(),
        ensures
            final(self).wf(),
            final(self).state is Idle,
            final(self).phase is Held,
            (final(self).buffer matches Some(b) && b@ == rx_buffer@),
            final(self).capacity == old(self).capacity,
            old(self).state is Idle ==> (r is None && final(self).apps == old(self).apps),
            old(self).state matches NetworkState::Requesting(p) ==> (match rval {
                Ok(()) => (
                    r == Some((Notification { pid: p, status: 0, length: rx_len }))
                    && final(self).apps.data_in_of(p) == receive_into(
                        old(self).apps.data_in_of(p),
                        rx_buffer@,
                        rx_len as nat,
                    )
                    && final(self).apps.address_of(p) == old(self).apps.address_of(p)
                    && final(self).apps.data_out_of(p) == old(self).apps.data_out_of(p)
                    && (forall|q: u32| (final(self).apps.contains(q) <==> old(self).apps.contains(q)))
                    && (forall|q: u32| q != p ==> final(self).apps.address_of(q) == old(self).apps.address_of(q))
                    && (forall|q: u32| q != p ==> final(self).apps.data_out_of(q) == old(self).apps.data_out_of(q))
                    && (forall|q: u32| q != p ==> final(self).apps.data_in_of(q) == old(self).apps.data_in_of(q))
                ),
                Err(e) => (
                    r == Some((Notification { pid: p, status: statuscode(Err(e)), length: 0 }))
                    && final(self).apps == old(self).apps
                ),
            }),
    {
        let note = match self.state {
            NetworkState::Requesting(p) => match rval {
                Ok(()) => {
                    self.apps.write_data_in(p, &rx_buffer, rx_len);
                    Some(Notification { pid: p, status: into_statuscode(Ok(())), length: rx_len })
                }
                Err(e) => Some(
                    Notification { pid: p, status: into_statuscode(Err(e)), length: 0 },
                ),
            },
            NetworkState::Idle => None,
        };
        self.buffer = Some(rx_buffer);
        self.phase = Phase::Held;
        self.state = NetworkState::Idle;
        note
    }

    /// Register a read-only region for `process_id`: slot 0 is the address,
    /// slot 1 the outgoing payload.  The previously registered region (empty
    /// if none) is handed back; any other slot is rejected with the region
    /// unchanged.  Registration never touches the admission state machine or the
    /// transfer buffer.
    pub fn allow_readonly(&mut self, process_id: u32, allow_num: usize, buffer: Vec<u8>) -> (r:
        Result<Vec<u8>, (Vec<u8>, ErrorCode)>)
        requires
            old(self).wf(),
        ensures
            final(self).wf(),
            final(self).state == old(self).state,
            final(self).phase == old(self).phase,
            final(self).buffer == old(self).buffer,
            final(self).capacity == old(self).capacity,
            allow_num == 0 ==> (
                (r matches Ok(prev) && prev@ == old(self).apps.address_of(process_id))
                && final(self).apps.address_of(process_id) == buffer@
                && final(self).apps.data_out_of(process_id) == old(self).apps.data_out_of(process_id)
                && final(self).apps.data_in_of(process_id) == old(self).apps.data_in_of(process_id)
                && regions_unchanged_except(old(self).apps, final(self).apps, process_id)
            ),
            allow_num == 1 ==> (
                (r matches Ok(prev) && prev@ == old(self).apps.data_out_of(process_id))
                && final(self).apps.data_out_of(process_id) == buffer@
                && final(self).apps.address_of(process_id) == old(self).apps.address_of(process_id)
                && final(self).apps.data_in_of(process_id) == old(self).apps.data_in_of(process_id)
                && regions_unchanged_except(old(self).apps, final(self).apps, process_id)
            ),
            allow_num >= 2 ==> (
                (r matches Err((b, code)) && b@ == buffer@ && code == ErrorCode::Unsupported)
                && final(self).apps == old(self).apps
            ),
    {
        match allow_num {
            0 => Ok(self.apps.set_address(process_id, buffer)),
            1 => Ok(self.apps.set_data_out(process_id, buffer)),
            _ => Err((buffer, ErrorCode::Unsupported)),
        }
    }

    /// Register a read-write region for `process_id`: slot 0 is the
    /// incoming-payload destination.  The previously registered region (empty
    /// if none) is handed back; any other slot is rejected with the region
    /// unchanged.  Registration never touches the admission state machine or the
    /// transfer buffer.
    pub fn allow_readwrite(&mut self, process_id: u32, allow_num: usize, buffer: Vec<u8>) -> (r:
        Result<Vec<u8>, (Vec<u8>, ErrorCode)>)
        requires
            old(self).wf(),
        ensures
            final(self).wf(),
            final(self).state == old(self).state,
            final(self).phase == old(self).phase,
            final(self).buffer == old(self).buffer,
            final(self).capacity == old(self).capacity,
            allow_num == 0 ==> (
                (r matches Ok(prev) && prev@ == old(self).apps.data_in_of(process_id))
                && final(self).apps.data_in_of(process_id) == buffer@
                && final(self).apps.address_of(process_id) == old(self).apps.address_of(process_id)
                && final(self).apps.data_out_of(process_id) == old(self).apps.data_out_of(process_id)
                && regions_unchanged_except(old(self).apps, final(self).apps, process_id)
            ),
            allow_num >= 1 ==> (
                (r matches Err((b, code)) && b@ == buffer@ && code == ErrorCode::Unsupported)
                && final(self).apps == old(self).apps
            ),
    {
        match allow_num {
            0 => Ok(self.apps.set_data_in(process_id, buffer)),
            _ => Err((buffer, ErrorCode::Unsupported)),
        }
    }

    /// Make sure `process_id` has a storage record, creating an empty one if
    /// needed.  No registered region, nor anything else a process can
    /// observe, changes.
    pub fn allocate_grant(&mut self, process_id: u32) -> (r: Result<(), ErrorCode>)
        requires
            old(self).wf(),
        ensures
            final(self).wf(),
            r is Ok,
            final(self).state == old(self).state,
            final(self).phase == old(self).phase,
            final(self).buffer == old(self).buffer,
            final(self).capacity == old(self).capacity,
            final(self).apps.contains(process_id),
            final(self).apps.address_of(process_id) == old(self).apps.address_of(process_id),
            final(self).apps.data_out_of(process_id) == old(self).apps.data_out_of(process_id),
            final(self).apps.data_in_of(process_id) == old(self).apps.data_in_of(process_id),
            regions_unchanged_except(old(self).apps, final(self).apps, process_id),
    {
        self.apps.ensure_entry(process_id);
        Ok(())
    }

    /// Law: ownership hand-off.  In a well-formed broker the transfer buffer
    /// is attributable to exactly one holder at any instant: the driver holds
    /// it exactly when no transport operation is outstanding, and the
    /// transport holds it exactly when one is.
    pub proof fn lemma_buffer_exclusive(self)
        requires
            self.wf(),
        ensures
            self.buffer is Some <==> self.phase is Held,
            self.buffer is None <==> (self.phase is Transmitting || self.phase is Receiving),
            !(self.buffer is Some && (self.phase is Transmitting || self.phase is Receiving)),
    {
    }
}

} // verus!
