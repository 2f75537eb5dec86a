//! A model of the device, and what the client's requests achieve on it.
//!
//! The driver is not part of this library. What is stated here holds of any
//! device that serves the requests of the tag table as [`PipeState::serve`]
//! describes, on each request that it accepts.

use crate::cli::{IoctlCommands, IoctlGetCommands, IoctlSetCommands};
use crate::dispatch::{report_for, request_for, Report};
use crate::ioctl::{
    ControlReply, Direction, KmsgpipeDevice, RequestView, KMSGPIPE_IOC_CLEAR, KMSGPIPE_IOC_MAGIC,
};
use vstd::prelude::*;

verus! {

/// The attributes of a device that control requests can read.
pub struct PipeState {
    /// Bytes of message data in the buffer.
    pub data_size: i64,
    /// Size of the buffer in bytes.
    pub capacity: i64,
    /// Number of messages in the buffer.
    pub msg_count: i64,
    /// Number of readers that hold the device open.
    pub readers: i64,
    /// Number of writers that hold the device open.
    pub writers: i64,
    /// Time in milliseconds after which a message expires.
    pub expiry_ms: i64,
}

impl PipeState {
    /// The attribute that `op` names.
    pub open spec fn get(self, op: IoctlGetCommands) -> i64 {
        match op {
            IoctlGetCommands::DataSize => self.data_size,
            IoctlGetCommands::Capacity => self.capacity,
            IoctlGetCommands::MsgCount => self.msg_count,
            IoctlGetCommands::Readers => self.readers,
            IoctlGetCommands::Writers => self.writers,
            IoctlGetCommands::ExpiryMs => self.expiry_ms,
        }
    }

    /// The scalar that the device stores for the read request with `tag`, if
    /// it knows such a request.
    pub open spec fn read(self, tag: u8) -> Option<i64> {
        if tag == 1 {
            Some(self.data_size)
        } else if tag == 2 {
            Some(self.capacity)
        } else if tag == 3 {
            Some(self.msg_count)
        } else if tag == 4 {
            Some(self.readers)
        } else if tag == 5 {
            Some(self.writers)
        } else if tag == 6 {
            Some(self.expiry_ms)
        } else {
            None
        }
    }

    /// The state after the device took `value` with the write request with
    /// `tag`, if it knows such a request.
    pub open spec fn write(self, tag: u8, value: i64) -> Option<PipeState> {
        if tag == 7 {
            Some(PipeState { expiry_ms: value, ..self })
        } else {
            None
        }
    }

    /// The state after the device took the signal with `tag`, if it knows
    /// such a signal: cleared, it holds no message and no data.
    pub open spec fn signal(self, tag: u8) -> Option<PipeState> {
        if tag == KMSGPIPE_IOC_CLEAR {
            Some(PipeState { data_size: 0, msg_count: 0, ..self })
        } else {
            None
        }
    }

    /// How the device serves `request` when it accepts it: its state and the
    /// request's scalar after the call. There is none for a request that the
    /// tag table does not hold.
    pub open spec fn serve(self, request: RequestView) -> Option<(PipeState, i64)> {
        if request.magic != KMSGPIPE_IOC_MAGIC {
            None
        } else {
            match request.direction {
                Direction::Read => match self.read(request.tag) {
                    Some(scalar) => Some((self, scalar)),
                    None => None,
                },
                Direction::Write => match self.write(request.tag, request.payload) {
                    Some(next) => Some((next, request.payload)),
                    None => None,
                },
                Direction::Signal => match self.signal(request.tag) {
                    Some(next) => Some((next, request.payload)),
                    None => None,
                },
            }
        }
    }

    /// The state after `command` was dispatched on `device` and accepted.
    pub open spec fn after(self, device: &KmsgpipeDevice, command: IoctlCommands) -> PipeState
        recommends
            self.serve(request_for(device, command)) is Some,
    {
        match self.serve(request_for(device, command)) {
            Some((next, _)) => next,
            None => self,
        }
    }

    /// The report of `command`, dispatched on `device` and accepted.
    pub open spec fn report(self, device: &KmsgpipeDevice, command: IoctlCommands) -> Report
        recommends
            self.serve(request_for(device, command)) is Some,
    {
        match self.serve(request_for(device, command)) {
            Some((_, scalar)) => report_for(command, ControlReply::Accepted { scalar }),
            None => arbitrary(),
        }
    }
}

/// Every command stands for a request that the device knows.
pub proof fn law_every_command_is_served(
    device: KmsgpipeDevice,
    state: PipeState,
    command: IoctlCommands,
)
    ensures
        state.serve(request_for(&device, command)) is Some,
{
}

/// A query reports the attribute that it names, as the device holds it, and
/// leaves every attribute as it was: the same query made again reports the
/// same scalar.
pub proof fn law_query_reads_without_change(
    device: KmsgpipeDevice,
    state: PipeState,
    op: IoctlGetCommands,
)
    ensures
        state.report(&device, IoctlCommands::Get { op }) == Report::Scalar(state.get(op)),
        state.after(&device, IoctlCommands::Get { op }) == state,
        state.after(&device, IoctlCommands::Get { op }).report(&device, IoctlCommands::Get { op })
            == state.report(&device, IoctlCommands::Get { op }),
{
}

/// An update of the expiry duration that the device accepts is reported in
/// silence, and the query that follows it reports the value that was written.
/// No other attribute changes.
pub proof fn law_update_then_query(device: KmsgpipeDevice, state: PipeState, value: i64)
    ensures
        ({
            let update = IoctlCommands::SetValue { op: IoctlSetCommands::ExpiryMs, value };
            let query = IoctlCommands::Get { op: IoctlGetCommands::ExpiryMs };
            &&& state.report(&device, update) == Report::Silent
            &&& state.after(&device, update).report(&device, query) == Report::Scalar(value)
            &&& forall|op: IoctlGetCommands|
                op != IoctlGetCommands::ExpiryMs ==> #[trigger] state.after(&device, update).get(
                    op,
                ) == state.get(op)
        }),
{
}

/// A clear that the device accepts is reported in silence, and the query of
/// the message count that follows it reports zero, as does that of the data
/// size. No other attribute changes.
pub proof fn law_clear_then_msg_count(device: KmsgpipeDevice, state: PipeState)
    ensures
        ({
            let cleared = state.after(&device, IoctlCommands::Clear);
            let msg_count = IoctlCommands::Get { op: IoctlGetCommands::MsgCount };
            let data_size = IoctlCommands::Get { op: IoctlGetCommands::DataSize };
            &&& state.report(&device, IoctlCommands::Clear) == Report::Silent
            &&& cleared.report(&device, msg_count) == Report::Scalar(0)
            &&& cleared.report(&device, data_size) == Report::Scalar(0)
            &&& forall|op: IoctlGetCommands|
                op != IoctlGetCommands::MsgCount && op != IoctlGetCommands::DataSize
                    ==> #[trigger] cleared.get(op) == state.get(op)
        }),
{
}

} // verus!
