//! The command dispatcher: one command, one control request, one report.
//!
//! An invocation opens the device, issues the single request that its command
//! stands for, and reports the outcome. [`Session`] holds that course as a
//! machine of two states: it awaits dispatch from the moment the device is
//! open, and is completed once the reply to its request has been reported.

use crate::cli::IoctlCommands;
use crate::ioctl::{
    ControlReply, ControlRequest, DeviceError, KmsgpipeDevice, RequestView, KMSGPIPE_IOC_CLEAR,
};
use vstd::prelude::*;

verus! {

/// What an invocation reports to its caller.
#[derive(Clone, Debug, PartialEq, Eq)]
pub enum Report {
    /// A scalar, to be written to standard output on a line of its own.
    Scalar(i64),
    /// Success with nothing to show.
    Silent,
    /// A failure, whose description goes to standard error.
    Failure(DeviceError),
}

/// Where a session stands.
#[derive(Clone, Copy, Debug, PartialEq, Eq, Structural)]
pub enum Phase {
    /// The device is open and the command's request has not been answered.
    AwaitingDispatch,
    /// The reply to the command's request has been reported.
    Completed,
}

/// One invocation from the open device to its report.
#[derive(Debug, PartialEq, Eq)]
pub struct Session {
    device: KmsgpipeDevice,
    command: IoctlCommands,
    phase: Phase,
}

impl Report {
    /// The exit status of the process: zero unless the invocation failed.
    pub open spec fn spec_exit_status(&self) -> i32 {
        if self is Failure {
            1
        } else {
            0
        }
    }

    /// The scalar to print on standard output, if there is one.
    pub open spec fn spec_standard_output(&self) -> Option<i64> {
        match self {
            Report::Scalar(scalar) => Some(*scalar),
            _ => None,
        }
    }

    /// The text to print on standard error, if there is any.
    pub open spec fn spec_standard_error(&self) -> Option<Seq<char>> {
        match self {
            Report::Failure(error) => Some(error.spec_reason()),
            _ => None,
        }
    }

    /// The exit status of the process: zero unless the invocation failed.
    #[verifier::when_used_as_spec(spec_exit_status)]
    pub fn exit_status(&self) -> (status: i32)
        ensures
            status == self.spec_exit_status(),
    {
        match self {
            Report::Failure(_) => 1,
            _ => 0,
        }
    }

    /// The scalar to print on standard output, if there is one.
    #[verifier::when_used_as_spec(spec_standard_output)]
    pub fn standard_output(&self) -> (scalar: Option<i64>)
        ensures
            scalar == self.spec_standard_output(),
    {
        match self {
            Report::Scalar(scalar) => Some(*scalar),
            _ => None,
        }
    }

    /// The text to print on standard error, if there is any.
    pub fn standard_error(&self) -> (text: Option<&String>)
        ensures
            text is Some <==> self.spec_standard_error() is Some,
            text is Some ==> text->0@ == self.spec_standard_error()->0,
    {
        match self {
            Report::Failure(error) => Some(error.reason()),
            _ => None,
        }
    }
}

/// The request that `command` stands for on `device`.
pub open spec fn request_for(device: &KmsgpipeDevice, command: IoctlCommands) -> RequestView {
    match command {
        IoctlCommands::Get { op } => device.read_scalar(op.spec_tag()),
        IoctlCommands::SetValue { op, value } => device.write_scalar(op.spec_tag(), value),
        IoctlCommands::Clear => device.signal(KMSGPIPE_IOC_CLEAR),
    }
}

/// The report of `command` when the driver answered its request with `reply`.
pub open spec fn report_for(command: IoctlCommands, reply: ControlReply) -> Report {
    match command {
        IoctlCommands::Get { op } => get_report(reply.spec_scalar()),
        _ => set_report(reply.spec_done()),
    }
}

/// The report of a read: the scalar on success, the failure otherwise.
pub open spec fn get_report(op_result: Result<i64, DeviceError>) -> Report {
    match op_result {
        Ok(scalar) => Report::Scalar(scalar),
        Err(error) => Report::Failure(error),
    }
}

/// The report of a write or a signal: silence on success, the failure
/// otherwise.
pub open spec fn set_report(op_result: Result<(), DeviceError>) -> Report {
    match op_result {
        Ok(_) => Report::Silent,
        Err(error) => Report::Failure(error),
    }
}

/// Reports the outcome of a read.
pub fn process_get_command(op_result: Result<i64, DeviceError>) -> (report: Report)
    ensures
        report == get_report(op_result),
{
    match op_result {
        Ok(scalar) => Report::Scalar(scalar),
        Err(error) => Report::Failure(error),
    }
}

/// Reports the outcome of a write or a signal.
pub fn process_set_command(op_result: Result<(), DeviceError>) -> (report: Report)
    ensures
        report == set_report(op_result),
{
    match op_result {
        Ok(_) => Report::Silent,
        Err(error) => Report::Failure(error),
    }
}

/// Whether two commands select the same operation of the device, whatever
/// value they carry.
pub open spec fn same_operation(a: IoctlCommands, b: IoctlCommands) -> bool {
    match (a, b) {
        (IoctlCommands::Get { op: first }, IoctlCommands::Get { op: second }) => first == second,
        (
            IoctlCommands::SetValue { op: first, value: _ },
            IoctlCommands::SetValue { op: second, value: _ },
        ) => first == second,
        (IoctlCommands::Clear, IoctlCommands::Clear) => true,
        _ => false,
    }
}

/// Every operation has a tag of its own, from one to eight: the requests of
/// two commands carry the same tag exactly when the commands select the same
/// operation.
pub proof fn law_tags_are_distinct(device: KmsgpipeDevice, a: IoctlCommands, b: IoctlCommands)
    ensures
        1 <= request_for(&device, a).tag <= 8,
        request_for(&device, a).tag == request_for(&device, b).tag <==> same_operation(a, b),
{
}

/// What is shown for each outcome. An accepted query shows its scalar on
/// standard output and nothing else; an accepted update or clear shows
/// nothing; both leave with status zero. A refused request shows the driver's
/// reason on standard error, no scalar, and leaves with status one.
pub proof fn law_report_shape(command: IoctlCommands, reply: ControlReply)
    ensures
        match reply {
            ControlReply::Accepted { scalar } => {
                &&& report_for(command, reply).spec_exit_status() == 0
                &&& report_for(command, reply).spec_standard_error() is None
                &&& report_for(command, reply).spec_standard_output() == if command is Get {
                    Some(scalar)
                } else {
                    None
                }
            },
            ControlReply::Rejected { reason } => {
                &&& report_for(command, reply).spec_exit_status() == 1
                &&& report_for(command, reply).spec_standard_error() == Some(reason@)
                &&& report_for(command, reply).spec_standard_output() is None
            },
        },
{
}

impl Session {
    /// The open device of the session.
    pub closed spec fn device(&self) -> KmsgpipeDevice {
        self.device
    }

    /// The command of the session.
    pub closed spec fn command(&self) -> IoctlCommands {
        self.command
    }

    /// Where the session stands.
    pub closed spec fn spec_phase(&self) -> Phase {
        self.phase
    }

    /// Begins the invocation of `command` from the outcome of opening the
    /// device file. Where the file was opened the session awaits dispatch on
    /// it; where it was not, there is no session and so no request: the
    /// invocation ends with the report of that failure.
    pub fn start(command: IoctlCommands, attempt: Result<i32, String>) -> (result: Result<
        Session,
        Report,
    >)
        ensures
            result is Ok <==> attempt is Ok,
            match attempt {
                Ok(descriptor) => {
                    &&& result is Ok
                    &&& result->Ok_0.spec_phase() == Phase::AwaitingDispatch
                    &&& result->Ok_0.command() == command
                    &&& result->Ok_0.device().descriptor() == descriptor
                },
                Err(reason) => result == Err::<Session, Report>(
                    Report::Failure(DeviceError::OpenFailed(reason)),
                ),
            },
    {
        match KmsgpipeDevice::open(attempt) {
            Ok(device) => Ok(Session { device, command, phase: Phase::AwaitingDispatch }),
            Err(error) => Err(Report::Failure(error)),
        }
    }

    /// Where the session stands.
    #[verifier::when_used_as_spec(spec_phase)]
    pub fn phase(&self) -> (phase: Phase)
        ensures
            phase == self.spec_phase(),
    {
        self.phase
    }

    /// The one request of the session: the call on the device handle that
    /// the command selects.
    pub fn request(&self) -> (request: ControlRequest)
        requires
            self.spec_phase() == Phase::AwaitingDispatch,
        ensures
            request@ == request_for(&self.device(), self.command()),
    {
        match self.command {
            IoctlCommands::Get { op } => self.device.query(op),
            IoctlCommands::SetValue { op, value } => self.device.update(op, value),
            IoctlCommands::Clear => self.device.clear(),
        }
    }

    /// Ends the session with the driver's reply to its request, and gives
    /// the report of the invocation.
    pub fn complete(&mut self, reply: ControlReply) -> (report: Report)
        requires
            old(self).spec_phase() == Phase::AwaitingDispatch,
        ensures
            final(self).spec_phase() == Phase::Completed,
            final(self).command() == old(self).command(),
            final(self).device() == old(self).device(),
            report == report_for(old(self).command(), reply),
    {
        self.phase = Phase::Completed;
        match self.command {
            IoctlCommands::Get { op: _ } => process_get_command(reply.scalar()),
            _ => process_set_command(reply.done()),
        }
    }
}

} // verus!
