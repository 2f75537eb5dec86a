//! The device handle and the control requests it issues.
//!
//! A control request is identified by the device's magic byte and a numeric
//! tag. The table of tags is the wire contract with the driver:
//!
//! | tag | direction | meaning                  |
//! |-----|-----------|--------------------------|
//! | 1   | read      | data size in bytes       |
//! | 2   | read      | capacity in bytes        |
//! | 3   | read      | current message count    |
//! | 4   | read      | active reader count      |
//! | 5   | read      | active writer count      |
//! | 6   | read      | expiry duration (ms)     |
//! | 7   | write     | set expiry duration (ms) |
//! | 8   | signal    | clear the device         |

use crate::cli::{IoctlGetCommands, IoctlSetCommands};
use vstd::prelude::*;

verus! {

/// The magic byte of every control request of the device: the letter `K`.
pub const KMSGPIPE_IOC_MAGIC: u8 = 0x4B;

/// The tag of the request that clears the device.
pub const KMSGPIPE_IOC_CLEAR: u8 = 8;

/// Which way a control request moves its scalar.
#[derive(Clone, Copy, Debug, PartialEq, Eq, Structural)]
pub enum Direction {
    /// The driver stores a scalar for the caller.
    Read,
    /// The caller hands a scalar to the driver.
    Write,
    /// No scalar is exchanged.
    Signal,
}

/// How the device file is to be opened.
#[derive(Clone, Debug, PartialEq, Eq)]
pub struct OpenRequest {
    /// The device file.
    pub path: String,
    /// Whether read access is asked for.
    pub read: bool,
    /// Whether write access is asked for.
    pub write: bool,
}

/// One control request, ready to be carried to the driver. Only an open
/// device handle makes one.
#[derive(Clone, Copy, Debug, PartialEq, Eq)]
pub struct ControlRequest {
    descriptor: i32,
    magic: u8,
    tag: u8,
    direction: Direction,
    payload: i64,
}

/// What a control request holds.
pub struct RequestView {
    /// The open descriptor the request is issued on.
    pub descriptor: i32,
    /// The magic byte of the device.
    pub magic: u8,
    /// The tag that selects the request.
    pub tag: u8,
    /// Which way the scalar moves.
    pub direction: Direction,
    /// The scalar before the call: the value to write, zero otherwise.
    pub payload: i64,
}

impl View for ControlRequest {
    type V = RequestView;

    closed spec fn view(&self) -> RequestView {
        RequestView {
            descriptor: self.descriptor,
            magic: self.magic,
            tag: self.tag,
            direction: self.direction,
            payload: self.payload,
        }
    }
}

/// What came back from the driver for one control request.
#[derive(Clone, Debug, PartialEq, Eq)]
pub enum ControlReply {
    /// The driver served the request; `scalar` is the request's scalar after
    /// the call.
    Accepted { scalar: i64 },
    /// The driver refused the request, for the reason given.
    Rejected { reason: String },
}

/// Why an invocation failed.
#[derive(Clone, Debug, PartialEq, Eq)]
pub enum DeviceError {
    /// The device file could not be opened for reading and writing.
    OpenFailed(String),
    /// The driver refused a control request.
    ControlFailed(String),
}

/// An open connection to one pipe device.
#[derive(Debug, PartialEq, Eq)]
pub struct KmsgpipeDevice {
    descriptor: i32,
}

impl IoctlGetCommands {
    /// The tag of the request that reads this attribute.
    pub open spec fn spec_tag(self) -> u8 {
        match self {
            IoctlGetCommands::DataSize => 1,
            IoctlGetCommands::Capacity => 2,
            IoctlGetCommands::MsgCount => 3,
            IoctlGetCommands::Readers => 4,
            IoctlGetCommands::Writers => 5,
            IoctlGetCommands::ExpiryMs => 6,
        }
    }

    /// The tag of the request that reads this attribute.
    #[verifier::when_used_as_spec(spec_tag)]
    pub fn tag(self) -> (tag: u8)
        ensures
            tag == self.spec_tag(),
    {
        match self {
            IoctlGetCommands::DataSize => 1,
            IoctlGetCommands::Capacity => 2,
            IoctlGetCommands::MsgCount => 3,
            IoctlGetCommands::Readers => 4,
            IoctlGetCommands::Writers => 5,
            IoctlGetCommands::ExpiryMs => 6,
        }
    }
}

impl IoctlSetCommands {
    /// The tag of the request that writes this attribute.
    pub open spec fn spec_tag(self) -> u8 {
        match self {
            IoctlSetCommands::ExpiryMs => 7,
        }
    }

    /// The tag of the request that writes this attribute.
    #[verifier::when_used_as_spec(spec_tag)]
    pub fn tag(self) -> (tag: u8)
        ensures
            tag == self.spec_tag(),
    {
        match self {
            IoctlSetCommands::ExpiryMs => 7,
        }
    }
}

impl DeviceError {
    /// The description of the failure, as it is shown to the caller.
    pub open spec fn spec_reason(&self) -> Seq<char> {
        match self {
            DeviceError::OpenFailed(reason) => reason@,
            DeviceError::ControlFailed(reason) => reason@,
        }
    }

    /// The description of the failure, as it is shown to the caller.
    pub fn reason(&self) -> (reason: &String)
        ensures
            reason@ == self.spec_reason(),
    {
        match self {
            DeviceError::OpenFailed(reason) => reason,
            DeviceError::ControlFailed(reason) => reason,
        }
    }
}

impl ControlReply {
    /// The result of a read request with this reply: the scalar as the driver
    /// stored it, or the driver's refusal.
    pub open spec fn spec_scalar(self) -> Result<i64, DeviceError> {
        match self {
            ControlReply::Accepted { scalar } => Ok(scalar),
            ControlReply::Rejected { reason } => Err(DeviceError::ControlFailed(reason)),
        }
    }

    /// The result of a write or signal request with this reply: nothing, or
    /// the driver's refusal.
    pub open spec fn spec_done(self) -> Result<(), DeviceError> {
        match self {
            ControlReply::Accepted { scalar } => Ok(()),
            ControlReply::Rejected { reason } => Err(DeviceError::ControlFailed(reason)),
        }
    }

    /// Decodes the reply to a read request. The scalar is handed on as the
    /// driver reported it: no range is checked and no unit converted.
    pub fn scalar(self) -> (result: Result<i64, DeviceError>)
        ensures
            result == self.spec_scalar(),
    {
        match self {
            ControlReply::Accepted { scalar } => Ok(scalar),
            ControlReply::Rejected { reason } => Err(DeviceError::ControlFailed(reason)),
        }
    }

    /// Decodes the reply to a write or signal request.
    pub fn done(self) -> (result: Result<(), DeviceError>)
        ensures
            result == self.spec_done(),
    {
        match self {
            ControlReply::Accepted { scalar: _ } => Ok(()),
            ControlReply::Rejected { reason } => Err(DeviceError::ControlFailed(reason)),
        }
    }
}

impl ControlRequest {
    /// The open descriptor the request is issued on.
    pub fn descriptor(&self) -> (descriptor: i32)
        ensures
            descriptor == self@.descriptor,
    {
        self.descriptor
    }

    /// The magic byte of the device.
    pub fn magic(&self) -> (magic: u8)
        ensures
            magic == self@.magic,
    {
        self.magic
    }

    /// The tag that selects the request.
    pub fn tag(&self) -> (tag: u8)
        ensures
            tag == self@.tag,
    {
        self.tag
    }

    /// Which way the scalar moves.
    pub fn direction(&self) -> (direction: Direction)
        ensures
            direction == self@.direction,
    {
        self.direction
    }

    /// The scalar before the call: the value to write, zero otherwise.
    pub fn payload(&self) -> (payload: i64)
        ensures
            payload == self@.payload,
    {
        self.payload
    }
}

impl KmsgpipeDevice {
    /// The descriptor of the open device file.
    pub closed spec fn descriptor(&self) -> i32 {
        self.descriptor
    }

    /// The request that reads the scalar selected by `tag`.
    pub open spec fn read_scalar(&self, tag: u8) -> RequestView {
        RequestView {
            descriptor: self.descriptor(),
            magic: KMSGPIPE_IOC_MAGIC,
            tag,
            direction: Direction::Read,
            payload: 0,
        }
    }

    /// The request that writes `value` to the scalar selected by `tag`.
    pub open spec fn write_scalar(&self, tag: u8, value: i64) -> RequestView {
        RequestView {
            descriptor: self.descriptor(),
            magic: KMSGPIPE_IOC_MAGIC,
            tag,
            direction: Direction::Write,
            payload: value,
        }
    }

    /// The request that raises the signal selected by `tag`.
    pub open spec fn signal(&self, tag: u8) -> RequestView {
        RequestView {
            descriptor: self.descriptor(),
            magic: KMSGPIPE_IOC_MAGIC,
            tag,
            direction: Direction::Signal,
            payload: 0,
        }
    }

    /// How the device file at `path` is to be opened: for reading and writing
    /// at once.
    pub fn open_request(path: String) -> (request: OpenRequest)
        ensures
            request == (OpenRequest { path, read: true, write: true }),
    {
        OpenRequest { path, read: true, write: true }
    }

    /// Makes the handle from the outcome of opening the device file: the
    /// descriptor, or the reason why the file could not be opened. A handle
    /// exists only for a file that was opened.
    pub fn open(attempt: Result<i32, String>) -> (result: Result<KmsgpipeDevice, DeviceError>)
        ensures
            result is Ok <==> attempt is Ok,
            match attempt {
                Ok(descriptor) => result is Ok && result->Ok_0.descriptor() == descriptor,
                Err(reason) => result == Err::<KmsgpipeDevice, DeviceError>(
                    DeviceError::OpenFailed(reason),
                ),
            },
    {
        match attempt {
            Ok(descriptor) => Ok(KmsgpipeDevice { descriptor }),
            Err(reason) => Err(DeviceError::OpenFailed(reason)),
        }
    }

    /// The descriptor of the open device file.
    pub fn fd(&self) -> (descriptor: i32)
        ensures
            descriptor == self.descriptor(),
    {
        self.descriptor
    }

    /// The request for the number of bytes of message data in the buffer.
    pub fn data_size(&self) -> (request: ControlRequest)
        ensures
            request@ == self.read_scalar(IoctlGetCommands::DataSize.spec_tag()),
    {
        self.issue_read(IoctlGetCommands::DataSize.tag())
    }

    /// The request for the size of the buffer in bytes.
    pub fn capacity(&self) -> (request: ControlRequest)
        ensures
            request@ == self.read_scalar(IoctlGetCommands::Capacity.spec_tag()),
    {
        self.issue_read(IoctlGetCommands::Capacity.tag())
    }

    /// The request for the number of messages in the buffer.
    pub fn msg_count(&self) -> (request: ControlRequest)
        ensures
            request@ == self.read_scalar(IoctlGetCommands::MsgCount.spec_tag()),
    {
        self.issue_read(IoctlGetCommands::MsgCount.tag())
    }

    /// The request for the number of readers that hold the device open.
    pub fn readers(&self) -> (request: ControlRequest)
        ensures
            request@ == self.read_scalar(IoctlGetCommands::Readers.spec_tag()),
    {
        self.issue_read(IoctlGetCommands::Readers.tag())
    }

    /// The request for the number of writers that hold the device open.
    pub fn writers(&self) -> (request: ControlRequest)
        ensures
            request@ == self.read_scalar(IoctlGetCommands::Writers.spec_tag()),
    {
        self.issue_read(IoctlGetCommands::Writers.tag())
    }

    /// The request for the expiry duration in milliseconds.
    pub fn expiry_ms(&self) -> (request: ControlRequest)
        ensures
            request@ == self.read_scalar(IoctlGetCommands::ExpiryMs.spec_tag()),
    {
        self.issue_read(IoctlGetCommands::ExpiryMs.tag())
    }

    /// The request that sets the expiry duration to `ms` milliseconds. The
    /// value is handed on as given: the driver decides which values it takes.
    pub fn set_expiry_ms(&self, ms: i64) -> (request: ControlRequest)
        ensures
            request@ == self.write_scalar(IoctlSetCommands::ExpiryMs.spec_tag(), ms),
    {
        self.issue_write(IoctlSetCommands::ExpiryMs.tag(), ms)
    }

    /// The request that discards every buffered message.
    pub fn clear(&self) -> (request: ControlRequest)
        ensures
            request@ == self.signal(KMSGPIPE_IOC_CLEAR),
    {
        self.issue_signal(KMSGPIPE_IOC_CLEAR)
    }

    /// The request that reads the attribute `op`.
    pub fn query(&self, op: IoctlGetCommands) -> (request: ControlRequest)
        ensures
            request@ == self.read_scalar(op.spec_tag()),
    {
        match op {
            IoctlGetCommands::DataSize => self.data_size(),
            IoctlGetCommands::Capacity => self.capacity(),
            IoctlGetCommands::MsgCount => self.msg_count(),
            IoctlGetCommands::Readers => self.readers(),
            IoctlGetCommands::Writers => self.writers(),
            IoctlGetCommands::ExpiryMs => self.expiry_ms(),
        }
    }

    /// The request that writes `value` to the attribute `op`.
    pub fn update(&self, op: IoctlSetCommands, value: i64) -> (request: ControlRequest)
        ensures
            request@ == self.write_scalar(op.spec_tag(), value),
    {
        match op {
            IoctlSetCommands::ExpiryMs => self.set_expiry_ms(value),
        }
    }

    fn issue_read(&self, tag: u8) -> (request: ControlRequest)
        ensures
            request@ == self.read_scalar(tag),
    {
        ControlRequest {
            descriptor: self.descriptor,
            magic: KMSGPIPE_IOC_MAGIC,
            tag,
            direction: Direction::Read,
            payload: 0,
        }
    }

    fn issue_write(&self, tag: u8, value: i64) -> (request: ControlRequest)
        ensures
            request@ == self.write_scalar(tag, value),
    {
        ControlRequest {
            descriptor: self.descriptor,
            magic: KMSGPIPE_IOC_MAGIC,
            tag,
            direction: Direction::Write,
            payload: value,
        }
    }

    fn issue_signal(&self, tag: u8) -> (request: ControlRequest)
        ensures
            request@ == self.signal(tag),
    {
        ControlRequest {
            descriptor: self.descriptor,
            magic: KMSGPIPE_IOC_MAGIC,
            tag,
            direction: Direction::Signal,
            payload: 0,
        }
    }
}

} // verus!
