//! The commands a caller can select.

use vstd::prelude::*;

verus! {

/// A scalar attribute of the device that can be read.
#[derive(Clone, Copy, Debug, PartialEq, Eq, Structural)]
pub enum IoctlGetCommands {
    /// Bytes of message data currently buffered.
    DataSize,
    /// Size of the device's buffer in bytes.
    Capacity,
    /// Number of messages currently buffered.
    MsgCount,
    /// Number of readers that hold the device open.
    Readers,
    /// Number of writers that hold the device open.
    Writers,
    /// Time in milliseconds after which a buffered message expires.
    ExpiryMs,
}

/// A scalar attribute of the device that can be written.
#[derive(Clone, Copy, Debug, PartialEq, Eq, Structural)]
pub enum IoctlSetCommands {
    /// Time in milliseconds after which a buffered message expires.
    ExpiryMs,
}

/// The one command of an invocation.
#[derive(Clone, Copy, Debug, PartialEq, Eq, Structural)]
#[allow(inconsistent_fields)]
pub enum IoctlCommands {
    /// Read an attribute and report it.
    Get { op: IoctlGetCommands },
    /// Write `value` to an attribute.
    SetValue { op: IoctlSetCommands, value: i64 },
    /// Discard every buffered message.
    Clear,
}

/// What a caller selects: the device file and the command to run on it.
#[derive(Clone, Debug, PartialEq, Eq)]
pub struct KmsgpipeCli {
    /// Device file to operate on.
    pub device: String,
    /// The command to run.
    pub command: IoctlCommands,
}

impl IoctlGetCommands {
    /// The word that selects this attribute on the command line.
    pub open spec fn spec_name(self) -> Seq<char> {
        match self {
            IoctlGetCommands::DataSize => "data-size"@,
            IoctlGetCommands::Capacity => "capacity"@,
            IoctlGetCommands::MsgCount => "msg-count"@,
            IoctlGetCommands::Readers => "readers"@,
            IoctlGetCommands::Writers => "writers"@,
            IoctlGetCommands::ExpiryMs => "expiry-ms"@,
        }
    }

    /// The word that selects this attribute on the command line.
    pub fn name(self) -> (name: &'static str)
        ensures
            name@ == self.spec_name(),
    {
        match self {
            IoctlGetCommands::DataSize => "data-size",
            IoctlGetCommands::Capacity => "capacity",
            IoctlGetCommands::MsgCount => "msg-count",
            IoctlGetCommands::Readers => "readers",
            IoctlGetCommands::Writers => "writers",
            IoctlGetCommands::ExpiryMs => "expiry-ms",
        }
    }

    /// No two attributes share a command-line word.
    pub proof fn law_names_are_distinct(a: IoctlGetCommands, b: IoctlGetCommands)
        requires
            a != b,
        ensures
            a.spec_name() != b.spec_name(),
    {
        reveal_strlit("data-size");
        reveal_strlit("capacity");
        reveal_strlit("msg-count");
        reveal_strlit("readers");
        reveal_strlit("writers");
        reveal_strlit("expiry-ms");
        assert(a.spec_name()[0] != b.spec_name()[0]);
    }
}

impl IoctlSetCommands {
    /// The word that selects this attribute on the command line.
    pub open spec fn spec_name(self) -> Seq<char> {
        match self {
            IoctlSetCommands::ExpiryMs => "expiry-ms"@,
        }
    }

    /// The word that selects this attribute on the command line.
    pub fn name(self) -> (name: &'static str)
        ensures
            name@ == self.spec_name(),
    {
        match self {
            IoctlSetCommands::ExpiryMs => "expiry-ms",
        }
    }
}

} // verus!
