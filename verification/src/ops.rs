//! The operations that the controller asks its caller to carry out.

use vstd::prelude::*;

verus! {

/// The program that formats a file as swap space.
pub const MKSWAP: &'static str = "/usr/bin/mkswap";

/// The program that turns swapping onto a file on.
pub const SWAPON: &'static str = "/usr/bin/swapon";

/// The program that turns swapping onto a file off.
pub const SWAPOFF: &'static str = "/usr/bin/swapoff";

/// A status line for the process supervisor.
#[derive(Clone, Copy, Debug, PartialEq, Eq, Structural)]
pub enum Status {
    /// A swap file is being created.
    Allocating,
    /// A swap file is being taken away.
    Deallocating,
    /// Nothing is being changed; memory is being watched.
    Monitoring,
}

impl Status {
    /// The text of a status line, as a specification.
    pub open spec fn text_spec(self) -> Seq<char> {
        match self {
            Status::Allocating => "Allocating swap file..."@,
            Status::Deallocating => "Deallocating swap file..."@,
            Status::Monitoring => "Monitoring memory status..."@,
        }
    }

    /// The text of a status line.
    pub fn text(&self) -> (text: &'static str)
        ensures
            text@ == self.text_spec(),
    {
        match self {
            Status::Allocating => "Allocating swap file...",
            Status::Deallocating => "Deallocating swap file...",
            Status::Monitoring => "Monitoring memory status...",
        }
    }
}

/// One operation on the host.  A file is named by its index in the pool,
/// counted from one.
#[derive(Clone, Copy, Debug, PartialEq, Eq, Structural)]
pub enum Op {
    /// Tell the supervisor what is going on.  Never used for a decision.
    Notify(Status),
    /// Make sure that the pool directory exists.
    EnsurePoolDir,
    /// Create the sentinel whose removal ends the loop.
    CreateSentinel,
    /// Create the file, readable and writable by its owner only, and fill it
    /// with zeroes up to its full size.
    CreateFile(u8),
    /// Format the file as swap space.
    Format(u8),
    /// Turn swapping onto the file on.
    Activate(u8),
    /// Turn swapping onto the file off.
    Deactivate(u8),
    /// Delete the file.
    RemoveFile(u8),
}

impl Op {
    /// What to report when an operation fails, as a specification.
    pub open spec fn diagnostic_spec(self) -> Seq<char> {
        match self {
            Op::Notify(_) => "Unable to notify systemd"@,
            Op::EnsurePoolDir => "Unable to create swapfc_path"@,
            Op::CreateSentinel => "Unable to create swapfc lock"@,
            Op::CreateFile(_) => "Unable to prepare swap file"@,
            Op::Format(_) => "Unable to mkswap"@,
            Op::Activate(_) => "Unable to swapon"@,
            Op::Deactivate(_) => "Unable to swapoff"@,
            Op::RemoveFile(_) => "Unable to remove file"@,
        }
    }

    /// What to report when an operation fails: the text names the operation.
    pub fn diagnostic(&self) -> (text: &'static str)
        ensures
            text@ == self.diagnostic_spec(),
    {
        match self {
            Op::Notify(_) => "Unable to notify systemd",
            Op::EnsurePoolDir => "Unable to create swapfc_path",
            Op::CreateSentinel => "Unable to create swapfc lock",
            Op::CreateFile(_) => "Unable to prepare swap file",
            Op::Format(_) => "Unable to mkswap",
            Op::Activate(_) => "Unable to swapon",
            Op::Deactivate(_) => "Unable to swapoff",
            Op::RemoveFile(_) => "Unable to remove file",
        }
    }
}

/// Growth by one file: what is done, in order, to add the file `index`.
pub open spec fn growth_ops(index: u8) -> Seq<Op> {
    seq![
        Op::Notify(Status::Allocating),
        Op::CreateFile(index),
        Op::Format(index),
        Op::Activate(index),
        Op::Notify(Status::Monitoring),
    ]
}

/// Shrinking by one file: what is done, in order, to take the file `index`
/// away.
pub open spec fn shrink_ops(index: u8) -> Seq<Op> {
    seq![
        Op::Notify(Status::Deallocating),
        Op::Deactivate(index),
        Op::RemoveFile(index),
        Op::Notify(Status::Monitoring),
    ]
}

/// Appends the operations of growth by the file `index` to `ops`.
pub fn push_growth(ops: &mut Vec<Op>, index: u8)
    ensures
        final(ops)@ == old(ops)@ + growth_ops(index),
{
    ops.push(Op::Notify(Status::Allocating));
    ops.push(Op::CreateFile(index));
    ops.push(Op::Format(index));
    ops.push(Op::Activate(index));
    ops.push(Op::Notify(Status::Monitoring));
}

/// Appends the operations of shrinking by the file `index` to `ops`.
pub fn push_shrink(ops: &mut Vec<Op>, index: u8)
    ensures
        final(ops)@ == old(ops)@ + shrink_ops(index),
{
    ops.push(Op::Notify(Status::Deallocating));
    ops.push(Op::Deactivate(index));
    ops.push(Op::RemoveFile(index));
    ops.push(Op::Notify(Status::Monitoring));
}

} // verus!
