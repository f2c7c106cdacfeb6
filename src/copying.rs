use vstd::prelude::*;

verus! {

/// What one read into the copy buffer reported.
#[derive(PartialEq, Eq, Structural, Debug, Clone, Copy)]
pub enum ReadOutcome {
    /// The read placed this many bytes in the buffer; zero marks the end of
    /// the input.
    Filled(usize),
    /// The read was interrupted before any byte arrived.
    Interrupted,
    /// The read failed with any other error.
    Failed,
}

/// What the copy loop does after a read.
#[derive(PartialEq, Eq, Structural, Debug, Clone, Copy)]
pub enum CopyAction {
    /// The input is exhausted: report this many bytes copied in all.
    Finish(u64),
    /// Read again.
    Retry,
    /// Write the first `len` bytes of the buffer to the output; once that
    /// succeeds, `total` bytes have been copied in all.
    Write { len: usize, total: u64 },
    /// Stop and report the read error.
    Fail,
}

/// The copy loop's decision after a read, `written` bytes having been copied
/// so far.
pub fn copy_action(written: u64, read: ReadOutcome) -> (r: CopyAction)
    requires
        read matches ReadOutcome::Filled(len) ==> written + len <= u64::MAX,
    ensures
        r == (match read {
            ReadOutcome::Filled(len) => if len == 0 {
                CopyAction::Finish(written)
            } else {
                CopyAction::Write { len, total: (written + len) as u64 }
            },
            ReadOutcome::Interrupted => CopyAction::Retry,
            ReadOutcome::Failed => CopyAction::Fail,
        }),
{
    match read {
        ReadOutcome::Filled(len) => {
            if len == 0 {
                CopyAction::Finish(written)
            } else {
                CopyAction::Write { len, total: written + len as u64 }
            }
        },
        ReadOutcome::Interrupted => CopyAction::Retry,
        ReadOutcome::Failed => CopyAction::Fail,
    }
}

} // verus!
