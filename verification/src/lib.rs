//! Development-time detection of blocking lock calls made from inside a
//! running cooperative-task scheduler.
//!
//! The guarded locks of [`sync`] refuse a blocking acquisition whenever the
//! caller reports that the current thread is driving a task. The report comes
//! from the probe of [`probe`], whose speculative call the embedding program
//! performs; [`hook`] keeps the panic hook that is muted meanwhile.

use vstd::prelude::*;
use vstd::string::*;

pub mod hook;
pub mod probe;
pub mod sync;

verus! {

/// The failure of a blocking acquisition that was attempted while the calling
/// thread was driving a task of the scheduler. It is meant to end the
/// program: the caller panics with [`FatalAsyncBlock::message`].
#[derive(Debug)]
pub struct FatalAsyncBlock {
    /// Name of the refused operation.
    pub op: String,
}

/// The text of the failure for the operation named `op`.
pub open spec fn fatal_message(op: Seq<char>) -> Seq<char> {
    op + " called within an async context"@
}

impl FatalAsyncBlock {
    /// The text to end the program with.
    pub fn message(&self) -> (text: String)
        ensures
            text@ == fatal_message(self.op@),
    {
        self.op.clone().concat(" called within an async context")
    }
}

/// Decides whether the blocking operation named `op` may go on, given the
/// probe's verdict `within`: it fails, naming `op`, exactly when the calling
/// thread is inside the scheduler.
pub fn panic_if_within_tokio(op: &str, within: bool) -> (outcome: Result<(), FatalAsyncBlock>)
    ensures
        outcome is Err <==> within,
        within ==> outcome->Err_0.op@ == op@,
{
    if within {
        Err(FatalAsyncBlock { op: String::from_str(op) })
    } else {
        Ok(())
    }
}

} // verus!
