//! A stand-in for a command's stdin.
use vstd::prelude::*;

verus! {

/// A writer that takes everything at once and keeps nothing.
pub struct NeverWriter;

impl NeverWriter {
    /// Takes all of `buf`; the result is the number of bytes taken.
    pub fn poll_write(&self, buf: &[u8]) -> (written: Result<usize, String>)
        ensures
            written is Ok,
            written->Ok_0 == buf@.len(),
    {
        Ok(buf.len())
    }

    /// There is nothing to flush.
    pub fn poll_flush(&self) -> (flushed: Result<(), String>)
        ensures
            flushed == Ok::<(), String>(()),
    {
        Ok(())
    }

    /// There is nothing to shut down.
    pub fn poll_shutdown(&self) -> (closed: Result<(), String>)
        ensures
            closed == Ok::<(), String>(()),
    {
        Ok(())
    }
}

/// A writer, or the stand-in for one.
pub enum WriterOrNever<W> {
    Writer(W),
    Never(NeverWriter),
}

/// The writer given, or the stand-in where there is none.
pub fn writer_or_never<W>(writer: Option<W>) -> (chosen: WriterOrNever<W>)
    ensures
        match writer {
            Some(writer) => chosen == WriterOrNever::Writer(writer),
            None => chosen == WriterOrNever::<W>::Never(NeverWriter),
        },
{
    if let Some(writer) = writer {
        WriterOrNever::Writer(writer)
    } else {
        WriterOrNever::Never(NeverWriter)
    }
}

} // verus!
