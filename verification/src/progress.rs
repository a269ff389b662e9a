//! The progress transform: the number of bytes of every successful read
//! is reported to two counters, that of the file and that of the whole
//! batch.

use vstd::prelude::*;
use crate::sha256::read_count;

verus! {

/// The positions of the two counters that a stream reports to.
pub struct ProgressState {
    /// Bytes reported to the counter of the file.
    pub specific: u64,
    /// Bytes reported to the counter of the batch.
    pub global: u64,
}

/// A position moved on by `n` bytes. A counter stops at the largest
/// number it can hold.
pub open spec fn advanced(position: u64, n: nat) -> u64 {
    if position + n > u64::MAX {
        u64::MAX
    } else {
        (position + n) as u64
    }
}

impl ProgressState {
    /// The positions after one read of the underlying source, which
    /// answered with the number of bytes it read, or with nothing if it
    /// failed. Only a read that brought bytes moves the counters, and both
    /// by the same number.
    pub open spec fn after_read(self, count: Option<nat>) -> ProgressState {
        match count {
            Some(n) => ProgressState {
                specific: advanced(self.specific, n),
                global: advanced(self.global, n),
            },
            None => self,
        }
    }
}

/// The progress transform of one byte stream. It stands between a byte
/// source and its reader: the reader hands it the result of each read of
/// the source, and it moves both counters.
pub struct DualProgressReader {
    specific_pb: u64,
    global_pb: u64,
}

impl View for DualProgressReader {
    type V = ProgressState;

    closed spec fn view(&self) -> ProgressState {
        ProgressState { specific: self.specific_pb, global: self.global_pb }
    }
}

impl DualProgressReader {
    /// A transform over two counters that stand at `pb1` (the file's) and
    /// `pb2` (the batch's).
    pub fn new(pb1: u64, pb2: u64) -> (reader: Self)
        ensures
            reader@ == (ProgressState { specific: pb1, global: pb2 }),
    {
        DualProgressReader { specific_pb: pb1, global_pb: pb2 }
    }

    /// Takes note of one read of the underlying source and hands its
    /// result on unchanged. No counter ever moves back.
    pub fn read<E>(&mut self, outcome: Result<usize, E>) -> (res: Result<usize, E>)
        ensures
            res == outcome,
            final(self)@ == old(self)@.after_read(read_count(outcome)),
            final(self)@.specific >= old(self)@.specific,
            final(self)@.global >= old(self)@.global,
            outcome is Err ==> final(self)@ == old(self)@,
    {
        match &outcome {
            Ok(n) => {
                let n: usize = *n;
                if n > 0 {
                    self.specific_pb = self.specific_pb.saturating_add(n as u64);
                    self.global_pb = self.global_pb.saturating_add(n as u64);
                }
            },
            Err(_) => {},
        }
        outcome
    }

    /// Where the counter of the file stands.
    pub fn specific_position(&self) -> (position: u64)
        ensures
            position == self@.specific,
    {
        self.specific_pb
    }

    /// Where the counter of the batch stands.
    pub fn global_position(&self) -> (position: u64)
        ensures
            position == self@.global,
    {
        self.global_pb
    }
}

} // verus!
