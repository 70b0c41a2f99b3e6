//! Status codes, diagnostic levels, and the bounded in-memory log store.

use std::collections::VecDeque;
use vstd::prelude::*;

verus! {

/// The only two outcomes visible across the host boundary.
#[derive(Debug, Clone, Copy, PartialEq, Eq, Structural)]
pub enum Status_code {
    Success,
    Failure,
}

/// Internal error taxonomy; every variant collapses to
/// `Status_code::Failure` at the host boundary.
#[derive(Debug, Clone, Copy, PartialEq, Eq, Structural)]
pub enum Vulkan_error {
    /// Instance, surface, device, swapchain or pipeline creation was rejected.
    Construction_failure,
    /// Device selection found zero eligible GPUs.
    No_suitable_device,
    /// A driver call during steady-state frame rendering was rejected.
    Runtime_failure,
}

impl Vulkan_error {
    /// The boundary-visible status for this error: always `Failure`.
    pub fn status(&self) -> (r: Status_code)
        ensures
            r is Failure,
    {
        Status_code::Failure
    }
}

/// Diagnostic message categories, used as bits of a level mask.
#[derive(Debug, Copy, Clone)]
pub enum Log_level {
    Off,
    General,
    Vulkan,
}

impl Log_level {
    /// The bit this category occupies in a level mask.
    pub open spec fn mask_spec(self) -> u64 {
        match self {
            Log_level::Off => 0,
            Log_level::General => 1,
            Log_level::Vulkan => 2,
        }
    }

    /// The bit this category occupies in a level mask.
    pub fn mask(&self) -> (r: u64)
        ensures
            r == self.mask_spec(),
    {
        match self {
            Log_level::Off => 0,
            Log_level::General => 1,
            Log_level::Vulkan => 2,
        }
    }

    /// Whether this category is selected by the level mask `other`.
    pub fn is_in(&self, other: u64) -> (r: bool)
        ensures
            r == ((self.mask_spec() & other) != 0),
    {
        (self.mask() & other) != 0
    }

    /// Whether this is the empty category.
    pub fn is_empty(&self) -> (r: bool)
        ensures
            r == (*self is Off),
    {
        matches!(self, Log_level::Off)
    }
}

/// The bounded message store behind the in-memory logging sink.
///
/// Completed messages sit in `buffers`, oldest first; `temp_buffer`
/// collects the bytes of the message currently being written. A flush
/// first drops the oldest completed messages down to `size`, then moves
/// `temp_buffer` in as the newest message, so at most `size + 1`
/// completed messages ever exist.
pub struct Log_buffer {
    pub size: usize,
    pub buffers: VecDeque<Vec<u8>>,
    pub temp_buffer: Vec<u8>,
}

impl Log_buffer {
    /// An empty store that will retain about `size` completed messages.
    pub fn new(size: usize) -> (r: Self)
        ensures
            r.size == size,
            r.buffers@.len() == 0,
            r.temp_buffer@.len() == 0,
    {
        Log_buffer { size, buffers: VecDeque::new(), temp_buffer: Vec::new() }
    }

    /// Append bytes to the message currently being written.
    pub fn write(&mut self, buf: &[u8]) -> (r: usize)
        ensures
            final(self).temp_buffer@ == old(self).temp_buffer@ + buf@,
            final(self).buffers == old(self).buffers,
            final(self).size == old(self).size,
            r == buf@.len(),
    {
        self.temp_buffer.extend_from_slice(buf);
        buf.len()
    }

    /// Complete the current message: drop the oldest completed messages
    /// beyond `size`, then store the current one as the newest.
    pub fn flush(&mut self)
        ensures
            ({
                let dropped: int = if old(self).buffers@.len() > old(self).size {
                    old(self).buffers@.len() - old(self).size
                } else {
                    0
                };
                final(self).buffers@ == old(self).buffers@.skip(dropped).push(
                    old(self).temp_buffer,
                )
            }),
            final(self).temp_buffer@.len() == 0,
            final(self).size == old(self).size,
    {
        let outdated: usize = if self.buffers.len() > self.size {
            self.buffers.len() - self.size
        } else {
            0
        };
        let mut k: usize = 0;
        while k < outdated
            invariant
                k <= outdated,
                outdated <= old(self).buffers@.len(),
                self.buffers@ == old(self).buffers@.skip(k as int),
                self.temp_buffer == old(self).temp_buffer,
                self.size == old(self).size,
            decreases outdated - k,
        {
            self.buffers.pop_front();
            k = k + 1;
        }
        let mut finished: Vec<u8> = Vec::new();
        core::mem::swap(&mut finished, &mut self.temp_buffer);
        self.buffers.push_back(finished);
    }
}

/// Handle for polling completed log messages, oldest first. The logger
/// owns its store; writing a message goes through the store's own
/// `write` and `flush`. A host that must feed one store from a log
/// formatter while polling it elsewhere shares the store behind its
/// own synchronization.
pub struct Logger {
    pub buffer: Log_buffer,
}

impl Logger {
    /// A logger whose store retains about `size` completed messages.
    pub fn new(size: usize) -> (r: Self)
        ensures
            r.buffer.size == size,
            r.buffer.buffers@.len() == 0,
            r.buffer.temp_buffer@.len() == 0,
    {
        Logger { buffer: Log_buffer::new(size) }
    }

    /// The length of the oldest completed message, if one exists.
    pub fn get_last_message_length(&self) -> (r: Option<u64>)
        ensures
            r is Some <==> self.buffer.buffers@.len() > 0,
            r matches Some(l) ==> l == self.buffer.buffers@[0]@.len(),
    {
        if self.buffer.buffers.len() > 0 {
            Some(self.buffer.buffers[0].len() as u64)
        } else {
            None
        }
    }

    /// Remove and return the oldest completed message, if one exists.
    pub fn get_last_message(&mut self) -> (r: Option<Vec<u8>>)
        ensures
            r is Some <==> old(self).buffer.buffers@.len() > 0,
            r matches Some(m) ==> ({
                &&& m == old(self).buffer.buffers@[0]
                &&& final(self).buffer.buffers@ == old(self).buffer.buffers@.skip(1)
            }),
            r is None ==> final(self).buffer.buffers@ == old(self).buffer.buffers@,
            final(self).buffer.size == old(self).buffer.size,
            final(self).buffer.temp_buffer == old(self).buffer.temp_buffer,
    {
        self.buffer.buffers.pop_front()
    }
}

} // verus!
