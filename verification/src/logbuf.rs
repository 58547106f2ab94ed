use vstd::prelude::*;
use vstd::seq_lib::*;

verus! {

/// A bounded in-memory log: entries are only ever appended, and once the
/// buffer is full the oldest entry leaves to make room. The session owns one
/// such buffer; any sharing with background producers is the caller's
/// concern and stays outside the library.
pub struct LogBuffer {
    pub entries: Vec<String>,
    pub capacity: usize,
}

impl LogBuffer {
    /// Well formed: a positive capacity that the entry count never exceeds.
    pub open spec fn wf(self) -> bool {
        1 <= self.capacity && self.entries@.len() <= self.capacity
    }

    pub fn new(capacity: usize) -> (buf: LogBuffer)
        requires
            1 <= capacity,
        ensures
            buf.wf(),
            buf.capacity == capacity,
            buf.entries@ == Seq::<String>::empty(),
    {
        LogBuffer { entries: Vec::new(), capacity }
    }

    /// Append one entry. While the buffer has room the new entry simply goes
    /// to the end; once it is full the oldest entry is dropped first.
    pub fn push(&mut self, msg: String)
        requires
            old(self).wf(),
        ensures
            final(self).wf(),
            final(self).capacity == old(self).capacity,
            old(self).entries@.len() < old(self).capacity ==> final(self).entries@
                == old(self).entries@.push(msg),
            old(self).entries@.len() == old(self).capacity ==> final(self).entries@
                == old(self).entries@.drop_first().push(msg),
    {
        if self.entries.len() >= self.capacity {
            self.entries.remove(0);
            assert(self.entries@ =~= old(self).entries@.drop_first());
        }
        self.entries.push(msg);
    }

    pub fn len(&self) -> (n: usize)
        ensures
            n == self.entries@.len(),
    {
        self.entries.len()
    }

    /// Index of the first entry a log window of `fit` lines shows: with the
    /// overlay open every entry is shown, otherwise only the newest `fit`.
    pub fn window_start(&self, fit: usize, overlay: bool) -> (start: usize)
        ensures
            overlay || self.entries@.len() <= fit ==> start == 0,
            !overlay && self.entries@.len() > fit ==> start == self.entries@.len() - fit,
            start <= self.entries@.len(),
    {
        if overlay || self.entries.len() <= fit {
            0
        } else {
            self.entries.len() - fit
        }
    }
}

} // verus!
