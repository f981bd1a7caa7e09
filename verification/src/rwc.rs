use vstd::prelude::*;

verus! {

/// The reader and writer counts of one shared value, and the rule by which a
/// new reader or writer is flagged: a reader while any writer is alive, a
/// writer while another writer is alive. The counts wrap around, as the
/// atomic counters they stand for do.
#[derive(Clone, Copy, Debug)]
pub struct RwcCounter {
    readers: usize,
    writers: usize,
}

/// What a flagged access reports: the number of writers alive when it began.
pub open spec fn conflict_of(writers: usize) -> Option<usize> {
    if writers >= 1 {
        Some(writers)
    } else {
        None
    }
}

impl RwcCounter {
    /// The number of readers alive.
    pub closed spec fn readers(self) -> usize {
        self.readers
    }

    /// The number of writers alive.
    pub closed spec fn writers(self) -> usize {
        self.writers
    }

    /// No reader and no writer.
    pub fn new() -> (r: Self)
        ensures
            r.readers() == 0,
            r.writers() == 0,
    {
        RwcCounter { readers: 0, writers: 0 }
    }

    /// The number of readers alive.
    pub fn reader_count(&self) -> (r: usize)
        ensures
            r == self.readers(),
    {
        self.readers
    }

    /// The number of writers alive.
    pub fn writer_count(&self) -> (r: usize)
        ensures
            r == self.writers(),
    {
        self.writers
    }

    /// Checks a read against the writers alive: the number of writers when
    /// there is any.
    pub fn checked_read(&self) -> (r: Option<usize>)
        ensures
            r == conflict_of(self.writers()),
    {
        if self.writers >= 1 {
            Some(self.writers)
        } else {
            None
        }
    }

    /// Adds `d` writers, and reports the number of writers that were alive
    /// before when there was any.
    pub fn checked_write(&mut self, d: usize) -> (r: Option<usize>)
        ensures
            final(self).writers() == old(self).writers().wrapping_add(d),
            final(self).readers() == old(self).readers(),
            r == conflict_of(old(self).writers()),
    {
        let previous = self.writers;
        self.writers = self.writers.wrapping_add(d);
        if previous >= 1 {
            Some(previous)
        } else {
            None
        }
    }

    /// A new reader: counts it, then checks it against the writers alive.
    pub fn read(&mut self) -> (r: Option<usize>)
        ensures
            final(self).readers() == old(self).readers().wrapping_add(1),
            final(self).writers() == old(self).writers(),
            r == conflict_of(old(self).writers()),
    {
        self.readers = self.readers.wrapping_add(1);
        self.checked_read()
    }

    /// A new writer: counts it and checks it against the writers alive before.
    pub fn write(&mut self) -> (r: Option<usize>)
        ensures
            final(self).writers() == old(self).writers().wrapping_add(1),
            final(self).readers() == old(self).readers(),
            r == conflict_of(old(self).writers()),
    {
        self.checked_write(1)
    }

    /// A reader ends.
    pub fn release_reader(&mut self)
        ensures
            final(self).readers() == old(self).readers().wrapping_sub(1),
            final(self).writers() == old(self).writers(),
    {
        self.readers = self.readers.wrapping_sub(1);
    }

    /// A writer ends.
    pub fn release_writer(&mut self)
        ensures
            final(self).writers() == old(self).writers().wrapping_sub(1),
            final(self).readers() == old(self).readers(),
    {
        self.writers = self.writers.wrapping_sub(1);
    }
}

/// A reader that begins and ends leaves the counts as they were, and a writer
/// that begins and ends does too.
pub proof fn lemma_rwc_release_restores(c: RwcCounter)
    ensures
        c.readers().wrapping_add(1).wrapping_sub(1) == c.readers(),
        c.writers().wrapping_add(1).wrapping_sub(1) == c.writers(),
{
    let r = c.readers();
    let w = c.writers();
    assert(r.wrapping_add(1).wrapping_sub(1) == r);
    assert(w.wrapping_add(1).wrapping_sub(1) == w);
}

/// With no writer alive, a new writer is not flagged, and while it is alive
/// every new reader and every other new writer is.
pub proof fn lemma_rwc_exclusive(c: RwcCounter)
    requires
        c.writers() == 0,
    ensures
        conflict_of(c.writers()) is None,
        conflict_of(c.writers().wrapping_add(1)) == Some(1usize),
{
    assert(0usize.wrapping_add(1) == 1usize);
}

} // verus!
