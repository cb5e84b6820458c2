//! The latest-value broadcast channel: one storage slot, a monotonically
//! increasing version tag, and a bounded set of independent reader
//! cursors.
//!
//! A send always overwrites the slot and advances the version, whether or
//! not anybody read the previous value: the channel is lossy with respect
//! to values superseded before a read.  A receive is the channel's one
//! decision: it returns the slot's value exactly when the slot's version
//! is newer than the reader's cursor, and then moves that cursor up to
//! the slot's version.  Each reader owns its cursor, so a slow reader
//! neither holds other readers back nor ever sees a value twice for one
//! send.  Waiting for the next value is the scheduler's business: a task
//! that gets `None` yields and retries.

use vstd::prelude::*;

verus! {

/// Single-writer, multi-reader latest-value cell.  The number of readers
/// is fixed when the channel is created; subscription fails once they are
/// all taken.
pub struct BroadcastChannel {
    value: u16,
    version: u64,
    max_readers: usize,
    subscribed: usize,
}

/// One reader's cursor: the version of the last value it observed, zero
/// for a reader that has never observed any.
pub struct Receiver {
    last_seen: u64,
}

/// What a receive returns, given the slot's version and value and the
/// reader's cursor.
pub open spec fn spec_receive(version: u64, value: u16, last_seen: u64) -> Option<u16> {
    if version > last_seen {
        Some(value)
    } else {
        None
    }
}

/// Where a receive leaves the reader's cursor.
pub open spec fn spec_cursor_after(version: u64, last_seen: u64) -> u64 {
    if version > last_seen {
        version
    } else {
        last_seen
    }
}

impl Receiver {
    /// The version of the last value this reader observed.
    pub closed spec fn last_seen(&self) -> u64 {
        self.last_seen
    }
}

impl BroadcastChannel {
    /// The value currently in the slot (meaningful once the version is
    /// nonzero, and unobservable before: no cursor sits below zero).
    pub closed spec fn latest(&self) -> u16 {
        self.value
    }

    /// The slot's version: the number of sends so far.
    pub closed spec fn version(&self) -> u64 {
        self.version
    }

    /// The fixed number of reader slots.
    pub closed spec fn max_readers(&self) -> usize {
        self.max_readers
    }

    /// How many readers have subscribed so far.
    pub closed spec fn subscribed(&self) -> usize {
        self.subscribed
    }

    /// A fresh channel: nothing sent yet, no reader subscribed.
    pub fn new(max_readers: usize) -> (c: BroadcastChannel)
        ensures
            c.version() == 0,
            c.subscribed() == 0,
            c.max_readers() == max_readers,
    {
        BroadcastChannel { value: 0, version: 0, max_readers, subscribed: 0 }
    }

    /// Hands out one of the fixed reader slots, with a cursor that has
    /// seen nothing; fails exactly when every slot is taken.
    pub fn subscribe(&mut self) -> (r: Option<Receiver>)
        ensures
            r is Some <==> old(self).subscribed() < old(self).max_readers(),
            r matches Some(rx) ==> rx.last_seen() == 0,
            r is Some ==> final(self).subscribed() == old(self).subscribed() + 1,
            r is None ==> final(self).subscribed() == old(self).subscribed(),
            final(self).version() == old(self).version(),
            final(self).latest() == old(self).latest(),
            final(self).max_readers() == old(self).max_readers(),
    {
        if self.subscribed < self.max_readers {
            self.subscribed = self.subscribed + 1;
            Some(Receiver { last_seen: 0 })
        } else {
            None
        }
    }

    /// Publishes a value: overwrites the slot and advances the version,
    /// regardless of whether any reader observed the previous value.  The
    /// sender never waits on readers.
    pub fn send(&mut self, value: u16)
        requires
            old(self).version() < u64::MAX,
        ensures
            final(self).version() == old(self).version() + 1,
            final(self).latest() == value,
            final(self).subscribed() == old(self).subscribed(),
            final(self).max_readers() == old(self).max_readers(),
    {
        self.value = value;
        self.version = self.version + 1;
    }

    /// One observation attempt by one reader: returns the slot's current
    /// value exactly when its version is newer than the reader's cursor,
    /// and moves that cursor to the slot's version.  The channel itself
    /// is untouched, so readers never affect one another.
    pub fn receive(&self, rx: &mut Receiver) -> (r: Option<u16>)
        ensures
            r == spec_receive(self.version(), self.latest(), old(rx).last_seen()),
            final(rx).last_seen() == spec_cursor_after(self.version(), old(rx).last_seen()),
    {
        if self.version > rx.last_seen {
            rx.last_seen = self.version;
            Some(self.value)
        } else {
            None
        }
    }
}

/// A reader that has never observed anything gets nothing from a channel
/// on which nothing has been sent, and exactly the first value once one
/// send has happened (a fresh channel has version zero, a send moves it
/// to one, and a fresh cursor is zero).
pub proof fn lemma_first_value_reaches_new_reader(unsent: u16, value: u16)
    ensures
        spec_receive(0, unsent, 0) is None,
        spec_receive(1, value, 0) == Some(value),
{
}

/// A reader's cursor never moves backward: it stays put on an empty
/// observation and lands on the slot's version — never below where it
/// was — when a value is observed.  So no reader ever observes a value
/// older than its own last-observed version.
pub proof fn lemma_cursor_monotone(version: u64, value: u16, last_seen: u64)
    ensures
        spec_cursor_after(version, last_seen) >= last_seen,
        spec_receive(version, value, last_seen) is Some ==> spec_cursor_after(version, last_seen)
            == version,
        spec_receive(version, value, last_seen) is None ==> spec_cursor_after(version, last_seen)
            == last_seen,
{
}

/// For one send a reader observes at most one value: immediately after
/// any observation attempt, a second attempt without an intervening send
/// returns nothing.
pub proof fn lemma_no_value_twice(version: u64, value: u16, last_seen: u64)
    ensures
        spec_receive(version, value, spec_cursor_after(version, last_seen)) is None,
{
}

/// Every reader sees a send, at its own cadence: after a send, any reader
/// whose cursor had not outrun the slot — and no cursor ever does, by
/// [`lemma_cursor_monotone`] — observes exactly the value of that send,
/// however many readers there are and in whatever order they attempt it.
pub proof fn lemma_send_reaches_every_reader(version: u64, value: u16, cursor: u64)
    requires
        cursor <= version,
        version < u64::MAX,
    ensures
        spec_receive((version + 1) as u64, value, cursor) == Some(value),
{
}

} // verus!
