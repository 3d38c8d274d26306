//! The bookkeeping of the single-threaded executor: the user-data word each
//! submission carries, and the mailbox that holds completions until the task
//! that waits for them takes them.
use std::collections::HashMap;

use vstd::prelude::*;

verus! {

broadcast use vstd::std_specs::hash::group_hash_axioms;

/// The user-data word of a submission: the sequence number, taken modulo
/// 2^56, in the high 56 bits and the tag in the low 8 bits.
pub open spec fn entry_key_of(idx: u64, tag: u8) -> u64 {
    ((idx as int % 0x100_0000_0000_0000) * 256 + tag as int) as u64
}

/// Hands out the user-data words of one tag's submissions.
pub struct Sequencer {
    tag: u8,
    idx: u64,
}

impl Sequencer {
    pub closed spec fn tag(&self) -> u8 {
        self.tag
    }

    /// The sequence number of the next submission.
    pub closed spec fn next_index(&self) -> u64 {
        self.idx
    }

    /// The sequencer of `tag`, whose first submission has number 1.
    pub fn new(tag: u8) -> (r: Sequencer)
        ensures
            r.tag() == tag,
            r.next_index() == 1,
    {
        Sequencer { tag, idx: 1 }
    }

    /// The user-data word of the next submission.
    pub fn next_key(&mut self) -> (r: u64)
        ensures
            r == entry_key_of(old(self).next_index(), old(self).tag()),
            r % 256 == old(self).tag(),
            final(self).tag() == old(self).tag(),
            final(self).next_index() == (if old(self).next_index() == u64::MAX { 0 } else { old(self).next_index() + 1 }),
    {
        let low = self.idx % 0x100_0000_0000_0000;
        let key = low * 256 + self.tag as u64;
        self.idx = if self.idx == u64::MAX { 0 } else { self.idx + 1 };
        key
    }
}

/// The tag that owns the submission with user-data word `key`.
pub fn tag_of_key(key: u64) -> (r: u8)
    ensures
        r == key % 256,
{
    (key % 256) as u8
}

/// Completions not yet taken, by user-data word.
pub struct Mailbox {
    entries: HashMap<u64, i32>,
}

impl Mailbox {
    pub closed spec fn view(&self) -> Map<u64, i32> {
        self.entries@
    }

    pub fn new() -> (r: Mailbox)
        ensures
            r@ == Map::<u64, i32>::empty(),
    {
        Mailbox { entries: HashMap::new() }
    }

    /// Files the completion `result` of the submission `key`; gives the tag
    /// whose task should run.
    pub fn deliver(&mut self, key: u64, result: i32) -> (r: u8)
        ensures
            final(self)@ == old(self)@.insert(key, result),
            r == key % 256,
    {
        self.entries.insert(key, result);
        tag_of_key(key)
    }
}

/// A task's wait for the completion of one submission.
pub struct Waiter {
    entry_key: u64,
    result: Option<i32>,
}

impl Waiter {
    pub closed spec fn key(&self) -> u64 {
        self.entry_key
    }

    pub closed spec fn result(&self) -> Option<i32> {
        self.result
    }

    /// A wait for the completion of the submission `entry_key`.
    pub fn new(entry_key: u64) -> (r: Waiter)
        ensures
            r.key() == entry_key,
            r.result() is None,
    {
        Waiter { entry_key, result: None }
    }

    /// The completion, once it came: taken from the mailbox the first time
    /// and kept for later polls; `None` while it has not come.
    pub fn poll(&mut self, mailbox: &mut Mailbox) -> (r: Option<i32>)
        ensures
            final(self).key() == old(self).key(),
            old(self).result() is Some ==> r == old(self).result() && final(mailbox)@ == old(mailbox)@,
            old(self).result() is None && old(mailbox)@.contains_key(old(self).key()) ==> r == Some(
                old(mailbox)@[old(self).key()],
            ) && final(mailbox)@ == old(mailbox)@.remove(old(self).key()),
            old(self).result() is None && !old(mailbox)@.contains_key(old(self).key()) ==> r is None
                && final(mailbox)@ == old(mailbox)@,
            final(self).result() == r,
    {
        match self.result {
            Some(v) => Some(v),
            None => {
                let mail = mailbox.entries.remove(&self.entry_key);
                self.result = mail;
                mail
            },
        }
    }
}

} // verus!
