//! The add-stickers conversation: collecting items for one of the caller's
//! own cloned collections, under the collection size cap.
//!
//! The front-end hands items in one message at a time; the session decides
//! which to keep, supports undoing the last one, and releases the batch
//! when the user is done.

use vstd::prelude::*;

use crate::MAX_STICKER_SET_LENGTH;

verus! {

/// What became of one submitted item.
pub enum SubmitOutcome {
    /// Kept; waiting for more.
    Accepted,
    /// Rejected: the item carries no emoji, which the external service
    /// requires.
    NoEmoji,
    /// Rejected: collection length plus the pending batch has reached the
    /// cap.
    Full,
}

/// One conversation's pending batch for a collection of known length.
pub struct AddStickersSession {
    /// How many items the collection already holds.
    pub set_length: usize,
    /// The collected item identifiers, oldest first.
    pub pending: Vec<String>,
}

impl AddStickersSession {
    /// A fresh batch for a collection holding `set_length` items.
    pub fn new(set_length: usize) -> (r: AddStickersSession)
        ensures
            r.set_length == set_length,
            r.pending@ == Seq::<String>::empty(),
    {
        let r = AddStickersSession { set_length, pending: Vec::new() };
        proof {
            assert(r.pending@ =~= Seq::<String>::empty());
        }
        r
    }

    /// How many more items the collection can take.
    pub fn remaining_capacity(&self) -> (r: usize)
        ensures
            r as int == if self.set_length < MAX_STICKER_SET_LENGTH {
                MAX_STICKER_SET_LENGTH - self.set_length
            } else {
                0int
            },
    {
        if self.set_length < MAX_STICKER_SET_LENGTH {
            MAX_STICKER_SET_LENGTH - self.set_length
        } else {
            0
        }
    }

    /// Offers one item: kept only if it carries an emoji and the cap is not
    /// reached.
    pub fn submit(&mut self, item: String, has_emoji: bool) -> (r: SubmitOutcome)
        ensures
            final(self).set_length == old(self).set_length,
            !has_emoji ==> r is NoEmoji && final(self).pending@ == old(self).pending@,
            has_emoji && old(self).set_length + old(self).pending@.len()
                >= MAX_STICKER_SET_LENGTH ==> r is Full && final(self).pending@ == old(
                self,
            ).pending@,
            has_emoji && old(self).set_length + old(self).pending@.len() < MAX_STICKER_SET_LENGTH
                ==> r is Accepted && final(self).pending@ == old(self).pending@.push(item),
    {
        if !has_emoji {
            return SubmitOutcome::NoEmoji;
        }
        let pending_len = self.pending.len();
        if self.set_length >= MAX_STICKER_SET_LENGTH || pending_len >= MAX_STICKER_SET_LENGTH
            - self.set_length {
            return SubmitOutcome::Full;
        }
        self.pending.push(item);
        SubmitOutcome::Accepted
    }

    /// Takes back the most recently kept item, if any.
    pub fn undo(&mut self) -> (r: Option<String>)
        ensures
            final(self).set_length == old(self).set_length,
            old(self).pending@.len() == 0 ==> r is None && final(self).pending@ == old(
                self,
            ).pending@,
            old(self).pending@.len() > 0 ==> (r matches Some(item) && item == old(
                self,
            ).pending@.last() && final(self).pending@ == old(self).pending@.drop_last()),
    {
        self.pending.pop()
    }

    /// Releases the batch to be added; empty batches stay with the session,
    /// for the user to fill first.
    pub fn finalize(self) -> (r: Result<Vec<String>, AddStickersSession>)
        ensures
            match r {
                Ok(items) => self.pending@.len() > 0 && items@ == self.pending@,
                Err(s) => self.pending@.len() == 0 && s == self,
            },
    {
        if self.pending.len() == 0 {
            Err(self)
        } else {
            Ok(self.pending)
        }
    }
}

} // verus!
