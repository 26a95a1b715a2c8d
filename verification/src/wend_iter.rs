//! Double-ended iteration over a fully materialized character sequence:
//! forward and backward consumption, each through its own independent
//! cursor position.

use crate::internals::char_vec::InternalCharVec;
use vstd::prelude::*;

verus! {

/// A two-ended view over a materialized character sequence.  Only
/// materialized sources can be walked backward, so this holds exactly a
/// character cursor.
pub enum WendIterator {
    Chars { chars: InternalCharVec },
}

impl WendIterator {
    /// The cursor this view walks.
    pub open spec fn cursor(&self) -> InternalCharVec {
        match self {
            WendIterator::Chars { chars } => *chars,
        }
    }

    pub open spec fn wf(&self) -> bool {
        self.cursor().wf()
    }

    /// The characters forward consumption has yet to deliver.
    pub open spec fn remaining(&self) -> Seq<char> {
        self.cursor().remaining()
    }

    /// The characters backward consumption has yet to deliver, in delivery
    /// order.
    pub open spec fn back_remaining(&self) -> Seq<char> {
        self.cursor().back_remaining()
    }

    pub fn from_chars(chars: InternalCharVec) -> (r: WendIterator)
        ensures
            r.cursor() == chars,
    {
        WendIterator::Chars { chars }
    }

    /// Delivers the next character from the front.
    pub fn next(&mut self) -> (r: Option<char>)
        requires
            old(self).wf(),
        ensures
            final(self).wf(),
            final(self).cursor().all_chars() == old(self).cursor().all_chars(),
            final(self).cursor().back() == old(self).cursor().back(),
            old(self).remaining().len() > 0 ==> r == Some(old(self).remaining()[0])
                && final(self).remaining() == old(self).remaining().drop_first(),
            old(self).remaining().len() == 0 ==> r is None && final(self).remaining()
                == old(self).remaining(),
    {
        match self {
            WendIterator::Chars { chars } => chars.next(),
        }
    }

    /// Delivers the next character from the back.
    pub fn next_back(&mut self) -> (r: Option<char>)
        requires
            old(self).wf(),
        ensures
            final(self).wf(),
            final(self).cursor().all_chars() == old(self).cursor().all_chars(),
            final(self).cursor().fwd() == old(self).cursor().fwd(),
            old(self).back_remaining().len() > 0 ==> r == Some(old(self).back_remaining()[0])
                && final(self).back_remaining() == old(self).back_remaining().drop_first(),
            old(self).back_remaining().len() == 0 ==> r is None && final(self).back_remaining()
                == old(self).back_remaining(),
    {
        match self {
            WendIterator::Chars { chars } => chars.next_back(),
        }
    }
}

} // verus!
