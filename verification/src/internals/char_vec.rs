//! The foundational primitive: a finite, indexable sequence of decoded
//! characters with a forward read position and an optional backward read
//! position, each advancing independently.

use vstd::prelude::*;

verus! {

/// A fixed sequence of characters with a forward cursor (`index`) and an
/// optional backward cursor (`back_index`).  The contents never change after
/// construction; only the two positions move, the forward one upward and the
/// backward one downward.
pub struct InternalCharVec {
    chars: Vec<char>,
    index: usize,
    back_index: Option<usize>,
}

impl InternalCharVec {
    /// Every character the cursor was built over, in order.
    pub closed spec fn all_chars(&self) -> Seq<char> {
        self.chars@
    }

    /// The forward read position.
    pub closed spec fn fwd(&self) -> int {
        self.index as int
    }

    /// The backward read position; `None` once the back side is exhausted.
    pub closed spec fn back(&self) -> Option<int> {
        match self.back_index {
            Some(j) => Some(j as int),
            None => None,
        }
    }

    pub open spec fn wf(&self) -> bool {
        &&& 0 <= self.fwd() <= self.all_chars().len()
        &&& match self.back() {
            Some(j) => 0 <= j < self.all_chars().len(),
            None => true,
        }
    }

    /// The characters the forward cursor has yet to deliver.
    pub open spec fn remaining(&self) -> Seq<char> {
        self.all_chars().skip(self.fwd())
    }

    /// The characters the backward cursor has yet to deliver, in the order it
    /// will deliver them (from the back toward the front).
    pub open spec fn back_remaining(&self) -> Seq<char> {
        match self.back() {
            Some(j) => self.all_chars().take(j + 1).reverse(),
            None => Seq::<char>::empty(),
        }
    }

    /// A cursor as `new` builds it over the characters `s`: nothing consumed
    /// from either end.
    pub open spec fn fresh_over(&self, s: Seq<char>) -> bool {
        &&& self.all_chars() == s
        &&& self.fwd() == 0
        &&& self.back() == if s.len() > 0 {
            Some(s.len() as int - 1)
        } else {
            None::<int>
        }
    }

    pub fn new(chars: Vec<char>) -> (r: InternalCharVec)
        ensures
            r.wf(),
            r.fresh_over(chars@),
    {
        let len: usize = chars.len();
        let mut back_index: Option<usize> = None;
        if len > 0 {
            back_index = Some(len - 1);
        }
        InternalCharVec { chars, index: 0, back_index }
    }

    /// Delivers the character at the forward position and advances it, or
    /// nothing once the forward side is exhausted.
    pub fn next(&mut self) -> (r: Option<char>)
        requires
            old(self).wf(),
        ensures
            final(self).wf(),
            final(self).all_chars() == old(self).all_chars(),
            final(self).back() == old(self).back(),
            old(self).remaining().len() > 0 ==> {
                &&& r == Some(old(self).remaining()[0])
                &&& final(self).fwd() == old(self).fwd() + 1
                &&& final(self).remaining() == old(self).remaining().drop_first()
            },
            old(self).remaining().len() == 0 ==> r is None && final(self).fwd() == old(self).fwd(),
    {
        if self.index >= self.chars.len() {
            return None;
        }
        let result = Some(self.chars[self.index]);
        self.index = self.index + 1;
        proof {
            assert(self.remaining() =~= old(self).remaining().drop_first());
        }
        result
    }

    /// Looks at the character the forward position would deliver, without
    /// advancing.
    pub fn peek(&mut self) -> (r: Option<char>)
        requires
            old(self).wf(),
        ensures
            final(self).wf(),
            final(self).all_chars() == old(self).all_chars(),
            final(self).fwd() == old(self).fwd(),
            final(self).back() == old(self).back(),
            r == (if old(self).remaining().len() > 0 {
                Some(old(self).remaining()[0])
            } else {
                None::<char>
            }),
    {
        if self.index >= self.chars.len() {
            return None;
        }
        Some(self.chars[self.index])
    }

    /// Delivers the character at the backward position and moves it one step
    /// toward the front, or nothing once the back side is exhausted.
    pub fn next_back(&mut self) -> (r: Option<char>)
        requires
            old(self).wf(),
        ensures
            final(self).wf(),
            final(self).all_chars() == old(self).all_chars(),
            final(self).fwd() == old(self).fwd(),
            match old(self).back() {
                Some(j) => r == Some(old(self).all_chars()[j]) && final(self).back() == (if j == 0 {
                    None::<int>
                } else {
                    Some(j - 1)
                }),
                None => r is None && final(self).back() is None,
            },
            old(self).back_remaining().len() > 0 ==> {
                &&& r == Some(old(self).back_remaining()[0])
                &&& final(self).back_remaining() == old(self).back_remaining().drop_first()
            },
            old(self).back_remaining().len() == 0 ==> r is None && final(self).back_remaining()
                == old(self).back_remaining(),
    {
        match self.back_index {
            None => None,
            Some(index) => {
                let result = Some(self.chars[index]);
                if index == 0 {
                    self.back_index = None;
                } else {
                    self.back_index = Some(index - 1);
                }
                proof {
                    lemma_take_reverse_step(old(self).all_chars(), index as int);
                }
                result
            },
        }
    }

    /// Looks at the character the backward position would deliver, without
    /// moving it.
    pub fn peek_back(&mut self) -> (r: Option<char>)
        requires
            old(self).wf(),
        ensures
            final(self).wf(),
            final(self).all_chars() == old(self).all_chars(),
            final(self).fwd() == old(self).fwd(),
            final(self).back() == old(self).back(),
            r == (if old(self).back_remaining().len() > 0 {
                Some(old(self).back_remaining()[0])
            } else {
                None::<char>
            }),
    {
        match self.back_index {
            None => None,
            Some(index) => {
                proof {
                    assert(self.back_remaining()[0] == self.all_chars().take(
                        index as int + 1,
                    ).reverse()[0]);
                }
                Some(self.chars[index])
            },
        }
    }
}

/// For `0 <= j < s.len()`, stepping the backward cursor from `j` to `j - 1`
/// removes exactly the first element of the backward delivery order.
proof fn lemma_take_reverse_step(s: Seq<char>, j: int)
    requires
        0 <= j < s.len(),
    ensures
        s.take(j + 1).reverse().len() == j + 1,
        s.take(j + 1).reverse()[0] == s[j],
        s.take(j + 1).reverse().drop_first() =~= s.take(j).reverse(),
{
    assert forall|i: int| 0 <= i < j implies s.take(j + 1).reverse().drop_first()[i] == s.take(
        j,
    ).reverse()[i] by {
        assert(s.take(j + 1).reverse()[i + 1] == s.take(j + 1)[j - i - 1]);
        assert(s.take(j).reverse()[i] == s.take(j)[j - 1 - i]);
    }
}

/// The forward side of a fresh cursor delivers exactly the characters it was
/// built over: draining it with `next` reproduces the source, character by
/// character.
pub proof fn lemma_fresh_forward_is_all(cv: InternalCharVec, s: Seq<char>)
    requires
        cv.wf(),
        cv.fresh_over(s),
    ensures
        cv.remaining() == s,
{
    assert(cv.remaining() =~= s);
}

/// The backward side of a fresh cursor delivers exactly the reverse of the
/// characters it was built over: draining it with `next_back` reproduces the
/// source reversed.
pub proof fn lemma_fresh_backward_is_reverse(cv: InternalCharVec, s: Seq<char>)
    requires
        cv.wf(),
        cv.fresh_over(s),
    ensures
        cv.back_remaining() == s.reverse(),
{
    if s.len() > 0 {
        assert(cv.all_chars().take(s.len() as int) =~= s);
    } else {
        assert(cv.back_remaining() =~= s.reverse());
    }
}

/// The character positions the forward cursor has already delivered.
pub open spec fn front_taken(cv: InternalCharVec) -> Set<int> {
    Set::new(|i: int| 0 <= i < cv.fwd())
}

/// The character positions the backward cursor has already delivered.
pub open spec fn back_taken(cv: InternalCharVec) -> Set<int> {
    match cv.back() {
        Some(j) => Set::new(|i: int| j < i < cv.all_chars().len()),
        None => Set::new(|i: int| 0 <= i < cv.all_chars().len()),
    }
}

/// As long as the forward position has not crossed the backward one, the two
/// ends never deliver the same character position twice, and the characters
/// delivered from both ends together never exceed the cursor's length.
pub proof fn lemma_two_ended_no_overlap(cv: InternalCharVec)
    requires
        cv.wf(),
        match cv.back() {
            Some(j) => cv.fwd() <= j + 1,
            None => cv.fwd() == 0,
        },
    ensures
        front_taken(cv).disjoint(back_taken(cv)),
        cv.fwd() + (cv.all_chars().len() - match cv.back() {
            Some(j) => j + 1,
            None => 0,
        }) <= cv.all_chars().len(),
{
    assert forall|i: int| front_taken(cv).contains(i) implies !back_taken(cv).contains(i) by {}
}

} // verus!
