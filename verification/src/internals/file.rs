//! The buffering state machine behind a line-oriented file source: at most
//! one decoded line is held at a time, refilled on demand, with a sticky
//! end-of-input flag.
//!
//! The raw line reads themselves are input/output and live with the caller
//! that owns the file handle; this state machine makes every buffering
//! decision and is handed each read's outcome through `accept_line` and
//! `accept_end`.

use crate::internals::char_vec::InternalCharVec;
use crate::lines::{
    chars_of, has_line_break, line_of, rest_after_line, split_line,
};
use vstd::prelude::*;

verus! {

/// Holds the most recently read line, decoded, while a forward stream
/// consumes it; tracks whether the underlying source has ended.
pub struct LineBuffer {
    buf: Option<InternalCharVec>,
    is_eof: bool,
}

impl LineBuffer {
    /// The buffered characters not yet delivered.
    pub closed spec fn buffered(&self) -> Seq<char> {
        match self.buf {
            Some(cv) => cv.remaining(),
            None => Seq::<char>::empty(),
        }
    }

    /// Whether the underlying source has signalled end-of-input.
    pub closed spec fn at_end(&self) -> bool {
        self.is_eof
    }

    /// The hidden part of well-formedness: the cursor is sound.
    pub closed spec fn inv(&self) -> bool {
        match self.buf {
            Some(cv) => cv.wf(),
            None => true,
        }
    }

    pub open spec fn wf(&self) -> bool {
        &&& self.inv()
        &&& (self.at_end() ==> self.buffered().len() == 0)
    }

    /// An empty buffer over a source that has not ended; the first refill is
    /// still pending.
    pub fn new() -> (r: LineBuffer)
        ensures
            r.wf(),
            !r.at_end(),
            r.buffered().len() == 0,
    {
        LineBuffer { buf: None, is_eof: false }
    }

    /// Delivers one buffered character, without refilling.  Nothing comes
    /// back once the source has ended or the buffer is empty.
    pub fn take_next(&mut self) -> (r: Option<char>)
        requires
            old(self).wf(),
        ensures
            final(self).wf(),
            final(self).at_end() == old(self).at_end(),
            old(self).buffered().len() > 0 ==> r == Some(old(self).buffered()[0])
                && final(self).buffered() == old(self).buffered().drop_first(),
            old(self).buffered().len() == 0 ==> r is None && final(self).buffered()
                == old(self).buffered(),
    {
        if self.is_eof {
            return None;
        }
        match self.buf.take() {
            None => None,
            Some(mut cv) => {
                let r = cv.next();
                self.buf = Some(cv);
                r
            },
        }
    }

    /// Whether the next delivery needs a fresh line first: the source has
    /// not ended and no buffered character is left.
    pub fn needs_refill(&mut self) -> (r: bool)
        requires
            old(self).wf(),
        ensures
            final(self).wf(),
            final(self).at_end() == old(self).at_end(),
            final(self).buffered() == old(self).buffered(),
            r == (!old(self).at_end() && old(self).buffered().len() == 0),
    {
        if self.is_eof {
            return false;
        }
        match self.buf.take() {
            None => {
                self.buf = None;
                true
            },
            Some(mut cv) => {
                let r = cv.peek().is_none();
                self.buf = Some(cv);
                r
            },
        }
    }

    /// Installs one freshly read line as the new buffer.
    pub fn accept_line(&mut self, line: &str)
        requires
            old(self).wf(),
            !old(self).at_end(),
            old(self).buffered().len() == 0,
        ensures
            final(self).wf(),
            !final(self).at_end(),
            final(self).buffered() == line@,
    {
        self.buf = Some(InternalCharVec::new(chars_of(line)));
        proof {
            assert(final(self).buffered() =~= line@);
        }
    }

    /// Records that the underlying source has ended or that a read failed:
    /// from here on nothing more is delivered.
    pub fn accept_end(&mut self)
        requires
            old(self).wf(),
            old(self).buffered().len() == 0,
        ensures
            final(self).wf(),
            final(self).at_end(),
            final(self).buffered().len() == 0,
    {
        self.is_eof = true;
    }

    /// Looks at the next buffered character without delivering it and
    /// without refilling.
    pub fn peek(&mut self) -> (r: Option<char>)
        requires
            old(self).wf(),
        ensures
            final(self).wf(),
            final(self).at_end() == old(self).at_end(),
            final(self).buffered() == old(self).buffered(),
            r == (if old(self).buffered().len() > 0 {
                Some(old(self).buffered()[0])
            } else {
                None::<char>
            }),
    {
        match self.buf.take() {
            None => {
                self.buf = None;
                None
            },
            Some(mut cv) => {
                let r = cv.peek();
                self.buf = Some(cv);
                r
            },
        }
    }

    /// Consumes one logical line from the buffered characters.  Nothing
    /// comes back only when no character is buffered; a buffered stretch
    /// without a terminator is delivered whole, since a line-oriented read
    /// only ends a chunk without a terminator at the end of its input.
    pub fn read_buffered_line(&mut self) -> (r: Option<String>)
        requires
            old(self).wf(),
        ensures
            final(self).wf(),
            final(self).at_end() == old(self).at_end(),
            (r is None <==> old(self).buffered().len() == 0),
            r is None ==> final(self).buffered() == old(self).buffered(),
            r matches Some(l) ==> l@ == line_of(old(self).buffered()) && final(self).buffered()
                == rest_after_line(old(self).buffered()),
            r is Some && !has_line_break(old(self).buffered()) ==> final(self).buffered().len()
                == 0,
    {
        if self.is_eof {
            return None;
        }
        match self.buf.take() {
            None => {
                self.buf = None;
                None
            },
            Some(mut cv) => {
                if cv.peek().is_none() {
                    self.buf = Some(cv);
                    return None;
                }
                let mut acc = String::new();
                let complete = split_line(&mut cv, &mut acc);
                self.buf = Some(cv);
                proof {
                    if !complete {
                        crate::lines::lemma_line_covers_unterminated(
                            old(self).buffered(),
                        );
                    }
                }
                Some(acc)
            },
        }
    }
}

} // verus!
