//! The interactive source: standard input consumed one line at a time,
//! strictly on demand.  A read happens only inside a consuming call that
//! finds its buffer empty — never at construction, and never from `peek` —
//! so the stream does not block before input is actually needed.

use crate::internals::char_vec::InternalCharVec;
use crate::lines::{
    chars_of, drain_cursor, has_line_break, lemma_line_covers_unterminated,
    line_of, rest_after_line, split_line,
};
use std::io::Stdin;
use vstd::prelude::*;

verus! {

#[verifier::external_type_specification]
#[verifier::external_body]
pub struct ExStdin(Stdin);

/// Relies on `std::io::stdin`: obtains the process-wide handle to standard
/// input.
#[verifier::external_body]
pub(crate) fn acquire_stdin() -> Stdin {
    std::io::stdin()
}

/// Relies on `std::io::Stdin::read_line`: reads one line of interactive
/// input, terminator included, or reports a failed read.  Nothing is
/// promised of the text: it depends on what arrives on standard input.
#[verifier::external_body]
fn read_line_from(stdin: &Stdin) -> Option<String> {
    let mut input = String::new();
    match stdin.read_line(&mut input) {
        Ok(_) => Some(input),
        Err(_) => None,
    }
}

/// Relies on `std::io::Read::read_to_string`: reads standard input through
/// to its end, or reports a failed read.  Nothing is promised of the text.
#[verifier::external_body]
fn read_rest_from(stdin: &mut Stdin) -> Option<String> {
    let mut input = String::new();
    match std::io::Read::read_to_string(stdin, &mut input) {
        Ok(_) => Some(input),
        Err(_) => None,
    }
}

/// Standard input behind the cursor interface: the most recently read line
/// (if any) in a cursor, a flag asking for the next read, and a sticky
/// end-of-input flag set by a failed read.
pub struct InternalStdin {
    stdin: Stdin,
    buf: Option<InternalCharVec>,
    need_read: bool,
    is_eof: bool,
}

impl InternalStdin {
    /// The buffered characters not yet delivered.
    pub closed spec fn buffered(&self) -> Seq<char> {
        match self.buf {
            Some(cv) => cv.remaining(),
            None => Seq::<char>::empty(),
        }
    }

    /// Whether a failed read has ended this stream for good.
    pub closed spec fn at_end(&self) -> bool {
        self.is_eof
    }

    /// The hidden part of well-formedness: the cursor is sound and a
    /// pending-read flag only ever stands over an empty buffer.
    pub closed spec fn inv(&self) -> bool {
        &&& match self.buf {
            Some(cv) => cv.wf(),
            None => true,
        }
        &&& self.need_read ==> self.buffered().len() == 0
    }

    pub open spec fn wf(&self) -> bool {
        &&& self.inv()
        &&& (self.at_end() ==> self.buffered().len() == 0)
    }

    /// A fresh interactive stream: nothing buffered, nothing read yet.
    pub fn new(stdin: Stdin) -> (r: InternalStdin)
        ensures
            r.wf(),
            !r.at_end(),
            r.buffered().len() == 0,
    {
        InternalStdin { stdin, buf: None, need_read: true, is_eof: false }
    }

    /// Reads one line into the buffer; a failed read marks the end and
    /// clears the buffer instead.
    fn read_line(&mut self)
        requires
            old(self).wf(),
            !old(self).is_eof,
            !old(self).need_read,
            old(self).buffered().len() == 0,
        ensures
            final(self).wf(),
            !final(self).need_read,
            !final(self).is_eof ==> final(self).buf is Some,
    {
        match read_line_from(&self.stdin) {
            None => {
                self.is_eof = true;
                self.buf = None;
                self.need_read = false;
            },
            Some(input) => {
                self.buf = Some(InternalCharVec::new(chars_of(input.as_str())));
            },
        }
    }

    /// Delivers the next character.  Once the stream has ended nothing comes
    /// back and nothing changes; a buffered character is delivered as is; on
    /// an empty buffer one read is attempted first, and what it yields — a
    /// character, an empty line, or the end of the stream — decides the
    /// outcome.
    pub fn next(&mut self) -> (r: Option<char>)
        requires
            old(self).wf(),
        ensures
            final(self).wf(),
            old(self).at_end() ==> r is None && final(self).at_end() && final(self).buffered()
                == old(self).buffered(),
            !old(self).at_end() && old(self).buffered().len() > 0 ==> {
                &&& r == Some(old(self).buffered()[0])
                &&& final(self).buffered() == old(self).buffered().drop_first()
                &&& !final(self).at_end()
            },
            !old(self).at_end() && old(self).buffered().len() == 0 ==> {
                &&& (r is None ==> final(self).buffered().len() == 0)
                &&& (r matches Some(c) ==> !final(self).at_end())
            },
    {
        if self.is_eof {
            return None;
        }
        if self.need_read {
            self.need_read = false;
            self.read_line();
        }
        match self.buf.take() {
            None => None,
            Some(mut cv) => {
                let r = cv.next();
                let empty_now = cv.peek().is_none();
                self.buf = Some(cv);
                if empty_now {
                    self.need_read = true;
                }
                r
            },
        }
    }

    /// Looks at the next buffered character.  No read is ever triggered:
    /// lookahead on an interactive stream must not block on input that has
    /// not arrived.
    pub fn peek(&mut self) -> (r: Option<char>)
        requires
            old(self).wf(),
        ensures
            final(self).wf(),
            final(self).at_end() == old(self).at_end(),
            final(self).buffered() == old(self).buffered(),
            r == (if old(self).buffered().len() > 0 {
                Some(old(self).buffered()[0])
            } else {
                None::<char>
            }),
    {
        match self.buf.take() {
            None => None,
            Some(mut cv) => {
                let r = cv.peek();
                self.buf = Some(cv);
                r
            },
        }
    }

    /// Consumes one logical line.  Nothing comes back exactly when no
    /// character is buffered — a mere line request never triggers a read on
    /// an empty buffer, matching the lookahead gate.  A buffered terminator
    /// ends the line with no read at all; a buffer that runs out without one
    /// is extended by at most one fresh read, since a line-oriented read
    /// ends without a terminator only at the end of its input.
    pub fn take_line(&mut self) -> (r: Option<String>)
        requires
            old(self).wf(),
        ensures
            final(self).wf(),
            (r is None <==> old(self).buffered().len() == 0),
            r is None ==> final(self).buffered() == old(self).buffered() && final(self).at_end()
                == old(self).at_end(),
            has_line_break(old(self).buffered()) ==> (r matches Some(l) && l@ == line_of(
                old(self).buffered(),
            ) && final(self).buffered() == rest_after_line(old(self).buffered())
                && final(self).at_end() == old(self).at_end()),
            old(self).buffered().len() > 0 && !has_line_break(old(self).buffered()) ==> (
            r matches Some(l) && l@.len() >= old(self).buffered().len() && l@.take(
                old(self).buffered().len() as int,
            ) == old(self).buffered()),
    {
        if self.is_eof {
            return None;
        }
        if self.peek().is_none() {
            return None;
        }
        let mut acc = String::new();
        let mut cv = self.buf.take().unwrap();
        let complete = split_line(&mut cv, &mut acc);
        let buffer_empty = cv.peek().is_none();
        self.buf = Some(cv);
        proof {
            if !complete {
                lemma_line_covers_unterminated(old(self).buffered());
            }
        }
        if complete {
            if buffer_empty {
                self.need_read = true;
            }
            return Some(acc);
        }
        self.need_read = false;
        self.read_line();
        if !self.is_eof {
            let mut cv2 = self.buf.take().unwrap();
            split_line(&mut cv2, &mut acc);
            let empty2 = cv2.peek().is_none();
            self.buf = Some(cv2);
            if empty2 {
                self.need_read = true;
            }
            proof {
                assert(acc@.take(old(self).buffered().len() as int) =~= old(self).buffered());
            }
        }
        Some(acc)
    }

    /// Delivers every remaining character: the buffered ones, then the rest
    /// of standard input read through to its end.  A failed read marks the
    /// end; the buffer is empty afterwards either way.
    pub fn drain_rest(&mut self) -> (r: String)
        requires
            old(self).wf(),
        ensures
            final(self).wf(),
            final(self).buffered().len() == 0,
            r@.len() >= old(self).buffered().len(),
            r@.take(old(self).buffered().len() as int) == old(self).buffered(),
            old(self).at_end() ==> final(self).at_end() && r@ == old(self).buffered(),
    {
        let mut acc = String::new();
        match self.buf.take() {
            None => {},
            Some(mut cv) => {
                drain_cursor(&mut cv, &mut acc);
                self.buf = None;
            },
        }
        self.need_read = true;
        if self.is_eof {
            self.need_read = false;
            proof {
                assert(acc@ =~= old(self).buffered());
                assert(acc@.take(old(self).buffered().len() as int) =~= old(self).buffered());
            }
            return acc;
        }
        match read_rest_from(&mut self.stdin) {
            Some(tail) => {
                acc.append(tail.as_str());
            },
            None => {
                self.is_eof = true;
                self.need_read = false;
            },
        }
        proof {
            assert(acc@.take(old(self).buffered().len() as int) =~= old(self).buffered());
        }
        acc
    }
}

} // verus!
