//! A unified character-reading interface over several text sources: an
//! in-memory string, a byte buffer validated as UTF-8, interactive standard
//! input, and — through [`internals::file::LineBuffer`] together with a
//! caller-held file reader — a line-buffered file.  Every source is drained
//! through the same forward operations (`next`, `peek`), with line splitting
//! and reverse iteration layered on top of them.

pub mod internals;
pub mod lines;
pub mod wend_iter;

use crate::internals::char_vec::InternalCharVec;
use crate::internals::stdin::InternalStdin;
use crate::internals::stdin::acquire_stdin;
use crate::lines::drain_cursor;
use crate::lines::chars_of;
use crate::lines::has_line_break;
use crate::lines::line_of;
use crate::lines::rest_after_line;
use crate::lines::split_line;
use crate::wend_iter::WendIterator;
use vstd::prelude::*;
use vstd::utf8::decode_utf8;
use vstd::utf8::valid_utf8;

verus! {

/// Relies on `str::from_utf8`: succeeds exactly on valid UTF-8 input and
/// then yields the decoded characters, as `vstd::utf8` specifies decoding.
#[verifier::external_body]
fn decode_bytes(bytes: &[u8]) -> (r: Option<Vec<char>>)
    ensures
        r is Some <==> valid_utf8(bytes@),
        r matches Some(v) ==> v@ == decode_utf8(bytes@),
{
    match core::str::from_utf8(bytes) {
        Ok(s) => Some(s.chars().collect()),
        Err(_) => None,
    }
}

/// A character stream over a source chosen irrevocably at construction:
/// either a fully materialized character sequence (text, or bytes validated
/// as UTF-8) or interactive standard input, read lazily one line at a time.
/// Both are consumed through the same operations.
pub enum CharStream {
    Chars { chars: InternalCharVec },
    StdIn { stdin: InternalStdin },
}

impl CharStream {
    pub open spec fn wf(&self) -> bool {
        match self {
            CharStream::Chars { chars } => chars.wf(),
            CharStream::StdIn { stdin } => stdin.wf(),
        }
    }

    /// The decoded characters held and not yet delivered: for a materialized
    /// stream everything left, for the interactive stream the not yet
    /// consumed part of the line last read.
    pub open spec fn buffered(&self) -> Seq<char> {
        match self {
            CharStream::Chars { chars } => chars.remaining(),
            CharStream::StdIn { stdin } => stdin.buffered(),
        }
    }

    /// What `peek` yields: the head of the held characters.
    pub open spec fn peek_spec(&self) -> Option<char> {
        if self.buffered().len() > 0 {
            Some(self.buffered()[0])
        } else {
            None
        }
    }

    /// Builds a stream over the characters of `s`.  Never fails, and the
    /// stream delivers exactly the characters of `s`, in order.
    pub fn from(s: &str) -> (r: CharStream)
        ensures
            r.wf(),
            r is Chars,
            r.buffered() == s@,
            r matches CharStream::Chars { chars } && chars.fresh_over(s@),
    {
        let r = CharStream::Chars { chars: InternalCharVec::new(chars_of(s)) };
        proof {
            assert(r.buffered() =~= s@);
        }
        r
    }

    /// Builds a stream over the characters of an owned text value, exactly
    /// as `from` does.
    pub fn from_string(s: String) -> (r: CharStream)
        ensures
            r.wf(),
            r is Chars,
            r.buffered() == s@,
            r matches CharStream::Chars { chars } && chars.fresh_over(s@),
    {
        let r = CharStream::Chars { chars: InternalCharVec::new(chars_of(s.as_str())) };
        proof {
            assert(r.buffered() =~= s@);
        }
        r
    }

    /// Builds a stream from raw bytes, validating them as UTF-8 up front:
    /// construction succeeds with the decoded characters exactly when the
    /// bytes are valid, and reports a failure — it never panics, and never
    /// yields partial characters — otherwise.
    pub fn from_bytes(bytes: &[u8]) -> (r: Result<CharStream, &'static str>)
        ensures
            r is Ok <==> valid_utf8(bytes@),
            r matches Ok(stream) ==> stream.wf() && stream is Chars && stream.buffered()
                == decode_utf8(bytes@),
            r matches Err(m) ==> m@ == "can't convert utf8 string from bytes."@,
    {
        match decode_bytes(bytes) {
            Some(v) => {
                let ghost chars = v@;
                let stream = CharStream::Chars { chars: InternalCharVec::new(v) };
                proof {
                    assert(stream.buffered() =~= chars);
                }
                Ok(stream)
            },
            None => Err("can't convert utf8 string from bytes."),
        }
    }

    /// Builds a stream over interactive standard input.  Nothing is read
    /// yet: the first read happens inside the first consuming call that
    /// needs it, never at construction and never in `peek`.
    pub fn from_stdin() -> (r: CharStream)
        ensures
            r.wf(),
            r is StdIn,
            r.buffered().len() == 0,
            r matches CharStream::StdIn { stdin } && !stdin.at_end(),
    {
        CharStream::StdIn { stdin: InternalStdin::new(acquire_stdin()) }
    }

    /// Delivers the next character of the stream, or nothing at its end.
    /// Whatever the source, a character visible to `peek` beforehand is
    /// exactly the one delivered.
    pub fn next(&mut self) -> (r: Option<char>)
        requires
            old(self).wf(),
        ensures
            final(self).wf(),
            (*final(self)) is Chars <==> (*old(self)) is Chars,
            old(self).peek_spec() matches Some(c) ==> r == Some(c) && final(self).buffered()
                == old(self).buffered().drop_first(),
            (*old(self)) is Chars ==> {
                &&& final(self)->Chars_chars.all_chars() == old(self)->Chars_chars.all_chars()
                &&& final(self)->Chars_chars.back() == old(self)->Chars_chars.back()
                &&& (old(self).buffered().len() == 0 ==> r is None && final(self).buffered()
                    == old(self).buffered())
            },
            (*old(self)) is StdIn ==> {
                &&& (old(self)->StdIn_stdin.at_end() ==> r is None
                    && final(self)->StdIn_stdin.at_end() && final(self).buffered() == old(
                    self,
                ).buffered())
                &&& (!old(self)->StdIn_stdin.at_end() && old(self).buffered().len() == 0 ==> ((
                r is None ==> final(self).buffered().len() == 0) && (r is Some
                    ==> !final(self)->StdIn_stdin.at_end())))
            },
    {
        match self {
            CharStream::Chars { chars } => chars.next(),
            CharStream::StdIn { stdin } => stdin.next(),
        }
    }

    /// Looks at the next character without consuming it and without
    /// triggering any read: repeated calls keep yielding the same answer
    /// until a consuming call intervenes.
    pub fn peek(&mut self) -> (r: Option<char>)
        requires
            old(self).wf(),
        ensures
            final(self).wf(),
            (*final(self)) is Chars <==> (*old(self)) is Chars,
            final(self).buffered() == old(self).buffered(),
            r == old(self).peek_spec(),
            (*old(self)) is Chars ==> {
                &&& final(self)->Chars_chars.all_chars() == old(self)->Chars_chars.all_chars()
                &&& final(self)->Chars_chars.fwd() == old(self)->Chars_chars.fwd()
                &&& final(self)->Chars_chars.back() == old(self)->Chars_chars.back()
            },
            (*old(self)) is StdIn ==> final(self)->StdIn_stdin.at_end()
                == old(self)->StdIn_stdin.at_end(),
    {
        match self {
            CharStream::Chars { chars } => chars.peek(),
            CharStream::StdIn { stdin } => stdin.peek(),
        }
    }

    /// Reads one logical line: the characters before the next terminator,
    /// with the terminator consumed but never included, and a `\r` directly
    /// followed by `\n` consumed as a single terminator.  Nothing comes back
    /// exactly when a `peek` right beforehand would yield nothing; a
    /// genuinely empty line yields the empty string instead.
    pub fn read_line(&mut self) -> (r: Option<String>)
        requires
            old(self).wf(),
        ensures
            final(self).wf(),
            (*final(self)) is Chars <==> (*old(self)) is Chars,
            (r is None <==> old(self).peek_spec() is None),
            r is None ==> final(self).buffered() == old(self).buffered(),
            (*old(self)) is Chars ==> {
                &&& final(self)->Chars_chars.all_chars() == old(self)->Chars_chars.all_chars()
                &&& final(self)->Chars_chars.back() == old(self)->Chars_chars.back()
                &&& (old(self).buffered().len() > 0 ==> (r matches Some(l) && l@ == line_of(
                    old(self).buffered(),
                ) && final(self).buffered() == rest_after_line(old(self).buffered())))
            },
            (*old(self)) is StdIn ==> {
                &&& (has_line_break(old(self).buffered()) ==> (r matches Some(l) && l@
                    == line_of(old(self).buffered()) && final(self).buffered()
                    == rest_after_line(old(self).buffered())))
                &&& (old(self).buffered().len() > 0 && !has_line_break(old(self).buffered())
                    ==> (r matches Some(l) && l@.len() >= old(self).buffered().len()
                    && l@.take(old(self).buffered().len() as int) == old(self).buffered()))
            },
    {
        match self {
            CharStream::Chars { chars } => {
                if chars.peek().is_none() {
                    return None;
                }
                let mut acc = String::new();
                split_line(chars, &mut acc);
                Some(acc)
            },
            CharStream::StdIn { stdin } => stdin.take_line(),
        }
    }

    /// Drains every remaining character into one text value.  For a
    /// materialized stream this is exactly the characters it still held; the
    /// interactive stream first yields its buffered characters and then
    /// everything standard input still provides.  Draining a whole source
    /// into memory is an explicit cost the caller opts into.
    pub fn to_string(&mut self) -> (r: String)
        requires
            old(self).wf(),
        ensures
            final(self).wf(),
            (*final(self)) is Chars <==> (*old(self)) is Chars,
            final(self).buffered().len() == 0,
            r@.len() >= old(self).buffered().len(),
            r@.take(old(self).buffered().len() as int) == old(self).buffered(),
            (*old(self)) is Chars ==> r@ == old(self).buffered()
                && final(self)->Chars_chars.all_chars() == old(self)->Chars_chars.all_chars()
                && final(self)->Chars_chars.back() == old(self)->Chars_chars.back(),
    {
        match self {
            CharStream::Chars { chars } => {
                let mut acc = String::new();
                drain_cursor(chars, &mut acc);
                proof {
                    assert(acc@.take(old(self).buffered().len() as int) =~= old(self).buffered());
                }
                acc
            },
            CharStream::StdIn { stdin } => stdin.drain_rest(),
        }
    }

    /// Converts a materialized stream into a two-ended iteration over the
    /// characters it still holds.  An interactive stream cannot rewind and
    /// must not be drained wholesale for this, so conversion is only offered
    /// for materialized streams.
    pub fn wend_iter(self) -> (r: WendIterator)
        requires
            self.wf(),
            self is Chars,
        ensures
            r.wf(),
            r.cursor() == self->Chars_chars,
    {
        match self {
            CharStream::Chars { chars } => WendIterator::from_chars(chars),
            CharStream::StdIn { .. } => {
                proof {
                    assert(false);
                }
                WendIterator::from_chars(InternalCharVec::new(Vec::new()))
            },
        }
    }
}

} // verus!
