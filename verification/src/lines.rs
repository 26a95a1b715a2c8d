//! Logical lines over character sequences: the reference splitting
//! specification and the executable splitter every source variant shares.
//!
//! A line terminator is a lone `\n`, a lone `\r`, or the pair `\r\n` taken as
//! one terminator.  Terminators are never part of the line text.

use crate::internals::char_vec::InternalCharVec;
use vstd::prelude::*;

verus! {

/// A character that ends a line.
pub open spec fn is_line_break(c: char) -> bool {
    c == '\n' || c == '\r'
}

/// The first logical line of `s`: the characters before the first line
/// terminator, or the whole of `s` if it holds no terminator.
pub open spec fn line_of(s: Seq<char>) -> Seq<char>
    decreases s.len(),
{
    if s.len() == 0 {
        Seq::<char>::empty()
    } else if is_line_break(s[0]) {
        Seq::<char>::empty()
    } else {
        seq![s[0]] + line_of(s.drop_first())
    }
}

/// What is left of `s` after its first logical line and the terminator that
/// ended it; a `\r` directly followed by `\n` is consumed as one terminator.
pub open spec fn rest_after_line(s: Seq<char>) -> Seq<char>
    decreases s.len(),
{
    if s.len() == 0 {
        Seq::<char>::empty()
    } else if s[0] == '\n' {
        s.drop_first()
    } else if s[0] == '\r' {
        if s.len() >= 2 && s[1] == '\n' {
            s.skip(2)
        } else {
            s.drop_first()
        }
    } else {
        rest_after_line(s.drop_first())
    }
}

/// Whether `s` holds a line terminator anywhere.
pub open spec fn has_line_break(s: Seq<char>) -> bool {
    exists|i: int| 0 <= i < s.len() && is_line_break(s[i])
}

/// Dropping a head character that is no terminator neither creates nor
/// removes terminators.
proof fn lemma_break_step(s: Seq<char>)
    requires
        s.len() > 0,
        !is_line_break(s[0]),
    ensures
        has_line_break(s) == has_line_break(s.drop_first()),
{
    if has_line_break(s) {
        let i = choose|i: int| 0 <= i < s.len() && is_line_break(s[i]);
        assert(s.drop_first()[i - 1] == s[i]);
    }
    if has_line_break(s.drop_first()) {
        let i = choose|i: int|
            0 <= i < s.drop_first().len() && is_line_break(s.drop_first()[i]);
        assert(s[i + 1] == s.drop_first()[i]);
    }
}

/// After a nonempty text's first line and terminator are removed, strictly
/// fewer characters remain: repeated line reads reach the end.
pub proof fn lemma_rest_shrinks(s: Seq<char>)
    requires
        s.len() > 0,
    ensures
        rest_after_line(s).len() < s.len(),
    decreases s.len(),
{
    if s[0] == '\n' {
    } else if s[0] == '\r' {
    } else if s.len() > 1 {
        lemma_rest_shrinks(s.drop_first());
    } else {
        assert(rest_after_line(s.drop_first()).len() == 0);
    }
}

/// Every logical line of `s`, in order, as a reference splitter produces
/// them: the first line, then the lines of what follows its terminator.
/// Text that ends in a terminator contributes no trailing entry beyond it;
/// reading past the last line yields nothing.
pub open spec fn split_lines(s: Seq<char>) -> Seq<Seq<char>>
    decreases s.len(),
    via split_lines_decreases
{
    if s.len() == 0 {
        Seq::<Seq<char>>::empty()
    } else {
        seq![line_of(s)] + split_lines(rest_after_line(s))
    }
}

#[via_fn]
proof fn split_lines_decreases(s: Seq<char>) {
    if s.len() > 0 {
        lemma_rest_shrinks(s);
    }
}

/// Repeated line reads cover the whole text: for nonempty `s` the lines of
/// `s` are exactly its first line followed by the lines of the remainder, so
/// a reader that takes `line_of` and continues on `rest_after_line` produces
/// `split_lines(s)` and nothing more.
pub proof fn lemma_split_lines_decompose(s: Seq<char>)
    requires
        s.len() > 0,
    ensures
        split_lines(s) == seq![line_of(s)] + split_lines(rest_after_line(s)),
{
}

/// A text without a terminator is one whole logical line: reading a line
/// from it delivers all of it, and nothing follows.
pub proof fn lemma_line_covers_unterminated(s: Seq<char>)
    requires
        !has_line_break(s),
    ensures
        line_of(s) == s,
        rest_after_line(s).len() == 0,
    decreases s.len(),
{
    if s.len() > 0 {
        assert(!is_line_break(s[0])) by {
            if is_line_break(s[0]) {
                assert(has_line_break(s));
            }
        }
        assert(!has_line_break(s.drop_first())) by {
            if has_line_break(s.drop_first()) {
                let i = choose|i: int|
                    0 <= i < s.drop_first().len() && is_line_break(s.drop_first()[i]);
                assert(s[i + 1] == s.drop_first()[i]);
                assert(has_line_break(s));
            }
        }
        lemma_line_covers_unterminated(s.drop_first());
        assert(line_of(s) =~= s);
    }
}

/// Relies on `String::push`: appends the given character to the end of the
/// string.
#[verifier::external_body]
pub(crate) fn push_char(s: &mut String, c: char)
    ensures
        final(s)@ == old(s)@.push(c),
{
    s.push(c);
}

/// Collects the characters of `s` into a vector, in order.
pub fn chars_of(s: &str) -> (v: Vec<char>)
    ensures
        v@ == s@,
{
    broadcast use vstd::string::axiom_spec_iter;

    let mut v: Vec<char> = Vec::new();
    for c in it: s.chars()
        invariant
            v@ == it.history(),
    {
        v.push(c);
    }
    proof {
        assert(v@ =~= s@);
    }
    v
}

/// Consumes one logical line from the forward side of `cv`, appending its
/// characters to `acc`.  Consumption stops right after the first terminator
/// (taking a full `\r\n` pair) or when the cursor is exhausted; the returned
/// flag says whether a terminator was seen.
pub fn split_line(cv: &mut InternalCharVec, acc: &mut String) -> (complete: bool)
    requires
        old(cv).wf(),
    ensures
        final(cv).wf(),
        final(cv).all_chars() == old(cv).all_chars(),
        final(cv).back() == old(cv).back(),
        final(acc)@ == old(acc)@ + line_of(old(cv).remaining()),
        final(cv).remaining() == rest_after_line(old(cv).remaining()),
        complete == has_line_break(old(cv).remaining()),
{
    let ghost orig = cv.remaining();
    let ghost acc0 = acc@;
    let ghost all0 = cv.all_chars();
    let ghost back0 = cv.back();
    let ghost mut taken: Seq<char> = Seq::<char>::empty();
    let mut complete = false;
    loop
        invariant_except_break
            cv.wf(),
            cv.all_chars() == all0,
            cv.back() == back0,
            !complete,
            acc@ == acc0 + taken,
            line_of(orig) == taken + line_of(cv.remaining()),
            rest_after_line(orig) == rest_after_line(cv.remaining()),
            has_line_break(orig) == has_line_break(cv.remaining()),
        ensures
            cv.wf(),
            cv.all_chars() == all0,
            cv.back() == back0,
            acc@ == acc0 + line_of(orig),
            cv.remaining() == rest_after_line(orig),
            complete == has_line_break(orig),
        decreases cv.remaining().len(),
    {
        let ghost rem = cv.remaining();
        match cv.next() {
            None => {
                proof {
                    assert(line_of(rem) =~= Seq::<char>::empty());
                    assert(rest_after_line(rem) =~= rem);
                    assert(taken + line_of(rem) =~= taken);
                    assert(acc0 + taken == acc0 + line_of(orig));
                }
                break ;
            },
            Some(c) => {
                if c == '\n' {
                    proof {
                        assert(is_line_break(rem[0]));
                        assert(has_line_break(rem));
                        assert(line_of(rem) =~= Seq::<char>::empty());
                        assert(taken + line_of(rem) =~= taken);
                        assert(rest_after_line(rem) == rem.drop_first());
                    }
                    complete = true;
                    break ;
                } else if c == '\r' {
                    complete = true;
                    let ghost after_cr = cv.remaining();
                    match cv.peek() {
                        Some(c2) => {
                            if c2 == '\n' {
                                cv.next();
                                proof {
                                    assert(rem[1] == after_cr[0]);
                                    assert(rem.len() >= 2);
                                    assert(cv.remaining() =~= rem.skip(2));
                                }
                            } else {
                                proof {
                                    assert(rem[1] == after_cr[0]);
                                    assert(rest_after_line(rem) == rem.drop_first());
                                }
                            }
                        },
                        None => {
                            proof {
                                assert(rem.len() == 1);
                                assert(rest_after_line(rem) == rem.drop_first());
                            }
                        },
                    }
                    proof {
                        assert(is_line_break(rem[0]));
                        assert(has_line_break(rem));
                        assert(line_of(rem) =~= Seq::<char>::empty());
                        assert(taken + line_of(rem) =~= taken);
                    }
                    break ;
                } else {
                    push_char(acc, c);
                    proof {
                        lemma_break_step(rem);
                        assert(line_of(rem) == seq![c] + line_of(rem.drop_first()));
                        let taken_before = taken;
                        taken = taken + seq![c];
                        assert(acc@ =~= acc0 + taken);
                        assert(taken + line_of(cv.remaining()) =~= taken_before + (seq![c]
                            + line_of(cv.remaining())));
                    }
                }
            },
        }
    }
    complete
}

/// Appends every character the forward side of `cv` has yet to deliver to
/// `acc`, leaving the forward side exhausted.
pub fn drain_cursor(cv: &mut InternalCharVec, acc: &mut String)
    requires
        old(cv).wf(),
    ensures
        final(cv).wf(),
        final(cv).all_chars() == old(cv).all_chars(),
        final(cv).back() == old(cv).back(),
        final(cv).remaining().len() == 0,
        final(acc)@ == old(acc)@ + old(cv).remaining(),
{
    let ghost orig = cv.remaining();
    let ghost acc0 = acc@;
    let ghost all0 = cv.all_chars();
    let ghost back0 = cv.back();
    let ghost mut taken: Seq<char> = Seq::<char>::empty();
    loop
        invariant_except_break
            cv.wf(),
            cv.all_chars() == all0,
            cv.back() == back0,
            acc@ == acc0 + taken,
            orig == taken + cv.remaining(),
        ensures
            cv.wf(),
            cv.all_chars() == all0,
            cv.back() == back0,
            cv.remaining().len() == 0,
            acc@ == acc0 + orig,
        decreases cv.remaining().len(),
    {
        let ghost rem = cv.remaining();
        match cv.next() {
            None => {
                proof {
                    assert(taken + rem =~= taken);
                }
                break ;
            },
            Some(c) => {
                push_char(acc, c);
                proof {
                    taken = taken + seq![c];
                    assert(acc@ =~= acc0 + taken);
                    assert(orig =~= taken + cv.remaining());
                }
            },
        }
    }
}

} // verus!
