//! The one textual transformation of the resolution: taking the part of a
//! string after its last slash, used to turn a pull-request URL into a
//! pull-request number.

use vstd::prelude::*;

verus! {

/// Everything after the last `/` of `s`; `s` itself when it has no `/`.
pub open spec fn after_last_slash(s: Seq<char>) -> Seq<char>
    decreases s.len(),
{
    if s.len() == 0 {
        s
    } else if s.last() == '/' {
        Seq::empty()
    } else {
        after_last_slash(s.drop_last()).push(s.last())
    }
}

/// Appending one character extends the tail, and a slash empties it.
proof fn lemma_after_last_slash_step(s: Seq<char>, c: char)
    ensures
        c == '/' ==> after_last_slash(s.push(c)) == Seq::<char>::empty(),
        c != '/' ==> after_last_slash(s.push(c)) == after_last_slash(s).push(c),
{
    assert(s.push(c).drop_last() =~= s);
    assert(s.push(c).last() == c);
}

/// Relies on String::push: appends the one character at the end.
#[verifier::external_body]
fn push_char(s: &mut String, c: char)
    ensures
        final(s)@ == old(s)@.push(c),
{
    s.push(c)
}

/// The part of `s` after its last `/`, as an owned string.
pub fn tail_after_slash(s: &str) -> (r: String)
    ensures
        r@ == after_last_slash(s@),
{
    broadcast use vstd::string::axiom_spec_iter;

    let mut r = String::new();
    proof {
        assert(after_last_slash(Seq::<char>::empty()) == Seq::<char>::empty());
    }
    for c in it: s.chars()
        invariant
            it.seq() == s@,
            r@ == after_last_slash(s@.subrange(0, it.index())),
    {
        proof {
            assert(s@.subrange(0, it.index() + 1) =~= s@.subrange(0, it.index()).push(c));
            lemma_after_last_slash_step(s@.subrange(0, it.index()), c);
        }
        if c == '/' {
            r = String::new();
        } else {
            push_char(&mut r, c);
        }
    }
    proof {
        assert(s@.subrange(0, s@.len() as int) =~= s@);
    }
    r
}

} // verus!
