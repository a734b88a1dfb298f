use vstd::prelude::*;
use vstd::std_specs::iter::IteratorSpec;

verus! {

/// The pieces of `s` between newline characters, in order. There is always
/// at least one piece; a trailing newline yields a final empty piece.
pub open spec fn pieces(s: Seq<char>) -> Seq<Seq<char>>
    decreases s.len(),
{
    if s.len() == 0 {
        seq![Seq::<char>::empty()]
    } else {
        let p = pieces(s.drop_last());
        if s.last() == '\n' {
            p.push(Seq::<char>::empty())
        } else {
            p.update(p.len() - 1, p.last().push(s.last()))
        }
    }
}

/// A line without its carriage return, if it has one at the end.
pub open spec fn strip_cr(l: Seq<char>) -> Seq<char> {
    if l.len() > 0 && l.last() == '\r' {
        l.drop_last()
    } else {
        l
    }
}

/// The lines of `s`: every piece that a newline ends, without a trailing
/// carriage return, then the final piece when it is not empty.
pub open spec fn lines_of(s: Seq<char>) -> Seq<Seq<char>> {
    let p = pieces(s);
    let ended = p.drop_last().map_values(|l: Seq<char>| strip_cr(l));
    if p.last().len() == 0 {
        ended
    } else {
        ended.push(p.last())
    }
}

pub proof fn lemma_pieces_nonempty(s: Seq<char>)
    ensures
        pieces(s).len() >= 1,
    decreases s.len(),
{
    if s.len() > 0 {
        lemma_pieces_nonempty(s.drop_last());
    }
}

/// Appending text without newlines extends the last piece.
pub proof fn lemma_pieces_extend(x: Seq<char>, y: Seq<char>)
    requires
        !y.contains('\n'),
    ensures
        pieces(x + y) == pieces(x).update(pieces(x).len() - 1, pieces(x).last() + y),
    decreases y.len(),
{
    lemma_pieces_nonempty(x);
    if y.len() == 0 {
        assert(x + y =~= x);
        assert(pieces(x).last() + y =~= pieces(x).last());
        assert(pieces(x).update(pieces(x).len() - 1, pieces(x).last() + y) =~= pieces(x));
    } else {
        let y0 = y.drop_last();
        assert(!y0.contains('\n')) by {
            if y0.contains('\n') {
                let i = choose|i: int| 0 <= i < y0.len() && y0[i] == '\n';
                assert(y[i] == '\n');
            }
        }
        lemma_pieces_extend(x, y0);
        assert((x + y).drop_last() =~= x + y0);
        assert((x + y).last() == y.last());
        assert(y.last() != '\n') by {
            assert(y[y.len() - 1] == y.last());
        }
        assert(pieces(x).last() + y =~= (pieces(x).last() + y0).push(y.last()));
        assert(pieces(x + y) =~= pieces(x).update(pieces(x).len() - 1, pieces(x).last() + y));
    }
}

/// A newline, then text without newlines, adds that text as a new piece.
pub proof fn lemma_pieces_new_line(x: Seq<char>, y: Seq<char>)
    requires
        !y.contains('\n'),
    ensures
        pieces(x.push('\n') + y) == pieces(x).push(y),
{
    let xn = x.push('\n');
    assert(xn.drop_last() =~= x);
    assert(pieces(xn) == pieces(x).push(Seq::<char>::empty()));
    lemma_pieces_extend(xn, y);
    assert(Seq::<char>::empty() + y =~= y);
    assert(pieces(xn).update(pieces(xn).len() - 1, pieces(xn).last() + y) =~= pieces(x).push(y));
}

/// Relies on std's `String::push`: appends one character.
#[verifier::external_body]
fn push_char(s: &mut String, c: char)
    ensures
        final(s)@ == old(s)@.push(c),
{
    s.push(c)
}

/// Splits `text` into lines at `\n`, dropping a `\r` right before each `\n`.
pub fn split_lines(text: &str) -> (r: Vec<String>)
    ensures
        r@.map_values(|l: String| l@) == lines_of(text@),
{
    broadcast use vstd::string::group_string_axioms;

    let mut it = text.chars();
    let mut out: Vec<String> = Vec::new();
    let mut cur = String::new();
    let mut pending_cr = false;
    let ghost mut seen: Seq<char> = Seq::empty();
    let ghost mut ended: Seq<Seq<char>> = Seq::empty();
    loop
        invariant
            seen + it.remaining() == text@,
            it.decrease() is Some,
            !pending_cr ==> (cur@.len() == 0 || cur@.last() != '\r'),
            pieces(seen) == ended.push(if pending_cr { cur@.push('\r') } else { cur@ }),
            out@.map_values(|l: String| l@) == ended.map_values(|l: Seq<char>| strip_cr(l)),
        ensures
            seen == text@,
        decreases it.decrease()->0,
    {
        let next = it.next();
        match next {
            Some(c) => {
                proof {
                    lemma_pieces_nonempty(seen);
                    assert(seen.push(c).drop_last() =~= seen);
                }
                let ghost last = if pending_cr { cur@.push('\r') } else { cur@ };
                if c == '\n' {
                    let line = cur;
                    cur = String::new();
                    pending_cr = false;
                    proof {
                        assert(strip_cr(last) =~= line@);
                    }
                    let ghost prev = out@;
                    out.push(line);
                    proof {
                        assert(out@.map_values(|l: String| l@) =~= prev.map_values(|l: String| l@).push(strip_cr(last)));
                        ended = ended.push(last);
                    }
                } else {
                    if pending_cr {
                        push_char(&mut cur, '\r');
                    }
                    if c == '\r' {
                        pending_cr = true;
                    } else {
                        pending_cr = false;
                        push_char(&mut cur, c);
                    }
                    proof {
                        assert((if pending_cr { cur@.push('\r') } else { cur@ }) =~= last.push(c));
                    }
                }
                proof {
                    seen = seen.push(c);
                    assert(seen + it.remaining() =~= text@);
                    assert(out@.map_values(|l: String| l@) =~= ended.map_values(|l: Seq<char>| strip_cr(l)));
                }
            },
            None => {
                proof {
                    assert(seen =~= text@);
                }
                break ;
            },
        }
    }
    if pending_cr {
        push_char(&mut cur, '\r');
    }
    if cur.unicode_len() > 0 {
        let ghost prev = out@;
        out.push(cur);
        assert(out@.map_values(|l: String| l@) =~= prev.map_values(|l: String| l@).push(
            pieces(text@).last(),
        ));
    }
    proof {
        assert(pieces(text@).drop_last() =~= ended);
    }
    out
}

/// Whether `s` begins with `prefix`.
pub fn starts_with(s: &str, prefix: &str) -> (r: bool)
    ensures
        r == prefix@.is_prefix_of(s@),
{
    let n = prefix.unicode_len();
    if s.unicode_len() < n {
        return false;
    }
    let mut i: usize = 0;
    while i < n
        invariant
            n == prefix@.len(),
            n <= s@.len(),
            i <= n,
            forall|j: int| 0 <= j < i ==> prefix@[j] == s@[j],
        decreases n - i,
    {
        if s.get_char(i) != prefix.get_char(i) {
            return false;
        }
        i = i + 1;
    }
    true
}

/// Whether `a` and `b` hold the same characters.
pub fn same_text(a: &str, b: &str) -> (r: bool)
    ensures
        r == (a@ == b@),
{
    if a.unicode_len() != b.unicode_len() {
        return false;
    }
    let r = starts_with(a, b);
    proof {
        if r {
            assert(a@ =~= b@);
        }
    }
    r
}

} // verus!
