use vstd::prelude::*;

use crate::text::chars_of;

verus! {

/// `s` with every occurrence of `pat` taken out, scanning from the left and
/// resuming after each occurrence removed.
pub open spec fn remove_all(s: Seq<char>, pat: Seq<char>) -> Seq<char>
    decreases s.len(),
{
    if pat.len() == 0 || s.len() < pat.len() {
        s
    } else if s.take(pat.len() as int) == pat {
        remove_all(s.skip(pat.len() as int), pat)
    } else {
        seq![s[0]] + remove_all(s.skip(1), pat)
    }
}

pub open spec fn open_tag() -> Seq<char> {
    seq!['<', 'p', '>']
}

pub open spec fn close_tag() -> Seq<char> {
    seq!['<', '/', 'p', '>']
}

pub open spec fn newline() -> Seq<char> {
    seq!['\n']
}

/// Fetched paragraphs as practice text: the paragraph tags taken out, then
/// the line breaks.
pub open spec fn practice_text_of(s: Seq<char>) -> Seq<char> {
    remove_all(remove_all(remove_all(s, open_tag()), close_tag()), newline())
}

/// Whether `pat` occurs in `s` at position `i`.
fn occurs_at(s: &Vec<char>, i: usize, pat: &Vec<char>) -> (r: bool)
    requires
        i <= s@.len(),
    ensures
        r == (i + pat@.len() <= s@.len() && s@.subrange(i as int, i + pat@.len()) == pat@),
{
    if pat.len() > s.len() - i {
        return false;
    }
    let mut j: usize = 0;
    while j < pat.len()
        invariant
            i + pat@.len() <= s@.len() <= usize::MAX,
            j <= pat@.len(),
            forall|k: int| 0 <= k < j ==> s@[i + k] == pat@[k],
        decreases pat@.len() - j,
    {
        if s[i + j] != pat[j] {
            proof {
                assert(s@.subrange(i as int, i + pat@.len())[j as int] != pat@[j as int]);
            }
            return false;
        }
        j = j + 1;
    }
    proof {
        assert(s@.subrange(i as int, i + pat@.len()) =~= pat@);
    }
    true
}

/// Takes every occurrence of `pat` out of `s`.
pub fn remove_occurrences(s: &Vec<char>, pat: &Vec<char>) -> (r: Vec<char>)
    ensures
        r@ == remove_all(s@, pat@),
{
    if pat.len() == 0 {
        return s.clone();
    }
    let mut out: Vec<char> = Vec::new();
    let mut i: usize = 0;
    proof {
        assert(s@.skip(0) =~= s@);
        assert(out@ + remove_all(s@, pat@) =~= remove_all(s@, pat@));
    }
    while i < s.len()
        invariant
            pat@.len() > 0,
            i <= s@.len(),
            out@ + remove_all(s@.skip(i as int), pat@) == remove_all(s@, pat@),
        decreases s@.len() - i,
    {
        let rest = Ghost(s@.skip(i as int));
        if occurs_at(s, i, pat) {
            proof {
                assert(rest@.take(pat@.len() as int) =~= s@.subrange(i as int, i + pat@.len()));
                assert(rest@.skip(pat@.len() as int) =~= s@.skip(i + pat@.len()));
            }
            i = i + pat.len();
        } else {
            proof {
                if rest@.len() >= pat@.len() {
                    assert(rest@.take(pat@.len() as int) =~= s@.subrange(i as int, i + pat@.len()));
                    assert(rest@.skip(1) =~= s@.skip(i + 1));
                } else {
                    assert(rest@ =~= seq![s@[i as int]] + s@.skip(i + 1));
                    assert(remove_all(s@.skip(i + 1), pat@) == s@.skip(i + 1));
                }
                assert(out@.push(s@[i as int]) + remove_all(s@.skip(i + 1), pat@)
                    =~= out@ + remove_all(rest@, pat@));
            }
            out.push(s[i]);
            i = i + 1;
        }
    }
    proof {
        assert(out@ + remove_all(s@.skip(i as int), pat@) =~= out@);
    }
    out
}

/// Turns fetched paragraph markup into practice text.
pub fn practice_text(fetched: &str) -> (r: Vec<char>)
    ensures
        r@ == practice_text_of(fetched@),
{
    let s = chars_of(fetched);
    let open: Vec<char> = vec!['<', 'p', '>'];
    let close: Vec<char> = vec!['<', '/', 'p', '>'];
    let line_break: Vec<char> = vec!['\n'];
    proof {
        assert(open@ =~= open_tag());
        assert(close@ =~= close_tag());
        assert(line_break@ =~= newline());
    }
    let a = remove_occurrences(&s, &open);
    let b = remove_occurrences(&a, &close);
    remove_occurrences(&b, &line_break)
}

} // verus!
