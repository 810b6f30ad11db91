//! Literal prefix/suffix patterns with one free-form gap.
//!
//! A [`Pattern`] is the weaker, regex-free cousin of the compiled
//! classifier's patterns: literal text around a single `{}` placeholder.
//! Matching tests the literal prefix and suffix and hands back what stood
//! in the gap. An ordered list of such patterns is evaluated
//! first-match-wins, exactly as the classifier runtime orders its cases.

use vstd::prelude::*;

verus! {

/// A literal pattern: the text before the placeholder and the text after
/// it. A pattern without a placeholder is all prefix and matches one exact
/// string.
pub struct Pattern {
    pub prefix: String,
    pub suffix: String,
}

/// The first position of the `{}` placeholder from `i` on.
pub open spec fn placeholder_from(s: Seq<char>, i: int) -> Option<int>
    decreases s.len() - i,
{
    if i < 0 || i + 1 >= s.len() {
        None
    } else if s[i] == '{' && s[i + 1] == '}' {
        Some(i)
    } else {
        placeholder_from(s, i + 1)
    }
}

/// The prefix and suffix a pattern string denotes: the text around the
/// first `{}` placeholder, or — without one — the whole string as prefix.
pub open spec fn pattern_of(s: Seq<char>) -> (Seq<char>, Seq<char>) {
    match placeholder_from(s, 0) {
        Some(i) => (s.take(i), s.skip(i + 2)),
        None => (s, Seq::<char>::empty()),
    }
}

/// What matching an input against a pattern yields: `Some(None)` for the
/// exact match of a pattern without a gap, `Some(Some(m))` for a match
/// with `m` standing in the gap, `None` for no match.
pub open spec fn pattern_match_spec(p: Seq<char>, q: Seq<char>, inp: Seq<char>) -> Option<
    Option<Seq<char>>,
> {
    if q.len() == 0 && inp == p {
        Some(None)
    } else if inp.len() >= p.len() + q.len() && inp.take(p.len() as int) == p && inp.skip(
        inp.len() - q.len(),
    ) == q {
        Some(Some(inp.subrange(p.len() as int, inp.len() - q.len())))
    } else {
        None
    }
}

/// Whether `b` stands verbatim in `a` at offset `ai`.
fn seq_eq_range(a: &str, ai: usize, b: &str) -> (r: bool)
    requires
        ai + b@.len() <= a@.len(),
    ensures
        r == (a@.subrange(ai as int, ai + b@.len()) == b@),
{
    let n = a.unicode_len();
    let m = b.unicode_len();
    let mut k: usize = 0;
    while k < m
        invariant
            n == a@.len(),
            m == b@.len(),
            ai + m <= n,
            k <= m,
            forall|t: int| 0 <= t < k ==> a@[ai + t] == b@[t],
        decreases m - k,
    {
        if a.get_char(ai + k) != b.get_char(k) {
            proof {
                assert(a@.subrange(ai as int, ai + b@.len())[k as int] == a@[ai + k]);
            }
            return false;
        }
        k += 1;
    }
    proof {
        assert(a@.subrange(ai as int, ai + b@.len()) =~= b@);
    }
    true
}

impl Pattern {
    /// Split a pattern string at its first `{}` placeholder; a string
    /// without one becomes a pattern that is all prefix.
    pub fn from(pattern: &str) -> (r: Pattern)
        ensures
            r.prefix@ == pattern_of(pattern@).0,
            r.suffix@ == pattern_of(pattern@).1,
    {
        let n = pattern.unicode_len();
        let mut i: usize = 0;
        while i < n && i + 1 < n
            invariant
                n == pattern@.len(),
                i <= n,
                placeholder_from(pattern@, 0) == placeholder_from(pattern@, i as int),
            decreases n - i,
        {
            if pattern.get_char(i) == '{' && pattern.get_char(i + 1) == '}' {
                let prefix = String::from_str(pattern.substring_char(0, i));
                let suffix = String::from_str(pattern.substring_char(i + 2, n));
                return Pattern { prefix, suffix };
            }
            i += 1;
        }
        Pattern { prefix: String::from_str(pattern), suffix: String::new() }
    }

    /// Match an input against the pattern: the exact prefix for a pattern
    /// without a gap, else the literal prefix and suffix around whatever
    /// text fills the gap, which is returned. An input that fits neither
    /// way is rejected.
    pub fn match_and_extract(&self, input: &str) -> (r: Result<Option<String>, ()>)
        ensures
            match pattern_match_spec(self.prefix@, self.suffix@, input@) {
                Some(None) => r == Ok::<Option<String>, ()>(None),
                Some(Some(m)) => r matches Ok(Some(x)) && x@ == m,
                None => r is Err,
            },
    {
        let n_inp = input.unicode_len();
        let n_pre = self.prefix.as_str().unicode_len();
        let n_suf = self.suffix.as_str().unicode_len();
        if n_suf == 0 && n_inp == n_pre && seq_eq_range(input, 0, self.prefix.as_str()) {
            proof {
                assert(input@.subrange(0, n_pre as int) =~= input@);
            }
            Ok(None)
        } else if n_inp >= n_pre && n_inp - n_pre >= n_suf && seq_eq_range(
            input,
            0,
            self.prefix.as_str(),
        ) && seq_eq_range(input, n_inp - n_suf, self.suffix.as_str()) {
            let mid = String::from_str(input.substring_char(n_pre, n_inp - n_suf));
            proof {
                assert(input@.take(n_pre as int) == input@.subrange(0, n_pre as int));
                assert(input@.skip(n_inp - n_suf) == input@.subrange(
                    n_inp - n_suf,
                    input@.len() as int,
                ));
                assert(!(self.suffix@.len() == 0 && input@ == self.prefix@)) by {
                    if self.suffix@.len() == 0 && input@ == self.prefix@ {
                        assert(n_inp == n_pre);
                        assert(input@.subrange(0, n_pre as int) =~= self.prefix@);
                    }
                }
            }
            Ok(Some(mid))
        } else {
            proof {
                if self.suffix@.len() == 0 && input@ == self.prefix@ {
                    assert(n_inp == n_pre);
                    assert(input@.subrange(0, n_pre as int) =~= self.prefix@);
                }
                if input@.len() >= self.prefix@.len() + self.suffix@.len() && input@.take(
                    n_pre as int,
                ) == self.prefix@ && input@.skip(n_inp - n_suf) == self.suffix@ {
                    assert(input@.take(n_pre as int) == input@.subrange(0, n_pre as int));
                    assert(input@.skip(n_inp - n_suf) == input@.subrange(
                        n_inp - n_suf,
                        input@.len() as int,
                    ));
                }
            }
            Err(())
        }
    }
}

/// The first pattern of the list from position `i` on that matches the
/// input.
pub open spec fn first_pattern_from(ps: Seq<Pattern>, inp: Seq<char>, i: int) -> Option<int>
    decreases ps.len() - i,
{
    if i < 0 || i >= ps.len() {
        None
    } else if pattern_match_spec(ps[i].prefix@, ps[i].suffix@, inp) is Some {
        Some(i)
    } else {
        first_pattern_from(ps, inp, i + 1)
    }
}

/// Evaluate an ordered list of patterns first-match-wins: the first
/// pattern that matches decides, and what stood in its gap — if it has
/// one — comes back with its index. Later patterns are never consulted.
pub fn first_pattern_match(patterns: &Vec<Pattern>, input: &str) -> (r: Option<
    (usize, Option<String>),
>)
    ensures
        match r {
            Some(pair) => {
                &&& first_pattern_from(patterns@, input@, 0) == Some(pair.0 as int)
                &&& pair.0 < patterns@.len()
                &&& Some(pair.1.deep_view()) == pattern_match_spec(
                    patterns@[pair.0 as int].prefix@,
                    patterns@[pair.0 as int].suffix@,
                    input@,
                )
            },
            None => first_pattern_from(patterns@, input@, 0) is None,
        },
{
    let mut i: usize = 0;
    while i < patterns.len()
        invariant
            i <= patterns@.len(),
            first_pattern_from(patterns@, input@, 0) == first_pattern_from(
                patterns@,
                input@,
                i as int,
            ),
        decreases patterns@.len() - i,
    {
        match patterns[i].match_and_extract(input) {
            Ok(m) => {
                return Some((i, m));
            },
            Err(_) => {},
        }
        i += 1;
    }
    None
}

} // verus!
