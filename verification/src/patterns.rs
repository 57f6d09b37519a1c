//! The compiled pattern set.
//!
//! A [`PatternSet`] is an immutable collection of regular-expression
//! rules, compiled once at startup and shared read-only by every
//! concurrent match task. Its view is the sequence of pattern source
//! texts in declaration order. The regular-expression engine itself is
//! the `regex` crate; what a pattern means on a given text is named by
//! [`regex_match`], and everything the library proves about matching is
//! stated over that name.

use vstd::prelude::*;

verus! {

#[verifier::external_type_specification]
#[verifier::external_body]
pub struct ExRegexSet(regex::RegexSet);

/// The pattern texts a compiled `regex::RegexSet` was built from, in the
/// order they were given to the constructor.
pub uninterp spec fn rs_patterns(s: regex::RegexSet) -> Seq<Seq<char>>;

/// Whether the regular expression written as `pattern` finds a match
/// somewhere inside `text` (partial match, not anchored unless the
/// pattern text anchors itself).
pub uninterp spec fn regex_match(pattern: Seq<char>, text: Seq<char>) -> bool;

/// Whether this list of pattern texts compiles as one set.
pub uninterp spec fn regex_set_compiles(patterns: Seq<Seq<char>>) -> bool;

/// Whether this text is a syntactically valid pattern on its own.
pub uninterp spec fn regex_valid(pattern: Seq<char>) -> bool;

/// Relies on `regex::RegexSet::new`: compiling is deterministic in the
/// pattern list; a compiled set holds exactly the given patterns in the
/// given order (its `patterns()` slice is the constructor input); and
/// if any of the strings is not a valid regular expression, an error is
/// returned.
#[verifier::external_body]
fn regex_set_new(patterns: &Vec<String>) -> (r: Option<regex::RegexSet>)
    ensures
        r is Some <==> regex_set_compiles(patterns.deep_view()),
        r matches Some(s) ==> rs_patterns(s) == patterns.deep_view(),
        r is Some ==> forall|i: int|
            0 <= i < patterns.deep_view().len() ==> regex_valid(patterns.deep_view()[i]),
{
    regex::RegexSet::new(patterns).ok()
}

/// Relies on `regex::RegexSet::matches` and `regex::SetMatches::matched`:
/// whether pattern `i` matched depends only on that pattern's text and
/// the haystack, and indices correspond to declaration order.
#[verifier::external_body]
fn regex_set_matched_flags(s: &regex::RegexSet, text: &str) -> (r: Vec<bool>)
    ensures
        r@.len() == rs_patterns(*s).len(),
        forall|i: int|
            0 <= i < r@.len() ==> r@[i] == regex_match(rs_patterns(*s)[i], text@),
{
    let m = s.matches(text);
    let mut flags = Vec::with_capacity(s.len());
    for i in 0..s.len() {
        flags.push(m.matched(i));
    }
    flags
}

/// Why pattern compilation failed.
#[derive(Clone, Copy, Debug, PartialEq, Eq, Structural)]
pub enum CompileError {
    /// Some line of the pattern list is not a valid pattern; no partial
    /// set is produced.
    InvalidPattern,
}

/// An immutable, pre-compiled collection of textual patterns.
///
/// Its view is the sequence of pattern source texts in declaration
/// order. Construction is atomic: either every line compiles and the
/// whole set exists, or [`CompileError`] is returned and no set exists.
pub struct PatternSet {
    set: regex::RegexSet,
    sources: Vec<String>,
}

impl View for PatternSet {
    type V = Seq<Seq<char>>;

    closed spec fn view(&self) -> Seq<Seq<char>> {
        self.sources.deep_view()
    }
}

/// The subsequence of `patterns` (declaration order kept) whose rules
/// match `domain`.
pub open spec fn matching_patterns(patterns: Seq<Seq<char>>, domain: Seq<char>) -> Seq<Seq<char>>
    decreases patterns.len(),
{
    if patterns.len() == 0 {
        Seq::empty()
    } else {
        matching_patterns(patterns.drop_last(), domain) + (if regex_match(
            patterns.last(),
            domain,
        ) {
            seq![patterns.last()]
        } else {
            Seq::empty()
        })
    }
}

impl PatternSet {
    /// The engine's compiled set agrees with the recorded source texts.
    pub closed spec fn wf(&self) -> bool {
        rs_patterns(self.set) == self.sources.deep_view()
    }

    /// Compile every line into one set. Fails atomically: if any line
    /// is not a valid pattern the whole compilation fails and no
    /// partial set is produced.
    pub fn compile(lines: Vec<String>) -> (r: Result<PatternSet, CompileError>)
        ensures
            r is Ok <==> regex_set_compiles(lines.deep_view()),
            r matches Ok(ps) ==> ps.wf() && ps@ == lines.deep_view(),
            (exists|i: int|
                0 <= i < lines.deep_view().len() && !regex_valid(lines.deep_view()[i])) ==> r
                is Err,
    {
        match regex_set_new(&lines) {
            Some(set) => Ok(PatternSet { set, sources: lines }),
            None => Err(CompileError::InvalidPattern),
        }
    }

    /// How many patterns the set holds.
    pub fn len(&self) -> (n: usize)
        ensures
            n == self@.len(),
    {
        self.sources.len()
    }

    /// The source texts of every pattern that matches `domain`, in
    /// declaration order. Side-effect-free; an empty result means no
    /// pattern in the set matches.
    pub fn match_all(&self, domain: &str) -> (r: Vec<String>)
        requires
            self.wf(),
        ensures
            r.deep_view() == matching_patterns(self@, domain@),
    {
        let flags = regex_set_matched_flags(&self.set, domain);
        let mut out: Vec<String> = Vec::new();
        let mut i: usize = 0;
        while i < flags.len()
            invariant
                self.wf(),
                i <= flags.len(),
                flags@.len() == self@.len(),
                forall|j: int|
                    0 <= j < flags@.len() ==> flags@[j] == regex_match(self@[j], domain@),
                out.deep_view() == matching_patterns(self@.take(i as int), domain@),
            decreases flags.len() - i,
        {
            proof {
                let ps = self@;
                assert(ps.take(i + 1).drop_last() =~= ps.take(i as int));
                assert(ps.take(i + 1).last() == ps[i as int]);
            }
            let ghost prev = out.deep_view();
            if flags[i] {
                out.push(self.sources[i].clone());
                proof {
                    assert(out.deep_view() =~= prev.push(self@[i as int]));
                    assert(matching_patterns(self@.take(i + 1), domain@) =~= prev.push(
                        self@[i as int],
                    ));
                }
            } else {
                proof {
                    assert(matching_patterns(self@.take(i + 1), domain@) =~= prev);
                }
            }
            i += 1;
        }
        proof {
            assert(self@.take(flags@.len() as int) =~= self@);
        }
        out
    }
}

/// Every pattern reported as matching really does match and comes from
/// the set.
proof fn lemma_matching_patterns_sound(patterns: Seq<Seq<char>>, domain: Seq<char>)
    ensures
        forall|j: int|
            0 <= j < matching_patterns(patterns, domain).len() ==> regex_match(
                #[trigger] matching_patterns(patterns, domain)[j],
                domain,
            ) && patterns.contains(matching_patterns(patterns, domain)[j]),
    decreases patterns.len(),
{
    if patterns.len() > 0 {
        let dl = patterns.drop_last();
        lemma_matching_patterns_sound(dl, domain);
        assert forall|j: int|
            0 <= j < matching_patterns(patterns, domain).len() implies regex_match(
            #[trigger] matching_patterns(patterns, domain)[j],
            domain,
        ) && patterns.contains(matching_patterns(patterns, domain)[j]) by {
            let m = matching_patterns(patterns, domain);
            let md = matching_patterns(dl, domain);
            if j < md.len() {
                assert(m[j] == md[j]);
                let w = choose|i: int| 0 <= i < dl.len() && dl[i] == md[j];
                assert(patterns[w] == m[j]);
            } else {
                assert(m[j] == patterns.last());
                assert(patterns[patterns.len() - 1] == m[j]);
            }
        }
    }
}

/// Every pattern of the set that matches is reported.
proof fn lemma_matching_patterns_complete(patterns: Seq<Seq<char>>, domain: Seq<char>)
    ensures
        forall|i: int|
            0 <= i < patterns.len() && regex_match(#[trigger] patterns[i], domain)
                ==> matching_patterns(patterns, domain).contains(patterns[i]),
    decreases patterns.len(),
{
    if patterns.len() > 0 {
        let dl = patterns.drop_last();
        lemma_matching_patterns_complete(dl, domain);
        assert forall|i: int|
            0 <= i < patterns.len() && regex_match(#[trigger] patterns[i], domain)
                implies matching_patterns(patterns, domain).contains(patterns[i]) by {
            let m = matching_patterns(patterns, domain);
            let md = matching_patterns(dl, domain);
            if i < patterns.len() - 1 {
                assert(dl[i] == patterns[i]);
                let w = choose|k: int| 0 <= k < md.len() && md[k] == dl[i];
                assert(m[w] == patterns[i]);
            } else {
                assert(m[md.len() as int] == patterns.last());
            }
        }
    }
}

/// Law: `match_all` returns exactly the subset of the pattern set whose
/// rule is satisfied by the domain — every reported pattern belongs to
/// the set and matches, every matching pattern of the set is reported —
/// and an empty result means no pattern in the set matches the domain.
pub proof fn lemma_match_all_exact(patterns: Seq<Seq<char>>, domain: Seq<char>)
    ensures
        forall|p: Seq<char>|
            #[trigger] matching_patterns(patterns, domain).contains(p) <==> (patterns.contains(p)
                && regex_match(p, domain)),
        matching_patterns(patterns, domain).len() == 0 ==> forall|i: int|
            0 <= i < patterns.len() ==> !regex_match(#[trigger] patterns[i], domain),
{
    lemma_matching_patterns_sound(patterns, domain);
    lemma_matching_patterns_complete(patterns, domain);
    assert forall|p: Seq<char>| #[trigger]
        matching_patterns(patterns, domain).contains(p) implies (patterns.contains(p)
        && regex_match(p, domain)) by {
        let m = matching_patterns(patterns, domain);
        let j = choose|j: int| 0 <= j < m.len() && m[j] == p;
        assert(regex_match(m[j], domain));
    }
    assert forall|p: Seq<char>|
        patterns.contains(p) && regex_match(p, domain) implies #[trigger] matching_patterns(
        patterns,
        domain,
    ).contains(p) by {
        let i = choose|i: int| 0 <= i < patterns.len() && patterns[i] == p;
        assert(regex_match(patterns[i], domain));
    }
    if matching_patterns(patterns, domain).len() == 0 {
        assert forall|i: int| 0 <= i < patterns.len() implies !regex_match(
            #[trigger] patterns[i],
            domain,
        ) by {
            if regex_match(patterns[i], domain) {
                assert(patterns.contains(patterns[i]));
                assert(matching_patterns(patterns, domain).contains(patterns[i]));
            }
        }
    }
}

} // verus!
