//! Matching one certificate event against the pattern set.
//!
//! For every domain the event covers, the matcher asks the pattern set
//! which rules match; a domain with at least one matching rule yields
//! one [`MatchResult`], a domain with none yields nothing. The
//! operation is pure and is the unit of work parallelized across
//! messages.

use crate::extract::CertificateEvent;
use crate::patterns::matching_patterns;
use crate::patterns::PatternSet;
use vstd::prelude::*;

verus! {

/// One domain together with the non-empty set of pattern source texts
/// that match it. Produced once per domain with at least one match and
/// consumed immediately by the notifier.
#[derive(Clone, Debug, PartialEq, Eq)]
pub struct MatchResult {
    /// The matched domain, verbatim.
    pub domain: String,
    /// The source texts of every matching pattern, in declaration
    /// order; never empty.
    pub patterns: Vec<String>,
}

/// The view of a match result.
pub ghost struct MatchResultModel {
    pub domain: Seq<char>,
    pub patterns: Seq<Seq<char>>,
}

impl View for MatchResult {
    type V = MatchResultModel;

    open spec fn view(&self) -> MatchResultModel {
        MatchResultModel { domain: self.domain@, patterns: self.patterns.deep_view() }
    }
}

impl DeepView for MatchResult {
    type V = MatchResultModel;

    open spec fn deep_view(&self) -> MatchResultModel {
        self.view()
    }
}

/// The match results of an ordered domain list against a pattern list:
/// one result per domain with at least one matching pattern, in domain
/// order, each carrying the matching patterns in declaration order.
pub open spec fn evaluate_spec(domains: Seq<Seq<char>>, patterns: Seq<Seq<char>>) -> Seq<
    MatchResultModel,
>
    decreases domains.len(),
{
    if domains.len() == 0 {
        Seq::empty()
    } else {
        evaluate_spec(domains.drop_last(), patterns) + (if matching_patterns(
            patterns,
            domains.last(),
        ).len() > 0 {
            seq![
                MatchResultModel {
                    domain: domains.last(),
                    patterns: matching_patterns(patterns, domains.last()),
                },
            ]
        } else {
            Seq::empty()
        })
    }
}

/// Match every domain of the event against the pattern set. Domains
/// with no matching pattern produce nothing; the result may be empty.
/// Every produced result carries at least one pattern.
pub fn evaluate(event: &CertificateEvent, patterns: &PatternSet) -> (r: Vec<MatchResult>)
    requires
        patterns.wf(),
    ensures
        r.deep_view() == evaluate_spec(event@, patterns@),
        forall|k: int| 0 <= k < r.deep_view().len() ==> r.deep_view()[k].patterns.len() > 0,
{
    let mut out: Vec<MatchResult> = Vec::new();
    let mut i: usize = 0;
    while i < event.domains.len()
        invariant
            patterns.wf(),
            i <= event.domains@.len(),
            out.deep_view() == evaluate_spec(event@.take(i as int), patterns@),
            forall|k: int| 0 <= k < out.deep_view().len() ==> out.deep_view()[k].patterns.len()
                > 0,
        decreases event.domains@.len() - i,
    {
        proof {
            assert(event@.take(i + 1).drop_last() =~= event@.take(i as int));
            assert(event@.take(i + 1).last() == event@[i as int]);
        }
        let ghost prev = out.deep_view();
        let matched = patterns.match_all(event.domains[i].as_str());
        if matched.len() > 0 {
            out.push(MatchResult { domain: event.domains[i].clone(), patterns: matched });
            proof {
                assert(out.deep_view() =~= prev.push(
                    MatchResultModel {
                        domain: event@[i as int],
                        patterns: matching_patterns(patterns@, event@[i as int]),
                    },
                ));
                assert(evaluate_spec(event@.take(i + 1), patterns@) =~= prev.push(
                    MatchResultModel {
                        domain: event@[i as int],
                        patterns: matching_patterns(patterns@, event@[i as int]),
                    },
                ));
            }
        } else {
            proof {
                assert(evaluate_spec(event@.take(i + 1), patterns@) =~= prev);
            }
        }
        i += 1;
    }
    proof {
        assert(event@.take(event.domains@.len() as int) =~= event@);
    }
    out
}

/// Law: one event yields at most one match result per domain it
/// contains — never more results than domains.
pub proof fn lemma_at_most_one_result_per_domain(
    domains: Seq<Seq<char>>,
    patterns: Seq<Seq<char>>,
)
    ensures
        evaluate_spec(domains, patterns).len() <= domains.len(),
    decreases domains.len(),
{
    if domains.len() > 0 {
        lemma_at_most_one_result_per_domain(domains.drop_last(), patterns);
    }
}

} // verus!
