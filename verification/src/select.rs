//! The selector: a pure predicate deciding which directives the rewrite
//! pipeline touches.

use vstd::prelude::*;

use crate::account::{Account, AccountType};
use crate::date::{date_lt, lemma_date_lt_transitive, Date};
use crate::model::{Directive, DirectiveV, Posting, PostingV, TransactionV};

verus! {

/// The posting's account is of type `Income` and one of its segments equals
/// one of the configured markers (exact string match against a segment).
pub open spec fn posting_marked(p: PostingV, markers: Seq<Seq<char>>) -> bool {
    p.account.ty == AccountType::Income && exists|j: int|
        0 <= j < markers.len() && #[trigger] p.account.parts.contains(markers[j])
}

/// A transaction matches iff its date is strictly after the reference date
/// and at least one of its postings is marked.
pub open spec fn transaction_matches(t: TransactionV, reference: Date, markers: Seq<Seq<char>>) -> bool {
    date_lt(reference, t.date) && exists|i: int|
        0 <= i < t.postings.len() && #[trigger] posting_marked(t.postings[i], markers)
}

/// Only `Transaction` directives can match; every other directive kind is
/// rejected.
pub open spec fn directive_matches(d: DirectiveV, reference: Date, markers: Seq<Seq<char>>) -> bool {
    match d {
        DirectiveV::Transaction(t) => transaction_matches(t, reference, markers),
        DirectiveV::Other => false,
    }
}

/// One account segment equals the given marker.
pub fn account_has_segment(a: &Account, marker: &String) -> (r: bool)
    ensures
        r == a@.parts.contains(marker@),
{
    let n = a.parts.len();
    for j in 0..n
        invariant
            n == a.parts.len(),
            forall|k: int| 0 <= k < j ==> a@.parts[k] != marker@,
    {
        proof {
            assert(a@.parts[j as int] == a.parts@[j as int]@);
        }
        if a.parts[j].eq(marker) {
            return true;
        }
    }
    proof {
        assert(forall|k: int| 0 <= k < a@.parts.len() ==> a@.parts[k] != marker@);
    }
    false
}

/// The filter predicate of the pipeline: a reference date and the set of
/// account segment markers of interest.
#[derive(Debug)]
pub struct Selector {
    pub reference: Date,
    pub markers: Vec<String>,
}

impl Selector {
    pub fn new(reference: Date, markers: Vec<String>) -> (r: Selector)
        ensures
            r == (Selector { reference, markers }),
    {
        Selector { reference, markers }
    }

    /// Whether one posting is marked: its account has type `Income` and
    /// carries one of the configured marker segments.
    pub fn posting_is_marked(&self, p: &Posting) -> (r: bool)
        ensures
            r == posting_marked(p@, self.markers.deep_view()),
    {
        if !matches!(p.account.ty, AccountType::Income) {
            return false;
        }
        let n = self.markers.len();
        for j in 0..n
            invariant
                n == self.markers.len(),
                p@.account.ty == AccountType::Income,
                forall|k: int|
                    0 <= k < j ==> !p@.account.parts.contains(#[trigger] self.markers.deep_view()[k]),
        {
            proof {
                assert(self.markers.deep_view()[j as int] == self.markers@[j as int]@);
            }
            if account_has_segment(&p.account, &self.markers[j]) {
                proof {
                    assert(p@.account.parts.contains(self.markers.deep_view()[j as int]));
                }
                return true;
            }
        }
        false
    }

    /// The selector predicate: pure and total, it never mutates the ledger.
    /// Only a `Transaction` directive dated strictly after the reference
    /// date, with at least one marked posting, matches.
    pub fn matches(&self, d: &Directive) -> (r: bool)
        ensures
            r == directive_matches(d@, self.reference, self.markers.deep_view()),
    {
        match d {
            Directive::Transaction(t) => {
                if !t.date.is_after(&self.reference) {
                    return false;
                }
                let n = t.postings.len();
                for i in 0..n
                    invariant
                        n == t.postings.len(),
                        d@ == DirectiveV::Transaction(t@),
                        date_lt(self.reference, t@.date),
                        forall|k: int|
                            0 <= k < i ==> !posting_marked(
                                #[trigger] t.postings.deep_view()[k],
                                self.markers.deep_view(),
                            ),
                {
                    proof {
                        assert(t.postings.deep_view()[i as int] == t.postings@[i as int]@);
                    }
                    if self.posting_is_marked(&t.postings[i]) {
                        proof {
                            assert(posting_marked(
                                t@.postings[i as int],
                                self.markers.deep_view(),
                            ));
                            assert(transaction_matches(
                                t@,
                                self.reference,
                                self.markers.deep_view(),
                            ));
                            assert(d@ == DirectiveV::Transaction(t@));
                        }
                        return true;
                    }
                }
                false
            },
            Directive::Other => false,
        }
    }
}

/// Selector monotonicity: a directive that matches at a later reference date
/// also matches at any earlier one.
pub proof fn lemma_selector_monotonic(
    d: DirectiveV,
    r1: Date,
    r2: Date,
    markers: Seq<Seq<char>>,
)
    requires
        date_lt(r1, r2),
        directive_matches(d, r2, markers),
    ensures
        directive_matches(d, r1, markers),
{
    match d {
        DirectiveV::Transaction(t) => {
            lemma_date_lt_transitive(r1, r2, t.date);
        },
        DirectiveV::Other => {},
    }
}

/// Selector exclusivity: no non-`Transaction` directive ever matches, for
/// any reference date or marker set.
pub proof fn lemma_selector_exclusive(d: DirectiveV, reference: Date, markers: Seq<Seq<char>>)
    requires
        !(d is Transaction),
    ensures
        !directive_matches(d, reference, markers),
{
}

} // verus!
