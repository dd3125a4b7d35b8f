//! The rewriter: the tax-split algorithm. For each configured marker it
//! collects the units of every posting carrying that marker segment, halves
//! and negates them, and appends one synthetic posting per collected amount
//! to the transaction. Existing postings are never removed or reordered.

use vstd::prelude::*;

use crate::account::{Account, AccountV};
use crate::amount::{spec_halve_negated, IncompleteAmountV};
use crate::model::{Meta, Posting, PostingV, Transaction, TransactionV};
use crate::select::account_has_segment;

verus! {

/// Mathematical model of a [`MarkerRule`].
#[verifier::ext_equal]
pub ghost struct MarkerRuleV {
    pub marker: Seq<char>,
    pub account: AccountV,
}

/// One entry of the rewrite configuration: postings whose account carries
/// the marker segment give rise to synthetic postings on the given account.
#[derive(Debug)]
pub struct MarkerRule {
    pub marker: String,
    pub account: Account,
}

impl View for MarkerRule {
    type V = MarkerRuleV;

    open spec fn view(&self) -> MarkerRuleV {
        MarkerRuleV { marker: self.marker@, account: self.account@ }
    }
}

impl DeepView for MarkerRule {
    type V = MarkerRuleV;

    open spec fn deep_view(&self) -> MarkerRuleV {
        self@
    }
}

impl MarkerRule {
    pub fn new(marker: String, account: Account) -> (r: MarkerRule)
        ensures
            r == (MarkerRule { marker, account }),
    {
        MarkerRule { marker, account }
    }
}

/// The posting's account carries the given marker segment.
pub open spec fn posting_has_marker(p: PostingV, marker: Seq<char>) -> bool {
    p.account.parts.contains(marker)
}

/// The synthetic posting derived from one collected amount: the rule's
/// account, the halved and negated units, and no cost, price, flag or
/// metadata.
pub open spec fn spec_derived_posting(account: AccountV, units: IncompleteAmountV) -> PostingV {
    PostingV {
        account,
        units: spec_halve_negated(units),
        cost: None,
        price: None,
        flag: None,
        meta: Seq::empty(),
    }
}

/// The synthetic postings one marker rule derives from a posting sequence,
/// in original encounter order.
pub open spec fn marker_postings(ps: Seq<PostingV>, rule: MarkerRuleV) -> Seq<PostingV>
    decreases ps.len(),
{
    if ps.len() == 0 {
        Seq::empty()
    } else {
        marker_postings(ps.drop_last(), rule) + (if posting_has_marker(ps.last(), rule.marker) {
            seq![spec_derived_posting(rule.account, ps.last().units)]
        } else {
            Seq::empty()
        })
    }
}

/// All synthetic postings of a configuration, rule by rule in the caller's
/// order, each rule's postings in original encounter order.
pub open spec fn derived_postings(ps: Seq<PostingV>, rules: Seq<MarkerRuleV>) -> Seq<PostingV>
    decreases rules.len(),
{
    if rules.len() == 0 {
        Seq::empty()
    } else {
        derived_postings(ps, rules.drop_last()) + marker_postings(ps, rules.last())
    }
}

/// Every posting that some rule's marker selects carries a halvable
/// quantity, so the split stays in the representable domain.
pub open spec fn rewrite_ready(ps: Seq<PostingV>, rules: Seq<MarkerRuleV>) -> bool {
    forall|i: int, j: int|
        0 <= i < ps.len() && 0 <= j < rules.len() && #[trigger] posting_has_marker(
            ps[i],
            rules[j].marker,
        ) ==> ps[i].units.halvable()
}

/// The rewritten transaction: the original one with all derived postings
/// appended, everything else unchanged.
pub open spec fn spec_rewrite(t: TransactionV, rules: Seq<MarkerRuleV>) -> TransactionV {
    TransactionV { postings: t.postings + derived_postings(t.postings, rules), ..t }
}

/// Append-only invariant: rewriting never shrinks the posting sequence, and
/// the original postings stand unchanged, in order and value, at its front.
pub proof fn lemma_rewrite_append_only(t: TransactionV, rules: Seq<MarkerRuleV>)
    ensures
        spec_rewrite(t, rules).postings.len() >= t.postings.len(),
        spec_rewrite(t, rules).postings.take(t.postings.len() as int) == t.postings,
{
    assert(spec_rewrite(t, rules).postings.take(t.postings.len() as int) =~= t.postings);
}

/// Apply the tax-split rewrite to a matched transaction: for each rule, in
/// the caller's order, append one synthetic posting per marked posting, in
/// original encounter order. Only appends occur; no balancing is checked.
pub fn rewrite(t: &mut Transaction, rules: &Vec<MarkerRule>)
    requires
        rewrite_ready(old(t)@.postings, rules.deep_view()),
    ensures
        final(t)@ == spec_rewrite(old(t)@, rules.deep_view()),
{
    let ghost orig: Seq<PostingV> = old(t)@.postings;
    let ghost rulesv: Seq<MarkerRuleV> = rules.deep_view();
    let orig_len = t.postings.len();
    let n_rules = rules.len();
    for r in 0..n_rules
        invariant
            n_rules == rules.len(),
            rulesv == rules.deep_view(),
            orig_len == orig.len(),
            rewrite_ready(orig, rulesv),
            t@.postings.take(orig_len as int) == orig,
            t@.postings == orig + derived_postings(orig, rulesv.take(r as int)),
            t@ == (TransactionV { postings: t@.postings, ..old(t)@ }),
            t.postings.len() >= orig_len,
    {
        proof {
            assert(rulesv[r as int] == rules@[r as int]@);
        }
        for j in 0..orig_len
            invariant
                n_rules == rules.len(),
                r < n_rules,
                rulesv == rules.deep_view(),
                rulesv[r as int] == rules@[r as int]@,
                orig_len == orig.len(),
                rewrite_ready(orig, rulesv),
                t@.postings.take(orig_len as int) == orig,
                t@.postings == orig + derived_postings(orig, rulesv.take(r as int))
                    + marker_postings(orig.take(j as int), rulesv[r as int]),
                t@ == (TransactionV { postings: t@.postings, ..old(t)@ }),
                t.postings.len() >= orig_len,
        {
            proof {
                assert(t@.postings[j as int] == t.postings@[j as int]@);
                assert(t@.postings.take(orig_len as int)[j as int] == t@.postings[j as int]);
                assert(t.postings@[j as int]@ == orig[j as int]);
            }
            let ghost rule: MarkerRuleV = rulesv[r as int];
            let marked = account_has_segment(&t.postings[j].account, &rules[r].marker);
            proof {
                assert(marked == posting_has_marker(orig[j as int], rule.marker));
                assert(orig.take(j + 1).drop_last() =~= orig.take(j as int));
                assert(orig.take(j + 1).last() == orig[j as int]);
            }
            if marked {
                proof {
                    assert(orig[j as int].units.halvable());
                }
                let units = crate::amount::halve_negated(&t.postings[j].units);
                let p = Posting {
                    account: rules[r].account.clone(),
                    units,
                    cost: None,
                    price: None,
                    flag: None,
                    meta: Meta::new(),
                };
                proof {
                    assert(p@ =~= spec_derived_posting(rule.account, orig[j as int].units));
                }
                let ghost before: Seq<PostingV> = t@.postings;
                t.postings.push(p);
                proof {
                    assert(t@.postings =~= before.push(p@));
                    assert(marker_postings(orig.take(j + 1), rule) == marker_postings(
                        orig.take(j as int),
                        rule,
                    ) + seq![spec_derived_posting(rule.account, orig[j as int].units)]);
                    assert(t@.postings =~= orig + derived_postings(orig, rulesv.take(r as int))
                        + marker_postings(orig.take(j + 1), rule));
                    assert(t@.postings.take(orig_len as int) =~= orig);
                }
            } else {
                proof {
                    assert(marker_postings(orig.take(j + 1), rule) =~= marker_postings(
                        orig.take(j as int),
                        rule,
                    ));
                }
            }
        }
        proof {
            assert(orig.take(orig_len as int) =~= orig);
            assert(rulesv.take(r + 1).drop_last() =~= rulesv.take(r as int));
            assert(rulesv.take(r + 1).last() == rulesv[r as int]);
            assert(t@.postings =~= orig + derived_postings(orig, rulesv.take(r + 1)));
        }
    }
    proof {
        assert(rulesv.take(n_rules as int) =~= rulesv);
        assert(t@ =~= spec_rewrite(old(t)@, rules.deep_view()));
    }
}

} // verus!
