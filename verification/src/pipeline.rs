//! The whole pipeline: filter the ledger's directives with the selector,
//! rewrite each matched transaction, and render it. Directives that do not
//! match contribute nothing to the output and pass through untouched.

use vstd::prelude::*;

use crate::amount::lemma_halve_preserves_wf;
use crate::date::Date;
use crate::model::{Directive, DirectiveV, Ledger, PostingV, TransactionV};
use crate::render::{render_transaction, spec_render_transaction};
use crate::rewrite::{
    derived_postings, marker_postings, posting_has_marker, rewrite, rewrite_ready, spec_rewrite,
    MarkerRule, MarkerRuleV,
};
use crate::select::{directive_matches, Selector};

verus! {

/// The marker segments of a configuration, in rule order.
pub open spec fn markers_of(rules: Seq<MarkerRuleV>) -> Seq<Seq<char>> {
    rules.map_values(|r: MarkerRuleV| r.marker)
}

/// The lines one directive contributes to the output: the rendered block of
/// the rewritten transaction when the directive matches, nothing otherwise.
pub open spec fn spec_directive_lines(
    d: DirectiveV,
    reference: Date,
    rules: Seq<MarkerRuleV>,
) -> Seq<Seq<char>> {
    if directive_matches(d, reference, markers_of(rules)) {
        match d {
            DirectiveV::Transaction(t) => spec_render_transaction(spec_rewrite(t, rules)),
            DirectiveV::Other => Seq::empty(),
        }
    } else {
        Seq::empty()
    }
}

/// The lines the whole pipeline emits, directive by directive in ledger
/// order.
pub open spec fn spec_pipeline(
    ds: Seq<DirectiveV>,
    reference: Date,
    rules: Seq<MarkerRuleV>,
) -> Seq<Seq<char>>
    decreases ds.len(),
{
    if ds.len() == 0 {
        Seq::empty()
    } else {
        spec_directive_lines(ds[0], reference, rules) + spec_pipeline(
            ds.drop_first(),
            reference,
            rules,
        )
    }
}

/// A directive the pipeline can process: if it matches, its postings can be
/// halved and rendered within the representable domain.
pub open spec fn directive_ready(d: DirectiveV, reference: Date, rules: Seq<MarkerRuleV>) -> bool {
    directive_matches(d, reference, markers_of(rules)) ==> match d {
        DirectiveV::Transaction(t) => rewrite_ready(t.postings, rules) && t.renderable(),
        DirectiveV::Other => true,
    }
}

/// Every directive of the sequence is ready for the pipeline.
pub open spec fn pipeline_ready(ds: Seq<DirectiveV>, reference: Date, rules: Seq<MarkerRuleV>) -> bool {
    forall|i: int| 0 <= i < ds.len() ==> #[trigger] directive_ready(ds[i], reference, rules)
}

/// All postings a marker rule derives from halvable postings are
/// renderable.
proof fn lemma_marker_postings_renderable(ps: Seq<PostingV>, rule: MarkerRuleV)
    requires
        forall|i: int|
            0 <= i < ps.len() && #[trigger] posting_has_marker(ps[i], rule.marker) ==> ps[i].units.halvable(),
    ensures
        forall|k: int|
            0 <= k < marker_postings(ps, rule).len() ==> (#[trigger] marker_postings(ps, rule)[k]).units.renderable(),
    decreases ps.len(),
{
    if ps.len() > 0 {
        lemma_marker_postings_renderable(ps.drop_last(), rule);
        if posting_has_marker(ps.last(), rule.marker) {
            match ps.last().units.num {
                Some(d) => {
                    lemma_halve_preserves_wf(d);
                },
                None => {},
            }
        }
    }
}

/// All postings a configuration derives from halvable postings are
/// renderable.
proof fn lemma_derived_postings_renderable(ps: Seq<PostingV>, rules: Seq<MarkerRuleV>)
    requires
        rewrite_ready(ps, rules),
    ensures
        forall|k: int|
            0 <= k < derived_postings(ps, rules).len() ==> (#[trigger] derived_postings(
                ps,
                rules,
            )[k]).units.renderable(),
    decreases rules.len(),
{
    if rules.len() > 0 {
        assert(rewrite_ready(ps, rules.drop_last()));
        lemma_derived_postings_renderable(ps, rules.drop_last());
        lemma_marker_postings_renderable(ps, rules.last());
    }
}

/// A renderable transaction stays renderable through the rewrite.
proof fn lemma_rewrite_renderable(t: TransactionV, rules: Seq<MarkerRuleV>)
    requires
        rewrite_ready(t.postings, rules),
        t.renderable(),
    ensures
        spec_rewrite(t, rules).renderable(),
{
    lemma_derived_postings_renderable(t.postings, rules);
}

/// Extract the marker segments of the configuration, in rule order.
pub fn collect_markers(rules: &Vec<MarkerRule>) -> (r: Vec<String>)
    ensures
        r.deep_view() == markers_of(rules.deep_view()),
{
    let mut r: Vec<String> = Vec::new();
    let n = rules.len();
    for i in 0..n
        invariant
            n == rules.len(),
            r.len() == i,
            forall|k: int| 0 <= k < i ==> r.deep_view()[k] == markers_of(rules.deep_view())[k],
    {
        let ghost before: Seq<Seq<char>> = r.deep_view();
        r.push(rules[i].marker.clone());
        proof {
            assert(rules.deep_view()[i as int] == rules@[i as int]@);
            assert(r.deep_view() =~= before.push(rules@[i as int].marker@));
            assert(markers_of(rules.deep_view())[i as int] == rules.deep_view()[i as int].marker);
        }
    }
    proof {
        assert(r.deep_view() =~= markers_of(rules.deep_view()));
    }
    r
}

/// Run the pipeline over a ledger: select the transactions dated strictly
/// after the reference date that carry a configured marker, rewrite each by
/// appending its derived postings, and render each rewritten transaction as
/// a block of lines, in ledger order.
pub fn process_ledger(ledger: Ledger, reference: Date, rules: &Vec<MarkerRule>) -> (r: Vec<String>)
    requires
        pipeline_ready(ledger@, reference, rules.deep_view()),
    ensures
        r.deep_view() == spec_pipeline(ledger@, reference, rules.deep_view()),
{
    let ghost all: Seq<DirectiveV> = ledger@;
    let ghost rulesv: Seq<MarkerRuleV> = rules.deep_view();
    let markers = collect_markers(rules);
    let selector = Selector { reference, markers };
    let mut out: Vec<String> = Vec::new();
    let mut ds: Vec<Directive> = ledger.directives;
    while ds.len() > 0
        invariant
            rulesv == rules.deep_view(),
            selector.reference == reference,
            selector.markers.deep_view() == markers_of(rulesv),
            pipeline_ready(ds.deep_view(), reference, rulesv),
            out.deep_view() + spec_pipeline(ds.deep_view(), reference, rulesv) == spec_pipeline(
                all,
                reference,
                rulesv,
            ),
        decreases ds.len(),
    {
        let ghost dsv: Seq<DirectiveV> = ds.deep_view();
        let matched = selector.matches(&ds[0]);
        let d = ds.remove(0);
        proof {
            assert(ds.deep_view() =~= dsv.drop_first());
            assert(d@ == dsv[0]);
            assert(directive_ready(dsv[0], reference, rulesv));
            assert forall|i: int| 0 <= i < ds.deep_view().len() implies #[trigger] directive_ready(
                ds.deep_view()[i],
                reference,
                rulesv,
            ) by {
                assert(ds.deep_view()[i] == dsv[i + 1]);
                assert(directive_ready(dsv[i + 1], reference, rulesv));
            }
        }
        if matched {
            match d {
                Directive::Transaction(mut t) => {
                    proof {
                        lemma_rewrite_renderable(t@, rulesv);
                    }
                    rewrite(&mut t, rules);
                    let mut lines = render_transaction(&t);
                    let ghost out_before: Seq<Seq<char>> = out.deep_view();
                    out.append(&mut lines);
                    proof {
                        assert(out.deep_view() =~= out_before + spec_directive_lines(
                            dsv[0],
                            reference,
                            rulesv,
                        ));
                        assert(out.deep_view() + spec_pipeline(ds.deep_view(), reference, rulesv)
                            =~= spec_pipeline(all, reference, rulesv));
                    }
                },
                Directive::Other => {
                    proof {
                        assert(false);
                    }
                },
            }
        } else {
            proof {
                assert(spec_directive_lines(dsv[0], reference, rulesv) =~= Seq::<Seq<char>>::empty());
                assert(out.deep_view() + spec_pipeline(ds.deep_view(), reference, rulesv)
                    =~= spec_pipeline(all, reference, rulesv));
            }
        }
    }
    proof {
        assert(ds.deep_view().len() == 0);
        assert(spec_pipeline(ds.deep_view(), reference, rulesv) =~= Seq::<Seq<char>>::empty());
        assert(out.deep_view() =~= spec_pipeline(all, reference, rulesv));
    }
    out
}

} // verus!
