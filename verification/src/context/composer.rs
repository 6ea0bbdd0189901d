//! Composes the system prompt from prompt sections.
use vstd::prelude::*;
use crate::context::error::{outcome_view, ContextError, ContextErrorView};
use crate::context::section::{PromptSection, PromptSectionContext};
use crate::text::{join, joined, trim, trimmed};

verus! {

/// Section `i` comes before section `j`: lower order first, and between
/// equal orders the one given first.
pub open spec fn comes_before(secs: Seq<Box<dyn PromptSection>>, i: int, j: int) -> bool {
    ||| secs[i].spec_order() < secs[j].spec_order()
    ||| (secs[i].spec_order() == secs[j].spec_order() && i < j)
}

/// `ord` lists every enabled section exactly once, each in its place: by
/// ascending order, and in the given order among equals (a stable sort).
pub open spec fn is_build_order(secs: Seq<Box<dyn PromptSection>>, ctx: &PromptSectionContext, ord: Seq<int>) -> bool {
    &&& forall|p: int| 0 <= p < ord.len() ==> 0 <= #[trigger] ord[p] < secs.len() && secs[ord[p]].spec_enabled(ctx)
    &&& forall|i: int| 0 <= i < secs.len() && #[trigger] secs[i].spec_enabled(ctx) ==> ord.contains(i)
    &&& forall|p: int, q: int| 0 <= p < q < ord.len() ==> comes_before(secs, #[trigger] ord[p], #[trigger] ord[q])
}

/// What building the sections in `ord` gives, one outcome per section.
pub open spec fn build_outcomes(secs: Seq<Box<dyn PromptSection>>, ctx: &PromptSectionContext, ord: Seq<int>) -> Seq<
    Result<Seq<char>, ContextErrorView>,
> {
    ord.map_values(|i: int| secs[i].spec_build(ctx))
}

/// The first failure among `outs`, or else their trimmed texts with the
/// blank ones left out.
pub open spec fn gathered(outs: Seq<Result<Seq<char>, ContextErrorView>>) -> Result<Seq<Seq<char>>, ContextErrorView>
    decreases outs.len(),
{
    if outs.len() == 0 {
        Ok(Seq::empty())
    } else {
        match gathered(outs.drop_last()) {
            Err(e) => Err(e),
            Ok(parts) => match outs.last() {
                Err(e) => Err(e),
                Ok(s) => Ok(
                    if trimmed(s).len() == 0 {
                        parts
                    } else {
                        parts.push(trimmed(s))
                    },
                ),
            },
        }
    }
}

/// The system prompt the sections in `ord` make: their non-blank texts,
/// trimmed, separated by a blank line; or the first failure.
pub open spec fn composed(secs: Seq<Box<dyn PromptSection>>, ctx: &PromptSectionContext, ord: Seq<int>) -> Result<
    Seq<char>,
    ContextErrorView,
> {
    match gathered(build_outcomes(secs, ctx, ord)) {
        Ok(parts) => Ok(joined(parts, "\n\n"@)),
        Err(e) => Err(e),
    }
}

/// The system prompt these sections make for this context.
pub open spec fn composed_prompt(secs: Seq<Box<dyn PromptSection>>, ctx: &PromptSectionContext) -> Result<
    Seq<char>,
    ContextErrorView,
> {
    composed(secs, ctx, choose|ord: Seq<int>| is_build_order(secs, ctx, ord))
}

/// A failure in a prefix is the failure of the whole.
proof fn lemma_gathered_keeps_error(outs: Seq<Result<Seq<char>, ContextErrorView>>, k: int)
    requires
        0 <= k <= outs.len(),
        gathered(outs.take(k)) is Err,
    ensures
        gathered(outs) == gathered(outs.take(k)),
    decreases outs.len() - k,
{
    if k < outs.len() {
        assert(outs.take(k + 1).drop_last() =~= outs.take(k));
        lemma_gathered_keeps_error(outs, k + 1);
    } else {
        assert(outs.take(k) =~= outs);
    }
}

/// There is only one build order for a set of sections.
pub proof fn lemma_build_order_unique(
    secs: Seq<Box<dyn PromptSection>>,
    ctx: &PromptSectionContext,
    a: Seq<int>,
    b: Seq<int>,
)
    requires
        is_build_order(secs, ctx, a),
        is_build_order(secs, ctx, b),
    ensures
        a == b,
    decreases a.len() + b.len(),
{
    if a.len() == 0 || b.len() == 0 {
        if a.len() > 0 {
            assert(b.contains(a[0]));
        }
        if b.len() > 0 {
            assert(a.contains(b[0]));
        }
        assert(a =~= b);
    } else {
        // Both start with the first section in the order.
        let x = a[0];
        let y = b[0];
        assert(b.contains(x));
        assert(a.contains(y));
        let px = choose|p: int| 0 <= p < b.len() && b[p] == x;
        let py = choose|p: int| 0 <= p < a.len() && a[p] == y;
        if x != y {
            assert(px > 0);
            assert(py > 0);
            assert(comes_before(secs, b[0], b[px]));
            assert(comes_before(secs, a[0], a[py]));
            assert(false);
        }
        // The rests are build orders of the same sections minus the first.
        let a1 = a.drop_first();
        let b1 = b.drop_first();
        lemma_tail_orders_match(secs, ctx, a, b);
        assert(a =~= seq![x] + a1);
        assert(b =~= seq![y] + b1);
    }
}

/// Two build orders that start alike continue alike.
proof fn lemma_tail_orders_match(
    secs: Seq<Box<dyn PromptSection>>,
    ctx: &PromptSectionContext,
    a: Seq<int>,
    b: Seq<int>,
)
    requires
        is_build_order(secs, ctx, a),
        is_build_order(secs, ctx, b),
        a.len() > 0,
        b.len() > 0,
        a[0] == b[0],
    ensures
        a.drop_first() == b.drop_first(),
    decreases a.len() + b.len(),
{
    let a1 = a.drop_first();
    let b1 = b.drop_first();
    let x = a[0];
    // Every element of a1 is an enabled section other than x, and so of b1.
    assert forall|p: int| 0 <= p < a1.len() implies b1.contains(#[trigger] a1[p]) by {
        assert(a1[p] == a[p + 1]);
        assert(comes_before(secs, a[0], a[p + 1]));
        assert(b.contains(a[p + 1]));
        let q = choose|q: int| 0 <= q < b.len() && b[q] == a[p + 1];
        assert(q != 0);
        assert(b1[q - 1] == b[q]);
    }
    assert forall|p: int| 0 <= p < b1.len() implies a1.contains(#[trigger] b1[p]) by {
        assert(b1[p] == b[p + 1]);
        assert(comes_before(secs, b[0], b[p + 1]));
        assert(a.contains(b[p + 1]));
        let q = choose|q: int| 0 <= q < a.len() && a[q] == b[p + 1];
        assert(q != 0);
        assert(a1[q - 1] == a[q]);
    }
    lemma_sorted_same_members(secs, a1, b1);
}

/// Two sequences strictly increasing in the `comes_before` order with the
/// same members are equal.
proof fn lemma_sorted_same_members(secs: Seq<Box<dyn PromptSection>>, a: Seq<int>, b: Seq<int>)
    requires
        forall|p: int, q: int| 0 <= p < q < a.len() ==> comes_before(secs, #[trigger] a[p], #[trigger] a[q]),
        forall|p: int, q: int| 0 <= p < q < b.len() ==> comes_before(secs, #[trigger] b[p], #[trigger] b[q]),
        forall|p: int| 0 <= p < a.len() ==> b.contains(#[trigger] a[p]),
        forall|p: int| 0 <= p < b.len() ==> a.contains(#[trigger] b[p]),
    ensures
        a == b,
    decreases a.len() + b.len(),
{
    if a.len() == 0 || b.len() == 0 {
        if a.len() > 0 {
            assert(b.contains(a[0]));
        }
        if b.len() > 0 {
            assert(a.contains(b[0]));
        }
        assert(a =~= b);
    } else {
        let x = a[0];
        let y = b[0];
        assert(b.contains(x));
        assert(a.contains(y));
        let px = choose|p: int| 0 <= p < b.len() && b[p] == x;
        let py = choose|p: int| 0 <= p < a.len() && a[p] == y;
        if x != y {
            assert(px > 0);
            assert(py > 0);
            assert(comes_before(secs, b[0], b[px]));
            assert(comes_before(secs, a[0], a[py]));
            assert(false);
        }
        let a1 = a.drop_first();
        let b1 = b.drop_first();
        assert forall|p: int| 0 <= p < a1.len() implies b1.contains(#[trigger] a1[p]) by {
            assert(a1[p] == a[p + 1]);
            assert(comes_before(secs, a[0], a[p + 1]));
            assert(b.contains(a[p + 1]));
            let q = choose|q: int| 0 <= q < b.len() && b[q] == a[p + 1];
            assert(q != 0);
            assert(b1[q - 1] == b[q]);
        }
        assert forall|p: int| 0 <= p < b1.len() implies a1.contains(#[trigger] b1[p]) by {
            assert(b1[p] == b[p + 1]);
            assert(comes_before(secs, b[0], b[p + 1]));
            assert(a.contains(b[p + 1]));
            let q = choose|q: int| 0 <= q < a.len() && a[q] == b[p + 1];
            assert(q != 0);
            assert(a1[q - 1] == a[q]);
        }
        assert forall|p: int, q: int| 0 <= p < q < a1.len() implies comes_before(
            secs,
            #[trigger] a1[p],
            #[trigger] a1[q],
        ) by {
            assert(a1[p] == a[p + 1] && a1[q] == a[q + 1]);
        }
        assert forall|p: int, q: int| 0 <= p < q < b1.len() implies comes_before(
            secs,
            #[trigger] b1[p],
            #[trigger] b1[q],
        ) by {
            assert(b1[p] == b[p + 1] && b1[q] == b[q + 1]);
        }
        lemma_sorted_same_members(secs, a1, b1);
        assert(a =~= seq![x] + a1);
        assert(b =~= seq![y] + b1);
    }
}

/// Builds the system prompt from an ordered set of sections.
pub struct SystemPromptComposer {
    sections: Vec<Box<dyn PromptSection>>,
}

impl SystemPromptComposer {
    pub closed spec fn sections(&self) -> Seq<Box<dyn PromptSection>> {
        self.sections@
    }

    pub fn new(sections: Vec<Box<dyn PromptSection>>) -> (r: Self)
        ensures
            r.sections() == sections@,
    {
        SystemPromptComposer { sections }
    }

    /// Builds the enabled sections by ascending order (stable among equal
    /// orders), trims each text, leaves out the blank ones and joins the rest
    /// with a blank line; the first failing section's error is returned.
    pub fn compose(&self, ctx: &PromptSectionContext) -> (r: Result<String, ContextError>)
        ensures
            outcome_view(r) == composed_prompt(self.sections(), ctx),
            // It fails only when an enabled section fails.
            (forall|i: int|
                0 <= i < self.sections().len() && #[trigger] self.sections()[i].spec_enabled(ctx) ==> self.sections()[i].spec_build(
                    ctx,
                ) is Ok) ==> r is Ok,
    {
        let ghost secs = self.sections@;
        let n = self.sections.len();
        // Enabled sections as (order, position), kept strictly increasing.
        let mut sorted: Vec<(u16, usize)> = Vec::new();
        let mut i: usize = 0;
        while i < n
            invariant
                n == secs.len(),
                secs == self.sections@,
                i <= n,
                forall|p: int|
                    0 <= p < sorted@.len() ==> (#[trigger] sorted@[p]).1 < i && secs[sorted@[p].1 as int].spec_enabled(
                        ctx,
                    ) && sorted@[p].0 == secs[sorted@[p].1 as int].spec_order(),
                forall|p: int, q: int|
                    0 <= p < q < sorted@.len() ==> comes_before(
                        secs,
                        (#[trigger] sorted@[p]).1 as int,
                        (#[trigger] sorted@[q]).1 as int,
                    ),
                forall|j: int|
                    0 <= j < i && #[trigger] secs[j].spec_enabled(ctx) ==> exists|p: int|
                        0 <= p < sorted@.len() && sorted@[p].1 == j,
            decreases n - i,
        {
            if self.sections[i].enabled(ctx) {
                let k = self.sections[i].order();
                let mut pos: usize = 0;
                while pos < sorted.len() && sorted[pos].0 <= k
                    invariant
                        pos <= sorted@.len(),
                        forall|q: int| 0 <= q < pos ==> (#[trigger] sorted@[q]).0 <= k,
                    decreases sorted@.len() - pos,
                {
                    pos = pos + 1;
                }
                let ghost before = sorted@;
                sorted.insert(pos, (k, i));
                proof {
                    assert(sorted@ == before.insert(pos as int, (k, i)));
                    assert forall|p: int, q: int| 0 <= p < q < sorted@.len() implies comes_before(
                        secs,
                        (#[trigger] sorted@[p]).1 as int,
                        (#[trigger] sorted@[q]).1 as int,
                    ) by {
                        if q < pos {
                            assert(sorted@[p] == before[p] && sorted@[q] == before[q]);
                        } else if q == pos {
                            assert(sorted@[p] == before[p]);
                        } else if p == pos {
                            assert(sorted@[q] == before[q - 1]);
                            assert(before[pos as int].0 > k);
                            if q - 1 > pos {
                                assert(comes_before(secs, before[pos as int].1 as int, before[q - 1].1 as int));
                            }
                        } else if p < pos {
                            assert(sorted@[p] == before[p] && sorted@[q] == before[q - 1]);
                            if q - 1 > p {
                                assert(comes_before(secs, before[p].1 as int, before[q - 1].1 as int));
                            }
                            assert(before[p].0 <= k);
                            assert(before[pos as int].0 > k);
                            if q - 1 > pos {
                                assert(comes_before(secs, before[pos as int].1 as int, before[q - 1].1 as int));
                            }
                        } else {
                            assert(sorted@[p] == before[p - 1] && sorted@[q] == before[q - 1]);
                        }
                    }
                    assert forall|j: int| 0 <= j < i + 1 && #[trigger] secs[j].spec_enabled(ctx) implies exists|p: int|
                        0 <= p < sorted@.len() && sorted@[p].1 == j by {
                        if j == i {
                            assert(sorted@[pos as int].1 == j);
                        } else {
                            let p0 = choose|p: int| 0 <= p < before.len() && before[p].1 == j;
                            if p0 < pos {
                                assert(sorted@[p0].1 == j);
                            } else {
                                assert(sorted@[p0 + 1].1 == j);
                            }
                        }
                    }
                }
            }
            i = i + 1;
        }
        let ghost ord = sorted@.map_values(|x: (u16, usize)| x.1 as int);
        proof {
            assert forall|p: int| 0 <= p < ord.len() implies 0 <= #[trigger] ord[p] < secs.len()
                && secs[ord[p]].spec_enabled(ctx) by {
                assert(ord[p] == sorted@[p].1);
            }
            assert forall|j: int| 0 <= j < secs.len() && #[trigger] secs[j].spec_enabled(ctx) implies ord.contains(j) by {
                let p = choose|p: int| 0 <= p < sorted@.len() && sorted@[p].1 == j;
                assert(ord[p] == j);
            }
            assert forall|p: int, q: int| 0 <= p < q < ord.len() implies comes_before(
                secs,
                #[trigger] ord[p],
                #[trigger] ord[q],
            ) by {
                assert(ord[p] == sorted@[p].1 && ord[q] == sorted@[q].1);
            }
            assert(is_build_order(secs, ctx, ord));
            let chosen = choose|o: Seq<int>| is_build_order(secs, ctx, o);
            lemma_build_order_unique(secs, ctx, ord, chosen);
            assert(composed_prompt(secs, ctx) == composed(secs, ctx, ord));
        }
        let ghost outs = build_outcomes(secs, ctx, ord);
        // Build in that order.
        let mut parts: Vec<String> = Vec::new();
        let mut p: usize = 0;
        proof {
            assert(outs.take(0) =~= Seq::<Result<Seq<char>, ContextErrorView>>::empty());
            assert(parts@.map_values(|s: String| s@) =~= Seq::<Seq<char>>::empty());
        }
        while p < sorted.len()
            invariant
                secs == self.sections@,
                ord == sorted@.map_values(|x: (u16, usize)| x.1 as int),
                outs == build_outcomes(secs, ctx, ord),
                is_build_order(secs, ctx, ord),
                composed_prompt(secs, ctx) == composed(secs, ctx, ord),
                p <= sorted@.len(),
                gathered(outs.take(p as int)) == Ok::<Seq<Seq<char>>, ContextErrorView>(
                    parts@.map_values(|s: String| s@),
                ),
            decreases sorted@.len() - p,
        {
            let idx = sorted[p].1;
            assert(ord[p as int] == idx);
            let built = self.sections[idx].build(ctx);
            proof {
                assert(outs.take(p + 1).drop_last() =~= outs.take(p as int));
                assert(outs.take(p + 1).last() == outs[p as int]);
            }
            match built {
                Err(e) => {
                    proof {
                        lemma_gathered_keeps_error(outs, p + 1);
                        assert(secs[idx as int].spec_enabled(ctx));
                        assert(!(secs[idx as int].spec_build(ctx) is Ok));
                        assert(outcome_view(Err::<String, ContextError>(e)) == composed(self.sections(), ctx, ord));
                    }
                    return Err(e);
                },
                Ok(text) => {
                    let t = trim(text.as_str());
                    if t.unicode_len() != 0 {
                        parts.push(t.to_owned());
                    }
                    proof {
                        let before = gathered(outs.take(p as int))->Ok_0;
                        if t@.len() != 0 {
                            assert(parts@.map_values(|s: String| s@) =~= before.push(trimmed(text@)));
                        }
                    }
                },
            }
            p = p + 1;
        }
        proof {
            assert(outs.take(sorted@.len() as int) =~= outs);
        }
        let prompt = join(&parts, "\n\n");
        assert(outcome_view(Ok::<String, ContextError>(prompt)) == composed(self.sections(), ctx, ord));
        Ok(prompt)
    }
}

} // verus!
