use vstd::prelude::*;
use crate::field;
use crate::field::Field;
use crate::rule::{Rule, apply_spec};

verus! {

/// An ordered collection of rewrite rules: the order is semantic, the
/// first matching rule wins at every cell.
pub struct Automaton {
    pub rules: Vec<Rule>,
}

/// What the earliest matching rule emits on a neighborhood, scanning the
/// rules in declaration order; `None` when no rule matches.
pub open spec fn first_match(rules: Seq<Rule>, nb: Seq<u8>) -> Option<u8>
    decreases rules.len(),
{
    if rules.len() == 0 {
        None
    } else if apply_spec(rules[0], nb) is Some {
        apply_spec(rules[0], nb)
    } else {
        first_match(rules.drop_first(), nb)
    }
}

/// The symbol a cell holds after one generation: what the earliest matching
/// rule emits for its neighborhood, or its old symbol when no rule matches.
pub open spec fn cell_spec(a: Automaton, f: Field, x: int, y: int) -> u8 {
    match first_match(a.rules@, f.nbhd(x, y)) {
        Some(v) => v,
        None => f.sym(x, y),
    }
}

/// When the rules before `k` all miss and rule `k` fires, rule `k` decides.
pub proof fn lemma_first_match_at(rules: Seq<Rule>, nb: Seq<u8>, k: int)
    requires
        0 <= k < rules.len(),
        apply_spec(rules[k], nb) is Some,
        forall|j: int| 0 <= j < k ==> apply_spec(#[trigger] rules[j], nb) is None,
    ensures
        first_match(rules, nb) == apply_spec(rules[k], nb),
    decreases k,
{
    if k > 0 {
        assert(rules.drop_first()[k - 1] == rules[k]);
        assert forall|j: int| 0 <= j < k - 1 implies apply_spec(
            #[trigger] rules.drop_first()[j],
            nb,
        ) is None by {
            assert(rules.drop_first()[j] == rules[j + 1]);
        }
        lemma_first_match_at(rules.drop_first(), nb, k - 1);
    }
}

/// When every rule misses, the scan reports no match.
pub proof fn lemma_first_match_none(rules: Seq<Rule>, nb: Seq<u8>)
    requires
        forall|j: int| 0 <= j < rules.len() ==> apply_spec(#[trigger] rules[j], nb) is None,
    ensures
        first_match(rules, nb) is None,
    decreases rules.len(),
{
    if rules.len() > 0 {
        assert forall|j: int| 0 <= j < rules.drop_first().len() implies apply_spec(
            #[trigger] rules.drop_first()[j],
            nb,
        ) is None by {
            assert(rules.drop_first()[j] == rules[j + 1]);
        }
        lemma_first_match_none(rules.drop_first(), nb);
    }
}

/// An automaton without rules changes nothing: every cell of the stepped
/// grid keeps its old symbol.
pub proof fn lemma_empty_automaton_keeps_grid(a: Automaton, f: Field)
    requires
        a.rules@.len() == 0,
    ensures
        forall|x: int, y: int| #[trigger] cell_spec(a, f, x, y) == f.sym(x, y),
{
}

/// Stepping is deterministic: any two grids whose cells each hold what the
/// scan decides from the same pre-step grid are the same grid — the order
/// in which the cells were visited cannot show in the result.
pub proof fn lemma_step_deterministic(a: Automaton, f: Field, r1: Field, r2: Field)
    requires
        r1.wf(),
        r2.wf(),
        r1.w == f.w,
        r1.h == f.h,
        r2.w == f.w,
        r2.h == f.h,
        forall|x: int, y: int|
            0 <= x < f.w && 0 <= y < f.h ==> #[trigger] r1.sym(x, y) == cell_spec(a, f, x, y),
        forall|x: int, y: int|
            0 <= x < f.w && 0 <= y < f.h ==> #[trigger] r2.sym(x, y) == cell_spec(a, f, x, y),
    ensures
        field::same_grid(r1, r2),
{
    field::lemma_same_grid_pointwise(r1, r2);
}

/// First-match precedence: when the first rule fires on a neighborhood,
/// it decides the cell, whatever any later rule would have said.
pub proof fn lemma_first_match_precedence(rules: Seq<Rule>, nb: Seq<u8>)
    requires
        rules.len() > 0,
        apply_spec(rules[0], nb) is Some,
    ensures
        first_match(rules, nb) == apply_spec(rules[0], nb),
{
}

/// Two rules agree on every neighborhood when they carry the same pattern
/// and the same replacement symbol.
pub proof fn lemma_apply_congruent(r1: Rule, r2: Rule, nb: Seq<u8>)
    requires
        r1.pattern@ == r2.pattern@,
        r1.replace == r2.replace,
    ensures
        apply_spec(r1, nb) == apply_spec(r2, nb),
{
}

/// Two automata whose rules agree pairwise in pattern and replacement are
/// observationally identical: their scans agree on every neighborhood, so
/// stepping agrees on every grid. This is what a faithful reload of a
/// persisted rule list must reproduce.
pub proof fn lemma_step_observational(a1: Automaton, a2: Automaton, f: Field)
    requires
        a1.rules@.len() == a2.rules@.len(),
        forall|i: int|
            0 <= i < a1.rules@.len() ==> (#[trigger] a1.rules@[i]).pattern@ == a2.rules@[i].pattern@
                && a1.rules@[i].replace == a2.rules@[i].replace,
    ensures
        forall|x: int, y: int| #[trigger] cell_spec(a1, f, x, y) == cell_spec(a2, f, x, y),
{
    assert forall|x: int, y: int| #[trigger] cell_spec(a1, f, x, y) == cell_spec(a2, f, x, y) by {
        lemma_first_match_congruent(a1.rules@, a2.rules@, f.nbhd(x, y));
    }
}

/// Scanning two pairwise-congruent rule lists gives the same verdict.
proof fn lemma_first_match_congruent(r1: Seq<Rule>, r2: Seq<Rule>, nb: Seq<u8>)
    requires
        r1.len() == r2.len(),
        forall|i: int|
            0 <= i < r1.len() ==> (#[trigger] r1[i]).pattern@ == r2[i].pattern@ && r1[i].replace
                == r2[i].replace,
    ensures
        first_match(r1, nb) == first_match(r2, nb),
    decreases r1.len(),
{
    if r1.len() > 0 {
        lemma_apply_congruent(r1[0], r2[0], nb);
        assert forall|i: int|
            0 <= i < r1.drop_first().len() implies (#[trigger] r1.drop_first()[i]).pattern@
            == r2.drop_first()[i].pattern@ && r1.drop_first()[i].replace
            == r2.drop_first()[i].replace by {
            assert(r1.drop_first()[i] == r1[i + 1]);
            assert(r2.drop_first()[i] == r2[i + 1]);
        }
        lemma_first_match_congruent(r1.drop_first(), r2.drop_first(), nb);
    }
}

impl Automaton {
    /// Structural invariant: every rule carries a nine-symbol pattern.
    pub open spec fn wf(self) -> bool {
        forall|i: int| 0 <= i < self.rules@.len() ==> (#[trigger] self.rules@[i]).wf()
    }

    pub fn new(rules: Vec<Rule>) -> (r: Automaton)
        requires
            forall|i: int| 0 <= i < rules@.len() ==> (#[trigger] rules@[i]).wf(),
        ensures
            r.wf(),
            r.rules@ == rules@,
    {
        Automaton { rules }
    }

    /// Append one rule built from a nine-symbol pattern slice, a replacement
    /// symbol and the editability flag.
    pub fn add_rule(&mut self, pattern: &[u8], replace: u8, mutable: bool)
        requires
            old(self).wf(),
            pattern@.len() == 9,
        ensures
            final(self).wf(),
            final(self).rules@.len() == old(self).rules@.len() + 1,
            forall|i: int|
                0 <= i < old(self).rules@.len() ==> final(self).rules@[i] == old(
                    self,
                ).rules@[i],
            final(self).rules@.last().pattern@ == pattern@,
            final(self).rules@.last().replace == replace,
            final(self).rules@.last().mutable == mutable,
    {
        let pat = vstd::slice::slice_to_vec(pattern);
        self.rules.push(Rule { pattern: pat, replace, mutable });
    }

    /// The earliest rule's verdict for the cell at `(x, y)`.
    fn match_cell(&self, f: &Field, x: usize, y: usize) -> (r: Option<u8>)
        requires
            self.wf(),
            f.wf(),
            x < f.w,
            y < f.h,
        ensures
            r == first_match(self.rules@, f.nbhd(x as int, y as int)),
    {
        let mut i: usize = 0;
        while i < self.rules.len()
            invariant
                self.wf(),
                f.wf(),
                x < f.w,
                y < f.h,
                i <= self.rules@.len(),
                forall|j: int|
                    0 <= j < i ==> apply_spec(
                        #[trigger] self.rules@[j],
                        f.nbhd(x as int, y as int),
                    ) is None,
            decreases self.rules@.len() - i,
        {
            let nb = f.neighborhood(x, y);
            if let Some(v) = self.rules[i].apply(nb) {
                proof {
                    lemma_first_match_at(self.rules@, f.nbhd(x as int, y as int), i as int);
                }
                return Some(v);
            }
            i = i + 1;
        }
        proof {
            lemma_first_match_none(self.rules@, f.nbhd(x as int, y as int));
        }
        None
    }

    /// One synchronous generation: every cell of the result is decided from
    /// the frozen input grid, so no cell can observe another cell's update
    /// and the enumeration order of the coordinates cannot show in the
    /// result. The input grid and the rules are left untouched.
    pub fn step(&self, field: &Field) -> (r: Field)
        requires
            self.wf(),
            field.wf(),
        ensures
            r.wf(),
            r.w == field.w,
            r.h == field.h,
            forall|x: int, y: int|
                0 <= x < field.w && 0 <= y < field.h ==> #[trigger] r.sym(x, y) == cell_spec(
                    *self,
                    *field,
                    x,
                    y,
                ),
    {
        proof {
            vstd::std_specs::vec::axiom_spec_len(&field.data);
        }
        let mut next = Field::new(field.w, field.h);
        let cs = field.coords();
        let mut k: usize = 0;
        while k < cs.len()
            invariant
                self.wf(),
                field.wf(),
                cs@.len() == field.w * field.h,
                forall|i: int|
                    0 <= i < cs@.len() ==> (#[trigger] cs@[i]).0 as int == i / (field.h as int)
                        && cs@[i].1 as int == i % (field.h as int),
                next.wf(),
                next.w == field.w,
                next.h == field.h,
                k <= cs@.len(),
                forall|x: int, y: int|
                    0 <= x < field.w && 0 <= y < field.h && x * field.h + y < k
                        ==> #[trigger] next.sym(x, y) == cell_spec(*self, *field, x, y),
            decreases cs@.len() - k,
        {
            proof {
                assert(field.h * field.w == field.w * field.h) by (nonlinear_arith);
                field::lemma_index_decompose(k as int, field.h as int, field.w as int);
            }
            let (x, y) = cs[k];
            let v = match self.match_cell(field, x, y) {
                Some(v) => v,
                None => field.at(x, y),
            };
            next.set(x, y, v);
            k = k + 1;
            proof {
                assert forall|x2: int, y2: int|
                    0 <= x2 < field.w && 0 <= y2 < field.h && x2 * field.h + y2 < k
                        implies #[trigger] next.sym(x2, y2) == cell_spec(*self, *field, x2, y2) by {
                    if x2 * field.h + y2 == k - 1 {
                        field::lemma_row_major_injective(
                            y2,
                            x2,
                            y as int,
                            x as int,
                            field.h as int,
                        );
                    }
                }
            }
        }
        proof {
            assert forall|x: int, y: int| 0 <= x < field.w && 0 <= y < field.h implies #[trigger] next.sym(
                x,
                y,
            ) == cell_spec(*self, *field, x, y) by {
                field::lemma_row_major_bound(y, x, field.h as int, field.w as int);
                assert(field.h * field.w == field.w * field.h) by (nonlinear_arith);
            }
        }
        next
    }
}

} // verus!
