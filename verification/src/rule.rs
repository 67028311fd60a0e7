use vstd::prelude::*;
use std::collections::HashMap;

verus! {

broadcast use vstd::std_specs::hash::group_hash_axioms;

/// The wildcard pattern symbol `_`: matches any neighbor, binds nothing.
pub const WILDCARD: u8 = 0x5f;

/// A pattern symbol is a variable when it is an uppercase letter `A`..`Z`.
pub open spec fn is_var_spec(p: u8) -> bool {
    0x40 < p <= 0x5a
}

/// One pattern -> replacement rewrite over a 3x3 neighborhood.
///
/// `pattern` holds exactly nine symbols, row-major over the window (the
/// center is entry 4). Each entry is a wildcard, a variable letter, or a
/// literal symbol. `replace` is the output symbol; a variable letter bound
/// by the match resolves to the bound symbol instead.
pub struct Rule {
    pub pattern: Vec<u8>,
    pub replace: u8,
    pub mutable: bool,
}

/// How one pattern symbol fares against one neighbor symbol, given the
/// bindings accumulated so far.
pub open spec fn match_one(m: Map<u8, u8>, p: u8, n: u8) -> bool {
    if p == WILDCARD {
        true
    } else if is_var_spec(p) {
        if m.contains_key(p) {
            m[p] == n
        } else {
            true
        }
    } else {
        p == n
    }
}

/// The bindings after one pattern symbol is examined: a variable letter
/// binds the neighbor symbol on its first occurrence and only then.
pub open spec fn bind_one(m: Map<u8, u8>, p: u8, n: u8) -> Map<u8, u8> {
    if p != WILDCARD && is_var_spec(p) && !m.contains_key(p) {
        m.insert(p, n)
    } else {
        m
    }
}

/// The bindings after the first `k` pattern/neighbor pairs, starting from
/// the empty map: bindings are local to a single match attempt.
pub open spec fn bindings(pat: Seq<u8>, nb: Seq<u8>, k: int) -> Map<u8, u8>
    decreases k,
{
    if k <= 0 {
        Map::empty()
    } else {
        bind_one(bindings(pat, nb, k - 1), pat[k - 1], nb[k - 1])
    }
}

/// The first `k` pattern/neighbor pairs all match, walked left to right
/// with the bindings carried along.
pub open spec fn prefix_matches(pat: Seq<u8>, nb: Seq<u8>, k: int) -> bool
    decreases k,
{
    if k <= 0 {
        true
    } else {
        prefix_matches(pat, nb, k - 1) && match_one(bindings(pat, nb, k - 1), pat[k - 1], nb[k - 1])
    }
}

/// A nine-symbol pattern matches a nine-symbol neighborhood.
pub open spec fn pattern_matches(pat: Seq<u8>, nb: Seq<u8>) -> bool {
    prefix_matches(pat, nb, 9)
}

/// The symbol a successful match emits: the binding of `replace` when the
/// match bound that letter, otherwise `replace` itself.
pub open spec fn resolve(pat: Seq<u8>, nb: Seq<u8>, replace: u8) -> u8 {
    let m = bindings(pat, nb, 9);
    if m.contains_key(replace) {
        m[replace]
    } else {
        replace
    }
}

/// What `Rule::apply` returns on a given neighborhood.
pub open spec fn apply_spec(r: Rule, nb: Seq<u8>) -> Option<u8> {
    if pattern_matches(r.pattern@, nb) {
        Some(resolve(r.pattern@, nb, r.replace))
    } else {
        None
    }
}

impl Rule {
    /// Structural invariant: one pattern symbol per neighborhood cell.
    pub open spec fn wf(self) -> bool {
        self.pattern@.len() == 9
    }

    fn is_var(p: u8) -> (r: bool)
        ensures
            r == is_var_spec(p),
    {
        0x40 < p && p <= 0x5a
    }

    /// Match one pattern symbol against one neighbor symbol, recording a
    /// first-occurrence variable binding in `repl`.
    fn matches(p: u8, n: u8, repl: &mut HashMap<u8, u8>) -> (r: bool)
        ensures
            r == match_one(old(repl)@, p, n),
            final(repl)@ == bind_one(old(repl)@, p, n),
    {
        if p == WILDCARD {
            return true;
        }
        if Self::is_var(p) {
            if let Some(v) = repl.get(&p) {
                return *v == n;
            }
            repl.insert(p, n);
            return true;
        }
        p == n
    }

    /// Try this rule on a neighborhood: `Some` with the resolved output
    /// symbol when all nine pattern entries match, `None` otherwise.
    /// Bindings never outlive the one call.
    pub fn apply(&self, neighborhood: Vec<u8>) -> (r: Option<u8>)
        requires
            self.wf(),
            neighborhood@.len() == 9,
        ensures
            r == apply_spec(*self, neighborhood@),
    {
        let mut repl: HashMap<u8, u8> = HashMap::new();
        let mut k: usize = 0;
        while k < 9
            invariant
                self.wf(),
                neighborhood@.len() == 9,
                k <= 9,
                repl@ == bindings(self.pattern@, neighborhood@, k as int),
                prefix_matches(self.pattern@, neighborhood@, k as int),
            decreases 9 - k,
        {
            if !Self::matches(self.pattern[k], neighborhood[k], &mut repl) {
                proof {
                    lemma_prefix_mismatch(self.pattern@, neighborhood@, k as int + 1, 9);
                }
                return None;
            }
            k = k + 1;
        }
        match repl.get(&self.replace) {
            Some(v) => Some(*v),
            None => Some(self.replace),
        }
    }
}

/// A failed prefix never recovers: if the walk fails within the first `k`
/// pairs, it fails for every longer prefix.
proof fn lemma_prefix_mismatch(pat: Seq<u8>, nb: Seq<u8>, k: int, j: int)
    requires
        !prefix_matches(pat, nb, k),
        k <= j,
    ensures
        !prefix_matches(pat, nb, j),
    decreases j - k,
{
    if k < j {
        lemma_prefix_mismatch(pat, nb, k + 1, j);
    }
}

/// After a successful walk of `k` pairs, every variable position among them
/// is bound, to exactly the neighbor symbol it saw.
pub proof fn lemma_variable_binding(pat: Seq<u8>, nb: Seq<u8>, k: int, j: int)
    requires
        prefix_matches(pat, nb, k),
        0 <= j < k,
        is_var_spec(pat[j]),
    ensures
        bindings(pat, nb, k).contains_key(pat[j]),
        bindings(pat, nb, k)[pat[j]] == nb[j],
    decreases k,
{
    if j < k - 1 {
        lemma_variable_binding(pat, nb, k - 1, j);
    }
}

/// A pattern that uses one variable letter at two positions only matches
/// neighborhoods holding equal symbols at those two positions.
pub proof fn lemma_variable_binding_consistency(pat: Seq<u8>, nb: Seq<u8>, i: int, j: int)
    requires
        pattern_matches(pat, nb),
        0 <= i < 9,
        0 <= j < 9,
        is_var_spec(pat[i]),
        pat[j] == pat[i],
    ensures
        nb[i] == nb[j],
{
    lemma_variable_binding(pat, nb, 9, i);
    lemma_variable_binding(pat, nb, 9, j);
}

/// Every binding belongs to a variable letter that occurs in the pattern.
pub proof fn lemma_bindings_domain(pat: Seq<u8>, nb: Seq<u8>, k: int, key: u8)
    requires
        bindings(pat, nb, k).contains_key(key),
    ensures
        exists|j: int| 0 <= j < k && pat[j] == key && is_var_spec(key),
    decreases k,
{
    if k > 0 {
        if bindings(pat, nb, k - 1).contains_key(key) {
            lemma_bindings_domain(pat, nb, k - 1, key);
        } else {
            assert(pat[k - 1] == key && is_var_spec(key));
        }
    }
}

/// A replacement letter that occurs nowhere in the pattern is emitted
/// verbatim, even when it is an (unbound) variable letter.
pub proof fn lemma_unbound_replace(pat: Seq<u8>, nb: Seq<u8>, replace: u8)
    requires
        forall|j: int| 0 <= j < 9 ==> pat[j] != replace,
    ensures
        resolve(pat, nb, replace) == replace,
{
    if bindings(pat, nb, 9).contains_key(replace) {
        lemma_bindings_domain(pat, nb, 9, replace);
    }
}

/// The pattern of nine wildcards.
pub open spec fn all_wildcards(pat: Seq<u8>) -> bool {
    &&& pat.len() == 9
    &&& forall|i: int| 0 <= i < 9 ==> pat[i] == WILDCARD
}

/// Wildcards bind nothing and pass everything: for `k` wildcard entries the
/// walk succeeds with an empty binding map.
proof fn lemma_wildcard_prefix(pat: Seq<u8>, nb: Seq<u8>, k: int)
    requires
        all_wildcards(pat),
        0 <= k <= 9,
    ensures
        prefix_matches(pat, nb, k),
        bindings(pat, nb, k) == Map::<u8, u8>::empty(),
    decreases k,
{
    if k > 0 {
        lemma_wildcard_prefix(pat, nb, k - 1);
    }
}

/// A rule whose pattern is all wildcards fires on every neighborhood and
/// emits its replacement symbol verbatim.
pub proof fn lemma_wildcard_universal(r: Rule, nb: Seq<u8>)
    requires
        r.wf(),
        all_wildcards(r.pattern@),
        nb.len() == 9,
    ensures
        apply_spec(r, nb) == Some(r.replace),
{
    lemma_wildcard_prefix(r.pattern@, nb, 9);
    assert(!bindings(r.pattern@, nb, 9).contains_key(r.replace));
}

} // verus!
