//! Ingredient overlap: which ingredient lines recur across a cuisine's
//! recipes, and how often.
use vstd::prelude::*;
use crate::recipes::{
    catalog_recipes, cuisine_names, get_recipe_database, ingredient_occurrences, CuisineRecipes,
    RecipeView,
};
use crate::text::{decimal, decimal_string};

verus! {

/// How many times `k` occurs in `s`.
pub open spec fn count_in(s: Seq<Seq<char>>, k: Seq<char>) -> nat
    decreases s.len(),
{
    if s.len() == 0 {
        0
    } else {
        count_in(s.drop_last(), k) + if s.last() == k {
            1nat
        } else {
            0nat
        }
    }
}

/// The view of a list of ingredients with their counts.
pub open spec fn counts_view(v: Seq<(String, usize)>) -> Seq<(Seq<char>, nat)> {
    v.map_values(|e: (String, usize)| (e.0@, e.1 as nat))
}

/// `e` lists each ingredient line that occurs more than once in the recipes,
/// once, with its number of occurrences, in order of non-increasing count.
pub open spec fn is_overlap_ranking(rs: Seq<RecipeView>, e: Seq<(Seq<char>, nat)>) -> bool {
    let occ = ingredient_occurrences(rs);
    &&& forall|i: int| 0 <= i < e.len() ==> (#[trigger] e[i]).1 == count_in(occ, e[i].0) && e[i].1 > 1
    &&& forall|k: Seq<char>| #[trigger] count_in(occ, k) > 1 ==> exists|i: int| 0 <= i < e.len() && e[i].0 == k
    &&& forall|i: int, j: int| 0 <= i < e.len() && 0 <= j < e.len() && i != j ==> (#[trigger] e[i]).0 != (#[trigger] e[j]).0
    &&& forall|i: int, j: int| 0 <= i < j < e.len() ==> (#[trigger] e[i]).1 >= (#[trigger] e[j]).1
}

/// The notice for a cuisine whose recipes share no ingredient line.
pub open spec fn no_overlap_text(cuisine: Seq<char>) -> Seq<char> {
    "No overlapping ingredients found in "@ + cuisine + " cuisine recipes."@
}

/// One line per ingredient with its count, one after the other.
pub open spec fn overlap_lines(e: Seq<(Seq<char>, nat)>) -> Seq<char>
    decreases e.len(),
{
    if e.len() == 0 {
        Seq::empty()
    } else {
        overlap_lines(e.drop_last()) + "- "@ + e.last().0 + " (used in "@ + decimal(e.last().1) + " recipes)\n"@
    }
}

/// The overlap report of `cuisine` for the ranking `e`.
pub open spec fn overlap_text(cuisine: Seq<char>, e: Seq<(Seq<char>, nat)>) -> Seq<char> {
    if e.len() == 0 {
        no_overlap_text(cuisine)
    } else {
        "Common ingredients in "@ + cuisine + " cuisine:\n\n"@ + overlap_lines(e)
    }
}

proof fn lemma_count_push(s: Seq<Seq<char>>, x: Seq<char>, k: Seq<char>)
    ensures
        count_in(s.push(x), k) == count_in(s, k) + if x == k {
            1nat
        } else {
            0nat
        },
{
    assert(s.push(x).drop_last() =~= s);
}

proof fn lemma_count_le_len(s: Seq<Seq<char>>, k: Seq<char>)
    ensures
        count_in(s, k) <= s.len(),
    decreases s.len(),
{
    if s.len() > 0 {
        lemma_count_le_len(s.drop_last(), k);
    }
}

proof fn lemma_occurrences_step(rs: Seq<RecipeView>, i: int)
    requires
        0 <= i < rs.len(),
    ensures
        ingredient_occurrences(rs.take(i + 1)) == ingredient_occurrences(rs.take(i)) + rs[i].ingredients,
{
    assert(rs.take(i + 1).drop_last() =~= rs.take(i));
}

proof fn lemma_occurrences_prefix_len(rs: Seq<RecipeView>, i: int)
    requires
        0 <= i <= rs.len(),
    ensures
        ingredient_occurrences(rs.take(i)).len() <= ingredient_occurrences(rs).len(),
    decreases rs.len() - i,
{
    if i < rs.len() {
        lemma_occurrences_step(rs, i);
        lemma_occurrences_prefix_len(rs, i + 1);
    } else {
        assert(rs.take(i) =~= rs);
    }
}

/// The index of `ing` among the ingredients of `r`, if it is there.
fn position_of(r: &Vec<(String, usize)>, ing: &String) -> (p: Option<usize>)
    ensures
        match p {
            Some(a) => a < r@.len() && r@[a as int].0@ == ing@,
            None => forall|b: int| 0 <= b < r@.len() ==> (#[trigger] r@[b]).0@ != ing@,
        },
{
    let mut a: usize = 0;
    while a < r.len()
        invariant
            a <= r@.len(),
            forall|b: int| 0 <= b < a ==> (#[trigger] r@[b]).0@ != ing@,
        decreases r@.len() - a,
    {
        if r[a].0 == *ing {
            return Some(a);
        }
        a += 1;
    }
    None
}

/// Each ingredient line of the recipes, once, with its number of occurrences.
fn count_ingredients(recipes: &CuisineRecipes) -> (r: Vec<(String, usize)>)
    requires
        ingredient_occurrences(recipes@).len() <= usize::MAX,
    ensures
        forall|a: int| 0 <= a < r@.len() ==> (#[trigger] r@[a]).1 == count_in(ingredient_occurrences(recipes@), r@[a].0@),
        forall|k: Seq<char>| #[trigger] count_in(ingredient_occurrences(recipes@), k) > 0 ==> exists|a: int| 0 <= a < r@.len() && r@[a].0@ == k,
        forall|a: int, b: int| 0 <= a < r@.len() && 0 <= b < r@.len() && a != b ==> (#[trigger] r@[a]).0@ != (#[trigger] r@[b]).0@,
{
    let ghost rs = recipes@;
    let ghost total = ingredient_occurrences(rs);
    let mut r: Vec<(String, usize)> = Vec::new();
    let mut i: usize = 0;
    while i < recipes.recipes.len()
        invariant
            rs == recipes@,
            total == ingredient_occurrences(rs),
            total.len() <= usize::MAX,
            i <= rs.len(),
            forall|a: int| 0 <= a < r@.len() ==> (#[trigger] r@[a]).1 == count_in(ingredient_occurrences(rs.take(i as int)), r@[a].0@),
            forall|k: Seq<char>| #[trigger] count_in(ingredient_occurrences(rs.take(i as int)), k) > 0 ==> exists|a: int| 0 <= a < r@.len() && r@[a].0@ == k,
            forall|a: int, b: int| 0 <= a < r@.len() && 0 <= b < r@.len() && a != b ==> (#[trigger] r@[a]).0@ != (#[trigger] r@[b]).0@,
        decreases rs.len() - i,
    {
        let ings = &recipes.recipes[i].ingredients;
        let ghost base = ingredient_occurrences(rs.take(i as int));
        proof {
            lemma_occurrences_step(rs, i as int);
            lemma_occurrences_prefix_len(rs, i + 1);
        }
        let mut j: usize = 0;
        while j < ings.len()
            invariant
                rs == recipes@,
                i < rs.len(),
                ings@.len() == rs[i as int].ingredients.len(),
                forall|t: int| 0 <= t < ings@.len() ==> (#[trigger] ings@[t])@ == rs[i as int].ingredients[t],
                base.len() + ings@.len() <= usize::MAX,
                j <= ings@.len(),
                forall|a: int| 0 <= a < r@.len() ==> (#[trigger] r@[a]).1 == count_in(base + rs[i as int].ingredients.take(j as int), r@[a].0@),
                forall|k: Seq<char>| #[trigger] count_in(base + rs[i as int].ingredients.take(j as int), k) > 0 ==> exists|a: int| 0 <= a < r@.len() && r@[a].0@ == k,
                forall|a: int, b: int| 0 <= a < r@.len() && 0 <= b < r@.len() && a != b ==> (#[trigger] r@[a]).0@ != (#[trigger] r@[b]).0@,
            decreases ings@.len() - j,
        {
            let ghost p = base + rs[i as int].ingredients.take(j as int);
            let ghost x = rs[i as int].ingredients[j as int];
            let ghost next = base + rs[i as int].ingredients.take(j + 1);
            assert(next =~= p.push(x));
            let ing = &ings[j];
            let found = position_of(&r, ing);
            proof {
                lemma_count_le_len(p, x);
                assert forall|k: Seq<char>| true implies count_in(next, k) == count_in(p, k) + if x == k { 1nat } else { 0nat } by {
                    lemma_count_push(p, x, k);
                }
            }
            let ghost before = r@;
            if let Some(a) = found {
                r[a].1 = r[a].1 + 1;
                assert forall|k: Seq<char>| #[trigger] count_in(next, k) > 0 implies exists|c: int| 0 <= c < r@.len() && r@[c].0@ == k by {
                    if k != x {
                        let c = choose|c: int| 0 <= c < before.len() && before[c].0@ == k;
                        assert(r@[c].0@ == k);
                    } else {
                        assert(r@[a as int].0@ == k);
                    }
                }
            } else {
                proof {
                    if count_in(p, x) > 0 {
                        let c = choose|c: int| 0 <= c < before.len() && before[c].0@ == x;
                        assert(before[c].0@ != x);
                    }
                }
                r.push((ing.clone(), 1));
                assert forall|k: Seq<char>| #[trigger] count_in(next, k) > 0 implies exists|c: int| 0 <= c < r@.len() && r@[c].0@ == k by {
                    if k != x {
                        let c = choose|c: int| 0 <= c < before.len() && before[c].0@ == k;
                        assert(r@[c].0@ == k);
                    } else {
                        assert(r@[before.len() as int].0@ == k);
                    }
                }
            }
            j += 1;
        }
        assert(rs[i as int].ingredients.take(j as int) =~= rs[i as int].ingredients);
        i += 1;
    }
    assert(rs.take(i as int) =~= rs);
    r
}

/// Entries that `is_overlap_ranking` admits: each with its true count, above
/// one.
spec fn counted_twice(occ: Seq<Seq<char>>, s: Seq<(String, usize)>) -> bool {
    forall|i: int| 0 <= i < s.len() ==> (#[trigger] s[i]).1 == count_in(occ, s[i].0@) && s[i].1 > 1
}

spec fn distinct_keys(s: Seq<(String, usize)>) -> bool {
    forall|a: int, b: int| 0 <= a < s.len() && 0 <= b < s.len() && a != b ==> (#[trigger] s[a]).0@ != (#[trigger] s[b]).0@
}

spec fn has_key(s: Seq<(String, usize)>, k: Seq<char>) -> bool {
    exists|a: int| 0 <= a < s.len() && (#[trigger] s[a]).0@ == k
}

/// The index of an entry with the largest count.
fn max_position(v: &Vec<(String, usize)>) -> (m: usize)
    requires
        v@.len() > 0,
    ensures
        m < v@.len(),
        forall|b: int| 0 <= b < v@.len() ==> (#[trigger] v@[b]).1 <= v@[m as int].1,
{
    let mut m: usize = 0;
    let mut a: usize = 1;
    while a < v.len()
        invariant
            0 < a <= v@.len(),
            m < a,
            forall|b: int| 0 <= b < a ==> (#[trigger] v@[b]).1 <= v@[m as int].1,
        decreases v@.len() - a,
    {
        if v[a].1 > v[m].1 {
            m = a;
        }
        a += 1;
    }
    m
}

/// The ingredient lines that occur more than once in the recipes, each with
/// its number of occurrences, most frequent first.
pub fn ingredient_overlap(recipes: &CuisineRecipes) -> (r: Vec<(String, usize)>)
    requires
        ingredient_occurrences(recipes@).len() <= usize::MAX,
    ensures
        is_overlap_ranking(recipes@, counts_view(r@)),
{
    let ghost occ = ingredient_occurrences(recipes@);
    let counted = count_ingredients(recipes);
    let mut rest: Vec<(String, usize)> = Vec::new();
    let mut t: usize = 0;
    while t < counted.len()
        invariant
            t <= counted@.len(),
            forall|a: int| 0 <= a < counted@.len() ==> (#[trigger] counted@[a]).1 == count_in(occ, counted@[a].0@),
            distinct_keys(counted@),
            counted_twice(occ, rest@),
            distinct_keys(rest@),
            forall|b: int| 0 <= b < rest@.len() ==> exists|a: int| 0 <= a < t && (#[trigger] counted@[a]).0@ == (#[trigger] rest@[b]).0@,
            forall|a: int| 0 <= a < t && (#[trigger] counted@[a]).1 > 1 ==> has_key(rest@, counted@[a].0@),
        decreases counted@.len() - t,
    {
        if counted[t].1 > 1 {
            let ghost before = rest@;
            let e = (counted[t].0.clone(), counted[t].1);
            rest.push(e);
            proof {
                assert forall|a: int, b: int| 0 <= a < rest@.len() && 0 <= b < rest@.len() && a != b implies (#[trigger] rest@[a]).0@ != (#[trigger] rest@[b]).0@ by {
                    if a == before.len() || b == before.len() {
                        let c = if a == before.len() { b } else { a };
                        let w = choose|w: int| 0 <= w < t && (#[trigger] counted@[w]).0@ == before[c].0@;
                        assert(counted@[w].0@ != counted@[t as int].0@);
                    }
                }
                assert forall|b: int| 0 <= b < rest@.len() implies exists|a: int| 0 <= a < t + 1 && (#[trigger] counted@[a]).0@ == (#[trigger] rest@[b]).0@ by {
                    if b < before.len() {
                        let w = choose|w: int| 0 <= w < t && (#[trigger] counted@[w]).0@ == before[b].0@;
                        assert(counted@[w].0@ == rest@[b].0@);
                    } else {
                        assert(counted@[t as int].0@ == rest@[b].0@);
                    }
                }
                assert forall|a: int| 0 <= a < t + 1 && (#[trigger] counted@[a]).1 > 1 implies has_key(rest@, counted@[a].0@) by {
                    if a < t {
                        let w = choose|w: int| 0 <= w < before.len() && (#[trigger] before[w]).0@ == counted@[a].0@;
                        assert(rest@[w] == before[w]);
                    } else {
                        assert(rest@[before.len() as int].0@ == counted@[a].0@);
                    }
                }
            }
        }
        t += 1;
    }
    proof {
        assert forall|k: Seq<char>| #[trigger] count_in(occ, k) > 1 implies has_key(rest@, k) by {
            let a = choose|a: int| 0 <= a < counted@.len() && counted@[a].0@ == k;
            assert(counted@[a].1 > 1);
        }
    }
    let mut sorted: Vec<(String, usize)> = Vec::new();
    while rest.len() > 0
        invariant
            counted_twice(occ, sorted@),
            counted_twice(occ, rest@),
            distinct_keys(sorted@),
            distinct_keys(rest@),
            forall|a: int, b: int| 0 <= a < sorted@.len() && 0 <= b < rest@.len() ==> (#[trigger] sorted@[a]).0@ != (#[trigger] rest@[b]).0@,
            forall|k: Seq<char>| #[trigger] count_in(occ, k) > 1 ==> has_key(sorted@, k) || has_key(rest@, k),
            forall|a: int, b: int| 0 <= a < b < sorted@.len() ==> (#[trigger] sorted@[a]).1 >= (#[trigger] sorted@[b]).1,
            forall|a: int, b: int| 0 <= a < sorted@.len() && 0 <= b < rest@.len() ==> (#[trigger] sorted@[a]).1 >= (#[trigger] rest@[b]).1,
        decreases rest@.len(),
    {
        let m = max_position(&rest);
        let ghost old_rest = rest@;
        let ghost old_sorted = sorted@;
        let e = rest.remove(m);
        sorted.push(e);
        proof {
            assert forall|b: int| 0 <= b < rest@.len() implies #[trigger] rest@[b] == old_rest[if b < m { b } else { b + 1 }] by {}
            assert(sorted@[old_sorted.len() as int] == old_rest[m as int]);
            assert forall|a: int, b: int| 0 <= a < sorted@.len() && 0 <= b < rest@.len() implies (#[trigger] sorted@[a]).0@ != (#[trigger] rest@[b]).0@ by {
                let ob = if b < m { b } else { b + 1 };
                assert(rest@[b] == old_rest[ob]);
                if a < old_sorted.len() {
                    assert(sorted@[a] == old_sorted[a]);
                }
            }
            assert forall|a: int, b: int| 0 <= a < sorted@.len() && 0 <= b < sorted@.len() && a != b implies (#[trigger] sorted@[a]).0@ != (#[trigger] sorted@[b]).0@ by {
                if a < old_sorted.len() {
                    assert(sorted@[a] == old_sorted[a]);
                }
                if b < old_sorted.len() {
                    assert(sorted@[b] == old_sorted[b]);
                }
            }
            assert forall|a: int, b: int| 0 <= a < rest@.len() && 0 <= b < rest@.len() && a != b implies (#[trigger] rest@[a]).0@ != (#[trigger] rest@[b]).0@ by {
                assert(rest@[a] == old_rest[if a < m { a } else { a + 1 }]);
                assert(rest@[b] == old_rest[if b < m { b } else { b + 1 }]);
            }
            assert forall|k: Seq<char>| #[trigger] count_in(occ, k) > 1 implies has_key(sorted@, k) || has_key(rest@, k) by {
                if has_key(old_sorted, k) {
                    let w = choose|w: int| 0 <= w < old_sorted.len() && (#[trigger] old_sorted[w]).0@ == k;
                    assert(sorted@[w] == old_sorted[w]);
                } else {
                    let w = choose|w: int| 0 <= w < old_rest.len() && (#[trigger] old_rest[w]).0@ == k;
                    if w < m {
                        assert(rest@[w] == old_rest[w]);
                    } else if w > m {
                        assert(rest@[w - 1] == old_rest[w]);
                    } else {
                        assert(sorted@[old_sorted.len() as int].0@ == k);
                    }
                }
            }
            assert forall|a: int, b: int| 0 <= a < b < sorted@.len() implies (#[trigger] sorted@[a]).1 >= (#[trigger] sorted@[b]).1 by {
                assert(sorted@[a] == old_sorted[a]);
                if b < old_sorted.len() {
                    assert(sorted@[b] == old_sorted[b]);
                }
            }
            assert forall|a: int, b: int| 0 <= a < sorted@.len() && 0 <= b < rest@.len() implies (#[trigger] sorted@[a]).1 >= (#[trigger] rest@[b]).1 by {
                let ob = if b < m { b } else { b + 1 };
                assert(rest@[b] == old_rest[ob]);
                if a < old_sorted.len() {
                    assert(sorted@[a] == old_sorted[a]);
                }
            }
            assert(counted_twice(occ, sorted@)) by {
                assert forall|a: int| 0 <= a < sorted@.len() implies (#[trigger] sorted@[a]).1 == count_in(occ, sorted@[a].0@) && sorted@[a].1 > 1 by {
                    if a < old_sorted.len() {
                        assert(sorted@[a] == old_sorted[a]);
                    }
                }
            }
        }
    }
    proof {
        let e = counts_view(sorted@);
        assert forall|k: Seq<char>| #[trigger] count_in(occ, k) > 1 implies exists|i: int| 0 <= i < e.len() && e[i].0 == k by {
            let w = choose|w: int| 0 <= w < sorted@.len() && (#[trigger] sorted@[w]).0@ == k;
            assert(e[w].0 == k);
        }
    }
    sorted
}

/// `text` is the overlap report of `cuisine` for some ranking of the
/// recipes' shared ingredient lines.
pub open spec fn is_overlap_report(cuisine: Seq<char>, rs: Seq<RecipeView>, text: Seq<char>) -> bool {
    exists|e: Seq<(Seq<char>, nat)>| #[trigger] is_overlap_ranking(rs, e) && text == overlap_text(cuisine, e)
}

/// Renders the overlap report of `cuisine` for the ranked `common` lines.
pub fn overlap_report(cuisine: &str, common: &Vec<(String, usize)>) -> (r: String)
    ensures
        r@ == overlap_text(cuisine@, counts_view(common@)),
{
    if common.len() == 0 {
        let mut r = String::from_str("No overlapping ingredients found in ");
        r.append(cuisine);
        r.append(" cuisine recipes.");
        return r;
    }
    let mut r = String::from_str("Common ingredients in ");
    r.append(cuisine);
    r.append(" cuisine:\n\n");
    let ghost head = r@;
    let mut i: usize = 0;
    while i < common.len()
        invariant
            i <= common@.len(),
            r@ == head + overlap_lines(counts_view(common@).take(i as int)),
        decreases common@.len() - i,
    {
        assert(counts_view(common@).take(i + 1).drop_last() =~= counts_view(common@).take(i as int));
        r.append("- ");
        r.append(common[i].0.as_str());
        r.append(" (used in ");
        let n = decimal_string(common[i].1 as u64);
        r.append(n.as_str());
        r.append(" recipes)\n");
        assert(r@ =~= head + overlap_lines(counts_view(common@).take(i + 1)));
        i += 1;
    }
    assert(counts_view(common@).take(i as int) =~= counts_view(common@));
    r
}

/// The overlap report of `cuisine` with the given recipes: the fixed notice
/// where no ingredient line occurs twice, else the shared lines with their
/// counts, most frequent first.
pub fn analyze_recipes_overlap(cuisine: &str, recipes: &CuisineRecipes) -> (r: String)
    requires
        ingredient_occurrences(recipes@).len() <= usize::MAX,
    ensures
        is_overlap_report(cuisine@, recipes@, r@),
        (forall|k: Seq<char>| #[trigger] count_in(ingredient_occurrences(recipes@), k) <= 1) ==> r@
            == no_overlap_text(cuisine@),
{
    let common = ingredient_overlap(recipes);
    let r = overlap_report(cuisine, &common);
    proof {
        let e = counts_view(common@);
        assert(is_overlap_ranking(recipes@, e));
        if forall|k: Seq<char>| #[trigger] count_in(ingredient_occurrences(recipes@), k) <= 1 {
            if e.len() > 0 {
                assert(e[0].1 == count_in(ingredient_occurrences(recipes@), e[0].0));
            }
        }
    }
    r
}

/// The overlap report of a catalog cuisine.
pub fn analyze_ingredient_overlap(cuisine: &str) -> (r: String)
    requires
        cuisine_names().contains(cuisine@),
    ensures
        catalog_recipes(cuisine@) is Some,
        is_overlap_report(cuisine@, catalog_recipes(cuisine@)->0, r@),
        (forall|k: Seq<char>| #[trigger] count_in(ingredient_occurrences(catalog_recipes(cuisine@)->0), k) <= 1)
            ==> r@ == no_overlap_text(cuisine@),
{
    let db = get_recipe_database();
    let recipes = db.get(cuisine).unwrap();
    assert(recipes@ == catalog_recipes(cuisine@)->0);
    analyze_recipes_overlap(cuisine, recipes)
}

} // verus!
