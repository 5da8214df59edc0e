//! Shopping-list aggregation: ingredients keyed by their raw text, each with
//! the dinners that call for it.
use vstd::prelude::*;
use crate::text::{decimal, decimal_string, lemma_views_push, views};

verus! {

/// One line of a shopping list.
#[derive(Debug, Clone)]
pub struct ShoppingItem {
    pub name: String,
    pub quantity: String,
    pub used_in: Vec<String>,
}

/// What a shopping item holds, as character sequences.
pub struct ShoppingItemView {
    pub name: Seq<char>,
    pub quantity: Seq<char>,
    pub used_in: Seq<Seq<char>>,
}

impl View for ShoppingItem {
    type V = ShoppingItemView;

    open spec fn view(&self) -> ShoppingItemView {
        ShoppingItemView { name: self.name@, quantity: self.quantity@, used_in: views(self.used_in@) }
    }
}

/// The views of a sequence of shopping items.
pub open spec fn item_views(s: Seq<ShoppingItem>) -> Seq<ShoppingItemView> {
    s.map_values(|i: ShoppingItem| i@)
}

/// A shopping list with its item count.
#[derive(Debug, Clone)]
pub struct ShoppingList {
    pub ingredients: Vec<ShoppingItem>,
    pub total_items: usize,
}

/// What a shopping list holds.
pub struct ShoppingListView {
    pub items: Seq<ShoppingItemView>,
    pub total_items: nat,
}

impl View for ShoppingList {
    type V = ShoppingListView;

    open spec fn view(&self) -> ShoppingListView {
        ShoppingListView { items: item_views(self.ingredients@), total_items: self.total_items as nat }
    }
}

/// One use of an ingredient: its raw text and the name of the recipe that
/// calls for it.
pub type Usage = (Seq<char>, Seq<char>);

/// The raw ingredient texts of `u`, each once, in the order first seen.
pub open spec fn distinct_ingredients(u: Seq<Usage>) -> Seq<Seq<char>>
    decreases u.len(),
{
    if u.len() == 0 {
        Seq::empty()
    } else {
        let d = distinct_ingredients(u.drop_last());
        if d.contains(u.last().0) {
            d
        } else {
            d.push(u.last().0)
        }
    }
}

/// The recipes that used ingredient `k`, in order, once per use.
pub open spec fn uses_of(u: Seq<Usage>, k: Seq<char>) -> Seq<Seq<char>>
    decreases u.len(),
{
    if u.len() == 0 {
        Seq::empty()
    } else if u.last().0 == k {
        uses_of(u.drop_last(), k).push(u.last().1)
    } else {
        uses_of(u.drop_last(), k)
    }
}

/// The text shown for an ingredient: for more than one serving the serving
/// count is appended, else the raw text is kept.
pub open spec fn scaled(ingredient: Seq<char>, servings: nat) -> Seq<char> {
    if servings > 1 {
        ingredient + " (serves "@ + decimal(servings) + ")"@
    } else {
        ingredient
    }
}

/// The shopping item for ingredient `k` after the uses `u`.
pub open spec fn shopping_item(u: Seq<Usage>, k: Seq<char>, servings: nat) -> ShoppingItemView {
    ShoppingItemView { name: scaled(k, servings), quantity: "As needed"@, used_in: uses_of(u, k) }
}

/// The shopping items after the uses `u`: one per distinct ingredient, in
/// the order first seen.
pub open spec fn shopping_items(u: Seq<Usage>, servings: nat) -> Seq<ShoppingItemView> {
    distinct_ingredients(u).map_values(|k: Seq<char>| shopping_item(u, k, servings))
}

pub proof fn lemma_distinct_push(u: Seq<Usage>, x: Usage)
    ensures
        distinct_ingredients(u.push(x)) == if distinct_ingredients(u).contains(x.0) {
            distinct_ingredients(u)
        } else {
            distinct_ingredients(u).push(x.0)
        },
{
    assert(u.push(x).drop_last() =~= u);
}

pub proof fn lemma_uses_push(u: Seq<Usage>, x: Usage, k: Seq<char>)
    ensures
        uses_of(u.push(x), k) == if x.0 == k {
            uses_of(u, k).push(x.1)
        } else {
            uses_of(u, k)
        },
{
    assert(u.push(x).drop_last() =~= u);
}

/// An ingredient is listed exactly when some use names it, and then it has
/// at least one use; an ingredient that is not listed has none.
pub proof fn lemma_distinct_uses(u: Seq<Usage>, k: Seq<char>)
    ensures
        distinct_ingredients(u).contains(k) ==> uses_of(u, k).len() > 0,
        !distinct_ingredients(u).contains(k) ==> uses_of(u, k).len() == 0,
    decreases u.len(),
{
    if u.len() > 0 {
        let p = u.drop_last();
        let x = u.last();
        lemma_distinct_uses(p, k);
        lemma_distinct_push(p, x);
        assert(p.push(x) =~= u);
        let d = distinct_ingredients(p);
        if x.0 == k {
            if !d.contains(k) {
                assert(d.push(k)[d.len() as int] == k);
            }
        } else if !d.contains(x.0) {
            assert(d.push(x.0).contains(k) ==> d.contains(k)) by {
                if d.push(x.0).contains(k) {
                    let i = choose|i: int| 0 <= i < d.len() + 1 && d.push(x.0)[i] == k;
                    assert(d[i] == k);
                }
            }
            assert(d.contains(k) ==> d.push(x.0).contains(k)) by {
                if d.contains(k) {
                    let i = choose|i: int| 0 <= i < d.len() && d[i] == k;
                    assert(d.push(x.0)[i] == k);
                }
            }
        }
    }
}

/// No ingredient is listed twice.
pub proof fn lemma_distinct_no_duplicates(u: Seq<Usage>)
    ensures
        distinct_ingredients(u).no_duplicates(),
    decreases u.len(),
{
    if u.len() > 0 {
        lemma_distinct_no_duplicates(u.drop_last());
    }
}

/// Renders `ingredient` as `scaled` does.
pub fn scale(ingredient: &String, servings: u8) -> (r: String)
    ensures
        r@ == scaled(ingredient@, servings as nat),
{
    if servings > 1 {
        let mut r = ingredient.clone();
        r.append(" (serves ");
        let n = decimal_string(servings as u64);
        r.append(n.as_str());
        r.append(")");
        r
    } else {
        ingredient.clone()
    }
}

/// Accumulates ingredient uses into a shopping list.
pub struct ShoppingTally {
    pub servings: u8,
    pub keys: Vec<String>,
    pub items: Vec<ShoppingItem>,
    pub log: Ghost<Seq<Usage>>,
}

impl ShoppingTally {
    /// `keys` are the distinct raw ingredients of `log` in the order first
    /// seen, and `items` holds the shopping item of each.
    pub open spec fn wf(&self) -> bool {
        &&& views(self.keys@) == distinct_ingredients(self.log@)
        &&& self.items@.len() == self.keys@.len()
        &&& forall|e: int|
            0 <= e < self.items@.len() ==> (#[trigger] self.items@[e])@ == shopping_item(
                self.log@,
                self.keys@[e]@,
                self.servings as nat,
            )
    }

    /// An empty tally for the given number of servings.
    pub fn new(servings: u8) -> (t: Self)
        ensures
            t.wf(),
            t.servings == servings,
            t.log@ == Seq::<Usage>::empty(),
    {
        let t = ShoppingTally { servings, keys: Vec::new(), items: Vec::new(), log: Ghost(Seq::empty()) };
        assert(views(t.keys@) =~= distinct_ingredients(t.log@));
        t
    }

    fn find(&self, ingredient: &String) -> (r: Option<usize>)
        requires
            self.wf(),
        ensures
            match r {
                Some(p) => p < self.keys@.len() && self.keys@[p as int]@ == ingredient@,
                None => !distinct_ingredients(self.log@).contains(ingredient@),
            },
    {
        let mut i: usize = 0;
        while i < self.keys.len()
            invariant
                i <= self.keys@.len(),
                self.wf(),
                forall|j: int| 0 <= j < i ==> self.keys@[j]@ != ingredient@,
            decreases self.keys@.len() - i,
        {
            if self.keys[i] == *ingredient {
                return Some(i);
            }
            i += 1;
        }
        proof {
            let d = distinct_ingredients(self.log@);
            if d.contains(ingredient@) {
                let j = choose|j: int| 0 <= j < d.len() && d[j] == ingredient@;
                assert(views(self.keys@)[j] == self.keys@[j]@);
            }
        }
        None
    }

    /// Records that `recipe` calls for `ingredient`.
    pub fn record(&mut self, ingredient: &String, recipe: &String)
        requires
            old(self).wf(),
        ensures
            final(self).wf(),
            final(self).servings == old(self).servings,
            final(self).log@ == old(self).log@.push((ingredient@, recipe@)),
    {
        let ghost u = self.log@;
        let ghost x = (ingredient@, recipe@);
        let shown = scale(ingredient, self.servings);
        let found = self.find(ingredient);
        proof {
            lemma_distinct_push(u, x);
            lemma_distinct_no_duplicates(u);
        }
        self.log = Ghost(u.push(x));
        match found {
            Some(p) => {
                proof {
                    assert(views(self.keys@)[p as int] == ingredient@);
                    assert(distinct_ingredients(u).contains(ingredient@));
                }
                let ghost before = self.items@;
                self.items[p].name = shown;
                let name = recipe.clone();
                proof {
                    lemma_views_push(before[p as int].used_in@, name);
                }
                self.items[p].used_in.push(name);
                proof {
                    assert forall|e: int| 0 <= e < self.items@.len() implies (#[trigger] self.items@[e])@
                        == shopping_item(self.log@, self.keys@[e]@, self.servings as nat) by {
                        lemma_uses_push(u, x, self.keys@[e]@);
                        if e != p {
                            assert(views(self.keys@)[e] == self.keys@[e]@);
                            assert(self.keys@[e]@ != ingredient@);
                            assert(self.items@[e] == before[e]);
                        }
                    }
                }
            },
            None => {
                let mut used_in: Vec<String> = Vec::new();
                used_in.push(recipe.clone());
                let item = ShoppingItem { name: shown, quantity: String::from_str("As needed"), used_in };
                proof {
                    lemma_distinct_uses(u, ingredient@);
                    lemma_views_push(self.keys@, *ingredient);
                    assert(views(used_in@) =~= seq![recipe@]);
                }
                self.keys.push(ingredient.clone());
                self.items.push(item);
                proof {
                    assert forall|e: int| 0 <= e < self.items@.len() implies (#[trigger] self.items@[e])@
                        == shopping_item(self.log@, self.keys@[e]@, self.servings as nat) by {
                        lemma_uses_push(u, x, self.keys@[e]@);
                        if e < self.items@.len() - 1 {
                            assert(views(self.keys@)[e] == self.keys@[e]@);
                        } else {
                            assert(uses_of(u, ingredient@) =~= Seq::<Seq<char>>::empty());
                        }
                    }
                }
            },
        }
    }

    /// The shopping list of all uses recorded.
    pub fn finish(self) -> (r: ShoppingList)
        requires
            self.wf(),
        ensures
            r@.items == shopping_items(self.log@, self.servings as nat),
            r.total_items == r.ingredients@.len(),
    {
        let n = self.items.len();
        let r = ShoppingList { ingredients: self.items, total_items: n };
        assert(r@.items =~= shopping_items(self.log@, self.servings as nat)) by {
            assert forall|e: int| 0 <= e < n implies r@.items[e] == shopping_items(
                self.log@,
                self.servings as nat,
            )[e] by {
                assert(views(self.keys@)[e] == self.keys@[e]@);
            }
        }
        r
    }
}

} // verus!
