//! The recipe catalog: recipes grouped by cuisine, and their Markdown rendering.
use vstd::prelude::*;
use crate::dataset;
use crate::text::{bulleted, lemma_views_push, numbered, push_bulleted, push_numbered, views};

verus! {

/// A recipe: its name, its category, and its ingredients and steps in order.
#[derive(Debug, Clone)]
pub struct Recipe {
    pub name: String,
    pub recipe_type: String,
    pub ingredients: Vec<String>,
    pub instructions: Vec<String>,
}

/// What a recipe holds, as character sequences.
pub struct RecipeView {
    pub name: Seq<char>,
    pub recipe_type: Seq<char>,
    pub ingredients: Seq<Seq<char>>,
    pub instructions: Seq<Seq<char>>,
}

impl View for Recipe {
    type V = RecipeView;

    open spec fn view(&self) -> RecipeView {
        RecipeView {
            name: self.name@,
            recipe_type: self.recipe_type@,
            ingredients: views(self.ingredients@),
            instructions: views(self.instructions@),
        }
    }
}

/// The recipes of one cuisine, in catalog order.
#[derive(Debug, Clone)]
pub struct CuisineRecipes {
    pub recipes: Vec<Recipe>,
}

/// The views of a sequence of recipes.
pub open spec fn recipe_views(rs: Seq<Recipe>) -> Seq<RecipeView> {
    rs.map_values(|r: Recipe| r@)
}

impl View for CuisineRecipes {
    type V = Seq<RecipeView>;

    open spec fn view(&self) -> Seq<RecipeView> {
        recipe_views(self.recipes@)
    }
}

/// Every ingredient line of the recipes, recipe after recipe.
pub open spec fn ingredient_occurrences(rs: Seq<RecipeView>) -> Seq<Seq<char>>
    decreases rs.len(),
{
    if rs.len() == 0 {
        Seq::empty()
    } else {
        ingredient_occurrences(rs.drop_last()) + rs.last().ingredients
    }
}

impl CuisineRecipes {
    /// Fit to be served: at least one recipe, each with ingredients and steps,
    /// and a count of ingredient lines that fits in memory.
    pub open spec fn servable(&self) -> bool {
        &&& self@.len() > 0
        &&& ingredient_occurrences(self@).len() <= usize::MAX
        &&& forall|i: int|
            0 <= i < self@.len() ==> {
                &&& (#[trigger] self@[i]).ingredients.len() > 0
                &&& self@[i].instructions.len() > 0
            }
    }

    pub fn new(recipes: Vec<Recipe>) -> (r: Self)
        ensures
            r.recipes@ == recipes@,
    {
        CuisineRecipes { recipes }
    }
}

/// The Markdown section of one recipe.
pub open spec fn recipe_markdown(r: RecipeView) -> Seq<char> {
    "## "@ + r.name + "\n"@ + "**Type:** "@ + r.recipe_type + "\n\n"@ + "**Ingredients:**\n"@
        + bulleted(r.ingredients) + "\n**Recipe:**\n"@ + numbered(r.instructions) + "\n"@
}

/// The Markdown sections of recipes, one after the other.
pub open spec fn recipes_markdown(rs: Seq<RecipeView>) -> Seq<char>
    decreases rs.len(),
{
    if rs.len() == 0 {
        Seq::empty()
    } else {
        recipes_markdown(rs.drop_last()) + recipe_markdown(rs.last())
    }
}

/// The text shown for a cuisine: its recipes under a heading, or a notice
/// where the catalog has no such cuisine.
pub open spec fn recipe_list_markdown(cuisine: Seq<char>, found: Option<Seq<RecipeView>>) -> Seq<
    char,
> {
    match found {
        Some(rs) => "# "@ + cuisine + " Recipes\n\n"@ + recipes_markdown(rs),
        None => "No recipes found for "@ + cuisine,
    }
}

fn push_recipe(out: &mut String, r: &Recipe)
    ensures
        final(out)@ == old(out)@ + recipe_markdown(r@),
{
    let ghost start = out@;
    out.append("## ");
    out.append(r.name.as_str());
    out.append("\n");
    out.append("**Type:** ");
    out.append(r.recipe_type.as_str());
    out.append("\n\n");
    out.append("**Ingredients:**\n");
    push_bulleted(out, &r.ingredients);
    out.append("\n**Recipe:**\n");
    push_numbered(out, &r.instructions);
    out.append("\n");
    assert(out@ =~= start + recipe_markdown(r@));
}

/// Renders the recipes found for `cuisine`, or the notice that there are none.
pub fn render_recipe_list(cuisine: &str, found: Option<&CuisineRecipes>) -> (r: String)
    ensures
        r@ == recipe_list_markdown(
            cuisine@,
            match found {
                Some(c) => Some(c@),
                None => None,
            },
        ),
{
    match found {
        None => {
            let mut r = String::from_str("No recipes found for ");
            r.append(cuisine);
            r
        },
        Some(c) => {
            let mut r = String::from_str("# ");
            r.append(cuisine);
            r.append(" Recipes\n\n");
            let ghost head = r@;
            let mut i: usize = 0;
            while i < c.recipes.len()
                invariant
                    i <= c@.len(),
                    r@ == head + recipes_markdown(c@.take(i as int)),
                decreases c@.len() - i,
            {
                assert(c@.take(i + 1).drop_last() =~= c@.take(i as int));
                push_recipe(&mut r, &c.recipes[i]);
                assert(r@ =~= head + recipes_markdown(c@.take(i + 1)));
                i += 1;
            }
            assert(c@.take(i as int) =~= c@);
            r
        },
    }
}

/// The catalog: each cuisine's name with its recipes, in a fixed order.
#[derive(Debug, Clone)]
pub struct RecipeDatabase {
    pub cuisines: Vec<(String, CuisineRecipes)>,
}

impl View for RecipeDatabase {
    type V = Seq<(Seq<char>, Seq<RecipeView>)>;

    open spec fn view(&self) -> Seq<(Seq<char>, Seq<RecipeView>)> {
        self.cuisines@.map_values(|e: (String, CuisineRecipes)| (e.0@, e.1@))
    }
}

/// The names of the cuisines that the catalog holds, in its order.
pub open spec fn cuisine_names() -> Seq<Seq<char>> {
    seq![
        "French"@,
        "Thai"@,
        "Italian"@,
        "Mexican"@,
        "Chinese"@,
        "Vietnamese"@,
        "Japanese"@,
    ]
}

/// The names of catalog entries, in order.
pub open spec fn entry_names(e: Seq<(Seq<char>, Seq<RecipeView>)>) -> Seq<Seq<char>> {
    e.map_values(|x: (Seq<char>, Seq<RecipeView>)| x.0)
}

/// The recipes that the entries list under `cuisine`, if any.
pub open spec fn entry_lookup(e: Seq<(Seq<char>, Seq<RecipeView>)>, cuisine: Seq<char>) -> Option<
    Seq<RecipeView>,
> {
    if entry_names(e).contains(cuisine) {
        Some(e[entry_names(e).index_of(cuisine)].1)
    } else {
        None
    }
}

/// What the catalog holds: each cuisine with its recipes, in order.
pub open spec fn catalog() -> Seq<(Seq<char>, Seq<RecipeView>)> {
    seq![
        ("French"@, dataset::french_recipes()),
        ("Thai"@, dataset::thai_recipes()),
        ("Italian"@, dataset::italian_recipes()),
        ("Mexican"@, dataset::mexican_recipes()),
        ("Chinese"@, dataset::chinese_recipes()),
        ("Vietnamese"@, dataset::vietnamese_recipes()),
        ("Japanese"@, dataset::japanese_recipes()),
    ]
}

/// The catalog's recipes for `cuisine`, if it has that cuisine.
pub open spec fn catalog_recipes(cuisine: Seq<char>) -> Option<Seq<RecipeView>> {
    entry_lookup(catalog(), cuisine)
}

/// The catalog's cuisines are those of `cuisine_names`, so each of them has
/// recipes there.
pub proof fn lemma_catalog_names()
    ensures
        entry_names(catalog()) == cuisine_names(),
        forall|c: Seq<char>| #[trigger] cuisine_names().contains(c) <==> catalog_recipes(c) is Some,
{
    assert(entry_names(catalog()) =~= cuisine_names());
}

/// No cuisine name occurs twice.
pub proof fn lemma_cuisine_names_distinct()
    ensures
        cuisine_names().no_duplicates(),
{
    reveal_strlit("French");
    reveal_strlit("Thai");
    reveal_strlit("Italian");
    reveal_strlit("Mexican");
    reveal_strlit("Chinese");
    reveal_strlit("Vietnamese");
    reveal_strlit("Japanese");
    let s = cuisine_names();
    assert forall|i: int, j: int| 0 <= i < s.len() && 0 <= j < s.len() && i != j implies s[i]
        != s[j] by {
        if s[i] == s[j] {
            assert(s[i].len() == s[j].len());
            assert(s[i][0] == s[j][0]);
        }
    }
}

impl RecipeDatabase {
    /// The cuisine names, in order.
    pub open spec fn names(&self) -> Seq<Seq<char>> {
        entry_names(self@)
    }

    /// Names are unique and every cuisine can be served.
    pub open spec fn wf(&self) -> bool {
        &&& self.names().no_duplicates()
        &&& forall|i: int| 0 <= i < self.cuisines@.len() ==> (#[trigger] self.cuisines@[i]).1.servable()
    }

    /// The catalog that `get_recipe_database` builds: well formed, holding
    /// exactly `catalog()`, whose names are `cuisine_names()`.
    pub open spec fn is_standard(&self) -> bool {
        &&& self.wf()
        &&& self@ == catalog()
        &&& self.names() == cuisine_names()
    }

    /// The recipes listed under `cuisine`, if any.
    pub open spec fn lookup(&self, cuisine: Seq<char>) -> Option<Seq<RecipeView>> {
        entry_lookup(self@, cuisine)
    }

    /// The recipes of `cuisine`, if the catalog has it.
    pub fn get(&self, cuisine: &str) -> (r: Option<&CuisineRecipes>)
        requires
            self.wf(),
        ensures
            match r {
                Some(c) => self.lookup(cuisine@) == Some(c@) && c.servable(),
                None => self.lookup(cuisine@) is None,
            },
    {
        let key = String::from_str(cuisine);
        let mut i: usize = 0;
        while i < self.cuisines.len()
            invariant
                i <= self.cuisines@.len(),
                self.wf(),
                key@ == cuisine@,
                forall|j: int| 0 <= j < i ==> self.names()[j] != cuisine@,
            decreases self.cuisines@.len() - i,
        {
            if self.cuisines[i].0 == key {
                assert(self.names()[i as int] == cuisine@);
                assert(self.names().contains(cuisine@));
                let ghost k = self.names().index_of(cuisine@);
                assert(0 <= k < self.names().len() && self.names()[k] == cuisine@);
                assert(k == i) by {
                    if k != i {
                        assert(self.names()[k] == self.names()[i as int]);
                        assert(!self.names().no_duplicates());
                    }
                }
                return Some(&self.cuisines[i].1);
            }
            i += 1;
        }
        assert(!self.names().contains(cuisine@));
        None
    }

    /// Whether the catalog has `cuisine`.
    pub fn contains(&self, cuisine: &str) -> (r: bool)
        requires
            self.wf(),
        ensures
            r == self.names().contains(cuisine@),
    {
        match self.get(cuisine) {
            Some(_) => true,
            None => false,
        }
    }

    /// The cuisine names, in catalog order.
    pub fn cuisine_names(&self) -> (r: Vec<String>)
        ensures
            views(r@) == self.names(),
    {
        let mut r: Vec<String> = Vec::new();
        let mut i: usize = 0;
        while i < self.cuisines.len()
            invariant
                i <= self.cuisines@.len(),
                views(r@) == self.names().take(i as int),
            decreases self.cuisines@.len() - i,
        {
            let name = self.cuisines[i].0.clone();
            proof {
                lemma_views_push(r@, name);
            }
            r.push(name);
            assert(self.names()[i as int] == self.cuisines@[i as int].0@);
            assert(views(r@) =~= self.names().take(i + 1));
            i += 1;
        }
        assert(self.names().take(i as int) =~= self.names());
        r
    }
}

/// Builds the catalog.
pub fn get_recipe_database() -> (db: RecipeDatabase)
    ensures
        db.is_standard(),
{
    let db = RecipeDatabase {
        cuisines: vec![
            ("French".to_string(), dataset::french()),
            ("Thai".to_string(), dataset::thai()),
            ("Italian".to_string(), dataset::italian()),
            ("Mexican".to_string(), dataset::mexican()),
            ("Chinese".to_string(), dataset::chinese()),
            ("Vietnamese".to_string(), dataset::vietnamese()),
            ("Japanese".to_string(), dataset::japanese()),
        ],
    };
    proof {
        reveal_strlit("French");
        reveal_strlit("Thai");
        reveal_strlit("Italian");
        reveal_strlit("Mexican");
        reveal_strlit("Chinese");
        reveal_strlit("Vietnamese");
        reveal_strlit("Japanese");
        assert(db@ =~= catalog());
        lemma_catalog_names();
        assert(forall|i: int|
            0 <= i < db.cuisines@.len() ==> (#[trigger] db.cuisines@[i]).1.servable());
        lemma_cuisine_names_distinct();
    }
    db
}

/// Whether the catalog has a cuisine of this name.
pub fn is_known_cuisine(cuisine: &str) -> (r: bool)
    ensures
        r == cuisine_names().contains(cuisine@),
{
    get_recipe_database().contains(cuisine)
}

/// The names of the catalog's cuisines, in catalog order.
pub fn get_available_cuisines() -> (r: Vec<String>)
    ensures
        views(r@) == cuisine_names(),
{
    get_recipe_database().cuisine_names()
}

/// The catalog's recipes for `cuisine` in Markdown, or the notice
/// `No recipes found for {cuisine}` where it has no such cuisine.
pub fn format_recipes_as_markdown(cuisine: &str) -> (r: String)
    ensures
        r@ == recipe_list_markdown(cuisine@, catalog_recipes(cuisine@)),
        !cuisine_names().contains(cuisine@) ==> r@ == "No recipes found for "@ + cuisine@,
{
    proof {
        lemma_catalog_names();
    }
    let db = get_recipe_database();
    render_recipe_list(cuisine, db.get(cuisine))
}

} // verus!
