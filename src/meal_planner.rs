//! Meal plans: dinners rotated through a cuisine's recipes day by day, fixed
//! breakfast and lunch suggestions on a cadence, a shopping list and tips.
use vstd::prelude::*;
use crate::recipes::{catalog_recipes, cuisine_names, get_recipe_database, CuisineRecipes, RecipeView};
use crate::shopping::{
    distinct_ingredients, item_views, lemma_distinct_no_duplicates, lemma_distinct_uses,
    shopping_items, ShoppingItemView, ShoppingListView, ShoppingTally, Usage,
};
pub use crate::shopping::{ShoppingItem, ShoppingList};
use crate::text::{decimal, decimal_string, join, joined, numbered, push_numbered, views};

verus! {

/// A request for a meal plan; missing counts take their defaults.
#[derive(Debug, Clone)]
pub struct MealPlanRequest {
    pub cuisine: String,
    pub days: Option<u8>,
    pub servings: Option<u8>,
}

/// The number of days planned when a request gives none.
pub const DEFAULT_DAYS: u8 = 7;

/// The number of servings planned when a request gives none.
pub const DEFAULT_SERVINGS: u8 = 4;

impl MealPlanRequest {
    /// The days to plan: those given, else the default.
    pub open spec fn planned_days(&self) -> u8 {
        match self.days {
            Some(d) => d,
            None => DEFAULT_DAYS,
        }
    }

    /// The servings to plan for: those given, else the default.
    pub open spec fn planned_servings(&self) -> u8 {
        match self.servings {
            Some(s) => s,
            None => DEFAULT_SERVINGS,
        }
    }

    /// The days and servings to plan.
    pub fn counts(&self) -> (r: (u8, u8))
        ensures
            r == (self.planned_days(), self.planned_servings()),
    {
        let days = match self.days {
            Some(d) => d,
            None => DEFAULT_DAYS,
        };
        let servings = match self.servings {
            Some(s) => s,
            None => DEFAULT_SERVINGS,
        };
        (days, servings)
    }
}

/// The meals of one day.
#[derive(Debug, Clone)]
pub struct DayPlan {
    pub day: String,
    pub breakfast: Option<String>,
    pub lunch: Option<String>,
    pub dinner: String,
}

/// What a day plan holds, as character sequences.
pub struct DayPlanView {
    pub day: Seq<char>,
    pub breakfast: Option<Seq<char>>,
    pub lunch: Option<Seq<char>>,
    pub dinner: Seq<char>,
}

/// The view of an optional string.
pub open spec fn opt_view(o: Option<String>) -> Option<Seq<char>> {
    match o {
        Some(s) => Some(s@),
        None => None,
    }
}

impl View for DayPlan {
    type V = DayPlanView;

    open spec fn view(&self) -> DayPlanView {
        DayPlanView {
            day: self.day@,
            breakfast: opt_view(self.breakfast),
            lunch: opt_view(self.lunch),
            dinner: self.dinner@,
        }
    }
}

/// A plan of meals for a number of days, with what to buy and how to prepare.
#[derive(Debug, Clone)]
pub struct MealPlan {
    pub cuisine: String,
    pub days: Vec<DayPlan>,
    pub shopping_list: ShoppingList,
    pub preparation_tips: Vec<String>,
}

/// What a meal plan holds.
pub struct MealPlanView {
    pub cuisine: Seq<char>,
    pub days: Seq<DayPlanView>,
    pub shopping_list: ShoppingListView,
    pub preparation_tips: Seq<Seq<char>>,
}

/// The views of a sequence of day plans.
pub open spec fn day_views(s: Seq<DayPlan>) -> Seq<DayPlanView> {
    s.map_values(|d: DayPlan| d@)
}

impl View for MealPlan {
    type V = MealPlanView;

    open spec fn view(&self) -> MealPlanView {
        MealPlanView {
            cuisine: self.cuisine@,
            days: day_views(self.days@),
            shopping_list: self.shopping_list@,
            preparation_tips: views(self.preparation_tips@),
        }
    }
}

/// The weekday of day `i`, counting from a Monday and cycling every week.
pub open spec fn weekday(i: int) -> Seq<char> {
    let k = i % 7;
    if k == 0 {
        "Monday"@
    } else if k == 1 {
        "Tuesday"@
    } else if k == 2 {
        "Wednesday"@
    } else if k == 3 {
        "Thursday"@
    } else if k == 4 {
        "Friday"@
    } else if k == 5 {
        "Saturday"@
    } else {
        "Sunday"@
    }
}

/// Breakfast is suggested on every third day, from the first.
pub open spec fn breakfast(i: int) -> Option<Seq<char>> {
    if i % 3 == 0 {
        Some("Fresh fruit and yogurt"@)
    } else {
        None
    }
}

/// Lunch is suggested on every second day, from the first.
pub open spec fn lunch(i: int) -> Option<Seq<char>> {
    if i % 2 == 0 {
        Some("Light salad or soup"@)
    } else {
        None
    }
}

/// The dinner of day `i`: the recipes taken in turn, starting over when
/// all have been served.
pub open spec fn dinner(recipes: Seq<RecipeView>, i: int) -> RecipeView {
    recipes[i % recipes.len() as int]
}

/// The plan of day `i`.
pub open spec fn day_plan(recipes: Seq<RecipeView>, i: int) -> DayPlanView {
    DayPlanView { day: weekday(i), breakfast: breakfast(i), lunch: lunch(i), dinner: dinner(recipes, i).name }
}

/// The uses of ingredients by one recipe, in its order.
pub open spec fn recipe_usages(r: RecipeView) -> Seq<Usage> {
    r.ingredients.map_values(|ing: Seq<char>| (ing, r.name))
}

/// The uses of ingredients by the dinners of the first `days` days, day by
/// day.
pub open spec fn plan_usages(recipes: Seq<RecipeView>, days: nat) -> Seq<Usage>
    decreases days,
{
    if days == 0 {
        Seq::empty()
    } else {
        plan_usages(recipes, (days - 1) as nat) + recipe_usages(dinner(recipes, days - 1))
    }
}

/// The preparation tips, the first naming the cuisine.
pub open spec fn preparation_tips(cuisine: Seq<char>) -> Seq<Seq<char>> {
    seq![
        "Prep ingredients for "@ + cuisine + " cuisine in advance"@,
        "Marinate proteins the night before for better flavor"@,
        "Chop vegetables in batches to save time"@,
        "Cook grains and legumes in larger quantities for multiple meals"@,
        "Store fresh herbs in water to keep them fresh longer"@,
    ]
}

/// The plan for `days` days of `cuisine` with the given recipes.
pub open spec fn meal_plan(cuisine: Seq<char>, recipes: Seq<RecipeView>, days: nat, servings: nat) -> MealPlanView {
    let items = shopping_items(plan_usages(recipes, days), servings);
    MealPlanView {
        cuisine,
        days: Seq::new(days, |i: int| day_plan(recipes, i)),
        shopping_list: ShoppingListView { items, total_items: items.len() },
        preparation_tips: preparation_tips(cuisine),
    }
}

/// What is appended to an ingredient's text for more than one serving.
pub open spec fn serving_suffix(servings: nat) -> Seq<char> {
    " (serves "@ + decimal(servings) + ")"@
}

/// Whether `s` ends with `suffix`.
pub open spec fn ends_with(s: Seq<char>, suffix: Seq<char>) -> bool {
    suffix.len() <= s.len() && s.subrange(s.len() - suffix.len(), s.len() as int) == suffix
}

/// What every generated plan satisfies: one entry per day, weekdays in turn,
/// breakfast every third day and lunch every second, each dinner taken from
/// the recipes in rotation; one shopping item per distinct ingredient, each
/// used by some dinner, its text scaled to the servings; five tips.
pub open spec fn plan_laws(p: MealPlanView, cuisine: Seq<char>, recipes: Seq<RecipeView>, days: nat, servings: nat) -> bool {
    let u = plan_usages(recipes, days);
    &&& p.cuisine == cuisine
    &&& p.days.len() == days
    &&& forall|i: int| 0 <= i < days ==> (#[trigger] p.days[i]).day == weekday(i)
    &&& forall|i: int| 0 <= i < days ==> (#[trigger] p.days[i]).dinner == recipes[i % recipes.len() as int].name
    &&& forall|i: int| 0 <= i < days ==> ((#[trigger] p.days[i]).breakfast is Some <==> i % 3 == 0)
    &&& forall|i: int| 0 <= i < days ==> ((#[trigger] p.days[i]).lunch is Some <==> i % 2 == 0)
    &&& p.shopping_list.total_items == p.shopping_list.items.len()
    &&& p.shopping_list.items.len() == distinct_ingredients(u).len()
    &&& distinct_ingredients(u).no_duplicates()
    &&& forall|e: int| 0 <= e < p.shopping_list.items.len() ==> (#[trigger] p.shopping_list.items[e]).used_in.len() > 0
    &&& forall|e: int| 0 <= e < p.shopping_list.items.len() && servings > 1 ==> ends_with(
        (#[trigger] p.shopping_list.items[e]).name,
        serving_suffix(servings),
    )
    &&& forall|e: int| 0 <= e < p.shopping_list.items.len() && servings <= 1 ==> (#[trigger] p.shopping_list.items[e]).name
        == distinct_ingredients(u)[e]
    &&& p.preparation_tips.len() == 5
    &&& p.preparation_tips[0] == "Prep ingredients for "@ + cuisine + " cuisine in advance"@
}

/// Every plan built by `meal_plan` satisfies `plan_laws`.
pub proof fn lemma_meal_plan_laws(cuisine: Seq<char>, recipes: Seq<RecipeView>, days: nat, servings: nat)
    requires
        recipes.len() > 0,
    ensures
        plan_laws(meal_plan(cuisine, recipes, days, servings), cuisine, recipes, days, servings),
{
    let p = meal_plan(cuisine, recipes, days, servings);
    let u = plan_usages(recipes, days);
    let d = distinct_ingredients(u);
    lemma_distinct_no_duplicates(u);
    assert forall|e: int| 0 <= e < p.shopping_list.items.len() implies (#[trigger] p.shopping_list.items[e]).used_in.len() > 0 by {
        assert(d.contains(d[e]));
        lemma_distinct_uses(u, d[e]);
    }
    assert forall|e: int| 0 <= e < p.shopping_list.items.len() && servings > 1 implies ends_with(
        (#[trigger] p.shopping_list.items[e]).name,
        serving_suffix(servings),
    ) by {
        let s = p.shopping_list.items[e].name;
        assert(s == d[e] + serving_suffix(servings)) by {
            assert(d[e] + " (serves "@ + decimal(servings) + ")"@ =~= d[e] + serving_suffix(servings));
        }
        assert(s.subrange(s.len() - serving_suffix(servings).len(), s.len() as int) =~= serving_suffix(servings));
    }
}

/// The name of the weekday of day `i`.
fn weekday_name(i: usize) -> (r: String)
    ensures
        r@ == weekday(i as int),
{
    let k = i % 7;
    if k == 0 {
        String::from_str("Monday")
    } else if k == 1 {
        String::from_str("Tuesday")
    } else if k == 2 {
        String::from_str("Wednesday")
    } else if k == 3 {
        String::from_str("Thursday")
    } else if k == 4 {
        String::from_str("Friday")
    } else if k == 5 {
        String::from_str("Saturday")
    } else {
        String::from_str("Sunday")
    }
}

fn tips_for(cuisine: &str) -> (r: Vec<String>)
    ensures
        views(r@) == preparation_tips(cuisine@),
{
    let mut first = String::from_str("Prep ingredients for ");
    first.append(cuisine);
    first.append(" cuisine in advance");
    let r = vec![
        first,
        String::from_str("Marinate proteins the night before for better flavor"),
        String::from_str("Chop vegetables in batches to save time"),
        String::from_str("Cook grains and legumes in larger quantities for multiple meals"),
        String::from_str("Store fresh herbs in water to keep them fresh longer"),
    ];
    assert(views(r@) =~= preparation_tips(cuisine@));
    r
}

/// The Markdown of one day: its heading, the breakfast and lunch lines where
/// there are such meals, and the dinner line.
pub open spec fn day_markdown(d: DayPlanView) -> Seq<char> {
    "### "@ + d.day + "\n"@ + match d.breakfast {
        Some(b) => "- **Breakfast:** "@ + b + "\n"@,
        None => Seq::empty(),
    } + match d.lunch {
        Some(l) => "- **Lunch:** "@ + l + "\n"@,
        None => Seq::empty(),
    } + "- **Dinner:** "@ + d.dinner + "\n\n"@
}

/// The Markdown of the days, one after the other.
pub open spec fn days_markdown(s: Seq<DayPlanView>) -> Seq<char>
    decreases s.len(),
{
    if s.len() == 0 {
        Seq::empty()
    } else {
        days_markdown(s.drop_last()) + day_markdown(s.last())
    }
}

/// The Markdown line of a shopping item, naming the recipes that use it
/// where there are any.
pub open spec fn item_markdown(it: ShoppingItemView) -> Seq<char> {
    "- **"@ + it.name + "**"@ + if it.used_in.len() > 0 {
        " (used in: "@ + joined(it.used_in, ", "@) + ")"@
    } else {
        Seq::empty()
    } + "\n"@
}

/// The Markdown lines of the shopping items, one after the other.
pub open spec fn items_markdown(s: Seq<ShoppingItemView>) -> Seq<char>
    decreases s.len(),
{
    if s.len() == 0 {
        Seq::empty()
    } else {
        items_markdown(s.drop_last()) + item_markdown(s.last())
    }
}

/// The Markdown of a plan: a heading with the cuisine, the daily schedule,
/// the shopping list with its item count, and the numbered tips.
pub open spec fn plan_markdown(p: MealPlanView) -> Seq<char> {
    "# Weekly Meal Plan - "@ + p.cuisine + " Cuisine\n\n"@ + "## Daily Meal Schedule\n\n"@
        + days_markdown(p.days) + "## Shopping List\n\n"@ + "**Total Items:** "@ + decimal(
        p.shopping_list.total_items,
    ) + "\n\n"@ + items_markdown(p.shopping_list.items) + "\n## Preparation Tips\n\n"@ + numbered(
        p.preparation_tips,
    )
}

/// Rendering depends on the plan's contents alone: two plans that hold the
/// same values render to the same text.
pub proof fn lemma_render_deterministic(a: MealPlan, b: MealPlan)
    requires
        a@ == b@,
    ensures
        plan_markdown(a@) == plan_markdown(b@),
{
}

fn push_day(out: &mut String, d: &DayPlan)
    ensures
        final(out)@ == old(out)@ + day_markdown(d@),
{
    let ghost start = out@;
    out.append("### ");
    out.append(d.day.as_str());
    out.append("\n");
    let ghost mid = out@;
    match &d.breakfast {
        Some(b) => {
            out.append("- **Breakfast:** ");
            out.append(b.as_str());
            out.append("\n");
        },
        None => {},
    }
    let ghost after_breakfast = out@;
    match &d.lunch {
        Some(l) => {
            out.append("- **Lunch:** ");
            out.append(l.as_str());
            out.append("\n");
        },
        None => {},
    }
    let ghost after_lunch = out@;
    out.append("- **Dinner:** ");
    out.append(d.dinner.as_str());
    out.append("\n\n");
    proof {
        let bl = match d@.breakfast {
            Some(b) => "- **Breakfast:** "@ + b + "\n"@,
            None => Seq::<char>::empty(),
        };
        let ll = match d@.lunch {
            Some(l) => "- **Lunch:** "@ + l + "\n"@,
            None => Seq::<char>::empty(),
        };
        assert(after_breakfast =~= mid + bl);
        assert(after_lunch =~= mid + bl + ll);
        assert(out@ =~= start + day_markdown(d@));
    }
}

fn push_item(out: &mut String, it: &ShoppingItem)
    ensures
        final(out)@ == old(out)@ + item_markdown(it@),
{
    let ghost start = out@;
    out.append("- **");
    out.append(it.name.as_str());
    out.append("**");
    let ghost mid = out@;
    if it.used_in.len() > 0 {
        out.append(" (used in: ");
        let names = join(&it.used_in, ", ");
        out.append(names.as_str());
        out.append(")");
    }
    let ghost after = out@;
    out.append("\n");
    proof {
        let ul = if it@.used_in.len() > 0 {
            " (used in: "@ + joined(it@.used_in, ", "@) + ")"@
        } else {
            Seq::<char>::empty()
        };
        assert(after =~= mid + ul);
        assert(out@ =~= start + item_markdown(it@));
    }
}

impl MealPlan {
    /// Plans `days` days of `cuisine`, taking dinners from `recipes` in turn.
    pub fn from_recipes(cuisine: &str, recipes: &CuisineRecipes, days: u8, servings: u8) -> (plan: Self)
        requires
            recipes@.len() > 0,
        ensures
            plan@ == meal_plan(cuisine@, recipes@, days as nat, servings as nat),
            plan_laws(plan@, cuisine@, recipes@, days as nat, servings as nat),
    {
        let n = recipes.recipes.len();
        let mut day_plans: Vec<DayPlan> = Vec::new();
        let mut tally = ShoppingTally::new(servings);
        let mut i: u8 = 0;
        while i < days
            invariant
                n == recipes@.len(),
                n > 0,
                i <= days,
                tally.wf(),
                tally.servings == servings,
                tally.log@ == plan_usages(recipes@, i as nat),
                day_plans@.len() == i,
                forall|k: int| 0 <= k < i ==> (#[trigger] day_plans@[k])@ == day_plan(recipes@, k),
            decreases days - i,
        {
            let r = &recipes.recipes[i as usize % n];
            assert(r@ == dinner(recipes@, i as int));
            let ghost start = tally.log@;
            let mut j: usize = 0;
            while j < r.ingredients.len()
                invariant
                    j <= r@.ingredients.len(),
                    tally.wf(),
                    tally.servings == servings,
                    tally.log@ == start + recipe_usages(r@).take(j as int),
                decreases r@.ingredients.len() - j,
            {
                tally.record(&r.ingredients[j], &r.name);
                assert(tally.log@ =~= start + recipe_usages(r@).take(j + 1));
                j += 1;
            }
            assert(recipe_usages(r@).take(j as int) =~= recipe_usages(r@));
            let day = DayPlan {
                day: weekday_name(i as usize),
                breakfast: if i % 3 == 0 {
                    Some(String::from_str("Fresh fruit and yogurt"))
                } else {
                    None
                },
                lunch: if i % 2 == 0 {
                    Some(String::from_str("Light salad or soup"))
                } else {
                    None
                },
                dinner: r.name.clone(),
            };
            day_plans.push(day);
            i += 1;
        }
        let shopping_list = tally.finish();
        let plan = MealPlan {
            cuisine: String::from_str(cuisine),
            days: day_plans,
            shopping_list,
            preparation_tips: tips_for(cuisine),
        };
        proof {
            let m = meal_plan(cuisine@, recipes@, days as nat, servings as nat);
            assert(plan@.days =~= m.days);
            assert(plan@.shopping_list == m.shopping_list);
            lemma_meal_plan_laws(cuisine@, recipes@, days as nat, servings as nat);
        }
        plan
    }

    /// Plans `days` days of `cuisine` from the catalog, for `servings` people.
    pub fn generate(cuisine: &str, days: u8, servings: u8) -> (plan: Self)
        requires
            cuisine_names().contains(cuisine@),
        ensures
            catalog_recipes(cuisine@) is Some,
            plan@ == meal_plan(cuisine@, catalog_recipes(cuisine@)->0, days as nat, servings as nat),
            plan_laws(plan@, cuisine@, catalog_recipes(cuisine@)->0, days as nat, servings as nat),
    {
        let db = get_recipe_database();
        let recipes = db.get(cuisine).unwrap();
        MealPlan::from_recipes(cuisine, recipes, days, servings)
    }

    /// Renders the plan as Markdown.
    pub fn to_markdown(&self) -> (r: String)
        ensures
            r@ == plan_markdown(self@),
    {
        let mut r = String::from_str("# Weekly Meal Plan - ");
        r.append(self.cuisine.as_str());
        r.append(" Cuisine\n\n");
        r.append("## Daily Meal Schedule\n\n");
        let ghost head = r@;
        let mut i: usize = 0;
        while i < self.days.len()
            invariant
                i <= self.days@.len(),
                r@ == head + days_markdown(day_views(self.days@).take(i as int)),
            decreases self.days@.len() - i,
        {
            assert(day_views(self.days@).take(i + 1).drop_last() =~= day_views(self.days@).take(i as int));
            push_day(&mut r, &self.days[i]);
            assert(r@ =~= head + days_markdown(day_views(self.days@).take(i + 1)));
            i += 1;
        }
        assert(day_views(self.days@).take(i as int) =~= day_views(self.days@));
        r.append("## Shopping List\n\n");
        r.append("**Total Items:** ");
        let total = decimal_string(self.shopping_list.total_items as u64);
        r.append(total.as_str());
        r.append("\n\n");
        let ghost mid = r@;
        let items = &self.shopping_list.ingredients;
        let mut k: usize = 0;
        while k < items.len()
            invariant
                k <= items@.len(),
                r@ == mid + items_markdown(item_views(items@).take(k as int)),
            decreases items@.len() - k,
        {
            assert(item_views(items@).take(k + 1).drop_last() =~= item_views(items@).take(k as int));
            push_item(&mut r, &items[k]);
            assert(r@ =~= mid + items_markdown(item_views(items@).take(k + 1)));
            k += 1;
        }
        assert(item_views(items@).take(k as int) =~= item_views(items@));
        r.append("\n## Preparation Tips\n\n");
        push_numbered(&mut r, &self.preparation_tips);
        assert(r@ =~= plan_markdown(self@));
        r
    }
}

} // verus!
