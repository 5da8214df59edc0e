//! What the server answers: the text of each tool and resource, and the
//! errors for unknown cuisines and malformed resource addresses.
use vstd::prelude::*;
use crate::meal_planner::{
    meal_plan, plan_markdown, MealPlan, MealPlanRequest, DEFAULT_DAYS, DEFAULT_SERVINGS,
};
use crate::overlap::{analyze_ingredient_overlap, is_overlap_report};
use crate::recipes::{
    catalog_recipes, cuisine_names, format_recipes_as_markdown, get_available_cuisines, is_known_cuisine,
    recipe_list_markdown,
};
use crate::text::{join, joined};

verus! {

/// The prefix of the address of a cuisine's recipe resource.
pub open spec fn resource_prefix() -> Seq<char> {
    "file://recipes/"@
}

/// The catalog's cuisine names separated by commas.
pub open spec fn cuisine_list() -> Seq<char> {
    joined(cuisine_names(), ", "@)
}

/// A cuisine name that the catalog does not have.
#[derive(Debug, Clone)]
pub struct UnknownCuisine {
    pub cuisine: String,
}

impl UnknownCuisine {
    /// The message naming the cuisine and those available.
    pub fn message(&self) -> (r: String)
        ensures
            r@ == "Unknown cuisine: "@ + self.cuisine@ + ". Available cuisines: "@ + cuisine_list(),
    {
        let mut r = String::from_str("Unknown cuisine: ");
        r.append(self.cuisine.as_str());
        r.append(". Available cuisines: ");
        let names = join(&get_available_cuisines(), ", ");
        r.append(names.as_str());
        r
    }
}

/// Why a recipe resource cannot be read.
#[derive(Debug, Clone)]
pub enum ResourceError {
    /// The address names a cuisine that the catalog does not have.
    CuisineNotFound(String),
    /// The address does not start with the resource prefix.
    MalformedUri,
}

impl ResourceError {
    /// The message describing the error.
    pub fn message(&self) -> (r: String)
        ensures
            match self {
                ResourceError::CuisineNotFound(c) => r@ == "Cuisine '"@ + c@ + "' not found. Available cuisines: "@
                    + cuisine_list(),
                ResourceError::MalformedUri => r@ == "Resource URI must be in format 'file://recipes/{cuisine}'"@,
            },
    {
        match self {
            ResourceError::CuisineNotFound(c) => {
                let mut r = String::from_str("Cuisine '");
                r.append(c.as_str());
                r.append("' not found. Available cuisines: ");
                let names = join(&get_available_cuisines(), ", ");
                r.append(names.as_str());
                r
            },
            ResourceError::MalformedUri => String::from_str(
                "Resource URI must be in format 'file://recipes/{cuisine}'",
            ),
        }
    }
}

/// The text listing the catalog's cuisines.
pub fn cuisines_text() -> (r: String)
    ensures
        r@ == "Available cuisines: "@ + cuisine_list(),
{
    let mut r = String::from_str("Available cuisines: ");
    let names = join(&get_available_cuisines(), ", ");
    r.append(names.as_str());
    r
}

/// The address of the recipe resource of `cuisine`.
pub fn resource_uri(cuisine: &str) -> (r: String)
    ensures
        r@ == resource_prefix() + cuisine@,
{
    let mut r = String::from_str("file://recipes/");
    r.append(cuisine);
    r
}

/// The title of the recipe resource of `cuisine`.
pub fn resource_name(cuisine: &str) -> (r: String)
    ensures
        r@ == cuisine@ + " Cuisine Recipes"@,
{
    let mut r = String::from_str(cuisine);
    r.append(" Cuisine Recipes");
    r
}

/// The cuisine that a resource address names: what follows the prefix.
pub fn cuisine_of_uri(uri: &str) -> (r: Option<String>)
    ensures
        match r {
            Some(c) => uri@ == resource_prefix() + c@,
            None => !resource_prefix().is_prefix_of(uri@),
        },
{
    let prefix = "file://recipes/";
    let n = prefix.unicode_len();
    let m = uri.unicode_len();
    if m < n {
        return None;
    }
    let mut i: usize = 0;
    while i < n
        invariant
            prefix@ == resource_prefix(),
            n == prefix@.len(),
            m == uri@.len(),
            n <= m,
            i <= n,
            forall|j: int| 0 <= j < i ==> prefix@[j] == uri@[j],
        decreases n - i,
    {
        let a = prefix.get_char(i);
        let b = uri.get_char(i);
        if a != b {
            assert(!resource_prefix().is_prefix_of(uri@)) by {
                if prefix@.is_prefix_of(uri@) {
                    assert(prefix@ =~= uri@.subrange(0, n as int));
                    assert(prefix@[i as int] == uri@.subrange(0, n as int)[i as int]);
                    assert(uri@.subrange(0, n as int)[i as int] == uri@[i as int]);
                }
            }
            return None;
        }
        i += 1;
    }
    let rest = String::from_str(uri.substring_char(n, m));
    assert(uri@ =~= prefix@ + rest@);
    Some(rest)
}

/// Checks that the catalog has `cuisine`.
pub fn check_cuisine(cuisine: &str) -> (r: Result<(), UnknownCuisine>)
    ensures
        r is Ok <==> cuisine_names().contains(cuisine@),
        match r {
            Err(e) => e.cuisine@ == cuisine@,
            Ok(_) => true,
        },
{
    if is_known_cuisine(cuisine) {
        Ok(())
    } else {
        Err(UnknownCuisine { cuisine: String::from_str(cuisine) })
    }
}

/// The recipes of a catalog cuisine in Markdown.
pub fn recipes_text(cuisine: &str) -> (r: Result<String, UnknownCuisine>)
    ensures
        r is Ok <==> cuisine_names().contains(cuisine@),
        match r {
            Ok(text) => text@ == recipe_list_markdown(cuisine@, catalog_recipes(cuisine@)),
            Err(e) => e.cuisine@ == cuisine@,
        },
{
    match check_cuisine(cuisine) {
        Ok(()) => Ok(format_recipes_as_markdown(cuisine)),
        Err(e) => Err(e),
    }
}

/// The Markdown of a plan of `days` days for `servings` of a catalog cuisine.
pub fn meal_plan_text(cuisine: &str, days: u8, servings: u8) -> (r: Result<String, UnknownCuisine>)
    ensures
        r is Ok <==> cuisine_names().contains(cuisine@),
        match r {
            Ok(text) => catalog_recipes(cuisine@) is Some && text@ == plan_markdown(
                    meal_plan(cuisine@, catalog_recipes(cuisine@)->0, days as nat, servings as nat),
                ),
            Err(e) => e.cuisine@ == cuisine@,
        },
{
    match check_cuisine(cuisine) {
        Ok(()) => {
            let plan = MealPlan::generate(cuisine, days, servings);
            Ok(plan.to_markdown())
        },
        Err(e) => Err(e),
    }
}

/// The Markdown of the plan that a request asks for, with the default counts
/// where it gives none.
pub fn requested_meal_plan_text(request: &MealPlanRequest) -> (r: Result<String, UnknownCuisine>)
    ensures
        r is Ok <==> cuisine_names().contains(request.cuisine@),
        match r {
            Ok(text) => catalog_recipes(request.cuisine@) is Some && text@ == plan_markdown(
                    meal_plan(
                        request.cuisine@,
                        catalog_recipes(request.cuisine@)->0,
                        request.planned_days() as nat,
                        request.planned_servings() as nat,
                    ),
                ),
            Err(e) => e.cuisine@ == request.cuisine@,
        },
{
    let (days, servings) = request.counts();
    meal_plan_text(request.cuisine.as_str(), days, servings)
}

/// The Markdown of a plan with the default counts (a week, four servings) of a catalog cuisine.
pub fn weekly_meal_plan_text(cuisine: &str) -> (r: Result<String, UnknownCuisine>)
    ensures
        r is Ok <==> cuisine_names().contains(cuisine@),
        match r {
            Ok(text) => catalog_recipes(cuisine@) is Some && text@ == plan_markdown(
                    meal_plan(cuisine@, catalog_recipes(cuisine@)->0, DEFAULT_DAYS as nat, DEFAULT_SERVINGS as nat),
                ),
            Err(e) => e.cuisine@ == cuisine@,
        },
{
    meal_plan_text(cuisine, DEFAULT_DAYS, DEFAULT_SERVINGS)
}

/// The ingredient overlap report of a catalog cuisine.
pub fn overlap_text(cuisine: &str) -> (r: Result<String, UnknownCuisine>)
    ensures
        r is Ok <==> cuisine_names().contains(cuisine@),
        match r {
            Ok(text) => catalog_recipes(cuisine@) is Some && is_overlap_report(
                    cuisine@,
                    catalog_recipes(cuisine@)->0,
                    text@,
                ),
            Err(e) => e.cuisine@ == cuisine@,
        },
{
    match check_cuisine(cuisine) {
        Ok(()) => Ok(analyze_ingredient_overlap(cuisine)),
        Err(e) => Err(e),
    }
}

/// The recipe resource at `uri`: the Markdown of the cuisine it names, or
/// why there is none.
pub fn read_recipe_resource(uri: &str) -> (r: Result<String, ResourceError>)
    ensures
        match r {
            Ok(text) => exists|c: Seq<char>|
                #![trigger catalog_recipes(c)]
                uri@ == resource_prefix() + c && cuisine_names().contains(c) && text@ == recipe_list_markdown(
                    c,
                    catalog_recipes(c),
                ),
            Err(ResourceError::CuisineNotFound(c)) => uri@ == resource_prefix() + c@ && !cuisine_names().contains(c@),
            Err(ResourceError::MalformedUri) => !resource_prefix().is_prefix_of(uri@),
        },
{
    match cuisine_of_uri(uri) {
        Some(c) => {
            if is_known_cuisine(c.as_str()) {
                Ok(format_recipes_as_markdown(c.as_str()))
            } else {
                Err(ResourceError::CuisineNotFound(c))
            }
        },
        None => Err(ResourceError::MalformedUri),
    }
}

} // verus!
