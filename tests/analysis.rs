use mcp_server_meal_prep::overlap::{
    analyze_ingredient_overlap, analyze_recipes_overlap, ingredient_overlap, overlap_report,
};
use mcp_server_meal_prep::recipes::{CuisineRecipes, Recipe};

fn recipe(name: &str, ingredients: &[&str]) -> Recipe {
    Recipe {
        name: name.to_string(),
        recipe_type: "Main Course".to_string(),
        ingredients: ingredients.iter().map(|s| s.to_string()).collect(),
        instructions: vec!["Cook".to_string()],
    }
}

#[test]
fn no_shared_ingredient_gives_notice() {
    let recipes = CuisineRecipes::new(vec![recipe("A", &["x", "y"]), recipe("B", &["z"])]);
    assert_eq!(
        analyze_recipes_overlap("Test", &recipes),
        "No overlapping ingredients found in Test cuisine recipes."
    );
    assert_eq!(
        analyze_ingredient_overlap("Mexican"),
        "No overlapping ingredients found in Mexican cuisine recipes."
    );
}

#[test]
fn shared_ingredients_ranked_by_count() {
    let recipes = CuisineRecipes::new(vec![
        recipe("A", &["oil", "salt", "rice"]),
        recipe("B", &["salt", "oil", "egg"]),
        recipe("C", &["oil", "egg", "milk"]),
    ]);
    let ranking = ingredient_overlap(&recipes);
    assert_eq!(ranking.len(), 3);
    assert_eq!(ranking[0], ("oil".to_string(), 3));
    assert_eq!(ranking[1].1, 2);
    assert_eq!(ranking[2].1, 2);
    let mut rest = vec![ranking[1].0.clone(), ranking[2].0.clone()];
    rest.sort();
    assert_eq!(rest, vec!["egg", "salt"]);
    let text = analyze_recipes_overlap("Test", &recipes);
    assert!(text.starts_with("Common ingredients in Test cuisine:\n\n- oil (used in 3 recipes)\n"));
    assert!(text.contains("- salt (used in 2 recipes)\n"));
    assert!(text.contains("- egg (used in 2 recipes)\n"));
    assert!(!text.contains("rice"));
}

#[test]
fn italian_overlap_exact() {
    assert_eq!(
        analyze_ingredient_overlap("Italian"),
        "Common ingredients in Italian cuisine:\n\n- Salt (used in 2 recipes)\n"
    );
}

#[test]
fn chinese_overlap_most_frequent_first() {
    let text = analyze_ingredient_overlap("Chinese");
    assert!(text.starts_with(
        "Common ingredients in Chinese cuisine:\n\n- 2 tbsp vegetable oil (植物油) (used in 4 recipes)\n"
    ));
    assert_eq!(text.matches("(used in 2 recipes)").count(), 12);
}

#[test]
fn overlap_report_exact() {
    let common = vec![("a".to_string(), 3usize), ("b".to_string(), 2usize)];
    assert_eq!(
        overlap_report("X", &common),
        "Common ingredients in X cuisine:\n\n- a (used in 3 recipes)\n- b (used in 2 recipes)\n"
    );
    assert_eq!(
        overlap_report("X", &vec![]),
        "No overlapping ingredients found in X cuisine recipes."
    );
}

#[test]
fn repeated_line_within_one_recipe_counts_twice() {
    let recipes = CuisineRecipes::new(vec![recipe("A", &["salt", "salt"])]);
    assert_eq!(ingredient_overlap(&recipes), vec![("salt".to_string(), 2)]);
}

#[test]
fn kung_pao_in_chinese_recipes() {
    let text = mcp_server_meal_prep::recipes::format_recipes_as_markdown("Chinese");
    assert!(text.contains("# Chinese Recipes"));
    assert!(text.contains("Kung Pao Chicken"));
}
