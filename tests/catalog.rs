use mcp_server_meal_prep::recipes::{
    format_recipes_as_markdown, get_available_cuisines, get_recipe_database, is_known_cuisine,
    render_recipe_list, CuisineRecipes, Recipe,
};

#[test]
fn catalog_lists_cuisines_in_order() {
    assert_eq!(
        get_available_cuisines(),
        vec!["French", "Thai", "Italian", "Mexican", "Chinese", "Vietnamese", "Japanese"]
    );
}

#[test]
fn catalog_cuisines_are_servable() {
    let db = get_recipe_database();
    for name in get_available_cuisines() {
        let c = db.get(&name).unwrap();
        assert!(!c.recipes.is_empty());
        for r in &c.recipes {
            assert!(!r.ingredients.is_empty());
            assert!(!r.instructions.is_empty());
        }
    }
    assert!(db.get("Unknown").is_none());
    assert!(db.get("french").is_none());
}

#[test]
fn known_cuisine_is_case_sensitive() {
    assert!(is_known_cuisine("Mexican"));
    assert!(!is_known_cuisine("mexican"));
    assert!(!is_known_cuisine(""));
}

#[test]
fn unknown_cuisine_notice_is_exact() {
    assert_eq!(format_recipes_as_markdown("Korean"), "No recipes found for Korean");
    assert_eq!(render_recipe_list("Unknown", None), "No recipes found for Unknown");
}

#[test]
fn recipe_list_exact_text() {
    let recipes = CuisineRecipes::new(vec![Recipe {
        name: "Toast".to_string(),
        recipe_type: "Breakfast".to_string(),
        ingredients: vec!["Bread".to_string(), "Butter".to_string()],
        instructions: vec!["Toast the bread".to_string(), "Spread butter".to_string()],
    }]);
    let expected = "# Test Recipes\n\n## Toast\n**Type:** Breakfast\n\n**Ingredients:**\n- Bread\n- Butter\n\n**Recipe:**\n1. Toast the bread\n2. Spread butter\n\n";
    assert_eq!(render_recipe_list("Test", Some(&recipes)), expected);
}

#[test]
fn chinese_recipes_listed() {
    let text = format_recipes_as_markdown("Chinese");
    assert!(text.starts_with("# Chinese Recipes\n\n## 🥢 Kung Pao Chicken (宫保鸡丁)\n"));
    assert!(text.contains("## 🥩 Char Siu (叉烧) - Chinese BBQ Pork\n"));
    assert!(text.contains("## 🥧 Egg Tarts (蛋挞)\n"));
}

#[test]
fn italian_recipe_list_in_catalog_order() {
    let text = format_recipes_as_markdown("Italian");
    assert!(text.starts_with(
        "# Italian Recipes\n\n## 🍝 Spaghetti Carbonara\n**Type:** Main Course\n\n**Ingredients:**\n- 400g spaghetti\n"
    ));
    let headings: Vec<&str> = text.lines().filter(|l| l.starts_with("## ")).collect();
    assert_eq!(headings, vec!["## 🍝 Spaghetti Carbonara", "## 🍕 Margherita Pizza", "## ☕ Tiramisu"]);
    let tiramisu = &text[text.find("## ☕ Tiramisu").unwrap()..];
    for step in 1..=9 {
        assert!(tiramisu.contains(&format!("\n{}. ", step)));
    }
    assert!(!tiramisu.contains("\n10. "));
}

#[test]
fn catalog_recipe_counts() {
    let db = get_recipe_database();
    let counts: Vec<usize> = get_available_cuisines()
        .iter()
        .map(|c| db.get(c).unwrap().recipes.len())
        .collect();
    assert_eq!(counts, vec![3, 3, 3, 3, 9, 3, 3]);
}

#[test]
fn catalog_is_the_same_on_every_call() {
    let a = get_recipe_database();
    let b = get_recipe_database();
    for name in get_available_cuisines() {
        let x = &a.get(&name).unwrap().recipes;
        let y = &b.get(&name).unwrap().recipes;
        assert_eq!(x.len(), y.len());
        for (r, s) in x.iter().zip(y.iter()) {
            assert_eq!(r.name, s.name);
            assert_eq!(r.ingredients, s.ingredients);
            assert_eq!(r.instructions, s.instructions);
        }
    }
}
