use mcp_server_meal_prep::meal_planner::{MealPlan, MealPlanRequest};
use mcp_server_meal_prep::recipes::{get_recipe_database, CuisineRecipes, Recipe};

fn recipe(name: &str, ingredients: &[&str]) -> Recipe {
    Recipe {
        name: name.to_string(),
        recipe_type: "Main Course".to_string(),
        ingredients: ingredients.iter().map(|s| s.to_string()).collect(),
        instructions: vec!["Cook".to_string()],
    }
}

const WEEKDAYS: [&str; 7] = [
    "Monday",
    "Tuesday",
    "Wednesday",
    "Thursday",
    "Friday",
    "Saturday",
    "Sunday",
];

#[test]
fn plan_has_one_entry_per_day() {
    for days in [1u8, 2, 7, 10, 30] {
        let plan = MealPlan::generate("Thai", days, 2);
        assert_eq!(plan.days.len(), days as usize);
    }
}

#[test]
fn plan_of_zero_days_is_empty() {
    let plan = MealPlan::generate("Thai", 0, 2);
    assert!(plan.days.is_empty());
    assert_eq!(plan.shopping_list.total_items, 0);
    assert!(plan.shopping_list.ingredients.is_empty());
    assert_eq!(plan.preparation_tips.len(), 5);
}

#[test]
fn weekdays_cycle_every_seven_days() {
    let plan = MealPlan::generate("French", 16, 4);
    for (i, day) in plan.days.iter().enumerate() {
        assert_eq!(day.day, WEEKDAYS[i % 7]);
    }
    assert_eq!(plan.days[7].day, "Monday");
    assert_eq!(plan.days[15].day, "Tuesday");
}

#[test]
fn dinners_rotate_through_recipes() {
    let plan = MealPlan::generate("Italian", 7, 4);
    let names = [
        "🍝 Spaghetti Carbonara",
        "🍕 Margherita Pizza",
        "☕ Tiramisu",
    ];
    for (i, day) in plan.days.iter().enumerate() {
        assert_eq!(day.dinner, names[i % 3]);
    }
    let db = get_recipe_database();
    let chinese = db.get("Chinese").unwrap();
    let plan = MealPlan::generate("Chinese", 12, 1);
    for (i, day) in plan.days.iter().enumerate() {
        assert_eq!(day.dinner, chinese.recipes[i % chinese.recipes.len()].name);
    }
}

#[test]
fn breakfast_every_third_day_lunch_every_second() {
    let plan = MealPlan::generate("Japanese", 12, 4);
    for (i, day) in plan.days.iter().enumerate() {
        assert_eq!(day.breakfast.is_some(), i % 3 == 0);
        assert_eq!(day.lunch.is_some(), i % 2 == 0);
        if let Some(b) = &day.breakfast {
            assert_eq!(b, "Fresh fruit and yogurt");
        }
        if let Some(l) = &day.lunch {
            assert_eq!(l, "Light salad or soup");
        }
    }
}

#[test]
fn shopping_list_counts_its_items_and_names_users() {
    for cuisine in ["French", "Thai", "Italian", "Mexican", "Chinese", "Vietnamese", "Japanese"] {
        let plan = MealPlan::generate(cuisine, 9, 3);
        let list = &plan.shopping_list;
        assert_eq!(list.total_items, list.ingredients.len());
        for item in &list.ingredients {
            assert!(!item.used_in.is_empty());
            assert_eq!(item.quantity, "As needed");
        }
    }
}

#[test]
fn shopping_items_scaled_to_servings() {
    let plan = MealPlan::generate("Vietnamese", 3, 4);
    assert!(!plan.shopping_list.ingredients.is_empty());
    for item in &plan.shopping_list.ingredients {
        assert!(item.name.ends_with(" (serves 4)"));
    }
    let plan = MealPlan::generate("Vietnamese", 3, 12);
    for item in &plan.shopping_list.ingredients {
        assert!(item.name.ends_with(" (serves 12)"));
    }
}

#[test]
fn single_serving_keeps_raw_text() {
    let recipes = CuisineRecipes::new(vec![recipe("Soup", &["1 onion", "2 cups water"])]);
    let plan = MealPlan::from_recipes("Test", &recipes, 1, 1);
    let names: Vec<&str> = plan.shopping_list.ingredients.iter().map(|i| i.name.as_str()).collect();
    assert_eq!(names, vec!["1 onion", "2 cups water"]);
    let plan = MealPlan::from_recipes("Test", &recipes, 1, 0);
    assert_eq!(plan.shopping_list.ingredients[0].name, "1 onion");
}

#[test]
fn shared_ingredients_are_merged_in_first_seen_order() {
    let recipes = CuisineRecipes::new(vec![
        recipe("Soup", &["1 onion", "Salt"]),
        recipe("Stew", &["Salt", "1 carrot", "salt"]),
    ]);
    let plan = MealPlan::from_recipes("Test", &recipes, 3, 2);
    let list = &plan.shopping_list;
    assert_eq!(list.total_items, 4);
    let names: Vec<&str> = list.ingredients.iter().map(|i| i.name.as_str()).collect();
    assert_eq!(
        names,
        vec!["1 onion (serves 2)", "Salt (serves 2)", "1 carrot (serves 2)", "salt (serves 2)"]
    );
    assert_eq!(list.ingredients[0].used_in, vec!["Soup", "Soup"]);
    assert_eq!(list.ingredients[1].used_in, vec!["Soup", "Stew", "Soup"]);
    assert_eq!(list.ingredients[2].used_in, vec!["Stew"]);
    assert_eq!(list.ingredients[3].used_in, vec!["Stew"]);
}

#[test]
fn rendering_twice_gives_same_text() {
    let plan = MealPlan::generate("Chinese", 5, 3);
    let a = plan.to_markdown();
    let b = plan.to_markdown();
    assert_eq!(a, b);
    assert_eq!(a, plan.clone().to_markdown());
}

#[test]
fn italian_week_for_four() {
    let plan = MealPlan::generate("Italian", 7, 4);
    assert_eq!(plan.days.len(), 7);
    assert!(!plan.shopping_list.ingredients.is_empty());
    assert_eq!(plan.preparation_tips.len(), 5);
    assert_eq!(plan.preparation_tips[0], "Prep ingredients for Italian cuisine in advance");
    assert_eq!(plan.preparation_tips[4], "Store fresh herbs in water to keep them fresh longer");
}

#[test]
fn plan_markdown_exact_text() {
    let recipes = CuisineRecipes::new(vec![
        recipe("Soup", &["1 onion"]),
        recipe("Stew", &["1 onion", "1 carrot"]),
    ]);
    let plan = MealPlan::from_recipes("Test", &recipes, 2, 2);
    let expected = "# Weekly Meal Plan - Test Cuisine\n\n\
## Daily Meal Schedule\n\n\
### Monday\n\
- **Breakfast:** Fresh fruit and yogurt\n\
- **Lunch:** Light salad or soup\n\
- **Dinner:** Soup\n\n\
### Tuesday\n\
- **Dinner:** Stew\n\n\
## Shopping List\n\n\
**Total Items:** 2\n\n\
- **1 onion (serves 2)** (used in: Soup, Stew)\n\
- **1 carrot (serves 2)** (used in: Stew)\n\
\n## Preparation Tips\n\n\
1. Prep ingredients for Test cuisine in advance\n\
2. Marinate proteins the night before for better flavor\n\
3. Chop vegetables in batches to save time\n\
4. Cook grains and legumes in larger quantities for multiple meals\n\
5. Store fresh herbs in water to keep them fresh longer\n";
    assert_eq!(plan.to_markdown(), expected);
}

#[test]
fn request_defaults_to_a_week_for_four() {
    let req = MealPlanRequest { cuisine: "Thai".to_string(), days: None, servings: None };
    assert_eq!(req.counts(), (7, 4));
    let req = MealPlanRequest { cuisine: "Thai".to_string(), days: Some(3), servings: Some(1) };
    assert_eq!(req.counts(), (3, 1));
}

#[test]
fn mexican_three_days_schedule() {
    let text = MealPlan::generate("Mexican", 3, 2).to_markdown();
    assert!(text.contains(
        "## Daily Meal Schedule\n\n### Monday\n- **Breakfast:** Fresh fruit and yogurt\n- **Lunch:** Light salad or soup\n- **Dinner:** 🌮 Tacos al Pastor\n\n### Tuesday\n- **Dinner:** 🥑 Guacamole\n\n### Wednesday\n- **Lunch:** Light salad or soup\n- **Dinner:** 🍩 Churros\n\n## Shopping List\n\n**Total Items:** 27\n"
    ));
}

#[test]
fn italian_week_merges_salt() {
    let text = MealPlan::generate("Italian", 7, 4).to_markdown();
    assert!(text.contains("**Total Items:** 18\n"));
    let line = "- **Salt (serves 4)** (used in: 🍝 Spaghetti Carbonara, 🍕 Margherita Pizza, 🍝 Spaghetti Carbonara, 🍕 Margherita Pizza, 🍝 Spaghetti Carbonara)\n";
    assert_eq!(text.matches(line).count(), 1);
    assert_eq!(text.matches("- **Salt").count(), 1);
}
