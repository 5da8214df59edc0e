use mcp_server_meal_prep::meal_planner::{MealPlan, MealPlanRequest};
use mcp_server_meal_prep::recipes::format_recipes_as_markdown;
use mcp_server_meal_prep::service::{
    check_cuisine, cuisine_of_uri, cuisines_text, meal_plan_text, overlap_text,
    read_recipe_resource, recipes_text, requested_meal_plan_text, resource_name, resource_uri,
    weekly_meal_plan_text, ResourceError,
};
use mcp_server_meal_prep::shopping::scale;
use mcp_server_meal_prep::text::{decimal_string, join};

const AVAILABLE: &str = "French, Thai, Italian, Mexican, Chinese, Vietnamese, Japanese";

#[test]
fn cuisines_text_exact() {
    assert_eq!(cuisines_text(), format!("Available cuisines: {}", AVAILABLE));
}

#[test]
fn unknown_cuisine_is_rejected() {
    let err = check_cuisine("Klingon").unwrap_err();
    assert_eq!(err.cuisine, "Klingon");
    assert_eq!(
        err.message(),
        format!("Unknown cuisine: Klingon. Available cuisines: {}", AVAILABLE)
    );
    assert!(check_cuisine("Thai").is_ok());
    assert!(recipes_text("Klingon").is_err());
    assert!(meal_plan_text("Klingon", 7, 4).is_err());
    assert!(weekly_meal_plan_text("Klingon").is_err());
    assert!(overlap_text("Klingon").is_err());
}

#[test]
fn tool_texts_match_library() {
    assert_eq!(recipes_text("Thai").unwrap(), format_recipes_as_markdown("Thai"));
    assert_eq!(
        meal_plan_text("Thai", 3, 2).unwrap(),
        MealPlan::generate("Thai", 3, 2).to_markdown()
    );
    assert_eq!(
        weekly_meal_plan_text("Thai").unwrap(),
        MealPlan::generate("Thai", 7, 4).to_markdown()
    );
    let req = MealPlanRequest { cuisine: "Thai".to_string(), days: Some(2), servings: None };
    assert_eq!(
        requested_meal_plan_text(&req).unwrap(),
        MealPlan::generate("Thai", 2, 4).to_markdown()
    );
}

#[test]
fn resource_addresses() {
    assert_eq!(resource_uri("Thai"), "file://recipes/Thai");
    assert_eq!(resource_name("Thai"), "Thai Cuisine Recipes");
    assert_eq!(cuisine_of_uri("file://recipes/Thai"), Some("Thai".to_string()));
    assert_eq!(cuisine_of_uri("file://recipes/"), Some(String::new()));
    assert_eq!(cuisine_of_uri("file://recipe/Thai"), None);
    assert_eq!(cuisine_of_uri("file:"), None);
}

#[test]
fn read_resource_outcomes() {
    assert_eq!(
        read_recipe_resource("file://recipes/French").unwrap(),
        format_recipes_as_markdown("French")
    );
    match read_recipe_resource("file://recipes/Klingon") {
        Err(ResourceError::CuisineNotFound(c)) => assert_eq!(c, "Klingon"),
        other => panic!("unexpected {:?}", other),
    }
    match read_recipe_resource("http://recipes/French") {
        Err(ResourceError::MalformedUri) => {}
        other => panic!("unexpected {:?}", other),
    }
    assert_eq!(
        ResourceError::CuisineNotFound("Klingon".to_string()).message(),
        format!("Cuisine 'Klingon' not found. Available cuisines: {}", AVAILABLE)
    );
    assert_eq!(
        ResourceError::MalformedUri.message(),
        "Resource URI must be in format 'file://recipes/{cuisine}'"
    );
}

#[test]
fn number_and_list_text() {
    assert_eq!(decimal_string(0), "0");
    assert_eq!(decimal_string(7), "7");
    assert_eq!(decimal_string(1234), "1234");
    assert_eq!(decimal_string(u64::MAX), u64::MAX.to_string());
    assert_eq!(join(&vec![], ", "), "");
    assert_eq!(join(&vec!["a".to_string()], ", "), "a");
    assert_eq!(join(&vec!["a".to_string(), "b".to_string(), "c".to_string()], ", "), "a, b, c");
}

#[test]
fn scale_appends_servings() {
    assert_eq!(scale(&"2 eggs".to_string(), 4), "2 eggs (serves 4)");
    assert_eq!(scale(&"2 eggs".to_string(), 255), "2 eggs (serves 255)");
    assert_eq!(scale(&"2 eggs".to_string(), 1), "2 eggs");
    assert_eq!(scale(&"2 eggs".to_string(), 0), "2 eggs");
}
