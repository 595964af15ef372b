use recipe_store::error::{decimal_text, ApiError};
use recipe_store::models::{
    stored_ids, Ingredient, Instruction, Recipe, RecipeBase, UpdateIngredientRequest,
    UpdateInstructionRequest,
};
use recipe_store::ordering::sort_by_position;
use recipe_store::reconcile::{items_to_delete, reconcile, MaybeIdentifiable};
use recipe_store::search::{add_owners, like_pattern};
use recipe_store::models::{CreateIngredientRequest, CreateInstructionRequest};
use recipe_store::sequences::contains_id;
use recipe_store::statements::{child_columns, ChildColumns, ChildDraft, ChildKind, Statement};
use recipe_store::static_files::{asset_path, StaticFile};
use std::collections::HashSet;

fn edit(id: Option<i64>, position: i64, description: &str) -> UpdateIngredientRequest {
    UpdateIngredientRequest { id, position, description: description.to_string() }
}

fn ingredient(id: i64, recipe_id: i64, position: i64, description: &str) -> Ingredient {
    Ingredient { id, recipe_id, position, description: description.to_string() }
}

fn child(position: i64, description: &str) -> ChildColumns {
    ChildColumns { position, description: description.to_string() }
}

#[test]
fn decimal_text_of_small_and_large_numbers() {
    assert_eq!(decimal_text(0), "0");
    assert_eq!(decimal_text(7), "7");
    assert_eq!(decimal_text(10), "10");
    assert_eq!(decimal_text(1234567890), "1234567890");
    assert_eq!(decimal_text(-1), "-1");
    assert_eq!(decimal_text(-905), "-905");
    assert_eq!(decimal_text(i64::MAX), "9223372036854775807");
    assert_eq!(decimal_text(i64::MIN), "-9223372036854775808");
}

#[test]
fn not_found_names_the_recipe() {
    let error = ApiError::NotFound { id: 42 };
    assert_eq!(error.status(), 404);
    assert_eq!(error.message(), "recipe with id 42 not found");
    assert_eq!(ApiError::NotFound { id: -3 }.message(), "recipe with id -3 not found");
}

#[test]
fn internal_error_withholds_the_cause() {
    let error = ApiError::Internal;
    assert_eq!(error.status(), 500);
    assert_eq!(
        error.message(),
        "Something bad happened, please try again or ask your IT guru for help."
    );
}

#[test]
fn recipe_new_takes_base_fields_and_children_as_given() {
    let base = RecipeBase {
        id: 5,
        author: Some("Ada".to_string()),
        name: "Pasta".to_string(),
        description: None,
        difficulty: Some("easy".to_string()),
        estimated_duration: Some("20 min".to_string()),
    };
    let ingredients = vec![ingredient(2, 5, 9, "sauce"), ingredient(1, 5, 1, "noodles")];
    let instructions =
        vec![Instruction { id: 4, recipe_id: 5, position: 1, description: "boil".to_string() }];
    let recipe = Recipe::new(base, ingredients.clone(), instructions.clone());
    assert_eq!(
        recipe,
        Recipe {
            id: 5,
            author: Some("Ada".to_string()),
            name: "Pasta".to_string(),
            description: None,
            difficulty: Some("easy".to_string()),
            estimated_duration: Some("20 min".to_string()),
            ingredients,
            instructions,
        }
    );
}

#[test]
fn update_items_report_their_id() {
    assert_eq!(edit(Some(3), 1, "a").id(), Some(3));
    assert_eq!(edit(None, 1, "a").id(), None);
    let item = UpdateInstructionRequest { id: Some(8), position: 2, description: "b".to_string() };
    assert_eq!(item.id(), Some(8));
    assert_eq!(item.position(), 2);
    assert_eq!(item.description(), "b");
}

#[test]
fn stored_ids_keep_the_stored_order() {
    let rows = vec![ingredient(9, 1, 1, "a"), ingredient(2, 1, 2, "b"), ingredient(5, 1, 3, "c")];
    assert_eq!(stored_ids(&rows), vec![9, 2, 5]);
    let none: Vec<Ingredient> = vec![];
    assert_eq!(stored_ids(&none), Vec::<i64>::new());
}

#[test]
fn items_to_delete_are_the_stored_ids_that_are_not_submitted() {
    let submitted = vec![edit(Some(2), 1, "a"), edit(None, 2, "b"), edit(Some(4), 3, "c")];
    assert_eq!(items_to_delete(vec![1, 2, 3, 4, 5], &submitted), vec![1, 3, 5]);
    assert_eq!(items_to_delete(vec![4, 2], &submitted), Vec::<i64>::new());
    assert_eq!(items_to_delete(vec![], &submitted), Vec::<i64>::new());
}

#[test]
fn items_to_delete_ignores_submitted_ids_that_are_not_stored() {
    let submitted = vec![edit(Some(99), 1, "a")];
    assert_eq!(items_to_delete(vec![1, 2], &submitted), vec![1, 2]);
}

#[test]
fn reconcile_deletes_then_updates_then_inserts() {
    let submitted = vec![
        edit(None, 1, "new first"),
        edit(Some(11), 2, "kept"),
        edit(None, 3, "new second"),
        edit(Some(12), 4, "also kept"),
    ];
    let plan = reconcile(ChildKind::Ingredient, 7, vec![10, 11, 12, 13], &submitted);
    assert_eq!(
        plan,
        vec![
            Statement::DeleteChildren { kind: ChildKind::Ingredient, ids: vec![10, 13] },
            Statement::UpdateChild { kind: ChildKind::Ingredient, recipe_id: 7, id: 11, child: child(2, "kept") },
            Statement::UpdateChild {
                kind: ChildKind::Ingredient,
                recipe_id: 7,
                id: 12,
                child: child(4, "also kept")
            },
            Statement::InsertChild {
                kind: ChildKind::Ingredient,
                recipe_id: 7,
                child: child(1, "new first")
            },
            Statement::InsertChild {
                kind: ChildKind::Ingredient,
                recipe_id: 7,
                child: child(3, "new second")
            },
        ]
    );
}

#[test]
fn reconcile_with_nothing_submitted_deletes_every_stored_row() {
    let submitted: Vec<UpdateInstructionRequest> = vec![];
    let plan = reconcile(ChildKind::Instruction, 7, vec![3, 1, 2], &submitted);
    assert_eq!(
        plan,
        vec![Statement::DeleteChildren { kind: ChildKind::Instruction, ids: vec![3, 1, 2] }]
    );
}

#[test]
fn reconcile_with_nothing_stored_and_nothing_submitted_plans_nothing() {
    let submitted: Vec<UpdateIngredientRequest> = vec![];
    assert_eq!(reconcile(ChildKind::Ingredient, 7, vec![], &submitted), vec![]);
}

#[test]
fn reconcile_of_new_items_only_inserts_one_row_per_item() {
    let submitted = vec![edit(None, 1, "a"), edit(None, 2, "b"), edit(None, 2, "b")];
    let plan = reconcile(ChildKind::Ingredient, 4, vec![], &submitted);
    assert_eq!(
        plan,
        vec![
            Statement::InsertChild { kind: ChildKind::Ingredient, recipe_id: 4, child: child(1, "a") },
            Statement::InsertChild { kind: ChildKind::Ingredient, recipe_id: 4, child: child(2, "b") },
            Statement::InsertChild { kind: ChildKind::Ingredient, recipe_id: 4, child: child(2, "b") },
        ]
    );
}

#[test]
fn reconcile_of_the_stored_state_only_updates() {
    let submitted = vec![edit(Some(1), 1, "a"), edit(Some(2), 2, "b")];
    let first = reconcile(ChildKind::Ingredient, 4, vec![1, 2], &submitted);
    let second = reconcile(ChildKind::Ingredient, 4, vec![1, 2], &submitted);
    assert_eq!(
        first,
        vec![
            Statement::UpdateChild { kind: ChildKind::Ingredient, recipe_id: 4, id: 1, child: child(1, "a") },
            Statement::UpdateChild { kind: ChildKind::Ingredient, recipe_id: 4, id: 2, child: child(2, "b") },
        ]
    );
    assert_eq!(first, second);
}

#[test]
fn reconcile_updates_an_id_that_is_not_stored_and_repeats_a_repeated_id() {
    let submitted = vec![edit(Some(50), 1, "ghost"), edit(Some(1), 2, "x"), edit(Some(1), 3, "y")];
    let plan = reconcile(ChildKind::Ingredient, 4, vec![1], &submitted);
    assert_eq!(
        plan,
        vec![
            Statement::UpdateChild { kind: ChildKind::Ingredient, recipe_id: 4, id: 50, child: child(1, "ghost") },
            Statement::UpdateChild { kind: ChildKind::Ingredient, recipe_id: 4, id: 1, child: child(2, "x") },
            Statement::UpdateChild { kind: ChildKind::Ingredient, recipe_id: 4, id: 1, child: child(3, "y") },
        ]
    );
}

#[test]
fn like_pattern_wraps_the_query_in_wildcards() {
    assert_eq!(like_pattern("choc"), "%choc%");
    assert_eq!(like_pattern(""), "%%");
    assert_eq!(like_pattern("caf\u{e9} au lait"), "%caf\u{e9} au lait%");
}

#[test]
fn like_pattern_escapes_what_would_be_a_wildcard() {
    assert_eq!(like_pattern("_"), "%\\_%");
    assert_eq!(like_pattern("50% off"), "%50\\% off%");
    assert_eq!(like_pattern("a\\b"), "%a\\\\b%");
    assert_eq!(like_pattern("%_\\"), "%\\%\\_\\\\%");
}

#[test]
fn add_owners_adds_each_owner_once() {
    let rows = vec![
        ingredient(1, 8, 1, "a"),
        ingredient(2, 3, 1, "b"),
        ingredient(3, 8, 2, "c"),
        ingredient(4, 5, 1, "d"),
    ];
    let expected: HashSet<i64> = [8, 3, 5].into_iter().collect();
    assert_eq!(add_owners(HashSet::new(), &rows), expected);
    let found: HashSet<i64> = [5, 1].into_iter().collect();
    let expected: HashSet<i64> = [5, 1, 8, 3].into_iter().collect();
    assert_eq!(add_owners(found, &rows), expected);
    let none: Vec<Instruction> = vec![];
    let found: HashSet<i64> = [2].into_iter().collect();
    assert_eq!(add_owners(found.clone(), &none), found);
}

fn cleaned_by_std(uri_path: &str) -> String {
    let mut path = uri_path.trim_start_matches('/').to_string();
    if path.starts_with("static/") {
        path = path.replace("static/", "");
    }
    path
}

#[test]
fn asset_path_drops_leading_slashes_and_the_static_folder() {
    assert_eq!(asset_path("/static/js/app.js"), "js/app.js");
    assert_eq!(asset_path("///index.html"), "index.html");
    assert_eq!(asset_path("static/static/logo.png"), "logo.png");
    assert_eq!(asset_path("/static/a/static/b"), "a/b");
    assert_eq!(asset_path("/a/static/b"), "a/static/b");
    assert_eq!(asset_path("/recipes/12"), "recipes/12");
    assert_eq!(asset_path("/static"), "static");
    assert_eq!(asset_path("/static/"), "");
    assert_eq!(asset_path("/"), "");
    assert_eq!(asset_path(""), "");
    assert_eq!(asset_path("/static/caf\u{e9}/static/\u{1f35d}.png"), "caf\u{e9}/\u{1f35d}.png");
}

#[test]
fn asset_path_agrees_with_the_string_functions_of_std() {
    let samples = [
        "/static/js/app.js",
        "//static//x",
        "static/sstatic/static/",
        "/statistatic/c/",
        "/static/stati",
        "/x/static/",
        "static/static/static/",
        "/stat\u{e9}ic/static/",
    ];
    for sample in samples {
        assert_eq!(asset_path(sample), cleaned_by_std(sample), "{}", sample);
    }
}

#[test]
fn a_file_that_the_client_lacks_is_served_as_the_entry_page() {
    assert_eq!(StaticFile("js/app.js".to_string()).served(true), "js/app.js");
    assert_eq!(StaticFile("recipes/12".to_string()).served(false), "index.html");
}

#[test]
fn an_asset_carries_the_media_type_of_its_extension() {
    let asset = StaticFile("js/app.js".to_string()).asset(true);
    assert_eq!(asset.path, "js/app.js");
    assert_eq!(asset.content_type, "text/javascript");
    let asset = StaticFile("recipes/12".to_string()).asset(false);
    assert_eq!(asset.path, "index.html");
    assert_eq!(asset.content_type, "text/html");
    let asset = StaticFile("logo.PNG".to_string()).asset(true);
    assert_eq!(asset.content_type, "image/png");
    let asset = StaticFile("LICENSE".to_string()).asset(true);
    assert_eq!(asset.content_type, "application/octet-stream");
}

#[test]
fn sort_by_position_is_ascending_and_keeps_ties_in_order() {
    let rows = vec![
        ingredient(1, 7, 3, "c"),
        ingredient(2, 7, 1, "a"),
        ingredient(3, 7, 3, "c again"),
        ingredient(4, 7, -2, "first"),
        ingredient(5, 7, 1, "a again"),
    ];
    let ids: Vec<i64> = sort_by_position(rows).iter().map(|row| row.id).collect();
    assert_eq!(ids, vec![4, 2, 5, 1, 3]);
}

#[test]
fn sort_by_position_leaves_an_ascending_list_as_it_is() {
    let rows = vec![ingredient(9, 7, 1, "a"), ingredient(3, 7, 1, "b"), ingredient(5, 7, 4, "c")];
    assert_eq!(sort_by_position(rows.clone()), rows);
    let none: Vec<Instruction> = vec![];
    assert_eq!(sort_by_position(none.clone()), none);
}

#[test]
fn each_collection_has_its_table() {
    assert_eq!(ChildKind::Ingredient.table_name(), "ingredients");
    assert_eq!(ChildKind::Instruction.table_name(), "instructions");
}

#[test]
fn child_columns_keep_the_submitted_order() {
    let items = vec![
        CreateIngredientRequest { position: 2, description: "b".to_string() },
        CreateIngredientRequest { position: 1, description: "a".to_string() },
    ];
    assert_eq!(child_columns(&items), vec![child(2, "b"), child(1, "a")]);
    let step = CreateInstructionRequest { position: 4, description: "stir".to_string() };
    assert_eq!(step.columns(), child(4, "stir"));
    let none: Vec<CreateInstructionRequest> = vec![];
    assert_eq!(child_columns(&none), vec![]);
}

#[test]
fn contains_id_finds_what_a_list_holds() {
    assert!(contains_id(&vec![3, 1, 2], 1));
    assert!(!contains_id(&vec![3, 1, 2], 4));
    assert!(!contains_id(&vec![], 0));
}
