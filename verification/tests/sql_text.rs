use recipe_store::queries::Query;
use recipe_store::query_utils::{add_in_expression, SqlBuilder};
use recipe_store::statements::{ChildColumns, ChildKind, RecipeColumns, Statement};
use sqlx::Execute;
use std::collections::HashSet;

fn bound_values(builder: &mut SqlBuilder) -> String {
    let mut query = builder.inner.build();
    format!("{:?}", query.take_arguments().unwrap().unwrap())
}

fn text(value: &str) -> String {
    format!("Text({:?})", value)
}

fn columns() -> RecipeColumns {
    RecipeColumns {
        name: "Pasta".to_string(),
        author: Some("Ada".to_string()),
        description: None,
        difficulty: Some("easy".to_string()),
        estimated_duration: None,
    }
}

#[test]
fn in_expression_lists_one_placeholder_per_element() {
    let mut builder = SqlBuilder::start("DELETE FROM ingredients WHERE id");
    add_in_expression(&mut builder, &[4, 9, 2]);
    assert_eq!(builder.inner.sql(), "DELETE FROM ingredients WHERE id IN (?,?,?) ");
    let bound = bound_values(&mut builder);
    assert_eq!(bound, "SqliteArguments { values: [Int64(4), Int64(9), Int64(2)] }");
}

#[test]
fn in_expression_of_one_element_has_no_comma() {
    let mut builder = SqlBuilder::start("x");
    add_in_expression(&mut builder, &[-7]);
    assert_eq!(builder.inner.sql(), "x IN (?) ");
    assert_eq!(bound_values(&mut builder), "SqliteArguments { values: [Int64(-7)] }");
}

#[test]
fn in_expression_of_nothing_adds_nothing() {
    let mut builder = SqlBuilder::start("DELETE FROM ingredients WHERE id");
    add_in_expression(&mut builder, &[]);
    assert_eq!(builder.inner.sql(), "DELETE FROM ingredients WHERE id");
    assert_eq!(bound_values(&mut builder), "SqliteArguments { values: [] }");
}

#[test]
fn start_holds_the_initial_fragment() {
    let mut builder = SqlBuilder::start("SELECT 1");
    assert_eq!(builder.inner.sql(), "SELECT 1");
    assert_eq!(bound_values(&mut builder), "SqliteArguments { values: [] }");
}

#[test]
fn insert_recipe_binds_the_five_columns() {
    let mut builder = Statement::InsertRecipe { columns: columns() }.to_sql();
    assert_eq!(
        builder.inner.sql(),
        "INSERT INTO recipes (name, author, description, difficulty, estimated_duration) VALUES (?, ?, ?, ?, ?)"
    );
    assert_eq!(
        bound_values(&mut builder),
        format!(
            "SqliteArguments {{ values: [{}, {}, Null, {}, Null] }}",
            text("Pasta"),
            text("Ada"),
            text("easy")
        )
    );
}

#[test]
fn update_recipe_binds_description_before_author_and_the_id_last() {
    let mut builder = Statement::UpdateRecipe { id: 12, columns: columns() }.to_sql();
    assert_eq!(
        builder.inner.sql(),
        "UPDATE recipes SET name = ?, description = ?, author = ?, difficulty = ?, estimated_duration = ? WHERE id = ?"
    );
    assert_eq!(
        bound_values(&mut builder),
        format!(
            "SqliteArguments {{ values: [{}, Null, {}, {}, Null, Int64(12)] }}",
            text("Pasta"),
            text("Ada"),
            text("easy")
        )
    );
}

#[test]
fn bulk_insert_has_one_row_of_placeholders_per_item() {
    let items = vec![
        ChildColumns { position: 1, description: "noodles".to_string() },
        ChildColumns { position: 2, description: "sauce".to_string() },
        ChildColumns { position: 3, description: "cheese".to_string() },
    ];
    let mut builder =
        Statement::InsertChildren { kind: ChildKind::Ingredient, recipe_id: 5, items }.to_sql();
    assert_eq!(
        builder.inner.sql(),
        "INSERT INTO ingredients (recipe_id, position, description) VALUES (?, ?, ?), (?, ?, ?), (?, ?, ?)"
    );
    assert_eq!(
        bound_values(&mut builder),
        format!(
            "SqliteArguments {{ values: [Int64(5), Int64(1), {}, Int64(5), Int64(2), {}, Int64(5), Int64(3), {}] }}",
            text("noodles"),
            text("sauce"),
            text("cheese")
        )
    );
}

#[test]
fn bulk_insert_of_nothing_has_no_row() {
    let mut builder =
        Statement::InsertChildren { kind: ChildKind::Ingredient, recipe_id: 5, items: vec![] }
            .to_sql();
    assert_eq!(
        builder.inner.sql(),
        "INSERT INTO ingredients (recipe_id, position, description) VALUES "
    );
    assert_eq!(bound_values(&mut builder), "SqliteArguments { values: [] }");
}

#[test]
fn bulk_insert_of_one_row() {
    let items = vec![ChildColumns { position: 9, description: "stir".to_string() }];
    let mut builder =
        Statement::InsertChildren { kind: ChildKind::Instruction, recipe_id: 2, items }.to_sql();
    assert_eq!(
        builder.inner.sql(),
        "INSERT INTO instructions (recipe_id, position, description) VALUES (?, ?, ?)"
    );
    assert_eq!(
        bound_values(&mut builder),
        format!("SqliteArguments {{ values: [Int64(2), Int64(9), {}] }}", text("stir"))
    );
}

#[test]
fn delete_children_uses_the_in_expression() {
    let mut builder =
        Statement::DeleteChildren { kind: ChildKind::Instruction, ids: vec![3, 8] }.to_sql();
    assert_eq!(builder.inner.sql(), "DELETE FROM instructions WHERE id IN (?,?) ");
    assert_eq!(bound_values(&mut builder), "SqliteArguments { values: [Int64(3), Int64(8)] }");
}

#[test]
fn update_child_is_keyed_by_the_row_and_its_recipe() {
    let child = ChildColumns { position: 4, description: "spaghetti".to_string() };
    let mut builder =
        Statement::UpdateChild { kind: ChildKind::Ingredient, recipe_id: 6, id: 31, child }
            .to_sql();
    assert_eq!(
        builder.inner.sql(),
        "UPDATE ingredients SET position = ?, description = ? WHERE id = ? AND recipe_id = ?"
    );
    assert_eq!(
        bound_values(&mut builder),
        format!(
            "SqliteArguments {{ values: [Int64(4), {}, Int64(31), Int64(6)] }}",
            text("spaghetti")
        )
    );
}

#[test]
fn insert_child_binds_owner_position_description() {
    let child = ChildColumns { position: 2, description: "boil".to_string() };
    let mut builder =
        Statement::InsertChild { kind: ChildKind::Instruction, recipe_id: 6, child }.to_sql();
    assert_eq!(
        builder.inner.sql(),
        "INSERT INTO instructions (recipe_id, position, description) VALUES (?, ?, ?)"
    );
    assert_eq!(
        bound_values(&mut builder),
        format!("SqliteArguments {{ values: [Int64(6), Int64(2), {}] }}", text("boil"))
    );
}

#[test]
fn delete_recipe_binds_the_id() {
    let mut builder = Statement::DeleteRecipe { id: 77 }.to_sql();
    assert_eq!(builder.inner.sql(), "DELETE FROM recipes WHERE id = ?");
    assert_eq!(bound_values(&mut builder), "SqliteArguments { values: [Int64(77)] }");
}

#[test]
fn recipe_query_selects_by_id() {
    let mut builder = Query::Recipe { id: 3 }.to_sql();
    assert_eq!(
        builder.inner.sql(),
        "SELECT id, name, author, description, difficulty, estimated_duration FROM recipes WHERE id = ?"
    );
    assert_eq!(bound_values(&mut builder), "SqliteArguments { values: [Int64(3)] }");
}

#[test]
fn children_query_selects_by_owner() {
    let mut builder = Query::Children { kind: ChildKind::Ingredient, recipe_id: 3 }.to_sql();
    assert_eq!(
        builder.inner.sql(),
        "SELECT id, recipe_id, position, description FROM ingredients WHERE recipe_id = ?"
    );
    assert_eq!(bound_values(&mut builder), "SqliteArguments { values: [Int64(3)] }");
    let builder = Query::Children { kind: ChildKind::Instruction, recipe_id: 3 }.to_sql();
    assert_eq!(
        builder.inner.sql(),
        "SELECT id, recipe_id, position, description FROM instructions WHERE recipe_id = ?"
    );
}

#[test]
fn children_like_query_binds_the_pattern() {
    let mut builder =
        Query::ChildrenLike { kind: ChildKind::Instruction, pattern: "%mix%".to_string() }
            .to_sql();
    assert_eq!(
        builder.inner.sql(),
        "SELECT * FROM instructions WHERE description LIKE ? ESCAPE '\\'"
    );
    assert_eq!(
        bound_values(&mut builder),
        format!("SqliteArguments {{ values: [{}] }}", text("%mix%"))
    );
}

#[test]
fn recipes_like_query_without_ids_has_no_id_clause() {
    let mut builder =
        Query::RecipesLike { pattern: "%choc%".to_string(), ids: HashSet::new() }.to_sql();
    assert_eq!(
        builder.inner.sql(),
        "SELECT id, author, name, description, difficulty, estimated_duration FROM recipes WHERE name LIKE ? ESCAPE '\\' OR description LIKE ? ESCAPE '\\' ORDER BY id ASC"
    );
    assert_eq!(
        bound_values(&mut builder),
        format!("SqliteArguments {{ values: [{}, {}] }}", text("%choc%"), text("%choc%"))
    );
}

#[test]
fn recipes_like_query_with_ids_binds_each_id_once() {
    let ids: HashSet<i64> = [7, 2, 9].into_iter().collect();
    let mut builder = Query::RecipesLike { pattern: "%a%".to_string(), ids }.to_sql();
    assert_eq!(
        builder.inner.sql(),
        "SELECT id, author, name, description, difficulty, estimated_duration FROM recipes WHERE name LIKE ? ESCAPE '\\' OR description LIKE ? ESCAPE '\\' OR id IN  ((?), (?), (?))  ORDER BY id ASC"
    );
    let bound = bound_values(&mut builder);
    let head = format!("SqliteArguments {{ values: [{}, {}, ", text("%a%"), text("%a%"));
    assert!(bound.starts_with(&head), "{}", bound);
    let mut rest: Vec<&str> =
        bound[head.len()..].trim_end_matches("] }").split(", ").collect();
    rest.sort();
    assert_eq!(rest, vec!["Int64(2)", "Int64(7)", "Int64(9)"]);
}

#[test]
fn recipes_like_query_with_one_id() {
    let ids: HashSet<i64> = [5].into_iter().collect();
    let mut builder = Query::RecipesLike { pattern: "%a%".to_string(), ids }.to_sql();
    assert!(builder.inner.sql().ends_with(" OR id IN  ((?))  ORDER BY id ASC"));
    assert_eq!(
        bound_values(&mut builder),
        format!("SqliteArguments {{ values: [{}, {}, Int64(5)] }}", text("%a%"), text("%a%"))
    );
}
