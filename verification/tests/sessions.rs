use recipe_store::error::ApiError;
use recipe_store::handlers::{
    create_recipe, delete_recipe, get_recipe_by_id, search_recipes, update_recipe, Action, Event,
    Reply, Session,
};
use recipe_store::models::{
    CreateIngredientRequest, CreateInstructionRequest, CreateRecipeRequest, Ingredient,
    Instruction, Recipe, RecipeBase, SearchQueryParams, UpdateIngredientRequest,
    UpdateRecipeRequest,
};
use recipe_store::queries::Query;
use recipe_store::statements::{ChildColumns, ChildKind, RecipeColumns, Statement};
use std::collections::HashSet;

fn base(id: i64, name: &str) -> RecipeBase {
    RecipeBase {
        id,
        author: None,
        name: name.to_string(),
        description: None,
        difficulty: None,
        estimated_duration: None,
    }
}

fn ingredient(id: i64, recipe_id: i64, position: i64, description: &str) -> Ingredient {
    Ingredient { id, recipe_id, position, description: description.to_string() }
}

fn instruction(id: i64, recipe_id: i64, position: i64, description: &str) -> Instruction {
    Instruction { id, recipe_id, position, description: description.to_string() }
}

fn reached(start: (Session, Action), events: &[Event]) -> Session {
    let mut session = start.0;
    for event in events {
        session = session.advance(event.clone()).0;
    }
    session
}

fn ids(found: &[i64]) -> HashSet<i64> {
    found.iter().copied().collect()
}

fn internal() -> (Session, Action) {
    (Session::Done, Action::Respond(Reply::Failed(ApiError::Internal)))
}

fn create_request() -> CreateRecipeRequest {
    CreateRecipeRequest {
        name: "Pasta".to_string(),
        author: Some("Ada".to_string()),
        description: None,
        difficulty: None,
        estimated_duration: Some("20 min".to_string()),
        ingredients: vec![CreateIngredientRequest {
            position: 1,
            description: "noodles".to_string(),
        }],
        instructions: vec![
            CreateInstructionRequest { position: 1, description: "boil".to_string() },
            CreateInstructionRequest { position: 2, description: "drain".to_string() },
        ],
    }
}

fn update_request() -> UpdateRecipeRequest {
    UpdateRecipeRequest {
        name: "Pasta".to_string(),
        author: None,
        description: Some("quick".to_string()),
        difficulty: None,
        estimated_duration: None,
        ingredients: vec![
            UpdateIngredientRequest {
                id: Some(10),
                position: 1,
                description: "spaghetti".to_string(),
            },
            UpdateIngredientRequest { id: None, position: 2, description: "sauce".to_string() },
        ],
        instructions: vec![],
    }
}

#[test]
fn get_reads_the_row_then_the_ingredients_then_the_instructions() {
    let (session, action) = get_recipe_by_id(5);
    assert_eq!(session, Session::LoadBase { id: 5 });
    assert_eq!(action, Action::Fetch(Query::Recipe { id: 5 }));
    let (session, action) = session.advance(Event::Recipe(Some(base(5, "Pasta"))));
    assert_eq!(
        action,
        Action::Fetch(Query::Children { kind: ChildKind::Ingredient, recipe_id: 5 })
    );
    let ingredients = vec![ingredient(2, 5, 2, "sauce"), ingredient(1, 5, 1, "noodles")];
    let (session, action) = session.advance(Event::Ingredients(ingredients));
    assert_eq!(
        action,
        Action::Fetch(Query::Children { kind: ChildKind::Instruction, recipe_id: 5 })
    );
    let instructions = vec![instruction(7, 5, 1, "boil")];
    let (session, action) = session.advance(Event::Instructions(instructions.clone()));
    assert!(session.is_done());
    let by_position = vec![ingredient(1, 5, 1, "noodles"), ingredient(2, 5, 2, "sauce")];
    assert_eq!(
        action,
        Action::Respond(Reply::Recipe(Recipe::new(base(5, "Pasta"), by_position, instructions)))
    );
}

#[test]
fn get_of_a_missing_recipe_is_not_found() {
    let (session, _) = get_recipe_by_id(5);
    let (session, action) = session.advance(Event::Recipe(None));
    assert!(session.is_done());
    assert_eq!(action, Action::Respond(Reply::Failed(ApiError::NotFound { id: 5 })));
    match action {
        Action::Respond(reply) => assert_eq!(reply.status(), 404),
        _ => unreachable!(),
    }
}

#[test]
fn get_fails_where_the_store_fails() {
    let events = vec![Event::Recipe(Some(base(5, "x"))), Event::Ingredients(vec![])];
    for reads in 0..=events.len() {
        let session = reached(get_recipe_by_id(5), &events[..reads]);
        assert_eq!(session.advance(Event::Failed), internal());
    }
}

#[test]
fn an_event_that_is_not_awaited_ends_the_session() {
    assert_eq!(get_recipe_by_id(5).0.advance(Event::Started), internal());
    assert_eq!(get_recipe_by_id(5).0.advance(Event::Ingredients(vec![])), internal());
    let (session, _) = get_recipe_by_id(5).0.advance(Event::Recipe(Some(base(5, "x"))));
    assert_eq!(session.advance(Event::Instructions(vec![])), internal());
    assert_eq!(Session::Done.advance(Event::Committed), internal());
    assert_eq!(Session::SearchRecipes.advance(Event::Recipe(None)), internal());
}

#[test]
fn search_of_recipes_alone_asks_once() {
    let params = SearchQueryParams {
        query: "choc".to_string(),
        include_ingredients: false,
        include_instructions: false,
    };
    let (session, action) = search_recipes(params);
    assert_eq!(session, Session::SearchRecipes);
    assert_eq!(
        action,
        Action::Fetch(Query::RecipesLike { pattern: "%choc%".to_string(), ids: ids(&[]) })
    );
    let rows = vec![base(1, "Chocolate Cake"), base(4, "Hot Chocolate")];
    let (session, action) = session.advance(Event::Recipes(rows.clone()));
    assert!(session.is_done());
    assert_eq!(action, Action::Respond(Reply::Recipes(rows)));
}

#[test]
fn search_with_children_collects_each_owner_once() {
    let params = SearchQueryParams {
        query: "chip".to_string(),
        include_ingredients: true,
        include_instructions: true,
    };
    let (session, action) = search_recipes(params);
    assert_eq!(
        action,
        Action::Fetch(Query::ChildrenLike {
            kind: ChildKind::Ingredient,
            pattern: "%chip%".to_string()
        })
    );
    let found = vec![ingredient(1, 9, 1, "chips"), ingredient(2, 3, 1, "chip"), ingredient(3, 9, 2, "chips")];
    let (session, action) = session.advance(Event::Ingredients(found));
    assert_eq!(
        session,
        Session::SearchInstructions { pattern: "%chip%".to_string(), found: ids(&[9, 3]) }
    );
    assert_eq!(
        action,
        Action::Fetch(Query::ChildrenLike {
            kind: ChildKind::Instruction,
            pattern: "%chip%".to_string()
        })
    );
    let found = vec![instruction(1, 3, 1, "add chips"), instruction(2, 6, 1, "chip away")];
    let (session, action) = session.advance(Event::Instructions(found));
    assert_eq!(session, Session::SearchRecipes);
    assert_eq!(
        action,
        Action::Fetch(Query::RecipesLike { pattern: "%chip%".to_string(), ids: ids(&[3, 6, 9]) })
    );
}

#[test]
fn search_with_ingredients_alone_skips_the_instructions() {
    let params = SearchQueryParams {
        query: "a".to_string(),
        include_ingredients: true,
        include_instructions: false,
    };
    let (session, _) = search_recipes(params);
    let (session, action) = session.advance(Event::Ingredients(vec![ingredient(1, 2, 1, "a")]));
    assert_eq!(session, Session::SearchRecipes);
    assert_eq!(
        action,
        Action::Fetch(Query::RecipesLike { pattern: "%a%".to_string(), ids: ids(&[2]) })
    );
}

#[test]
fn search_with_instructions_alone_skips_the_ingredients() {
    let params = SearchQueryParams {
        query: "a".to_string(),
        include_ingredients: false,
        include_instructions: true,
    };
    let (session, action) = search_recipes(params);
    assert_eq!(
        session,
        Session::SearchInstructions { pattern: "%a%".to_string(), found: ids(&[]) }
    );
    assert_eq!(
        action,
        Action::Fetch(Query::ChildrenLike {
            kind: ChildKind::Instruction,
            pattern: "%a%".to_string()
        })
    );
    assert_eq!(session.advance(Event::Failed), internal());
}

#[test]
fn create_inserts_inside_one_transaction_and_loads_after_the_commit() {
    let (session, action) = create_recipe(create_request());
    assert_eq!(action, Action::Begin);
    let (session, action) = session.advance(Event::Started);
    assert_eq!(
        action,
        Action::Execute(vec![Statement::InsertRecipe {
            columns: RecipeColumns {
                name: "Pasta".to_string(),
                author: Some("Ada".to_string()),
                description: None,
                difficulty: None,
                estimated_duration: Some("20 min".to_string()),
            }
        }])
    );
    let (session, action) = session.advance(Event::Executed { last_insert_rowid: 31 });
    assert_eq!(
        action,
        Action::Execute(vec![
            Statement::InsertChildren {
                kind: ChildKind::Ingredient,
                recipe_id: 31,
                items: vec![ChildColumns { position: 1, description: "noodles".to_string() }],
            },
            Statement::InsertChildren {
                kind: ChildKind::Instruction,
                recipe_id: 31,
                items: vec![
                    ChildColumns { position: 1, description: "boil".to_string() },
                    ChildColumns { position: 2, description: "drain".to_string() },
                ],
            },
        ])
    );
    let (session, action) = session.advance(Event::Executed { last_insert_rowid: 77 });
    assert_eq!(session, Session::Commit { id: 31 });
    assert_eq!(action, Action::Commit);
    let (session, action) = session.advance(Event::Committed);
    assert_eq!(session, Session::LoadBase { id: 31 });
    assert_eq!(action, Action::Fetch(Query::Recipe { id: 31 }));
}

#[test]
fn create_without_children_issues_no_child_statement() {
    let mut request = create_request();
    request.ingredients = vec![];
    request.instructions = vec![];
    let (session, _) = create_recipe(request);
    let (session, _) = session.advance(Event::Started);
    let (session, action) = session.advance(Event::Executed { last_insert_rowid: 2 });
    assert_eq!(action, Action::Execute(vec![]));
    let (_, action) = session.advance(Event::Executed { last_insert_rowid: 2 });
    assert_eq!(action, Action::Commit);
}

#[test]
fn create_with_instructions_alone_inserts_them_alone() {
    let mut request = create_request();
    request.ingredients = vec![];
    let (session, _) = create_recipe(request);
    let (session, _) = session.advance(Event::Started);
    let (_, action) = session.advance(Event::Executed { last_insert_rowid: 2 });
    assert_eq!(
        action,
        Action::Execute(vec![Statement::InsertChildren {
            kind: ChildKind::Instruction,
            recipe_id: 2,
            items: vec![
                ChildColumns { position: 1, description: "boil".to_string() },
                ChildColumns { position: 2, description: "drain".to_string() },
            ],
        }])
    );
}

#[test]
fn create_never_commits_after_a_failure() {
    let events = vec![
        Event::Started,
        Event::Executed { last_insert_rowid: 1 },
        Event::Executed { last_insert_rowid: 1 },
    ];
    for done in 0..=events.len() {
        let session = reached(create_recipe(create_request()), &events[..done]);
        assert_eq!(session.advance(Event::Failed), internal());
    }
}

#[test]
fn delete_checks_the_row_first() {
    let (session, action) = delete_recipe(8);
    assert_eq!(action, Action::Fetch(Query::Recipe { id: 8 }));
    let (session, action) = session.advance(Event::Recipe(Some(base(8, "x"))));
    assert_eq!(action, Action::Execute(vec![Statement::DeleteRecipe { id: 8 }]));
    let (session, action) = session.advance(Event::Executed { last_insert_rowid: 0 });
    assert!(session.is_done());
    assert_eq!(action, Action::Respond(Reply::Deleted { id: 8 }));
    match action {
        Action::Respond(reply) => assert_eq!(reply.status(), 204),
        _ => unreachable!(),
    }
}

#[test]
fn delete_of_a_missing_row_is_not_found() {
    let (session, _) = delete_recipe(8);
    let missing = (Session::Done, Action::Respond(Reply::Failed(ApiError::NotFound { id: 8 })));
    assert_eq!(session.advance(Event::Recipe(None)), missing);
}

#[test]
fn delete_of_a_row_that_cannot_be_read_is_an_internal_error() {
    let (session, _) = delete_recipe(8);
    let (session, action) = session.advance(Event::Failed);
    assert!(session.is_done());
    assert_eq!(action, Action::Respond(Reply::Failed(ApiError::Internal)));
    match action {
        Action::Respond(reply) => assert_eq!(reply.status(), 500),
        _ => unreachable!(),
    }
}

#[test]
fn delete_that_fails_is_an_internal_error() {
    let (session, _) = delete_recipe(8);
    let (session, _) = session.advance(Event::Recipe(Some(base(8, "x"))));
    assert_eq!(session.advance(Event::Failed), internal());
}

#[test]
fn update_writes_the_row_then_reconciles_each_collection() {
    let (session, action) = update_recipe(4, update_request());
    assert_eq!(action, Action::Begin);
    let (session, action) = session.advance(Event::Started);
    assert_eq!(
        action,
        Action::Execute(vec![Statement::UpdateRecipe {
            id: 4,
            columns: RecipeColumns {
                name: "Pasta".to_string(),
                author: None,
                description: Some("quick".to_string()),
                difficulty: None,
                estimated_duration: None,
            }
        }])
    );
    let (session, action) = session.advance(Event::Executed { last_insert_rowid: 0 });
    assert_eq!(
        action,
        Action::Fetch(Query::Children { kind: ChildKind::Ingredient, recipe_id: 4 })
    );
    let stored = vec![ingredient(10, 4, 1, "noodles"), ingredient(11, 4, 2, "salt")];
    let (session, action) = session.advance(Event::Ingredients(stored));
    assert_eq!(
        action,
        Action::Execute(vec![
            Statement::DeleteChildren { kind: ChildKind::Ingredient, ids: vec![11] },
            Statement::UpdateChild {
                kind: ChildKind::Ingredient,
                recipe_id: 4,
                id: 10,
                child: ChildColumns { position: 1, description: "spaghetti".to_string() },
            },
            Statement::InsertChild {
                kind: ChildKind::Ingredient,
                recipe_id: 4,
                child: ChildColumns { position: 2, description: "sauce".to_string() },
            },
        ])
    );
    let (session, action) = session.advance(Event::Executed { last_insert_rowid: 12 });
    assert_eq!(
        action,
        Action::Fetch(Query::Children { kind: ChildKind::Instruction, recipe_id: 4 })
    );
    let stored = vec![instruction(20, 4, 1, "boil"), instruction(21, 4, 2, "drain")];
    let (session, action) = session.advance(Event::Instructions(stored));
    assert_eq!(
        action,
        Action::Execute(vec![Statement::DeleteChildren {
            kind: ChildKind::Instruction,
            ids: vec![20, 21]
        }])
    );
    let (session, action) = session.advance(Event::Executed { last_insert_rowid: 12 });
    assert_eq!(action, Action::Commit);
    let (session, action) = session.advance(Event::Committed);
    assert_eq!(session, Session::LoadBase { id: 4 });
    assert_eq!(action, Action::Fetch(Query::Recipe { id: 4 }));
}

#[test]
fn update_never_commits_after_a_failure() {
    let events = vec![
        Event::Started,
        Event::Executed { last_insert_rowid: 0 },
        Event::Ingredients(vec![]),
        Event::Executed { last_insert_rowid: 0 },
        Event::Instructions(vec![]),
        Event::Executed { last_insert_rowid: 0 },
    ];
    for done in 0..=events.len() {
        let session = reached(update_recipe(4, update_request()), &events[..done]);
        assert_eq!(session.advance(Event::Failed), internal());
    }
    assert_eq!(reached(update_recipe(4, update_request()), &events), Session::Commit { id: 4 });
}

#[test]
fn replies_with_a_body_are_ok() {
    assert_eq!(Reply::Recipes(vec![]).status(), 200);
    assert_eq!(Reply::Recipe(Recipe::new(base(1, "x"), vec![], vec![])).status(), 200);
    assert_eq!(Reply::Failed(ApiError::Internal).status(), 500);
}

#[test]
fn only_a_failure_has_a_text() {
    assert_eq!(Reply::Deleted { id: 3 }.message(), "");
    assert_eq!(Reply::Recipes(vec![]).message(), "");
    assert_eq!(Reply::Recipe(Recipe::new(base(1, "x"), vec![], vec![])).message(), "");
    assert_eq!(
        Reply::Failed(ApiError::NotFound { id: 3 }).message(),
        "recipe with id 3 not found"
    );
    assert_eq!(
        Reply::Failed(ApiError::Internal).message(),
        "Something bad happened, please try again or ask your IT guru for help."
    );
}
