use recipe_facts::amount::Amount;
use recipe_facts::recipe::{Dish, Ingredient, NutritionData, NutritionFacts, Product, Recipe};
use recipe_facts::resolve::{DocumentStore, ResolveError};

fn facts_with_energy(energy: u128) -> NutritionFacts {
    NutritionFacts {
        energy: Some(Amount::from_int(energy)),
        proteins: None,
        fats: None,
        carbohydrates: None,
    }
}

fn simple_product(name: &str, energy: u128) -> Product {
    Product {
        name: name.to_string(),
        nutrition_data: NutritionData::Facts(facts_with_energy(energy)),
    }
}

#[test]
fn calculate1() {
    let oil = simple_product("Oil", 1000);
    let recipe = Recipe {
        dish: Dish {
            ingredients: vec![Ingredient {
                product: "Oil".to_string(),
                amount: Amount::from_int(10),
            }],
            weight: Some(Amount::from_int(20)),
        },
        products: vec![oil],
    };

    let store = DocumentStore::new();
    let facts = recipe.get_nutrition_facts(&store).unwrap();

    assert_eq!(facts, facts_with_energy(500));
}

#[test]
fn fail_not_found() {
    let milk = simple_product("Milk", 1000);
    let oil = simple_product("Oil", 1000);
    let recipe = Recipe {
        dish: Dish {
            ingredients: vec![Ingredient {
                product: "cabbage".to_string(),
                amount: Amount::from_int(10),
            }],
            weight: Some(Amount::from_int(20)),
        },
        products: vec![oil, milk],
    };

    let store = DocumentStore::new();
    let err = recipe.get_nutrition_facts(&store).unwrap_err();

    assert_eq!(
        err,
        ResolveError::ProductNotFound {
            missing: "cabbage".to_string(),
            available: vec!["Oil".to_string(), "Milk".to_string()],
        }
    );
}

#[test]
fn implicit_basis_weight() {
    let oil = simple_product("Oil", 1000);
    let recipe = Recipe {
        dish: Dish {
            ingredients: vec![Ingredient {
                product: "Oil".to_string(),
                amount: Amount::from_int(10),
            }],
            weight: None,
        },
        products: vec![oil],
    };

    let store = DocumentStore::new();
    let facts = recipe.get_nutrition_facts(&store).unwrap();

    assert_eq!(facts, facts_with_energy(1000));
}

#[test]
fn fractional_result_is_exact() {
    let oil = simple_product("Oil", 1000);
    let recipe = Recipe {
        dish: Dish {
            ingredients: vec![Ingredient {
                product: "Oil".to_string(),
                amount: Amount::from_int(10),
            }],
            weight: Some(Amount::from_int(30)),
        },
        products: vec![oil],
    };

    let store = DocumentStore::new();
    let facts = recipe.get_nutrition_facts(&store).unwrap();

    assert_eq!(facts.energy, Some(Amount::new(1000, 3)));
    assert_eq!(facts.proteins, None);
}

#[test]
fn recursive_resolution() {
    let inner = Recipe {
        dish: Dish {
            ingredients: vec![Ingredient {
                product: "Inner Oil".to_string(),
                amount: Amount::from_int(100),
            }],
            weight: None,
        },
        products: vec![simple_product("Inner Oil", 200)],
    };
    let outer = Recipe {
        dish: Dish {
            ingredients: vec![Ingredient {
                product: "Sauce".to_string(),
                amount: Amount::from_int(50),
            }],
            weight: Some(Amount::from_int(50)),
        },
        products: vec![Product {
            name: "Sauce".to_string(),
            nutrition_data: NutritionData::Recipe("sauce.yaml".to_string()),
        }],
    };

    let mut store = DocumentStore::new();
    store.add("sauce.yaml".to_string(), inner);
    let facts = outer.get_nutrition_facts(&store).unwrap();

    assert_eq!(facts, facts_with_energy(200));
}

#[test]
fn cycle_detected() {
    let doc_a = Recipe {
        dish: Dish {
            ingredients: vec![Ingredient {
                product: "B".to_string(),
                amount: Amount::from_int(10),
            }],
            weight: Some(Amount::from_int(10)),
        },
        products: vec![Product {
            name: "B".to_string(),
            nutrition_data: NutritionData::Recipe("b.yaml".to_string()),
        }],
    };
    let doc_b = Recipe {
        dish: Dish {
            ingredients: vec![Ingredient {
                product: "A".to_string(),
                amount: Amount::from_int(10),
            }],
            weight: Some(Amount::from_int(10)),
        },
        products: vec![Product {
            name: "A".to_string(),
            nutrition_data: NutritionData::Recipe("a.yaml".to_string()),
        }],
    };

    let mut store = DocumentStore::new();
    store.add("a.yaml".to_string(), doc_a.clone());
    store.add("b.yaml".to_string(), doc_b);
    let err = doc_a.get_nutrition_facts(&store).unwrap_err();

    assert!(matches!(err, ResolveError::CyclicReference(_)));
}

#[test]
fn missing_document() {
    let recipe = Recipe {
        dish: Dish {
            ingredients: vec![Ingredient {
                product: "Sauce".to_string(),
                amount: Amount::from_int(10),
            }],
            weight: Some(Amount::from_int(10)),
        },
        products: vec![Product {
            name: "Sauce".to_string(),
            nutrition_data: NutritionData::Recipe("nowhere.yaml".to_string()),
        }],
    };

    let store = DocumentStore::new();
    let err = recipe.get_nutrition_facts(&store).unwrap_err();

    assert_eq!(err, ResolveError::MissingDocument("nowhere.yaml".to_string()));
}

#[test]
fn zero_basis_weight() {
    let recipe = Recipe {
        dish: Dish { ingredients: vec![], weight: None },
        products: vec![],
    };

    let store = DocumentStore::new();
    let err = recipe.get_nutrition_facts(&store).unwrap_err();

    assert_eq!(err, ResolveError::InvalidBasisWeight);
}

#[test]
fn explicit_zero_weight_is_invalid() {
    let oil = simple_product("Oil", 1000);
    let recipe = Recipe {
        dish: Dish {
            ingredients: vec![Ingredient {
                product: "Oil".to_string(),
                amount: Amount::from_int(10),
            }],
            weight: Some(Amount::from_int(0)),
        },
        products: vec![oil],
    };

    let store = DocumentStore::new();
    let err = recipe.get_nutrition_facts(&store).unwrap_err();

    assert_eq!(err, ResolveError::InvalidBasisWeight);
}

#[test]
fn idempotent_resolution() {
    let oil = simple_product("Oil", 1000);
    let recipe = Recipe {
        dish: Dish {
            ingredients: vec![Ingredient {
                product: "Oil".to_string(),
                amount: Amount::from_int(10),
            }],
            weight: Some(Amount::from_int(20)),
        },
        products: vec![oil],
    };

    let store = DocumentStore::new();
    let first = recipe.get_nutrition_facts(&store).unwrap();
    let second = recipe.get_nutrition_facts(&store).unwrap();

    assert_eq!(first, second);
}

#[test]
fn absent_nutrients_stay_absent() {
    let cheese = Product {
        name: "Cheese".to_string(),
        nutrition_data: NutritionData::Facts(NutritionFacts {
            energy: None,
            proteins: Some(Amount::from_int(25)),
            fats: None,
            carbohydrates: None,
        }),
    };
    let recipe = Recipe {
        dish: Dish {
            ingredients: vec![Ingredient {
                product: "Cheese".to_string(),
                amount: Amount::from_int(50),
            }],
            weight: Some(Amount::from_int(100)),
        },
        products: vec![cheese],
    };

    let store = DocumentStore::new();
    let facts = recipe.get_nutrition_facts(&store).unwrap();

    assert_eq!(facts.proteins, Some(Amount::new(25, 2)));
    assert_eq!(facts.energy, None);
    assert_eq!(facts.fats, None);
    assert_eq!(facts.carbohydrates, None);
}

#[test]
fn overflow_is_reported() {
    let heavy = simple_product("Heavy", u128::MAX);
    let recipe = Recipe {
        dish: Dish {
            ingredients: vec![Ingredient {
                product: "Heavy".to_string(),
                amount: Amount::from_int(u128::MAX),
            }],
            weight: Some(Amount::from_int(1)),
        },
        products: vec![heavy],
    };

    let store = DocumentStore::new();
    let err = recipe.get_nutrition_facts(&store).unwrap_err();

    assert_eq!(err, ResolveError::NumericOverflow);
}

#[test]
fn first_matching_product_wins() {
    let strong = simple_product("Oil", 1000);
    let weak = simple_product("Oil", 100);
    let recipe = Recipe {
        dish: Dish {
            ingredients: vec![Ingredient {
                product: "Oil".to_string(),
                amount: Amount::from_int(10),
            }],
            weight: Some(Amount::from_int(10)),
        },
        products: vec![strong, weak],
    };

    let store = DocumentStore::new();
    let facts = recipe.get_nutrition_facts(&store).unwrap();

    assert_eq!(facts, facts_with_energy(1000));
}

#[test]
fn two_ingredients_accumulate() {
    let oil = simple_product("Oil", 900);
    let milk = Product {
        name: "Milk".to_string(),
        nutrition_data: NutritionData::Facts(NutritionFacts {
            energy: Some(Amount::from_int(60)),
            proteins: Some(Amount::from_int(3)),
            fats: None,
            carbohydrates: None,
        }),
    };
    let recipe = Recipe {
        dish: Dish {
            ingredients: vec![
                Ingredient { product: "Oil".to_string(), amount: Amount::from_int(10) },
                Ingredient { product: "Milk".to_string(), amount: Amount::from_int(190) },
            ],
            weight: None,
        },
        products: vec![oil, milk],
    };

    let store = DocumentStore::new();
    let facts = recipe.get_nutrition_facts(&store).unwrap();

    // Energy: 900/100*10 + 60/100*190 = 90 + 114 = 204 over 200g, per 100g: 102.
    assert_eq!(facts.energy, Some(Amount::from_int(102)));
    // Proteins: 3/100*190 = 5.7 over 200g, per 100g: 2.85 = 57/20.
    assert_eq!(facts.proteins, Some(Amount::new(57, 20)));
    assert_eq!(facts.fats, None);
}
