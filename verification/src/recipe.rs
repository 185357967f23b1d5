//! The recipe data model.
//!
//! A `Recipe` is a pantry of named `Product`s together with one `Dish`. A
//! dish lists `Ingredient`s, each naming a product and a mass in grams, and
//! may carry an explicit total weight. A product's nutrition comes either
//! from directly declared `NutritionFacts` or from another recipe document,
//! named by path.

use vstd::prelude::*;
use crate::amount::{Amount, Frac, frac_wf, oview};

verus! {

/// The closed set of tracked nutrients, in presentation order.
#[derive(Clone, Copy, Debug, PartialEq, Eq, Hash, Structural)]
pub enum Nutrition {
    Energy,
    Proteins,
    Fats,
    Carbohydrates,
}

/// Per-100g amounts by nutrient; an absent entry means "no data", not zero.
#[derive(Clone, Copy, Debug, PartialEq)]
pub struct NutritionFacts {
    pub energy: Option<Amount>,
    pub proteins: Option<Amount>,
    pub fats: Option<Amount>,
    pub carbohydrates: Option<Amount>,
}

/// Model of `NutritionFacts`.
#[verifier::ext_equal]
pub struct FactsV {
    pub energy: Option<Frac>,
    pub proteins: Option<Frac>,
    pub fats: Option<Frac>,
    pub carbohydrates: Option<Frac>,
}

impl View for NutritionFacts {
    type V = FactsV;

    open spec fn view(&self) -> FactsV {
        FactsV {
            energy: oview(self.energy),
            proteins: oview(self.proteins),
            fats: oview(self.fats),
            carbohydrates: oview(self.carbohydrates),
        }
    }
}

/// Element-wise model of a product list.
pub open spec fn products_view(s: Seq<Product>) -> Seq<ProductV> {
    s.map_values(|p: Product| p@)
}

/// Element-wise model of an ingredient list.
pub open spec fn ingredients_view(s: Seq<Ingredient>) -> Seq<IngredientV> {
    s.map_values(|i: Ingredient| i@)
}

/// Element-wise model of a list of names.
pub open spec fn strings_view(s: Seq<String>) -> Seq<Seq<char>> {
    s.map_values(|x: String| x@)
}

/// The entry of a facts model for one nutrient.
pub open spec fn facts_get(f: FactsV, n: Nutrition) -> Option<Frac> {
    match n {
        Nutrition::Energy => f.energy,
        Nutrition::Proteins => f.proteins,
        Nutrition::Fats => f.fats,
        Nutrition::Carbohydrates => f.carbohydrates,
    }
}

/// Well-formedness of an optional entry.
pub open spec fn opt_frac_wf(o: Option<Frac>) -> bool {
    match o {
        Option::None => true,
        Option::Some(f) => frac_wf(f),
    }
}

/// Well-formedness of a facts model: every present entry is well formed.
pub open spec fn facts_wf(f: FactsV) -> bool {
    &&& opt_frac_wf(f.energy)
    &&& opt_frac_wf(f.proteins)
    &&& opt_frac_wf(f.fats)
    &&& opt_frac_wf(f.carbohydrates)
}

impl NutritionFacts {
    /// Facts with no data for any nutrient.
    pub fn empty() -> (r: NutritionFacts)
        ensures
            r@ == (FactsV {
                energy: Option::<Frac>::None,
                proteins: Option::<Frac>::None,
                fats: Option::<Frac>::None,
                carbohydrates: Option::<Frac>::None,
            }),
    {
        NutritionFacts { energy: None, proteins: None, fats: None, carbohydrates: None }
    }

    /// The amount recorded for one nutrient, if any.
    pub fn get(&self, n: Nutrition) -> (r: Option<Amount>)
        ensures
            oview(r) == facts_get(self@, n),
    {
        match n {
            Nutrition::Energy => self.energy,
            Nutrition::Proteins => self.proteins,
            Nutrition::Fats => self.fats,
            Nutrition::Carbohydrates => self.carbohydrates,
        }
    }
}

/// Where a product's nutrition facts come from.
#[derive(Clone, Debug)]
pub enum NutritionData {
    /// Directly declared per-100g facts.
    Facts(NutritionFacts),
    /// The path of another recipe document to resolve.
    Recipe(String),
}

/// Model of `NutritionData`.
#[verifier::ext_equal]
pub enum DataV {
    Facts(FactsV),
    Recipe(Seq<char>),
}

impl View for NutritionData {
    type V = DataV;

    open spec fn view(&self) -> DataV {
        match self {
            NutritionData::Facts(f) => DataV::Facts(f@),
            NutritionData::Recipe(p) => DataV::Recipe(p@),
        }
    }
}

/// A named nutrition source available for ingredient lookup.
#[derive(Clone, Debug)]
pub struct Product {
    pub name: String,
    pub nutrition_data: NutritionData,
}

/// Model of `Product`.
#[verifier::ext_equal]
pub struct ProductV {
    pub name: Seq<char>,
    pub nutrition_data: DataV,
}

impl View for Product {
    type V = ProductV;

    open spec fn view(&self) -> ProductV {
        ProductV { name: self.name@, nutrition_data: self.nutrition_data@ }
    }
}

/// One use of a product in a dish, at a mass in grams.
#[derive(Clone, Debug)]
pub struct Ingredient {
    pub product: String,
    pub amount: Amount,
}

/// Model of `Ingredient`.
#[verifier::ext_equal]
pub struct IngredientV {
    pub product: Seq<char>,
    pub amount: Frac,
}

impl View for Ingredient {
    type V = IngredientV;

    open spec fn view(&self) -> IngredientV {
        IngredientV { product: self.product@, amount: self.amount@ }
    }
}

/// The ingredient list plus an optional explicit total weight in grams.
#[derive(Clone, Debug)]
pub struct Dish {
    pub ingredients: Vec<Ingredient>,
    pub weight: Option<Amount>,
}

/// Model of `Dish`.
#[verifier::ext_equal]
pub struct DishV {
    pub ingredients: Seq<IngredientV>,
    pub weight: Option<Frac>,
}

impl View for Dish {
    type V = DishV;

    open spec fn view(&self) -> DishV {
        DishV { ingredients: ingredients_view(self.ingredients@), weight: oview(self.weight) }
    }
}

/// A pantry of products together with the dish to evaluate.
#[derive(Clone, Debug)]
pub struct Recipe {
    pub products: Vec<Product>,
    pub dish: Dish,
}

/// Model of `Recipe`.
#[verifier::ext_equal]
pub struct RecipeV {
    pub products: Seq<ProductV>,
    pub dish: DishV,
}

impl View for Recipe {
    type V = RecipeV;

    open spec fn view(&self) -> RecipeV {
        RecipeV { products: products_view(self.products@), dish: self.dish@ }
    }
}

/// Well-formedness of a nutrition source model.
pub open spec fn data_wf(d: DataV) -> bool {
    match d {
        DataV::Facts(f) => facts_wf(f),
        DataV::Recipe(_) => true,
    }
}

/// Well-formedness of a dish model: every amount has a positive denominator.
pub open spec fn dish_wf(d: DishV) -> bool {
    &&& forall|i: int| 0 <= i < d.ingredients.len() ==> frac_wf(#[trigger] d.ingredients[i].amount)
    &&& opt_frac_wf(d.weight)
}

/// Well-formedness of a recipe model.
pub open spec fn recipe_wf(r: RecipeV) -> bool {
    &&& forall|i: int| 0 <= i < r.products.len() ==> data_wf(
        #[trigger] r.products[i].nutrition_data,
    )
    &&& dish_wf(r.dish)
}

} // verus!
