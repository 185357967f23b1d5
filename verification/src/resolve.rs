//! Recursive resolution of a recipe into per-100g nutrition facts.
//!
//! Resolution walks the dish's ingredients, looks each product up in the
//! pantry, obtains its facts — directly, or by resolving another recipe
//! document found in a `DocumentStore` — scales them by the ingredient mass,
//! and normalizes the accumulated totals to a 100 gram basis. A chain of
//! document references that revisits a document on the current path is
//! reported as a cycle instead of recursing forever.

use vstd::prelude::*;
use vstd::set::group_set_axioms;
use vstd::seq_lib::seq_to_set_is_finite;
use crate::amount::{
    Amount, Frac, frac_wf, oview, checked_add_frac, checked_mul_frac, checked_div_frac,
};
use crate::recipe::{
    Nutrition, NutritionFacts, FactsV, facts_get, facts_wf, opt_frac_wf, NutritionData, DataV,
    Product, ProductV, IngredientV, Recipe, RecipeV, data_wf, recipe_wf, products_view,
    strings_view,
};

verus! {

/// A loaded recipe document, keyed by the path it was loaded from.
#[derive(Clone, Debug)]
pub struct Document {
    pub path: String,
    pub recipe: Recipe,
}

/// Model of `Document`.
#[verifier::ext_equal]
pub struct DocV {
    pub path: Seq<char>,
    pub recipe: RecipeV,
}

impl View for Document {
    type V = DocV;

    open spec fn view(&self) -> DocV {
        DocV { path: self.path@, recipe: self.recipe@ }
    }
}

/// The recipe documents available for reference resolution.
#[derive(Clone, Debug)]
pub struct DocumentStore {
    pub docs: Vec<Document>,
}

/// Element-wise model of a document list.
pub open spec fn docs_view(s: Seq<Document>) -> Seq<DocV> {
    s.map_values(|d: Document| d@)
}

impl View for DocumentStore {
    type V = Seq<DocV>;

    open spec fn view(&self) -> Seq<DocV> {
        docs_view(self.docs@)
    }
}

impl DocumentStore {
    /// Well-formedness: every stored recipe is well formed.
    pub open spec fn wf(&self) -> bool {
        forall|i: int| 0 <= i < self@.len() ==> recipe_wf(#[trigger] self@[i].recipe)
    }

    /// An empty store.
    pub fn new() -> (r: DocumentStore)
        ensures
            r@ == Seq::<DocV>::empty(),
            r.wf(),
    {
        let r = DocumentStore { docs: Vec::new() };
        proof {
            assert(r@ =~= Seq::<DocV>::empty());
        }
        r
    }

    /// Add a loaded document under its path.
    pub fn add(&mut self, path: String, recipe: Recipe)
        requires
            old(self).wf(),
            recipe_wf(recipe@),
        ensures
            final(self)@ == old(self)@.push(DocV { path: path@, recipe: recipe@ }),
            final(self).wf(),
    {
        let ghost before = self@;
        let ghost doc = DocV { path: path@, recipe: recipe@ };
        self.docs.push(Document { path, recipe });
        proof {
            assert(self@ =~= before.push(doc));
        }
    }
}

/// Why a resolution failed.
#[derive(Clone, Debug, PartialEq)]
pub enum ResolveError {
    /// An ingredient names a product absent from the pantry; carries the
    /// missing name and every available product name.
    ProductNotFound { missing: String, available: Vec<String> },
    /// A product references a recipe document that the store does not hold.
    MissingDocument(String),
    /// A chain of recipe references revisits a document being resolved.
    CyclicReference(String),
    /// The effective basis weight (explicit dish weight, or the summed
    /// ingredient mass) is zero.
    InvalidBasisWeight,
    /// An exact intermediate quantity exceeds the machine range.
    NumericOverflow,
}

/// Model of `ResolveError`.
#[verifier::ext_equal]
pub enum ErrV {
    ProductNotFound { missing: Seq<char>, available: Seq<Seq<char>> },
    MissingDocument(Seq<char>),
    CyclicReference(Seq<char>),
    InvalidBasisWeight,
    NumericOverflow,
}

impl View for ResolveError {
    type V = ErrV;

    open spec fn view(&self) -> ErrV {
        match self {
            ResolveError::ProductNotFound { missing, available } => ErrV::ProductNotFound {
                missing: missing@,
                available: strings_view(available@),
            },
            ResolveError::MissingDocument(p) => ErrV::MissingDocument(p@),
            ResolveError::CyclicReference(p) => ErrV::CyclicReference(p@),
            ResolveError::InvalidBasisWeight => ErrV::InvalidBasisWeight,
            ResolveError::NumericOverflow => ErrV::NumericOverflow,
        }
    }
}

/// Model of a resolution outcome.
pub open spec fn result_view(r: Result<NutritionFacts, ResolveError>) -> Result<FactsV, ErrV> {
    match r {
        Result::Ok(f) => Result::Ok(f@),
        Result::Err(e) => Result::Err(e@),
    }
}

/// The paths under which documents are stored.
pub open spec fn env_keys(env: Seq<DocV>) -> Set<Seq<char>> {
    env.map_values(|d: DocV| d.path).to_set()
}

/// Termination measure: how many stored documents are not yet being resolved.
pub open spec fn measure(env: Seq<DocV>, visiting: Set<Seq<char>>) -> nat {
    env_keys(env).difference(visiting).len()
}

/// The recipe stored under a path: first match wins.
pub open spec fn lookup_doc(env: Seq<DocV>, path: Seq<char>) -> Option<RecipeV>
    decreases env.len(),
{
    if env.len() == 0 {
        Option::None
    } else if env[0].path == path {
        Option::Some(env[0].recipe)
    } else {
        lookup_doc(env.skip(1), path)
    }
}

/// The first product with the given name, as the pantry declares them.
pub open spec fn lookup_product(products: Seq<ProductV>, name: Seq<char>) -> Option<ProductV>
    decreases products.len(),
{
    if products.len() == 0 {
        Option::None
    } else if products[0].name == name {
        Option::Some(products[0])
    } else {
        lookup_product(products.skip(1), name)
    }
}

/// Every product name, in pantry declaration order.
pub open spec fn product_names(products: Seq<ProductV>) -> Seq<Seq<char>> {
    products.map_values(|p: ProductV| p.name)
}

/// A path under which a document is found is one of the store's keys.
pub proof fn lemma_lookup_doc_in_keys(env: Seq<DocV>, path: Seq<char>)
    requires
        lookup_doc(env, path) is Some,
    ensures
        env_keys(env).contains(path),
    decreases env.len(),
{
    broadcast use group_set_axioms;

    let keys = env.map_values(|d: DocV| d.path);
    if env[0].path == path {
        assert(keys[0] == path);
        assert(keys.contains(path));
    } else {
        lemma_lookup_doc_in_keys(env.skip(1), path);
        let tailkeys = env.skip(1).map_values(|d: DocV| d.path);
        assert(tailkeys =~= keys.skip(1));
        let i = choose|i: int| 0 <= i < tailkeys.len() && tailkeys[i] == path;
        assert(keys[i + 1] == path);
        assert(keys.contains(path));
    }
}

/// Marking a stored, not-yet-visited document as being resolved strictly
/// shrinks the termination measure, which bounds the recursion depth.
pub proof fn lemma_measure_decreases(env: Seq<DocV>, visiting: Set<Seq<char>>, path: Seq<char>)
    requires
        env_keys(env).contains(path),
        !visiting.contains(path),
    ensures
        measure(env, visiting.insert(path)) < measure(env, visiting),
{
    broadcast use group_set_axioms, seq_to_set_is_finite;

    let keys = env_keys(env);
    assert(keys.finite());
    let before = keys.difference(visiting);
    let after = keys.difference(visiting.insert(path));
    assert(after =~= before.remove(path));
    assert(before.contains(path));
    assert(before.remove(path).len() == before.len() - 1);
}

/// Accumulated per-nutrient totals and the summed ingredient mass.
#[verifier::ext_equal]
pub struct AccV {
    pub totals: FactsV,
    pub mass: Frac,
}

/// The starting accumulator: no data, zero mass.
pub open spec fn acc_init() -> AccV {
    AccV {
        totals: FactsV {
            energy: Option::None,
            proteins: Option::None,
            fats: Option::None,
            carbohydrates: Option::None,
        },
        mass: Frac { num: 0, den: 1 },
    }
}

/// One hundredth, the factor from per-100g data to per-gram data.
pub open spec fn cent() -> Frac {
    Frac { num: 1, den: 100 }
}

/// One hundred, the per-100g normalization numerator.
pub open spec fn hundred() -> Frac {
    Frac { num: 100, den: 1 }
}

/// The new total for one nutrient after an ingredient's contribution:
/// no source data leaves the total unchanged; otherwise the per-100g value
/// is scaled to the ingredient mass and added, creating the entry if it was
/// absent. `None` means an intermediate quantity left the machine range.
pub open spec fn contrib_total(tot: Option<Frac>, v: Option<Frac>, amount: Frac) -> Option<
    Option<Frac>,
> {
    match v {
        Option::None => Option::Some(tot),
        Option::Some(x) => match checked_mul_frac(x, cent()) {
            Option::None => Option::None,
            Option::Some(c0) => match checked_mul_frac(c0, amount) {
                Option::None => Option::None,
                Option::Some(c) => match tot {
                    Option::None => Option::Some(Option::Some(c)),
                    Option::Some(t) => match checked_add_frac(t, c) {
                        Option::None => Option::None,
                        Option::Some(s) => Option::Some(Option::Some(s)),
                    },
                },
            },
        },
    }
}

/// All four nutrient totals after an ingredient's contribution.
pub open spec fn add_contrib_facts(totals: FactsV, f: FactsV, amount: Frac) -> Option<FactsV> {
    match contrib_total(totals.energy, f.energy, amount) {
        Option::None => Option::None,
        Option::Some(energy) => match contrib_total(totals.proteins, f.proteins, amount) {
            Option::None => Option::None,
            Option::Some(proteins) => match contrib_total(totals.fats, f.fats, amount) {
                Option::None => Option::None,
                Option::Some(fats) => match contrib_total(
                    totals.carbohydrates,
                    f.carbohydrates,
                    amount,
                ) {
                    Option::None => Option::None,
                    Option::Some(carbohydrates) => Option::Some(
                        FactsV { energy, proteins, fats, carbohydrates },
                    ),
                },
            },
        },
    }
}

/// One scaled entry of the normalized result; an absent entry stays absent.
pub open spec fn scale_entry(o: Option<Frac>, factor: Frac) -> Option<Option<Frac>> {
    match o {
        Option::None => Option::Some(Option::None),
        Option::Some(v) => match checked_mul_frac(v, factor) {
            Option::None => Option::None,
            Option::Some(c) => Option::Some(Option::Some(c)),
        },
    }
}

/// Every accumulated total scaled by the normalization factor.
pub open spec fn spec_scale(f: FactsV, factor: Frac) -> Option<FactsV> {
    match scale_entry(f.energy, factor) {
        Option::None => Option::None,
        Option::Some(energy) => match scale_entry(f.proteins, factor) {
            Option::None => Option::None,
            Option::Some(proteins) => match scale_entry(f.fats, factor) {
                Option::None => Option::None,
                Option::Some(fats) => match scale_entry(f.carbohydrates, factor) {
                    Option::None => Option::None,
                    Option::Some(carbohydrates) => Option::Some(
                        FactsV { energy, proteins, fats, carbohydrates },
                    ),
                },
            },
        },
    }
}

/// A product's facts: declared ones directly, or those of the referenced
/// recipe document — unless that document is already being resolved (a
/// cycle) or is not in the store.
pub open spec fn spec_product_facts(
    data: DataV,
    env: Seq<DocV>,
    visiting: Set<Seq<char>>,
) -> Result<FactsV, ErrV>
    decreases measure(env, visiting), 0int, 0int,
{
    match data {
        DataV::Facts(f) => Result::<FactsV, ErrV>::Ok(f),
        DataV::Recipe(path) => {
            if visiting.contains(path) {
                Result::Err(ErrV::CyclicReference(path))
            } else {
                match lookup_doc(env, path) {
                    Option::None => Result::Err(ErrV::MissingDocument(path)),
                    Option::Some(r2) => {
                        proof {
                            lemma_lookup_doc_in_keys(env, path);
                            lemma_measure_decreases(env, visiting, path);
                        }
                        spec_resolve(r2, env, visiting.insert(path))
                    },
                }
            }
        },
    }
}

/// The accumulator after one ingredient: look its product up, add its mass,
/// obtain the product's facts, and add the scaled contributions.
pub open spec fn spec_step(
    acc: AccV,
    ing: IngredientV,
    products: Seq<ProductV>,
    env: Seq<DocV>,
    visiting: Set<Seq<char>>,
) -> Result<AccV, ErrV>
    decreases measure(env, visiting), 1int, 0int,
{
    match lookup_product(products, ing.product) {
        Option::None => Result::Err(
            ErrV::ProductNotFound { missing: ing.product, available: product_names(products) },
        ),
        Option::Some(p) => match checked_add_frac(acc.mass, ing.amount) {
            Option::None => Result::Err(ErrV::NumericOverflow),
            Option::Some(mass) => match spec_product_facts(p.nutrition_data, env, visiting) {
                Result::Err(e) => Result::Err(e),
                Result::Ok(f) => match add_contrib_facts(acc.totals, f, ing.amount) {
                    Option::None => Result::Err(ErrV::NumericOverflow),
                    Option::Some(totals) => Result::Ok(AccV { totals, mass }),
                },
            },
        },
    }
}

/// The accumulator after the first `i` ingredients of the dish.
pub open spec fn spec_accumulate(
    recipe: RecipeV,
    env: Seq<DocV>,
    visiting: Set<Seq<char>>,
    i: int,
) -> Result<AccV, ErrV>
    decreases measure(env, visiting), 2int, i,
{
    if i <= 0 {
        Result::Ok(acc_init())
    } else {
        match spec_accumulate(recipe, env, visiting, i - 1) {
            Result::Err(e) => Result::Err(e),
            Result::Ok(acc) => spec_step(
                acc,
                recipe.dish.ingredients[i - 1],
                recipe.products,
                env,
                visiting,
            ),
        }
    }
}

/// The resolved, normalized facts of a recipe: accumulate every ingredient,
/// pick the basis weight (the explicit dish weight, or the summed ingredient
/// mass), reject a zero basis, and scale every total by 100 over the basis.
pub open spec fn spec_resolve(recipe: RecipeV, env: Seq<DocV>, visiting: Set<Seq<char>>) -> Result<
    FactsV,
    ErrV,
>
    decreases measure(env, visiting), 3int, 0int,
{
    match spec_accumulate(recipe, env, visiting, recipe.dish.ingredients.len() as int) {
        Result::Err(e) => Result::Err(e),
        Result::Ok(acc) => {
            let basis = match recipe.dish.weight {
                Option::Some(w) => w,
                Option::None => acc.mass,
            };
            if basis.num == 0 {
                Result::Err(ErrV::InvalidBasisWeight)
            } else {
                match checked_div_frac(hundred(), basis) {
                    Option::None => Result::Err(ErrV::NumericOverflow),
                    Option::Some(factor) => match spec_scale(acc.totals, factor) {
                        Option::None => Result::Err(ErrV::NumericOverflow),
                        Option::Some(out) => Result::Ok(out),
                    },
                }
            }
        },
    }
}

/// The set of paths currently being resolved, as a list of strings models it.
pub open spec fn strs(v: Seq<String>) -> Set<Seq<char>> {
    strings_view(v).to_set()
}

/// An error among the first `i` ingredients persists through the rest.
proof fn lemma_accumulate_error_stable(
    recipe: RecipeV,
    env: Seq<DocV>,
    visiting: Set<Seq<char>>,
    i: int,
    j: int,
)
    requires
        0 <= i <= j,
        spec_accumulate(recipe, env, visiting, i) is Err,
    ensures
        spec_accumulate(recipe, env, visiting, j) == spec_accumulate(recipe, env, visiting, i),
    decreases j - i,
{
    if j > i {
        lemma_accumulate_error_stable(recipe, env, visiting, i, j - 1);
    }
}

fn contains_string(v: &Vec<String>, s: &String) -> (r: bool)
    ensures
        r == strs(v@).contains(s@),
{
    let n = v.len();
    let mut i: usize = 0;
    while i < n
        invariant
            i <= n,
            n == v@.len(),
            forall|j: int| 0 <= j < i ==> strings_view(v@)[j] != s@,
        decreases n - i,
    {
        let el: &String = &v[i];
        if el.eq(s) {
            proof {
                assert(strings_view(v@)[i as int] == s@);
                assert(strings_view(v@).contains(s@));
            }
            return true;
        }
        i += 1;
    }
    proof {
        assert(!strings_view(v@).contains(s@));
    }
    false
}

fn clone_strings(v: &Vec<String>) -> (r: Vec<String>)
    ensures
        strings_view(r@) == strings_view(v@),
{
    let n = v.len();
    let mut out: Vec<String> = Vec::new();
    let mut i: usize = 0;
    while i < n
        invariant
            i <= n,
            n == v@.len(),
            out@.len() == i,
            forall|j: int| 0 <= j < i ==> out@[j]@ == v@[j]@,
        decreases n - i,
    {
        out.push(v[i].clone());
        i += 1;
    }
    proof {
        assert(strings_view(out@) =~= strings_view(v@));
    }
    out
}

fn find_product<'a>(products: &'a Vec<Product>, name: &String) -> (r: Option<&'a Product>)
    ensures
        match r {
            Option::Some(p) => lookup_product(products_view(products@), name@) == Option::Some(
                p@,
            ),
            Option::None => lookup_product(products_view(products@), name@) is None,
        },
{
    let ghost pv = products_view(products@);
    let n = products.len();
    let mut i: usize = 0;
    proof {
        assert(pv.skip(0) =~= pv);
    }
    while i < n
        invariant
            i <= n,
            n == products@.len(),
            pv == products_view(products@),
            lookup_product(pv, name@) == lookup_product(pv.skip(i as int), name@),
        decreases n - i,
    {
        let cur = &products[i];
        proof {
            assert(pv.skip(i as int)[0] == cur@);
        }
        if cur.name.eq(name) {
            return Some(cur);
        }
        proof {
            assert(pv.skip(i as int).skip(1) =~= pv.skip(i as int + 1));
        }
        i += 1;
    }
    None
}

fn find_doc<'a>(store: &'a DocumentStore, path: &String) -> (r: Option<&'a Recipe>)
    ensures
        match r {
            Option::Some(rec) => lookup_doc(store@, path@) == Option::Some(rec@) && (store.wf()
                ==> recipe_wf(rec@)),
            Option::None => lookup_doc(store@, path@) is None,
        },
{
    let ghost dv = store@;
    let n = store.docs.len();
    let mut i: usize = 0;
    proof {
        assert(dv.skip(0) =~= dv);
    }
    while i < n
        invariant
            i <= n,
            n == store.docs@.len(),
            dv == store@,
            lookup_doc(dv, path@) == lookup_doc(dv.skip(i as int), path@),
        decreases n - i,
    {
        let cur = &store.docs[i];
        proof {
            assert(dv.skip(i as int)[0] == cur@);
        }
        if cur.path.eq(path) {
            return Some(&cur.recipe);
        }
        proof {
            assert(dv.skip(i as int).skip(1) =~= dv.skip(i as int + 1));
        }
        i += 1;
    }
    None
}

fn names_of(products: &Vec<Product>) -> (r: Vec<String>)
    ensures
        strings_view(r@) == product_names(products_view(products@)),
{
    let n = products.len();
    let mut out: Vec<String> = Vec::new();
    let mut i: usize = 0;
    while i < n
        invariant
            i <= n,
            n == products@.len(),
            out@.len() == i,
            forall|j: int| 0 <= j < i ==> out@[j]@ == products@[j].name@,
        decreases n - i,
    {
        out.push(products[i].name.clone());
        i += 1;
    }
    proof {
        assert(strings_view(out@) =~= product_names(products_view(products@)));
    }
    out
}

/// Model of a contribution outcome: outer `None` means overflow.
pub open spec fn ooview(r: Option<Option<Amount>>) -> Option<Option<Frac>> {
    match r {
        Option::None => Option::None,
        Option::Some(o) => Option::Some(oview(o)),
    }
}

fn contrib_one(tot: Option<Amount>, v: Option<Amount>, amount: &Amount) -> (r: Option<
    Option<Amount>,
>)
    requires
        opt_frac_wf(oview(tot)),
        opt_frac_wf(oview(v)),
        frac_wf(amount@),
    ensures
        ooview(r) == contrib_total(oview(tot), oview(v), amount@),
        r matches Some(o) ==> opt_frac_wf(oview(o)),
{
    match v {
        None => Some(tot),
        Some(x) => {
            let per_gram = Amount { num: 1, den: 100 };
            assert(per_gram@ == cent());
            let c0 = match x.checked_mul(&per_gram) {
                None => {
                    return None;
                },
                Some(c) => c,
            };
            let c = match c0.checked_mul(amount) {
                None => {
                    return None;
                },
                Some(c) => c,
            };
            match tot {
                None => Some(Some(c)),
                Some(t) => match t.checked_add(&c) {
                    None => None,
                    Some(s) => Some(Some(s)),
                },
            }
        },
    }
}

fn add_contributions(totals: &NutritionFacts, facts: &NutritionFacts, amount: &Amount) -> (r:
    Option<NutritionFacts>)
    requires
        facts_wf(totals@),
        facts_wf(facts@),
        frac_wf(amount@),
    ensures
        match r {
            Option::Some(t) => add_contrib_facts(totals@, facts@, amount@) == Option::Some(t@)
                && facts_wf(t@),
            Option::None => add_contrib_facts(totals@, facts@, amount@) is None,
        },
{
    let energy = match contrib_one(totals.energy, facts.energy, amount) {
        None => {
            return None;
        },
        Some(o) => o,
    };
    let proteins = match contrib_one(totals.proteins, facts.proteins, amount) {
        None => {
            return None;
        },
        Some(o) => o,
    };
    let fats = match contrib_one(totals.fats, facts.fats, amount) {
        None => {
            return None;
        },
        Some(o) => o,
    };
    let carbohydrates = match contrib_one(totals.carbohydrates, facts.carbohydrates, amount) {
        None => {
            return None;
        },
        Some(o) => o,
    };
    Some(NutritionFacts { energy, proteins, fats, carbohydrates })
}

fn scale_one(o: Option<Amount>, factor: &Amount) -> (r: Option<Option<Amount>>)
    requires
        opt_frac_wf(oview(o)),
        frac_wf(factor@),
    ensures
        ooview(r) == scale_entry(oview(o), factor@),
        r matches Some(s) ==> opt_frac_wf(oview(s)),
{
    match o {
        None => Some(None),
        Some(v) => match v.checked_mul(factor) {
            None => None,
            Some(c) => Some(Some(c)),
        },
    }
}

fn scale_facts(totals: &NutritionFacts, factor: &Amount) -> (r: Option<NutritionFacts>)
    requires
        facts_wf(totals@),
        frac_wf(factor@),
    ensures
        match r {
            Option::Some(t) => spec_scale(totals@, factor@) == Option::Some(t@) && facts_wf(t@),
            Option::None => spec_scale(totals@, factor@) is None,
        },
{
    let energy = match scale_one(totals.energy, factor) {
        None => {
            return None;
        },
        Some(o) => o,
    };
    let proteins = match scale_one(totals.proteins, factor) {
        None => {
            return None;
        },
        Some(o) => o,
    };
    let fats = match scale_one(totals.fats, factor) {
        None => {
            return None;
        },
        Some(o) => o,
    };
    let carbohydrates = match scale_one(totals.carbohydrates, factor) {
        None => {
            return None;
        },
        Some(o) => o,
    };
    Some(NutritionFacts { energy, proteins, fats, carbohydrates })
}

/// A failing step at ingredient `i` decides the whole resolution.
proof fn lemma_error_at_step(
    recipe: RecipeV,
    env: Seq<DocV>,
    visiting: Set<Seq<char>>,
    i: int,
    acc: AccV,
    e: ErrV,
)
    requires
        0 <= i < recipe.dish.ingredients.len(),
        spec_accumulate(recipe, env, visiting, i) == Result::<AccV, ErrV>::Ok(acc),
        spec_step(acc, recipe.dish.ingredients[i], recipe.products, env, visiting) == Result::<
            AccV,
            ErrV,
        >::Err(e),
    ensures
        spec_resolve(recipe, env, visiting) == Result::<FactsV, ErrV>::Err(e),
{
    assert(spec_accumulate(recipe, env, visiting, i + 1) == Result::<AccV, ErrV>::Err(e));
    lemma_accumulate_error_stable(
        recipe,
        env,
        visiting,
        i + 1,
        recipe.dish.ingredients.len() as int,
    );
}

impl Product {
    /// This product's facts: the declared ones, or those of the referenced
    /// recipe document, resolved against the store. The reference fails on a
    /// document already being resolved (a cycle) or absent from the store.
    fn get_nutrition_facts(&self, store: &DocumentStore, visiting: &Vec<String>) -> (r: Result<
        NutritionFacts,
        ResolveError,
    >)
        requires
            data_wf(self@.nutrition_data),
            store.wf(),
        ensures
            result_view(r) == spec_product_facts(self@.nutrition_data, store@, strs(visiting@)),
            r matches Ok(f) ==> facts_wf(f@),
        decreases measure(store@, strs(visiting@)), 0int,
    {
        let ghost env = store@;
        let ghost vs = strs(visiting@);
        match &self.nutrition_data {
            NutritionData::Facts(f) => Ok(*f),
            NutritionData::Recipe(path) => {
                if contains_string(visiting, path) {
                    return Err(ResolveError::CyclicReference(path.clone()));
                }
                let sub = match find_doc(store, path) {
                    None => {
                        return Err(ResolveError::MissingDocument(path.clone()));
                    },
                    Some(r2) => r2,
                };
                let mut deeper = clone_strings(visiting);
                deeper.push(path.clone());
                proof {
                    assert(strings_view(deeper@) =~= strings_view(visiting@).push(path@));
                    assert(strs(deeper@) == strs(visiting@).insert(path@)) by {
                        assert(strings_view(deeper@).to_set() == strings_view(
                            visiting@,
                        ).push(path@).to_set());
                        strings_view(visiting@).lemma_push_to_set_commute(path@);
                        broadcast use group_set_axioms;

                        assert(strings_view(visiting@).push(path@).to_set() =~= strs(
                            visiting@,
                        ).insert(path@));
                    }
                    lemma_lookup_doc_in_keys(env, path@);
                    lemma_measure_decreases(env, vs, path@);
                }
                resolve_rec(sub, store, &deeper)
            },
        }
    }
}

#[verifier::loop_isolation(false)]
fn resolve_rec(recipe: &Recipe, store: &DocumentStore, visiting: &Vec<String>) -> (r: Result<
    NutritionFacts,
    ResolveError,
>)
    requires
        recipe_wf(recipe@),
        store.wf(),
    ensures
        result_view(r) == spec_resolve(recipe@, store@, strs(visiting@)),
        r matches Ok(f) ==> facts_wf(f@),
    decreases measure(store@, strs(visiting@)), 1int,
{
    let ghost rv = recipe@;
    let ghost env = store@;
    let ghost vs = strs(visiting@);
    let mut totals = NutritionFacts::empty();
    let mut mass = Amount::zero();
    let n = recipe.dish.ingredients.len();
    let mut idx: usize = 0;
    proof {
        assert(rv.dish.ingredients.len() == n);
        assert(AccV { totals: totals@, mass: mass@ } =~= acc_init());
    }
    while idx < n
        invariant
            idx <= n,
            spec_accumulate(rv, env, vs, idx as int) == Result::<AccV, ErrV>::Ok(
                AccV { totals: totals@, mass: mass@ },
            ),
            facts_wf(totals@),
            frac_wf(mass@),
        decreases n - idx,
    {
        let ghost acc = AccV { totals: totals@, mass: mass@ };
        let ing = &recipe.dish.ingredients[idx];
        proof {
            assert(rv.dish.ingredients[idx as int] == ing@);
        }
        let product = match find_product(&recipe.products, &ing.product) {
            None => {
                let err = ResolveError::ProductNotFound {
                    missing: ing.product.clone(),
                    available: names_of(&recipe.products),
                };
                proof {
                    assert(spec_step(acc, ing@, rv.products, env, vs) == Result::<
                        AccV,
                        ErrV,
                    >::Err(err@));
                    lemma_error_at_step(rv, env, vs, idx as int, acc, err@);
                }
                return Err(err);
            },
            Some(p) => p,
        };
        proof {
            assert(frac_wf(ing@.amount));
            assert(data_wf(product@.nutrition_data)) by {
                lemma_lookup_product_found(rv.products, ing@.product, product@);
                let i = choose|i: int| 0 <= i < rv.products.len() && rv.products[i] == product@;
                assert(data_wf(rv.products[i].nutrition_data));
            }
        }
        let new_mass = match mass.checked_add(&ing.amount) {
            None => {
                proof {
                    assert(spec_step(acc, ing@, rv.products, env, vs) == Result::<
                        AccV,
                        ErrV,
                    >::Err(ErrV::NumericOverflow));
                    lemma_error_at_step(rv, env, vs, idx as int, acc, ErrV::NumericOverflow);
                }
                return Err(ResolveError::NumericOverflow);
            },
            Some(m) => m,
        };
        let facts: NutritionFacts = match product.get_nutrition_facts(store, visiting) {
            Err(e) => {
                proof {
                    assert(spec_step(acc, ing@, rv.products, env, vs) == Result::<AccV, ErrV>::Err(
                        e@,
                    ));
                    lemma_error_at_step(rv, env, vs, idx as int, acc, e@);
                }
                return Err(e);
            },
            Ok(f) => f,
        };
        let new_totals = match add_contributions(&totals, &facts, &ing.amount) {
            None => {
                proof {
                    assert(spec_step(acc, ing@, rv.products, env, vs) == Result::<
                        AccV,
                        ErrV,
                    >::Err(ErrV::NumericOverflow));
                    lemma_error_at_step(rv, env, vs, idx as int, acc, ErrV::NumericOverflow);
                }
                return Err(ResolveError::NumericOverflow);
            },
            Some(t) => t,
        };
        proof {
            assert(spec_step(acc, ing@, rv.products, env, vs) == Result::<AccV, ErrV>::Ok(
                AccV { totals: new_totals@, mass: new_mass@ },
            ));
            assert(spec_accumulate(rv, env, vs, idx as int + 1) == Result::<AccV, ErrV>::Ok(
                AccV { totals: new_totals@, mass: new_mass@ },
            ));
        }
        totals = new_totals;
        mass = new_mass;
        idx += 1;
    }
    let basis: Amount = match &recipe.dish.weight {
        Some(w) => *w,
        None => mass,
    };
    proof {
        assert(frac_wf(basis@));
    }
    if basis.num == 0 {
        proof {
            assert(spec_resolve(rv, env, vs) == Result::<FactsV, ErrV>::Err(
                ErrV::InvalidBasisWeight,
            ));
        }
        return Err(ResolveError::InvalidBasisWeight);
    }
    let hundred_grams = Amount::from_int(100);
    let factor = match hundred_grams.checked_div(&basis) {
        None => {
            proof {
                assert(spec_resolve(rv, env, vs) == Result::<FactsV, ErrV>::Err(
                    ErrV::NumericOverflow,
                ));
            }
            return Err(ResolveError::NumericOverflow);
        },
        Some(f) => f,
    };
    match scale_facts(&totals, &factor) {
        None => {
            proof {
                assert(spec_resolve(rv, env, vs) == Result::<FactsV, ErrV>::Err(
                    ErrV::NumericOverflow,
                ));
            }
            Err(ResolveError::NumericOverflow)
        },
        Some(out) => {
            proof {
                assert(spec_resolve(rv, env, vs) == Result::<FactsV, ErrV>::Ok(out@));
            }
            Ok(out)
        },
    }
}

/// A product that lookup finds is one of the pantry's products.
proof fn lemma_lookup_product_found(products: Seq<ProductV>, name: Seq<char>, p: ProductV)
    requires
        lookup_product(products, name) == Option::Some(p),
    ensures
        exists|i: int| 0 <= i < products.len() && products[i] == p,
    decreases products.len(),
{
    if products.len() > 0 {
        if products[0].name == name {
            assert(products[0] == p);
        } else {
            lemma_lookup_product_found(products.skip(1), name, p);
            let i = choose|i: int|
                0 <= i < products.skip(1).len() && products.skip(1)[i] == p;
            assert(products[i + 1] == p);
        }
    }
}

impl Recipe {
    /// Resolve this recipe against the given document store: the per-100g
    /// nutrition facts of its dish, or the error that stops resolution.
    pub fn get_nutrition_facts(&self, store: &DocumentStore) -> (r: Result<
        NutritionFacts,
        ResolveError,
    >)
        requires
            recipe_wf(self@),
            store.wf(),
        ensures
            result_view(r) == spec_resolve(self@, store@, Set::<Seq<char>>::empty()),
            r matches Ok(f) ==> facts_wf(f@),
    {
        let visiting: Vec<String> = Vec::new();
        proof {
            broadcast use group_set_axioms;

            assert(strings_view(visiting@) =~= Seq::<Seq<char>>::empty());
            assert(strs(visiting@) =~= Set::<Seq<char>>::empty());
        }
        resolve_rec(self, store, &visiting)
    }
}

/// Law: a dish with no ingredients and no explicit weight has a zero basis
/// weight, and resolution reports exactly the invalid-basis-weight error —
/// it never produces a value.
pub proof fn lemma_empty_dish_invalid_basis(
    recipe: RecipeV,
    env: Seq<DocV>,
    visiting: Set<Seq<char>>,
)
    requires
        recipe.dish.ingredients.len() == 0,
        recipe.dish.weight is None,
    ensures
        spec_resolve(recipe, env, visiting) == Result::<FactsV, ErrV>::Err(
            ErrV::InvalidBasisWeight,
        ),
{
    assert(spec_accumulate(recipe, env, visiting, 0) == Result::<AccV, ErrV>::Ok(acc_init()));
}

/// Law: once every ingredient has been accumulated, resolution reports the
/// invalid-basis-weight error exactly when the effective basis weight — the
/// explicit dish weight, or else the summed ingredient mass — is zero.
pub proof fn lemma_invalid_basis_iff_zero(
    recipe: RecipeV,
    env: Seq<DocV>,
    visiting: Set<Seq<char>>,
    acc: AccV,
)
    requires
        spec_accumulate(recipe, env, visiting, recipe.dish.ingredients.len() as int) == Result::<
            AccV,
            ErrV,
        >::Ok(acc),
    ensures
        (spec_resolve(recipe, env, visiting) == Result::<FactsV, ErrV>::Err(
            ErrV::InvalidBasisWeight,
        )) <==> (match recipe.dish.weight {
            Option::Some(w) => w.num == 0,
            Option::None => acc.mass.num == 0,
        }),
{
}

/// Law: resolution is a function of the recipe and the document store alone,
/// so resolving the same recipe twice against the same store yields results
/// with identical models.
pub proof fn lemma_resolution_deterministic(
    r1: Result<NutritionFacts, ResolveError>,
    r2: Result<NutritionFacts, ResolveError>,
    recipe: Recipe,
    store: DocumentStore,
)
    requires
        result_view(r1) == spec_resolve(recipe@, store@, Set::<Seq<char>>::empty()),
        result_view(r2) == spec_resolve(recipe@, store@, Set::<Seq<char>>::empty()),
    ensures
        result_view(r1) == result_view(r2),
{
}

/// Law: scaling by the normalization factor never invents data — a nutrient
/// is present in the scaled facts exactly when it was present before.
pub proof fn lemma_scale_preserves_presence(f: FactsV, factor: Frac, out: FactsV)
    requires
        spec_scale(f, factor) == Option::Some(out),
    ensures
        forall|n: Nutrition| (facts_get(out, n) is Some) <==> (facts_get(f, n) is Some),
{
    assert forall|n: Nutrition| (facts_get(out, n) is Some) <==> (facts_get(f, n) is Some) by {
        match n {
            Nutrition::Energy => {},
            Nutrition::Proteins => {},
            Nutrition::Fats => {},
            Nutrition::Carbohydrates => {},
        }
    }
}

} // verus!
