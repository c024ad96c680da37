//! Listing of the products that a query asks for.

use crate::filter::{
    lemma_brand_query_exact, lemma_empty_filter_selects_all, lemma_empty_query_filter,
    lemma_filter_agrees, selection, FilterClauseView, ProductFilter,
};
use crate::models::{Product, ProductQuery, ProductQueryView, ProductView};
use crate::response::{ApiResponse, ApiResponseView};
use crate::store::{FindOutcome, FindOutcomeView};
use vstd::prelude::*;

verus! {

/// A listing that waits for the store's answer.
#[derive(Debug)]
pub struct PendingListing {
    filter: ProductFilter,
}

impl View for PendingListing {
    /// The filter to run.
    type V = Seq<FilterClauseView>;

    closed spec fn view(&self) -> Seq<FilterClauseView> {
        self.filter@
    }
}

/// Every product of `stored`, brought to the current form.
pub open spec fn migrated_all(stored: Seq<ProductView>) -> Seq<ProductView> {
    stored.map_values(|product: ProductView| product.migrated())
}

/// The answer to a listing, given the store's answer: all the products
/// found, each brought to the current form, or the failure.
pub open spec fn listing_response(outcome: FindOutcomeView) -> ApiResponseView {
    match outcome {
        FindOutcomeView::Found(products) => ApiResponseView::listing(migrated_all(products)),
        FindOutcomeView::QueryFailed => ApiResponseView::store_failure("Failed to query products"@),
        FindOutcomeView::CursorFailed => ApiResponseView::store_failure(
            "Failed to retrieve products"@,
        ),
    }
}

/// Brings every product of `products` to the current form.
pub fn migrate_all(products: Vec<Product>) -> (migrated: Vec<Product>)
    ensures
        migrated.deep_view() == migrated_all(products.deep_view()),
{
    let mut products = products;
    let ghost stored = products.deep_view();
    let mut i: usize = 0;
    while i < products.len()
        invariant
            i <= products.len(),
            products.len() == stored.len(),
            forall|k: int| 0 <= k < i ==> (#[trigger] products[k])@ == stored[k].migrated(),
            forall|k: int| i <= k < products.len() ==> (#[trigger] products[k])@ == stored[k],
        decreases products.len() - i,
    {
        products[i].migrate_images();
        i += 1;
    }
    proof {
        assert(products.deep_view() =~= migrated_all(stored));
    }
    products
}

/// Starts the handling of a listing: the products to read are those that
/// the query's filter admits.
pub fn get_products(query: &ProductQuery) -> (pending: PendingListing)
    ensures
        pending@ == query@.filter(),
{
    PendingListing { filter: ProductFilter::from_query(query) }
}

impl PendingListing {
    /// The filter to hand to the store.
    pub fn filter(&self) -> (filter: &ProductFilter)
        ensures
            filter@ == self@,
    {
        &self.filter
    }

    /// Answers the listing with what the store found, without paging.
    pub fn resume(self, outcome: FindOutcome) -> (response: ApiResponse)
        ensures
            response@ == listing_response(outcome@),
    {
        match outcome {
            FindOutcome::Found(products) => ApiResponse::listing(migrate_all(products)),
            FindOutcome::QueryFailed => ApiResponse::store_failure("Failed to query products"),
            FindOutcome::CursorFailed => ApiResponse::store_failure("Failed to retrieve products"),
        }
    }
}

/// A listing answers with as many products as the store found, each in
/// its current form and in the store's order.
pub proof fn lemma_listing_keeps_products(found: Seq<ProductView>, k: int)
    requires
        0 <= k < found.len(),
    ensures
        listing_response(FindOutcomeView::Found(found)).body->Products_0.len() == found.len(),
        listing_response(FindOutcomeView::Found(found)).body->Products_0[k] == found[k].migrated(),
{
}

/// A listing whose query has no field asks the store for everything: if
/// the store answers with what its filter selects, every stored product is
/// listed.
pub proof fn lemma_empty_query_lists_all(stored: Seq<ProductView>)
    ensures
        listing_response(
            FindOutcomeView::Found(
                selection(
                    (ProductQueryView { brand: None, category: None, in_stock: None }).filter(),
                    stored,
                ),
            ),
        ) == ApiResponseView::listing(migrated_all(stored)),
{
    lemma_empty_query_filter();
    lemma_empty_filter_selects_all(stored);
}

/// A listing by brand lists products of that brand only, and every stored
/// product of that brand: if the store answers with what the filter
/// selects, a product is listed if and only if it is the current form of a
/// stored product whose brand is exactly `brand`.
pub proof fn lemma_brand_query_lists_brand(brand: Seq<char>, stored: Seq<ProductView>)
    ensures
        ({
            let query = ProductQueryView { brand: Some(brand), category: None, in_stock: None };
            let listed = listing_response(
                FindOutcomeView::Found(selection(query.filter(), stored)),
            ).body->Products_0;
            &&& forall|k: int| 0 <= k < listed.len() ==> (#[trigger] listed[k]).brand == brand
            &&& forall|i: int|
                0 <= i < stored.len() && (#[trigger] stored[i]).brand == brand
                    ==> listed.contains(stored[i].migrated())
            &&& listed == migrated_all(stored.filter(|product: ProductView| product.brand == brand))
        }),
{
    let query = ProductQueryView { brand: Some(brand), category: None, in_stock: None };
    let by_filter = |product: ProductView| crate::filter::admits(query.filter(), product);
    let by_brand = |product: ProductView| product.brand == brand;
    assert forall|i: int| 0 <= i < stored.len() implies by_filter(#[trigger] stored[i]) == by_brand(
        stored[i],
    ) by {
        lemma_brand_query_exact(brand, stored[i]);
    }
    lemma_filter_agrees(stored, by_filter, by_brand);
    let chosen = stored.filter(by_brand);
    let listed = migrated_all(chosen);
    assert forall|k: int| 0 <= k < listed.len() implies (#[trigger] listed[k]).brand == brand by {
        stored.lemma_filter_pred(by_brand, k);
    }
    assert forall|i: int|
        0 <= i < stored.len() && (#[trigger] stored[i]).brand == brand implies listed.contains(
        stored[i].migrated(),
    ) by {
        stored.lemma_filter_contains(by_brand, i);
        let at = choose|at: int| 0 <= at < chosen.len() && chosen[at] == stored[i];
        assert(listed[at] == stored[i].migrated());
    }
}

} // verus!
