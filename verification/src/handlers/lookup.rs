//! Lookup of one product by its identifier.

use crate::filter::{single, FilterClauseView, ProductFilter};
use crate::response::{ApiResponse, ApiResponseView};
use crate::store::{LookupOutcome, LookupOutcomeView};
use vstd::prelude::*;

verus! {

/// A lookup that waits for the store's answer.
#[derive(Debug)]
pub struct PendingLookup {
    id: String,
}

impl View for PendingLookup {
    /// The identifier looked up.
    type V = Seq<char>;

    closed spec fn view(&self) -> Seq<char> {
        self.id@
    }
}

/// The answer to the lookup of `id`, given the store's answer: the product
/// in its current form, or that there is none, or the failure.
pub open spec fn lookup_response(id: Seq<char>, outcome: LookupOutcomeView) -> ApiResponseView {
    match outcome {
        LookupOutcomeView::Found(product) => ApiResponseView::product(product.migrated()),
        LookupOutcomeView::Missing => ApiResponseView::not_found(id),
        LookupOutcomeView::Failed => ApiResponseView::store_failure("Failed to retrieve product"@),
    }
}

/// Starts the handling of the lookup of one product by its identifier.
pub fn get_product_by_id(id: String) -> (pending: PendingLookup)
    ensures
        pending@ == id@,
{
    PendingLookup { id }
}

impl PendingLookup {
    /// The filter to hand to the store: the identifier must be equal.
    pub fn filter(&self) -> (filter: ProductFilter)
        ensures
            filter@ == single(FilterClauseView::Id(self@)),
    {
        ProductFilter::by_id(self.id.as_str())
    }

    /// Answers the lookup with what the store found.
    pub fn resume(self, outcome: LookupOutcome) -> (response: ApiResponse)
        ensures
            response@ == lookup_response(self@, outcome@),
    {
        match outcome {
            LookupOutcome::Found(product) => {
                let mut product = product;
                product.migrate_images();
                ApiResponse::product(product)
            },
            LookupOutcome::Missing => ApiResponse::not_found(self.id.as_str()),
            LookupOutcome::Failed => ApiResponse::store_failure("Failed to retrieve product"),
        }
    }
}

/// A lookup that finds nothing is answered in the 400s, with 404, and
/// never in the 500s; only a failure of the store is.
pub proof fn lemma_missing_product_is_not_found(id: Seq<char>, outcome: LookupOutcomeView)
    ensures
        outcome is Missing ==> lookup_response(id, outcome).status == 404 && lookup_response(
            id,
            outcome,
        ).is_client_error(),
        lookup_response(id, outcome).is_server_error() <==> outcome is Failed,
        outcome is Found ==> lookup_response(id, outcome).is_success(),
{
}

} // verus!
