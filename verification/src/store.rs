//! What the product store reports back for each operation asked of it.
//!
//! The store itself is outside this crate: a caller performs the
//! operation and hands in one of these outcomes.

use crate::models::{Product, ProductView};
use vstd::prelude::*;

verus! {

/// Outcome of writing one product.
#[derive(Debug, Clone, PartialEq)]
pub enum InsertOutcome {
    /// Written; the store names the document by this identifier.
    Inserted(String),
    /// Not written.
    Failed,
}

/// Mathematical view of [`InsertOutcome`].
pub enum InsertOutcomeView {
    Inserted(Seq<char>),
    Failed,
}

impl View for InsertOutcome {
    type V = InsertOutcomeView;

    open spec fn view(&self) -> InsertOutcomeView {
        match self {
            InsertOutcome::Inserted(id) => InsertOutcomeView::Inserted(id@),
            InsertOutcome::Failed => InsertOutcomeView::Failed,
        }
    }
}

/// Outcome of reading the products that match a filter.
#[derive(Debug, Clone, PartialEq)]
pub enum FindOutcome {
    /// The matching products, as stored.
    Found(Vec<Product>),
    /// The store refused or lost the query.
    QueryFailed,
    /// The query ran, but its results could not all be read.
    CursorFailed,
}

/// Mathematical view of [`FindOutcome`].
pub enum FindOutcomeView {
    Found(Seq<ProductView>),
    QueryFailed,
    CursorFailed,
}

impl View for FindOutcome {
    type V = FindOutcomeView;

    open spec fn view(&self) -> FindOutcomeView {
        match self {
            FindOutcome::Found(products) => FindOutcomeView::Found(products.deep_view()),
            FindOutcome::QueryFailed => FindOutcomeView::QueryFailed,
            FindOutcome::CursorFailed => FindOutcomeView::CursorFailed,
        }
    }
}

/// Outcome of reading one product by its identifier. That there is no such
/// product is an answer, not a failure.
#[derive(Debug, Clone, PartialEq)]
pub enum LookupOutcome {
    Found(Product),
    Missing,
    Failed,
}

/// Mathematical view of [`LookupOutcome`].
pub enum LookupOutcomeView {
    Found(ProductView),
    Missing,
    Failed,
}

impl View for LookupOutcome {
    type V = LookupOutcomeView;

    open spec fn view(&self) -> LookupOutcomeView {
        match self {
            LookupOutcome::Found(product) => LookupOutcomeView::Found(product@),
            LookupOutcome::Missing => LookupOutcomeView::Missing,
            LookupOutcome::Failed => LookupOutcomeView::Failed,
        }
    }
}

/// Outcome of a round trip to the store.
#[derive(Debug, Clone, PartialEq)]
pub enum PingOutcome {
    Alive,
    /// No answer, for the reason given.
    Failed(String),
}

/// Mathematical view of [`PingOutcome`].
pub enum PingOutcomeView {
    Alive,
    Failed(Seq<char>),
}

impl View for PingOutcome {
    type V = PingOutcomeView;

    open spec fn view(&self) -> PingOutcomeView {
        match self {
            PingOutcome::Alive => PingOutcomeView::Alive,
            PingOutcome::Failed(reason) => PingOutcomeView::Failed(reason@),
        }
    }
}

} // verus!
