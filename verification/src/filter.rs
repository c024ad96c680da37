//! Filters of store queries: which stored products a query asks for.

use crate::models::{Product, ProductQuery, ProductQueryView, ProductView};
use vstd::prelude::*;
use vstd::string::StringExecFns;

verus! {

/// One condition of a filter: a stored field and the value it must equal.
#[derive(Debug, Clone, PartialEq)]
pub enum FilterClause {
    /// The product's identifier is this one.
    Id(String),
    Brand(String),
    Category(String),
    InStock(bool),
}

/// Mathematical view of [`FilterClause`].
pub enum FilterClauseView {
    Id(Seq<char>),
    Brand(Seq<char>),
    Category(Seq<char>),
    InStock(bool),
}

impl View for FilterClause {
    type V = FilterClauseView;

    open spec fn view(&self) -> FilterClauseView {
        match self {
            FilterClause::Id(id) => FilterClauseView::Id(id@),
            FilterClause::Brand(brand) => FilterClauseView::Brand(brand@),
            FilterClause::Category(category) => FilterClauseView::Category(category@),
            FilterClause::InStock(in_stock) => FilterClauseView::InStock(*in_stock),
        }
    }
}

impl DeepView for FilterClause {
    type V = FilterClauseView;

    open spec fn deep_view(&self) -> FilterClauseView {
        self.view()
    }
}

impl FilterClauseView {
    /// The name under which the store holds the field.
    pub open spec fn field_name(self) -> Seq<char> {
        match self {
            FilterClauseView::Id(_) => "_id"@,
            FilterClauseView::Brand(_) => "brand"@,
            FilterClauseView::Category(_) => "category"@,
            FilterClauseView::InStock(_) => "in_stock"@,
        }
    }

    /// Whether `product` meets the condition: the field equals the value.
    pub open spec fn admits(self, product: ProductView) -> bool {
        match self {
            FilterClauseView::Id(id) => product.id == Some(id),
            FilterClauseView::Brand(brand) => product.brand == brand,
            FilterClauseView::Category(category) => product.category == category,
            FilterClauseView::InStock(in_stock) => product.in_stock == in_stock,
        }
    }
}

impl FilterClause {
    /// The name under which the store holds the field.
    pub fn field_name(&self) -> (name: String)
        ensures
            name@ == self@.field_name(),
    {
        match self {
            FilterClause::Id(_) => String::from_str("_id"),
            FilterClause::Brand(_) => String::from_str("brand"),
            FilterClause::Category(_) => String::from_str("category"),
            FilterClause::InStock(_) => String::from_str("in_stock"),
        }
    }

    /// Whether `product` meets the condition.
    pub fn admits(&self, product: &Product) -> (admitted: bool)
        ensures
            admitted == self@.admits(product@),
    {
        match self {
            FilterClause::Id(id) => match &product.id {
                Some(product_id) => *product_id == *id,
                None => false,
            },
            FilterClause::Brand(brand) => product.brand == *brand,
            FilterClause::Category(category) => product.category == *category,
            FilterClause::InStock(in_stock) => product.in_stock == *in_stock,
        }
    }
}

/// A filter: the conditions that a product must meet, all of them. The
/// filter without conditions asks for every product.
#[derive(Debug, Clone, PartialEq)]
pub struct ProductFilter {
    pub clauses: Vec<FilterClause>,
}

impl View for ProductFilter {
    type V = Seq<FilterClauseView>;

    open spec fn view(&self) -> Seq<FilterClauseView> {
        self.clauses.deep_view()
    }
}

/// Whether `product` meets every condition of `filter`.
pub open spec fn admits(filter: Seq<FilterClauseView>, product: ProductView) -> bool {
    forall|i: int| 0 <= i < filter.len() ==> (#[trigger] filter[i]).admits(product)
}

/// The products of `stored` that `filter` asks for, in their stored order.
pub open spec fn selection(
    filter: Seq<FilterClauseView>,
    stored: Seq<ProductView>,
) -> Seq<ProductView> {
    stored.filter(|product: ProductView| admits(filter, product))
}

/// The filter with the single condition `clause`.
pub open spec fn single(clause: FilterClauseView) -> Seq<FilterClauseView> {
    seq![clause]
}

impl ProductQueryView {
    /// The filter that the query stands for: one condition for each field
    /// that is present, in the order brand, category, stock status.
    pub open spec fn filter(self) -> Seq<FilterClauseView> {
        let brand = match self.brand {
            Some(brand) => seq![FilterClauseView::Brand(brand)],
            None => seq![],
        };
        let category = match self.category {
            Some(category) => seq![FilterClauseView::Category(category)],
            None => seq![],
        };
        let in_stock = match self.in_stock {
            Some(in_stock) => seq![FilterClauseView::InStock(in_stock)],
            None => seq![],
        };
        brand + category + in_stock
    }
}

impl ProductFilter {
    /// The filter that `query` stands for.
    pub fn from_query(query: &ProductQuery) -> (filter: ProductFilter)
        ensures
            filter@ == query@.filter(),
    {
        let mut clauses: Vec<FilterClause> = Vec::new();
        if let Some(brand) = &query.brand {
            clauses.push(FilterClause::Brand(brand.clone()));
        }
        if let Some(category) = &query.category {
            clauses.push(FilterClause::Category(category.clone()));
        }
        if let Some(in_stock) = query.in_stock {
            clauses.push(FilterClause::InStock(in_stock));
        }
        let filter = ProductFilter { clauses };
        proof {
            assert(filter@ =~= query@.filter());
        }
        filter
    }

    /// The filter that asks for the product with identifier `id`.
    pub fn by_id(id: &str) -> (filter: ProductFilter)
        ensures
            filter@ == single(FilterClauseView::Id(id@)),
    {
        let mut clauses: Vec<FilterClause> = Vec::new();
        clauses.push(FilterClause::Id(String::from_str(id)));
        let filter = ProductFilter { clauses };
        proof {
            assert(filter@ =~= single(FilterClauseView::Id(id@)));
        }
        filter
    }

    /// Whether `product` meets every condition of the filter.
    pub fn admits(&self, product: &Product) -> (admitted: bool)
        ensures
            admitted == admits(self@, product@),
    {
        let mut i: usize = 0;
        while i < self.clauses.len()
            invariant
                i <= self.clauses.len(),
                forall|k: int| 0 <= k < i ==> (#[trigger] self@[k]).admits(product@),
            decreases self.clauses.len() - i,
        {
            if !self.clauses[i].admits(product) {
                proof {
                    assert(!self@[i as int].admits(product@));
                }
                return false;
            }
            i += 1;
        }
        true
    }
}

/// A query's filter admits exactly the products that the query matches:
/// each field that is present must be equal, each that is absent is free.
pub proof fn lemma_query_filter_exact(query: ProductQueryView, product: ProductView)
    ensures
        admits(query.filter(), product) <==> query.matches(product),
{
    let filter = query.filter();
    if query.matches(product) {
        assert forall|i: int| 0 <= i < filter.len() implies (#[trigger] filter[i]).admits(
            product,
        ) by {}
    }
    if admits(filter, product) {
        if let Some(brand) = query.brand {
            assert(filter[0] == FilterClauseView::Brand(brand));
        }
        if let Some(category) = query.category {
            let at = if query.brand is Some {
                1int
            } else {
                0int
            };
            assert(filter[at] == FilterClauseView::Category(category));
        }
        if let Some(in_stock) = query.in_stock {
            let at = filter.len() - 1;
            assert(filter[at] == FilterClauseView::InStock(in_stock));
        }
    }
}

/// The query without any field stands for the filter without conditions.
pub proof fn lemma_empty_query_filter()
    ensures
        (ProductQueryView { brand: None, category: None, in_stock: None }).filter()
            == Seq::<FilterClauseView>::empty(),
{
    assert((ProductQueryView { brand: None, category: None, in_stock: None }).filter()
        =~= Seq::<FilterClauseView>::empty());
}

/// The query without any field admits every product.
pub proof fn lemma_empty_query_admits_all(product: ProductView)
    ensures
        admits(
            (ProductQueryView { brand: None, category: None, in_stock: None }).filter(),
            product,
        ),
{
    lemma_empty_query_filter();
}

/// A query by brand alone admits the products of exactly that brand.
pub proof fn lemma_brand_query_exact(brand: Seq<char>, product: ProductView)
    ensures
        admits(
            (ProductQueryView { brand: Some(brand), category: None, in_stock: None }).filter(),
            product,
        ) <==> product.brand == brand,
{
    lemma_query_filter_exact(
        ProductQueryView { brand: Some(brand), category: None, in_stock: None },
        product,
    );
}

/// The filter without conditions selects all that is stored.
pub proof fn lemma_empty_filter_selects_all(stored: Seq<ProductView>)
    ensures
        selection(Seq::<FilterClauseView>::empty(), stored) == stored,
    decreases stored.len(),
{
    let keep = |product: ProductView| admits(Seq::<FilterClauseView>::empty(), product);
    reveal(Seq::filter);
    if stored.len() > 0 {
        lemma_empty_filter_selects_all(stored.drop_last());
        assert(keep(stored.last()));
        assert(stored.drop_last().push(stored.last()) =~= stored);
    } else {
        assert(stored.filter(keep) =~= stored);
    }
}

/// Two tests that agree on every element of a sequence keep the same
/// elements of it.
pub proof fn lemma_filter_agrees<A>(s: Seq<A>, p: spec_fn(A) -> bool, q: spec_fn(A) -> bool)
    requires
        forall|i: int| 0 <= i < s.len() ==> p(#[trigger] s[i]) == q(s[i]),
    ensures
        s.filter(p) == s.filter(q),
    decreases s.len(),
{
    reveal(Seq::filter);
    if s.len() > 0 {
        lemma_filter_agrees(s.drop_last(), p, q);
    }
}

} // verus!
