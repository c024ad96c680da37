use chrono::{NaiveDate, NaiveDateTime};
use product_catalog::filter::{FilterClause, ProductFilter};
use product_catalog::models::{Product, ProductQuery};

fn moment() -> NaiveDateTime {
    NaiveDate::from_ymd_opt(2024, 3, 9).unwrap().and_hms_opt(10, 30, 0).unwrap()
}

fn product(id: &str, brand: &str, category: &str, in_stock: bool) -> Product {
    Product {
        id: Some(id.to_string()),
        name: "Item".to_string(),
        brand: brand.to_string(),
        category: category.to_string(),
        price: 100,
        description: String::new(),
        images: vec![],
        image_url: None,
        specs: None,
        in_stock,
        created_at: moment(),
    }
}

fn query(brand: Option<&str>, category: Option<&str>, in_stock: Option<bool>) -> ProductQuery {
    ProductQuery {
        brand: brand.map(String::from),
        category: category.map(String::from),
        in_stock,
    }
}

fn catalog() -> Vec<Product> {
    vec![
        product("1", "Apple", "Phone", true),
        product("2", "Acme", "Phone", true),
        product("3", "Apple", "Accessory", false),
        product("4", "apple", "Phone", true),
        product("5", "Apple Inc", "Phone", true),
    ]
}

fn ids_admitted(filter: &ProductFilter) -> Vec<String> {
    catalog().into_iter().filter(|p| filter.admits(p)).map(|p| p.id.unwrap()).collect()
}

#[test]
fn empty_query_gives_filter_without_conditions() {
    let filter = ProductFilter::from_query(&query(None, None, None));
    assert!(filter.clauses.is_empty());
}

#[test]
fn empty_filter_admits_every_product() {
    let filter = ProductFilter::from_query(&query(None, None, None));
    assert_eq!(ids_admitted(&filter), vec!["1", "2", "3", "4", "5"]);
}

#[test]
fn full_query_gives_conditions_in_order() {
    let filter = ProductFilter::from_query(&query(Some("Apple"), Some("Phone"), Some(true)));
    assert_eq!(
        filter.clauses,
        vec![
            FilterClause::Brand("Apple".to_string()),
            FilterClause::Category("Phone".to_string()),
            FilterClause::InStock(true),
        ]
    );
}

#[test]
fn absent_fields_give_no_condition() {
    let filter = ProductFilter::from_query(&query(None, Some("Accessory"), None));
    assert_eq!(filter.clauses, vec![FilterClause::Category("Accessory".to_string())]);
    let filter = ProductFilter::from_query(&query(Some("Acme"), None, Some(false)));
    assert_eq!(
        filter.clauses,
        vec![FilterClause::Brand("Acme".to_string()), FilterClause::InStock(false)]
    );
}

#[test]
fn brand_filter_admits_exactly_that_brand() {
    let filter = ProductFilter::from_query(&query(Some("Apple"), None, None));
    assert_eq!(ids_admitted(&filter), vec!["1", "3"]);
}

#[test]
fn conditions_narrow_together() {
    let filter = ProductFilter::from_query(&query(Some("Apple"), Some("Phone"), None));
    assert_eq!(ids_admitted(&filter), vec!["1"]);
    let filter = ProductFilter::from_query(&query(None, None, Some(false)));
    assert_eq!(ids_admitted(&filter), vec!["3"]);
    let filter = ProductFilter::from_query(&query(Some("Acme"), Some("Accessory"), None));
    assert!(ids_admitted(&filter).is_empty());
}

#[test]
fn filter_by_id_holds_one_condition() {
    let filter = ProductFilter::by_id("3");
    assert_eq!(filter.clauses, vec![FilterClause::Id("3".to_string())]);
    assert_eq!(ids_admitted(&filter), vec!["3"]);
}

#[test]
fn filter_by_id_rejects_product_without_identifier() {
    let mut unsaved = product("x", "Apple", "Phone", true);
    unsaved.id = None;
    assert!(!ProductFilter::by_id("x").admits(&unsaved));
    assert!(!FilterClause::Id(String::new()).admits(&unsaved));
}

#[test]
fn clause_admits_on_equal_field_only() {
    let p = product("1", "Apple", "Phone", true);
    assert!(FilterClause::Brand("Apple".to_string()).admits(&p));
    assert!(!FilterClause::Brand("Appl".to_string()).admits(&p));
    assert!(FilterClause::Category("Phone".to_string()).admits(&p));
    assert!(!FilterClause::Category("Accessory".to_string()).admits(&p));
    assert!(FilterClause::InStock(true).admits(&p));
    assert!(!FilterClause::InStock(false).admits(&p));
    assert!(FilterClause::Id("1".to_string()).admits(&p));
    assert!(!FilterClause::Id("2".to_string()).admits(&p));
}

#[test]
fn clauses_name_their_stored_fields() {
    assert_eq!(FilterClause::Id("a".to_string()).field_name(), "_id");
    assert_eq!(FilterClause::Brand("a".to_string()).field_name(), "brand");
    assert_eq!(FilterClause::Category("a".to_string()).field_name(), "category");
    assert_eq!(FilterClause::InStock(true).field_name(), "in_stock");
}
