use chrono::{NaiveDate, NaiveDateTime, Utc};
use product_catalog::models::{
    default_stock_status, CreateProductRequest, Product, ProductSpecs,
};

fn moment() -> NaiveDateTime {
    NaiveDate::from_ymd_opt(2024, 3, 9).unwrap().and_hms_opt(10, 30, 0).unwrap()
}

fn stored(images: Vec<&str>, image_url: Option<&str>) -> Product {
    Product {
        id: Some("p-1".to_string()),
        name: "Phone X".to_string(),
        brand: "Acme".to_string(),
        category: "Phone".to_string(),
        price: 49900,
        description: "A phone".to_string(),
        images: images.into_iter().map(String::from).collect(),
        image_url: image_url.map(String::from),
        specs: None,
        in_stock: true,
        created_at: moment(),
    }
}

fn specs() -> ProductSpecs {
    ProductSpecs {
        screen_size: Some("6.1 in".to_string()),
        ram: Some("8 GB".to_string()),
        storage: None,
        battery: None,
        camera: Some("48 MP".to_string()),
        processor: None,
    }
}

fn request(images: Vec<&str>, in_stock: Option<bool>) -> CreateProductRequest {
    CreateProductRequest {
        name: "Phone X".to_string(),
        brand: "Acme".to_string(),
        category: "Phone".to_string(),
        price: 49900,
        description: "A phone".to_string(),
        images: images.into_iter().map(String::from).collect(),
        specs: Some(specs()),
        in_stock,
    }
}

fn is_lower_hex(c: char) -> bool {
    c.is_ascii_digit() || ('a'..='f').contains(&c)
}

#[test]
fn stock_status_defaults_to_in_stock() {
    assert!(default_stock_status());
}

#[test]
fn migration_moves_single_image_into_images() {
    let mut product = stored(vec![], Some("http://x/a.jpg"));
    product.migrate_images();
    assert_eq!(product.images, vec!["http://x/a.jpg".to_string()]);
    assert_eq!(product.image_url, Some("http://x/a.jpg".to_string()));
}

#[test]
fn migration_changes_nothing_but_images() {
    let mut product = stored(vec![], Some("http://x/a.jpg"));
    product.migrate_images();
    let mut expected = stored(vec!["http://x/a.jpg"], Some("http://x/a.jpg"));
    expected.created_at = moment();
    assert_eq!(product, expected);
}

#[test]
fn migration_twice_is_migration_once() {
    let mut once = stored(vec![], Some("http://x/a.jpg"));
    once.migrate_images();
    let mut twice = stored(vec![], Some("http://x/a.jpg"));
    twice.migrate_images();
    twice.migrate_images();
    assert_eq!(once, twice);
    assert_eq!(twice.images.len(), 1);
}

#[test]
fn migration_leaves_present_images_alone() {
    let mut product = stored(vec!["http://x/1.jpg", "http://x/2.jpg"], Some("http://x/old.jpg"));
    product.migrate_images();
    assert_eq!(product, stored(vec!["http://x/1.jpg", "http://x/2.jpg"], Some("http://x/old.jpg")));
}

#[test]
fn migration_without_any_image_leaves_images_empty() {
    let mut product = stored(vec![], None);
    product.migrate_images();
    assert!(product.images.is_empty());
    assert_eq!(product.image_url, None);
}

#[test]
fn primary_image_is_first_of_images() {
    let product = stored(vec!["http://x/1.jpg", "http://x/2.jpg"], Some("http://x/old.jpg"));
    assert_eq!(product.get_primary_image(), Some(&"http://x/1.jpg".to_string()));
}

#[test]
fn primary_image_falls_back_to_single_image() {
    let product = stored(vec![], Some("http://x/old.jpg"));
    assert_eq!(product.get_primary_image(), Some(&"http://x/old.jpg".to_string()));
}

#[test]
fn primary_image_is_absent_without_images() {
    let product = stored(vec![], None);
    assert_eq!(product.get_primary_image(), None);
}

#[test]
fn primary_image_survives_migration() {
    let mut product = stored(vec![], Some("http://x/old.jpg"));
    let before = product.get_primary_image().cloned();
    product.migrate_images();
    assert_eq!(product.get_primary_image().cloned(), before);
}

#[test]
fn from_request_copies_every_field() {
    let product = Product::from_request(
        request(vec!["https://img/1.jpg", "https://img/2.jpg"], Some(false)),
        "id-7".to_string(),
        moment(),
    );
    assert_eq!(
        product,
        Product {
            id: Some("id-7".to_string()),
            name: "Phone X".to_string(),
            brand: "Acme".to_string(),
            category: "Phone".to_string(),
            price: 49900,
            description: "A phone".to_string(),
            images: vec!["https://img/1.jpg".to_string(), "https://img/2.jpg".to_string()],
            image_url: None,
            specs: Some(specs()),
            in_stock: false,
            created_at: moment(),
        }
    );
}

#[test]
fn from_request_defaults_to_in_stock() {
    let product = Product::from_request(request(vec![], None), "id-8".to_string(), moment());
    assert!(product.in_stock);
    assert!(product.images.is_empty());
    assert_eq!(product.image_url, None);
}

#[test]
fn from_request_keeps_stated_stock_status() {
    let yes = Product::from_request(request(vec![], Some(true)), "a".to_string(), moment());
    let no = Product::from_request(request(vec![], Some(false)), "b".to_string(), moment());
    assert!(yes.in_stock);
    assert!(!no.in_stock);
}

#[test]
fn conversion_assigns_a_random_uuid() {
    let product = Product::from(request(vec!["https://img/1.jpg"], None));
    let id = product.id.clone().expect("a new product has an identifier");
    let chars: Vec<char> = id.chars().collect();
    assert_eq!(chars.len(), 36);
    for (i, c) in chars.iter().enumerate() {
        if i == 8 || i == 13 || i == 18 || i == 23 {
            assert_eq!(*c, '-');
        } else {
            assert!(is_lower_hex(*c), "character {} of {}", i, id);
        }
    }
    assert_eq!(chars[14], '4');
    assert!(matches!(chars[19], '8' | '9' | 'a' | 'b'));
}

#[test]
fn conversion_assigns_distinct_identifiers() {
    let first = Product::from(request(vec![], None));
    let second = Product::from(request(vec![], None));
    assert_ne!(first.id, second.id);
}

#[test]
fn conversion_stamps_the_current_time() {
    let before = Utc::now().naive_utc();
    let product = Product::from(request(vec![], None));
    let after = Utc::now().naive_utc();
    assert!(before <= product.created_at);
    assert!(product.created_at <= after);
}

#[test]
fn conversion_keeps_the_request_and_leaves_single_image_unset() {
    let product: Product = request(vec!["https://img/1.jpg"], None).into();
    assert_eq!(product.name, "Phone X");
    assert_eq!(product.brand, "Acme");
    assert_eq!(product.category, "Phone");
    assert_eq!(product.price, 49900);
    assert_eq!(product.description, "A phone");
    assert_eq!(product.images, vec!["https://img/1.jpg".to_string()]);
    assert_eq!(product.image_url, None);
    assert_eq!(product.specs, Some(specs()));
    assert!(product.in_stock);
}

#[test]
fn clone_is_equal_to_its_source() {
    let mut product = stored(vec!["http://x/1.jpg"], Some("http://x/old.jpg"));
    product.specs = Some(specs());
    let copy = product.clone();
    assert_eq!(copy, product);
    assert_eq!(specs().clone(), specs());
}
