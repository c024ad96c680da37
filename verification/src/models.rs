//! The product entity, its creation payload and its listing query.
//!
//! Each executable type has a mathematical view (`@`) in which strings are
//! sequences of characters and vectors are sequences. Contracts are stated
//! over the views.

use crate::fresh::{current_time, is_random_uuid, random_identifier};
use vstd::prelude::*;
use vstd::std_specs::convert::FromSpecImpl;

verus! {

/// `chrono::NaiveDateTime`, carried through as an opaque value. Every
/// timestamp in this crate is a date and time of day in UTC.
#[verifier::external_type_specification]
#[verifier::external_body]
pub struct ExNaiveDateTime(chrono::NaiveDateTime);

/// `NaiveDateTime::clone`. The type is `Copy` and its `Clone` is derived, so
/// the clone is the value itself.
pub assume_specification[ <chrono::NaiveDateTime as Clone>::clone ](
    moment: &chrono::NaiveDateTime,
) -> (copy: chrono::NaiveDateTime)
    ensures
        copy == *moment,
;

/// Technical details of a product. Each one is present only when known.
#[derive(Debug, PartialEq)]
pub struct ProductSpecs {
    pub screen_size: Option<String>,
    pub ram: Option<String>,
    pub storage: Option<String>,
    pub battery: Option<String>,
    pub camera: Option<String>,
    pub processor: Option<String>,
}

/// Mathematical view of [`ProductSpecs`].
pub struct ProductSpecsView {
    pub screen_size: Option<Seq<char>>,
    pub ram: Option<Seq<char>>,
    pub storage: Option<Seq<char>>,
    pub battery: Option<Seq<char>>,
    pub camera: Option<Seq<char>>,
    pub processor: Option<Seq<char>>,
}

impl View for ProductSpecs {
    type V = ProductSpecsView;

    open spec fn view(&self) -> ProductSpecsView {
        ProductSpecsView {
            screen_size: self.screen_size.deep_view(),
            ram: self.ram.deep_view(),
            storage: self.storage.deep_view(),
            battery: self.battery.deep_view(),
            camera: self.camera.deep_view(),
            processor: self.processor.deep_view(),
        }
    }
}

impl DeepView for ProductSpecs {
    type V = ProductSpecsView;

    open spec fn deep_view(&self) -> ProductSpecsView {
        self.view()
    }
}

/// A product of the catalog.
///
/// `images` is the current way to hold image URLs. `image_url` is the older
/// single-image field, kept so that documents stored under it can still be
/// read; [`Product::migrate_images`] reconciles the two.
#[derive(Debug, PartialEq)]
pub struct Product {
    pub id: Option<String>,
    pub name: String,
    pub brand: String,
    pub category: String,
    /// Price in the smallest currency unit.
    pub price: u32,
    pub description: String,
    pub images: Vec<String>,
    pub image_url: Option<String>,
    pub specs: Option<ProductSpecs>,
    pub in_stock: bool,
    pub created_at: chrono::NaiveDateTime,
}

/// Mathematical view of [`Product`].
pub struct ProductView {
    pub id: Option<Seq<char>>,
    pub name: Seq<char>,
    pub brand: Seq<char>,
    pub category: Seq<char>,
    pub price: u32,
    pub description: Seq<char>,
    pub images: Seq<Seq<char>>,
    pub image_url: Option<Seq<char>>,
    pub specs: Option<ProductSpecsView>,
    pub in_stock: bool,
    pub created_at: chrono::NaiveDateTime,
}

impl View for Product {
    type V = ProductView;

    open spec fn view(&self) -> ProductView {
        ProductView {
            id: self.id.deep_view(),
            name: self.name@,
            brand: self.brand@,
            category: self.category@,
            price: self.price,
            description: self.description@,
            images: self.images.deep_view(),
            image_url: self.image_url.deep_view(),
            specs: self.specs.deep_view(),
            in_stock: self.in_stock,
            created_at: self.created_at,
        }
    }
}

impl DeepView for Product {
    type V = ProductView;

    open spec fn deep_view(&self) -> ProductView {
        self.view()
    }
}

/// Payload of a creation request: a product without its identifier and its
/// creation time, and with an optional stock status.
#[derive(Debug, Clone, PartialEq)]
pub struct CreateProductRequest {
    pub name: String,
    pub brand: String,
    pub category: String,
    pub price: u32,
    pub description: String,
    pub images: Vec<String>,
    pub specs: Option<ProductSpecs>,
    pub in_stock: Option<bool>,
}

/// Mathematical view of [`CreateProductRequest`].
pub struct CreateProductRequestView {
    pub name: Seq<char>,
    pub brand: Seq<char>,
    pub category: Seq<char>,
    pub price: u32,
    pub description: Seq<char>,
    pub images: Seq<Seq<char>>,
    pub specs: Option<ProductSpecsView>,
    pub in_stock: Option<bool>,
}

impl View for CreateProductRequest {
    type V = CreateProductRequestView;

    open spec fn view(&self) -> CreateProductRequestView {
        CreateProductRequestView {
            name: self.name@,
            brand: self.brand@,
            category: self.category@,
            price: self.price,
            description: self.description@,
            images: self.images.deep_view(),
            specs: self.specs.deep_view(),
            in_stock: self.in_stock,
        }
    }
}

/// Filter of a product listing. A field that is absent puts no constraint on
/// the products listed.
#[derive(Debug, Clone, PartialEq)]
pub struct ProductQuery {
    pub brand: Option<String>,
    pub category: Option<String>,
    pub in_stock: Option<bool>,
}

/// Mathematical view of [`ProductQuery`].
pub struct ProductQueryView {
    pub brand: Option<Seq<char>>,
    pub category: Option<Seq<char>>,
    pub in_stock: Option<bool>,
}

impl View for ProductQuery {
    type V = ProductQueryView;

    open spec fn view(&self) -> ProductQueryView {
        ProductQueryView {
            brand: self.brand.deep_view(),
            category: self.category.deep_view(),
            in_stock: self.in_stock,
        }
    }
}

impl ProductQueryView {
    /// Whether the query lets `product` through: every field that is present
    /// equals the product's.
    pub open spec fn matches(self, product: ProductView) -> bool {
        &&& self.brand matches Some(brand) ==> product.brand == brand
        &&& self.category matches Some(category) ==> product.category == category
        &&& self.in_stock matches Some(in_stock) ==> product.in_stock == in_stock
    }
}

impl ProductView {
    /// The product as read back from storage: if it has no images and an
    /// `image_url`, that URL becomes its only image.
    pub open spec fn migrated(self) -> ProductView {
        if self.images.len() == 0 && self.image_url is Some {
            ProductView { images: seq![self.image_url->0], ..self }
        } else {
            self
        }
    }

    /// The product is in the current form: it does not hold its only image
    /// under `image_url` alone.
    pub open spec fn is_current(self) -> bool {
        self.images.len() == 0 ==> self.image_url is None
    }

    /// The image to display: the first of `images`, else `image_url`.
    pub open spec fn primary_image(self) -> Option<Seq<char>> {
        if self.images.len() > 0 {
            Some(self.images[0])
        } else {
            self.image_url
        }
    }

    /// The product that a creation request describes, under the identifier
    /// and creation time chosen for it.
    pub open spec fn created(
        request: CreateProductRequestView,
        id: Seq<char>,
        created_at: chrono::NaiveDateTime,
    ) -> ProductView {
        ProductView {
            id: Some(id),
            name: request.name,
            brand: request.brand,
            category: request.category,
            price: request.price,
            description: request.description,
            images: request.images,
            image_url: None,
            specs: request.specs,
            in_stock: match request.in_stock {
                Some(in_stock) => in_stock,
                None => true,
            },
            created_at,
        }
    }
}

/// A copy of an optional text.
fn clone_text(text: &Option<String>) -> (copy: Option<String>)
    ensures
        copy.deep_view() == text.deep_view(),
{
    match text {
        Some(text) => Some(text.clone()),
        None => None,
    }
}

impl Clone for ProductSpecs {
    fn clone(&self) -> (copy: ProductSpecs)
        ensures
            copy@ == self@,
    {
        ProductSpecs {
            screen_size: clone_text(&self.screen_size),
            ram: clone_text(&self.ram),
            storage: clone_text(&self.storage),
            battery: clone_text(&self.battery),
            camera: clone_text(&self.camera),
            processor: clone_text(&self.processor),
        }
    }
}

impl Clone for Product {
    fn clone(&self) -> (copy: Product)
        ensures
            copy@ == self@,
    {
        let images = self.images.clone();
        proof {
            assert(images.deep_view() =~= self.images.deep_view());
        }
        Product {
            id: clone_text(&self.id),
            name: self.name.clone(),
            brand: self.brand.clone(),
            category: self.category.clone(),
            price: self.price,
            description: self.description.clone(),
            images,
            image_url: clone_text(&self.image_url),
            specs: match &self.specs {
                Some(specs) => Some(specs.clone()),
                None => None,
            },
            in_stock: self.in_stock,
            created_at: self.created_at.clone(),
        }
    }
}

/// Stock status of a product whose stored document does not say: in stock.
pub fn default_stock_status() -> (in_stock: bool)
    ensures
        in_stock,
{
    true
}

impl Product {
    /// Brings a product stored under the single-image field to the current
    /// form. Only `images` can change.
    pub fn migrate_images(&mut self)
        ensures
            final(self)@ == old(self)@.migrated(),
    {
        if self.images.len() == 0 {
            if let Some(url) = &self.image_url {
                let mut images: Vec<String> = Vec::new();
                images.push(url.clone());
                proof {
                    assert(images.deep_view() =~= seq![url@]);
                }
                self.images = images;
            }
        }
    }

    /// The image to display: the first of `images`, else `image_url`, else
    /// none.
    pub fn get_primary_image(&self) -> (image: Option<&String>)
        ensures
            image.deep_view() == self@.primary_image(),
    {
        if self.images.len() > 0 {
            Some(&self.images[0])
        } else {
            self.image_url.as_ref()
        }
    }

    /// The product that `request` describes, under identifier `id` and
    /// created at `created_at`. Field values are taken as they are.
    pub fn from_request(
        request: CreateProductRequest,
        id: String,
        created_at: chrono::NaiveDateTime,
    ) -> (product: Product)
        ensures
            product@ == ProductView::created(request@, id@, created_at),
    {
        let in_stock = match request.in_stock {
            Some(in_stock) => in_stock,
            None => default_stock_status(),
        };
        Product {
            id: Some(id),
            name: request.name,
            brand: request.brand,
            category: request.category,
            price: request.price,
            description: request.description,
            images: request.images,
            image_url: None,
            specs: request.specs,
            in_stock,
            created_at,
        }
    }
}

impl From<CreateProductRequest> for Product {
    /// A new product for `request`, under a fresh random identifier and
    /// stamped with the current time.
    fn from(request: CreateProductRequest) -> (product: Product)
        ensures
            product@.id matches Some(id) && is_random_uuid(id) && product@ == ProductView::created(
                request@,
                id,
                product@.created_at,
            ),
    {
        Product::from_request(request, random_identifier(), current_time())
    }
}

impl FromSpecImpl<CreateProductRequest> for Product {
    /// The identifier and the creation time differ from call to call, so the
    /// conversion is no function of the request.
    open spec fn obeys_from_spec() -> bool {
        false
    }

    open spec fn from_spec(request: CreateProductRequest) -> Product {
        arbitrary()
    }
}

/// Migration is idempotent: a second application changes nothing.
pub proof fn lemma_migration_idempotent(product: ProductView)
    ensures
        product.migrated().migrated() == product.migrated(),
{
}

/// Migration keeps every field but `images`, and keeps the image that is
/// displayed.
pub proof fn lemma_migration_keeps_primary_image(product: ProductView)
    ensures
        product.migrated().primary_image() == product.primary_image(),
        product.migrated() == (ProductView { images: product.migrated().images, ..product }),
{
}

/// A migrated product is in the current form, and a product in the current
/// form is left as it is.
pub proof fn lemma_migrated_is_current(product: ProductView)
    ensures
        product.migrated().is_current(),
        product.is_current() ==> product.migrated() == product,
{
}

} // verus!
