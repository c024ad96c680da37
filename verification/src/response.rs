//! The answers of the service: a status code and a body, and the one
//! answer that belongs to each outcome.

use crate::models::{Product, ProductView};
use crate::text::{joined, numbered, numbered_message};
use vstd::prelude::*;
use vstd::string::StringExecFns;

verus! {

/// Status of an answer that carries what was asked for.
pub const STATUS_OK: u16 = 200;

/// Status of the answer to a creation that took place.
pub const STATUS_CREATED: u16 = 201;

/// Status of the answer to a request that cannot be accepted as it is.
pub const STATUS_BAD_REQUEST: u16 = 400;

/// Status of the answer to a lookup that found nothing.
pub const STATUS_NOT_FOUND: u16 = 404;

/// Status of the answer when the store failed.
pub const STATUS_INTERNAL_SERVER_ERROR: u16 = 500;

/// Status of the health report when the store cannot be reached.
pub const STATUS_SERVICE_UNAVAILABLE: u16 = 503;

/// Body of an answer.
#[derive(Debug, Clone, PartialEq)]
#[allow(inconsistent_fields)]
pub enum ResponseBody {
    /// What went wrong: a short title and a sentence.
    Failure { error: String, message: String },
    /// A product was created: its identifier, and the one under which the
    /// store holds it.
    Created { message: String, id: Option<String>, inserted_id: String },
    /// State of the service and of its store, with the time of the report
    /// and, when the store is unreachable, the reason.
    Health { status: String, database: String, error: Option<String>, timestamp: chrono::NaiveDateTime },
    /// One product.
    Product(Product),
    /// A listing of products.
    Products(Vec<Product>),
}

/// Mathematical view of [`ResponseBody`].
#[allow(inconsistent_fields)]
pub enum ResponseBodyView {
    Failure { error: Seq<char>, message: Seq<char> },
    Created { message: Seq<char>, id: Option<Seq<char>>, inserted_id: Seq<char> },
    Health {
        status: Seq<char>,
        database: Seq<char>,
        error: Option<Seq<char>>,
        timestamp: chrono::NaiveDateTime,
    },
    Product(ProductView),
    Products(Seq<ProductView>),
}

impl View for ResponseBody {
    type V = ResponseBodyView;

    open spec fn view(&self) -> ResponseBodyView {
        match self {
            ResponseBody::Failure { error, message } => ResponseBodyView::Failure {
                error: error@,
                message: message@,
            },
            ResponseBody::Created { message, id, inserted_id } => ResponseBodyView::Created {
                message: message@,
                id: id.deep_view(),
                inserted_id: inserted_id@,
            },
            ResponseBody::Health { status, database, error, timestamp } => ResponseBodyView::Health {
                status: status@,
                database: database@,
                error: error.deep_view(),
                timestamp: *timestamp,
            },
            ResponseBody::Product(product) => ResponseBodyView::Product(product@),
            ResponseBody::Products(products) => ResponseBodyView::Products(products.deep_view()),
        }
    }
}

/// An answer: the HTTP status code and the body.
#[derive(Debug, Clone, PartialEq)]
pub struct ApiResponse {
    pub status: u16,
    pub body: ResponseBody,
}

/// Mathematical view of [`ApiResponse`].
pub struct ApiResponseView {
    pub status: u16,
    pub body: ResponseBodyView,
}

impl View for ApiResponse {
    type V = ApiResponseView;

    open spec fn view(&self) -> ApiResponseView {
        ApiResponseView { status: self.status, body: self.body@ }
    }
}

impl ApiResponseView {
    /// The request was at fault: a status from 400 to 499.
    pub open spec fn is_client_error(self) -> bool {
        400 <= self.status < 500
    }

    /// The service was at fault: a status from 500 to 599.
    pub open spec fn is_server_error(self) -> bool {
        500 <= self.status < 600
    }

    /// The request was served: a status from 200 to 299.
    pub open spec fn is_success(self) -> bool {
        200 <= self.status < 300
    }

    /// An answer that reports a failure.
    pub open spec fn failure(status: u16, error: Seq<char>, message: Seq<char>) -> ApiResponseView {
        ApiResponseView { status, body: ResponseBodyView::Failure { error, message } }
    }

    /// An image of a creation request answered its check without success.
    /// `position` counts the request's images from one.
    pub open spec fn image_inaccessible(position: nat, url: Seq<char>) -> ApiResponseView {
        Self::failure(
            STATUS_BAD_REQUEST,
            "Invalid image URL"@,
            numbered("Image URL "@, position, " is not accessible: "@, url),
        )
    }

    /// The check of an image of a creation request failed on the way, for
    /// `reason`. `position` counts the request's images from one.
    pub open spec fn image_check_failed(position: nat, reason: Seq<char>) -> ApiResponseView {
        Self::failure(
            STATUS_BAD_REQUEST,
            "Image URL validation error"@,
            numbered("Failed to validate image URL "@, position, ": "@, reason),
        )
    }

    /// The product was written.
    pub open spec fn created(id: Option<Seq<char>>, inserted_id: Seq<char>) -> ApiResponseView {
        ApiResponseView {
            status: STATUS_CREATED,
            body: ResponseBodyView::Created {
                message: "Product created successfully"@,
                id,
                inserted_id,
            },
        }
    }

    /// The store failed; `message` names the step, not the cause.
    pub open spec fn store_failure(message: Seq<char>) -> ApiResponseView {
        Self::failure(STATUS_INTERNAL_SERVER_ERROR, "Database error"@, message)
    }

    /// The listing asked for.
    pub open spec fn listing(products: Seq<ProductView>) -> ApiResponseView {
        ApiResponseView { status: STATUS_OK, body: ResponseBodyView::Products(products) }
    }

    /// The product asked for.
    pub open spec fn product(product: ProductView) -> ApiResponseView {
        ApiResponseView { status: STATUS_OK, body: ResponseBodyView::Product(product) }
    }

    /// There is no product with identifier `id`.
    pub open spec fn not_found(id: Seq<char>) -> ApiResponseView {
        Self::failure(STATUS_NOT_FOUND, "Product not found"@, "No product found with ID: "@ + id)
    }

    /// The store answers.
    pub open spec fn healthy(timestamp: chrono::NaiveDateTime) -> ApiResponseView {
        ApiResponseView {
            status: STATUS_OK,
            body: ResponseBodyView::Health {
                status: "healthy"@,
                database: "connected"@,
                error: None,
                timestamp,
            },
        }
    }

    /// The store does not answer, for `reason`.
    pub open spec fn unhealthy(reason: Seq<char>, timestamp: chrono::NaiveDateTime) -> ApiResponseView {
        ApiResponseView {
            status: STATUS_SERVICE_UNAVAILABLE,
            body: ResponseBodyView::Health {
                status: "unhealthy"@,
                database: "disconnected"@,
                error: Some(reason),
                timestamp,
            },
        }
    }
}

impl ApiResponse {
    /// An answer that reports a failure.
    pub fn failure(status: u16, error: &str, message: String) -> (response: ApiResponse)
        ensures
            response@ == ApiResponseView::failure(status, error@, message@),
    {
        ApiResponse {
            status,
            body: ResponseBody::Failure { error: String::from_str(error), message },
        }
    }

    /// The answer when an image answered its check without success.
    /// `position` counts the request's images from one.
    pub fn image_inaccessible(position: usize, url: &str) -> (response: ApiResponse)
        ensures
            response@ == ApiResponseView::image_inaccessible(position as nat, url@),
    {
        let message = numbered_message("Image URL ", position, " is not accessible: ", url);
        ApiResponse::failure(STATUS_BAD_REQUEST, "Invalid image URL", message)
    }

    /// The answer when the check of an image failed on the way. `position`
    /// counts the request's images from one.
    pub fn image_check_failed(position: usize, reason: &str) -> (response: ApiResponse)
        ensures
            response@ == ApiResponseView::image_check_failed(position as nat, reason@),
    {
        let message = numbered_message("Failed to validate image URL ", position, ": ", reason);
        ApiResponse::failure(STATUS_BAD_REQUEST, "Image URL validation error", message)
    }

    /// The answer to a creation that took place.
    pub fn created(id: Option<String>, inserted_id: String) -> (response: ApiResponse)
        ensures
            response@ == ApiResponseView::created(id.deep_view(), inserted_id@),
    {
        ApiResponse {
            status: STATUS_CREATED,
            body: ResponseBody::Created {
                message: String::from_str("Product created successfully"),
                id,
                inserted_id,
            },
        }
    }

    /// The answer when the store failed at the step that `message` names.
    pub fn store_failure(message: &str) -> (response: ApiResponse)
        ensures
            response@ == ApiResponseView::store_failure(message@),
    {
        ApiResponse::failure(
            STATUS_INTERNAL_SERVER_ERROR,
            "Database error",
            String::from_str(message),
        )
    }

    /// The answer that carries a listing.
    pub fn listing(products: Vec<Product>) -> (response: ApiResponse)
        ensures
            response@ == ApiResponseView::listing(products.deep_view()),
    {
        ApiResponse { status: STATUS_OK, body: ResponseBody::Products(products) }
    }

    /// The answer that carries one product.
    pub fn product(product: Product) -> (response: ApiResponse)
        ensures
            response@ == ApiResponseView::product(product@),
    {
        ApiResponse { status: STATUS_OK, body: ResponseBody::Product(product) }
    }

    /// The answer to a lookup that found nothing under `id`.
    pub fn not_found(id: &str) -> (response: ApiResponse)
        ensures
            response@ == ApiResponseView::not_found(id@),
    {
        let message = joined("No product found with ID: ", id);
        ApiResponse::failure(STATUS_NOT_FOUND, "Product not found", message)
    }

    /// The health report when the store answers.
    pub fn healthy(timestamp: chrono::NaiveDateTime) -> (response: ApiResponse)
        ensures
            response@ == ApiResponseView::healthy(timestamp),
    {
        ApiResponse {
            status: STATUS_OK,
            body: ResponseBody::Health {
                status: String::from_str("healthy"),
                database: String::from_str("connected"),
                error: None,
                timestamp,
            },
        }
    }

    /// The health report when the store does not answer.
    pub fn unhealthy(reason: String, timestamp: chrono::NaiveDateTime) -> (response: ApiResponse)
        ensures
            response@ == ApiResponseView::unhealthy(reason@, timestamp),
    {
        ApiResponse {
            status: STATUS_SERVICE_UNAVAILABLE,
            body: ResponseBody::Health {
                status: String::from_str("unhealthy"),
                database: String::from_str("disconnected"),
                error: Some(reason),
                timestamp,
            },
        }
    }
}

} // verus!
