use chrono::{NaiveDate, NaiveDateTime};
use product_catalog::models::Product;
use product_catalog::response::{
    ApiResponse, ResponseBody, STATUS_BAD_REQUEST, STATUS_CREATED, STATUS_INTERNAL_SERVER_ERROR,
    STATUS_NOT_FOUND, STATUS_OK, STATUS_SERVICE_UNAVAILABLE,
};

fn moment() -> NaiveDateTime {
    NaiveDate::from_ymd_opt(2024, 3, 9).unwrap().and_hms_opt(10, 30, 0).unwrap()
}

fn product(id: &str) -> Product {
    Product {
        id: Some(id.to_string()),
        name: "Item".to_string(),
        brand: "Acme".to_string(),
        category: "Phone".to_string(),
        price: 100,
        description: String::new(),
        images: vec!["https://img/1.jpg".to_string()],
        image_url: None,
        specs: None,
        in_stock: true,
        created_at: moment(),
    }
}

fn failure(status: u16, error: &str, message: &str) -> ApiResponse {
    ApiResponse {
        status,
        body: ResponseBody::Failure { error: error.to_string(), message: message.to_string() },
    }
}

#[test]
fn status_codes_have_their_http_values() {
    assert_eq!(STATUS_OK, 200);
    assert_eq!(STATUS_CREATED, 201);
    assert_eq!(STATUS_BAD_REQUEST, 400);
    assert_eq!(STATUS_NOT_FOUND, 404);
    assert_eq!(STATUS_INTERNAL_SERVER_ERROR, 500);
    assert_eq!(STATUS_SERVICE_UNAVAILABLE, 503);
}

#[test]
fn failure_keeps_status_title_and_message() {
    assert_eq!(
        ApiResponse::failure(418, "Teapot", "short and stout".to_string()),
        failure(418, "Teapot", "short and stout")
    );
}

#[test]
fn inaccessible_image_is_a_bad_request() {
    assert_eq!(
        ApiResponse::image_inaccessible(3, "http://x/c.jpg"),
        failure(400, "Invalid image URL", "Image URL 3 is not accessible: http://x/c.jpg")
    );
}

#[test]
fn failed_image_check_is_a_bad_request() {
    assert_eq!(
        ApiResponse::image_check_failed(11, "dns error"),
        failure(400, "Image URL validation error", "Failed to validate image URL 11: dns error")
    );
}

#[test]
fn created_carries_both_identifiers() {
    assert_eq!(
        ApiResponse::created(Some("abc".to_string()), "abc".to_string()),
        ApiResponse {
            status: 201,
            body: ResponseBody::Created {
                message: "Product created successfully".to_string(),
                id: Some("abc".to_string()),
                inserted_id: "abc".to_string(),
            },
        }
    );
}

#[test]
fn store_failure_is_a_server_error_with_generic_title() {
    assert_eq!(
        ApiResponse::store_failure("Failed to create product"),
        failure(500, "Database error", "Failed to create product")
    );
}

#[test]
fn listing_carries_the_products() {
    assert_eq!(
        ApiResponse::listing(vec![product("1"), product("2")]),
        ApiResponse { status: 200, body: ResponseBody::Products(vec![product("1"), product("2")]) }
    );
    assert_eq!(
        ApiResponse::listing(vec![]),
        ApiResponse { status: 200, body: ResponseBody::Products(vec![]) }
    );
}

#[test]
fn product_answer_carries_the_product() {
    assert_eq!(
        ApiResponse::product(product("1")),
        ApiResponse { status: 200, body: ResponseBody::Product(product("1")) }
    );
}

#[test]
fn not_found_names_the_identifier() {
    assert_eq!(
        ApiResponse::not_found("abc-123"),
        failure(404, "Product not found", "No product found with ID: abc-123")
    );
}

#[test]
fn healthy_report() {
    assert_eq!(
        ApiResponse::healthy(moment()),
        ApiResponse {
            status: 200,
            body: ResponseBody::Health {
                status: "healthy".to_string(),
                database: "connected".to_string(),
                error: None,
                timestamp: moment(),
            },
        }
    );
}

#[test]
fn unhealthy_report_carries_the_reason() {
    assert_eq!(
        ApiResponse::unhealthy("no route to host".to_string(), moment()),
        ApiResponse {
            status: 503,
            body: ResponseBody::Health {
                status: "unhealthy".to_string(),
                database: "disconnected".to_string(),
                error: Some("no route to host".to_string()),
                timestamp: moment(),
            },
        }
    );
}
