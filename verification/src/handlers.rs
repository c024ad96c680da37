//! The decisions of each endpoint, apart from the work that only the
//! outside can do.
//!
//! A handler never checks an image or touches the store itself. It says what
//! to do next, and is resumed with what came of it: the caller checks the
//! image, or runs the store operation, and hands the outcome back.

pub mod create;
pub mod health;
pub mod listing;
pub mod lookup;

pub use self::create::{create_product, CreateStep, PendingCheck, PendingInsert};
pub use self::health::{health_check, health_report};
pub use self::listing::{get_products, migrate_all, PendingListing};
pub use self::lookup::{get_product_by_id, PendingLookup};
