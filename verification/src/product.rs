//! The product catalog: the rows the routes serve, the pagination window,
//! and the decision each route makes once its database call has answered.
//!
//! The database calls themselves are plain SQL reads performed by the
//! surrounding binary; the functions here take their outcome and say,
//! exactly, which body the route answers with.

use vstd::prelude::*;

use crate::declaration::{ApiError, DbOutcome};
use crate::ids::fresh_uuid;

verus! {

pub type ProductId = String;

/// How many products one catalog page holds.
pub const PRODUCTS_PER_PAGE: u64 = 20;

/// A catalog row: descriptive fields, up to four images, and a price.
#[derive(Debug)]
pub struct Product {
    pub id: ProductId,
    pub name: String,
    pub description: Option<String>,
    pub price: u64,
    pub main_image: Option<String>,
    pub second_image: Option<String>,
    pub third_image: Option<String>,
    pub fourth_image: Option<String>,
    pub size: bool,
    pub wheel_size: bool,
}

/// One named characteristic of a product.
#[derive(Debug)]
pub struct ProductCharacteristic {
    pub product: String,
    pub name: String,
    pub detail: String,
}

/// A review of a product: a star rating, a comment, and the username of the
/// user who wrote it, present once the listing has looked it up.
#[derive(Debug)]
pub struct Review {
    pub id: String,
    pub product: ProductId,
    pub user: String,
    pub review: String,
    pub stars: u8,
    pub username: Option<String>,
}

/// The body answered when a review was stored: the fresh review id together
/// with a confirmation code and message.
#[derive(Debug)]
pub struct ReviewReceipt {
    pub id: String,
    pub code: u16,
    pub message: String,
}

/// The half-open row window `[start, end)` of a catalog page: page `0` (and
/// only it) starts at row `0`, page `p > 0` starts at row
/// `p * PRODUCTS_PER_PAGE`, and every page spans `PRODUCTS_PER_PAGE` rows.
pub fn page_window(page: u64) -> (r: (u64, u64))
    requires
        page * PRODUCTS_PER_PAGE + PRODUCTS_PER_PAGE <= u64::MAX,
    ensures
        r.0 == if page > 0 { (page * PRODUCTS_PER_PAGE) as int } else { 0 },
        r.1 == r.0 + PRODUCTS_PER_PAGE,
{
    let start: u64 = if page > 0 {
        page * PRODUCTS_PER_PAGE
    } else {
        0
    };
    (start, start + PRODUCTS_PER_PAGE)
}

/// The answer of the whole-catalog route: the fetched rows unchanged, or
/// error `4001` when the read failed.
pub fn get_all_products(fetched: DbOutcome<Vec<Product>>) -> (r: Result<Vec<Product>, ApiError>)
    ensures
        fetched matches DbOutcome::Succeeded(p) ==> r == Result::<Vec<Product>, ApiError>::Ok(p),
        fetched is Failed ==> (r matches Result::Err(e)
            && e.code == 4001 && e.message@ == "Cannot get products"@),
{
    match fetched {
        DbOutcome::Succeeded(p) => Ok(p),
        DbOutcome::Failed => Err(ApiError::new(4001, "Cannot get products".to_owned())),
    }
}

/// The answer of the single-product route: the fetched row unchanged, or
/// error `4002` when the read failed or found no such product.
pub fn get_product_detail(fetched: DbOutcome<Product>) -> (r: Result<Product, ApiError>)
    ensures
        fetched matches DbOutcome::Succeeded(p) ==> r == Result::<Product, ApiError>::Ok(p),
        fetched is Failed ==> (r matches Result::Err(e)
            && e.code == 4002 && e.message@ == "Cannot get the product"@),
{
    match fetched {
        DbOutcome::Succeeded(p) => Ok(p),
        DbOutcome::Failed => Err(ApiError::new(4002, "Cannot get the product".to_owned())),
    }
}

/// The answer of the catalog-page route: the fetched rows unchanged, or
/// error `4003` when the read failed.
pub fn get_product_page(fetched: DbOutcome<Vec<Product>>) -> (r: Result<Vec<Product>, ApiError>)
    ensures
        fetched matches DbOutcome::Succeeded(p) ==> r == Result::<Vec<Product>, ApiError>::Ok(p),
        fetched is Failed ==> (r matches Result::Err(e)
            && e.code == 4003 && e.message@ == "Cannot get the product page"@),
{
    match fetched {
        DbOutcome::Succeeded(p) => Ok(p),
        DbOutcome::Failed => Err(ApiError::new(4003, "Cannot get the product page".to_owned())),
    }
}

/// The answer of the characteristics route: the fetched rows unchanged, or
/// error `4004` when the read failed.
pub fn get_product_characteristics(
    fetched: DbOutcome<Vec<ProductCharacteristic>>,
) -> (r: Result<Vec<ProductCharacteristic>, ApiError>)
    ensures
        fetched matches DbOutcome::Succeeded(c) ==> r == Result::<
            Vec<ProductCharacteristic>,
            ApiError,
        >::Ok(c),
        fetched is Failed ==> (r matches Result::Err(e)
            && e.code == 4004 && e.message@ == "Cannot get the product characteristics"@),
{
    match fetched {
        DbOutcome::Succeeded(c) => Ok(c),
        DbOutcome::Failed => Err(
            ApiError::new(4004, "Cannot get the product characteristics".to_owned()),
        ),
    }
}

/// The answer of the review-listing route: the fetched rows unchanged, or
/// error `4005` when the read failed.
pub fn get_product_reviews(fetched: DbOutcome<Vec<Review>>) -> (r: Result<Vec<Review>, ApiError>)
    ensures
        fetched matches DbOutcome::Succeeded(v) ==> r == Result::<Vec<Review>, ApiError>::Ok(v),
        fetched is Failed ==> (r matches Result::Err(e)
            && e.code == 4005 && e.message@ == "Cannot get the product reviews"@),
{
    match fetched {
        DbOutcome::Succeeded(v) => Ok(v),
        DbOutcome::Failed => Err(ApiError::new(4005, "Cannot get the product reviews".to_owned())),
    }
}

/// The row a posted review inserts: the submitted fields unchanged under a
/// fresh 36-character identifier, with no username (the listing join fills
/// that in later).
pub fn prepare_review(product: ProductId, user: String, review: String, stars: u8) -> (r: Review)
    ensures
        r.product == product,
        r.user == user,
        r.review == review,
        r.stars == stars,
        r.username is None,
        r.id@.len() == 36,
{
    Review { id: fresh_uuid(), product, user, review, stars, username: None }
}

/// The answer of the review-posting route: receipt `4100` carrying the id of
/// the stored review, or error `4006` when the insert failed.
pub fn new_review(posted: DbOutcome<String>) -> (r: Result<ReviewReceipt, ApiError>)
    ensures
        posted matches DbOutcome::Succeeded(id) ==> (r matches Result::Ok(receipt)
            && receipt.id == id && receipt.code == 4100 && receipt.message@ == "Review posted"@),
        posted is Failed ==> (r matches Result::Err(e)
            && e.code == 4006 && e.message@ == "Cannot post the review"@),
{
    match posted {
        DbOutcome::Succeeded(id) => Ok(
            ReviewReceipt { id, code: 4100, message: "Review posted".to_owned() },
        ),
        DbOutcome::Failed => Err(ApiError::new(4006, "Cannot post the review".to_owned())),
    }
}

} // verus!
