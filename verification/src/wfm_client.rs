//! Reading the marketplace's item catalogue: where to ask and what to make
//! of the answer.

use vstd::prelude::*;
use vstd::string::StringExecFns;
use crate::error::{api_error_kind, ApiResult, AppError, ErrorApiResponse};

verus! {

/// The marketplace connection, as far as the catalogue calls read it.
#[derive(Clone, Debug, PartialEq, Eq)]
pub struct WFMClient {
    /// Base address every path is appended to.
    pub endpoint: String,
}

/// One entry of the item catalogue.
#[derive(Clone, Debug, PartialEq, Eq)]
pub struct Item {
    pub id: String,
    pub url_name: String,
    pub item_name: String,
    pub thumb: String,
}

/// An item together with the set it belongs to.
#[derive(Clone, Debug, PartialEq, Eq)]
pub struct ItemDetails {
    pub id: String,
    pub items_in_set: Vec<Item>,
}

/// The catalogue calls of a marketplace connection.
pub struct ItemModule<'a> {
    pub client: &'a WFMClient,
}

impl WFMClient {
    /// Turns the marketplace's structured error into a failure raised by
    /// `component`. The failure carries the structured error along and is
    /// classified by its status code.
    pub fn create_api_error(&self, component: &str, error: ErrorApiResponse, cause: &str) -> (r:
        AppError)
        ensures
            r.component@ == component@,
            r.cause@ == cause@,
            r.kind == api_error_kind(error.status_code),
            r.extra == Some(error),
    {
        let kind = error.kind();
        AppError::new_api(component, error, cause, kind)
    }

    /// The catalogue calls of this connection.
    pub fn items(&self) -> (r: ItemModule<'_>)
        ensures
            *r.client == *self,
    {
        ItemModule { client: self }
    }
}

/// What reading an answer yields: the payload of a success as it came, the
/// failure of the transport as it came, and for a structured marketplace
/// error a failure raised by `component` for the reason `cause` that
/// carries the error along.
pub open spec fn answer_read<T>(
    response: Result<ApiResult<T>, AppError>,
    component: Seq<char>,
    cause: Seq<char>,
    r: Result<T, AppError>,
) -> bool {
    match response {
        Ok(ApiResult::Success(payload)) => r == Ok::<T, AppError>(payload),
        Ok(ApiResult::Error(error)) => {
            &&& r matches Err(failure)
            &&& failure.component@ == component
            &&& failure.cause@ == cause
            &&& failure.kind == api_error_kind(error.status_code)
            &&& failure.extra == Some(error)
        },
        Err(failure) => r == Err::<T, AppError>(failure),
    }
}

impl<'a> ItemModule<'a> {
    /// Path of the call that lists the whole catalogue.
    pub fn all_items_path(&self) -> (r: &'static str)
        ensures
            r@ == "items"@,
    {
        "items"
    }

    /// Reads the answer to the call that lists the whole catalogue.
    pub fn get_all_items(&self, response: Result<ApiResult<Vec<Item>>, AppError>) -> (r: Result<
        Vec<Item>,
        AppError,
    >)
        ensures
            answer_read(
                response,
                "Item:GetAllItems"@,
                "There was an error fetching items"@,
                r,
            ),
    {
        match response {
            Ok(ApiResult::Success(payload)) => Ok(payload),
            Ok(ApiResult::Error(error)) => Err(
                self.client.create_api_error(
                    "Item:GetAllItems",
                    error,
                    "There was an error fetching items",
                ),
            ),
            Err(failure) => Err(failure),
        }
    }

    /// Path of the call that describes the item `item`.
    pub fn item_path(&self, item: &str) -> (r: String)
        ensures
            r@ == "items/"@ + item@,
    {
        let mut path = String::from_str("items/");
        path.append(item);
        path
    }

    /// Reads the answer to the call that describes the item `item`.
    pub fn get_item(&self, item: String, response: Result<ApiResult<ItemDetails>, AppError>) -> (r:
        Result<ItemDetails, AppError>)
        ensures
            answer_read(
                response,
                "Item:GetItem"@,
                "There was an error fetching item "@ + item@,
                r,
            ),
    {
        match response {
            Ok(ApiResult::Success(payload)) => Ok(payload),
            Ok(ApiResult::Error(error)) => {
                let mut cause = String::from_str("There was an error fetching item ");
                cause.append(item.as_str());
                Err(self.client.create_api_error("Item:GetItem", error, cause.as_str()))
            },
            Err(failure) => Err(failure),
        }
    }
}

} // verus!
