//! The answers of the menu endpoints, for each outcome of their database
//! statements. The menu rows themselves carry prices, which are kept out of
//! this library.

use vstd::prelude::*;
use crate::response::{
    is_text, text_response, DbError, Response, STATUS_INTERNAL_SERVER_ERROR, STATUS_OK,
};

verus! {

/// The change a menu endpoint makes.
#[derive(Clone, Copy, Debug, PartialEq, Eq, Structural)]
pub enum MenuChange {
    /// New items are inserted.
    Add,
    /// Items are deleted by name.
    Delete,
    /// Prices of items are updated by name.
    Update,
}

/// The answer when the menu could not be read.
pub fn fetch_menu_failure_response() -> (r: Response)
    ensures
        is_text(r, STATUS_INTERNAL_SERVER_ERROR, "Failed to fetch the menu content from DB"@),
{
    text_response(
        STATUS_INTERNAL_SERVER_ERROR,
        String::from_str("Failed to fetch the menu content from DB"),
    )
}

/// What the deletion of menu items does after deleting one of them: `None`
/// to go on with the next item, or the answer that ends the request when
/// the deletion failed.
pub fn menu_delete_step(outcome: Result<(), DbError>) -> (r: Option<Response>)
    ensures
        match outcome {
            Ok(()) => r is None,
            Err(_) => r matches Some(resp) && is_text(
                resp,
                STATUS_INTERNAL_SERVER_ERROR,
                "Failed to delete items from menu"@,
            ),
        },
{
    match outcome {
        Ok(()) => None,
        Err(_) => Some(
            text_response(
                STATUS_INTERNAL_SERVER_ERROR,
                String::from_str("Failed to delete items from menu"),
            ),
        ),
    }
}

/// The answer of a menu change, given the outcome of committing it.
pub fn menu_commit_response(change: MenuChange, outcome: Result<(), DbError>) -> (r: Response)
    ensures
        match outcome {
            Ok(()) => is_text(r, STATUS_OK, "Succefully update menu with the items"@),
            Err(_) => is_text(
                r,
                STATUS_INTERNAL_SERVER_ERROR,
                if change == MenuChange::Update {
                    "Failed to update items to Menu"@
                } else {
                    "Failed to add items to Menu"@
                },
            ),
        },
{
    match outcome {
        Ok(()) => text_response(STATUS_OK, String::from_str("Succefully update menu with the items")),
        Err(_) => match change {
            MenuChange::Update => text_response(
                STATUS_INTERNAL_SERVER_ERROR,
                String::from_str("Failed to update items to Menu"),
            ),
            _ => text_response(
                STATUS_INTERNAL_SERVER_ERROR,
                String::from_str("Failed to add items to Menu"),
            ),
        },
    }
}

} // verus!
