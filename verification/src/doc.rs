//! The service's own description of its endpoints, and its health answer.

use vstd::prelude::*;
use crate::response::{is_text, text_response, Body, Response, STATUS_OK};

verus! {

/// The endpoint list that `GET /api/v1/api-doc` gives back.
pub open spec fn api_doc() -> Seq<char> {
    "POST   /api/v1/:table/order/add         : Place an order for a table\nGET    /api/v1/:table/order/view        : Fetch the order details of that table\nGET    /api/v1/:table/order/bill              : Get the final bill of that table\nPOST   /api/v1/:table/order/settle      : Settle the order change the status to done\nDELETE /api/v1/:table/order/delete      : Remove an order for the table\nGET    /api/v1/:table/order/item/get    : Get the details of an item for an order of a table\nPOST    /api/v1/:table/order/item/add    : Add an item to the order of a table\nDELETE /api/v1/:table/order/item/delete : Remove an item from the order of a table\nGET    /api/v1/menu/view                : Get the Menu\nPOST   /api/v1/menu/add                 : Add new items to menu\nPUT    /api/v1/menu/update              : Update the existing item details of the menu\nDELETE /api/v1/menu/delete              : Delete items from the Menu\nGET    /health                          : Get server health\nGET    /api/v1/api-doc                  : Get this page\n"@
}

pub fn api_doc_response() -> (r: Response)
    ensures
        is_text(r, STATUS_OK, api_doc()),
{
    text_response(STATUS_OK, String::from_str("POST   /api/v1/:table/order/add         : Place an order for a table\nGET    /api/v1/:table/order/view        : Fetch the order details of that table\nGET    /api/v1/:table/order/bill              : Get the final bill of that table\nPOST   /api/v1/:table/order/settle      : Settle the order change the status to done\nDELETE /api/v1/:table/order/delete      : Remove an order for the table\nGET    /api/v1/:table/order/item/get    : Get the details of an item for an order of a table\nPOST    /api/v1/:table/order/item/add    : Add an item to the order of a table\nDELETE /api/v1/:table/order/item/delete : Remove an item from the order of a table\nGET    /api/v1/menu/view                : Get the Menu\nPOST   /api/v1/menu/add                 : Add new items to menu\nPUT    /api/v1/menu/update              : Update the existing item details of the menu\nDELETE /api/v1/menu/delete              : Delete items from the Menu\nGET    /health                          : Get server health\nGET    /api/v1/api-doc                  : Get this page\n"))
}

/// The answer of `GET /health`: success, with an empty body.
pub fn health_check_response() -> (r: Response)
    ensures
        r.status == STATUS_OK,
        r.body is Empty,
{
    Response { status: STATUS_OK, body: Body::Empty }
}

} // verus!
