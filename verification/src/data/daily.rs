//! Series with one row for each day.
//!
//! The data source gives such a series as a JSON array of objects, one for
//! each day; the members of the first object name the columns.

use vstd::prelude::*;
use vstd::string::*;
use crate::error::{error_view, ErrorKind, ErrorView, InvmstError, InvmstResult};
use crate::json::{json_array_len, json_data, json_element, json_is_object, JsonData};

verus! {

/// The error for a document of the wrong shape.
pub open spec fn invalid_daily(code: Seq<char>, message: Seq<char>) -> ErrorView {
    error_view(ErrorKind::Invalid, code, message)
}

/// The number of rows of a daily series: the document must be an array
/// that is not empty and whose first element is an object.
pub open spec fn daily_rows_of(doc: JsonData) -> Result<nat, ErrorView> {
    match doc.array_len() {
        None => Err(invalid_daily("JSON_IS_NOT_ARRAY"@, "Json is not a valid array"@)),
        Some(rows) => if rows == 0 {
            Err(invalid_daily("JSON_IS_EMPTY"@, "Json is empty"@))
        } else if !(doc.element(0) is Object) {
            Err(invalid_daily("JSON_ITEM_IS_NOT_OBJECT"@, "Json item is not a valid object"@))
        } else {
            Ok(rows)
        },
    }
}

/// The number of rows of the daily series that `json` is, or why it is
/// none.
pub fn daily_rows(json: &serde_json::Value) -> (r: InvmstResult<usize>)
    ensures
        match daily_rows_of(json_data(*json)) {
            Ok(rows) => r is Ok && r->Ok_0 == rows,
            Err(e) => r is Err && r->Err_0@ == e,
        },
{
    match json_array_len(json) {
        None => Err(
            InvmstError::Invalid("JSON_IS_NOT_ARRAY", String::from_str("Json is not a valid array")),
        ),
        Some(rows) => {
            if rows == 0 {
                Err(InvmstError::Invalid("JSON_IS_EMPTY", String::from_str("Json is empty")))
            } else if !json_is_object(json_element(json, 0)) {
                Err(
                    InvmstError::Invalid(
                        "JSON_ITEM_IS_NOT_OBJECT",
                        String::from_str("Json item is not a valid object"),
                    ),
                )
            } else {
                Ok(rows)
            }
        },
    }
}

} // verus!
