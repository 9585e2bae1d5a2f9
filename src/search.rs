//! Where the search box sends the user.

use crate::codec::{decimal_value, parse_i32};
use vstd::prelude::*;
use vstd::string::StringExecFns;

verus! {

/// The layer number that a search text names, if it is a decimal `i32`.
pub fn search_layer_id(input: &str) -> (r: Option<i32>)
    ensures
        match decimal_value(input@) {
            Some(v) => if i32::MIN <= v <= i32::MAX { r == Some(v as i32) } else { r is None },
            None => r is None,
        },
{
    parse_i32(input)
}

/// The page a search for `input` leads to: the layer page when `input` names
/// a stored layer, else the account page when it is the hex address of a
/// stored account, else the home page.
pub fn search_redirect(input: &str, layer_found: bool, account_found: bool) -> (r: String)
    ensures
        layer_found ==> r@ == "/layer/"@ + input@,
        !layer_found && account_found ==> r@ == "/account/"@ + input@,
        !layer_found && !account_found ==> r@ == "/"@,
{
    if layer_found {
        let mut s = String::from_str("/layer/");
        s.append(input);
        s
    } else if account_found {
        let mut s = String::from_str("/account/");
        s.append(input);
        s
    } else {
        String::from_str("/")
    }
}

} // verus!
