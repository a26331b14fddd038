//! What counts as a healthy service.

use vstd::prelude::*;
use crate::download::is_redirection_code;

verus! {

/// Whether the answer of `GET /` shows a live service: 200 or a
/// redirection (3xx).
pub fn is_alive_status(code: u16) -> (alive: bool)
    ensures
        alive == (code == 200 || is_redirection_code(code)),
{
    code == 200 || (300 <= code && code <= 399)
}

} // verus!
