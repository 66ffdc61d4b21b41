//! Values the application shares with its request handlers.

use vstd::prelude::*;

verus! {

/// The public base URL of the application, under which confirmation links point.
pub struct ApplicationBaseUrl(pub String);

} // verus!
