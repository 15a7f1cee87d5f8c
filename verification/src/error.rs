//! Errors that the message layer reports to its caller.

use crate::msgs::enums::ContentType;
use vstd::prelude::*;

verus! {

/// A failure that ends the connection.
#[derive(Clone, Copy, Debug, PartialEq, Eq, Structural)]
pub enum Error {
    /// A record was complete and well framed, but its payload is not what
    /// its content type calls for. The content type is the one that the
    /// record declared.
    CorruptMessagePayload(ContentType),
}

} // verus!
