//! Shared plain types.

use vstd::prelude::*;

verus! {

/// A 48-bit Ethernet MAC address.
pub type MacAddress = [u8; 6];

/// HTTP request method.
#[derive(Debug, Clone, Copy, PartialEq, Eq, Structural)]
pub enum HttpMethod {
    Get,
    Head,
    Post,
    Put,
    Delete,
}

} // verus!
