//! Bare-metal HTTP download client: HTTP/1.1 request building and response
//! parsing, URL handling, network and block driver bookkeeping, PCI
//! capability parsing and the download state machine's decisions.

pub mod error;
pub mod http;
pub mod text;
pub mod types;
pub mod url;
pub mod driver;
pub mod pci;
pub mod mainloop;
pub mod entry;

use mainloop::serial::{decimal_bytes, print, print_u32};
use vstd::prelude::*;
use vstd::string::StringSliceAdditionalSpecFns;

verus! {

/// Write a string to the COM1 output.
pub fn serial_str(out: &mut Vec<u8>, s: &str)
    ensures
        final(out)@ == old(out)@ + s.spec_bytes(),
{
    print(out, s);
}

/// Write `n` in decimal to the COM1 output.
pub fn serial_u32(out: &mut Vec<u8>, n: u32)
    ensures
        final(out)@ == old(out)@ + decimal_bytes(n as nat),
{
    print_u32(out, n);
}

/// Emit `[NET:<stage>] <msg>` and a line feed.
pub fn serial_stage(out: &mut Vec<u8>, stage: u32, msg: &str)
    ensures
        final(out)@ == old(out)@ + "[NET:".spec_bytes() + decimal_bytes(stage as nat) + "] ".spec_bytes()
            + msg.spec_bytes() + seq![10u8],
{
    serial_str(out, "[NET:");
    serial_u32(out, stage);
    serial_str(out, "] ");
    serial_str(out, msg);
    out.push(10u8);
    assert(out@ =~= old(out)@ + "[NET:".spec_bytes() + decimal_bytes(stage as nat) + "] ".spec_bytes()
        + msg.spec_bytes() + seq![10u8]);
}

} // verus!
