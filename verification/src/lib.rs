//! Local ledger and supporting logic for a Lightning node front end.
//!
//! The heart of the crate is the invoice ledger: a persistent map from a
//! payment hash to the locally known preimage, payment address and an
//! ownership flag. Around it stand the pieces the front end needs: preimage
//! generation and reconciliation against SHA-256, a record codec with a
//! proven round trip, response-field extraction from node CLI output, and
//! the pure decision logic of the CLI gateway and the status poller.

use vstd::prelude::*;

pub mod b64;
pub mod codec;
pub mod config;
pub mod errors;
pub mod flows;
pub mod gateway;
pub mod hexstr;
pub mod jsonio;
pub mod numtext;
pub mod parser;
pub mod preimage;
pub mod records;
pub mod status;
pub mod store;
pub mod strutil;
pub mod timefmt;

verus! {

/// Decides whether an invoice belongs to this node: the destination public
/// key of the decoded payment request must equal the node's own identity
/// public key.
pub fn annotate_ownership(destination_pubkey: &String, local_identity_pubkey: &String) -> (r: bool)
    ensures
        r == (destination_pubkey@ == local_identity_pubkey@),
{
    destination_pubkey.eq(local_identity_pubkey)
}

} // verus!
