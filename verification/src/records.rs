//! The data model: the ledger record kept per payment hash, the listing
//! row shown for an invoice, node status, application state, and the
//! connection and channel descriptions filled from node CLI output.

use vstd::prelude::*;

verus! {

/// One ledger entry per payment hash known to this node instance.
///
/// `preimage_h` and `r_hash` both carry the hex-encoded payment hash (the
/// record's key); `preimage_x` is the hex-encoded secret, empty when the
/// secret lives only inside the external daemon; `payment_address` is the
/// opaque address returned at creation time; `is_own_invoice` says whether
/// the invoice's destination key equals this node's identity key.
pub struct InvoiceData {
    pub preimage_x: String,
    pub preimage_h: String,
    pub payment_address: String,
    pub r_hash: String,
    pub is_own_invoice: bool,
}

/// The mathematical value of an [`InvoiceData`] record: its fields as
/// character sequences.
pub ghost struct InvoiceDataView {
    pub preimage_x: Seq<char>,
    pub preimage_h: Seq<char>,
    pub payment_address: Seq<char>,
    pub r_hash: Seq<char>,
    pub is_own_invoice: bool,
}

impl View for InvoiceData {
    type V = InvoiceDataView;

    open spec fn view(&self) -> InvoiceDataView {
        InvoiceDataView {
            preimage_x: self.preimage_x@,
            preimage_h: self.preimage_h@,
            payment_address: self.payment_address@,
            r_hash: self.r_hash@,
            is_own_invoice: self.is_own_invoice,
        }
    }
}

impl Clone for InvoiceData {
    fn clone(&self) -> (r: Self)
        ensures
            r@ == self@,
    {
        InvoiceData {
            preimage_x: self.preimage_x.clone(),
            preimage_h: self.preimage_h.clone(),
            payment_address: self.payment_address.clone(),
            r_hash: self.r_hash.clone(),
            is_own_invoice: self.is_own_invoice,
        }
    }
}

impl PartialEq for InvoiceData {
    fn eq(&self, other: &Self) -> (r: bool) {
        self.preimage_x.eq(&other.preimage_x) && self.preimage_h.eq(&other.preimage_h)
            && self.payment_address.eq(&other.payment_address) && self.r_hash.eq(&other.r_hash)
            && self.is_own_invoice == other.is_own_invoice
    }
}

impl vstd::std_specs::cmp::PartialEqSpecImpl for InvoiceData {
    open spec fn obeys_eq_spec() -> bool {
        true
    }

    open spec fn eq_spec(&self, other: &Self) -> bool {
        self@ == other@
    }
}

/// One row of the invoice listing shown to the user: the daemon's fields
/// plus the locally decided ownership flag.
pub struct InvoiceListing {
    pub memo: String,
    pub r_hash: String,
    pub value: String,
    pub state: String,
    pub creation_date: String,
    pub is_own_invoice: bool,
    pub payment_request: String,
}

/// The node's status as read from a `getinfo` query.
pub struct NodeInfo {
    pub running: bool,
    pub version: String,
    pub synced: bool,
    pub block_height: u64,
    pub network: String,
    pub identity_pubkey: String,
}

impl Clone for NodeInfo {
    fn clone(&self) -> (r: Self)
        ensures
            r.running == self.running,
            r.version@ == self.version@,
            r.synced == self.synced,
            r.block_height == self.block_height,
            r.network@ == self.network@,
            r.identity_pubkey@ == self.identity_pubkey@,
    {
        NodeInfo {
            running: self.running,
            version: self.version.clone(),
            synced: self.synced,
            block_height: self.block_height,
            network: self.network.clone(),
            identity_pubkey: self.identity_pubkey.clone(),
        }
    }
}

/// The mutable state behind the user interface.
pub struct AppState {
    pub status_message: String,
    pub node_is_running: bool,
    pub node_sync_status: String,
    pub wallet_needs_unlock: bool,
    pub litd_pid: Option<u32>,
}

impl Default for AppState {
    fn default() -> (r: Self)
        ensures
            r.status_message@ == Seq::<char>::empty(),
            r.node_is_running == false,
            r.node_sync_status@ == "Unknown"@,
            r.wallet_needs_unlock == false,
            r.litd_pid is None,
    {
        AppState {
            status_message: String::new(),
            node_is_running: false,
            node_sync_status: "Unknown".to_owned(),
            wallet_needs_unlock: false,
            litd_pid: None,
        }
    }
}

/// How to reach the node's RPC endpoint. The default names the local
/// endpoint; certificate and macaroon paths are found by the caller,
/// which knows the platform's data directory.
pub struct LndConnection {
    pub host: String,
    pub port: u16,
    pub cert_path: String,
    pub macaroon_path: String,
}

impl Default for LndConnection {
    fn default() -> (r: Self)
        ensures
            r.host@ == "127.0.0.1"@,
            r.port == 10009,
            r.cert_path@ == Seq::<char>::empty(),
            r.macaroon_path@ == Seq::<char>::empty(),
    {
        LndConnection {
            host: "127.0.0.1".to_owned(),
            port: 10009,
            cert_path: String::new(),
            macaroon_path: String::new(),
        }
    }
}

/// One open channel as listed by the daemon.
pub struct ActiveChannelInfo {
    pub channel_id: String,
    pub remote_pubkey: String,
    pub capacity: String,
    pub local_balance: String,
    pub remote_balance: String,
    pub active: bool,
}

/// The nested channel object of one pending entry.
pub struct PendingChannelData {
    pub remote_node_pub: String,
    pub channel_point: String,
    pub capacity: String,
    pub local_balance: String,
    pub remote_balance: String,
}

/// One pending channel, with the category it was listed under.
pub struct PendingChannelInfo {
    pub remote_node_pub: String,
    pub channel_point: String,
    pub capacity: String,
    pub local_balance: String,
    pub remote_balance: String,
    pub status: String,
}

} // verus!
