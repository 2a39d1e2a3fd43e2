//! The invoice ledger: a persistent key-value store of text keys and text
//! values, keyed by payment hash, with a few process-wide settings keys
//! beside the records. The sled tree is hidden behind [`Ledger`];
//! [`ledger_map`] names what it holds, and every trusted method states
//! its effect on that map. Everything above the raw reads and writes —
//! record encoding, corruption detection, settlement resolution, the
//! settings defaults — is verified.

use vstd::prelude::*;
use crate::codec::{decode_record, decode_record_spec, encode_record, encode_record_spec};
use crate::errors::{SettlementError, StorageError};
use crate::records::{InvoiceData, InvoiceDataView};

verus! {

/// The persistent ledger. The embedded store lives in a hidden field;
/// all access goes through the trusted raw methods below. The model
/// treats each [`Ledger`] value as the sole handle on its store: open a
/// store once and share the handle, never the directory.
#[verifier::external_body]
pub struct Ledger {
    db: sled::Db,
}

/// What the ledger holds: the map from stored keys to stored text values.
pub uninterp spec fn ledger_map(l: Ledger) -> Map<Seq<char>, Seq<char>>;

impl Ledger {
    /// Relies on `sled::open`: opens (or creates) the store under the
    /// given directory path. What it holds depends on the disk, so
    /// nothing is stated of the contents.
    #[verifier::external_body]
    pub fn open(path: &str) -> (r: Result<Ledger, StorageError>) {
        match sled::open(path) {
            Ok(db) => Ok(Ledger { db }),
            Err(e) => Err(StorageError { message: e.to_string() }),
        }
    }

    /// Relies on `sled::Config` with `temporary`: a freshly created
    /// temporary store holds nothing.
    #[verifier::external_body]
    pub fn temporary() -> (r: Result<Ledger, StorageError>)
        ensures
            match r {
                Ok(l) => ledger_map(l) == Map::<Seq<char>, Seq<char>>::empty(),
                Err(e) => true,
            },
    {
        match sled::Config::new().temporary(true).open() {
            Ok(db) => Ok(Ledger { db }),
            Err(e) => Err(StorageError { message: e.to_string() }),
        }
    }

    /// Relies on `sled::Tree::insert`: sets the value stored under the
    /// key. On failure nothing is stated of the contents.
    #[verifier::external_body]
    fn raw_put(&mut self, key: &str, value: &str) -> (r: Result<(), StorageError>)
        ensures
            r matches Ok(u) ==> ledger_map(*final(self)) == ledger_map(*old(self)).insert(
                key@,
                value@,
            ),
    {
        match self.db.insert(key.as_bytes(), value.as_bytes()) {
            Ok(_) => Ok(()),
            Err(e) => Err(StorageError { message: e.to_string() }),
        }
    }

    /// Relies on `sled::Tree::get`: returns the value stored under the
    /// key, or nothing if the key is absent. A stored value that is not
    /// text surfaces as a storage error.
    #[verifier::external_body]
    fn raw_get(&self, key: &str) -> (r: Result<Option<String>, StorageError>)
        ensures
            r matches Ok(Some(v)) ==> ledger_map(*self).contains_key(key@) && ledger_map(
                *self,
            )[key@] == v@,
            r matches Ok(None) ==> !ledger_map(*self).contains_key(key@),
    {
        match self.db.get(key.as_bytes()) {
            Ok(Some(iv)) => match String::from_utf8(iv.to_vec()) {
                Ok(s) => Ok(Some(s)),
                Err(e) => Err(StorageError { message: e.to_string() }),
            },
            Ok(None) => Ok(None),
            Err(e) => Err(StorageError { message: e.to_string() }),
        }
    }

    /// Writes a record under its payment hash, unconditionally
    /// overwriting whatever was stored there: the last write wins.
    pub fn put_invoice(&mut self, record: &InvoiceData) -> (r: Result<(), StorageError>)
        ensures
            r matches Ok(u) ==> ledger_map(*final(self)) == ledger_map(*old(self)).insert(
                record@.r_hash,
                encode_record_spec(record@),
            ),
    {
        let text = encode_record(record);
        self.raw_put(record.r_hash.as_str(), text.as_str())
    }

    /// The record the ledger holds under a hash, if the hash is present
    /// and its stored text decodes.
    pub open spec fn spec_stored_record(self, h: Seq<char>) -> Option<InvoiceDataView> {
        if ledger_map(self).contains_key(h) {
            decode_record_spec(ledger_map(self)[h])
        } else {
            None
        }
    }

    /// The preimage the ledger holds under a hash, if any.
    pub open spec fn spec_stored_preimage(self, h: Seq<char>) -> Option<Seq<char>> {
        match self.spec_stored_record(h) {
            Some(rec) => Some(rec.preimage_x),
            None => None,
        }
    }

    /// The hash resolves for settlement: a record is stored under it and
    /// its preimage is non-empty.
    pub open spec fn spec_resolvable(self, h: Seq<char>) -> bool {
        self.spec_stored_record(h) matches Some(rec) && rec.preimage_x.len() > 0
    }

    /// Reads the record stored under a payment hash: the record if one is
    /// stored and decodes, nothing if the hash is absent, and an error if
    /// the store fails or the stored value is not a record.
    pub fn get_invoice(&self, payment_hash: &String) -> (r: Result<
        Option<InvoiceData>,
        StorageError,
    >)
        ensures
            r matches Ok(Some(rec)) ==> self.spec_stored_record(payment_hash@) == Some(rec@),
            r matches Ok(None) ==> !ledger_map(*self).contains_key(payment_hash@),
            self.spec_stored_record(payment_hash@) matches Some(v) ==> (r matches Ok(Some(rec))
                && rec@ == v) || r is Err,
    {
        match self.raw_get(payment_hash.as_str()) {
            Ok(Some(text)) => match decode_record(text.as_str()) {
                Some(rec) => Ok(Some(rec)),
                None => Err(
                    StorageError { message: "stored value does not decode as a record".to_owned() },
                ),
            },
            Ok(None) => Ok(None),
            Err(e) => Err(e),
        }
    }

    /// Looks up the preimage needed to settle the invoice under a payment
    /// hash. Fails with `NotFound` on an absent hash, `Corrupt` on a
    /// stored value that does not decode, and `EmptyPreimage` on a record
    /// whose secret was never known locally; a successful result is the
    /// stored preimage, which is never the empty string.
    pub fn resolve_preimage_for_settlement(&self, payment_hash: &String) -> (r: Result<
        String,
        SettlementError,
    >)
        ensures
            r matches Ok(p) ==> self.spec_stored_preimage(payment_hash@) == Some(p@) && p@.len()
                > 0,
            r matches Err(e) ==> match e {
                SettlementError::NotFound => !ledger_map(*self).contains_key(payment_hash@),
                SettlementError::Corrupt => ledger_map(*self).contains_key(payment_hash@)
                    && decode_record_spec(ledger_map(*self)[payment_hash@]) is None,
                SettlementError::EmptyPreimage => self.spec_stored_preimage(payment_hash@) == Some(
                    Seq::<char>::empty(),
                ),
                SettlementError::Storage(s) => true,
            },
            !ledger_map(*self).contains_key(payment_hash@) ==> (r matches Err(e) && (
            e is NotFound || e is Storage)),
            ledger_map(*self).contains_key(payment_hash@) && decode_record_spec(
                ledger_map(*self)[payment_hash@],
            ) is None ==> (r matches Err(e) && (e is Corrupt || e is Storage)),
            self.spec_stored_preimage(payment_hash@) == Some(Seq::<char>::empty()) ==> (r matches
            Err(e) && (e is EmptyPreimage || e is Storage)),
            self.spec_resolvable(payment_hash@) ==> ((r matches Ok(p) && Some(p@)
                == self.spec_stored_preimage(payment_hash@)) || (r matches Err(e)
                && e is Storage)),
    {
        match self.raw_get(payment_hash.as_str()) {
            Ok(Some(text)) => match decode_record(text.as_str()) {
                Some(rec) => {
                    if rec.preimage_x.as_str().unicode_len() == 0 {
                        Err(SettlementError::EmptyPreimage)
                    } else {
                        Ok(rec.preimage_x)
                    }
                },
                None => Err(SettlementError::Corrupt),
            },
            Ok(None) => Err(SettlementError::NotFound),
            Err(e) => Err(SettlementError::Storage(e)),
        }
    }

    /// The locally decided ownership flag for a hash: the stored
    /// record's flag, and false where nothing is stored under the hash
    /// or the stored value does not decode as a record.
    pub open spec fn spec_stored_ownership(self, h: Seq<char>) -> bool {
        match self.spec_stored_record(h) {
            Some(rec) => rec.is_own_invoice,
            None => false,
        }
    }

    /// Reads the ownership flag the ledger holds under a payment hash:
    /// exactly the stored record's flag, false for an absent hash or an
    /// undecodable stored value; only a store failure is an error.
    pub fn stored_ownership(&self, payment_hash: &String) -> (r: Result<bool, StorageError>)
        ensures
            r matches Ok(b) ==> b == self.spec_stored_ownership(payment_hash@),
    {
        match self.raw_get(payment_hash.as_str()) {
            Ok(Some(text)) => match decode_record(text.as_str()) {
                Some(rec) => Ok(rec.is_own_invoice),
                None => Ok(false),
            },
            Ok(None) => Ok(false),
            Err(e) => Err(e),
        }
    }

    /// The network the ledger remembers: the stored value where the key
    /// is present, "testnet" where it is absent; only a store failure is
    /// an error.
    pub fn stored_network(&self) -> (r: Result<String, StorageError>)
        ensures
            r matches Ok(s) ==> s@ == (if ledger_map(*self).contains_key("network"@) {
                ledger_map(*self)["network"@]
            } else {
                "testnet"@
            }),
    {
        match self.raw_get("network") {
            Ok(Some(v)) => Ok(v),
            Ok(None) => Ok("testnet".to_owned()),
            Err(e) => Err(e),
        }
    }

    /// Remembers the selected network.
    pub fn set_network(&mut self, network: &String) -> (r: Result<(), StorageError>)
        ensures
            r matches Ok(u) ==> ledger_map(*final(self)) == ledger_map(*old(self)).insert(
                "network"@,
                network@,
            ),
    {
        self.raw_put("network", network.as_str())
    }

    /// The node identity public key the ledger remembers: the stored
    /// value where the key is present, the empty string where it is
    /// absent; only a store failure is an error.
    pub fn stored_identity(&self) -> (r: Result<String, StorageError>)
        ensures
            r matches Ok(s) ==> s@ == (if ledger_map(*self).contains_key("identity_pubkey"@) {
                ledger_map(*self)["identity_pubkey"@]
            } else {
                Seq::<char>::empty()
            }),
    {
        match self.raw_get("identity_pubkey") {
            Ok(Some(v)) => Ok(v),
            Ok(None) => Ok(String::new()),
            Err(e) => Err(e),
        }
    }

    /// Remembers the node identity public key.
    pub fn store_identity(&mut self, identity_pubkey: &String) -> (r: Result<(), StorageError>)
        ensures
            r matches Ok(u) ==> ledger_map(*final(self)) == ledger_map(*old(self)).insert(
                "identity_pubkey"@,
                identity_pubkey@,
            ),
    {
        self.raw_put("identity_pubkey", identity_pubkey.as_str())
    }
}

/// Writing a record and reading the same hash back yields the record:
/// the stored text under the hash decodes to what was written.
pub proof fn lemma_put_get_round_trip(m: Map<Seq<char>, Seq<char>>, r: InvoiceDataView)
    ensures
        m.insert(r.r_hash, encode_record_spec(r)).contains_key(r.r_hash),
        decode_record_spec(m.insert(r.r_hash, encode_record_spec(r))[r.r_hash]) == Some(r),
{
    crate::codec::lemma_record_round_trip(r);
}

/// A hold invoice made from a generated preimage settles from the
/// ledger: once its record is stored under the payment hash, the stored
/// text decodes back to the record, and the preimage it carries is the
/// generated one, hex-encoded and never empty.
pub proof fn lemma_hold_invoice_settles(
    m: Map<Seq<char>, Seq<char>>,
    p: Seq<u8>,
    addr: Seq<char>,
    own: bool,
)
    requires
        p.len() > 0,
    ensures
        ({
            let h = crate::hexstr::hex_of(crate::preimage::sha256_of(p));
            let rec = InvoiceDataView {
                preimage_x: crate::hexstr::hex_of(p),
                preimage_h: h,
                payment_address: addr,
                r_hash: h,
                is_own_invoice: own,
            };
            let m2 = m.insert(h, encode_record_spec(rec));
            m2.contains_key(h) && decode_record_spec(m2[h]) == Some(rec) && rec.preimage_x.len() > 0
        }),
{
    let h = crate::hexstr::hex_of(crate::preimage::sha256_of(p));
    let rec = InvoiceDataView {
        preimage_x: crate::hexstr::hex_of(p),
        preimage_h: h,
        payment_address: addr,
        r_hash: h,
        is_own_invoice: own,
    };
    crate::codec::lemma_record_round_trip(rec);
    crate::hexstr::lemma_hex_of_shape(p);
}

/// Two sequential writes under one hash leave only the second record:
/// the last write wins.
pub proof fn lemma_last_write_wins(
    m: Map<Seq<char>, Seq<char>>,
    r1: InvoiceDataView,
    r2: InvoiceDataView,
)
    requires
        r1.r_hash == r2.r_hash,
    ensures
        decode_record_spec(
            m.insert(r1.r_hash, encode_record_spec(r1)).insert(
                r2.r_hash,
                encode_record_spec(r2),
            )[r1.r_hash],
        ) == Some(r2),
{
    crate::codec::lemma_record_round_trip(r2);
}

} // verus!
