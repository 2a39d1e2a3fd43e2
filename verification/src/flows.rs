//! The invoice flows: recording a freshly created invoice in the ledger
//! and annotating the daemon's invoice listing with local ownership.
//! The caller runs the CLI; these functions take the captured responses
//! and the ledger and make every decision in between.

use vstd::prelude::*;
use crate::annotate_ownership;
use crate::codec::encode_record_spec;
use crate::errors::{InvoiceError, ParseError};
use crate::jsonio::{extract_list_len, extract_list_text_field, json_doc_ok, json_list_len,
    json_list_text_field, json_text_field};
use crate::parser::{destination_from_payreq, hold_invoice_response_fields,
    standard_invoice_response_fields};
use crate::records::{InvoiceData, InvoiceDataView, InvoiceListing};
use crate::store::Ledger;
use crate::timefmt::{format_creation_date, spec_creation_date_display};

verus! {

/// The ledger record of a hold invoice: the locally generated preimage
/// and hash, the daemon's payment address, and the ownership verdict.
pub open spec fn spec_hold_record(
    preimage_x: Seq<char>,
    preimage_h: Seq<char>,
    payment_address: Seq<char>,
    is_own_invoice: bool,
) -> InvoiceDataView {
    InvoiceDataView {
        preimage_x,
        preimage_h,
        payment_address,
        r_hash: preimage_h,
        is_own_invoice,
    }
}

/// The ledger record of a standard invoice: no locally known preimage,
/// the daemon's hash and payment address, and the ownership verdict.
pub open spec fn spec_standard_record(
    r_hash: Seq<char>,
    payment_address: Seq<char>,
    is_own_invoice: bool,
) -> InvoiceDataView {
    InvoiceDataView {
        preimage_x: Seq::<char>::empty(),
        preimage_h: r_hash,
        payment_address,
        r_hash,
        is_own_invoice,
    }
}

/// Builds the ledger record for a hold invoice.
pub fn make_hold_record(
    preimage_x: &String,
    preimage_h: &String,
    payment_address: &String,
    is_own_invoice: bool,
) -> (r: InvoiceData)
    ensures
        r@ == spec_hold_record(preimage_x@, preimage_h@, payment_address@, is_own_invoice),
{
    InvoiceData {
        preimage_x: preimage_x.clone(),
        preimage_h: preimage_h.clone(),
        payment_address: payment_address.clone(),
        r_hash: preimage_h.clone(),
        is_own_invoice,
    }
}

/// The destination key a decoded payment request names, or the empty
/// string where the field is absent.
pub open spec fn spec_destination(payreq_doc: Seq<char>) -> Seq<char> {
    match json_text_field(payreq_doc, "destination"@) {
        Some(d) => d,
        None => Seq::<char>::empty(),
    }
}

/// Records a hold invoice created from a locally generated pair. The
/// first response must name the payment address and payment request, the
/// second must decode; the record is stored under the payment hash with
/// the ownership verdict of the decoded destination against the node's
/// identity key, and the payment address is handed back.
pub fn record_hold_invoice(
    preimage_x: &String,
    preimage_h: &String,
    addinvoice_raw: &String,
    payreq_raw: &String,
    identity_pubkey: &String,
    ledger: &mut Ledger,
) -> (r: Result<String, InvoiceError>)
    ensures
        r matches Ok(addr) ==> json_doc_ok(addinvoice_raw@) && json_text_field(
            addinvoice_raw@,
            "payment_addr"@,
        ) == Some(addr@) && json_text_field(addinvoice_raw@, "payment_request"@) is Some
            && json_doc_ok(payreq_raw@) && crate::store::ledger_map(*final(ledger))
            == crate::store::ledger_map(*old(ledger)).insert(
            preimage_h@,
            encode_record_spec(
                spec_hold_record(
                    preimage_x@,
                    preimage_h@,
                    addr@,
                    spec_destination(payreq_raw@) == identity_pubkey@,
                ),
            ),
        ),
        r matches Err(e) ==> match e {
            InvoiceError::Parse(p) => *final(ledger) == *old(ledger) && match p {
                ParseError::Malformed => !json_doc_ok(addinvoice_raw@) || !json_doc_ok(
                    payreq_raw@,
                ),
                ParseError::MissingField(f) => json_doc_ok(addinvoice_raw@) && ((f@
                    == "payment_addr"@ && json_text_field(
                    addinvoice_raw@,
                    "payment_addr"@,
                ) is None) || (f@ == "payment_request"@ && json_text_field(
                    addinvoice_raw@,
                    "payment_addr"@,
                ) is Some && json_text_field(addinvoice_raw@, "payment_request"@) is None)),
            },
            InvoiceError::Storage(s) => json_doc_ok(addinvoice_raw@) && json_text_field(
                addinvoice_raw@,
                "payment_addr"@,
            ) is Some && json_text_field(addinvoice_raw@, "payment_request"@) is Some
                && json_doc_ok(payreq_raw@),
        },
{
    let (payment_addr, _payment_request) = match hold_invoice_response_fields(
        addinvoice_raw.as_str(),
    ) {
        Ok(p) => p,
        Err(e) => {
            return Err(InvoiceError::Parse(e));
        },
    };
    let destination = match destination_from_payreq(payreq_raw.as_str()) {
        Ok(d) => d,
        Err(e) => {
            return Err(InvoiceError::Parse(e));
        },
    };
    let is_own = annotate_ownership(&destination, identity_pubkey);
    let record = make_hold_record(preimage_x, preimage_h, &payment_addr, is_own);
    match ledger.put_invoice(&record) {
        Ok(u) => Ok(payment_addr),
        Err(e) => Err(InvoiceError::Storage(e)),
    }
}

/// Records a standard invoice: the daemon owns the preimage, so the
/// stored record carries an empty one under the daemon's payment hash.
pub fn record_standard_invoice(
    addinvoice_raw: &String,
    payreq_raw: &String,
    identity_pubkey: &String,
    ledger: &mut Ledger,
) -> (r: Result<String, InvoiceError>)
    ensures
        r matches Ok(addr) ==> json_doc_ok(addinvoice_raw@) && json_text_field(
            addinvoice_raw@,
            "payment_addr"@,
        ) == Some(addr@) && json_text_field(addinvoice_raw@, "payment_request"@) is Some
            && json_doc_ok(payreq_raw@) && (json_text_field(
            addinvoice_raw@,
            "r_hash"@,
        ) matches Some(h) && crate::store::ledger_map(*final(ledger)) == crate::store::ledger_map(
            *old(ledger),
        ).insert(
            h,
            encode_record_spec(
                spec_standard_record(h, addr@, spec_destination(payreq_raw@) == identity_pubkey@),
            ),
        )),
        r matches Err(e) ==> match e {
            InvoiceError::Parse(p) => *final(ledger) == *old(ledger) && match p {
                ParseError::Malformed => !json_doc_ok(addinvoice_raw@) || !json_doc_ok(
                    payreq_raw@,
                ),
                ParseError::MissingField(f) => json_doc_ok(addinvoice_raw@) && ((f@
                    == "payment_addr"@ && json_text_field(
                    addinvoice_raw@,
                    "payment_addr"@,
                ) is None) || (f@ == "r_hash"@ && json_text_field(
                    addinvoice_raw@,
                    "payment_addr"@,
                ) is Some && json_text_field(addinvoice_raw@, "r_hash"@) is None) || (f@
                    == "payment_request"@ && json_text_field(
                    addinvoice_raw@,
                    "payment_addr"@,
                ) is Some && json_text_field(addinvoice_raw@, "r_hash"@) is Some
                    && json_text_field(addinvoice_raw@, "payment_request"@) is None)),
            },
            InvoiceError::Storage(s) => json_doc_ok(addinvoice_raw@) && json_text_field(
                addinvoice_raw@,
                "payment_addr"@,
            ) is Some && json_text_field(addinvoice_raw@, "r_hash"@) is Some && json_text_field(
                addinvoice_raw@,
                "payment_request"@,
            ) is Some && json_doc_ok(payreq_raw@),
        },
{
    let (payment_addr, r_hash, _payment_request) = match standard_invoice_response_fields(
        addinvoice_raw.as_str(),
    ) {
        Ok(p) => p,
        Err(e) => {
            return Err(InvoiceError::Parse(e));
        },
    };
    let destination = match destination_from_payreq(payreq_raw.as_str()) {
        Ok(d) => d,
        Err(e) => {
            return Err(InvoiceError::Parse(e));
        },
    };
    let is_own = annotate_ownership(&destination, identity_pubkey);
    let record = InvoiceData {
        preimage_x: String::new(),
        preimage_h: r_hash.clone(),
        payment_address: payment_addr.clone(),
        r_hash,
        is_own_invoice: is_own,
    };
    match ledger.put_invoice(&record) {
        Ok(u) => Ok(payment_addr),
        Err(e) => Err(InvoiceError::Storage(e)),
    }
}

/// One listing row reads back correctly: every field is the decoded
/// field of the `idx`-th listed invoice, the creation date is formatted
/// for display, and the ownership flag is set only where the ledger
/// truly marks the invoice as this node's own.
pub open spec fn listing_entry_ok(
    doc: Seq<char>,
    idx: int,
    ledger: Ledger,
    e: InvoiceListing,
) -> bool {
    json_list_text_field(doc, "invoices"@, idx, "memo"@) == Some(e.memo@) && json_list_text_field(
        doc,
        "invoices"@,
        idx,
        "r_hash"@,
    ) == Some(e.r_hash@) && json_list_text_field(doc, "invoices"@, idx, "value"@) == Some(e.value@)
        && json_list_text_field(doc, "invoices"@, idx, "state"@) == Some(e.state@) && (
    json_list_text_field(doc, "invoices"@, idx, "creation_date"@) matches Some(cd)
        && e.creation_date@ == spec_creation_date_display(cd)) && json_list_text_field(
        doc,
        "invoices"@,
        idx,
        "payment_request"@,
    ) == Some(e.payment_request@) && e.is_own_invoice == ledger.spec_stored_ownership(e.r_hash@)
}

/// Every text field the listing needs is present on the `idx`-th listed
/// invoice.
pub open spec fn listing_fields_present(doc: Seq<char>, idx: int) -> bool {
    json_list_text_field(doc, "invoices"@, idx, "memo"@) is Some && json_list_text_field(
        doc,
        "invoices"@,
        idx,
        "r_hash"@,
    ) is Some && json_list_text_field(doc, "invoices"@, idx, "value"@) is Some
        && json_list_text_field(doc, "invoices"@, idx, "state"@) is Some && json_list_text_field(
        doc,
        "invoices"@,
        idx,
        "creation_date"@,
    ) is Some && json_list_text_field(doc, "invoices"@, idx, "payment_request"@) is Some
}

/// Builds one listing row; every text field must be present, and a
/// failed ledger read surfaces rather than defaulting the flag.
fn listing_row(raw: &str, idx: usize, ledger: &Ledger) -> (r: Result<InvoiceListing, InvoiceError>)
    requires
        json_doc_ok(raw@),
    ensures
        r matches Ok(row) ==> listing_entry_ok(raw@, idx as int, *ledger, row),
        r matches Err(e) ==> match e {
            InvoiceError::Parse(p) => p is MissingField && !listing_fields_present(
                raw@,
                idx as int,
            ),
            InvoiceError::Storage(s) => true,
        },
{
    let memo = match listing_field(raw, idx, "memo") {
        Ok(s) => s,
        Err(e) => {
            return Err(InvoiceError::Parse(e));
        },
    };
    let r_hash = match listing_field(raw, idx, "r_hash") {
        Ok(s) => s,
        Err(e) => {
            return Err(InvoiceError::Parse(e));
        },
    };
    let value = match listing_field(raw, idx, "value") {
        Ok(s) => s,
        Err(e) => {
            return Err(InvoiceError::Parse(e));
        },
    };
    let state = match listing_field(raw, idx, "state") {
        Ok(s) => s,
        Err(e) => {
            return Err(InvoiceError::Parse(e));
        },
    };
    let creation_date_raw = match listing_field(raw, idx, "creation_date") {
        Ok(s) => s,
        Err(e) => {
            return Err(InvoiceError::Parse(e));
        },
    };
    let payment_request = match listing_field(raw, idx, "payment_request") {
        Ok(s) => s,
        Err(e) => {
            return Err(InvoiceError::Parse(e));
        },
    };
    let creation_date = format_creation_date(&creation_date_raw);
    let is_own_invoice = match ledger.stored_ownership(&r_hash) {
        Ok(b) => b,
        Err(e) => {
            return Err(InvoiceError::Storage(e));
        },
    };
    Ok(
        InvoiceListing {
            memo,
            r_hash,
            value,
            state,
            creation_date,
            is_own_invoice,
            payment_request,
        },
    )
}

/// Reads one required text field of one listed invoice.
fn listing_field(raw: &str, idx: usize, field: &str) -> (r: Result<String, ParseError>)
    requires
        json_doc_ok(raw@),
    ensures
        r matches Ok(s) ==> json_list_text_field(raw@, "invoices"@, idx as int, field@) == Some(
            s@,
        ),
        r matches Err(e) ==> (e matches ParseError::MissingField(f) && f@ == field@)
            && json_list_text_field(raw@, "invoices"@, idx as int, field@) is None,
{
    match extract_list_text_field(raw, "invoices", idx, field) {
        Ok(Some(s)) => Ok(s),
        Ok(None) => Err(ParseError::MissingField(field.to_owned())),
        Err(e) => {
            proof {
                assert(false);
            }
            Err(ParseError::Malformed)
        },
    }
}

/// Builds the displayed invoice listing from a `listinvoices` response,
/// one row per listed invoice, in order. Every row must carry all of its
/// fields, and each row's ownership flag equals the flag of the ledger
/// record stored under the row's hash (false where none is stored or the
/// stored value does not decode); a failed ledger read is an error, never
/// a silently false flag.
pub fn invoice_listings(raw: &str, ledger: &Ledger) -> (r: Result<
    Vec<InvoiceListing>,
    InvoiceError,
>)
    ensures
        r matches Ok(v) ==> json_doc_ok(raw@) && json_list_len(raw@, "invoices"@) == Some(
            v@.len() as int,
        ) && (forall|i: int| 0 <= i < v@.len() ==> listing_entry_ok(raw@, i, *ledger, #[trigger] v@[i])),
        r matches Err(e) ==> match e {
            InvoiceError::Parse(p) => match p {
                ParseError::Malformed => !json_doc_ok(raw@),
                ParseError::MissingField(f) => json_doc_ok(raw@) && ((f@ == "invoices"@
                    && json_list_len(raw@, "invoices"@) is None) || (exists|i: int|
                    json_list_len(raw@, "invoices"@) matches Some(n) && 0 <= i < n && !(
                    #[trigger] listing_fields_present(raw@, i)))),
            },
            InvoiceError::Storage(s) => json_doc_ok(raw@) && json_list_len(
                raw@,
                "invoices"@,
            ) is Some,
        },
{
    let n = match extract_list_len(raw, "invoices") {
        Err(e) => {
            return Err(InvoiceError::Parse(e));
        },
        Ok(None) => {
            return Err(InvoiceError::Parse(ParseError::MissingField("invoices".to_owned())));
        },
        Ok(Some(n)) => n,
    };
    let mut out: Vec<InvoiceListing> = Vec::new();
    let mut i: usize = 0;
    while i < n
        invariant
            0 <= i <= n,
            json_doc_ok(raw@),
            json_list_len(raw@, "invoices"@) == Some(n as int),
            out@.len() == i,
            forall|k: int| 0 <= k < i ==> listing_entry_ok(raw@, k, *ledger, #[trigger] out@[k]),
        decreases n - i,
    {
        let row = match listing_row(raw, i, ledger) {
            Ok(row) => row,
            Err(e) => {
                proof {
                    if e is Parse {
                        assert(!listing_fields_present(raw@, i as int));
                    }
                }
                return Err(e);
            },
        };
        let ghost prev = out@;
        out.push(row);
        proof {
            assert(forall|k: int| 0 <= k < prev.len() ==> out@[k] == prev[k]);
            assert(out@[i as int] == out@.last());
            assert(listing_entry_ok(raw@, i as int, *ledger, out@[i as int]));
        }
        i = i + 1;
    }
    Ok(out)
}

/// Picks the peer a channel is auto-opened with: the first listed one.
pub fn choose_peer(peers: &Vec<String>) -> (r: Option<String>)
    ensures
        peers@.len() > 0 ==> (r matches Some(s) && s@ == peers@[0]@),
        peers@.len() == 0 ==> r is None,
{
    if peers.len() > 0 {
        Some(peers[0].clone())
    } else {
        None
    }
}

} // verus!
