//! Verified readers for the CLI responses the front end consumes:
//! invoice-creation output, decoded payment requests, channel-open
//! results, and the peer and channel listings. Each reader's contract
//! says exactly which fields of the decoded document it hands back and
//! which error each malformed shape yields.

use vstd::prelude::*;
use crate::errors::ParseError;
use crate::gateway::string_views;
use crate::jsonio::{extract_field, extract_list_bool_field, extract_list_child_text_field,
    extract_list_len, extract_list_text_field, json_doc_ok, json_list_bool_field,
    json_list_child_text_field, json_list_len, json_list_text_field, json_text_field};
use crate::records::{ActiveChannelInfo, PendingChannelInfo};
use crate::strutil::{before_char, prefix_before};

verus! {

/// Reads the payment address and payment request out of a hold-invoice
/// creation response; exactly those two fields must be present.
pub fn hold_invoice_response_fields(raw: &str) -> (r: Result<(String, String), ParseError>)
    ensures
        r is Ok <==> (json_doc_ok(raw@) && json_text_field(raw@, "payment_addr"@) is Some
            && json_text_field(raw@, "payment_request"@) is Some),
        r matches Ok(p) ==> json_text_field(raw@, "payment_addr"@) == Some(p.0@)
            && json_text_field(raw@, "payment_request"@) == Some(p.1@),
        r matches Err(e) ==> match e {
            ParseError::Malformed => !json_doc_ok(raw@),
            ParseError::MissingField(f) => json_doc_ok(raw@) && ((f@ == "payment_addr"@
                && json_text_field(raw@, "payment_addr"@) is None) || (f@ == "payment_request"@
                && json_text_field(raw@, "payment_addr"@) is Some && json_text_field(
                raw@,
                "payment_request"@,
            ) is None)),
        },
{
    let addr = match extract_field(raw, "payment_addr") {
        Err(e) => {
            return Err(e);
        },
        Ok(None) => {
            return Err(ParseError::MissingField("payment_addr".to_owned()));
        },
        Ok(Some(a)) => a,
    };
    match extract_field(raw, "payment_request") {
        Err(e) => Err(e),
        Ok(None) => Err(ParseError::MissingField("payment_request".to_owned())),
        Ok(Some(req)) => Ok((addr, req)),
    }
}

/// Reads the payment address, payment hash and payment request out of a
/// standard invoice creation response.
pub fn standard_invoice_response_fields(raw: &str) -> (r: Result<
    (String, String, String),
    ParseError,
>)
    ensures
        r is Ok <==> (json_doc_ok(raw@) && json_text_field(raw@, "payment_addr"@) is Some
            && json_text_field(raw@, "r_hash"@) is Some && json_text_field(
            raw@,
            "payment_request"@,
        ) is Some),
        r matches Ok(p) ==> json_text_field(raw@, "payment_addr"@) == Some(p.0@)
            && json_text_field(raw@, "r_hash"@) == Some(p.1@) && json_text_field(
            raw@,
            "payment_request"@,
        ) == Some(p.2@),
        r matches Err(e) ==> match e {
            ParseError::Malformed => !json_doc_ok(raw@),
            ParseError::MissingField(f) => json_doc_ok(raw@) && ((f@ == "payment_addr"@
                && json_text_field(raw@, "payment_addr"@) is None) || (f@ == "r_hash"@
                && json_text_field(raw@, "payment_addr"@) is Some && json_text_field(
                raw@,
                "r_hash"@,
            ) is None) || (f@ == "payment_request"@ && json_text_field(
                raw@,
                "payment_addr"@,
            ) is Some && json_text_field(raw@, "r_hash"@) is Some && json_text_field(
                raw@,
                "payment_request"@,
            ) is None)),
        },
{
    let addr = match extract_field(raw, "payment_addr") {
        Err(e) => {
            return Err(e);
        },
        Ok(None) => {
            return Err(ParseError::MissingField("payment_addr".to_owned()));
        },
        Ok(Some(a)) => a,
    };
    let r_hash = match extract_field(raw, "r_hash") {
        Err(e) => {
            return Err(e);
        },
        Ok(None) => {
            return Err(ParseError::MissingField("r_hash".to_owned()));
        },
        Ok(Some(h)) => h,
    };
    match extract_field(raw, "payment_request") {
        Err(e) => Err(e),
        Ok(None) => Err(ParseError::MissingField("payment_request".to_owned())),
        Ok(Some(req)) => Ok((addr, r_hash, req)),
    }
}

/// Reads the destination public key out of a decoded payment request,
/// falling back to the empty string when the field is absent; fails only
/// when the document itself does not parse.
pub fn destination_from_payreq(raw: &str) -> (r: Result<String, ParseError>)
    ensures
        r is Ok <==> json_doc_ok(raw@),
        r matches Ok(s) ==> s@ == match json_text_field(raw@, "destination"@) {
            Some(d) => d,
            None => Seq::<char>::empty(),
        },
        r matches Err(e) ==> e is Malformed,
{
    match extract_field(raw, "destination") {
        Err(e) => Err(e),
        Ok(Some(d)) => Ok(d),
        Ok(None) => Ok(String::new()),
    }
}

/// Reads the funding transaction id out of a channel-open response: the
/// `funding_txid` field where present, else the part of the
/// `channel_point` field before its colon, else nothing.
pub fn funding_txid_from_response(raw: &str) -> (r: Option<String>)
    ensures
        !json_doc_ok(raw@) ==> r is None,
        json_doc_ok(raw@) && json_text_field(raw@, "funding_txid"@) is Some ==> (r matches Some(s)
            && Some(s@) == json_text_field(raw@, "funding_txid"@)),
        json_doc_ok(raw@) && json_text_field(raw@, "funding_txid"@) is None && json_text_field(
            raw@,
            "channel_point"@,
        ) is Some ==> (r matches Some(s) && s@ == before_char(
            match json_text_field(raw@, "channel_point"@) {
                Some(cp) => cp,
                None => Seq::<char>::empty(),
            },
            ':',
        )),
        json_doc_ok(raw@) && json_text_field(raw@, "funding_txid"@) is None && json_text_field(
            raw@,
            "channel_point"@,
        ) is None ==> r is None,
{
    match extract_field(raw, "funding_txid") {
        Err(e) => None,
        Ok(Some(t)) => Some(t),
        Ok(None) => match extract_field(raw, "channel_point") {
            Err(e) => None,
            Ok(Some(cp)) => Some(prefix_before(cp.as_str(), ':')),
            Ok(None) => None,
        },
    }
}

/// The public keys of the first `n` listed peers, in order, skipping
/// entries without one.
pub open spec fn peer_keys(doc: Seq<char>, n: int) -> Seq<Seq<char>>
    decreases n,
{
    if n <= 0 {
        Seq::<Seq<char>>::empty()
    } else {
        peer_keys(doc, n - 1) + (match json_list_text_field(doc, "peers"@, n - 1, "pub_key"@) {
            Some(s) => seq![s],
            None => Seq::<Seq<char>>::empty(),
        })
    }
}

/// Reads the connected peers' public keys out of a `listpeers` response.
/// The list may be empty; choosing a peer is the caller's decision.
pub fn peers_from_json(raw: &str) -> (r: Result<Vec<String>, ParseError>)
    ensures
        r is Ok <==> (json_doc_ok(raw@) && json_list_len(raw@, "peers"@) is Some),
        r matches Ok(v) ==> (json_list_len(raw@, "peers"@) matches Some(n) && string_views(v@)
            == peer_keys(raw@, n)),
        r matches Err(e) ==> match e {
            ParseError::Malformed => !json_doc_ok(raw@),
            ParseError::MissingField(f) => json_doc_ok(raw@) && f@ == "peers"@ && json_list_len(
                raw@,
                "peers"@,
            ) is None,
        },
{
    let n = match extract_list_len(raw, "peers") {
        Err(e) => {
            return Err(e);
        },
        Ok(None) => {
            return Err(ParseError::MissingField("peers".to_owned()));
        },
        Ok(Some(n)) => n,
    };
    let mut keys: Vec<String> = Vec::new();
    let mut i: usize = 0;
    while i < n
        invariant
            0 <= i <= n,
            json_doc_ok(raw@),
            json_list_len(raw@, "peers"@) == Some(n as int),
            string_views(keys@) == peer_keys(raw@, i as int),
        decreases n - i,
    {
        let ghost prev = keys@;
        match extract_list_text_field(raw, "peers", i, "pub_key") {
            Ok(Some(k)) => {
                keys.push(k);
                proof {
                    assert(string_views(keys@) =~= string_views(prev).push(keys@.last()@));
                    assert(string_views(keys@) =~= peer_keys(raw@, i + 1));
                }
            },
            Ok(None) => {
                proof {
                    assert(string_views(keys@) =~= peer_keys(raw@, i + 1));
                }
            },
            Err(e) => {
                proof {
                    assert(false);
                }
            },
        }
        i = i + 1;
    }
    Ok(keys)
}

/// A string field of one element of a top-level array field, with a
/// default for an absent or non-string value.
pub open spec fn list_text_or(
    doc: Seq<char>,
    key: Seq<char>,
    idx: int,
    field: Seq<char>,
    dflt: Seq<char>,
) -> Seq<char> {
    match json_list_text_field(doc, key, idx, field) {
        Some(s) => s,
        None => dflt,
    }
}

/// A string field of the named child object of one array element, with a
/// default.
pub open spec fn list_child_text_or(
    doc: Seq<char>,
    key: Seq<char>,
    idx: int,
    child: Seq<char>,
    field: Seq<char>,
    dflt: Seq<char>,
) -> Seq<char> {
    match json_list_child_text_field(doc, key, idx, child, field) {
        Some(s) => s,
        None => dflt,
    }
}

/// One listed channel reads back correctly: each field of the built
/// entry is the decoded field of the `idx`-th element of the `channels`
/// array, or its default.
pub open spec fn active_channel_entry_ok(doc: Seq<char>, idx: int, e: ActiveChannelInfo) -> bool {
    e.channel_id@ == list_text_or(doc, "channels"@, idx, "chan_id"@, Seq::<char>::empty())
        && e.remote_pubkey@ == list_text_or(
        doc,
        "channels"@,
        idx,
        "remote_pubkey"@,
        Seq::<char>::empty(),
    ) && e.capacity@ == list_text_or(doc, "channels"@, idx, "capacity"@, "0"@) && e.local_balance@
        == list_text_or(doc, "channels"@, idx, "local_balance"@, "0"@) && e.remote_balance@
        == list_text_or(doc, "channels"@, idx, "remote_balance"@, "0"@) && e.active == (
    match json_list_bool_field(doc, "channels"@, idx, "active"@) {
        Some(b) => b,
        None => false,
    })
}

/// Reads the open channels out of a `listchannels` response: one entry
/// per listed channel, with missing fields replaced by their defaults.
pub fn channels_from_json(raw: &str) -> (r: Result<Vec<ActiveChannelInfo>, ParseError>)
    ensures
        r is Ok <==> (json_doc_ok(raw@) && json_list_len(raw@, "channels"@) is Some),
        r matches Ok(v) ==> (json_list_len(raw@, "channels"@) == Some(v@.len() as int) && (forall|
            i: int,
        |
            0 <= i < v@.len() ==> active_channel_entry_ok(raw@, i, #[trigger] v@[i]))),
        r matches Err(e) ==> match e {
            ParseError::Malformed => !json_doc_ok(raw@),
            ParseError::MissingField(f) => json_doc_ok(raw@) && f@ == "channels"@ && json_list_len(
                raw@,
                "channels"@,
            ) is None,
        },
{
    let n = match extract_list_len(raw, "channels") {
        Err(e) => {
            return Err(e);
        },
        Ok(None) => {
            return Err(ParseError::MissingField("channels".to_owned()));
        },
        Ok(Some(n)) => n,
    };
    let mut out: Vec<ActiveChannelInfo> = Vec::new();
    let mut i: usize = 0;
    while i < n
        invariant
            0 <= i <= n,
            json_doc_ok(raw@),
            json_list_len(raw@, "channels"@) == Some(n as int),
            out@.len() == i,
            forall|k: int| 0 <= k < i ==> active_channel_entry_ok(raw@, k, #[trigger] out@[k]),
        decreases n - i,
    {
        let channel_id = list_field_or(raw, "channels", i, "chan_id", "");
        let remote_pubkey = list_field_or(raw, "channels", i, "remote_pubkey", "");
        let capacity = list_field_or(raw, "channels", i, "capacity", "0");
        let local_balance = list_field_or(raw, "channels", i, "local_balance", "0");
        let remote_balance = list_field_or(raw, "channels", i, "remote_balance", "0");
        let active = match extract_list_bool_field(raw, "channels", i, "active") {
            Ok(Some(b)) => b,
            Ok(None) => false,
            Err(e) => false,
        };
        let ghost prev = out@;
        out.push(
            ActiveChannelInfo {
                channel_id,
                remote_pubkey,
                capacity,
                local_balance,
                remote_balance,
                active,
            },
        );
        proof {
            reveal_strlit("");
            assert(""@ =~= Seq::<char>::empty());
            assert(forall|k: int| 0 <= k < prev.len() ==> out@[k] == prev[k]);
            assert(out@[i as int] == out@.last());
            assert(active_channel_entry_ok(raw@, i as int, out@[i as int]));
        }
        i = i + 1;
    }
    Ok(out)
}

/// A string field of one array element, or the given default.
fn list_field_or(raw: &str, key: &str, idx: usize, field: &str, dflt: &str) -> (r: String)
    requires
        json_doc_ok(raw@),
    ensures
        r@ == list_text_or(raw@, key@, idx as int, field@, dflt@),
{
    match extract_list_text_field(raw, key, idx, field) {
        Ok(Some(s)) => s,
        Ok(None) => dflt.to_owned(),
        Err(e) => {
            proof {
                assert(false);
            }
            dflt.to_owned()
        },
    }
}

/// One pending channel reads back correctly from its category: each
/// field comes from the nested `channel` object of the `idx`-th element,
/// or its default, and the status text names the category.
pub open spec fn pending_entry_ok(
    doc: Seq<char>,
    key: Seq<char>,
    idx: int,
    status: Seq<char>,
    e: PendingChannelInfo,
) -> bool {
    e.remote_node_pub@ == list_child_text_or(
        doc,
        key,
        idx,
        "channel"@,
        "remote_node_pub"@,
        Seq::<char>::empty(),
    ) && e.channel_point@ == list_child_text_or(
        doc,
        key,
        idx,
        "channel"@,
        "channel_point"@,
        Seq::<char>::empty(),
    ) && e.capacity@ == list_child_text_or(doc, key, idx, "channel"@, "capacity"@, "0"@)
        && e.local_balance@ == list_child_text_or(doc, key, idx, "channel"@, "local_balance"@, "0"@)
        && e.remote_balance@ == list_child_text_or(
        doc,
        key,
        idx,
        "channel"@,
        "remote_balance"@,
        "0"@,
    ) && e.status@ == status
}

/// The number of entries a category contributes: the length of its
/// array, or none at all where the category is absent.
pub open spec fn category_len(doc: Seq<char>, key: Seq<char>) -> int {
    match json_list_len(doc, key) {
        Some(n) => n,
        None => 0,
    }
}

/// Builds one category of pending channels.
fn pending_category(raw: &str, key: &str, status: &str) -> (r: Vec<PendingChannelInfo>)
    requires
        json_doc_ok(raw@),
    ensures
        r@.len() == category_len(raw@, key@),
        forall|k: int|
            0 <= k < r@.len() ==> pending_entry_ok(raw@, key@, k, status@, #[trigger] r@[k]),
{
    let mut out: Vec<PendingChannelInfo> = Vec::new();
    let n = match extract_list_len(raw, key) {
        Ok(Some(n)) => n,
        Ok(None) => {
            return out;
        },
        Err(e) => {
            proof {
                assert(false);
            }
            return out;
        },
    };
    let mut j: usize = 0;
    while j < n
        invariant
            0 <= j <= n,
            json_doc_ok(raw@),
            json_list_len(raw@, key@) == Some(n as int),
            out@.len() == j,
            forall|k: int|
                0 <= k < out@.len() ==> pending_entry_ok(
                    raw@,
                    key@,
                    k,
                    status@,
                    #[trigger] out@[k],
                ),
        decreases n - j,
    {
        let remote_node_pub = child_field_or(raw, key, j, "remote_node_pub", "");
        let channel_point = child_field_or(raw, key, j, "channel_point", "");
        let capacity = child_field_or(raw, key, j, "capacity", "0");
        let local_balance = child_field_or(raw, key, j, "local_balance", "0");
        let remote_balance = child_field_or(raw, key, j, "remote_balance", "0");
        let ghost prev = out@;
        out.push(
            PendingChannelInfo {
                remote_node_pub,
                channel_point,
                capacity,
                local_balance,
                remote_balance,
                status: status.to_owned(),
            },
        );
        proof {
            reveal_strlit("");
            assert(""@ =~= Seq::<char>::empty());
            assert(forall|k: int| 0 <= k < prev.len() ==> out@[k] == prev[k]);
            assert(out@[j as int] == out@.last());
            assert(pending_entry_ok(raw@, key@, j as int, status@, out@[j as int]));
        }
        j = j + 1;
    }
    out
}

/// A string field of the `channel` child of one array element, or the
/// given default.
fn child_field_or(raw: &str, key: &str, idx: usize, field: &str, dflt: &str) -> (r: String)
    requires
        json_doc_ok(raw@),
    ensures
        r@ == list_child_text_or(raw@, key@, idx as int, "channel"@, field@, dflt@),
{
    match extract_list_child_text_field(raw, key, idx, "channel", field) {
        Ok(Some(s)) => s,
        Ok(None) => dflt.to_owned(),
        Err(e) => {
            proof {
                assert(false);
            }
            dflt.to_owned()
        },
    }
}

/// Reads the pending channels out of a `pendingchannels` response: the
/// four categories in their fixed order, each entry carrying its
/// category's status text. Fails only when the document does not parse.
pub fn pending_channels_from_json(raw: &str) -> (r: Result<Vec<PendingChannelInfo>, ParseError>)
    ensures
        r is Ok <==> json_doc_ok(raw@),
        r matches Err(e) ==> e is Malformed,
        r matches Ok(v) ==> ({
            let n1 = category_len(raw@, "pending_open_channels"@);
            let n2 = category_len(raw@, "pending_closing_channels"@);
            let n3 = category_len(raw@, "pending_force_closing_channels"@);
            let n4 = category_len(raw@, "waiting_close_channels"@);
            v@.len() == n1 + n2 + n3 + n4 && (forall|j: int|
                0 <= j < n1 ==> pending_entry_ok(
                    raw@,
                    "pending_open_channels"@,
                    j,
                    "Opening"@,
                    #[trigger] v@[j],
                )) && (forall|j: int|
                0 <= j < n2 ==> pending_entry_ok(
                    raw@,
                    "pending_closing_channels"@,
                    j,
                    "Closing"@,
                    #[trigger] v@[n1 + j],
                )) && (forall|j: int|
                0 <= j < n3 ==> pending_entry_ok(
                    raw@,
                    "pending_force_closing_channels"@,
                    j,
                    "Force Closing"@,
                    #[trigger] v@[n1 + n2 + j],
                )) && (forall|j: int|
                0 <= j < n4 ==> pending_entry_ok(
                    raw@,
                    "waiting_close_channels"@,
                    j,
                    "Waiting Close"@,
                    #[trigger] v@[n1 + n2 + n3 + j],
                ))
        }),
{
    match extract_list_len(raw, "pending_open_channels") {
        Err(e) => {
            return Err(e);
        },
        Ok(_) => {},
    }
    let mut out = pending_category(raw, "pending_open_channels", "Opening");
    let ghost v1 = out@;
    let mut c2 = pending_category(raw, "pending_closing_channels", "Closing");
    let ghost v2 = c2@;
    let mut c3 = pending_category(raw, "pending_force_closing_channels", "Force Closing");
    let ghost v3 = c3@;
    let mut c4 = pending_category(raw, "waiting_close_channels", "Waiting Close");
    let ghost v4 = c4@;
    out.append(&mut c2);
    out.append(&mut c3);
    out.append(&mut c4);
    proof {
        let n1 = category_len(raw@, "pending_open_channels"@);
        let n2 = category_len(raw@, "pending_closing_channels"@);
        let n3 = category_len(raw@, "pending_force_closing_channels"@);
        let n4 = category_len(raw@, "waiting_close_channels"@);
        assert(out@ == ((v1 + v2) + v3) + v4);
        assert forall|j: int|
            0 <= j < n1 implies pending_entry_ok(
            raw@,
            "pending_open_channels"@,
            j,
            "Opening"@,
            #[trigger] out@[j],
        ) by {
            assert(out@[j] == v1[j]);
        }
        assert forall|j: int|
            0 <= j < n2 implies pending_entry_ok(
            raw@,
            "pending_closing_channels"@,
            j,
            "Closing"@,
            #[trigger] out@[n1 + j],
        ) by {
            assert(out@[n1 + j] == v2[j]);
        }
        assert forall|j: int|
            0 <= j < n3 implies pending_entry_ok(
            raw@,
            "pending_force_closing_channels"@,
            j,
            "Force Closing"@,
            #[trigger] out@[n1 + n2 + j],
        ) by {
            assert(out@[n1 + n2 + j] == v3[j]);
        }
        assert forall|j: int|
            0 <= j < n4 implies pending_entry_ok(
            raw@,
            "waiting_close_channels"@,
            j,
            "Waiting Close"@,
            #[trigger] out@[n1 + n2 + n3 + j],
        ) by {
            assert(out@[n1 + n2 + n3 + j] == v4[j]);
        }
    }
    Ok(out)
}

} // verus!
