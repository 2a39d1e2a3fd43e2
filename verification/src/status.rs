//! The node status poller's decisions. The caller runs the CLI or REST
//! probe and hands the captured outcome in as plain values; everything
//! here — how `getinfo` output becomes a [`NodeInfo`], how wallet-lock
//! indicators are spotted in error text, how an unlock attempt is
//! judged, and how one poll moves the status state machine — is
//! verified.

use vstd::prelude::*;
use crate::jsonio::{doc_bool_or, doc_text_or, doc_u64_or, extract_bool_field, extract_field,
    extract_u64_field, json_doc_ok, json_text_field};
use crate::numtext::{dec_digits, i64_text_value, parse_i64, u64_to_dec};
use crate::records::NodeInfo;
use crate::strutil::{contains_seq, str_contains};

verus! {

/// The status state machine: unknown until the first probe, then the
/// observed combination of liveness, wallet lock and chain sync.
pub enum NodeState {
    Unknown,
    Observed { running: bool, wallet_locked: bool, synced: bool },
}

/// CLI error text names a locked wallet.
pub open spec fn lock_indicated(text: Seq<char>) -> bool {
    contains_seq(text, "wallet locked"@) || contains_seq(text, "wallet not unlocked"@)
        || contains_seq(text, "wallet state: LOCKED"@) || contains_seq(
        text,
        "unlock it to enable full RPC access"@,
    )
}

/// Whether CLI error text names a locked wallet.
pub fn wallet_lock_indicated(stderr: &str) -> (r: bool)
    ensures
        r == lock_indicated(stderr@),
{
    if str_contains(stderr, "wallet locked") {
        return true;
    }
    if str_contains(stderr, "wallet not unlocked") {
        return true;
    }
    if str_contains(stderr, "wallet state: LOCKED") {
        return true;
    }
    str_contains(stderr, "unlock it to enable full RPC access")
}

/// The wallet-lock judgment from the two probe commands' error texts:
/// the wallet counts as locked when either names it.
pub fn locked_from_probes(getinfo_stderr: &str, listchannels_stderr: &str) -> (r: bool)
    ensures
        r == (lock_indicated(getinfo_stderr@) || lock_indicated(listchannels_stderr@)),
{
    if wallet_lock_indicated(getinfo_stderr) {
        return true;
    }
    wallet_lock_indicated(listchannels_stderr)
}

/// Judges an unlock attempt. A successful exit counts only if the
/// follow-up probe confirms the wallet is no longer locked; a failed
/// exit still counts when the daemon reports the wallet was already
/// unlocked.
pub fn unlock_outcome(exit_ok: bool, stderr: &str, still_locked_after: Option<bool>) -> (r: bool)
    ensures
        exit_ok ==> r == (still_locked_after == Some(false)),
        !exit_ok ==> r == contains_seq(stderr@, "wallet already unlocked"@),
{
    if exit_ok {
        match still_locked_after {
            Some(still_locked) => !still_locked,
            None => false,
        }
    } else {
        str_contains(stderr, "wallet already unlocked")
    }
}

/// Builds a [`NodeInfo`] from one `getinfo` invocation: the node counts
/// as running exactly when the probe ran and exited cleanly, and each
/// field comes from the decoded output or falls back to its default.
pub fn node_info_from_getinfo(invoked: bool, exit_ok: bool, stdout: &str, network: &String) -> (r:
    NodeInfo)
    ensures
        r.running == (invoked && exit_ok),
        r.network@ == network@,
        invoked && exit_ok ==> r.version@ == doc_text_or(stdout@, "version"@, "unknown"@)
            && r.block_height == doc_u64_or(stdout@, "block_height"@, 0) && r.synced == doc_bool_or(
            stdout@,
            "synced_to_chain"@,
            false,
        ) && r.identity_pubkey@ == doc_text_or(stdout@, "identity_pubkey"@, "unknown"@),
        !(invoked && exit_ok) ==> r.version@ == "unknown"@ && r.block_height == 0 && r.synced
            == false && r.identity_pubkey@ == "unknown"@,
{
    if !(invoked && exit_ok) {
        return NodeInfo {
            running: false,
            version: "unknown".to_owned(),
            synced: false,
            block_height: 0,
            network: network.clone(),
            identity_pubkey: "unknown".to_owned(),
        };
    }
    let version = match extract_field(stdout, "version") {
        Ok(Some(v)) => v,
        _ => "unknown".to_owned(),
    };
    let block_height = match extract_u64_field(stdout, "block_height") {
        Ok(Some(h)) => h,
        _ => 0,
    };
    let synced = match extract_bool_field(stdout, "synced_to_chain") {
        Ok(Some(b)) => b,
        _ => false,
    };
    let identity_pubkey = match extract_field(stdout, "identity_pubkey") {
        Ok(Some(k)) => k,
        _ => "unknown".to_owned(),
    };
    NodeInfo { running: true, version, synced, block_height, network: network.clone(), identity_pubkey }
}

/// The confirmed wallet balance a `walletbalance` response reports, or
/// zero where the response does not carry one in range.
pub open spec fn spec_wallet_balance(exit_ok: bool, doc: Seq<char>) -> int {
    if exit_ok && json_doc_ok(doc) {
        match json_text_field(doc, "confirmed_balance"@) {
            Some(s) => match i64_text_value(s) {
                Some(v) => if i32::MIN <= v <= i32::MAX {
                    v
                } else {
                    0
                },
                None => 0,
            },
            None => 0,
        }
    } else {
        0
    }
}

/// Reads the confirmed balance out of one `walletbalance` invocation,
/// falling back to zero on any shape it does not expect.
pub fn wallet_balance_from_output(exit_ok: bool, stdout: &str) -> (r: i32)
    ensures
        r as int == spec_wallet_balance(exit_ok, stdout@),
{
    if !exit_ok {
        return 0;
    }
    let field = match extract_field(stdout, "confirmed_balance") {
        Ok(Some(s)) => s,
        _ => {
            return 0;
        },
    };
    match parse_i64(field.as_str()) {
        Some(v) => {
            if v >= i32::MIN as i64 && v <= i32::MAX as i64 {
                v as i32
            } else {
                0
            }
        },
        None => 0,
    }
}

/// Classifies a REST `getinfo` probe: recognized only when the call
/// succeeded and the body names the sync flag; then the node is running,
/// the sync text follows the flag's value, and the wallet counts as
/// locked unless the body affirms it is unlocked.
pub fn interpret_rest_getinfo(status_ok: bool, body: &str) -> (r: Option<(bool, String, bool)>)
    ensures
        r is Some <==> (status_ok && contains_seq(body@, "\"synced_to_chain\""@)),
        r matches Some(t) ==> t.0 == true && t.1@ == (if contains_seq(
            body@,
            "\"synced_to_chain\":true"@,
        ) {
            "Chain synced"@
        } else {
            "Syncing..."@
        }) && t.2 == !contains_seq(body@, "\"wallet_unlocked\":true"@),
{
    if !status_ok {
        return None;
    }
    if !str_contains(body, "\"synced_to_chain\"") {
        return None;
    }
    let sync_status = if str_contains(body, "\"synced_to_chain\":true") {
        "Chain synced".to_owned()
    } else {
        "Syncing...".to_owned()
    };
    let wallet_locked = !str_contains(body, "\"wallet_unlocked\":true");
    Some((true, sync_status, wallet_locked))
}

/// One step of the status state machine. A failed probe reads as
/// offline with nothing else claimed; a completed probe reads as its
/// observation, where a locked wallet implies the node itself runs.
pub fn poll_transition(outcome: Option<(bool, bool, bool)>) -> (r: NodeState)
    ensures
        outcome is None ==> r == (NodeState::Observed {
            running: false,
            wallet_locked: false,
            synced: false,
        }),
        outcome matches Some(o) ==> r == (NodeState::Observed {
            running: o.0 || o.1,
            wallet_locked: o.1,
            synced: o.2,
        }),
{
    match outcome {
        None => NodeState::Observed { running: false, wallet_locked: false, synced: false },
        Some((running, wallet_locked, synced)) => NodeState::Observed {
            running: running || wallet_locked,
            wallet_locked,
            synced,
        },
    }
}

/// What a pending invoice's state becomes after a check: `ACCEPTED`
/// where the check output names it, else `SETTLED` where named, else
/// nothing.
pub fn invoice_state_update(check_output: &str) -> (r: Option<String>)
    ensures
        contains_seq(check_output@, "\"state\": \"ACCEPTED\""@) ==> (r matches Some(s) && s@
            == "ACCEPTED"@),
        !contains_seq(check_output@, "\"state\": \"ACCEPTED\""@) && contains_seq(
            check_output@,
            "\"state\": \"SETTLED\""@,
        ) ==> (r matches Some(s) && s@ == "SETTLED"@),
        !contains_seq(check_output@, "\"state\": \"ACCEPTED\""@) && !contains_seq(
            check_output@,
            "\"state\": \"SETTLED\""@,
        ) ==> r is None,
{
    if str_contains(check_output, "\"state\": \"ACCEPTED\"") {
        Some("ACCEPTED".to_owned())
    } else if str_contains(check_output, "\"state\": \"SETTLED\"") {
        Some("SETTLED".to_owned())
    } else {
        None
    }
}

/// The sync line shown beside the node's name: the sync verdict, the
/// network, and the block height.
pub fn sync_status_text(synced: bool, network: &String, block_height: u64) -> (r: String)
    ensures
        r@ == (if synced {
            "Synced: "@
        } else {
            "Syncing: "@
        }) + network@ + " \n(h: "@ + dec_digits(block_height as nat) + ")"@,
{
    let mut r = if synced {
        "Synced: ".to_owned()
    } else {
        "Syncing: ".to_owned()
    };
    r.append(network.as_str());
    r.append(" \n(h: ");
    let height = u64_to_dec(block_height);
    r.append(height.as_str());
    r.append(")");
    proof {
        assert(r@ =~= (if synced {
            "Synced: "@
        } else {
            "Syncing: "@
        }) + network@ + " \n(h: "@ + dec_digits(block_height as nat) + ")"@);
    }
    r
}

} // verus!
