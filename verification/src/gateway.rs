//! The CLI gateway's decidable half. Spawning the node CLI is the
//! caller's work; what stands here is everything that can be pinned
//! down: how an invocation's outcome is classified into success or a
//! [`CliError`], and the exact argument lists each operation hands to
//! the CLI binary.

use vstd::prelude::*;
use vstd::string::StringSliceAdditionalSpecFns;
use crate::errors::CliError;
use crate::hexstr::{hex_encode, hex_of};
use crate::numtext::{dec_digits, u64_to_dec};

verus! {

/// The views of a sequence of strings.
pub open spec fn string_views(v: Seq<String>) -> Seq<Seq<char>> {
    v.map_values(|s: String| s@)
}

/// Classifies one CLI invocation. A spawn failure carries the operating
/// system's report; a non-zero exit carries the captured standard-error
/// text; success hands back standard output as it was captured.
pub fn classify_cli_result(
    spawn_error: Option<String>,
    exit_ok: bool,
    stdout: String,
    stderr: String,
) -> (r: Result<String, CliError>)
    ensures
        spawn_error matches Some(e) ==> (r matches Err(c) && c matches CliError::SpawnFailed(m)
            && m@ == e@),
        spawn_error is None && exit_ok ==> (r matches Ok(out) && out@ == stdout@),
        spawn_error is None && !exit_ok ==> (r matches Err(c) && c matches CliError::CommandFailed(
            m,
        ) && m@ == stderr@),
{
    match spawn_error {
        Some(e) => Err(CliError::SpawnFailed(e)),
        None => {
            if exit_ok {
                Ok(stdout)
            } else {
                Err(CliError::CommandFailed(stderr))
            }
        },
    }
}

/// The flags every direct CLI invocation starts with: the testnet
/// network, the local RPC endpoint, and no authentication, followed by
/// the certificate flag when a certificate path is at hand, and then the
/// operation's own arguments.
pub fn lncli_invocation(tls_cert_path: Option<&String>, args: &Vec<String>) -> (r: Vec<String>)
    ensures
        string_views(r@) =~= seq![
            "--network=testnet"@,
            "--rpcserver=127.0.0.1:10009"@,
            "--no-macaroons"@,
            "--insecure"@,
        ] + (match tls_cert_path {
            Some(p) => seq!["--tlscertpath="@ + p@],
            None => Seq::<Seq<char>>::empty(),
        }) + string_views(args@),
{
    let mut r: Vec<String> = Vec::new();
    r.push("--network=testnet".to_owned());
    r.push("--rpcserver=127.0.0.1:10009".to_owned());
    r.push("--no-macaroons".to_owned());
    r.push("--insecure".to_owned());
    match tls_cert_path {
        Some(p) => {
            let mut flag = "--tlscertpath=".to_owned();
            flag.append(p.as_str());
            r.push(flag);
        },
        None => {},
    }
    let mut i: usize = 0;
    while i < args.len()
        invariant
            0 <= i <= args@.len(),
            string_views(r@) =~= seq![
                "--network=testnet"@,
                "--rpcserver=127.0.0.1:10009"@,
                "--no-macaroons"@,
                "--insecure"@,
            ] + (match tls_cert_path {
                Some(p) => seq!["--tlscertpath="@ + p@],
                None => Seq::<Seq<char>>::empty(),
            }) + string_views(args@.take(i as int)),
        decreases args@.len() - i,
    {
        let ghost prev = r@;
        r.push(args[i].clone());
        proof {
            assert(r@ == prev.push(args@[i as int]));
            assert(string_views(r@) =~= string_views(prev).push(args@[i as int]@));
            assert(string_views(args@.take(i + 1)) =~= string_views(args@.take(i as int)).push(
                args@[i as int]@,
            ));
        }
        i = i + 1;
    }
    proof {
        assert(args@.take(args@.len() as int) =~= args@);
    }
    r
}

/// The network selection arguments of an invocation: `--network` and the
/// network's name.
pub fn network_args(network: &String) -> (r: Vec<String>)
    ensures
        string_views(r@) =~= seq!["--network"@, network@],
{
    let mut r: Vec<String> = Vec::new();
    r.push("--network".to_owned());
    r.push(network.clone());
    r
}

/// The arguments that create a hold invoice for a payment hash: the
/// hash itself, then the amount and the memo.
pub fn hold_invoice_args(preimage_h: &String, amount: &String, memo: &String) -> (r: Vec<String>)
    ensures
        string_views(r@) =~= seq!["addholdinvoice"@, preimage_h@, "--amt"@, amount@, "--memo"@, memo@],
{
    let mut r: Vec<String> = Vec::new();
    r.push("addholdinvoice".to_owned());
    r.push(preimage_h.clone());
    r.push("--amt".to_owned());
    r.push(amount.clone());
    r.push("--memo".to_owned());
    r.push(memo.clone());
    r
}

/// The arguments that create a standard invoice.
pub fn standard_invoice_args(amount: &String, memo: &String) -> (r: Vec<String>)
    ensures
        string_views(r@) =~= seq!["addinvoice"@, "--amt"@, amount@, "--memo"@, memo@],
{
    let mut r: Vec<String> = Vec::new();
    r.push("addinvoice".to_owned());
    r.push("--amt".to_owned());
    r.push(amount.clone());
    r.push("--memo".to_owned());
    r.push(memo.clone());
    r
}

/// The arguments that settle a hold invoice by revealing its preimage.
pub fn settle_args(preimage_x: &String) -> (r: Vec<String>)
    ensures
        string_views(r@) =~= seq!["settleinvoice"@, preimage_x@],
{
    let mut r: Vec<String> = Vec::new();
    r.push("settleinvoice".to_owned());
    r.push(preimage_x.clone());
    r
}

/// The arguments that decode a payment request.
pub fn decodepayreq_args(payment_request: &String) -> (r: Vec<String>)
    ensures
        string_views(r@) =~= seq!["decodepayreq"@, payment_request@],
{
    let mut r: Vec<String> = Vec::new();
    r.push("decodepayreq".to_owned());
    r.push(payment_request.clone());
    r
}

/// A peer's connection address: `pubkey@host:port`.
pub fn peer_address(pubkey: &String, host: &String, port: u16) -> (r: String)
    ensures
        r@ == pubkey@ + "@"@ + host@ + ":"@ + dec_digits(port as nat),
{
    let mut r = pubkey.clone();
    r.append("@");
    r.append(host.as_str());
    r.append(":");
    let port_text = u64_to_dec(port as u64);
    r.append(port_text.as_str());
    proof {
        assert(r@ =~= pubkey@ + "@"@ + host@ + ":"@ + dec_digits(port as nat));
    }
    r
}

/// The arguments that connect to a peer at an address.
pub fn connect_args(address: &String) -> (r: Vec<String>)
    ensures
        string_views(r@) =~= seq!["connect"@, address@],
{
    let mut r: Vec<String> = Vec::new();
    r.push("connect".to_owned());
    r.push(address.clone());
    r
}

/// The arguments that open a channel with a peer for an amount of
/// satoshis.
pub fn open_channel_args(pub_key: &String, amount: u32) -> (r: Vec<String>)
    ensures
        string_views(r@) =~= seq!["openchannel"@, pub_key@, dec_digits(amount as nat)],
{
    let mut r: Vec<String> = Vec::new();
    r.push("openchannel".to_owned());
    r.push(pub_key.clone());
    r.push(u64_to_dec(amount as u64));
    r
}

/// A message's payload as the CLI wants it: the hex encoding of its
/// bytes.
pub fn message_hex(message: &str) -> (r: String)
    ensures
        r@ == hex_of(message.spec_bytes()),
{
    let bytes = message.as_bytes_vec();
    hex_encode(&bytes)
}

/// The arguments that send a custom peer-to-peer message: the peer's
/// identity key and the hex-encoded payload, with the fixed custom
/// message type.
pub fn custom_message_args(message: &str, identity_pubkey: &String) -> (r: Vec<String>)
    ensures
        string_views(r@) =~= seq![
            "sendcustom"@,
            "--peer"@,
            identity_pubkey@,
            "--data"@,
            hex_of(message.spec_bytes()),
            "--type"@,
            "32768"@,
        ],
{
    let mut r: Vec<String> = Vec::new();
    r.push("sendcustom".to_owned());
    r.push("--peer".to_owned());
    r.push(identity_pubkey.clone());
    r.push("--data".to_owned());
    r.push(message_hex(message));
    r.push("--type".to_owned());
    r.push("32768".to_owned());
    r
}

} // verus!
