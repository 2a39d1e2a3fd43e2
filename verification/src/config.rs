//! Reading the daemon's configuration text. The caller loads `lit.conf`
//! from disk; splitting it into lines, spotting `rpclisten=` entries and
//! taking the last one's host and port is verified here. Certificate and
//! macaroon paths depend on what exists on disk, so the caller fills
//! them in afterwards.

use vstd::prelude::*;
use crate::gateway::string_views;
use crate::numtext::{parse_u64, u64_text_value};
use crate::records::LndConnection;
use crate::strutil::{before_char, lemma_before_char_len, lemma_no_stop_before_char,
    lemma_split_is_before_char, occurs_at, split_at_first, str_starts_with};

verus! {

/// A line with its trailing carriage return removed.
pub open spec fn strip_cr(l: Seq<char>) -> Seq<char> {
    if l.len() > 0 && l.last() == '\r' {
        l.drop_last()
    } else {
        l
    }
}

/// The lines of a text: split on newlines, each stripped of a trailing
/// carriage return, with no empty line after a trailing newline.
pub open spec fn split_lines_spec(s: Seq<char>) -> Seq<Seq<char>>
    decreases s.len(),
    via split_lines_spec_decreases
{
    if s.len() == 0 {
        Seq::<Seq<char>>::empty()
    } else {
        let l = before_char(s, '\n');
        if l.len() == s.len() {
            seq![strip_cr(l)]
        } else {
            seq![strip_cr(l)] + split_lines_spec(s.subrange(l.len() + 1 as int, s.len() as int))
        }
    }
}

#[via_fn]
proof fn split_lines_spec_decreases(s: Seq<char>) {
    lemma_before_char_len(s, '\n');
}

/// A line stripped of its carriage return.
fn strip_cr_exec(line: &str) -> (r: String)
    ensures
        r@ == strip_cr(line@),
{
    let len = line.unicode_len();
    if len > 0 && line.get_char(len - 1) == '\r' {
        let r = line.substring_char(0, len - 1).to_owned();
        proof {
            assert(r@ =~= line@.drop_last());
        }
        r
    } else {
        line.to_owned()
    }
}

/// Splits a text into its lines.
fn split_lines(s: &str) -> (r: Vec<String>)
    ensures
        string_views(r@) == split_lines_spec(s@),
    decreases s@.len(),
{
    let len = s.unicode_len();
    if len == 0 {
        let r: Vec<String> = Vec::new();
        proof {
            assert(string_views(r@) =~= split_lines_spec(s@));
        }
        return r;
    }
    match split_at_first(s, '\n') {
        None => {
            proof {
                lemma_no_stop_before_char(s@, '\n');
            }
            let mut r: Vec<String> = Vec::new();
            r.push(strip_cr_exec(s));
            proof {
                assert(string_views(r@) =~= split_lines_spec(s@));
            }
            r
        },
        Some((line, rest)) => {
            proof {
                lemma_split_is_before_char(s@, line@, rest@, '\n');
                lemma_before_char_len(s@, '\n');
                assert(rest@ =~= s@.subrange(line@.len() + 1 as int, s@.len() as int));
            }
            let mut r: Vec<String> = Vec::new();
            r.push(strip_cr_exec(line.as_str()));
            let mut tail = split_lines(rest.as_str());
            let ghost head = r@;
            let ghost tail_snapshot = tail@;
            r.append(&mut tail);
            proof {
                assert(r@ == head + tail_snapshot);
                assert(string_views(r@) =~= string_views(head) + string_views(tail_snapshot));
                assert(string_views(r@) =~= split_lines_spec(s@));
            }
            r
        },
    }
}

/// The host and port an `rpclisten=` line names: the text after the key
/// up to the first colon, and the decimal port after it, if it fits.
pub open spec fn line_host_port(line: Seq<char>) -> Option<(Seq<char>, u16)> {
    if line.len() >= "rpclisten="@.len() && occurs_at(line, "rpclisten="@, 0) {
        let rest = line.subrange("rpclisten="@.len() as int, line.len() as int);
        if exists|j: int| 0 <= j < rest.len() && rest[j] == ':' {
            let host = before_char(rest, ':');
            let ptext = rest.subrange(host.len() + 1 as int, rest.len() as int);
            match u64_text_value(ptext) {
                Some(v) => if v <= 65535 {
                    Some((host, v as u16))
                } else {
                    None
                },
                None => None,
            }
        } else {
            None
        }
    } else {
        None
    }
}

/// Reads one configuration line: the host and port where the line is a
/// well-formed `rpclisten=` entry.
fn read_rpclisten_line(line: &str) -> (r: Option<(String, u16)>)
    ensures
        r matches Some(p) ==> line_host_port(line@) == Some((p.0@, p.1)),
        r is None ==> line_host_port(line@) is None,
{
    if !str_starts_with(line, "rpclisten=") {
        return None;
    }
    let plen = "rpclisten=".unicode_len();
    let len = line.unicode_len();
    let rest = line.substring_char(plen, len);
    proof {
        assert(rest@ =~= line@.subrange("rpclisten="@.len() as int, line@.len() as int));
    }
    match split_at_first(rest, ':') {
        None => {
            proof {
                assert(forall|j: int| 0 <= j < rest@.len() ==> rest@[j] != ':');
            }
            None
        },
        Some((host, ptext)) => {
            proof {
                lemma_split_is_before_char(rest@, host@, ptext@, ':');
                lemma_before_char_len(rest@, ':');
                assert(rest@[host@.len() as int] == ':');
                assert(ptext@ =~= rest@.subrange(host@.len() + 1 as int, rest@.len() as int));
            }
            match parse_u64(ptext.as_str()) {
                Some(v) => {
                    if v <= 65535 {
                        Some((host, v as u16))
                    } else {
                        None
                    }
                },
                None => None,
            }
        },
    }
}

/// The host and port the configuration settles on: those of the last
/// well-formed `rpclisten=` line, if any.
pub open spec fn config_host_port(lines: Seq<Seq<char>>) -> Option<(Seq<char>, u16)>
    decreases lines.len(),
{
    if lines.len() == 0 {
        None
    } else {
        match line_host_port(lines.last()) {
            Some(hp) => Some(hp),
            None => config_host_port(lines.drop_last()),
        }
    }
}

/// Builds the connection description a configuration text names: the
/// last `rpclisten=` entry's host and port, or the local defaults where
/// the text names none. Certificate and macaroon paths are left empty
/// for the caller to fill from the data directory.
pub fn connection_from_config_text(content: &str) -> (r: LndConnection)
    ensures
        match config_host_port(split_lines_spec(content@)) {
            Some(hp) => r.host@ == hp.0 && r.port == hp.1,
            None => r.host@ == "127.0.0.1"@ && r.port == 10009,
        },
        r.cert_path@ == Seq::<char>::empty(),
        r.macaroon_path@ == Seq::<char>::empty(),
{
    let lines = split_lines(content);
    let ghost lviews = split_lines_spec(content@);
    let mut conn = LndConnection::default();
    let mut found: bool = false;
    let mut i: usize = 0;
    while i < lines.len()
        invariant
            0 <= i <= lines@.len(),
            string_views(lines@) == lviews,
            conn.cert_path@ == Seq::<char>::empty(),
            conn.macaroon_path@ == Seq::<char>::empty(),
            match config_host_port(lviews.take(i as int)) {
                Some(hp) => found && conn.host@ == hp.0 && conn.port == hp.1,
                None => !found && conn.host@ == "127.0.0.1"@ && conn.port == 10009,
            },
        decreases lines@.len() - i,
    {
        match read_rpclisten_line(lines[i].as_str()) {
            Some((host, port)) => {
                conn.host = host;
                conn.port = port;
                found = true;
            },
            None => {},
        }
        proof {
            assert(lviews.take(i + 1).drop_last() =~= lviews.take(i as int));
            assert(lviews.take(i + 1).last() == lines@[i as int]@);
        }
        i = i + 1;
    }
    proof {
        assert(lviews.take(lines@.len() as int) =~= lviews);
    }
    conn
}


/// The index of the first candidate that exists, if any.
pub open spec fn spec_first_existing(c: Seq<(String, bool)>) -> Option<int>
    decreases c.len(),
{
    if c.len() == 0 {
        None
    } else if c.first().1 {
        Some(0)
    } else {
        match spec_first_existing(c.drop_first()) {
            Some(i) => Some(i + 1),
            None => None,
        }
    }
}

/// The first existing candidate is the first index whose flag is set.
proof fn lemma_first_existing_characterization(c: Seq<(String, bool)>, i: int)
    requires
        0 <= i <= c.len(),
        forall|j: int| 0 <= j < i ==> !(#[trigger] c[j]).1,
        i < c.len() ==> c[i].1,
    ensures
        if i < c.len() {
            spec_first_existing(c) == Some(i)
        } else {
            spec_first_existing(c) is None
        },
    decreases c.len(),
{
    if c.len() == 0 {
    } else if i == 0 {
    } else {
        assert(!c[0].1);
        assert(forall|j: int|
            0 <= j < i - 1 ==> #[trigger] c.drop_first()[j] == c[j + 1] && !c[j + 1].1);
        if i < c.len() {
            assert(c.drop_first()[i - 1] == c[i]);
        }
        lemma_first_existing_characterization(c.drop_first(), i - 1);
    }
}

/// Picks the first candidate path that exists, or the default where none
/// does. The caller probes the file system and hands each candidate in
/// with its existence flag.
pub fn select_first_existing(candidates: &Vec<(String, bool)>, dflt: &String) -> (r: String)
    ensures
        spec_first_existing(candidates@) matches Some(i) ==> r@ == candidates@[i].0@,
        spec_first_existing(candidates@) is None ==> r@ == dflt@,
{
    let mut i: usize = 0;
    while i < candidates.len()
        invariant
            0 <= i <= candidates@.len(),
            forall|j: int| 0 <= j < i ==> !(#[trigger] candidates@[j]).1,
        decreases candidates@.len() - i,
    {
        if candidates[i].1 {
            proof {
                lemma_first_existing_characterization(candidates@, i as int);
            }
            return candidates[i].0.clone();
        }
        i = i + 1;
    }
    proof {
        lemma_first_existing_characterization(candidates@, candidates@.len() as int);
    }
    dflt.clone()
}

/// The paths the daemon's files live under for a given home directory:
/// the Lit directory itself, the TLS certificate, and the configuration
/// file.
pub fn lit_paths(home: &str) -> (r: (String, String, String))
    ensures
        r.0@ == home@ + "/AppData/Local/Lit"@,
        r.1@ == home@ + "/AppData/Local/Lit/tls.cert"@,
        r.2@ == home@ + "/AppData/Local/Lit/lit.conf"@,
{
    let mut lit_dir = home.to_owned();
    lit_dir.append("/AppData/Local/Lit");
    let mut cert = lit_dir.clone();
    cert.append("/tls.cert");
    let mut conf = lit_dir.clone();
    conf.append("/lit.conf");
    proof {
        reveal_strlit("/AppData/Local/Lit");
        reveal_strlit("/tls.cert");
        reveal_strlit("/lit.conf");
        reveal_strlit("/AppData/Local/Lit/tls.cert");
        reveal_strlit("/AppData/Local/Lit/lit.conf");
        assert(cert@ =~= home@ + "/AppData/Local/Lit/tls.cert"@);
        assert(conf@ =~= home@ + "/AppData/Local/Lit/lit.conf"@);
    }
    (lit_dir, cert, conf)
}

/// The macaroon paths tried under a Lit directory, most specific first.
pub fn macaroon_candidates(lit_dir: &str) -> (r: Vec<String>)
    ensures
        string_views(r@) =~= seq![
            lit_dir@ + "/testnet/lit.macaroon"@,
            lit_dir@ + "/testnet/admin.macaroon"@,
            lit_dir@ + "/testnet/readonly.macaroon"@,
            lit_dir@ + "/testnet/data/chain/bitcoin/testnet/admin.macaroon"@,
        ],
{
    let mut r: Vec<String> = Vec::new();
    let mut p = lit_dir.to_owned();
    p.append("/testnet/lit.macaroon");
    r.push(p);
    let mut p = lit_dir.to_owned();
    p.append("/testnet/admin.macaroon");
    r.push(p);
    let mut p = lit_dir.to_owned();
    p.append("/testnet/readonly.macaroon");
    r.push(p);
    let mut p = lit_dir.to_owned();
    p.append("/testnet/data/chain/bitcoin/testnet/admin.macaroon");
    r.push(p);
    r
}

/// The configuration written for a first run: a local web listener, a
/// placeholder password to change, and an integrated testnet neutrino
/// node.
pub fn default_litd_config() -> (r: String)
    ensures
        r@ == "httpslisten=0.0.0.0:8443\nuipassword=password_change_me\nlnd-mode=integrated\nlnd.bitcoin.active=1\nlnd.bitcoin.testnet=1\nlnd.bitcoin.node=neutrino\nlnd.feeurl=https://nodes.lightning.computer/fees/v1/btc-fee-estimates.json\nlnd.protocol.option-scid-alias=true\nlnd.protocol.zero-conf=true\n"@,
{
    "httpslisten=0.0.0.0:8443\nuipassword=password_change_me\nlnd-mode=integrated\nlnd.bitcoin.active=1\nlnd.bitcoin.testnet=1\nlnd.bitcoin.node=neutrino\nlnd.feeurl=https://nodes.lightning.computer/fees/v1/btc-fee-estimates.json\nlnd.protocol.option-scid-alias=true\nlnd.protocol.zero-conf=true\n".to_owned()
}

} // verus!
