//! The decisions of the transfer test bed: its small SAM client, which
//! reads replies as plain `key=value` words and reports failures as text,
//! and the controls of the router and peer processes it runs.
use vstd::prelude::*;
use crate::proto::fields::Fields;
use crate::text::{
    bytes_contain, chars_of, contains, has_infix, split_whitespace, split_ws, string_of, trim,
    trimmed,
};

verus! {

/// A word split at its first `=`: the text before and the text after.
pub open spec fn split_at_eq(tok: Seq<char>) -> Option<(Seq<char>, Seq<char>)>
    decreases tok.len(),
{
    if tok.len() == 0 {
        None
    } else if tok[0] == '=' {
        Some((Seq::empty(), tok.skip(1)))
    } else {
        match split_at_eq(tok.skip(1)) {
            Some((k, v)) => Some((seq![tok[0]] + k, v)),
            None => None,
        }
    }
}

proof fn lemma_split_at_eq(tok: Seq<char>, k: int)
    requires
        0 <= k <= tok.len(),
        forall|j: int| 0 <= j < k ==> tok[j] != '=',
    ensures
        k < tok.len() && tok[k] == '=' ==> split_at_eq(tok) == Some(
            (tok.take(k), tok.skip(k + 1)),
        ),
        k == tok.len() ==> split_at_eq(tok) is None,
    decreases k,
{
    if k > 0 {
        let rest = tok.skip(1);
        lemma_split_at_eq(rest, k - 1);
        assert(seq![tok[0]] + rest.take(k - 1) =~= tok.take(k));
        if k < tok.len() {
            assert(rest.skip(k) =~= tok.skip(k + 1));
        }
    } else if tok.len() > 0 {
        assert(tok.take(0) =~= Seq::<char>::empty());
    }
}

/// The `key=value` words of a sequence of words, later words winning;
/// words without `=` are passed over.
pub open spec fn plain_fields_of(toks: Seq<Seq<char>>) -> Map<Seq<char>, Seq<char>>
    decreases toks.len(),
{
    if toks.len() == 0 {
        Map::empty()
    } else {
        let m = plain_fields_of(toks.drop_last());
        match split_at_eq(toks.last()) {
            Some((k, v)) => m.insert(k, v),
            None => m,
        }
    }
}

/// The `key=value` words of a reply line.
pub open spec fn plain_fields(line: Seq<char>) -> Map<Seq<char>, Seq<char>> {
    plain_fields_of(split_ws(line))
}

/// Reads the `key=value` words of a reply line, without quoting.
pub fn parse_plain_fields(line: &str) -> (f: Fields)
    ensures
        f.wf(),
        f@ == plain_fields(line@),
{
    let cs = chars_of(line);
    let toks = split_whitespace(&cs);
    let ghost tv = split_ws(cs@);
    let mut f = Fields::new();
    let mut i: usize = 0;
    while i < toks.len()
        invariant
            0 <= i <= toks@.len(),
            tv == split_ws(line@),
            tv == toks@.map_values(|t: Vec<char>| t@),
            f.wf(),
            f@ == plain_fields_of(tv.take(i as int)),
        decreases toks@.len() - i,
    {
        let tok = &toks[i];
        proof {
            assert(tv.take(i + 1).drop_last() =~= tv.take(i as int));
            assert(tv.take(i + 1).last() == tok@);
        }
        let mut k: usize = 0;
        while k < tok.len() && tok[k] != '='
            invariant
                0 <= k <= tok@.len(),
                forall|j: int| 0 <= j < k ==> tok@[j] != '=',
            decreases tok@.len() - k,
        {
            k += 1;
        }
        proof {
            lemma_split_at_eq(tok@, k as int);
        }
        if k < tok.len() {
            let key = string_of(tok, 0, k);
            let value = string_of(tok, k + 1, tok.len());
            assert(key@ == tok@.take(k as int));
            assert(value@ == tok@.skip(k + 1));
            f.insert(key, value);
        }
        i += 1;
    }
    assert(tv.take(toks@.len() as int) =~= tv);
    f
}

/// The test bed takes a `HELLO` reply that holds `HELLO REPLY` and
/// `RESULT=OK`; otherwise it fails with `HELLO failed: {line}`.
pub fn harness_hello(line: &str) -> (r: Result<(), String>)
    ensures
        r is Ok <==> has_infix(line@, "HELLO REPLY"@) && has_infix(line@, "RESULT=OK"@),
        r matches Err(m) ==> m@ == "HELLO failed: "@ + line@,
{
    if contains(line, "HELLO REPLY") && contains(line, "RESULT=OK") {
        Ok(())
    } else {
        let mut m = "HELLO failed: ".to_owned();
        m.append(line);
        Err(m)
    }
}

/// What the test bed makes of a `DEST GENERATE` reply: a `RESULT` other
/// than `OK` fails the command; otherwise it needs `PUB` and `PRIV`.
pub open spec fn harness_keys_outcome(line: Seq<char>) -> Result<(Seq<char>, Seq<char>), Seq<char>> {
    let m = plain_fields(line);
    if m.contains_key("RESULT"@) && m["RESULT"@] != "OK"@ {
        Err("DEST GENERATE failed: "@ + line)
    } else if !m.contains_key("PUB"@) {
        Err("DEST GENERATE without PUB: "@ + line)
    } else if !m.contains_key("PRIV"@) {
        Err("DEST GENERATE without PRIV: "@ + line)
    } else {
        Ok((m["PUB"@], m["PRIV"@]))
    }
}

/// Reads a `DEST GENERATE` reply into the public and private destination.
pub fn harness_dest_keys(line: &str) -> (r: Result<(String, String), String>)
    ensures
        match r {
            Ok((p, k)) => harness_keys_outcome(line@) == Ok::<(Seq<char>, Seq<char>), Seq<char>>(
                (p@, k@),
            ),
            Err(m) => harness_keys_outcome(line@) == Err::<(Seq<char>, Seq<char>), Seq<char>>(m@),
        },
{
    let f = parse_plain_fields(line);
    proof {
        reveal_strlit("OK");
    }
    let failed = match f.get("RESULT") {
        Some(v) => !crate::text::str_eq(v.as_str(), "OK"),
        None => false,
    };
    if failed {
        let mut m = "DEST GENERATE failed: ".to_owned();
        m.append(line);
        return Err(m);
    }
    let public = match f.get("PUB") {
        Some(p) => p.clone(),
        None => {
            let mut m = "DEST GENERATE without PUB: ".to_owned();
            m.append(line);
            return Err(m);
        },
    };
    let private = match f.get("PRIV") {
        Some(k) => k.clone(),
        None => {
            let mut m = "DEST GENERATE without PRIV: ".to_owned();
            m.append(line);
            return Err(m);
        },
    };
    Ok((public, private))
}

/// A reply to `command` succeeds when it holds `RESULT=OK` anywhere;
/// otherwise it fails with `{command} failed: {line}`.
pub fn harness_ensure_ok(line: &str, command: &str) -> (r: Result<(), String>)
    ensures
        r is Ok <==> has_infix(line@, "RESULT=OK"@),
        r matches Err(m) ==> m@ == command@ + " failed: "@ + line@,
{
    if contains(line, "RESULT=OK") {
        Ok(())
    } else {
        let mut m = command.to_owned();
        m.append(" failed: ");
        m.append(line);
        Err(m)
    }
}

/// A receiver tries to accept again when the sender closed the connection
/// before the size arrived: the error names a failed size read at end of
/// file.
pub fn accept_again(error: &str) -> (r: bool)
    ensures
        r == (has_infix(error@, "failed to read size:"@) && has_infix(error@, "EOF"@)),
{
    contains(error, "failed to read size:") && contains(error, "EOF")
}

/// A floodfill router has published itself once its router info holds the
/// bytes `Xf`.
pub fn floodfill_published(router_info: &[u8]) -> (r: bool)
    ensures
        r == has_infix(router_info@, seq![88u8, 102u8]),
{
    let pat: [u8; 2] = [88, 102];
    assert(pat@ =~= seq![88u8, 102u8]);
    bytes_contain(router_info, &pat)
}

/// An i2pd log that shows the router bootstrapped.
pub fn i2pd_bootstrapped(log: &str) -> (r: bool)
    ensures
        r == (has_infix(log@, "NetDbReq: Exploring new"@) || has_infix(
            log@,
            "Tunnel: all tunnels built"@,
        )),
{
    contains(log, "NetDbReq: Exploring new") || contains(log, "Tunnel: all tunnels built")
}

/// A GNUnet log that shows the core connected to a peer.
pub fn gnunet_log_connected(log: &str) -> (r: bool)
    ensures
        r == (has_infix(log@, "notification about connection"@) || has_infix(
            log@,
            "connection established"@,
        ) || has_infix(log@, "connected to"@)),
{
    contains(log, "notification about connection") || contains(log, "connection established")
        || contains(log, "connected to")
}

/// What std's `str::to_lowercase` makes of a text.
pub uninterp spec fn lowercase_text(s: Seq<char>) -> Seq<char>;

/// `str::to_lowercase`: the text in lower case.  Its result depends on the
/// text alone; what it is, the contract leaves to the name
/// `lowercase_text`.
#[verifier::external_body]
fn lowercase(s: &str) -> (r: String)
    ensures
        r@ == lowercase_text(s@),
{
    s.to_lowercase()
}

/// GNUnet core statistics that, in lower case, mention a neighbour or a
/// connection.
pub fn gnunet_stats_connected(stats: &str) -> (r: bool)
    ensures
        r == (has_infix(lowercase_text(stats@), "neighbour"@) || has_infix(
            lowercase_text(stats@),
            "connection"@,
        )),
{
    let low = lowercase(stats);
    contains(low.as_str(), "neighbour") || contains(low.as_str(), "connection")
}

/// The arguments of `ip` that run a GNUnet `tool` in the namespace `ns`
/// with the configuration `conf`, followed by `extra`.
pub open spec fn gnunet_args_text(
    ns: Seq<char>,
    tool: Seq<char>,
    conf: Seq<char>,
    extra: Seq<Seq<char>>,
) -> Seq<Seq<char>> {
    seq!["netns"@, "exec"@, ns, tool, "-c"@, conf] + extra
}

/// The strings held by a vector of strings.
pub open spec fn strings_view(v: Seq<String>) -> Seq<Seq<char>> {
    v.map_values(|s: String| s@)
}

/// The texts of a slice of string slices.
pub open spec fn strs_view(v: Seq<&str>) -> Seq<Seq<char>> {
    v.map_values(|s: &str| s@)
}

/// Builds the arguments of `ip` that run a GNUnet tool in a namespace.
pub fn gnunet_args(ns: &str, tool: &str, conf: &str, extra: &[&str]) -> (args: Vec<String>)
    ensures
        strings_view(args@) == gnunet_args_text(ns@, tool@, conf@, strs_view(extra@)),
{
    let mut args: Vec<String> = Vec::new();
    args.push("netns".to_owned());
    args.push("exec".to_owned());
    args.push(ns.to_owned());
    args.push(tool.to_owned());
    args.push("-c".to_owned());
    args.push(conf.to_owned());
    let ghost head = strings_view(args@);
    assert(head =~= seq!["netns"@, "exec"@, ns@, tool@, "-c"@, conf@]);
    let mut i: usize = 0;
    while i < extra.len()
        invariant
            0 <= i <= extra@.len(),
            strings_view(args@) == head + strs_view(extra@).take(i as int),
        decreases extra@.len() - i,
    {
        let a = extra[i].to_owned();
        assert(a@ == strs_view(extra@)[i as int]);
        let ghost prev = args@;
        args.push(a);
        assert(strings_view(args@) =~= strings_view(prev).push(a@));
        assert(strs_view(extra@).take(i + 1) =~= strs_view(extra@).take(i as int).push(a@));
        i += 1;
        assert(strings_view(args@) =~= head + strs_view(extra@).take(i as int));
    }
    assert(strs_view(extra@).take(extra@.len() as int) =~= strs_view(extra@));
    args
}

/// The outcome of exporting a peer's HELLO: its trimmed output, or
/// `failed to export hello: {stderr}`.
pub fn exported_hello(success: bool, stdout: &str, stderr: &str) -> (r: Result<String, String>)
    ensures
        match r {
            Ok(h) => success && h@ == trim(stdout@),
            Err(m) => !success && m@ == "failed to export hello: "@ + stderr@,
        },
{
    if !success {
        let mut m = "failed to export hello: ".to_owned();
        m.append(stderr);
        return Err(m);
    }
    Ok(trimmed(stdout))
}

/// The outcome of importing a HELLO: fine, or
/// `failed to import hello: {stderr}`.
pub fn imported_hello(success: bool, stderr: &str) -> (r: Result<(), String>)
    ensures
        r is Ok <==> success,
        r matches Err(m) ==> m@ == "failed to import hello: "@ + stderr@,
{
    if !success {
        let mut m = "failed to import hello: ".to_owned();
        m.append(stderr);
        return Err(m);
    }
    Ok(())
}

/// The arguments of `ip` that start i2pd in the namespace `ns`.
pub open spec fn i2pd_args_text(
    ns: Seq<char>,
    data_dir: Seq<char>,
    conf: Seq<char>,
    ip: Seq<char>,
    log_file: Seq<char>,
    floodfill: bool,
) -> Seq<Seq<char>> {
    seq![
        "netns"@,
        "exec"@,
        ns,
        "i2pd"@,
        "--datadir="@ + data_dir,
        "--conf="@ + conf,
        "--address4="@ + ip,
        "--loglevel=info"@,
        "--log=file"@,
        "--logfile="@ + log_file,
        "--daemon"@,
    ] + if floodfill {
        seq!["--floodfill"@]
    } else {
        Seq::empty()
    }
}

fn prefixed(prefix: &str, s: &str) -> (r: String)
    ensures
        r@ == prefix@ + s@,
{
    let mut r = prefix.to_owned();
    r.append(s);
    r
}

/// Builds the arguments of `ip` that start an i2pd router.
pub fn i2pd_args(
    ns: &str,
    data_dir: &str,
    conf: &str,
    ip: &str,
    log_file: &str,
    floodfill: bool,
) -> (args: Vec<String>)
    ensures
        strings_view(args@) == i2pd_args_text(ns@, data_dir@, conf@, ip@, log_file@, floodfill),
{
    let mut args: Vec<String> = Vec::new();
    args.push("netns".to_owned());
    args.push("exec".to_owned());
    args.push(ns.to_owned());
    args.push("i2pd".to_owned());
    args.push(prefixed("--datadir=", data_dir));
    args.push(prefixed("--conf=", conf));
    args.push(prefixed("--address4=", ip));
    args.push("--loglevel=info".to_owned());
    args.push("--log=file".to_owned());
    args.push(prefixed("--logfile=", log_file));
    args.push("--daemon".to_owned());
    if floodfill {
        args.push("--floodfill".to_owned());
    }
    assert(strings_view(args@) =~= i2pd_args_text(
        ns@,
        data_dir@,
        conf@,
        ip@,
        log_file@,
        floodfill,
    ));
    args
}

} // verus!
