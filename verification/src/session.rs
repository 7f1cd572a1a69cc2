//! Destinations, keys and key files, and the plain data of clients and
//! listeners.
use vstd::prelude::*;
use crate::error::SamError;
use crate::proto::response::{check_outcome, check_result, unit_outcome};
use crate::text::{chars_of, seqs_of, starts_with, string_of, trim_end, trimmed_end};

verus! {

/// The signature type used for new destinations.
pub const DEFAULT_SIGNATURE_TYPE: &'static str = "7";

/// The tunnel options of the test network: zero hops, two tunnels each
/// way, no backups.
pub const SAM_TUNNEL_OPTIONS: [(&'static str, &'static str); 8] = [
    ("inbound.length", "0"),
    ("outbound.length", "0"),
    ("inbound.lengthVariance", "0"),
    ("outbound.lengthVariance", "0"),
    ("inbound.backupQuantity", "0"),
    ("outbound.backupQuantity", "0"),
    ("inbound.quantity", "2"),
    ("outbound.quantity", "2"),
];

/// A public I2P destination, in the bridge's base64 form.
#[derive(Debug, Clone, PartialEq, Eq, Hash)]
pub struct Destination(String);

impl View for Destination {
    type V = Seq<char>;

    closed spec fn view(&self) -> Seq<char> {
        self.0@
    }
}

impl Destination {
    /// A destination with the given text.
    pub fn new(value: &str) -> (d: Self)
        ensures
            d@ == value@,
    {
        Destination(value.to_owned())
    }

    /// The destination's text.
    pub fn as_str(&self) -> (s: &str)
        ensures
            s@ == self@,
    {
        self.0.as_str()
    }

    /// The destination's text, taken out.
    pub fn into_string(self) -> (s: String)
        ensures
            s@ == self@,
    {
        self.0
    }
}

impl From<String> for Destination {
    fn from(value: String) -> (d: Self) {
        Destination(value)
    }
}

impl vstd::std_specs::convert::FromSpecImpl<String> for Destination {
    open spec fn obeys_from_spec() -> bool {
        true
    }

    closed spec fn from_spec(value: String) -> Self {
        Destination(value)
    }
}

/// The private key of a destination, in the bridge's base64 form.
#[derive(Debug, Clone, PartialEq, Eq)]
pub struct PrivateKey(String);

impl View for PrivateKey {
    type V = Seq<char>;

    closed spec fn view(&self) -> Seq<char> {
        self.0@
    }
}

impl PrivateKey {
    /// A private key with the given text.
    pub fn new(value: &str) -> (k: Self)
        ensures
            k@ == value@,
    {
        PrivateKey(value.to_owned())
    }

    /// The key's text.
    pub fn as_str(&self) -> (s: &str)
        ensures
            s@ == self@,
    {
        self.0.as_str()
    }

    /// The key's text, taken out.
    pub fn into_string(self) -> (s: String)
        ensures
            s@ == self@,
    {
        self.0
    }
}

impl From<String> for PrivateKey {
    fn from(value: String) -> (k: Self) {
        PrivateKey(value)
    }
}

impl vstd::std_specs::convert::FromSpecImpl<String> for PrivateKey {
    open spec fn obeys_from_spec() -> bool {
        true
    }

    closed spec fn from_spec(value: String) -> Self {
        PrivateKey(value)
    }
}

/// A destination together with its private key.
#[derive(Debug, Clone, PartialEq, Eq)]
pub struct Keys {
    public: Destination,
    private: PrivateKey,
}

impl View for Keys {
    type V = (Seq<char>, Seq<char>);

    closed spec fn view(&self) -> (Seq<char>, Seq<char>) {
        (self.public@, self.private@)
    }
}

impl Keys {
    /// Keys with the given destination and private key.
    pub fn new(public: &str, private: &str) -> (k: Self)
        ensures
            k@ == (public@, private@),
    {
        Keys { public: Destination::new(public), private: PrivateKey::new(private) }
    }

    /// Keys from a destination and a private key already made.
    pub fn from_parts(public: Destination, private: PrivateKey) -> (k: Self)
        ensures
            k@ == (public@, private@),
    {
        Keys { public, private }
    }

    /// The public destination.
    pub fn destination(&self) -> (d: &Destination)
        ensures
            d@ == self@.0,
    {
        &self.public
    }

    /// The private key.
    pub fn private_key(&self) -> (k: &PrivateKey)
        ensures
            k@ == self@.1,
    {
        &self.private
    }

    /// The same private key with another public destination.
    pub fn with_destination(self, destination: Destination) -> (k: Self)
        ensures
            k@ == (destination@, self@.1),
    {
        Keys { public: destination, private: self.private }
    }

    /// The text of a key file: `PUB={destination}` and `PRIV={private key}`
    /// on lines of their own.
    pub fn to_keyfile(&self) -> (s: String)
        ensures
            s@ == keyfile_text(self@.0, self@.1),
    {
        let mut s = "PUB=".to_owned();
        s.append(self.public.as_str());
        s.append("\nPRIV=");
        s.append(self.private.as_str());
        s.append("\n");
        s
    }

    /// The keys that a key file holds: those its `PUB=` and `PRIV=` lines
    /// name, or, when it lacks one of them, an empty destination and the
    /// whole text without trailing whitespace as the private key.
    pub fn from_keyfile(contents: &str) -> (k: Self)
        ensures
            k@ == keyfile_keys(contents@),
    {
        match parse_keyfile(contents) {
            Some(keys) => keys,
            None => {
                let private = trimmed_end(contents);
                proof {
                    reveal_strlit("");
                }
                Keys::new("", private.as_str())
            },
        }
    }
}

/// The text that [`Keys::to_keyfile`] writes.
pub open spec fn keyfile_text(public: Seq<char>, private: Seq<char>) -> Seq<char> {
    "PUB="@ + public + "\nPRIV="@ + private + "\n"@
}

/// Splitting a prefix at newlines: the lines ended so far and the line
/// being read.
pub open spec fn newline_state(s: Seq<char>) -> (Seq<Seq<char>>, Seq<char>)
    decreases s.len(),
{
    if s.len() == 0 {
        (Seq::empty(), Seq::empty())
    } else {
        let (done, cur) = newline_state(s.drop_last());
        if s.last() == '\n' {
            (done.push(cur), Seq::empty())
        } else {
            (done, cur.push(s.last()))
        }
    }
}

/// A line that a newline ended, without a carriage return before the
/// newline.
pub open spec fn strip_cr(l: Seq<char>) -> Seq<char> {
    if l.len() > 0 && l.last() == '\r' {
        l.drop_last()
    } else {
        l
    }
}

/// Each line without its carriage return.
pub open spec fn strip_all(ls: Seq<Seq<char>>) -> Seq<Seq<char>> {
    ls.map_values(|l: Seq<char>| strip_cr(l))
}

/// The lines of a text, as `str::lines` yields them: split at `\n`, a
/// `\r` before the `\n` dropped, and no empty line after a final newline.
pub open spec fn text_lines(s: Seq<char>) -> Seq<Seq<char>> {
    let (done, cur) = newline_state(s);
    let ended = strip_all(done);
    if cur.len() > 0 {
        ended.push(cur)
    } else {
        ended
    }
}

/// What the lines of a key file name: the text after the last `PUB=` and
/// the text after the last `PRIV=`.
pub open spec fn keyfile_scan(lines: Seq<Seq<char>>) -> (Option<Seq<char>>, Option<Seq<char>>)
    decreases lines.len(),
{
    if lines.len() == 0 {
        (None, None)
    } else {
        let (p, k) = keyfile_scan(lines.drop_last());
        let l = lines.last();
        if l.len() >= 4 && l.take(4) == "PUB="@ {
            (Some(l.skip(4)), k)
        } else if l.len() >= 5 && l.take(5) == "PRIV="@ {
            (p, Some(l.skip(5)))
        } else {
            (p, k)
        }
    }
}

/// The keys a key file names, when it names both parts.
pub open spec fn keyfile_parse(contents: Seq<char>) -> Option<(Seq<char>, Seq<char>)> {
    match keyfile_scan(text_lines(contents)) {
        (Some(p), Some(k)) => Some((p, k)),
        _ => None,
    }
}

/// The keys of a key file, with the private-key-only fallback.
pub open spec fn keyfile_keys(contents: Seq<char>) -> (Seq<char>, Seq<char>) {
    match keyfile_parse(contents) {
        Some(keys) => keys,
        None => (Seq::empty(), trim_end(contents)),
    }
}

fn without_cr(l: &Vec<char>) -> (r: Vec<char>)
    ensures
        r@ == strip_cr(l@),
{
    let n = if l.len() > 0 && l[l.len() - 1] == '\r' {
        l.len() - 1
    } else {
        l.len()
    };
    let mut r: Vec<char> = Vec::new();
    let mut q: usize = 0;
    while q < n
        invariant
            0 <= q <= n <= l@.len(),
            n == l@.len() || (n == l@.len() - 1 && l@.last() == '\r'),
            r@ == l@.take(q as int),
        decreases n - q,
    {
        r.push(l[q]);
        q += 1;
        assert(r@ =~= l@.take(q as int));
    }
    assert(r@ =~= strip_cr(l@));
    r
}

/// Splits `cs` into its lines.
fn split_lines(cs: &Vec<char>) -> (ls: Vec<Vec<char>>)
    ensures
        seqs_of(ls@) == text_lines(cs@),
{
    let mut done: Vec<Vec<char>> = Vec::new();
    let mut cur: Vec<char> = Vec::new();
    let mut i: usize = 0;
    while i < cs.len()
        invariant
            0 <= i <= cs@.len(),
            (seqs_of(done@), cur@) == newline_state(cs@.take(i as int)),
        decreases cs@.len() - i,
    {
        proof {
            assert(cs@.take(i + 1).drop_last() == cs@.take(i as int));
        }
        if cs[i] == '\n' {
            let line = cur;
            done.push(line);
            cur = Vec::new();
        } else {
            cur.push(cs[i]);
        }
        i += 1;
        proof {
            assert(seqs_of(done@) =~= newline_state(cs@.take(i as int)).0);
        }
    }
    assert(cs@.take(cs@.len() as int) == cs@);
    let ghost raw = seqs_of(done@);
    let mut ls: Vec<Vec<char>> = Vec::new();
    let mut j: usize = 0;
    while j < done.len()
        invariant
            0 <= j <= done@.len(),
            raw == seqs_of(done@),
            seqs_of(ls@) == strip_all(raw.take(j as int)),
        decreases done@.len() - j,
    {
        let l = &done[j];
        let stripped = without_cr(l);
        assert(raw[j as int] == l@);
        let ghost prev = ls@;
        assert(raw.len() == done@.len());
        assert(strip_all(raw.take(j as int)).len() == j);
        assert(prev.len() == j);
        ls.push(stripped);
        j += 1;
        assert(ls@ == prev.push(stripped));
        assert forall|k: int| 0 <= k < j implies #[trigger] ls@[k]@ == strip_cr(raw[k]) by {
            if k < j - 1 {
                assert(seqs_of(prev)[k] == strip_all(raw.take(j - 1))[k]);
            }
        }
        assert(seqs_of(ls@) =~= strip_all(raw.take(j as int)));
    }
    assert(raw.take(done@.len() as int) =~= raw);
    if cur.len() > 0 {
        ls.push(cur);
    }
    assert(seqs_of(ls@) =~= text_lines(cs@));
    ls
}

/// The keys that the `PUB=` and `PRIV=` lines of a key file name, when it
/// has both.
pub fn parse_keyfile(contents: &str) -> (k: Option<Keys>)
    ensures
        match k {
            Some(keys) => keyfile_parse(contents@) == Some(keys@),
            None => keyfile_parse(contents@) is None,
        },
{
    let cs = chars_of(contents);
    let ls = split_lines(&cs);
    let ghost lv = seqs_of(ls@);
    let mut public: Option<String> = None;
    let mut private: Option<String> = None;
    let mut i: usize = 0;
    proof {
        reveal_strlit("PUB=");
        reveal_strlit("PRIV=");
    }
    while i < ls.len()
        invariant
            0 <= i <= ls@.len(),
            lv == seqs_of(ls@),
            lv == text_lines(contents@),
            "PUB="@.len() == 4,
            "PRIV="@.len() == 5,
            keyfile_scan(lv.take(i as int)) == (
                match public {
                    Some(p) => Some(p@),
                    None => None::<Seq<char>>,
                },
                match private {
                    Some(p) => Some(p@),
                    None => None::<Seq<char>>,
                },
            ),
        decreases ls@.len() - i,
    {
        let l = &ls[i];
        proof {
            assert(lv.take(i + 1).drop_last() =~= lv.take(i as int));
            assert(lv.take(i + 1).last() == l@);
        }
        if starts_with(l, "PUB=") {
            public = Some(string_of(l, 4, l.len()));
        } else if starts_with(l, "PRIV=") {
            private = Some(string_of(l, 5, l.len()));
        }
        i += 1;
    }
    assert(lv.take(ls@.len() as int) =~= lv);
    match (public, private) {
        (Some(p), Some(k)) => Some(Keys::new(p.as_str(), k.as_str())),
        _ => None,
    }
}

/// Checks that a reply's `RESULT` is `OK`; otherwise returns the error the
/// reply reports.
pub fn ensure_ok(line: &str) -> (r: Result<(), SamError>)
    ensures
        unit_outcome(r) == check_outcome(line@),
{
    check_result(line)
}

/// Where a SAM bridge listens.
#[derive(Debug, Clone)]
pub struct SamClient {
    sam_addr: String,
}

impl View for SamClient {
    type V = Seq<char>;

    /// The bridge's address.
    closed spec fn view(&self) -> Seq<char> {
        self.sam_addr@
    }
}

impl SamClient {
    /// A client of the bridge at `sam_addr`; nothing is connected yet.
    pub fn connect(sam_addr: &str) -> (c: Self)
        ensures
            c@ == sam_addr@,
    {
        SamClient { sam_addr: sam_addr.to_owned() }
    }

    /// The bridge's address.
    pub fn sam_addr(&self) -> (a: &str)
        ensures
            a@ == self@,
    {
        self.sam_addr.as_str()
    }
}

/// What accepting streams of a session needs: the bridge, the session's id
/// and its destination.
#[derive(Debug)]
pub struct StreamListener {
    sam_addr: String,
    id: String,
    local: Destination,
}

/// A listener seen as its bridge address, session id and destination.
pub struct ListenerView {
    pub sam_addr: Seq<char>,
    pub id: Seq<char>,
    pub local: Seq<char>,
}

impl View for StreamListener {
    type V = ListenerView;

    closed spec fn view(&self) -> ListenerView {
        ListenerView { sam_addr: self.sam_addr@, id: self.id@, local: self.local@ }
    }
}

impl StreamListener {
    /// A listener for the session `id` with destination `local` on the
    /// bridge at `sam_addr`.
    pub fn new(sam_addr: &str, id: &str, local: Destination) -> (l: Self)
        ensures
            l@ == (ListenerView { sam_addr: sam_addr@, id: id@, local: local@ }),
    {
        StreamListener { sam_addr: sam_addr.to_owned(), id: id.to_owned(), local }
    }

    /// The session id.
    pub fn id(&self) -> (s: &str)
        ensures
            s@ == self@.id,
    {
        self.id.as_str()
    }

    /// The bridge's address.
    pub fn sam_addr(&self) -> (s: &str)
        ensures
            s@ == self@.sam_addr,
    {
        self.sam_addr.as_str()
    }

    /// The session's destination.
    pub fn local(&self) -> (d: &Destination)
        ensures
            d@ == self@.local,
    {
        &self.local
    }
}

/// `s` holds no newline.
pub open spec fn single_line(s: Seq<char>) -> bool {
    forall|i: int| 0 <= i < s.len() ==> s[i] != '\n'
}

/// Reading on past a newline-free part extends the line being read.
proof fn lemma_newline_state_append(p: Seq<char>, s: Seq<char>)
    requires
        single_line(s),
    ensures
        newline_state(p + s) == (newline_state(p).0, newline_state(p).1 + s),
    decreases s.len(),
{
    if s.len() == 0 {
        assert(p + s =~= p);
        assert(newline_state(p).1 + s =~= newline_state(p).1);
    } else {
        lemma_newline_state_append(p, s.drop_last());
        assert((p + s).drop_last() =~= p + s.drop_last());
        assert((p + s).last() == s.last());
        assert(newline_state(p).1 + s.drop_last() + seq![s.last()] =~= newline_state(p).1 + s);
        assert((newline_state(p).1 + s.drop_last()).push(s.last()) =~= newline_state(p).1 + s);
    }
}

/// A key file written for keys is read back as the same keys, when neither
/// part holds a newline or ends with a carriage return.
pub proof fn lemma_keyfile_roundtrip(public: Seq<char>, private: Seq<char>)
    requires
        single_line(public),
        single_line(private),
        public.len() == 0 || public.last() != '\r',
        private.len() == 0 || private.last() != '\r',
    ensures
        keyfile_parse(keyfile_text(public, private)) == Some((public, private)),
        keyfile_keys(keyfile_text(public, private)) == (public, private),
{
    reveal_strlit("PUB=");
    reveal_strlit("\nPRIV=");
    reveal_strlit("PRIV=");
    reveal_strlit("\n");
    let a = "PUB="@ + public;
    let b = "PRIV="@ + private;
    assert("\nPRIV="@ =~= seq!['\n'] + "PRIV="@);
    let text = keyfile_text(public, private);
    assert(text =~= a.push('\n') + b.push('\n'));
    assert(single_line(a)) by {
        assert forall|i: int| 0 <= i < a.len() implies a[i] != '\n' by {
            if i >= 4 {
                assert(a[i] == public[i - 4]);
            }
        }
    }
    assert(single_line(b)) by {
        assert forall|i: int| 0 <= i < b.len() implies b[i] != '\n' by {
            if i >= 5 {
                assert(b[i] == private[i - 5]);
            }
        }
    }
    let e = Seq::<char>::empty();
    lemma_newline_state_append(e, a);
    assert(e + a =~= a);
    assert(newline_state(e) == (Seq::<Seq<char>>::empty(), e));
    assert(newline_state(a) == (Seq::<Seq<char>>::empty(), e + a));
    assert(a.push('\n').drop_last() =~= a);
    assert(newline_state(a.push('\n')) == (Seq::<Seq<char>>::empty().push(a), e));
    lemma_newline_state_append(a.push('\n'), b);
    assert(newline_state(a.push('\n') + b) == (seq![a], e + b));
    let t2 = a.push('\n') + b.push('\n');
    assert(t2.drop_last() =~= a.push('\n') + b);
    assert(e + b =~= b);
    assert(newline_state(t2) == (seq![a, b], e));
    assert(strip_cr(a) == a);
    assert(strip_cr(b) == b);
    assert(text_lines(t2) =~= seq![a, b]);
    let ls = seq![a, b];
    assert(ls.drop_last() =~= seq![a]);
    assert(seq![a].drop_last() =~= Seq::<Seq<char>>::empty());
    assert(a.take(4) =~= "PUB="@);
    assert(a.skip(4) =~= public);
    assert(b.take(4) != "PUB="@) by {
        assert(b.take(4)[1] == 'R');
    }
    assert(b.take(5) =~= "PRIV="@);
    assert(b.skip(5) =~= private);
    assert(seq![a].last() == a);
    assert(ls.last() == b);
    assert(a.len() >= 4 && b.len() >= 5);
    assert(keyfile_scan(Seq::<Seq<char>>::empty()) == (None::<Seq<char>>, None::<Seq<char>>));
    assert(keyfile_scan(seq![a]) == (Some(public), None::<Seq<char>>));
    assert(keyfile_scan(ls) == (Some(public), Some(private)));
}

/// A key file that names no destination or no private key is read as an
/// empty destination with the whole text, without trailing whitespace, as
/// the private key.
pub proof fn lemma_keyfile_private_only(contents: Seq<char>)
    requires
        keyfile_parse(contents) is None,
    ensures
        keyfile_keys(contents) == (Seq::<char>::empty(), trim_end(contents)),
{
}

} // verus!
