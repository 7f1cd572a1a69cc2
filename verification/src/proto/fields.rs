//! The `KEY=VALUE` fields of a SAM reply line.
//!
//! A reply is split at whitespace; each token holding `=` is a field whose
//! key is what stands before the first `=`.  A value that starts with `"`
//! runs, across further tokens joined by single spaces, up to a quote that
//! no odd run of backslashes escapes; that closing quote is dropped and the
//! value is unescaped (`\x` stands for `x`).  A later field overrides an
//! earlier one with the same key.
use vstd::prelude::*;
use crate::text::{chars_of, is_ws, push_char, seqs_of, split_whitespace, split_ws, str_eq, string_of};

verus! {

/// `k` is the position of the first `c` in `t`.
pub open spec fn is_first_of(t: Seq<char>, c: char, k: int) -> bool {
    &&& 0 <= k < t.len()
    &&& t[k] == c
    &&& forall|j: int| 0 <= j < k ==> t[j] != c
}

/// The position of the first `c` in `t`, if there is one.
pub open spec fn first_of(t: Seq<char>, c: char) -> Option<int> {
    if exists|k: int| is_first_of(t, c, k) {
        Some(choose|k: int| is_first_of(t, c, k))
    } else {
        None
    }
}

/// How many `c` end `s`.
pub open spec fn trailing_count(s: Seq<char>, c: char) -> nat
    decreases s.len(),
{
    if s.len() == 0 || s.last() != c {
        0
    } else {
        1 + trailing_count(s.drop_last(), c)
    }
}

/// `v` ends with a `"` that an even number of backslashes precede.
pub open spec fn ends_unescaped(v: Seq<char>) -> bool {
    v.len() > 0 && v.last() == '"' && trailing_count(v.drop_last(), '\\') % 2 == 0
}

/// `s` with each backslash that starts an escape dropped; a backslash left
/// at the very end is kept.  `escaped` says whether a backslash came right
/// before `s`.
pub open spec fn unescape_from(s: Seq<char>, escaped: bool) -> Seq<char>
    decreases s.len(),
{
    if s.len() == 0 {
        if escaped {
            seq!['\\']
        } else {
            Seq::empty()
        }
    } else if escaped {
        seq![s[0]] + unescape_from(s.drop_first(), false)
    } else if s[0] == '\\' {
        unescape_from(s.drop_first(), true)
    } else {
        seq![s[0]] + unescape_from(s.drop_first(), false)
    }
}

/// The unescaped text of a quoted value.
pub open spec fn unescape(s: Seq<char>) -> Seq<char> {
    unescape_from(s, false)
}

/// A quoted value that starts with `value` takes in the tokens from `j` on,
/// joined by single spaces, until it ends with an unescaped quote or the
/// tokens run out.  The result is the value and the index of the first
/// token it did not take.
pub open spec fn gather(toks: Seq<Seq<char>>, j: int, value: Seq<char>) -> (Seq<char>, int)
    decreases toks.len() - j,
{
    if ends_unescaped(value) || j < 0 || j >= toks.len() {
        (value, j)
    } else {
        gather(toks, j + 1, value.push(' ') + toks[j])
    }
}

/// The value without its closing quote, when it has one.
pub open spec fn strip_closing(v: Seq<char>) -> Seq<char> {
    if ends_unescaped(v) {
        v.drop_last()
    } else {
        v
    }
}

/// `gather` moves on and stays within the tokens.
pub proof fn lemma_gather_bounds(toks: Seq<Seq<char>>, j: int, value: Seq<char>)
    requires
        0 <= j <= toks.len(),
    ensures
        j <= gather(toks, j, value).1 <= toks.len(),
    decreases toks.len() - j,
{
    if !(ends_unescaped(value) || j >= toks.len()) {
        lemma_gather_bounds(toks, j + 1, value.push(' ') + toks[j]);
    }
}

/// `value` followed by the tokens from `j` up to `e`, each after a single
/// space.
pub open spec fn joined(value: Seq<char>, toks: Seq<Seq<char>>, j: int, e: int) -> Seq<char>
    decreases e - j,
{
    if e <= j {
        value
    } else {
        joined(value, toks, j, e - 1).push(' ') + toks[e - 1]
    }
}

proof fn lemma_joined_shift(value: Seq<char>, toks: Seq<Seq<char>>, j: int, e: int)
    requires
        j < e,
    ensures
        joined(value.push(' ') + toks[j], toks, j + 1, e) == joined(value, toks, j, e),
    decreases e - j,
{
    let v2 = value.push(' ') + toks[j];
    if e > j + 1 {
        lemma_joined_shift(value, toks, j, e - 1);
        assert(joined(v2, toks, j + 1, e) == joined(v2, toks, j + 1, e - 1).push(' ') + toks[e
            - 1]);
        assert(joined(value, toks, j, e) == joined(value, toks, j, e - 1).push(' ') + toks[e
            - 1]);
    } else {
        assert(joined(v2, toks, j + 1, e) == v2);
        assert(joined(value, toks, j, j) == value);
        assert(joined(value, toks, j, e) == joined(value, toks, j, e - 1).push(' ') + toks[e
            - 1]);
    }
}

/// A quoted value takes in every following token, whatever it holds, until
/// the text gathered so far ends with an unescaped quote or the tokens run
/// out: the result is the value joined with the tokens `j..e`; it ends
/// with an unescaped quote unless all tokens were taken; and no shorter
/// run of tokens already closed it.
pub proof fn lemma_gather_takes_words(toks: Seq<Seq<char>>, j: int, value: Seq<char>)
    requires
        0 <= j <= toks.len(),
    ensures
        ({
            let (v, e) = gather(toks, j, value);
            &&& j <= e <= toks.len()
            &&& v == joined(value, toks, j, e)
            &&& ends_unescaped(v) || e == toks.len()
            &&& forall|m: int| j <= m < e ==> !ends_unescaped(#[trigger] joined(value, toks, j, m))
        }),
    decreases toks.len() - j,
{
    if ends_unescaped(value) || j >= toks.len() {
    } else {
        let value2 = value.push(' ') + toks[j];
        lemma_gather_takes_words(toks, j + 1, value2);
        let (v, e) = gather(toks, j + 1, value2);
        lemma_joined_shift(value, toks, j, e);
        assert forall|m: int| j <= m < e implies !ends_unescaped(
            #[trigger] joined(value, toks, j, m),
        ) by {
            if m > j {
                lemma_joined_shift(value, toks, j, m);
                assert(joined(value2, toks, j + 1, m) == joined(value, toks, j, m));
            }
        }
    }
}

/// The fields that the tokens from `i` on add to `m`.
pub open spec fn fields_from(toks: Seq<Seq<char>>, i: int, m: Map<Seq<char>, Seq<char>>) -> Map<
    Seq<char>,
    Seq<char>,
>
    decreases toks.len() - i,
{
    if i < 0 || i >= toks.len() {
        m
    } else {
        let t = toks[i];
        match first_of(t, '=') {
            None => fields_from(toks, i + 1, m),
            Some(k) => {
                let key = t.take(k);
                let raw = t.skip(k + 1);
                if raw.len() > 0 && raw[0] == '"' {
                    let g = gather(toks, i + 1, raw.drop_first());
                    proof {
                        lemma_gather_bounds(toks, i + 1, raw.drop_first());
                    }
                    fields_from(toks, g.1, m.insert(key, unescape(strip_closing(g.0))))
                } else {
                    fields_from(toks, i + 1, m.insert(key, raw))
                }
            },
        }
    }
}

/// The fields of a reply line.
pub open spec fn line_fields(line: Seq<char>) -> Map<Seq<char>, Seq<char>> {
    fields_from(split_ws(line), 0, Map::empty())
}

/// A finite map from field names to values, in the order the fields came.
pub struct Fields {
    keys: Vec<String>,
    values: Vec<String>,
}

impl Fields {
    /// The names held, in order.
    pub closed spec fn key_seq(&self) -> Seq<Seq<char>> {
        self.keys@.map_values(|s: String| s@)
    }

    /// The values held, in order.
    pub closed spec fn value_seq(&self) -> Seq<Seq<char>> {
        self.values@.map_values(|s: String| s@)
    }

    /// Each name is held once, beside its value.
    pub closed spec fn wf(&self) -> bool {
        &&& self.keys@.len() == self.values@.len()
        &&& self.key_seq().no_duplicates()
    }

    proof fn lemma_index_unique(&self, i: int)
        requires
            self.wf(),
            0 <= i < self.keys@.len(),
        ensures
            self.key_seq().index_of(self.key_seq()[i]) == i,
    {
        let ks = self.key_seq();
        assert(ks.contains(ks[i]));
        let j = ks.index_of(ks[i]);
        assert(0 <= j < ks.len() && ks[j] == ks[i]);
    }

    /// A map with no fields.
    pub fn new() -> (f: Self)
        ensures
            f.wf(),
            f@ == Map::<Seq<char>, Seq<char>>::empty(),
    {
        let f = Fields { keys: Vec::new(), values: Vec::new() };
        assert(f@ =~= Map::<Seq<char>, Seq<char>>::empty());
        f
    }

    fn find(&self, key: &str) -> (r: Option<usize>)
        requires
            self.wf(),
        ensures
            match r {
                Some(i) => i < self.keys@.len() && self.key_seq()[i as int] == key@,
                None => !self.key_seq().contains(key@),
            },
    {
        let mut i: usize = 0;
        while i < self.keys.len()
            invariant
                self.wf(),
                0 <= i <= self.keys@.len(),
                forall|j: int| 0 <= j < i ==> self.key_seq()[j] != key@,
            decreases self.keys@.len() - i,
        {
            if str_eq(self.keys[i].as_str(), key) {
                return Some(i);
            }
            i += 1;
        }
        None
    }

    /// Sets `key` to `value`, replacing what `key` held before.
    pub fn insert(&mut self, key: String, value: String)
        requires
            old(self).wf(),
        ensures
            final(self).wf(),
            final(self)@ == old(self)@.insert(key@, value@),
    {
        let ghost m0 = self@;
        match self.find(key.as_str()) {
            Some(i) => {
                let ghost ks = self.key_seq();
                self.values.set(i, value);
                proof {
                    assert(self.key_seq() =~= ks);
                    assert forall|k: Seq<char>| #[trigger] self@.contains_key(k) implies self@[k]
                        == m0.insert(key@, value@)[k] by {
                        let j = self.key_seq().index_of(k);
                        if k == key@ {
                            self.lemma_index_unique(i as int);
                        } else {
                            assert(ks.contains(k));
                            assert(0 <= j < ks.len() && ks[j] == k);
                            assert(j != i);
                        }
                    }
                    assert(self@ =~= m0.insert(key@, value@));
                }
            },
            None => {
                let ghost ks = self.key_seq();
                let ghost vs = self.value_seq();
                self.keys.push(key);
                self.values.push(value);
                proof {
                    assert(self.key_seq() =~= ks.push(key@));
                    assert(self.value_seq() =~= vs.push(value@));
                    assert(self.key_seq().no_duplicates());
                    assert forall|k: Seq<char>| #[trigger] self@.contains_key(k) implies self@[k]
                        == m0.insert(key@, value@)[k] by {
                        let j = self.key_seq().index_of(k);
                        if k == key@ {
                            self.lemma_index_unique(ks.len() as int);
                        } else {
                            assert(0 <= j < self.key_seq().len() && self.key_seq()[j] == k);
                            assert(j != ks.len());
                            assert(ks.contains(k));
                            let j0 = ks.index_of(k);
                            assert(0 <= j0 < ks.len() && ks[j0] == k);
                            assert(self.key_seq()[j0] == k);
                            assert(j0 == j);
                        }
                    }
                    assert forall|k: Seq<char>|
                        self@.contains_key(k) <==> #[trigger] m0.insert(key@, value@).contains_key(
                            k,
                        ) by {
                        if ks.contains(k) {
                            let j0 = ks.index_of(k);
                            assert(self.key_seq()[j0] == k);
                        }
                        if self.key_seq().contains(k) && k != key@ {
                            let j = self.key_seq().index_of(k);
                            assert(ks[j] == k);
                        }
                        if k == key@ {
                            assert(self.key_seq()[ks.len() as int] == k);
                        }
                    }
                    assert(self@ =~= m0.insert(key@, value@));
                }
            },
        }
    }

    /// The value held under `key`, if any.
    pub fn get(&self, key: &str) -> (r: Option<&String>)
        requires
            self.wf(),
        ensures
            match r {
                Some(v) => self@.contains_key(key@) && self@[key@] == v@,
                None => !self@.contains_key(key@),
            },
    {
        match self.find(key) {
            Some(i) => {
                proof {
                    self.lemma_index_unique(i as int);
                }
                Some(&self.values[i])
            },
            None => None,
        }
    }

    /// Whether a value is held under `key`.
    pub fn contains_key(&self, key: &str) -> (r: bool)
        requires
            self.wf(),
        ensures
            r == self@.contains_key(key@),
    {
        self.find(key).is_some()
    }

    /// How many fields are held.
    pub fn len(&self) -> (n: usize)
        requires
            self.wf(),
        ensures
            n == self@.dom().len(),
    {
        proof {
            self.key_seq().unique_seq_to_set();
            assert(self@.dom() =~= self.key_seq().to_set());
        }
        self.keys.len()
    }
}

impl View for Fields {
    type V = Map<Seq<char>, Seq<char>>;

    closed spec fn view(&self) -> Map<Seq<char>, Seq<char>> {
        Map::new(
            |k: Seq<char>| self.key_seq().contains(k),
            |k: Seq<char>| self.value_seq()[self.key_seq().index_of(k)],
        )
    }
}

} // verus!

verus! {

/// The position of the first `c` in `t`, if there is one.
pub fn find_char(t: &Vec<char>, c: char) -> (r: Option<usize>)
    ensures
        match r {
            Some(k) => first_of(t@, c) == Some(k as int),
            None => first_of(t@, c) is None,
        },
{
    let mut i: usize = 0;
    while i < t.len()
        invariant
            0 <= i <= t@.len(),
            forall|j: int| 0 <= j < i ==> t@[j] != c,
        decreases t@.len() - i,
    {
        if t[i] == c {
            proof {
                assert(is_first_of(t@, c, i as int));
                let k = choose|k: int| is_first_of(t@, c, k);
                assert(k == i);
            }
            return Some(i);
        }
        i += 1;
    }
    assert(!exists|k: int| is_first_of(t@, c, k));
    None
}

/// Whether `value` ends with a quote that no odd run of backslashes
/// escapes.
pub fn ends_with_unescaped_quote(value: &Vec<char>) -> (r: bool)
    ensures
        r == ends_unescaped(value@),
{
    let n = value.len();
    if n == 0 || value[n - 1] != '"' {
        return false;
    }
    let ghost body = value@.drop_last();
    let mut i: usize = n - 1;
    let mut count: usize = 0;
    assert(body.take(i as int) =~= body);
    while i > 0 && value[i - 1] == '\\'
        invariant
            0 <= i <= n - 1,
            n == value@.len(),
            body == value@.drop_last(),
            count + i == n - 1,
            trailing_count(body, '\\') == count + trailing_count(body.take(i as int), '\\'),
        decreases i,
    {
        proof {
            assert(body.take(i as int).drop_last() == body.take(i - 1));
        }
        i -= 1;
        count += 1;
    }
    proof {
        if i > 0 {
            assert(trailing_count(body.take(i as int), '\\') == 0);
        } else {
            assert(body.take(0) =~= Seq::<char>::empty());
        }
    }
    count % 2 == 0
}

/// The unescaped text of `value`: each backslash stands for the character
/// after it; a backslash at the end stands for itself.
pub fn unescape_quoted(value: &Vec<char>) -> (out: String)
    ensures
        out@ == unescape(value@),
{
    let mut out = String::new();
    let mut escaped = false;
    let mut i: usize = 0;
    assert(value@.skip(0) =~= value@);
    assert(out@ =~= Seq::<char>::empty());
    while i < value.len()
        invariant
            0 <= i <= value@.len(),
            out@ + unescape_from(value@.skip(i as int), escaped) == unescape(value@),
        decreases value@.len() - i,
    {
        let ch = value[i];
        let ghost rest = value@.skip(i as int);
        proof {
            assert(rest.drop_first() == value@.skip(i + 1));
            assert(rest[0] == ch);
        }
        if escaped {
            push_char(&mut out, ch);
            escaped = false;
        } else if ch == '\\' {
            escaped = true;
        } else {
            push_char(&mut out, ch);
        }
        i += 1;
        proof {
            assert(out@ + unescape_from(value@.skip(i as int), escaped) =~= unescape(value@));
        }
    }
    if escaped {
        push_char(&mut out, '\\');
    }
    proof {
        assert(value@.skip(i as int) =~= Seq::<char>::empty());
        assert(out@ =~= unescape(value@));
    }
    out
}

/// Reads the `KEY=VALUE` fields of a SAM reply line.
pub fn parse_fields(line: &str) -> (fields: Fields)
    ensures
        fields.wf(),
        fields@ == line_fields(line@),
{
    let cs = chars_of(line);
    let toks = split_whitespace(&cs);
    let ghost ts = seqs_of(toks@);
    let mut fields = Fields::new();
    let mut i: usize = 0;
    while i < toks.len()
        invariant
            ts == seqs_of(toks@),
            ts == split_ws(line@),
            0 <= i <= toks@.len(),
            fields.wf(),
            fields_from(ts, i as int, fields@) == line_fields(line@),
        decreases toks@.len() - i,
    {
        let t = &toks[i];
        assert(ts[i as int] == t@);
        match find_char(t, '=') {
            None => {
                i = i + 1;
            },
            Some(k) => {
                let key = string_of(t, 0, k);
                if k + 1 < t.len() && t[k + 1] == '"' {
                    let ghost raw = t@.skip(k + 1);
                    let mut value: Vec<char> = Vec::new();
                    let mut p = k + 2;
                    while p < t.len()
                        invariant
                            k + 2 <= p <= t@.len(),
                            value@ == t@.subrange(k + 2, p as int),
                        decreases t@.len() - p,
                    {
                        value.push(t[p]);
                        p += 1;
                        assert(value@ =~= t@.subrange(k + 2, p as int));
                    }
                    assert(value@ =~= raw.drop_first());
                    let mut j = i + 1;
                    loop
                        invariant
                            ts == seqs_of(toks@),
                            i + 1 <= j <= toks@.len(),
                            raw.len() > 0,
                            gather(ts, j as int, value@) == gather(ts, i + 1, raw.drop_first()),
                        ensures
                            i + 1 <= j <= toks@.len(),
                            gather(ts, j as int, value@) == gather(ts, i + 1, raw.drop_first()),
                            ends_unescaped(value@) || j >= toks@.len(),
                        decreases toks@.len() - j,
                    {
                        if ends_with_unescaped_quote(&value) || j >= toks.len() {
                            break;
                        }
                        let ghost before = value@;
                        value.push(' ');
                        let next = &toks[j];
                        let mut q: usize = 0;
                        while q < next.len()
                            invariant
                                0 <= q <= next@.len(),
                                value@ == before.push(' ') + next@.take(q as int),
                            decreases next@.len() - q,
                        {
                            value.push(next[q]);
                            q += 1;
                            assert(value@ =~= before.push(' ') + next@.take(q as int));
                        }
                        assert(next@.take(q as int) =~= next@);
                        assert(ts[j as int] == next@);
                        j += 1;
                    }
                    let ghost gathered = value@;
                    assert(gather(ts, j as int, gathered) == (gathered, j as int));
                    if ends_with_unescaped_quote(&value) {
                        value.pop();
                    }
                    assert(value@ == strip_closing(gathered));
                    let v = unescape_quoted(&value);
                    let ghost m0 = fields@;
                    assert(key@ == t@.take(k as int));
                    assert(raw.len() > 0 && raw[0] == '"');
                    fields.insert(key, v);
                    assert(fields_from(ts, i as int, m0) == fields_from(ts, j as int, fields@));
                    i = j;
                } else {
                    let v = string_of(t, k + 1, t.len());
                    let ghost m0 = fields@;
                    assert(key@ == t@.take(k as int));
                    assert(v@ == t@.skip(k + 1));
                    fields.insert(key, v);
                    assert(fields_from(ts, i as int, m0) == fields_from(ts, i + 1, fields@));
                    i = i + 1;
                }
            },
        }
    }
    fields
}

} // verus!
