//! Tunnel options of a session, and the options of stream connections and
//! raw sessions.
use vstd::prelude::*;
use crate::text::{decimal, push_decimal, push_signed_decimal, signed_decimal};

verus! {

/// Tunnel options; those left unset are not sent.
#[derive(Debug, Clone, PartialEq, Eq)]
pub struct SessionOptions {
    inbound_length: Option<u8>,
    outbound_length: Option<u8>,
    inbound_length_variance: Option<i8>,
    outbound_length_variance: Option<i8>,
    inbound_quantity: Option<u8>,
    outbound_quantity: Option<u8>,
    inbound_backup_quantity: Option<u8>,
    outbound_backup_quantity: Option<u8>,
}

/// The options as plain numbers.
pub struct SessionOptionsView {
    pub inbound_length: Option<int>,
    pub outbound_length: Option<int>,
    pub inbound_length_variance: Option<int>,
    pub outbound_length_variance: Option<int>,
    pub inbound_quantity: Option<int>,
    pub outbound_quantity: Option<int>,
    pub inbound_backup_quantity: Option<int>,
    pub outbound_backup_quantity: Option<int>,
}

/// An unsigned option as a number.
pub open spec fn num_u8(o: Option<u8>) -> Option<int> {
    match o {
        Some(v) => Some(v as int),
        None => None,
    }
}

/// A signed option as a number.
pub open spec fn num_i8(o: Option<i8>) -> Option<int> {
    match o {
        Some(v) => Some(v as int),
        None => None,
    }
}

impl View for SessionOptions {
    type V = SessionOptionsView;

    closed spec fn view(&self) -> SessionOptionsView {
        SessionOptionsView {
            inbound_length: num_u8(self.inbound_length),
            outbound_length: num_u8(self.outbound_length),
            inbound_length_variance: num_i8(self.inbound_length_variance),
            outbound_length_variance: num_i8(self.outbound_length_variance),
            inbound_quantity: num_u8(self.inbound_quantity),
            outbound_quantity: num_u8(self.outbound_quantity),
            inbound_backup_quantity: num_u8(self.inbound_backup_quantity),
            outbound_backup_quantity: num_u8(self.outbound_backup_quantity),
        }
    }
}

/// No option set.
pub open spec fn no_options() -> SessionOptionsView {
    SessionOptionsView {
        inbound_length: None,
        outbound_length: None,
        inbound_length_variance: None,
        outbound_length_variance: None,
        inbound_quantity: None,
        outbound_quantity: None,
        inbound_backup_quantity: None,
        outbound_backup_quantity: None,
    }
}

/// `name=value` for an option that is set.
pub open spec fn option_pair(name: Seq<char>, v: Option<int>) -> Seq<(Seq<char>, Seq<char>)> {
    match v {
        Some(n) => seq![(name, signed_decimal(n))],
        None => Seq::empty(),
    }
}

/// The options that are set, as name and value, in a fixed order.
pub open spec fn option_pairs(o: SessionOptionsView) -> Seq<(Seq<char>, Seq<char>)> {
    option_pair("inbound.length"@, o.inbound_length) + option_pair(
        "outbound.length"@,
        o.outbound_length,
    ) + option_pair("inbound.lengthVariance"@, o.inbound_length_variance) + option_pair(
        "outbound.lengthVariance"@,
        o.outbound_length_variance,
    ) + option_pair("inbound.quantity"@, o.inbound_quantity) + option_pair(
        "outbound.quantity"@,
        o.outbound_quantity,
    ) + option_pair("inbound.backupQuantity"@, o.inbound_backup_quantity) + option_pair(
        "outbound.backupQuantity"@,
        o.outbound_backup_quantity,
    )
}

/// `name=value` items joined by single spaces.
pub open spec fn join_pairs(ps: Seq<(Seq<char>, Seq<char>)>) -> Seq<char>
    decreases ps.len(),
{
    if ps.len() == 0 {
        Seq::empty()
    } else if ps.len() == 1 {
        ps[0].0 + "="@ + ps[0].1
    } else {
        join_pairs(ps.drop_last()) + " "@ + ps.last().0 + "="@ + ps.last().1
    }
}

/// The pairs held by a vector of string pairs.
pub open spec fn pair_views(v: Seq<(String, String)>) -> Seq<(Seq<char>, Seq<char>)> {
    v.map_values(|p: (String, String)| (p.0@, p.1@))
}

impl Default for SessionOptions {
    fn default() -> (o: Self)
        ensures
            o@ == no_options(),
    {
        SessionOptions {
            inbound_length: None,
            outbound_length: None,
            inbound_length_variance: None,
            outbound_length_variance: None,
            inbound_quantity: None,
            outbound_quantity: None,
            inbound_backup_quantity: None,
            outbound_backup_quantity: None,
        }
    }
}

fn push_u8_pair(pairs: &mut Vec<(String, String)>, name: &str, v: Option<u8>)
    ensures
        pair_views(final(pairs)@) == pair_views(old(pairs)@) + option_pair(name@, num_u8(v)),
{
    let ghost before = pair_views(pairs@);
    match v {
        Some(n) => {
            let mut value = String::new();
            push_decimal(&mut value, n as u64);
            assert(value@ == signed_decimal(n as int));
            pairs.push((name.to_owned(), value));
        },
        None => {},
    }
    assert(pair_views(pairs@) =~= before + option_pair(name@, num_u8(v)));
}

fn push_i8_pair(pairs: &mut Vec<(String, String)>, name: &str, v: Option<i8>)
    ensures
        pair_views(final(pairs)@) == pair_views(old(pairs)@) + option_pair(name@, num_i8(v)),
{
    let ghost before = pair_views(pairs@);
    match v {
        Some(n) => {
            let mut value = String::new();
            push_signed_decimal(&mut value, n as i64);
            pairs.push((name.to_owned(), value));
        },
        None => {},
    }
    assert(pair_views(pairs@) =~= before + option_pair(name@, num_i8(v)));
}

impl SessionOptions {
    /// Sets the inbound tunnel length.
    pub fn inbound_length(self, n: u8) -> (o: Self)
        ensures
            o@ == (SessionOptionsView { inbound_length: Some(n as int), ..self@ }),
    {
        SessionOptions { inbound_length: Some(n), ..self }
    }

    /// Sets the outbound tunnel length.
    pub fn outbound_length(self, n: u8) -> (o: Self)
        ensures
            o@ == (SessionOptionsView { outbound_length: Some(n as int), ..self@ }),
    {
        SessionOptions { outbound_length: Some(n), ..self }
    }

    /// Sets the inbound tunnel length variance.
    pub fn inbound_length_variance(self, n: i8) -> (o: Self)
        ensures
            o@ == (SessionOptionsView { inbound_length_variance: Some(n as int), ..self@ }),
    {
        SessionOptions { inbound_length_variance: Some(n), ..self }
    }

    /// Sets the outbound tunnel length variance.
    pub fn outbound_length_variance(self, n: i8) -> (o: Self)
        ensures
            o@ == (SessionOptionsView { outbound_length_variance: Some(n as int), ..self@ }),
    {
        SessionOptions { outbound_length_variance: Some(n), ..self }
    }

    /// Sets the number of inbound tunnels.
    pub fn inbound_quantity(self, n: u8) -> (o: Self)
        ensures
            o@ == (SessionOptionsView { inbound_quantity: Some(n as int), ..self@ }),
    {
        SessionOptions { inbound_quantity: Some(n), ..self }
    }

    /// Sets the number of outbound tunnels.
    pub fn outbound_quantity(self, n: u8) -> (o: Self)
        ensures
            o@ == (SessionOptionsView { outbound_quantity: Some(n as int), ..self@ }),
    {
        SessionOptions { outbound_quantity: Some(n), ..self }
    }

    /// Sets the number of inbound backup tunnels.
    pub fn inbound_backup_quantity(self, n: u8) -> (o: Self)
        ensures
            o@ == (SessionOptionsView { inbound_backup_quantity: Some(n as int), ..self@ }),
    {
        SessionOptions { inbound_backup_quantity: Some(n), ..self }
    }

    /// Sets the number of outbound backup tunnels.
    pub fn outbound_backup_quantity(self, n: u8) -> (o: Self)
        ensures
            o@ == (SessionOptionsView { outbound_backup_quantity: Some(n as int), ..self@ }),
    {
        SessionOptions { outbound_backup_quantity: Some(n), ..self }
    }

    /// Zero-hop tunnels: no extra hops and no variance, two tunnels each
    /// way, no backups.
    pub fn zero_hop() -> (o: Self)
        ensures
            o@ == zero_hop_options(),
    {
        Self::default().inbound_length(0).outbound_length(0).inbound_length_variance(
            0,
        ).outbound_length_variance(0).inbound_quantity(2).outbound_quantity(
            2,
        ).inbound_backup_quantity(0).outbound_backup_quantity(0)
    }

    /// The options that are set, as `(name, value)`, in a fixed order.
    pub fn to_pairs(&self) -> (pairs: Vec<(String, String)>)
        ensures
            pair_views(pairs@) == option_pairs(self@),
    {
        let mut pairs: Vec<(String, String)> = Vec::new();
        assert(pair_views(pairs@) =~= Seq::<(Seq<char>, Seq<char>)>::empty());
        push_u8_pair(&mut pairs, "inbound.length", self.inbound_length);
        push_u8_pair(&mut pairs, "outbound.length", self.outbound_length);
        push_i8_pair(&mut pairs, "inbound.lengthVariance", self.inbound_length_variance);
        push_i8_pair(&mut pairs, "outbound.lengthVariance", self.outbound_length_variance);
        push_u8_pair(&mut pairs, "inbound.quantity", self.inbound_quantity);
        push_u8_pair(&mut pairs, "outbound.quantity", self.outbound_quantity);
        push_u8_pair(&mut pairs, "inbound.backupQuantity", self.inbound_backup_quantity);
        push_u8_pair(&mut pairs, "outbound.backupQuantity", self.outbound_backup_quantity);
        assert(pair_views(pairs@) =~= option_pairs(self@));
        pairs
    }

    /// The options that are set, as `name=value` items separated by single
    /// spaces, in the order of [`SessionOptions::to_pairs`].
    pub fn to_opts_str(&self) -> (s: String)
        ensures
            s@ == join_pairs(option_pairs(self@)),
    {
        let pairs = self.to_pairs();
        let ghost ps = pair_views(pairs@);
        let mut s = String::new();
        let mut i: usize = 0;
        while i < pairs.len()
            invariant
                0 <= i <= pairs@.len(),
                ps == pair_views(pairs@),
                s@ == join_pairs(ps.take(i as int)),
            decreases pairs@.len() - i,
        {
            proof {
                reveal_strlit(" ");
                reveal_strlit("=");
                assert(ps.take(i + 1).drop_last() =~= ps.take(i as int));
                assert(ps.take(i + 1).last() == ps[i as int]);
            }
            if i > 0 {
                s.append(" ");
            }
            s.append(pairs[i].0.as_str());
            s.append("=");
            s.append(pairs[i].1.as_str());
            i += 1;
            proof {
                if i == 1 {
                    assert(s@ =~= join_pairs(ps.take(i as int)));
                } else {
                    assert(s@ =~= join_pairs(ps.take(i as int)));
                }
            }
        }
        assert(ps.take(pairs@.len() as int) =~= ps);
        s
    }
}

/// The zero-hop options.
pub open spec fn zero_hop_options() -> SessionOptionsView {
    SessionOptionsView {
        inbound_length: Some(0),
        outbound_length: Some(0),
        inbound_length_variance: Some(0),
        outbound_length_variance: Some(0),
        inbound_quantity: Some(2),
        outbound_quantity: Some(2),
        inbound_backup_quantity: Some(0),
        outbound_backup_quantity: Some(0),
    }
}

/// The tunnel options of the test network, as listed in
/// [`crate::session::SAM_TUNNEL_OPTIONS`].
pub open spec fn tunnel_options() -> Seq<(Seq<char>, Seq<char>)> {
    seq![
        ("inbound.length"@, "0"@),
        ("outbound.length"@, "0"@),
        ("inbound.lengthVariance"@, "0"@),
        ("outbound.lengthVariance"@, "0"@),
        ("inbound.backupQuantity"@, "0"@),
        ("outbound.backupQuantity"@, "0"@),
        ("inbound.quantity"@, "2"@),
        ("outbound.quantity"@, "2"@),
    ]
}

/// Zero-hop options send the same option settings as the test network's
/// tunnel options, only in another order.
pub proof fn lemma_zero_hop_is_tunnel_options()
    ensures
        option_pairs(zero_hop_options()).to_set() == tunnel_options().to_set(),
        option_pairs(zero_hop_options()).len() == tunnel_options().len(),
{
    reveal_strlit("0");
    reveal_strlit("2");
    reveal_with_fuel(decimal, 2);
    assert(signed_decimal(0) =~= "0"@);
    assert(signed_decimal(2) =~= "2"@);
    let ps = option_pairs(zero_hop_options());
    let ts = tunnel_options();
    assert(ps =~= seq![
        ("inbound.length"@, "0"@),
        ("outbound.length"@, "0"@),
        ("inbound.lengthVariance"@, "0"@),
        ("outbound.lengthVariance"@, "0"@),
        ("inbound.quantity"@, "2"@),
        ("outbound.quantity"@, "2"@),
        ("inbound.backupQuantity"@, "0"@),
        ("outbound.backupQuantity"@, "0"@),
    ]);
    assert forall|p: (Seq<char>, Seq<char>)| ps.contains(p) implies ts.contains(p) by {
        let i = choose|i: int| 0 <= i < ps.len() && ps[i] == p;
        let j = if i == 4 {
            6
        } else if i == 5 {
            7
        } else if i == 6 {
            4
        } else if i == 7 {
            5
        } else {
            i
        };
        assert(ts[j] == p);
    }
    assert forall|p: (Seq<char>, Seq<char>)| ts.contains(p) implies ps.contains(p) by {
        let i = choose|i: int| 0 <= i < ts.len() && ts[i] == p;
        let j = if i == 4 {
            6
        } else if i == 5 {
            7
        } else if i == 6 {
            4
        } else if i == 7 {
            5
        } else {
            i
        };
        assert(ps[j] == p);
    }
    assert(ps.to_set() =~= ts.to_set());
}

/// Options of a stream connection: the ports to connect from and to (zero
/// for none) and whether the bridge stays silent about the outcome.
#[derive(Debug, Clone, Default)]
pub struct StreamConnectOptions {
    pub from_port: u16,
    pub to_port: u16,
    pub silent: bool,
}

/// Options of a raw session: the I2P protocol number, and whether received
/// packets carry a header.
#[derive(Debug, Clone, Default)]
pub struct RawSessionOptions {
    pub protocol: Option<u8>,
    pub header: bool,
}

} // verus!
