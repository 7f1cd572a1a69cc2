//! The layout of the isolated test network: one bridge, and for each node a
//! network namespace joined to the bridge by a veth pair, with the node's
//! address in a /24 subnet.  The layout is computed here; running the `ip`
//! commands that build and tear it down is left to the caller.
use vstd::prelude::*;
use crate::text::{chars_of, decimal, push_char, push_decimal};

verus! {

/// A node of the test network.
#[derive(Debug, Clone)]
pub struct NodeInfo {
    pub index: usize,
    pub ns: String,
    pub ip: String,
    pub veth: String,
}

/// A node as its index and names.
pub struct NodeView {
    pub index: int,
    pub ns: Seq<char>,
    pub ip: Seq<char>,
    pub veth: Seq<char>,
}

impl View for NodeInfo {
    type V = NodeView;

    open spec fn view(&self) -> NodeView {
        NodeView { index: self.index as int, ns: self.ns@, ip: self.ip@, veth: self.veth@ }
    }
}

/// The test network: its bridge and its nodes.
pub struct Topology {
    bridge: String,
    pub nodes: Vec<NodeInfo>,
}

/// A subnet such as `10.88.0` with its dots turned into underscores, as it
/// appears in interface and namespace names.
pub open spec fn name_prefix(subnet: Seq<char>) -> Seq<char> {
    subnet.map_values(|c: char| if c == '.' { '_' } else { c })
}

/// The bridge's name.
pub open spec fn bridge_name(subnet: Seq<char>) -> Seq<char> {
    "br_"@ + name_prefix(subnet)
}

/// The namespace of node `i`.
pub open spec fn node_ns(subnet: Seq<char>, i: nat) -> Seq<char> {
    "ns_"@ + name_prefix(subnet) + decimal(i)
}

/// The host end of node `i`'s veth pair.
pub open spec fn veth_host(subnet: Seq<char>, i: nat) -> Seq<char> {
    "veth_"@ + name_prefix(subnet) + decimal(i) + "_h"@
}

/// The namespace end of node `i`'s veth pair.
pub open spec fn veth_ns(subnet: Seq<char>, i: nat) -> Seq<char> {
    "veth_"@ + name_prefix(subnet) + decimal(i) + "_n"@
}

/// The address of node `i`: the subnet's `i + 1`th host.
pub open spec fn node_ip(subnet: Seq<char>, i: nat) -> Seq<char> {
    subnet + "."@ + decimal(i + 1)
}

/// Node `i` of the subnet.
pub open spec fn node_view(subnet: Seq<char>, i: nat) -> NodeView {
    NodeView { index: i as int, ns: node_ns(subnet, i), ip: node_ip(subnet, i), veth: veth_ns(subnet, i) }
}

/// The `ip` commands that create the bridge.
pub open spec fn bridge_commands(subnet: Seq<char>) -> Seq<Seq<Seq<char>>> {
    let b = bridge_name(subnet);
    seq![seq!["link"@, "add"@, b, "type"@, "bridge"@], seq!["link"@, "set"@, b, "up"@]]
}

/// The `ip` commands that set up node `i`.
pub open spec fn node_commands(subnet: Seq<char>, i: nat) -> Seq<Seq<Seq<char>>> {
    let ns = node_ns(subnet, i);
    let vh = veth_host(subnet, i);
    let vn = veth_ns(subnet, i);
    let b = bridge_name(subnet);
    seq![
        seq!["netns"@, "add"@, ns],
        seq!["netns"@, "exec"@, ns, "ip"@, "link"@, "set"@, "lo"@, "up"@],
        seq!["link"@, "add"@, vh, "type"@, "veth"@, "peer"@, "name"@, vn],
        seq!["link"@, "set"@, vh, "master"@, b],
        seq!["link"@, "set"@, vh, "up"@],
        seq!["link"@, "set"@, vn, "netns"@, ns],
        seq!["netns"@, "exec"@, ns, "ip"@, "addr"@, "add"@, node_ip(subnet, i) + "/24"@, "dev"@, vn],
        seq!["netns"@, "exec"@, ns, "ip"@, "link"@, "set"@, vn, "up"@],
    ]
}

/// The `ip` commands that build a network of `n` nodes: the bridge, then
/// each node in turn.
pub open spec fn setup_commands(subnet: Seq<char>, n: nat) -> Seq<Seq<Seq<char>>>
    decreases n,
{
    if n == 0 {
        bridge_commands(subnet)
    } else {
        setup_commands(subnet, (n - 1) as nat) + node_commands(subnet, (n - 1) as nat)
    }
}

proof fn lemma_setup_layout(subnet: Seq<char>, n: nat)
    ensures
        setup_commands(subnet, n).len() == 2 + 8 * n,
        forall|k: int| 0 <= k < 2 ==> #[trigger] setup_commands(subnet, n)[k] == bridge_commands(subnet)[k],
        forall|i: int, k: int|
            0 <= i < n && 0 <= k < 8 ==> #[trigger] setup_commands(subnet, n)[2 + 8 * i + k]
                == node_commands(subnet, i as nat)[k],
    decreases n,
{
    if n > 0 {
        lemma_setup_layout(subnet, (n - 1) as nat);
        let prev = setup_commands(subnet, (n - 1) as nat);
        let cur = setup_commands(subnet, n);
        assert(cur == prev + node_commands(subnet, (n - 1) as nat));
        assert forall|i: int, k: int| 0 <= i < n && 0 <= k < 8 implies #[trigger] cur[2 + 8 * i
            + k] == node_commands(subnet, i as nat)[k] by {
            if i < n - 1 {
                assert(cur[2 + 8 * i + k] == prev[2 + 8 * i + k]);
            } else {
                assert(2 + 8 * i + k == prev.len() + k);
            }
        }
    }
}

/// The plan joins each node's host end `veth_{prefix}{i}_h` to the bridge
/// `br_{prefix}`; every command that puts an interface on a bridge names a
/// host end (`…_h`) and that bridge, and every command that moves an
/// interface into a namespace names a namespace end (`…_n`).
pub proof fn lemma_plan_wires_veth_pairs(subnet: Seq<char>, n: nat)
    ensures
        ({
            let plan = setup_commands(subnet, n);
            let p = name_prefix(subnet);
            &&& forall|i: nat|
                #![trigger decimal(i)]
                i < n ==> plan.contains(
                    seq!["link"@, "set"@, "veth_"@ + p + decimal(i) + "_h"@, "master"@, "br_"@ + p],
                )
            &&& forall|c: Seq<Seq<char>>|
                #![trigger plan.contains(c)]
                plan.contains(c) && c.len() == 5 && c[3] == "master"@ ==> c[2].len() > 0
                    && c[2].last() == 'h' && c[4] == "br_"@ + p
            &&& forall|c: Seq<Seq<char>>|
                #![trigger plan.contains(c)]
                plan.contains(c) && c.len() == 5 && c[3] == "netns"@ ==> c[2].len() > 0
                    && c[2].last() == 'n'
        }),
{
    reveal_strlit("_h");
    reveal_strlit("_n");
    reveal_strlit("master");
    reveal_strlit("netns");
    reveal_strlit("type");
    let plan = setup_commands(subnet, n);
    let p = name_prefix(subnet);
    lemma_setup_layout(subnet, n);
    assert forall|i: nat| #![trigger decimal(i)] i < n implies plan.contains(
        seq!["link"@, "set"@, "veth_"@ + p + decimal(i) + "_h"@, "master"@, "br_"@ + p],
    ) by {
        let idx: int = 2 + 8 * (i as int) + 3;
        assert(plan[idx] == node_commands(subnet, i)[3]);
        assert(plan[idx] =~~= seq![
            "link"@,
            "set"@,
            "veth_"@ + p + decimal(i) + "_h"@,
            "master"@,
            "br_"@ + p,
        ]);
    }
    assert forall|c: Seq<Seq<char>>| #![trigger plan.contains(c)] plan.contains(c) implies (
    c.len() == 5 && c[3] == "master"@ ==> c[2].len() > 0 && c[2].last() == 'h' && c[4] == "br_"@
        + p) && (c.len() == 5 && c[3] == "netns"@ ==> c[2].len() > 0 && c[2].last() == 'n') by {
        let idx = choose|idx: int| 0 <= idx < plan.len() && plan[idx] == c;
        assert("master"@.len() == 6 && "netns"@.len() == 5 && "type"@.len() == 4);
        assert("_h"@.len() == 2 && "_h"@[1] == 'h' && "_n"@.len() == 2 && "_n"@[1] == 'n');
        if idx < 2 {
            assert(c == bridge_commands(subnet)[idx]);
            if idx == 0 {
                assert(c[3] == "type"@);
            }
        } else {
            let i = (idx - 2) / 8;
            let k = (idx - 2) % 8;
            assert(idx == 2 + 8 * i + k);
            assert(c == node_commands(subnet, i as nat)[k]);
            let vh = veth_host(subnet, i as nat);
            let vn = veth_ns(subnet, i as nat);
            assert(vh.last() == "_h"@[1]);
            assert(vn.last() == "_n"@[1]);
            if k == 3 {
                assert(c[2] == vh && c[3] == "master"@ && c[4] == bridge_name(subnet));
            } else if k == 5 {
                assert(c[2] == vn && c[3] == "netns"@);
            }
        }
    }
}

/// The words of a command.
pub open spec fn command_view(c: Seq<String>) -> Seq<Seq<char>> {
    c.map_values(|s: String| s@)
}

/// The words of each command.
pub open spec fn commands_view(cs: Seq<Vec<String>>) -> Seq<Seq<Seq<char>>> {
    cs.map_values(|c: Vec<String>| command_view(c@))
}

/// The nodes as views.
pub open spec fn nodes_view(ns: Seq<NodeInfo>) -> Seq<NodeView> {
    ns.map_values(|n: NodeInfo| n@)
}

/// The `ip` commands that tear a network down: each node's namespace, last
/// node first, then the bridge.
pub open spec fn teardown_commands(bridge: Seq<char>, nodes: Seq<NodeView>) -> Seq<Seq<Seq<char>>>
    decreases nodes.len(),
{
    if nodes.len() == 0 {
        seq![seq!["link"@, "set"@, bridge, "down"@], seq!["link"@, "del"@, bridge, "type"@, "bridge"@]]
    } else {
        seq![seq!["netns"@, "del"@, nodes.last().ns]] + teardown_commands(bridge, nodes.drop_last())
    }
}

fn prefix_of(subnet: &str) -> (p: String)
    ensures
        p@ == name_prefix(subnet@),
{
    let cs = chars_of(subnet);
    let mut p = String::new();
    let mut i: usize = 0;
    while i < cs.len()
        invariant
            0 <= i <= cs@.len(),
            p@ == name_prefix(cs@.take(i as int)),
        decreases cs@.len() - i,
    {
        let c = if cs[i] == '.' {
            '_'
        } else {
            cs[i]
        };
        push_char(&mut p, c);
        i += 1;
        assert(p@ =~= name_prefix(cs@.take(i as int)));
    }
    assert(cs@.take(cs@.len() as int) =~= cs@);
    p
}

fn cat(a: &str, b: &str) -> (r: String)
    ensures
        r@ == a@ + b@,
{
    let mut r = a.to_owned();
    r.append(b);
    r
}

fn numbered(a: &str, b: &str, i: usize, c: &str) -> (r: String)
    ensures
        r@ == a@ + b@ + decimal(i as nat) + c@,
{
    let mut r = a.to_owned();
    r.append(b);
    push_decimal(&mut r, i as u64);
    r.append(c);
    r
}

fn word(s: &str) -> (r: String)
    ensures
        r@ == s@,
{
    s.to_owned()
}

/// The network as its bridge's name and its nodes.
pub struct TopologyView {
    pub bridge: Seq<char>,
    pub nodes: Seq<NodeView>,
}

impl View for Topology {
    type V = TopologyView;

    closed spec fn view(&self) -> TopologyView {
        TopologyView { bridge: self.bridge@, nodes: nodes_view(self.nodes@) }
    }
}

impl Topology {
    /// The layout of a network of `n` nodes in `subnet` (such as
    /// `10.88.0`).
    pub fn new(n: usize, subnet: &str) -> (t: Self)
        requires
            n < usize::MAX,
        ensures
            t@.bridge == bridge_name(subnet@),
            t@.nodes.len() == n,
            forall|i: int| 0 <= i < n ==> #[trigger] t@.nodes[i] == node_view(subnet@, i as nat),
    {
        let prefix = prefix_of(subnet);
        let bridge = cat("br_", prefix.as_str());
        let mut nodes: Vec<NodeInfo> = Vec::new();
        let mut i: usize = 0;
        while i < n
            invariant
                0 <= i <= n < usize::MAX,
                prefix@ == name_prefix(subnet@),
                nodes@.len() == i,
                forall|j: int| 0 <= j < i ==> #[trigger] nodes@[j]@ == node_view(subnet@, j as nat),
            decreases n - i,
        {
            let ns = numbered("ns_", prefix.as_str(), i, "");
            let veth = numbered("veth_", prefix.as_str(), i, "_n");
            let ip = numbered(subnet, ".", i + 1, "");
            proof {
                reveal_strlit("");
                assert(ns@ =~= node_ns(subnet@, i as nat));
                assert(ip@ =~= node_ip(subnet@, i as nat));
            }
            nodes.push(NodeInfo { index: i, ns, ip, veth });
            i += 1;
        }
        Topology { bridge, nodes }
    }

    /// The bridge's name.
    pub fn bridge(&self) -> (b: &str)
        ensures
            b@ == self@.bridge,
    {
        self.bridge.as_str()
    }

    /// The `ip` commands that tear the network down.
    pub fn teardown_commands(&self) -> (cmds: Vec<Vec<String>>)
        ensures
            commands_view(cmds@) == teardown_commands(self@.bridge, self@.nodes),
    {
        let mut cmds: Vec<Vec<String>> = Vec::new();
        let mut k: usize = self.nodes.len();
        let ghost all = nodes_view(self.nodes@);
        assert(all.take(k as int) =~= all);
        assert(commands_view(cmds@) =~= Seq::<Seq<Seq<char>>>::empty());
        while k > 0
            invariant
                k <= self.nodes@.len(),
                all == nodes_view(self.nodes@),
                commands_view(cmds@) + teardown_commands(self.bridge@, all.take(k as int))
                    == teardown_commands(self.bridge@, all),
            decreases k,
        {
            let ghost before = cmds@;
            let c = vec![word("netns"), word("del"), self.nodes[k - 1].ns.clone()];
            cmds.push(c);
            proof {
                assert(all.take(k as int).drop_last() =~= all.take(k - 1));
                assert(all.take(k as int).last() == all[k - 1]);
                assert(command_view(c@) =~= seq!["netns"@, "del"@, all[k - 1].ns]);
                assert(commands_view(cmds@) =~= commands_view(before).push(command_view(c@)));
                assert(seq![seq!["netns"@, "del"@, all[k - 1].ns]] + teardown_commands(
                    self.bridge@,
                    all.take(k - 1),
                ) == teardown_commands(self.bridge@, all.take(k as int)));
                assert(commands_view(before) + teardown_commands(self.bridge@, all.take(k as int))
                    =~= commands_view(cmds@) + teardown_commands(self.bridge@, all.take(k - 1)));
            }
            k -= 1;
        }
        let ghost before = cmds@;
        let c1 = vec![word("link"), word("set"), self.bridge.clone(), word("down")];
        let c2 = vec![word("link"), word("del"), self.bridge.clone(), word("type"), word("bridge")];
        cmds.push(c1);
        cmds.push(c2);
        proof {
            assert(all.take(0) =~= Seq::<NodeView>::empty());
            assert(command_view(c1@) =~= seq!["link"@, "set"@, self.bridge@, "down"@]);
            assert(command_view(c2@) =~= seq!["link"@, "del"@, self.bridge@, "type"@, "bridge"@]);
            assert(commands_view(cmds@) =~~= commands_view(before) + teardown_commands(
                self.bridge@,
                all.take(0),
            ));
        }
        cmds
    }
}

/// The `ip` commands that build the network of `n` nodes in `subnet`, in
/// the order they must run.
pub fn setup_plan(n: usize, subnet: &str) -> (cmds: Vec<Vec<String>>)
    requires
        n < usize::MAX,
    ensures
        commands_view(cmds@) == setup_commands(subnet@, n as nat),
{
    let prefix = prefix_of(subnet);
    let bridge = cat("br_", prefix.as_str());
    let mut cmds: Vec<Vec<String>> = Vec::new();
    cmds.push(vec![word("link"), word("add"), bridge.clone(), word("type"), word("bridge")]);
    cmds.push(vec![word("link"), word("set"), bridge.clone(), word("up")]);
    proof {
        assert(commands_view(cmds@) =~~= setup_commands(subnet@, 0));
    }
    let mut i: usize = 0;
    while i < n
        invariant
            0 <= i <= n < usize::MAX,
            prefix@ == name_prefix(subnet@),
            bridge@ == bridge_name(subnet@),
            commands_view(cmds@) == setup_commands(subnet@, i as nat),
        decreases n - i,
    {
        let ns = numbered("ns_", prefix.as_str(), i, "");
        let vh = numbered("veth_", prefix.as_str(), i, "_h");
        let vn = numbered("veth_", prefix.as_str(), i, "_n");
        let cidr = numbered(subnet, ".", i + 1, "/24");
        let ghost before = cmds@;
        let node = vec![
            vec![word("netns"), word("add"), ns.clone()],
            vec![word("netns"), word("exec"), ns.clone(), word("ip"), word("link"), word("set"), word("lo"), word("up")],
            vec![word("link"), word("add"), vh.clone(), word("type"), word("veth"), word("peer"), word("name"), vn.clone()],
            vec![word("link"), word("set"), vh.clone(), word("master"), bridge.clone()],
            vec![word("link"), word("set"), vh.clone(), word("up")],
            vec![word("link"), word("set"), vn.clone(), word("netns"), ns.clone()],
            vec![word("netns"), word("exec"), ns.clone(), word("ip"), word("addr"), word("add"), cidr, word("dev"), vn.clone()],
            vec![word("netns"), word("exec"), ns.clone(), word("ip"), word("link"), word("set"), vn, word("up")],
        ];
        proof {
            reveal_strlit("");
            assert(ns@ =~= node_ns(subnet@, i as nat));
            assert(commands_view(node@) =~~= node_commands(subnet@, i as nat));
        }
        let mut node = node;
        let ghost added = node@;
        cmds.append(&mut node);
        assert(cmds@ == before + added);
        assert(commands_view(cmds@) =~= commands_view(before) + commands_view(added));
        i += 1;
        assert(commands_view(cmds@) =~= setup_commands(subnet@, i as nat));
    }
    cmds
}

} // verus!
