//! Dependency graph of the running containers: one node per container, laid out on a
//! grid in name order, and an edge for every dependency named in a container's
//! `fsn.requires` label (`"container-a,container-b"`); rendered as an SVG diagram.
use vstd::prelude::*;
use crate::containers::{find_label, label_value, label_views, ContainerInfo, HealthStatus};
use vstd::string::StringSliceAdditionalSpecFns;
use vstd::utf8::{decode_utf8, encode_utf8, encode_utf8_decode_utf8, is_char_boundary};
use crate::text::{
    chars_of, concat, decimal, decimal_string, nonblank_trimmed, owned, split_on, split_trimmed,
    str_eq, views,
};

verus! {

// ── Layout ────────────────────────────────────────────────────────────────────

/// Node width in pixels.
pub const NODE_W: u64 = 140;
/// Node height in pixels.
pub const NODE_H: u64 = 40;
/// Horizontal gap between nodes.
pub const H_GAP: u64 = 60;
/// Vertical gap between nodes.
pub const V_GAP: u64 = 80;
/// Nodes per row.
pub const COLS: u64 = 4;

/// Left edge of the node at grid position `i`.
pub open spec fn node_x(i: int) -> int {
    H_GAP + (i % COLS as int) * (NODE_W + H_GAP)
}

/// Top edge of the node at grid position `i`.
pub open spec fn node_y(i: int) -> int {
    V_GAP + (i / COLS as int) * (NODE_H + V_GAP)
}

// ── Health ────────────────────────────────────────────────────────────────────

/// The health key of a container's health state.
pub open spec fn health_key(h: HealthStatus) -> Seq<char> {
    match h {
        HealthStatus::Healthy => "ok"@,
        HealthStatus::Starting => "warn"@,
        HealthStatus::Unhealthy => "err"@,
        HealthStatus::Unchecked => "unknown"@,
    }
}

fn health_key_of(h: HealthStatus) -> (s: &'static str)
    ensures
        s@ == health_key(h),
{
    match h {
        HealthStatus::Healthy => "ok",
        HealthStatus::Starting => "warn",
        HealthStatus::Unhealthy => "err",
        HealthStatus::Unchecked => "unknown",
    }
}

/// The colour of a health key.
pub open spec fn spec_health_color(h: Seq<char>) -> Seq<char> {
    if h == "ok"@ {
        "#22c55e"@
    } else if h == "warn"@ {
        "#f59e0b"@
    } else if h == "err"@ {
        "#ef4444"@
    } else {
        "#6b7280"@
    }
}

/// The colour of a health key: green, amber, red, grey for anything else.
pub fn health_color(h: &str) -> (c: &'static str)
    ensures
        c@ == spec_health_color(h@),
{
    if str_eq(h, "ok") {
        "#22c55e"
    } else if str_eq(h, "warn") {
        "#f59e0b"
    } else if str_eq(h, "err") {
        "#ef4444"
    } else {
        "#6b7280"
    }
}

// ── Name order ────────────────────────────────────────────────────────────────

/// Lexicographic order of names by character code (the order of `String`'s `Ord`).
pub open spec fn name_le(a: Seq<char>, b: Seq<char>) -> bool
    decreases a.len(),
{
    if a.len() == 0 {
        true
    } else if b.len() == 0 {
        false
    } else if a[0] < b[0] {
        true
    } else if a[0] > b[0] {
        false
    } else {
        name_le(a.drop_first(), b.drop_first())
    }
}

/// Whether `a` comes before `b` or equals it in name order.
pub fn name_le_exec(a: &str, b: &str) -> (r: bool)
    ensures
        r == name_le(a@, b@),
{
    let x = chars_of(a);
    let y = chars_of(b);
    let mut i: usize = 0;
    assert(x@.skip(0) =~= x@);
    assert(y@.skip(0) =~= y@);
    while i < x.len() && i < y.len() && x[i] == y[i]
        invariant
            i <= x@.len(),
            i <= y@.len(),
            x@ == a@,
            y@ == b@,
            name_le(x@.skip(i as int), y@.skip(i as int)) == name_le(a@, b@),
        decreases x@.len() - i,
    {
        assert(x@.skip(i as int).drop_first() =~= x@.skip(i + 1));
        assert(y@.skip(i as int).drop_first() =~= y@.skip(i + 1));
        assert(x@.skip(i as int)[0] == x@[i as int]);
        assert(y@.skip(i as int)[0] == y@[i as int]);
        i += 1;
    }
    if i == x.len() {
        assert(x@.skip(i as int).len() == 0);
        true
    } else if i == y.len() {
        assert(y@.skip(i as int).len() == 0);
        false
    } else {
        assert(x@.skip(i as int)[0] == x@[i as int]);
        assert(y@.skip(i as int)[0] == y@[i as int]);
        x[i] < y[i]
    }
}

// ── Nodes ─────────────────────────────────────────────────────────────────────

/// A positioned node: the container's name and health key, and the node's top-left
/// corner in pixels.
#[derive(Debug)]
pub struct GraphNode {
    pub name: String,
    pub health: &'static str,
    pub x: u64,
    pub y: u64,
}

/// The name and health key of a node.
pub open spec fn node_key(n: GraphNode) -> (Seq<char>, Seq<char>) {
    (n.name@, n.health@)
}

/// The names and health keys of a list of nodes.
pub open spec fn node_keys(v: Seq<GraphNode>) -> Seq<(Seq<char>, Seq<char>)> {
    v.map_values(|n: GraphNode| node_key(n))
}

/// `x` inserted into `sorted` after every entry whose name does not come after its own.
pub open spec fn insert_by_name(sorted: Seq<(Seq<char>, Seq<char>)>, x: (Seq<char>, Seq<char>)) -> Seq<
    (Seq<char>, Seq<char>),
>
    decreases sorted.len(),
{
    if sorted.len() == 0 {
        seq![x]
    } else if name_le(sorted.last().0, x.0) {
        sorted.push(x)
    } else {
        insert_by_name(sorted.drop_last(), x).push(sorted.last())
    }
}

/// `s` sorted by name; entries with equal names keep their order (a stable sort).
pub open spec fn sort_by_name(s: Seq<(Seq<char>, Seq<char>)>) -> Seq<(Seq<char>, Seq<char>)>
    decreases s.len(),
{
    if s.len() == 0 {
        s
    } else {
        insert_by_name(sort_by_name(s.drop_last()), s.last())
    }
}

/// The name and health key of each container, in container order.
pub open spec fn container_keys(cs: Seq<ContainerInfo>) -> Seq<(Seq<char>, Seq<char>)> {
    cs.map_values(|c: ContainerInfo| (c.name@, health_key(c.health)))
}

fn insert_node(sorted: &mut Vec<GraphNode>, x: GraphNode)
    ensures
        node_keys(final(sorted)@) == insert_by_name(node_keys(old(sorted)@), node_key(x)),
        final(sorted)@.len() == old(sorted)@.len() + 1,
{
    let ghost s = node_keys(sorted@);
    let mut p: usize = sorted.len();
    assert(s.take(p as int) =~= s);
    assert(s.skip(p as int) =~= Seq::<(Seq<char>, Seq<char>)>::empty());
    while p > 0 && !name_le_exec(sorted[p - 1].name.as_str(), x.name.as_str())
        invariant
            p <= sorted@.len(),
            s == node_keys(sorted@),
            insert_by_name(s, node_key(x)) == insert_by_name(s.take(p as int), node_key(x)) + s.skip(
                p as int,
            ),
        decreases p,
    {
        assert(s.take(p as int).drop_last() =~= s.take(p - 1));
        assert(s.take(p as int).last() == s[p - 1]);
        assert(s.skip(p - 1) =~= seq![s[p - 1]] + s.skip(p as int));
        assert(insert_by_name(s.take(p as int), node_key(x)) == insert_by_name(
            s.take(p - 1),
            node_key(x),
        ).push(s[p - 1]));
        assert(insert_by_name(s.take(p - 1), node_key(x)).push(s[p - 1]) + s.skip(p as int)
            =~= insert_by_name(s.take(p - 1), node_key(x)) + s.skip(p - 1));
        p -= 1;
    }
    let ghost kx = node_key(x);
    if p > 0 {
        assert(s.take(p as int).last() == s[p - 1]);
    } else {
        assert(s.take(0) =~= Seq::<(Seq<char>, Seq<char>)>::empty());
    }
    sorted.insert(p, x);
    assert(node_keys(sorted@) =~= s.take(p as int).push(kx) + s.skip(p as int));
}

/// Build positioned nodes and (from, to) name edges from a container list.
///
/// Nodes are the containers sorted by name (stable), each placed on a grid of `COLS`
/// columns by its position in that order. Edges come in container order: for each
/// container, each trimmed, non-empty entry of its `fsn.requires` label that names a
/// container.
pub fn build_graph(containers: &Vec<ContainerInfo>) -> (g: (Vec<GraphNode>, Vec<(String, String)>))
    requires
        containers@.len() <= u32::MAX,
    ensures
        node_keys(g.0@) == sort_by_name(container_keys(containers@)),
        forall|i: int| 0 <= i < g.0@.len() ==> #[trigger] g.0@[i].x == node_x(i) && g.0@[i].y
            == node_y(i),
        edge_views(g.1@) == graph_edges(containers@, containers@.len() as int),
{
    let ghost keys = container_keys(containers@);
    let mut nodes: Vec<GraphNode> = Vec::new();
    let mut i: usize = 0;
    while i < containers.len()
        invariant
            i <= containers@.len(),
            keys == container_keys(containers@),
            nodes@.len() == i,
            node_keys(nodes@) == sort_by_name(keys.take(i as int)),
        decreases containers@.len() - i,
    {
        let c = &containers[i];
        let n = GraphNode { name: owned(c.name.as_str()), health: health_key_of(c.health), x: 0, y: 0 };
        assert(keys.take(i + 1).drop_last() =~= keys.take(i as int));
        assert(keys.take(i + 1).last() == node_key(n));
        insert_node(&mut nodes, n);
        i += 1;
    }
    assert(keys.take(containers@.len() as int) =~= keys);
    let ghost sorted = node_keys(nodes@);
    let mut k: usize = 0;
    while k < nodes.len()
        invariant
            k <= nodes@.len(),
            nodes@.len() == containers@.len(),
            containers@.len() <= u32::MAX,
            node_keys(nodes@) == sorted,
            forall|j: int| 0 <= j < k ==> #[trigger] nodes@[j].x == node_x(j) && nodes@[j].y
                == node_y(j),
        decreases nodes@.len() - k,
    {
        let col = (k as u64) % COLS;
        let row = (k as u64) / COLS;
        assert(col < 4);
        assert(row <= u32::MAX);
        assert(col * (NODE_W + H_GAP) <= 600) by (nonlinear_arith)
            requires
                col < 4,
                NODE_W + H_GAP == 200,
        ;
        assert(row * (NODE_H + V_GAP) <= u32::MAX * 120) by (nonlinear_arith)
            requires
                row <= u32::MAX,
        ;
        let ghost before = nodes@;
        let mut n = nodes.remove(k);
        n.x = H_GAP + col * (NODE_W + H_GAP);
        n.y = V_GAP + row * (NODE_H + V_GAP);
        nodes.insert(k, n);
        assert(node_keys(nodes@) =~= node_keys(before));
        k += 1;
    }
    let edges = graph_edge_list(containers);
    (nodes, edges)
}

// ── Edges ─────────────────────────────────────────────────────────────────────

/// The views of (from, to) edges.
pub open spec fn edge_views(v: Seq<(String, String)>) -> Seq<(Seq<char>, Seq<char>)> {
    v.map_values(|e: (String, String)| (e.0@, e.1@))
}

/// The container names.
pub open spec fn container_names(cs: Seq<ContainerInfo>) -> Seq<Seq<char>> {
    cs.map_values(|c: ContainerInfo| c.name@)
}

/// The edges from `from` to each of `deps[..n]` that is one of `names`.
pub open spec fn dep_edges(from: Seq<char>, deps: Seq<Seq<char>>, names: Seq<Seq<char>>, n: int) -> Seq<
    (Seq<char>, Seq<char>),
>
    decreases n,
{
    if n <= 0 {
        Seq::empty()
    } else {
        let rest = dep_edges(from, deps, names, n - 1);
        if names.contains(deps[n - 1]) {
            rest.push((from, deps[n - 1]))
        } else {
            rest
        }
    }
}

/// The dependencies a container's `fsn.requires` label names.
pub open spec fn requires_of(c: ContainerInfo) -> Seq<Seq<char>> {
    match label_value(label_views(c.labels@), "fsn.requires"@) {
        Some(req) => nonblank_trimmed(split_on(req, ',')),
        None => Seq::empty(),
    }
}

/// The edges of `cs[..n]`, in container order.
pub open spec fn graph_edges(cs: Seq<ContainerInfo>, n: int) -> Seq<(Seq<char>, Seq<char>)>
    decreases n,
{
    if n <= 0 {
        Seq::empty()
    } else {
        let deps = requires_of(cs[n - 1]);
        graph_edges(cs, n - 1) + dep_edges(cs[n - 1].name@, deps, container_names(cs), deps.len() as int)
    }
}

fn has_container(cs: &Vec<ContainerInfo>, name: &str) -> (b: bool)
    ensures
        b == container_names(cs@).contains(name@),
{
    let ghost ns = container_names(cs@);
    let mut i: usize = 0;
    while i < cs.len()
        invariant
            i <= cs@.len(),
            ns == container_names(cs@),
            forall|k: int| 0 <= k < i ==> ns[k] != name@,
        decreases cs@.len() - i,
    {
        if str_eq(cs[i].name.as_str(), name) {
            assert(ns[i as int] == name@);
            return true;
        }
        i += 1;
    }
    false
}

fn graph_edge_list(cs: &Vec<ContainerInfo>) -> (edges: Vec<(String, String)>)
    ensures
        edge_views(edges@) == graph_edges(cs@, cs@.len() as int),
{
    let mut edges: Vec<(String, String)> = Vec::new();
    let mut i: usize = 0;
    while i < cs.len()
        invariant
            i <= cs@.len(),
            edge_views(edges@) == graph_edges(cs@, i as int),
        decreases cs@.len() - i,
    {
        let c = &cs[i];
        let ghost start = edge_views(edges@);
        let deps = match find_label(&c.labels, "fsn.requires") {
            Some(req) => split_trimmed(req.as_str(), ','),
            None => Vec::new(),
        };
        assert(views(deps@) == requires_of(cs@[i as int]));
        let mut k: usize = 0;
        while k < deps.len()
            invariant
                k <= deps@.len(),
                i < cs@.len(),
                c == &cs@[i as int],
                views(deps@) == requires_of(cs@[i as int]),
                edge_views(edges@) == start + dep_edges(
                    c.name@,
                    views(deps@),
                    container_names(cs@),
                    k as int,
                ),
            decreases deps@.len() - k,
        {
            assert(views(deps@)[k as int] == deps@[k as int]@);
            if has_container(cs, deps[k].as_str()) {
                let ghost before = edges@;
                edges.push((owned(c.name.as_str()), owned(deps[k].as_str())));
                assert(edge_views(edges@) =~= edge_views(before).push((c.name@, deps@[k as int]@)));
            }
            k += 1;
        }
        i += 1;
    }
    edges
}

// ── SVG ───────────────────────────────────────────────────────────────────────

/// The canvas size for `n` nodes: `COLS` columns wide, as many rows as needed high
/// (120 pixels high without nodes).
pub open spec fn svg_size(n: nat) -> (int, int) {
    (
        COLS * (NODE_W + H_GAP) + H_GAP,
        if n == 0 {
            120
        } else {
            ((n + COLS - 1) / COLS as int) * (NODE_H + V_GAP) + V_GAP
        },
    )
}

/// The canvas size for `n` nodes.
pub fn graph_size(n: usize) -> (wh: (u64, u64))
    requires
        n <= u32::MAX,
    ensures
        wh.0 == svg_size(n as nat).0,
        wh.1 == svg_size(n as nat).1,
{
    let w = COLS * (NODE_W + H_GAP) + H_GAP;
    if n == 0 {
        (w, 120)
    } else {
        let rows = (n as u64 + (COLS - 1)) / COLS;
        assert(rows * (NODE_H + V_GAP) <= 0x1_0000_0000u64 * 120) by (nonlinear_arith)
            requires
                rows <= 0x1_0000_0000u64,
                NODE_H + V_GAP == 120,
        ;
        (w, rows * (NODE_H + V_GAP) + V_GAP)
    }
}

/// The centre of the last node named `name`, if any.
pub open spec fn center_of(nodes: Seq<GraphNode>, name: Seq<char>) -> Option<(int, int)>
    decreases nodes.len(),
{
    if nodes.len() == 0 {
        None
    } else if nodes.last().name@ == name {
        Some((nodes.last().x + NODE_W / 2, nodes.last().y + NODE_H / 2))
    } else {
        center_of(nodes.drop_last(), name)
    }
}

/// `n` in decimal.
pub open spec fn dec(n: int) -> Seq<char> {
    decimal(n as nat)
}

/// The opening tag of a `w` × `h` canvas.
pub open spec fn svg_open(w: int, h: int) -> Seq<char> {
    "<svg xmlns=\"http://www.w3.org/2000/svg\" width=\""@ + dec(w) + "\" height=\""@ + dec(h)
        + "\" style=\"display:block;\">"@
}

/// The arrow head marker definition.
pub open spec fn svg_marker() -> Seq<char> {
    "<defs><marker id=\"arr\" markerWidth=\"8\" markerHeight=\"8\" refX=\"7\" refY=\"3\" orient=\"auto\"><path d=\"M0,0 L0,6 L8,3 z\" fill=\"#6b7280\"/></marker></defs>"@
}

/// An arrow from one centre to another.
pub open spec fn svg_line(fx: int, fy: int, tx: int, ty: int) -> Seq<char> {
    "<line x1=\""@ + dec(fx) + "\" y1=\""@ + dec(fy) + "\" x2=\""@ + dec(tx) + "\" y2=\""@ + dec(ty)
        + "\" stroke=\"#6b7280\" stroke-width=\"1.5\" marker-end=\"url(#arr)\"/>"@
}

/// The arrows of `edges[..n]` whose two ends are nodes.
pub open spec fn edges_svg(nodes: Seq<GraphNode>, edges: Seq<(Seq<char>, Seq<char>)>, n: int) -> Seq<
    char,
>
    decreases n,
{
    if n <= 0 {
        Seq::empty()
    } else {
        edges_svg(nodes, edges, n - 1) + match (
            center_of(nodes, edges[n - 1].0),
            center_of(nodes, edges[n - 1].1),
        ) {
            (Some(f), Some(t)) => svg_line(f.0, f.1, t.0, t.1),
            _ => Seq::empty(),
        }
    }
}

/// The label of a node: names longer than 18 bytes are cut to their first 17 bytes and
/// end in an ellipsis.
pub open spec fn node_label(name: Seq<char>) -> Seq<char> {
    if encode_utf8(name).len() > 18 {
        decode_utf8(encode_utf8(name).take(17)) + "…"@
    } else {
        name
    }
}

/// The baseline of a node's text: its centre plus 4.5, rounded half to even.
pub open spec fn text_baseline(cy: int) -> int {
    if (cy + 4) % 2 == 0 {
        cy + 4
    } else {
        cy + 5
    }
}

/// A node: its box, its health dot and its label.
pub open spec fn node_svg(n: GraphNode) -> Seq<char> {
    let color = spec_health_color(n.health@);
    let cx = n.x + NODE_W / 2;
    let cy = n.y + NODE_H / 2;
    "<rect x=\""@ + dec(n.x as int) + "\" y=\""@ + dec(n.y as int)
        + "\" width=\"140\" height=\"40\" rx=\"6\" fill=\"#1e293b\" stroke=\""@ + color
        + "\" stroke-width=\"2\"/>"@ + "<circle cx=\""@ + dec(n.x + 14) + "\" cy=\""@ + dec(cy)
        + "\" r=\"5\" fill=\""@ + color + "\"/>"@ + "<text x=\""@ + dec(cx) + "\" y=\""@ + dec(
        text_baseline(cy),
    ) + "\" text-anchor=\"middle\" fill=\"#e2e8f0\" font-size=\"12\" font-family=\"monospace\">"@
        + node_label(n.name@) + "</text>"@
}

/// The nodes `nodes[..n]`.
pub open spec fn nodes_svg(nodes: Seq<GraphNode>, n: int) -> Seq<char>
    decreases n,
{
    if n <= 0 {
        Seq::empty()
    } else {
        nodes_svg(nodes, n - 1) + node_svg(nodes[n - 1])
    }
}

/// The whole diagram.
pub open spec fn spec_svg(
    nodes: Seq<GraphNode>,
    edges: Seq<(Seq<char>, Seq<char>)>,
    w: int,
    h: int,
) -> Seq<char> {
    svg_open(w, h) + svg_marker() + edges_svg(nodes, edges, edges.len() as int) + nodes_svg(
        nodes,
        nodes.len() as int,
    ) + "</svg>"@
}

/// A node's position leaves room for its arithmetic, its name's byte length fits in a
/// `usize`, and a long name can be cut after its 17th byte, where the label ends.
pub open spec fn drawable(n: GraphNode) -> bool {
    &&& n.x <= 0x1_0000_0000_0000
    &&& n.y <= 0x1_0000_0000_0000
    &&& encode_utf8(n.name@).len() <= usize::MAX
    &&& encode_utf8(n.name@).len() > 18 ==> is_char_boundary(encode_utf8(n.name@), 17)
}

fn find_center(nodes: &Vec<GraphNode>, name: &str) -> (r: Option<(u64, u64)>)
    requires
        forall|i: int| 0 <= i < nodes@.len() ==> drawable(#[trigger] nodes@[i]),
    ensures
        match center_of(nodes@, name@) {
            Some(c) => r matches Some(p) && p.0 == c.0 && p.1 == c.1,
            None => r is None,
        },
{
    let mut k: usize = nodes.len();
    assert(nodes@.take(k as int) =~= nodes@);
    while k > 0
        invariant
            k <= nodes@.len(),
            forall|i: int| 0 <= i < nodes@.len() ==> drawable(#[trigger] nodes@[i]),
            center_of(nodes@.take(k as int), name@) == center_of(nodes@, name@),
        decreases k,
    {
        assert(nodes@.take(k as int).last() == nodes@[k - 1]);
        assert(nodes@.take(k as int).drop_last() =~= nodes@.take(k - 1));
        let n = &nodes[k - 1];
        assert(drawable(nodes@[k - 1]));
        if str_eq(n.name.as_str(), name) {
            return Some((n.x + NODE_W / 2, n.y + NODE_H / 2));
        }
        k -= 1;
    }
    assert(nodes@.take(0) =~= Seq::<GraphNode>::empty());
    None
}

fn label_of(name: &str) -> (l: String)
    requires
        encode_utf8(name@).len() <= usize::MAX,
        encode_utf8(name@).len() > 18 ==> is_char_boundary(encode_utf8(name@), 17),
    ensures
        l@ == node_label(name@),
{
    if name.len() > 18 {
        let (head, _) = name.split_at(17);
        proof {
            encode_utf8_decode_utf8(head@);
            assert(head.spec_bytes() == encode_utf8(head@));
            assert(encode_utf8(name@).take(17) =~= head.spec_bytes());
            assert(decode_utf8(encode_utf8(name@).take(17)) == head@);
        }
        concat(head, "…")
    } else {
        assert(name.spec_bytes().len() <= 18);
        owned(name)
    }
}

fn node_markup(n: &GraphNode) -> (s: String)
    requires
        drawable(*n),
    ensures
        s@ == node_svg(*n),
{
    let color = health_color(n.health);
    let cx = n.x + NODE_W / 2;
    let cy = n.y + NODE_H / 2;
    let ty = if (cy + 4) % 2 == 0 {
        cy + 4
    } else {
        cy + 5
    };
    let mut s = owned("<rect x=\"");
    s.append(decimal_string(n.x).as_str());
    s.append("\" y=\"");
    s.append(decimal_string(n.y).as_str());
    s.append("\" width=\"140\" height=\"40\" rx=\"6\" fill=\"#1e293b\" stroke=\"");
    s.append(color);
    s.append("\" stroke-width=\"2\"/>");
    s.append("<circle cx=\"");
    s.append(decimal_string(n.x + 14).as_str());
    s.append("\" cy=\"");
    s.append(decimal_string(cy).as_str());
    s.append("\" r=\"5\" fill=\"");
    s.append(color);
    s.append("\"/>");
    s.append("<text x=\"");
    s.append(decimal_string(cx).as_str());
    s.append("\" y=\"");
    s.append(decimal_string(ty).as_str());
    s.append("\" text-anchor=\"middle\" fill=\"#e2e8f0\" font-size=\"12\" font-family=\"monospace\">");
    s.append(label_of(n.name.as_str()).as_str());
    s.append("</text>");
    s
}

/// The SVG diagram of a positioned graph on a `w` × `h` canvas: the arrows of the edges
/// whose two ends are nodes (each end at the centre of the last node with that name),
/// then the nodes with their health colour and label.
pub fn build_svg(nodes: &Vec<GraphNode>, edges: &Vec<(String, String)>, w: u64, h: u64) -> (svg:
    String)
    requires
        forall|i: int| 0 <= i < nodes@.len() ==> drawable(#[trigger] nodes@[i]),
    ensures
        svg@ == spec_svg(nodes@, edge_views(edges@), w as int, h as int),
{
    let ghost es = edge_views(edges@);
    let mut svg = owned("<svg xmlns=\"http://www.w3.org/2000/svg\" width=\"");
    svg.append(decimal_string(w).as_str());
    svg.append("\" height=\"");
    svg.append(decimal_string(h).as_str());
    svg.append("\" style=\"display:block;\">");
    svg.append(
        "<defs><marker id=\"arr\" markerWidth=\"8\" markerHeight=\"8\" refX=\"7\" refY=\"3\" orient=\"auto\"><path d=\"M0,0 L0,6 L8,3 z\" fill=\"#6b7280\"/></marker></defs>",
    );
    let ghost head = svg@;
    assert(head == svg_open(w as int, h as int) + svg_marker());
    let mut i: usize = 0;
    while i < edges.len()
        invariant
            i <= edges@.len(),
            es == edge_views(edges@),
            forall|k: int| 0 <= k < nodes@.len() ==> drawable(#[trigger] nodes@[k]),
            head == svg_open(w as int, h as int) + svg_marker(),
            svg@ == head + edges_svg(nodes@, es, i as int),
        decreases edges@.len() - i,
    {
        assert(es[i as int] == (edges@[i as int].0@, edges@[i as int].1@));
        let from = find_center(nodes, edges[i].0.as_str());
        let to = find_center(nodes, edges[i].1.as_str());
        match (from, to) {
            (Some((fx, fy)), Some((tx, ty))) => {
                let mut line = owned("<line x1=\"");
                line.append(decimal_string(fx).as_str());
                line.append("\" y1=\"");
                line.append(decimal_string(fy).as_str());
                line.append("\" x2=\"");
                line.append(decimal_string(tx).as_str());
                line.append("\" y2=\"");
                line.append(decimal_string(ty).as_str());
                line.append("\" stroke=\"#6b7280\" stroke-width=\"1.5\" marker-end=\"url(#arr)\"/>");
                svg.append(line.as_str());
            },
            _ => {},
        }
        i += 1;
    }
    let ghost mid = svg@;
    let mut k: usize = 0;
    while k < nodes.len()
        invariant
            k <= nodes@.len(),
            forall|j: int| 0 <= j < nodes@.len() ==> drawable(#[trigger] nodes@[j]),
            svg@ == mid + nodes_svg(nodes@, k as int),
        decreases nodes@.len() - k,
    {
        assert(drawable(nodes@[k as int]));
        let m = node_markup(&nodes[k]);
        svg.append(m.as_str());
        k += 1;
    }
    svg.append("</svg>");
    svg
}

// ── Order laws ────────────────────────────────────────────────────────────────

/// Entries sorted by name.
pub open spec fn sorted_by_name(s: Seq<(Seq<char>, Seq<char>)>) -> bool {
    forall|i: int, j: int| 0 <= i < j < s.len() ==> name_le(#[trigger] s[i].0, #[trigger] s[j].0)
}

pub(crate) proof fn lemma_name_le_total(a: Seq<char>, b: Seq<char>)
    ensures
        name_le(a, b) || name_le(b, a),
    decreases a.len(),
{
    if a.len() > 0 && b.len() > 0 && a[0] == b[0] {
        lemma_name_le_total(a.drop_first(), b.drop_first());
    }
}

pub(crate) proof fn lemma_name_le_trans(a: Seq<char>, b: Seq<char>, c: Seq<char>)
    requires
        name_le(a, b),
        name_le(b, c),
    ensures
        name_le(a, c),
    decreases a.len(),
{
    if a.len() > 0 && b.len() > 0 && c.len() > 0 && a[0] == b[0] && b[0] == c[0] {
        lemma_name_le_trans(a.drop_first(), b.drop_first(), c.drop_first());
    }
}

pub(crate) proof fn lemma_name_le_antisym(a: Seq<char>, b: Seq<char>)
    requires
        name_le(a, b),
        name_le(b, a),
    ensures
        a == b,
    decreases a.len(),
{
    if a.len() > 0 && b.len() > 0 {
        lemma_name_le_antisym(a.drop_first(), b.drop_first());
        assert(a =~= seq![a[0]] + a.drop_first());
        assert(b =~= seq![b[0]] + b.drop_first());
    } else if a.len() == 0 && b.len() > 0 {
    } else if b.len() == 0 {
        assert(a =~= b);
    }
}

proof fn lemma_insert(s: Seq<(Seq<char>, Seq<char>)>, x: (Seq<char>, Seq<char>))
    requires
        sorted_by_name(s),
    ensures
        sorted_by_name(insert_by_name(s, x)),
        insert_by_name(s, x).len() == s.len() + 1,
        forall|y: (Seq<char>, Seq<char>)| #[trigger] insert_by_name(s, x).contains(y) <==> (s.contains(y) || y == x),
    decreases s.len(),
{
    let r = insert_by_name(s, x);
    if s.len() == 0 {
        assert forall|y: (Seq<char>, Seq<char>)| #[trigger] r.contains(y) <==> (s.contains(y) || y == x) by {
            if r.contains(y) {
                assert(r[0] == x);
            }
            if y == x {
                assert(r[0] == x);
            }
        }
    } else if name_le(s.last().0, x.0) {
        assert forall|i: int, j: int| 0 <= i < j < r.len() implies name_le(#[trigger] r[i].0, #[trigger] r[j].0) by {
            if j == r.len() - 1 {
                if i < s.len() - 1 {
                    lemma_name_le_trans(s[i].0, s.last().0, x.0);
                }
            }
        }
        assert forall|y: (Seq<char>, Seq<char>)| #[trigger] r.contains(y) <==> (s.contains(y) || y == x) by {
            if r.contains(y) {
                let k = choose|k: int| 0 <= k < r.len() && r[k] == y;
                if k < s.len() {
                    assert(s[k] == y);
                }
            }
            if s.contains(y) {
                let k = choose|k: int| 0 <= k < s.len() && s[k] == y;
                assert(r[k] == y);
            }
            if y == x {
                assert(r[s.len() as int] == x);
            }
        }
    } else {
        let t = s.drop_last();
        let last = s.last();
        assert(sorted_by_name(t)) by {
            assert forall|i: int, j: int| 0 <= i < j < t.len() implies name_le(#[trigger] t[i].0, #[trigger] t[j].0) by {
                assert(t[i] == s[i] && t[j] == s[j]);
            }
        }
        lemma_insert(t, x);
        let q = insert_by_name(t, x);
        assert(r == q.push(last));
        lemma_name_le_total(last.0, x.0);
        assert forall|i: int, j: int| 0 <= i < j < r.len() implies name_le(#[trigger] r[i].0, #[trigger] r[j].0) by {
            if j == r.len() - 1 {
                assert(r[j] == last);
                assert(q.contains(r[i]));
                if r[i] == x {
                } else {
                    assert(t.contains(r[i]));
                    let k = choose|k: int| 0 <= k < t.len() && t[k] == r[i];
                    assert(s[k] == t[k]);
                    assert(s[s.len() - 1] == last);
                }
            } else {
                assert(r[i] == q[i] && r[j] == q[j]);
            }
        }
        assert forall|y: (Seq<char>, Seq<char>)| #[trigger] r.contains(y) <==> (s.contains(y) || y == x) by {
            if r.contains(y) {
                let k = choose|k: int| 0 <= k < r.len() && r[k] == y;
                if k < q.len() {
                    assert(q[k] == y);
                    assert(q.contains(y));
                    if t.contains(y) {
                        let m = choose|m: int| 0 <= m < t.len() && t[m] == y;
                        assert(s[m] == y);
                    }
                } else {
                    assert(s[s.len() - 1] == y);
                }
            }
            if s.contains(y) {
                let k = choose|k: int| 0 <= k < s.len() && s[k] == y;
                if k < s.len() - 1 {
                    assert(t[k] == y);
                    assert(q.contains(y));
                    let m = choose|m: int| 0 <= m < q.len() && q[m] == y;
                    assert(r[m] == y);
                } else {
                    assert(r[r.len() - 1] == y);
                }
            }
            if y == x {
                assert(q.contains(x));
                let m = choose|m: int| 0 <= m < q.len() && q[m] == x;
                assert(r[m] == x);
            }
        }
    }
}

/// Sorting by name orders the entries by name, keeps their number, and keeps exactly
/// the entries it was given.
pub proof fn law_sort_by_name(s: Seq<(Seq<char>, Seq<char>)>)
    ensures
        sorted_by_name(sort_by_name(s)),
        sort_by_name(s).len() == s.len(),
        forall|y: (Seq<char>, Seq<char>)| #[trigger] sort_by_name(s).contains(y) <==> s.contains(y),
    decreases s.len(),
{
    if s.len() > 0 {
        let t = s.drop_last();
        law_sort_by_name(t);
        lemma_insert(sort_by_name(t), s.last());
        assert forall|y: (Seq<char>, Seq<char>)| #[trigger] sort_by_name(s).contains(y) <==> s.contains(y) by {
            if t.contains(y) {
                let k = choose|k: int| 0 <= k < t.len() && t[k] == y;
                assert(s[k] == y);
            }
            if s.contains(y) {
                let k = choose|k: int| 0 <= k < s.len() && s[k] == y;
                if k < s.len() - 1 {
                    assert(t[k] == y);
                }
            }
        }
    }
}

// ── The diagram of the containers ─────────────────────────────────────────────

/// A container's name can be drawn: its byte length fits in a `usize` and, when it is
/// longer than 18 bytes, its 17th byte ends a character.
pub open spec fn drawable_name(name: Seq<char>) -> bool {
    &&& encode_utf8(name).len() <= usize::MAX
    &&& encode_utf8(name).len() > 18 ==> is_char_boundary(encode_utf8(name), 17)
}

/// The dependency diagram of the containers, or `None` when there are none ("No
/// containers found."): the graph built from them, drawn on a canvas of `svg_size`.
pub fn dependency_svg(containers: &Vec<ContainerInfo>) -> (r: Option<String>)
    requires
        containers@.len() <= u32::MAX,
        forall|i: int| 0 <= i < containers@.len() ==> drawable_name(#[trigger] containers@[i].name@),
    ensures
        containers@.len() == 0 ==> r is None,
        containers@.len() > 0 ==> r is Some && exists|nodes: Seq<GraphNode>|
            {
                &&& node_keys(nodes) == sort_by_name(container_keys(containers@))
                &&& nodes.len() == containers@.len()
                &&& forall|i: int| 0 <= i < nodes.len() ==> #[trigger] nodes[i].x == node_x(i)
                    && nodes[i].y == node_y(i)
                &&& r->0@ == spec_svg(
                    nodes,
                    graph_edges(containers@, containers@.len() as int),
                    svg_size(containers@.len()).0,
                    svg_size(containers@.len()).1,
                )
            },
{
    if containers.len() == 0 {
        return None;
    }
    let (nodes, edges) = build_graph(containers);
    let ghost keys = container_keys(containers@);
    proof {
        law_sort_by_name(keys);
        assert forall|i: int| 0 <= i < nodes@.len() implies drawable(#[trigger] nodes@[i]) by {
            assert(node_keys(nodes@)[i] == node_key(nodes@[i]));
            assert(sort_by_name(keys).contains(node_key(nodes@[i])));
            let k = choose|k: int| 0 <= k < keys.len() && keys[k] == node_key(nodes@[i]);
            assert(keys[k].0 == containers@[k].name@);
            assert(drawable_name(containers@[k].name@));
            assert(nodes@[i].x == node_x(i));
            assert(nodes@[i].y == node_y(i));
            assert(i / 4 <= 0x4000_0000);
            assert((i / 4) * 120 <= 0x4000_0000 * 120) by (nonlinear_arith)
                requires
                    i / 4 <= 0x4000_0000,
                    i >= 0,
            ;
        }
    }
    let (w, h) = graph_size(nodes.len());
    Some(build_svg(&nodes, &edges, w, h))
}


/// The colour a container's node is drawn in: green when healthy, amber while starting,
/// red when unhealthy, grey without a health check. The four states get four different
/// colours.
pub proof fn law_health_colors(h: HealthStatus, g: HealthStatus)
    ensures
        spec_health_color(health_key(h)) == match h {
            HealthStatus::Healthy => "#22c55e"@,
            HealthStatus::Starting => "#f59e0b"@,
            HealthStatus::Unhealthy => "#ef4444"@,
            HealthStatus::Unchecked => "#6b7280"@,
        },
        h != g ==> spec_health_color(health_key(h)) != spec_health_color(health_key(g)),
{
    reveal_strlit("ok");
    reveal_strlit("warn");
    reveal_strlit("err");
    reveal_strlit("unknown");
    reveal_strlit("#22c55e");
    reveal_strlit("#f59e0b");
    reveal_strlit("#ef4444");
    reveal_strlit("#6b7280");
    assert("#22c55e"@[1] != "#f59e0b"@[1]);
    assert("#22c55e"@[1] != "#ef4444"@[1]);
    assert("#22c55e"@[1] != "#6b7280"@[1]);
    assert("#f59e0b"@[1] != "#ef4444"@[1]);
    assert("#f59e0b"@[1] != "#6b7280"@[1]);
    assert("#ef4444"@[1] != "#6b7280"@[1]);
    assert("ok"@[0] != "warn"@[0]);
    assert("ok"@[0] != "err"@[0]);
    assert("warn"@[0] != "err"@[0]);
}

} // verus!
