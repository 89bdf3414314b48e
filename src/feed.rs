//! Walking parsed feed documents and flattening their entries into field
//! maps.

use vstd::prelude::*;
use crate::fields::FieldMap;
use crate::markup::{parse_xml, xml_tree_of, Attribute, MarkupNode};
use crate::text::opt_view;

verus! {

broadcast use vstd::std_specs::vec::group_vec_axioms;

/// The children of a document or element node; other nodes have none.
pub open spec fn children_of(n: MarkupNode) -> Seq<MarkupNode> {
    match n {
        MarkupNode::Document { children } => children@,
        MarkupNode::Element { children, .. } => children@,
        _ => Seq::empty(),
    }
}

/// The text of a node's first child, where that child is a text node.
pub open spec fn below_text(n: MarkupNode) -> Option<Seq<char>> {
    let c = children_of(n);
    if c.len() > 0 {
        match c[0] {
            MarkupNode::Text { text } => Some(text@),
            _ => None,
        }
    } else {
        None
    }
}

/// `n` is an element whose local name is `name`.
pub open spec fn is_element_named(n: MarkupNode, name: Seq<char>) -> bool {
    match n {
        MarkupNode::Element { name: m, .. } => m@ == name,
        _ => false,
    }
}

/// The nodes reached from `n` by descending through child elements named
/// `path[d]`, `path[d + 1]`, ... in turn, in document order.
pub open spec fn dig(n: MarkupNode, path: Seq<&str>, d: int) -> Seq<MarkupNode>
    decreases n, 0int,
{
    if d < 0 || d >= path.len() {
        seq![n]
    } else {
        match n {
            MarkupNode::Document { children } => dig_all(children@, children@.len() as int, path, d),
            MarkupNode::Element { children, .. } => dig_all(
                children@,
                children@.len() as int,
                path,
                d,
            ),
            _ => Seq::empty(),
        }
    }
}

/// `dig` over the first `k` nodes of `s` whose name is `path[d]`, one step
/// further down the path.
pub open spec fn dig_all(s: Seq<MarkupNode>, k: int, path: Seq<&str>, d: int) -> Seq<MarkupNode>
    decreases s, k,
{
    if k <= 0 || k > s.len() || d < 0 || d >= path.len() {
        Seq::empty()
    } else {
        dig_all(s, k - 1, path, d) + if is_element_named(s[k - 1], path[d]@) {
            dig(s[k - 1], path, d + 1)
        } else {
            Seq::empty()
        }
    }
}

fn children_exec(node: &MarkupNode) -> (r: Option<&Vec<MarkupNode>>)
    ensures
        r matches Some(c) ==> c@ == children_of(*node),
        r is None ==> children_of(*node).len() == 0,
        r matches Some(c) ==> decreases_to!(*node => *c),
{
    match node {
        MarkupNode::Document { children } => Some(children),
        MarkupNode::Element { children, .. } => Some(children),
        _ => None,
    }
}

/// The text of the first child of `node`, where that child is a text node.
pub fn get_below_string(node: &MarkupNode) -> (r: Option<String>)
    ensures
        opt_view(r) == below_text(*node),
{
    match children_exec(node) {
        Some(c) => {
            if c.len() > 0 {
                match &c[0] {
                    MarkupNode::Text { text } => Some(text.clone()),
                    _ => None,
                }
            } else {
                None
            }
        },
        None => None,
    }
}

/// The nodes below `node` along `path[depth..]`: at each step only the
/// child elements with the step's name are followed.
pub fn dig_xml<'a>(node: &'a MarkupNode, path: &Vec<&str>, depth: usize) -> (r: Vec<&'a MarkupNode>)
    requires
        depth <= path@.len(),
    ensures
        r@.map_values(|x: &MarkupNode| *x) == dig(*node, path@, depth as int),
    decreases node,
{
    if depth >= path.len() {
        let mut out: Vec<&'a MarkupNode> = Vec::new();
        out.push(node);
        assert(out@.map_values(|x: &MarkupNode| *x) =~= seq![*node]);
        return out;
    }
    let children = match node {
        MarkupNode::Document { children } => children,
        MarkupNode::Element { children, .. } => children,
        _ => {
            let out: Vec<&'a MarkupNode> = Vec::new();
            assert(out@.map_values(|x: &MarkupNode| *x) =~= Seq::<MarkupNode>::empty());
            return out;
        },
    };
    let step = String::from_str(path[depth]);
    let mut out: Vec<&'a MarkupNode> = Vec::new();
    let mut i: usize = 0;
    assert(out@.map_values(|x: &MarkupNode| *x) =~= Seq::<MarkupNode>::empty());
    while i < children.len()
        invariant
            i <= children.len(),
            depth < path.len(),
            step@ == path@[depth as int]@,
            dig(*node, path@, depth as int) == dig_all(
                children@,
                children@.len() as int,
                path@,
                depth as int,
            ),
            decreases_to!(*node => *children),
            out@.map_values(|x: &MarkupNode| *x) == dig_all(
                children@,
                i as int,
                path@,
                depth as int,
            ),
        decreases children.len() - i,
    {
        let child = &children[i];
        let named = match child {
            MarkupNode::Element { name, .. } => *name == step,
            _ => false,
        };
        let ghost prev = out@.map_values(|x: &MarkupNode| *x);
        if named {
            proof {
                assert(decreases_to!(*children => children[i as int]));
            }
            let mut below = dig_xml(child, path, depth + 1);
            out.append(&mut below);
        }
        assert(out@.map_values(|x: &MarkupNode| *x) =~= prev + if is_element_named(
            *child,
            path@[depth as int]@,
        ) {
            dig(*child, path@, depth + 1)
        } else {
            Seq::<MarkupNode>::empty()
        });
        i = i + 1;
    }
    out
}

/// Which kind of feed entry a node stands for.
#[derive(Clone, Copy, Debug, PartialEq, Eq, Structural)]
pub enum EntryKind {
    /// A station of the station list; its child elements `id`, `name`,
    /// `banner` and `area_id` are kept.
    Station,
    /// A program of a schedule; its child elements `title`, `img`, `info`,
    /// `desc` and `pfm` are kept, then all its attributes.
    Program,
}

/// The child element names that an entry of `kind` keeps.
pub open spec fn listed(kind: EntryKind, name: Seq<char>) -> bool {
    match kind {
        EntryKind::Station => name == "id"@ || name == "name"@ || name == "banner"@ || name
            == "area_id"@,
        EntryKind::Program => name == "title"@ || name == "img"@ || name == "info"@ || name
            == "desc"@ || name == "pfm"@,
    }
}

/// The entries that the first `k` children in `s` give: each kept element
/// gives its name and the text below it.
pub open spec fn child_fields(s: Seq<MarkupNode>, k: int, kind: EntryKind) -> Seq<
    (Seq<char>, Option<Seq<char>>),
>
    decreases k,
{
    if k <= 0 || k > s.len() {
        Seq::empty()
    } else {
        child_fields(s, k - 1, kind) + match s[k - 1] {
            MarkupNode::Element { name, .. } => if listed(kind, name@) {
                seq![(name@, below_text(s[k - 1]))]
            } else {
                Seq::empty()
            },
            _ => Seq::empty(),
        }
    }
}

/// The entries that the first `k` attributes give: each its name and value.
pub open spec fn attr_fields(attrs: Seq<Attribute>, k: int) -> Seq<(Seq<char>, Option<Seq<char>>)>
    decreases k,
{
    if k <= 0 || k > attrs.len() {
        Seq::empty()
    } else {
        attr_fields(attrs, k - 1) + seq![(attrs[k - 1].name@, Some(attrs[k - 1].value@))]
    }
}

/// The field entries of an element of `kind`, where `n` is an element.
pub open spec fn entry_of(n: MarkupNode, kind: EntryKind) -> Option<Seq<(Seq<char>, Option<Seq<char>>)>> {
    match n {
        MarkupNode::Element { attrs, children, .. } => Some(
            child_fields(children@, children@.len() as int, kind) + if kind == EntryKind::Program {
                attr_fields(attrs@, attrs@.len() as int)
            } else {
                Seq::empty()
            },
        ),
        _ => None,
    }
}

/// The field entries of the first `k` nodes of `nodes` that are elements.
pub open spec fn entries_of(nodes: Seq<MarkupNode>, k: int, kind: EntryKind) -> Seq<
    Seq<(Seq<char>, Option<Seq<char>>)>,
>
    decreases k,
{
    if k <= 0 || k > nodes.len() {
        Seq::empty()
    } else {
        entries_of(nodes, k - 1, kind) + match entry_of(nodes[k - 1], kind) {
            Some(e) => seq![e],
            None => Seq::empty(),
        }
    }
}

fn listed_exec(kind: EntryKind, name: &String) -> (r: bool)
    ensures
        r == listed(kind, name@),
{
    match kind {
        EntryKind::Station => *name == String::from_str("id") || *name == String::from_str("name")
            || *name == String::from_str("banner") || *name == String::from_str("area_id"),
        EntryKind::Program => *name == String::from_str("title") || *name == String::from_str(
            "img",
        ) || *name == String::from_str("info") || *name == String::from_str("desc") || *name
            == String::from_str("pfm"),
    }
}

/// Flattens an element into a field map: the kept child elements in
/// document order, then, for a program, its attributes, which thus take
/// precedence over a child of the same name. `None` where `node` is not an
/// element.
pub fn entry_fields(node: &MarkupNode, kind: EntryKind) -> (r: Option<FieldMap>)
    ensures
        match r {
            Some(m) => entry_of(*node, kind) == Some(m.entries_view()),
            None => entry_of(*node, kind) is None,
        },
{
    let (attrs, children) = match node {
        MarkupNode::Element { attrs, children, .. } => (attrs, children),
        _ => return None,
    };
    let mut map = FieldMap::new();
    let mut i: usize = 0;
    assert(map.entries_view() =~= Seq::empty());
    while i < children.len()
        invariant
            i <= children.len(),
            map.entries_view() == child_fields(children@, i as int, kind),
        decreases children.len() - i,
    {
        let child = &children[i];
        let ghost prev = map.entries_view();
        if let MarkupNode::Element { name, .. } = child {
            if listed_exec(kind, name) {
                let value = get_below_string(child);
                map.insert(name.clone(), value);
            }
        }
        assert(map.entries_view() =~= prev + match *child {
            MarkupNode::Element { name, .. } => if listed(kind, name@) {
                seq![(name@, below_text(*child))]
            } else {
                Seq::empty()
            },
            _ => Seq::empty(),
        });
        i = i + 1;
    }
    if kind == EntryKind::Program {
        let ghost base = map.entries_view();
        let mut j: usize = 0;
        assert(attr_fields(attrs@, 0) =~= Seq::empty());
        assert(base + attr_fields(attrs@, 0) =~= base);
        while j < attrs.len()
            invariant
                j <= attrs.len(),
                map.entries_view() == base + attr_fields(attrs@, j as int),
            decreases attrs.len() - j,
        {
            let ghost prev = map.entries_view();
            map.insert(attrs[j].name.clone(), Some(attrs[j].value.clone()));
            assert(map.entries_view() =~= prev + seq![(attrs[j as int].name@, Some(attrs[j as int].value@))]);
            assert(base + attr_fields(attrs@, j + 1) =~= base + attr_fields(attrs@, j as int) + seq![
                (attrs[j as int].name@, Some(attrs[j as int].value@)),
            ]);
            j = j + 1;
        }
    } else {
        assert(map.entries_view() =~= map.entries_view() + Seq::empty());
    }
    Some(map)
}

/// The field maps of the elements of `nodes`, in order.
pub fn collect_entries(nodes: &Vec<&MarkupNode>, kind: EntryKind) -> (r: Vec<FieldMap>)
    ensures
        r@.map_values(|m: FieldMap| m.entries_view()) == entries_of(
            nodes@.map_values(|x: &MarkupNode| *x),
            nodes@.len() as int,
            kind,
        ),
{
    let ghost ns = nodes@.map_values(|x: &MarkupNode| *x);
    let mut out: Vec<FieldMap> = Vec::new();
    let mut i: usize = 0;
    assert(out@.map_values(|m: FieldMap| m.entries_view()) =~= Seq::empty());
    while i < nodes.len()
        invariant
            i <= nodes.len(),
            ns == nodes@.map_values(|x: &MarkupNode| *x),
            out@.map_values(|m: FieldMap| m.entries_view()) == entries_of(ns, i as int, kind),
        decreases nodes.len() - i,
    {
        let ghost prev = out@.map_values(|m: FieldMap| m.entries_view());
        let got = entry_fields(nodes[i], kind);
        assert(ns[i as int] == *nodes@[i as int]);
        match got {
            Some(m) => {
                out.push(m);
            },
            None => {},
        }
        assert(out@.map_values(|m: FieldMap| m.entries_view()) =~= prev + match entry_of(
            ns[i as int],
            kind,
        ) {
            Some(e) => seq![e],
            None => Seq::empty(),
        });
        i = i + 1;
    }
    out
}

/// The path from a station list's root to its stations.
pub open spec fn station_path() -> Seq<&'static str> {
    seq!["region", "stations", "station"]
}

/// The path from a schedule's root to its programs.
pub open spec fn program_path() -> Seq<&'static str> {
    seq!["radiko", "stations", "station", "progs", "prog"]
}

/// The field maps of the stations of a parsed station list.
pub fn station_entries(doc: &MarkupNode) -> (r: Vec<FieldMap>)
    ensures
        ({
            let nodes = dig(*doc, station_path(), 0);
            r@.map_values(|m: FieldMap| m.entries_view()) == entries_of(
                nodes,
                nodes.len() as int,
                EntryKind::Station,
            )
        }),
{
    let path = vec!["region", "stations", "station"];
    assert(path@ =~= station_path());
    let nodes = dig_xml(doc, &path, 0);
    collect_entries(&nodes, EntryKind::Station)
}

/// The field maps of the programs of a parsed schedule.
pub fn program_entries(doc: &MarkupNode) -> (r: Vec<FieldMap>)
    ensures
        ({
            let nodes = dig(*doc, program_path(), 0);
            r@.map_values(|m: FieldMap| m.entries_view()) == entries_of(
                nodes,
                nodes.len() as int,
                EntryKind::Program,
            )
        }),
{
    let path = vec!["radiko", "stations", "station", "progs", "prog"];
    assert(path@ =~= program_path());
    let nodes = dig_xml(doc, &path, 0);
    collect_entries(&nodes, EntryKind::Program)
}

/// The field maps of the stations of a station list document.
pub fn station_list_entries(xml: &str) -> (r: Vec<FieldMap>)
    ensures
        ({
            let nodes = dig(xml_tree_of(xml@), station_path(), 0);
            r@.map_values(|m: FieldMap| m.entries_view()) == entries_of(
                nodes,
                nodes.len() as int,
                EntryKind::Station,
            )
        }),
{
    let doc = parse_xml(xml);
    station_entries(&doc)
}

/// The field maps of the programs of a schedule document.
pub fn schedule_entries(xml: &str) -> (r: Vec<FieldMap>)
    ensures
        ({
            let nodes = dig(xml_tree_of(xml@), program_path(), 0);
            r@.map_values(|m: FieldMap| m.entries_view()) == entries_of(
                nodes,
                nodes.len() as int,
                EntryKind::Program,
            )
        }),
{
    let doc = parse_xml(xml);
    program_entries(&doc)
}

} // verus!
