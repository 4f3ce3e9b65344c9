//! The generic document tree and its mathematical model.

use vstd::prelude::*;

verus! {

/// Mathematical model of one document node: the value of [`Node::view`].
pub enum NodeView {
    Null,
    Bool(bool),
    Number(Seq<char>),
    Str(Seq<char>),
    Array(Seq<NodeView>),
    Object(Seq<(Seq<char>, NodeView)>),
}

/// The type tag of a node, as reported in shape-mismatch errors.
#[derive(Debug, Clone, Copy, PartialEq, Eq, Structural)]
pub enum NodeKind {
    Null,
    Bool,
    Number,
    Str,
    Array,
    Object,
}

/// One node of a document tree: null, a boolean, a number (kept as its
/// literal text), a string, an ordered sequence of nodes, or an ordered
/// mapping from string keys to nodes.
///
/// A document is immutable and owned by the caller; every typed view
/// borrows into it.
#[derive(Debug)]
pub enum Node {
    Null,
    Bool(bool),
    Number(String),
    Str(String),
    Array(Vec<Node>),
    Object(Vec<(String, Node)>),
}

/// Model of a sequence node's elements.
pub open spec fn items_view(items: Vec<Node>) -> Seq<NodeView>
    decreases items,
{
    Seq::new(
        items@.len(),
        |i: int| if 0 <= i < items@.len() { items@[i]@ } else { NodeView::Null },
    )
}

/// Model of a mapping node's entries, in document order.
pub open spec fn entries_view(entries: Vec<(String, Node)>) -> Seq<(Seq<char>, NodeView)>
    decreases entries,
{
    Seq::new(
        entries@.len(),
        |i: int|
            if 0 <= i < entries@.len() {
                (entries@[i].0@, entries@[i].1@)
            } else {
                (Seq::<char>::empty(), NodeView::Null)
            },
    )
}

impl View for Node {
    type V = NodeView;

    open spec fn view(&self) -> NodeView
        decreases self,
    {
        match self {
            Node::Null => NodeView::Null,
            Node::Bool(b) => NodeView::Bool(*b),
            Node::Number(text) => NodeView::Number(text@),
            Node::Str(s) => NodeView::Str(s@),
            Node::Array(items) => NodeView::Array(items_view(*items)),
            Node::Object(entries) => NodeView::Object(entries_view(*entries)),
        }
    }
}

impl NodeView {
    /// The type tag of this node.
    pub open spec fn kind(self) -> NodeKind {
        match self {
            NodeView::Null => NodeKind::Null,
            NodeView::Bool(_) => NodeKind::Bool,
            NodeView::Number(_) => NodeKind::Number,
            NodeView::Str(_) => NodeKind::Str,
            NodeView::Array(_) => NodeKind::Array,
            NodeView::Object(_) => NodeKind::Object,
        }
    }

    /// Total number of nodes in the tree rooted here, each counted once.
    pub open spec fn count(self) -> nat
        decreases self,
    {
        match self {
            NodeView::Null => 1,
            NodeView::Bool(_) => 1,
            NodeView::Number(_) => 1,
            NodeView::Str(_) => 1,
            NodeView::Array(items) => 1 + count_items(items, 0),
            NodeView::Object(entries) => 1 + count_entries(entries, 0),
        }
    }
}

/// Sum of the node counts of `items[i..]`.
pub open spec fn count_items(items: Seq<NodeView>, i: int) -> nat
    decreases items, items.len() - i,
{
    if i < 0 || i >= items.len() {
        0
    } else {
        items[i].count() + count_items(items, i + 1)
    }
}

/// Sum of the node counts of the values of `entries[i..]`.
pub open spec fn count_entries(entries: Seq<(Seq<char>, NodeView)>, i: int) -> nat
    decreases entries, entries.len() - i,
{
    if i < 0 || i >= entries.len() {
        0
    } else {
        entries[i].1.count() + count_entries(entries, i + 1)
    }
}

/// The value bound to `key` in an entry sequence: the first entry whose key
/// matches, in document order.
pub open spec fn lookup(entries: Seq<(Seq<char>, NodeView)>, key: Seq<char>) -> Option<NodeView>
    decreases entries.len(),
{
    if entries.len() == 0 {
        None
    } else if entries[0].0 == key {
        Some(entries[0].1)
    } else {
        lookup(entries.drop_first(), key)
    }
}

/// Field lookup on a node: `None` unless the node is a mapping that binds
/// `key`. Absence of a key and a non-mapping node both read as "no value".
pub open spec fn get_field(n: NodeView, key: Seq<char>) -> Option<NodeView> {
    match n {
        NodeView::Object(entries) => lookup(entries, key),
        _ => None,
    }
}

/// Skipping entries whose keys all differ from `key` leaves the lookup
/// result unchanged.
proof fn lemma_lookup_skip(entries: Seq<(Seq<char>, NodeView)>, key: Seq<char>, i: int)
    requires
        0 <= i <= entries.len(),
        forall|j: int| 0 <= j < i ==> entries[j].0 != key,
    ensures
        lookup(entries, key) == lookup(entries.skip(i), key),
    decreases i,
{
    if i > 0 {
        lemma_lookup_skip(entries.drop_first(), key, i - 1);
        assert(entries.drop_first().skip(i - 1) =~= entries.skip(i));
    } else {
        assert(entries.skip(0) =~= entries);
    }
}

/// Relies on str's `PartialEq`: two string slices are equal exactly when
/// their character sequences are.
#[verifier::external_body]
pub(crate) fn str_eq(a: &str, b: &str) -> (r: bool)
    ensures
        r == (a@ == b@),
{
    a == b
}

impl Node {
    /// The type tag of this node.
    pub fn kind(&self) -> (k: NodeKind)
        ensures
            k == self@.kind(),
    {
        match self {
            Node::Null => NodeKind::Null,
            Node::Bool(_) => NodeKind::Bool,
            Node::Number(_) => NodeKind::Number,
            Node::Str(_) => NodeKind::Str,
            Node::Array(_) => NodeKind::Array,
            Node::Object(_) => NodeKind::Object,
        }
    }

    /// Looks `key` up in this node: the first entry bound to `key` if the
    /// node is a mapping that has one, `None` otherwise.
    pub fn get<'a>(&'a self, key: &str) -> (r: Option<&'a Node>)
        ensures
            match r {
                Some(v) => get_field(self@, key@) == Some(v@),
                None => get_field(self@, key@) is None,
            },
    {
        match self {
            Node::Object(entries) => {
                let ghost ev = entries_view(*entries);
                let mut i: usize = 0;
                while i < entries.len()
                    invariant
                        0 <= i <= entries.len(),
                        ev == entries_view(*entries),
                        ev.len() == entries@.len(),
                        get_field(self@, key@) == lookup(ev, key@),
                        forall|j: int| 0 <= j < i ==> ev[j].0 != key@,
                    decreases entries.len() - i,
                {
                    if str_eq(entries[i].0.as_str(), key) {
                        proof {
                            lemma_lookup_skip(ev, key@, i as int);
                            assert(ev.skip(i as int)[0] == ev[i as int]);
                        }
                        return Some(&entries[i].1);
                    }
                    i = i + 1;
                }
                proof {
                    lemma_lookup_skip(ev, key@, entries@.len() as int);
                }
                None
            },
            _ => None,
        }
    }
}

/// Saturating addition on `u64`.
fn add_sat(a: u64, b: u64) -> (r: u64)
    ensures
        r as nat == if a + b <= u64::MAX { (a + b) as nat } else { u64::MAX as nat },
{
    if a <= u64::MAX - b {
        a + b
    } else {
        u64::MAX
    }
}

/// Number of nodes in the tree rooted at `n`, each visited exactly once;
/// saturates at `u64::MAX` on a tree too large to count in a `u64`.
pub fn node_count(n: &Node) -> (r: u64)
    ensures
        r <= n@.count(),
        n@.count() <= u64::MAX ==> r == n@.count(),
    decreases n,
{
    match n {
        Node::Null => 1,
        Node::Bool(_) => 1,
        Node::Number(_) => 1,
        Node::Str(_) => 1,
        Node::Array(items) => {
            let sub = count_items_exec(items, 0);
            add_sat(1, sub)
        },
        Node::Object(entries) => {
            let sub = count_entries_exec(entries, 0);
            add_sat(1, sub)
        },
    }
}

/// Sum of the node counts of `items[j..]`, saturating at `u64::MAX`.
fn count_items_exec(items: &Vec<Node>, j: usize) -> (r: u64)
    requires
        j <= items@.len(),
    ensures
        r <= count_items(items_view(*items), j as int),
        count_items(items_view(*items), j as int) <= u64::MAX ==> r == count_items(
            items_view(*items),
            j as int,
        ),
    decreases items, items@.len() - j,
{
    if j == items.len() {
        0
    } else {
        let c = node_count(&items[j]);
        let rest = count_items_exec(items, j + 1);
        proof {
            assert(items_view(*items)[j as int] == items@[j as int]@);
        }
        add_sat(c, rest)
    }
}

/// Sum of the node counts of the values of `entries[j..]`, saturating at
/// `u64::MAX`.
fn count_entries_exec(entries: &Vec<(String, Node)>, j: usize) -> (r: u64)
    requires
        j <= entries@.len(),
    ensures
        r <= count_entries(entries_view(*entries), j as int),
        count_entries(entries_view(*entries), j as int) <= u64::MAX ==> r == count_entries(
            entries_view(*entries),
            j as int,
        ),
    decreases entries, entries@.len() - j,
{
    if j == entries.len() {
        0
    } else {
        let c = node_count(&entries[j].1);
        let rest = count_entries_exec(entries, j + 1);
        proof {
            assert(entries_view(*entries)[j as int].1 == entries@[j as int].1@);
        }
        add_sat(c, rest)
    }
}

} // verus!
