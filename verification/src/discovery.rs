//! Device discovery over a hardware description tree.
//!
//! The tree is walked depth-first, roots in order and then children in
//! order.  A node is accepted when its `status` property is exactly
//! `okay` and its `compatible` property — a NUL-separated list of
//! strings — holds a string listed in the match table; the first
//! accepted node wins and yields the kernel device name the table maps
//! it to.  No accepted node anywhere means the hardware is absent, which
//! is a graceful-exit condition, not a crash.

use vstd::prelude::*;
use vstd::string::StringSliceAdditionalSpecFns;

use crate::Error;
use crate::bytes::{spec_split_nul, split_nul, bytes_eq};

verus! {

/// One node of the hardware description tree, with the two properties
/// discovery reads.  An absent property reads as empty.
pub struct DtNode {
    /// Raw `compatible` property: NUL-separated strings.
    pub compatible: Vec<u8>,
    /// Raw `status` property; a node is eligible only when it is exactly
    /// `okay`.
    pub status: Vec<u8>,
    pub children: Vec<DtNode>,
}

/// One row of the static match table: a compatible string and the kernel
/// device name it maps to.
#[derive(Debug, Clone, PartialEq, Eq)]
pub struct CompatEntry {
    pub compatible: Vec<u8>,
    pub device: Vec<u8>,
}

/// Whether the node's `status` property marks it enabled.
pub open spec fn spec_node_enabled(n: DtNode) -> bool {
    n.status@ == "okay".spec_bytes()
}

/// First table row at or after `j` whose compatible string occurs in the
/// node's `compatible` list; yields the mapped device name.
pub open spec fn spec_match_from(n: DtNode, table: Seq<CompatEntry>, j: int) -> Option<Seq<u8>>
    decreases table.len() - j when 0 <= j <= table.len()
{
    if j >= table.len() {
        None
    } else if spec_split_nul(n.compatible@).contains(table[j].compatible@) {
        Some(table[j].device@)
    } else {
        spec_match_from(n, table, j + 1)
    }
}

/// The device name an enabled, compatible node maps to.
pub open spec fn spec_node_match(n: DtNode, table: Seq<CompatEntry>) -> Option<Seq<u8>> {
    if spec_node_enabled(n) {
        spec_match_from(n, table, 0)
    } else {
        None
    }
}

/// Depth-first, first-match walk over `nodes[i..]` and their subtrees.
pub open spec fn spec_walk_from(nodes: Seq<DtNode>, i: int, table: Seq<CompatEntry>) -> Option<
    Seq<u8>,
>
    decreases nodes, nodes.len() - i when 0 <= i
{
    if i >= nodes.len() {
        None
    } else {
        match spec_node_match(nodes[i], table) {
            Some(d) => Some(d),
            None => match spec_walk_from(nodes[i].children@, 0, table) {
                Some(d) => Some(d),
                None => spec_walk_from(nodes, i + 1, table),
            },
        }
    }
}

/// The device name discovery resolves over the whole tree, if any.
pub open spec fn spec_discover(roots: Seq<DtNode>, table: Seq<CompatEntry>) -> Option<Seq<u8>> {
    spec_walk_from(roots, 0, table)
}

fn lists_contain(lists: &Vec<Vec<u8>>, needle: &[u8]) -> (r: bool)
    ensures
        r == lists@.map_values(|v: Vec<u8>| v@).contains(needle@),
{
    let ghost views = lists@.map_values(|v: Vec<u8>| v@);
    let n = lists.len();
    let mut i: usize = 0;
    while i < n
        invariant
            n == lists@.len(),
            i <= n,
            views == lists@.map_values(|v: Vec<u8>| v@),
            forall|j: int| 0 <= j < i ==> views[j] != needle@,
        decreases n - i,
    {
        if bytes_eq(lists[i].as_slice(), needle) {
            assert(views[i as int] == needle@);
            return true;
        }
        i += 1;
    }
    proof {
        assert(!views.contains(needle@)) by {
            if views.contains(needle@) {
                let j = choose|j: int| 0 <= j < views.len() && views[j] == needle@;
                assert(views[j] != needle@);
            }
        }
    }
    false
}

fn node_match(n: &DtNode, table: &Vec<CompatEntry>) -> (r: Option<Vec<u8>>)
    ensures
        match r {
            Some(d) => spec_node_match(*n, table@) == Some(d@),
            None => spec_node_match(*n, table@) is None,
        },
{
    if !bytes_eq(n.status.as_slice(), "okay".as_bytes()) {
        return None;
    }
    let lists = split_nul(n.compatible.as_slice());
    let m = table.len();
    let mut j: usize = 0;
    while j < m
        invariant
            m == table@.len(),
            j <= m,
            spec_node_enabled(*n),
            lists@.map_values(|v: Vec<u8>| v@) == spec_split_nul(n.compatible@),
            spec_match_from(*n, table@, 0) == spec_match_from(*n, table@, j as int),
        decreases m - j,
    {
        if lists_contain(&lists, table[j].compatible.as_slice()) {
            let d = vstd::slice::slice_to_vec(table[j].device.as_slice());
            return Some(d);
        }
        j += 1;
    }
    None
}

fn walk_from(nodes: &Vec<DtNode>, i: usize, table: &Vec<CompatEntry>) -> (r: Option<Vec<u8>>)
    requires
        i <= nodes@.len(),
    ensures
        match r {
            Some(d) => spec_walk_from(nodes@, i as int, table@) == Some(d@),
            None => spec_walk_from(nodes@, i as int, table@) is None,
        },
    decreases nodes@, nodes@.len() - i,
{
    if i >= nodes.len() {
        return None;
    }
    let n = &nodes[i];
    match node_match(n, table) {
        Some(d) => Some(d),
        None => {
            match walk_from(&n.children, 0, table) {
                Some(d) => Some(d),
                None => walk_from(nodes, i + 1, table),
            }
        },
    }
}

/// Resolve the monitored device over a hardware description tree: the
/// first enabled node with a known compatible string, depth-first, root
/// order then child order.  A tree without one is `NotFound`: the caller
/// exits cleanly, since the daemon may be installed on hardware without
/// the monitored device.
pub fn discover(roots: &Vec<DtNode>, table: &Vec<CompatEntry>) -> (r: Result<Vec<u8>, Error>)
    ensures
        match r {
            Ok(d) => spec_discover(roots@, table@) == Some(d@),
            Err(e) => e == Error::NotFound && spec_discover(roots@, table@) is None,
        },
{
    match walk_from(roots, 0, table) {
        Some(d) => Ok(d),
        None => Err(Error::NotFound),
    }
}

} // verus!
