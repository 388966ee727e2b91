//! The pure part of the accessibility-tree scan.
//!
//! The external tree is read one remote call at a time by the platform
//! shell, which assembles what it could fetch into a snapshot forest of
//! [`UiNode`] values; a node whose data could not be fetched is simply
//! absent, which loses that node and its subtree and nothing else. The
//! traversal below — pre-order within each application, applications in
//! their given order — and the filter decisions and the containing-app
//! lookup are verified here against one recursive specification.

use crate::detection::filters::should_process_element;
use crate::detection::filters::spec_should_process_element;
use crate::detection::types::DetectedElement;
use crate::detection::types::ElementBounds;
use crate::detection::types::ElementView;
use crate::detection::types::Role;
use crate::detection::types::StateFlags;
use crate::detection::types::spec_role_name;
use vstd::prelude::*;
use vstd::string::StringExecFns;

verus! {

/// Why a whole detection cycle failed. Failures of single nodes are not
/// errors: the node is skipped and the scan goes on.
#[derive(Clone, Copy, Debug, PartialEq, Eq, Structural)]
pub enum ScanError {
    /// The accessibility registry cannot be reached at all.
    TransportUnavailable,
}

/// Snapshot of one accessible node: the fields the filter reads, the
/// strings a detected element carries, and the children in their given
/// order.
#[derive(Debug)]
pub struct UiNode {
    pub role: Role,
    pub states: StateFlags,
    pub bounds: ElementBounds,
    pub name: String,
    pub description: String,
    pub children: Vec<UiNode>,
}

/// How many ancestors are inspected at most when looking for the
/// containing application.
pub const APP_NAME_MAX_HOPS: usize = 10;

/// The application name for a node with the given ancestor chain (root
/// first, parent last): the name of the nearest ancestor with the
/// Application role among the last `hops` entries, or "Unknown".
pub open spec fn spec_app_name(anc: Seq<(Role, String)>, hops: nat) -> Seq<char>
    decreases hops,
{
    if hops == 0 || anc.len() == 0 {
        "Unknown"@
    } else if anc.last().0 == Role::Application {
        anc.last().1@
    } else {
        spec_app_name(anc.drop_last(), (hops - 1) as nat)
    }
}

/// Whether a node passes the bounds check and the filter pipeline.
pub open spec fn spec_keep(node: UiNode) -> bool {
    node.bounds.spec_is_valid() && spec_should_process_element(node.role, node.states, node.bounds)
}

/// The snapshot a kept node leaves behind, in the given ancestor context.
pub open spec fn spec_element_of(node: UiNode, anc: Seq<(Role, String)>) -> ElementView {
    ElementView {
        bounds: node.bounds,
        role: spec_role_name(node.role),
        name: node.name@,
        app_name: spec_app_name(anc, APP_NAME_MAX_HOPS as nat),
        description: node.description@,
    }
}

/// The elements a pre-order visit of one node and its subtree collects.
pub open spec fn spec_scan_node(node: UiNode, anc: Seq<(Role, String)>) -> Seq<ElementView>
    decreases node,
{
    let here = if spec_keep(node) {
        seq![spec_element_of(node, anc)]
    } else {
        Seq::empty()
    };
    here + spec_scan_seq(node.children@, anc.push((node.role, node.name)))
}

/// The elements visits of the nodes of `nodes`, in order, collect.
pub open spec fn spec_scan_seq(nodes: Seq<UiNode>, anc: Seq<(Role, String)>) -> Seq<ElementView>
    decreases nodes,
{
    if nodes.len() == 0 {
        Seq::empty()
    } else {
        spec_scan_node(nodes[0], anc) + spec_scan_seq(nodes.drop_first(), anc)
    }
}

/// Find the containing application's name: walk the ancestor chain from
/// the parent upward, at most [`APP_NAME_MAX_HOPS`] steps, and take the
/// name of the first ancestor with the Application role; default to
/// "Unknown".
pub fn app_name_from_ancestors(anc: &Vec<(Role, String)>) -> (r: String)
    ensures
        r@ == spec_app_name(anc@, APP_NAME_MAX_HOPS as nat),
{
    let mut i: usize = anc.len();
    let mut hops: usize = APP_NAME_MAX_HOPS;
    proof {
        assert(anc@.subrange(0, i as int) =~= anc@);
    }
    while i > 0 && hops > 0
        invariant
            i <= anc@.len(),
            hops <= APP_NAME_MAX_HOPS,
            spec_app_name(anc@, APP_NAME_MAX_HOPS as nat) == spec_app_name(
                anc@.subrange(0, i as int),
                hops as nat,
            ),
        decreases i,
    {
        let ghost prefix = anc@.subrange(0, i as int);
        proof {
            assert(prefix.last() == anc@[i - 1]);
            assert(prefix.drop_last() =~= anc@.subrange(0, i - 1));
        }
        if anc[i - 1].0 == Role::Application {
            return anc[i - 1].1.clone();
        }
        i = i - 1;
        hops = hops - 1;
    }
    String::from_str("Unknown")
}

/// Collect every hintable element under the given application roots:
/// applications in their given order, pre-order within each application,
/// each kept node paired with the name of its containing application.
pub fn collect_elements(roots: &Vec<UiNode>) -> (r: Vec<DetectedElement>)
    ensures
        r.deep_view() == spec_scan_seq(roots@, Seq::empty()),
{
    let mut out: Vec<DetectedElement> = Vec::new();
    let mut anc: Vec<(Role, String)> = Vec::new();
    scan_nodes(roots, &mut anc, &mut out);
    proof {
        assert(out.deep_view() =~= spec_scan_seq(roots@, Seq::empty()));
    }
    out
}

/// Visit one node: keep it if the filter accepts it, then visit its
/// children with the node appended to the ancestor chain.
fn scan_node(node: &UiNode, anc: &mut Vec<(Role, String)>, out: &mut Vec<DetectedElement>)
    ensures
        final(anc)@ == old(anc)@,
        final(out).deep_view() == old(out).deep_view() + spec_scan_node(*node, old(anc)@),
    decreases *node,
{
    let ghost anc0 = anc@;
    let ghost out0 = out.deep_view();
    if node.bounds.is_valid() && should_process_element(node.role, &node.states, &node.bounds) {
        let app_name = app_name_from_ancestors(anc);
        let element = DetectedElement::new(
            node.bounds,
            node.role,
            node.name.clone(),
            app_name,
            node.description.clone(),
        );
        out.push(element);
        proof {
            assert(out.deep_view() =~= out0 + seq![spec_element_of(*node, anc0)]);
        }
    } else {
        proof {
            assert(out.deep_view() =~= out0 + Seq::<ElementView>::empty());
        }
    }
    anc.push((node.role, node.name.clone()));
    scan_nodes(&node.children, anc, out);
    anc.pop();
    proof {
        assert(anc@ =~= anc0);
        assert(out.deep_view() =~= out0 + spec_scan_node(*node, anc0));
    }
}

/// Visit each node of `nodes` in order, in the ancestor context `anc`.
fn scan_nodes(nodes: &Vec<UiNode>, anc: &mut Vec<(Role, String)>, out: &mut Vec<DetectedElement>)
    ensures
        final(anc)@ == old(anc)@,
        final(out).deep_view() == old(out).deep_view() + spec_scan_seq(nodes@, old(anc)@),
    decreases nodes@,
{
    let ghost anc0 = anc@;
    let ghost out0 = out.deep_view();
    let n = nodes.len();
    let mut i: usize = 0;
    proof {
        assert(nodes@.skip(0) =~= nodes@);
    }
    while i < n
        invariant
            i <= n,
            n == nodes@.len(),
            anc@ == anc0,
            out0 + spec_scan_seq(nodes@, anc0) == out.deep_view() + spec_scan_seq(
                nodes@.skip(i as int),
                anc0,
            ),
        decreases n - i,
    {
        let ghost before = out.deep_view();
        proof {
            assert(decreases_to!(nodes@ => nodes@[i as int]));
            assert(nodes@.skip(i as int)[0] == nodes@[i as int]);
            assert(nodes@.skip(i as int).drop_first() =~= nodes@.skip(i + 1));
        }
        scan_node(&nodes[i], anc, out);
        i += 1;
        proof {
            assert(out0 + spec_scan_seq(nodes@, anc0) =~= out.deep_view() + spec_scan_seq(
                nodes@.skip(i as int),
                anc0,
            ));
        }
    }
    proof {
        assert(nodes@.skip(n as int) =~= Seq::<UiNode>::empty());
        assert(out.deep_view() =~= out0 + spec_scan_seq(nodes@, anc0));
    }
}

} // verus!
