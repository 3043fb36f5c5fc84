//! Which node this machine works as, and how nodes are shown.
use vstd::prelude::*;

use crate::nodes::{Node, SelectionRead};

verus! {

/// A node with this id is there and in use.
pub open spec fn can_be_active(nodes: Seq<Node>, id: Seq<char>) -> bool {
    exists|i: int| 0 <= i < nodes.len() && (#[trigger] nodes[i]).id@ == id && !nodes[i].archived
}

/// The first node with an id.
pub open spec fn first_with_id(nodes: Seq<Node>, id: Seq<char>, at: int) -> bool {
    &&& 0 <= at < nodes.len()
    &&& nodes[at].id@ == id
    &&& forall|i: int| 0 <= i < at ==> (#[trigger] nodes[i]).id@ != id
}

/// A label of the default node that nobody chose.
pub open spec fn unconfirmed_label(node: Node) -> bool {
    node.id@ == "default"@ && !node.user_named && crate::text::trimmed(node.display_name@)
        != "Default"@
}

/// A node is shown under its own name, except that a label of the default node
/// that nobody chose is not shown, and that is said.
pub proof fn nodes_are_shown_under_their_names(node: Node)
    ensures
        ({
            let shown = crate::nodes::identity_of(node);
            &&& shown.id == node.id@
            &&& shown.registry_display_name == node.display_name@
            &&& !unconfirmed_label(node) ==> shown.display_name == node.display_name@
                && shown.diagnostics.len() == 0
            &&& unconfirmed_label(node) ==> shown.display_name == "Default"@
                && shown.diagnostics.len() == 1 && shown.diagnostics[0].code
                == "ambiguous_legacy_default_display_name"@
        }),
{
}

/// The node that is found under an id is the first that has it.
pub proof fn the_first_node_with_an_id_is_found(nodes: Seq<Node>, id: Seq<char>)
    ensures
        forall|at: int| #[trigger]
            first_with_id(nodes, id, at) ==> crate::nodes::node_with_id(nodes, id) == Some(
                nodes[at],
            ),
        crate::nodes::node_with_id(nodes, id) is None ==> forall|i: int|
            0 <= i < nodes.len() ==> (#[trigger] nodes[i]).id@ != id,
        crate::nodes::node_with_id(nodes, id) is Some ==> exists|i: int|
            0 <= i < nodes.len() && (#[trigger] nodes[i]).id@ == id,
    decreases nodes.len(),
{
    if nodes.len() > 0 {
        let rest = nodes.drop_first();
        the_first_node_with_an_id_is_found(rest, id);
        assert(nodes[0] == nodes.first());
        assert forall|i: int| 0 < i < nodes.len() implies #[trigger] nodes[i] == rest[i - 1] by {}
        if nodes[0].id@ != id {
            if crate::nodes::node_with_id(rest, id) is Some {
                let i = choose|i: int| 0 <= i < rest.len() && (#[trigger] rest[i]).id@ == id;
                assert(nodes[i + 1].id@ == id);
            }
            assert forall|at: int| #[trigger]
                first_with_id(nodes, id, at) implies crate::nodes::node_with_id(nodes, id) == Some(
                nodes[at],
            ) by {
                assert forall|i: int| 0 <= i < at - 1 implies (#[trigger] rest[i]).id@ != id by {
                    assert(rest[i] == nodes[i + 1]);
                }
                assert(rest[at - 1] == nodes[at]);
                assert(first_with_id(rest, id, at - 1));
            }
        } else {
            assert forall|at: int| #[trigger]
                first_with_id(nodes, id, at) implies crate::nodes::node_with_id(nodes, id) == Some(
                nodes[at],
            ) by {
                if at > 0 {
                    assert(nodes[0].id@ != id);
                }
            }
        }
    }
}

/// Without a recorded selection the default node is active.
pub proof fn without_a_selection_the_default_node_is_active(
    nodes: Seq<Node>,
    refine_dir: Seq<char>,
    local: bool,
)
    ensures
        ({
            let (id, said) = crate::nodes::resolved_selection(
                nodes,
                SelectionRead::Missing,
                refine_dir,
                local,
            );
            id == "default"@ && said.len() == 0
        }),
{
}

/// A selection for this project is followed exactly where its node can be
/// active; a selection for another project never is.
pub proof fn only_the_selection_of_this_project_is_followed(
    nodes: Seq<Node>,
    read: SelectionRead,
    refine_dir: Seq<char>,
    local: bool,
)
    requires
        read is Scoped,
    ensures
        ({
            let wanted = read->Scoped_0;
            let (id, said) = crate::nodes::resolved_selection(nodes, read, refine_dir, local);
            &&& wanted.same_project && can_be_active(nodes, wanted.active_node_id@) ==> id
                == wanted.active_node_id@ && said.len() == 0
            &&& wanted.same_project && !can_be_active(nodes, wanted.active_node_id@) ==> id
                == "default"@ && said.len() == 1 && said[0].code
                == "invalid_active_node_selection"@
            &&& !wanted.same_project ==> id == "default"@ && said.len() > 0 && said[0].code
                == "active_node_selection_project_mismatch"@
        }),
{
}

/// A selection that names no project is followed only where it is recorded
/// with the project; one that is recorded on this machine is ignored unless it
/// is the default node.
pub proof fn unscoped_selections_count_only_with_their_project(
    nodes: Seq<Node>,
    read: SelectionRead,
    refine_dir: Seq<char>,
    local: bool,
)
    requires
        read is Unscoped,
        crate::laws::values::names_something((read->Unscoped_0)@, "active_node_id"@),
    ensures
        ({
            let named = crate::laws::values::text_of((read->Unscoped_0)@, "active_node_id"@);
            let (id, said) = crate::nodes::resolved_selection(nodes, read, refine_dir, local);
            &&& local && named != "default"@ ==> id == "default"@ && said.len() > 0 && said[0].code
                == "legacy_unscoped_active_node_selection"@
            &&& !local && can_be_active(nodes, named) ==> id == named && said.len() == 0
            &&& !can_be_active(nodes, named) ==> id == "default"@ && said.len() > 0
        }),
{
    crate::laws::texts::blank_texts_hold_only_white_space(
        crate::laws::values::text_of((read->Unscoped_0)@, "active_node_id"@),
    );
}

/// A node is active only where it can be, or where it is the default one.
pub proof fn active_nodes_are_in_use(
    nodes: Seq<Node>,
    read: SelectionRead,
    refine_dir: Seq<char>,
    local: bool,
)
    ensures
        ({
            let (id, said) = crate::nodes::resolved_selection(nodes, read, refine_dir, local);
            id == "default"@ || can_be_active(nodes, id)
        }),
{
}

/// The active node is shown as the node with its id is, and what is said of the
/// selection comes before what is said of its label.
pub proof fn the_active_node_is_shown_as_itself(
    nodes: Seq<Node>,
    read: SelectionRead,
    refine_dir: Seq<char>,
    local: bool,
    at: int,
)
    ensures
        ({
            let (id, said) = crate::nodes::resolved_selection(nodes, read, refine_dir, local);
            let shown = crate::nodes::active_identity_of(nodes, read, refine_dir, local);
            &&& shown.id == id
            &&& first_with_id(nodes, id, at) && !unconfirmed_label(nodes[at])
                ==> shown.display_name == nodes[at].display_name@ && shown.diagnostics == said
            &&& first_with_id(nodes, id, at) && unconfirmed_label(nodes[at]) ==> shown.display_name
                == "Default"@ && shown.diagnostics.len() == said.len() + 1
            &&& nodes.len() == 0 ==> shown.display_name == "Default"@
            &&& said.len() <= shown.diagnostics.len() && shown.diagnostics.take(said.len() as int)
                == said
        }),
{
    let (id, said) = crate::nodes::resolved_selection(nodes, read, refine_dir, local);
    let shown = crate::nodes::active_identity_of(nodes, read, refine_dir, local);
    the_first_node_with_an_id_is_found(nodes, id);
    the_first_node_with_an_id_is_found(nodes, "default"@);
    assert(shown.diagnostics.take(said.len() as int) =~= said);
    if first_with_id(nodes, id, at) && !unconfirmed_label(nodes[at]) {
        assert(shown.diagnostics =~= said);
    }
}

/// The last node with an id.
pub open spec fn last_with_id(nodes: Seq<Node>, id: Seq<char>, at: int) -> bool {
    &&& 0 <= at < nodes.len()
    &&& nodes[at].id@ == id
    &&& forall|i: int| at < i < nodes.len() ==> (#[trigger] nodes[i]).id@ != id
}

/// A table of nodes shows each id that occurs, as the last node with it.
pub proof fn every_node_is_in_the_table(nodes: Seq<Node>, id: Seq<char>)
    ensures
        crate::nodes::identity_table(nodes).contains_key(id) == exists|i: int|
            0 <= i < nodes.len() && (#[trigger] nodes[i]).id@ == id,
        forall|at: int| #[trigger]
            last_with_id(nodes, id, at) ==> crate::nodes::identity_table(nodes)[id]
                == crate::nodes::identity_of(nodes[at]),
    decreases nodes.len(),
{
    if nodes.len() > 0 {
        let rest = nodes.drop_last();
        let last: int = nodes.len() - 1;
        every_node_is_in_the_table(rest, id);
        if exists|i: int| 0 <= i < rest.len() && (#[trigger] rest[i]).id@ == id {
            let i = choose|i: int| 0 <= i < rest.len() && (#[trigger] rest[i]).id@ == id;
            assert(nodes[i].id@ == id);
        }
        assert(nodes[last] == nodes.last());
        if exists|i: int| 0 <= i < nodes.len() && (#[trigger] nodes[i]).id@ == id {
            let i = choose|i: int| 0 <= i < nodes.len() && (#[trigger] nodes[i]).id@ == id;
            if i < last {
                assert(rest[i].id@ == id);
            }
        }
        assert forall|at: int| #[trigger]
            last_with_id(nodes, id, at) implies crate::nodes::identity_table(nodes)[id]
            == crate::nodes::identity_of(nodes[at]) by {
            if at < last {
                assert(nodes[last].id@ != id);
                assert forall|i: int| at < i < rest.len() implies (#[trigger] rest[i]).id@ != id by {
                    assert(rest[i] == nodes[i]);
                }
                assert(last_with_id(rest, id, at));
            }
        }
    }
}

} // verus!
