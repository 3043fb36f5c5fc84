//! Which node this machine works as, and under which name it is shown.
use vstd::prelude::*;

use crate::errors::{RefineError, RefineResult};
use crate::json::Json;
use crate::text::{cat3, cat5, debug_text, is_blank, text_eq, trim};
use crate::text_map::TextMap;

verus! {

/// A node of a project.
#[derive(Debug)]
pub struct Node {
    pub id: String,
    pub display_name: String,
    /// Whether a person chose the display name.
    pub user_named: bool,
    pub enabled: bool,
    pub archived: bool,
    /// The last reported health, where there is one.
    pub health: Option<String>,
}

/// Something about an identity that a person has to settle.
#[derive(Debug)]
pub struct NodeIdentityDiagnostic {
    pub code: String,
    pub message: String,
    pub recovery_action: String,
}

/// How a node is shown.
#[derive(Debug)]
pub struct NodeIdentity {
    pub id: String,
    pub display_name: String,
    pub registry_display_name: String,
    pub diagnostics: Vec<NodeIdentityDiagnostic>,
}

/// The node that this machine works as.
#[derive(Debug)]
pub struct ActiveNodeIdentity {
    pub id: String,
    pub display_name: String,
    pub diagnostics: Vec<NodeIdentityDiagnostic>,
}

/// A diagnostic by its contents.
pub ghost struct DiagnosticView {
    pub code: Seq<char>,
    pub message: Seq<char>,
    pub recovery_action: Seq<char>,
}

/// An identity by its contents.
pub ghost struct IdentityView {
    pub id: Seq<char>,
    pub display_name: Seq<char>,
    pub registry_display_name: Seq<char>,
    pub diagnostics: Seq<DiagnosticView>,
}

/// An active identity by its contents.
pub ghost struct ActiveIdentityView {
    pub id: Seq<char>,
    pub display_name: Seq<char>,
    pub diagnostics: Seq<DiagnosticView>,
}

impl View for NodeIdentityDiagnostic {
    type V = DiagnosticView;

    open spec fn view(&self) -> DiagnosticView {
        DiagnosticView {
            code: self.code@,
            message: self.message@,
            recovery_action: self.recovery_action@,
        }
    }
}

/// The views of a list of diagnostics.
pub open spec fn diagnostic_views(d: Seq<NodeIdentityDiagnostic>) -> Seq<DiagnosticView> {
    d.map_values(|x: NodeIdentityDiagnostic| x@)
}

impl View for NodeIdentity {
    type V = IdentityView;

    open spec fn view(&self) -> IdentityView {
        IdentityView {
            id: self.id@,
            display_name: self.display_name@,
            registry_display_name: self.registry_display_name@,
            diagnostics: diagnostic_views(self.diagnostics@),
        }
    }
}

impl View for ActiveNodeIdentity {
    type V = ActiveIdentityView;

    open spec fn view(&self) -> ActiveIdentityView {
        ActiveIdentityView {
            id: self.id@,
            display_name: self.display_name@,
            diagnostics: diagnostic_views(self.diagnostics@),
        }
    }
}

/// A selection of the active node that names its project.
#[derive(Debug)]
pub struct ActiveNodeSelection {
    pub active_node_id: String,
    pub refine_dir: String,
    /// Whether that directory is the project's own.
    pub same_project: bool,
}

/// What the record of the active node holds.
pub enum SelectionRead {
    Missing,
    Scoped(ActiveNodeSelection),
    Unscoped(Json),
}

/// Reads and shows the nodes of one project.
#[derive(Debug)]
pub struct FileNodeRegistryService {
    pub refine_dir: String,
    pub active_root: Option<String>,
}

/// The default node's label without the authority of a person.
pub open spec fn ambiguous_default(node: Node) -> bool {
    node.id@ == "default"@ && crate::text::trimmed(node.display_name@) != "Default"@
        && !node.user_named
}

/// The diagnostic of a default node's quoted label that nobody confirmed.
pub open spec fn legacy_label(quoted: Seq<char>) -> DiagnosticView {
    DiagnosticView {
        code: "ambiguous_legacy_default_display_name"@,
        message: "The shared legacy default node label "@ + quoted
            + " has no authority metadata, so Refine is displaying the canonical label \"Default\" instead. Goal ownership remains node id \"default\"."@,
        recovery_action: "Run `refine node rename default \"Default\"` to restore the canonical label, or rename `default` to the intended label to explicitly confirm it."@,
    }
}

/// The diagnostic of a selection of a quoted node id that belongs to another
/// project.
pub open spec fn project_mismatch(
    quoted: Seq<char>,
    selected: Seq<char>,
    current: Seq<char>,
) -> DiagnosticView {
    DiagnosticView {
        code: "active_node_selection_project_mismatch"@,
        message: "Ignored active node "@ + quoted
            + " because its runtime-local selection belongs to "@ + selected + ", not "@ + current
            + ". This project is using node id \"default\"."@,
        recovery_action: "Run `refine node activate <node-id>` while this project is attached to establish its local active identity."@,
    }
}

/// The diagnostic of a selection of a quoted node id that names no project.
pub open spec fn legacy_selection(quoted: Seq<char>) -> DiagnosticView {
    DiagnosticView {
        code: "legacy_unscoped_active_node_selection"@,
        message: "Ignored legacy runtime-local active node "@ + quoted
            + " because the selection does not identify its project. This project is using node id \"default\"."@,
        recovery_action: "Run `refine node activate <node-id>` while this project is attached to record a project-scoped local selection."@,
    }
}

/// The diagnostic of a selection whose quoted node id names no usable node.
pub open spec fn invalid_selection(quoted: Seq<char>) -> DiagnosticView {
    DiagnosticView {
        code: "invalid_active_node_selection"@,
        message: "Ignored active node "@ + quoted
            + " because that node is missing or archived in the attached project's registry. This project is using node id \"default\"."@,
        recovery_action: "Create or restore the intended node, then run `refine node activate <node-id>`; otherwise activate `default`."@,
    }
}

/// How a node is shown.
pub open spec fn identity_of(node: Node) -> IdentityView {
    IdentityView {
        id: node.id@,
        display_name: if ambiguous_default(node) { "Default"@ } else { node.display_name@ },
        registry_display_name: node.display_name@,
        diagnostics: if ambiguous_default(node) {
            seq![legacy_label(crate::text::debug_form(node.display_name@))]
        } else {
            Seq::empty()
        },
    }
}

/// How the default node is shown where it is not on record.
pub open spec fn default_identity_view() -> IdentityView {
    IdentityView {
        id: "default"@,
        display_name: "Default"@,
        registry_display_name: "Default"@,
        diagnostics: Seq::empty(),
    }
}

/// The node with an id.
pub open spec fn node_with_id(nodes: Seq<Node>, id: Seq<char>) -> Option<Node> {
    crate::lists::first_match(nodes, |n: Node| n.id@ == id)
}

/// A node that may be active.
pub open spec fn selectable(nodes: Seq<Node>, id: Seq<char>) -> bool {
    exists|i: int| 0 <= i < nodes.len() && (#[trigger] nodes[i]).id@ == id && !nodes[i].archived
}

/// The selected node and what is to be said of the selection, before the node
/// is looked up.
pub open spec fn requested_selection(
    read: SelectionRead,
    refine_dir: Seq<char>,
    local: bool,
) -> (Seq<char>, Seq<DiagnosticView>) {
    match read {
        SelectionRead::Missing => ("default"@, Seq::empty()),
        SelectionRead::Scoped(s) => if s.same_project {
            (s.active_node_id@, Seq::empty())
        } else {
            (
                "default"@,
                seq![
                    project_mismatch(
                        crate::text::debug_form(s.active_node_id@),
                        s.refine_dir@,
                        refine_dir,
                    ),
                ],
            )
        },
        SelectionRead::Unscoped(value) => {
            let id = match crate::json::text_field(value@, "active_node_id"@) {
                Some(t) => if crate::text::blank(t) { "default"@ } else { t },
                None => "default"@,
            };
            if local && id != "default"@ {
                ("default"@, seq![legacy_selection(crate::text::debug_form(id))])
            } else {
                (id, Seq::empty())
            }
        },
    }
}

/// The active node and what is to be said of its selection.
pub open spec fn resolved_selection(
    nodes: Seq<Node>,
    read: SelectionRead,
    refine_dir: Seq<char>,
    local: bool,
) -> (Seq<char>, Seq<DiagnosticView>) {
    let (id, diagnostics) = requested_selection(read, refine_dir, local);
    if read is Missing || selectable(nodes, id) {
        (id, diagnostics)
    } else {
        ("default"@, diagnostics.push(invalid_selection(crate::text::debug_form(id))))
    }
}

/// The active node as it is shown.
pub open spec fn active_identity_of(
    nodes: Seq<Node>,
    read: SelectionRead,
    refine_dir: Seq<char>,
    local: bool,
) -> ActiveIdentityView {
    let (id, diagnostics) = resolved_selection(nodes, read, refine_dir, local);
    let identity = match node_with_id(nodes, id) {
        Some(n) => identity_of(n),
        None => match node_with_id(nodes, "default"@) {
            Some(n) => identity_of(n),
            None => default_identity_view(),
        },
    };
    ActiveIdentityView {
        id,
        display_name: identity.display_name,
        diagnostics: diagnostics + identity.diagnostics,
    }
}

/// Builds the diagnostic of a default node's quoted label that nobody confirmed.
pub fn legacy_label_diagnostic(quoted: &str) -> (r: NodeIdentityDiagnostic)
    ensures
        r@ == legacy_label(quoted@),
{
    NodeIdentityDiagnostic {
        code: "ambiguous_legacy_default_display_name".to_owned(),
        message: cat3(
            "The shared legacy default node label ",
            quoted,
            " has no authority metadata, so Refine is displaying the canonical label \"Default\" instead. Goal ownership remains node id \"default\".",
        ),
        recovery_action: "Run `refine node rename default \"Default\"` to restore the canonical label, or rename `default` to the intended label to explicitly confirm it.".to_owned(),
    }
}

/// Builds the diagnostic of a selection of a quoted node id that belongs to
/// another project.
pub fn project_mismatch_diagnostic(quoted: &str, selected: &str, current: &str) -> (r:
    NodeIdentityDiagnostic)
    ensures
        r@ == project_mismatch(quoted@, selected@, current@),
{
    let mut message = cat5(
        "Ignored active node ",
        quoted,
        " because its runtime-local selection belongs to ",
        selected,
        ", not ",
    );
    message.append(current);
    message.append(". This project is using node id \"default\".");
    NodeIdentityDiagnostic {
        code: "active_node_selection_project_mismatch".to_owned(),
        message,
        recovery_action: "Run `refine node activate <node-id>` while this project is attached to establish its local active identity.".to_owned(),
    }
}

/// Builds the diagnostic of a selection of a quoted node id that names no
/// project.
pub fn legacy_selection_diagnostic(quoted: &str) -> (r: NodeIdentityDiagnostic)
    ensures
        r@ == legacy_selection(quoted@),
{
    NodeIdentityDiagnostic {
        code: "legacy_unscoped_active_node_selection".to_owned(),
        message: cat3(
            "Ignored legacy runtime-local active node ",
            quoted,
            " because the selection does not identify its project. This project is using node id \"default\".",
        ),
        recovery_action: "Run `refine node activate <node-id>` while this project is attached to record a project-scoped local selection.".to_owned(),
    }
}

/// Builds the diagnostic of a selection whose quoted node id names no usable
/// node.
pub fn invalid_selection_diagnostic(quoted: &str) -> (r: NodeIdentityDiagnostic)
    ensures
        r@ == invalid_selection(quoted@),
{
    NodeIdentityDiagnostic {
        code: "invalid_active_node_selection".to_owned(),
        message: cat3(
            "Ignored active node ",
            quoted,
            " because that node is missing or archived in the attached project's registry. This project is using node id \"default\".",
        ),
        recovery_action: "Create or restore the intended node, then run `refine node activate <node-id>`; otherwise activate `default`.".to_owned(),
    }
}

/// Shows a node. The default node's label is shown only where it is the
/// canonical one or a person chose it.
pub fn identity_for_node(node: &Node) -> (r: NodeIdentity)
    ensures
        r@ == identity_of(*node),
{
    let ambiguous = text_eq(node.id.as_str(), "default") && !text_eq(
        trim(node.display_name.as_str()),
        "Default",
    ) && !node.user_named;
    let mut diagnostics: Vec<NodeIdentityDiagnostic> = Vec::new();
    let display_name = if ambiguous {
        diagnostics.push(legacy_label_diagnostic(debug_text(node.display_name.as_str()).as_str()));
        "Default".to_owned()
    } else {
        node.display_name.clone()
    };
    let r = NodeIdentity {
        id: node.id.clone(),
        display_name,
        registry_display_name: node.display_name.clone(),
        diagnostics,
    };
    assert(r@.diagnostics =~= identity_of(*node).diagnostics);
    r
}

fn default_identity() -> (r: NodeIdentity)
    ensures
        r@ == default_identity_view(),
{
    let r = NodeIdentity {
        id: "default".to_owned(),
        display_name: "Default".to_owned(),
        registry_display_name: "Default".to_owned(),
        diagnostics: Vec::new(),
    };
    assert(r@.diagnostics =~= Seq::<DiagnosticView>::empty());
    r
}

fn find_node<'a>(nodes: &'a Vec<Node>, id: &str) -> (r: Option<&'a Node>)
    ensures
        match r {
            Some(n) => node_with_id(nodes@, id@) == Some(*n),
            None => node_with_id(nodes@, id@) is None,
        },
{
    let ghost p = |n: Node| n.id@ == id@;
    let mut i: usize = 0;
    assert(nodes@.skip(0) =~= nodes@);
    while i < nodes.len()
        invariant
            i <= nodes.len(),
            p == (|n: Node| n.id@ == id@),
            node_with_id(nodes@, id@) == crate::lists::first_match(nodes@.skip(i as int), p),
        decreases nodes.len() - i,
    {
        proof {
            crate::lists::first_match_steps(nodes@, p, i as int);
        }
        if text_eq(nodes[i].id.as_str(), id) {
            return Some(&nodes[i]);
        }
        i = i + 1;
    }
    None
}

fn is_selectable(nodes: &Vec<Node>, id: &str) -> (r: bool)
    ensures
        r == selectable(nodes@, id@),
{
    let mut i: usize = 0;
    while i < nodes.len()
        invariant
            i <= nodes.len(),
            forall|j: int|
                0 <= j < i ==> !((#[trigger] nodes@[j]).id@ == id@ && !nodes@[j].archived),
        decreases nodes.len() - i,
    {
        if text_eq(nodes[i].id.as_str(), id) && !nodes[i].archived {
            return true;
        }
        i = i + 1;
    }
    false
}

/// The shown nodes by id; of several nodes with one id the last stands.
pub open spec fn identity_table(nodes: Seq<Node>) -> Map<Seq<char>, IdentityView>
    decreases nodes.len(),
{
    if nodes.len() == 0 {
        Map::empty()
    } else {
        identity_table(nodes.drop_last()).insert(nodes.last().id@, identity_of(nodes.last()))
    }
}

/// A table of identities by its contents.
pub open spec fn identity_views(table: Map<Seq<char>, NodeIdentity>) -> Map<
    Seq<char>,
    IdentityView,
> {
    Map::new(|k: Seq<char>| table.contains_key(k), |k: Seq<char>| table[k]@)
}

impl FileNodeRegistryService {
    /// Serves a project whose active node is recorded with the project.
    pub fn new(refine_dir: &str) -> (r: Self)
        ensures
            r.refine_dir@ == refine_dir@,
            r.active_root is None,
    {
        FileNodeRegistryService { refine_dir: refine_dir.to_owned(), active_root: None }
    }

    /// Serves a project whose active node is recorded on this machine.
    pub fn with_active_root(refine_dir: &str, active_root: &str) -> (r: Self)
        ensures
            r.refine_dir@ == refine_dir@,
            crate::text::maybe_view(r.active_root) == Some(active_root@),
    {
        FileNodeRegistryService {
            refine_dir: refine_dir.to_owned(),
            active_root: Some(active_root.to_owned()),
        }
    }

    /// Resolves the recorded selection against the project's nodes.
    pub fn resolve_active_selection(&self, nodes: &Vec<Node>, read: &SelectionRead) -> (r: (
        String,
        Vec<NodeIdentityDiagnostic>,
    ))
        ensures
            (r.0@, diagnostic_views(r.1@)) == resolved_selection(
                nodes@,
                *read,
                self.refine_dir@,
                self.active_root is Some,
            ),
    {
        let mut diagnostics: Vec<NodeIdentityDiagnostic> = Vec::new();
        let selected = match read {
            SelectionRead::Missing => {
                assert(diagnostic_views(diagnostics@) =~= Seq::<DiagnosticView>::empty());
                return ("default".to_owned(), diagnostics);
            },
            SelectionRead::Scoped(s) => {
                if !s.same_project {
                    diagnostics.push(
                        project_mismatch_diagnostic(
                            debug_text(s.active_node_id.as_str()).as_str(),
                            s.refine_dir.as_str(),
                            self.refine_dir.as_str(),
                        ),
                    );
                    "default".to_owned()
                } else {
                    s.active_node_id.clone()
                }
            },
            SelectionRead::Unscoped(value) => {
                let id = match value.get_text("active_node_id") {
                    Some(t) => if is_blank(t) {
                        "default"
                    } else {
                        t
                    },
                    None => "default",
                };
                if self.active_root.is_some() && !text_eq(id, "default") {
                    diagnostics.push(legacy_selection_diagnostic(debug_text(id).as_str()));
                    "default".to_owned()
                } else {
                    id.to_owned()
                }
            },
        };
        assert(diagnostic_views(diagnostics@) =~= requested_selection(
            *read,
            self.refine_dir@,
            self.active_root is Some,
        ).1);
        if is_selectable(nodes, selected.as_str()) {
            return (selected, diagnostics);
        }
        let ghost before = diagnostics@;
        diagnostics.push(invalid_selection_diagnostic(debug_text(selected.as_str()).as_str()));
        assert(diagnostic_views(diagnostics@) =~= diagnostic_views(before).push(
            invalid_selection(crate::text::debug_form(selected@)),
        ));
        ("default".to_owned(), diagnostics)
    }

    /// The node that this machine works as. The durable id decides; a label is
    /// shown only where it cannot misrepresent that id.
    pub fn active_identity(&self, nodes: &Vec<Node>, read: &SelectionRead) -> (r:
        ActiveNodeIdentity)
        ensures
            r@ == active_identity_of(
                nodes@,
                *read,
                self.refine_dir@,
                self.active_root is Some,
            ),
    {
        let (id, selection) = self.resolve_active_selection(nodes, read);
        let mut diagnostics = selection;
        let identity = match find_node(nodes, id.as_str()) {
            Some(n) => identity_for_node(n),
            None => match find_node(nodes, "default") {
                Some(n) => identity_for_node(n),
                None => default_identity(),
            },
        };
        let mut more = identity.diagnostics;
        let ghost first = diagnostics@;
        let ghost second = more@;
        diagnostics.append(&mut more);
        assert(diagnostic_views(diagnostics@) =~= diagnostic_views(first) + diagnostic_views(
            second,
        ));
        ActiveNodeIdentity { id, display_name: identity.display_name, diagnostics }
    }

    /// How the node with an id is shown.
    pub fn node_identity(&self, nodes: &Vec<Node>, id: &str) -> (r: RefineResult<NodeIdentity>)
        ensures
            match r {
                Ok(identity) => node_with_id(nodes@, id@) matches Some(n) && identity@
                    == identity_of(n),
                Err(e) => node_with_id(nodes@, id@) is None && e@
                    == crate::errors::ErrorView::NotFound("node "@ + id@ + " was not found"@),
            },
    {
        match find_node(nodes, id) {
            Some(n) => Ok(identity_for_node(n)),
            None => Err(RefineError::NotFound(cat3("node ", id, " was not found"))),
        }
    }

    /// How every node is shown, by id.
    pub fn node_identities(&self, nodes: &Vec<Node>) -> (r: TextMap<NodeIdentity>)
        ensures
            identity_views(r@) == identity_table(nodes@),
    {
        let mut table: TextMap<NodeIdentity> = TextMap::new();
        let mut i: usize = 0;
        assert(nodes@.take(0) =~= Seq::<Node>::empty());
        assert(identity_views(table@) =~= Map::<Seq<char>, IdentityView>::empty());
        while i < nodes.len()
            invariant
                i <= nodes.len(),
                identity_views(table@) == identity_table(nodes@.take(i as int)),
            decreases nodes.len() - i,
        {
            let identity = identity_for_node(&nodes[i]);
            let ghost before = table@;
            table.insert(nodes[i].id.clone(), identity);
            proof {
                assert(nodes@.take(i as int + 1).drop_last() =~= nodes@.take(i as int));
                assert(identity_views(table@) =~= identity_views(before).insert(
                    nodes@[i as int].id@,
                    identity_of(nodes@[i as int]),
                ));
            }
            i = i + 1;
        }
        assert(nodes@.take(nodes.len() as int) =~= nodes@);
        table
    }
}

/// The default node is never shown under a label that nobody confirmed, and
/// the recorded label is always kept.
pub proof fn unconfirmed_default_labels_are_not_shown(node: Node)
    ensures
        node.id@ == "default"@ && !node.user_named ==> crate::text::trimmed(
            identity_of(node).display_name,
        ) == "Default"@,
        node.id@ != "default"@ || node.user_named ==> identity_of(node).display_name
            == node.display_name@,
        identity_of(node).registry_display_name == node.display_name@,
        identity_of(node).id == node.id@,
        identity_of(node).display_name == node.display_name@
            || identity_of(node).diagnostics.len() > 0,
{
    default_label_is_trimmed();
}

proof fn default_label_is_trimmed()
    ensures
        crate::text::trimmed("Default"@) == "Default"@,
{
    reveal_strlit("Default");
    assert(!crate::text::white_space("Default"@.first()));
    assert(!crate::text::white_space("Default"@.last()));
}

/// The active node is one that may be active, or the default node.
pub proof fn the_active_node_is_usable(
    nodes: Seq<Node>,
    read: SelectionRead,
    refine_dir: Seq<char>,
    local: bool,
)
    ensures
        ({
            let active = active_identity_of(nodes, read, refine_dir, local).id;
            active == "default"@ || selectable(nodes, active)
        }),
{
}

/// A selection that was made for another project is not followed, and a
/// machine-local one that names no project is not followed either; both are
/// reported.
pub proof fn foreign_selections_are_reported(
    nodes: Seq<Node>,
    read: SelectionRead,
    refine_dir: Seq<char>,
)
    requires
        (read matches SelectionRead::Scoped(s) && !s.same_project) || (
        read matches SelectionRead::Unscoped(v) && (crate::json::text_field(
            v@,
            "active_node_id"@,
        ) matches Some(t) && !crate::text::blank(t) && t != "default"@)),
    ensures
        active_identity_of(nodes, read, refine_dir, true).id == "default"@,
        active_identity_of(nodes, read, refine_dir, true).diagnostics.len() > 0,
{
}

} // verus!
