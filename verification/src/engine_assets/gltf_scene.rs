//! Walking a glTF document to the primitives it draws: the nodes of the
//! default scene depth first (each node, its mesh's primitives, then its
//! children), or, for a document without a scene, every primitive of every
//! mesh in order.
//!
//! The walk moves one step per call and reports what it reached; the caller
//! places and builds the meshes between the steps, so a failure is reported
//! at the same point of the walk as the importer meets it.

use vstd::prelude::*;
use vstd::string::StringExecFns;

use super::gltf::{array_item, array_item_at, gltf_array_item, reports, GltfFailure};
use super::gltf_material::{default_scene_node_indices, scene_root_nodes};
use super::gltf_mesh::{
    gltf_child_index, gltf_mesh_name, gltf_mesh_primitives, gltf_primitive_name, mesh_name,
    primitive_name,
};
use super::json::{json_array, json_get, json_str, json_u64, JsonValue};
use super::types::AssetError;
use crate::paths::{has_extension, path_file_stem, path_has_extension, std_path_file_stem};

verus! {

/// Where the walk stands in a node.
#[derive(Debug, Clone)]
pub enum WalkPhase {
    /// The node was entered; its mesh is next.
    Start,
    /// Its mesh's primitives are being reached; `next` is the next one.
    Primitives { mesh_index: u64, instance_name: String, next: usize },
    /// Its children are being entered; `next` is the next one.
    Children { next: usize },
}

/// A node the walk is inside of.
#[derive(Debug, Clone)]
pub struct WalkFrame {
    pub node_index: usize,
    pub phase: WalkPhase,
}

/// The two ways a document is walked.
#[derive(Debug, Clone)]
pub enum WalkMode {
    /// The default scene's node trees: the roots, the next root to enter,
    /// and the nodes entered and not yet left, outermost first.
    Nodes { roots: Vec<usize>, next_root: usize, stack: Vec<WalkFrame> },
    /// Every mesh: the next mesh and the next primitive in it.
    Meshes { next_mesh: usize, next_primitive: usize },
}

/// A walk through a glTF document.
#[derive(Debug, Clone)]
pub struct SceneWalk {
    mode: WalkMode,
}

/// What a step of the walk reached.
#[derive(Debug, Clone, PartialEq, Eq)]
pub enum WalkStep {
    /// Node `node_index` was entered, `depth` levels below a root; its
    /// transform applies below that of the node it was entered from.
    EnterNode { node_index: usize, depth: usize },
    /// Primitive `primitive_index` of mesh `mesh_index` is drawn as a static
    /// mesh named `name`, placed by the node entered at `depth` (by nothing
    /// when there is no depth: the document has no scene).
    Primitive { mesh_index: u64, primitive_index: usize, name: String, depth: Option<usize> },
    /// The walk moved on without reaching anything.
    Advance,
}

/// Where the walk stands in a node, as values.
pub enum PhaseView {
    Start,
    Primitives { mesh_index: u64, instance_name: Seq<char>, next: nat },
    Children { next: nat },
}

/// A node the walk is inside of, as values.
pub struct FrameView {
    pub node_index: usize,
    pub phase: PhaseView,
}

/// A walk, as values.
pub enum WalkView {
    Nodes { roots: Seq<usize>, next_root: nat, stack: Seq<FrameView> },
    Meshes { next_mesh: nat, next_primitive: nat },
}

/// A step, as values; `Done` when the walk is over.
pub enum StepView {
    EnterNode { node_index: usize, depth: nat },
    Primitive { mesh_index: u64, primitive_index: nat, name: Seq<char>, depth: Option<nat> },
    Advance,
    Done,
}

impl WalkPhase {
    pub open spec fn view(&self) -> PhaseView {
        match self {
            WalkPhase::Start => PhaseView::Start,
            WalkPhase::Primitives { mesh_index, instance_name, next } => PhaseView::Primitives {
                mesh_index: *mesh_index,
                instance_name: instance_name@,
                next: *next as nat,
            },
            WalkPhase::Children { next } => PhaseView::Children { next: *next as nat },
        }
    }
}

impl WalkFrame {
    pub open spec fn view(&self) -> FrameView {
        FrameView { node_index: self.node_index, phase: self.phase.view() }
    }
}

impl WalkMode {
    pub open spec fn view(&self) -> WalkView {
        match *self {
            WalkMode::Nodes { roots, next_root, stack } => WalkView::Nodes {
                roots: roots@,
                next_root: next_root as nat,
                stack: stack@.map_values(|f: WalkFrame| f.view()),
            },
            WalkMode::Meshes { next_mesh, next_primitive } => WalkView::Meshes {
                next_mesh: next_mesh as nat,
                next_primitive: next_primitive as nat,
            },
        }
    }
}

impl SceneWalk {
    pub closed spec fn view(&self) -> WalkView {
        self.mode.view()
    }
}

/// The view of an optional step; `Done` for none.
pub open spec fn step_view(step: Option<WalkStep>) -> StepView {
    match step {
        None => StepView::Done,
        Some(WalkStep::EnterNode { node_index, depth }) => StepView::EnterNode {
            node_index,
            depth: depth as nat,
        },
        Some(WalkStep::Primitive { mesh_index, primitive_index, name, depth }) => StepView::Primitive {
            mesh_index,
            primitive_index: primitive_index as nat,
            name: name@,
            depth: match depth {
                Some(d) => Some(d as nat),
                None => None,
            },
        },
        Some(WalkStep::Advance) => StepView::Advance,
    }
}

/// The walk a document starts with: its default scene's roots, or, without
/// a scene, its mesh list, which it must then have.
pub open spec fn walk_start(doc: JsonValue) -> Result<WalkView, GltfFailure> {
    match scene_root_nodes(doc) {
        Err(f) => Err(f),
        Ok(Some(roots)) => Ok(
            WalkView::Nodes {
                roots: Seq::new(roots.len(), |i: int| roots[i] as usize),
                next_root: 0,
                stack: seq![],
            },
        ),
        Ok(None) => match json_array(json_get(doc, "meshes"@)) {
            None => Err(GltfFailure::MissingField("meshes"@)),
            Some(_) => Ok(WalkView::Meshes { next_mesh: 0, next_primitive: 0 }),
        },
    }
}

/// The primitives of a mesh (missing when it lists none).
pub open spec fn mesh_primitives(mesh: JsonValue) -> Result<Seq<JsonValue>, GltfFailure> {
    match json_array(json_get(mesh, "primitives"@)) {
        Some(p) => Ok(p),
        None => Err(GltfFailure::MissingField("meshes[].primitives"@)),
    }
}

/// The children of a node (none when it lists none).
pub open spec fn node_children(node: JsonValue) -> Seq<JsonValue> {
    match json_array(json_get(node, "children"@)) {
        Some(c) => c,
        None => seq![],
    }
}

/// The stack with its innermost frame's phase replaced.
pub open spec fn with_top_phase(stack: Seq<FrameView>, phase: PhaseView) -> Seq<FrameView> {
    stack.update(stack.len() - 1, FrameView { node_index: stack.last().node_index, phase })
}

/// One step of a walk in mesh-list mode.
pub open spec fn mesh_list_step(doc: JsonValue, next_mesh: nat, next_primitive: nat) -> Result<
    (WalkView, StepView),
    GltfFailure,
> {
    match json_array(json_get(doc, "meshes"@)) {
        None => Err(GltfFailure::MissingField("meshes"@)),
        Some(meshes) => if next_mesh >= meshes.len() {
            Ok((WalkView::Meshes { next_mesh, next_primitive }, StepView::Done))
        } else {
            let mesh = meshes[next_mesh as int];
            match mesh_primitives(mesh) {
                Err(f) => Err(f),
                Ok(primitives) => if next_primitive < primitives.len() {
                    Ok(
                        (
                            WalkView::Meshes { next_mesh, next_primitive: next_primitive + 1 },
                            StepView::Primitive {
                                mesh_index: next_mesh as u64,
                                primitive_index: next_primitive,
                                name: primitive_name(
                                    mesh_name(mesh, next_mesh),
                                    primitives.len(),
                                    next_primitive,
                                ),
                                depth: None,
                            },
                        ),
                    )
                } else {
                    Ok((WalkView::Meshes { next_mesh: next_mesh + 1, next_primitive: 0 }, StepView::Advance))
                },
            }
        },
    }
}

/// One step of a walk inside node `node`, the innermost of `stack`.
pub open spec fn node_step(
    doc: JsonValue,
    roots: Seq<usize>,
    next_root: nat,
    stack: Seq<FrameView>,
    node: JsonValue,
) -> Result<(WalkView, StepView), GltfFailure> {
    let depth = (stack.len() - 1) as nat;
    match stack.last().phase {
        PhaseView::Start => match json_u64(json_get(node, "mesh"@)) {
            None => Ok(
                (
                    WalkView::Nodes {
                        roots,
                        next_root,
                        stack: with_top_phase(stack, PhaseView::Children { next: 0 }),
                    },
                    StepView::Advance,
                ),
            ),
            Some(m) => match array_item(doc, "meshes"@, m as int) {
                Err(f) => Err(f),
                Ok(mesh) => match mesh_primitives(mesh) {
                    Err(f) => Err(f),
                    Ok(_) => Ok(
                        (
                            WalkView::Nodes {
                                roots,
                                next_root,
                                stack: with_top_phase(
                                    stack,
                                    PhaseView::Primitives {
                                        mesh_index: m,
                                        instance_name: match json_str(json_get(node, "name"@)) {
                                            Some(name) => name,
                                            None => mesh_name(mesh, m as nat),
                                        },
                                        next: 0,
                                    },
                                ),
                            },
                            StepView::Advance,
                        ),
                    ),
                },
            },
        },
        PhaseView::Primitives { mesh_index, instance_name, next } => match array_item(
            doc,
            "meshes"@,
            mesh_index as int,
        ) {
            Err(f) => Err(f),
            Ok(mesh) => match mesh_primitives(mesh) {
                Err(f) => Err(f),
                Ok(primitives) => if next < primitives.len() {
                    Ok(
                        (
                            WalkView::Nodes {
                                roots,
                                next_root,
                                stack: with_top_phase(
                                    stack,
                                    PhaseView::Primitives { mesh_index, instance_name, next: next + 1 },
                                ),
                            },
                            StepView::Primitive {
                                mesh_index,
                                primitive_index: next,
                                name: primitive_name(instance_name, primitives.len(), next),
                                depth: Some(depth),
                            },
                        ),
                    )
                } else {
                    Ok(
                        (
                            WalkView::Nodes {
                                roots,
                                next_root,
                                stack: with_top_phase(stack, PhaseView::Children { next: 0 }),
                            },
                            StepView::Advance,
                        ),
                    )
                },
            },
        },
        PhaseView::Children { next } => {
            let children = node_children(node);
            if next < children.len() {
                match json_u64(Some(children[next as int])) {
                    None => Err(GltfFailure::InvalidMesh),
                    Some(child) => match array_item(doc, "nodes"@, child as int) {
                        Err(f) => Err(f),
                        Ok(_) => Ok(
                            (
                                WalkView::Nodes {
                                    roots,
                                    next_root,
                                    stack: with_top_phase(stack, PhaseView::Children { next: next + 1 }).push(
                                        FrameView { node_index: child as usize, phase: PhaseView::Start },
                                    ),
                                },
                                StepView::EnterNode { node_index: child as usize, depth: depth + 1 },
                            ),
                        ),
                    },
                }
            } else {
                Ok((WalkView::Nodes { roots, next_root, stack: stack.drop_last() }, StepView::Advance))
            }
        },
    }
}

/// One step of a walk: in mesh-list mode, the next primitive or the next
/// mesh; in scene mode, the next root when no node is entered, otherwise
/// the innermost node's mesh, next primitive, next child, or leaving it.
pub open spec fn walk_next(doc: JsonValue, walk: WalkView) -> Result<(WalkView, StepView), GltfFailure> {
    match walk {
        WalkView::Meshes { next_mesh, next_primitive } => mesh_list_step(doc, next_mesh, next_primitive),
        WalkView::Nodes { roots, next_root, stack } => if stack.len() == 0 {
            if next_root < roots.len() {
                let root = roots[next_root as int];
                match array_item(doc, "nodes"@, root as int) {
                    Err(f) => Err(f),
                    Ok(_) => Ok(
                        (
                            WalkView::Nodes {
                                roots,
                                next_root: next_root + 1,
                                stack: seq![FrameView { node_index: root, phase: PhaseView::Start }],
                            },
                            StepView::EnterNode { node_index: root, depth: 0 },
                        ),
                    ),
                }
            } else {
                Ok((walk, StepView::Done))
            }
        } else {
            match array_item(doc, "nodes"@, stack.last().node_index as int) {
                Err(f) => Err(f),
                Ok(node) => node_step(doc, roots, next_root, stack, node),
            }
        },
    }
}

impl SceneWalk {
    /// Starts walking a document.
    pub fn start(document: &JsonValue) -> (result: Result<SceneWalk, AssetError>)
        ensures
            match walk_start(*document) {
                Ok(w) => result matches Ok(walk) && walk@ == w,
                Err(f) => result matches Err(e) && reports(e, f),
            },
    {
        match default_scene_node_indices(document) {
            Err(e) => Err(e),
            Ok(Some(roots)) => {
                let walk = SceneWalk {
                    mode: WalkMode::Nodes { roots, next_root: 0, stack: Vec::new() },
                };
                proof {
                    let nodes = scene_root_nodes(*document)->Ok_0->Some_0;
                    assert(walk@ == walk_start(*document)->Ok_0) by {
                        assert(roots@ == Seq::new(nodes.len(), |i: int| nodes[i] as usize));
                        assert(Seq::<WalkFrame>::empty().map_values(|f: WalkFrame| f.view())
                            == Seq::<FrameView>::empty());
                    }
                }
                Ok(walk)
            },
            Ok(None) => {
                let has_meshes = match document.get("meshes") {
                    Some(v) => v.as_array().is_some(),
                    None => false,
                };
                if !has_meshes {
                    return Err(AssetError::MissingGltfField("meshes"));
                }
                Ok(SceneWalk { mode: WalkMode::Meshes { next_mesh: 0, next_primitive: 0 } })
            },
        }
    }
}

/// One step of a walk in mesh-list mode.
fn mesh_list_next(document: &JsonValue, next_mesh: usize, next_primitive: usize) -> (result: Result<
    (WalkMode, Option<WalkStep>),
    AssetError,
>)
    ensures
        match mesh_list_step(*document, next_mesh as nat, next_primitive as nat) {
            Ok((w, s)) => result matches Ok((mode, step)) && mode.view() == w && step_view(step)
                == s,
            Err(f) => result matches Err(e) && reports(e, f),
        },
{
    let meshes = match document.get("meshes") {
        Some(v) => match v.as_array() {
            Some(items) => items,
            None => return Err(AssetError::MissingGltfField("meshes")),
        },
        None => return Err(AssetError::MissingGltfField("meshes")),
    };
    if next_mesh >= meshes.len() {
        return Ok((WalkMode::Meshes { next_mesh, next_primitive }, None));
    }
    let mesh = &meshes[next_mesh];
    let primitives = match gltf_mesh_primitives(mesh) {
        Ok(p) => p,
        Err(e) => return Err(e),
    };
    if next_primitive < primitives.len() {
        let base = gltf_mesh_name(mesh, next_mesh as u64);
        let name = gltf_primitive_name(base.as_str(), primitives.len(), next_primitive);
        Ok(
            (
                WalkMode::Meshes { next_mesh, next_primitive: next_primitive + 1 },
                Some(
                    WalkStep::Primitive {
                        mesh_index: next_mesh as u64,
                        primitive_index: next_primitive,
                        name,
                        depth: None,
                    },
                ),
            ),
        )
    } else {
        Ok((WalkMode::Meshes { next_mesh: next_mesh + 1, next_primitive: 0 }, Some(WalkStep::Advance)))
    }
}

/// The name a node's mesh instance is drawn under: the node's name, or the
/// mesh's.
fn instance_name(node: &JsonValue, mesh: &JsonValue, mesh_index: u64) -> (name: String)
    ensures
        name@ == match json_str(json_get(*node, "name"@)) {
            Some(n) => n,
            None => mesh_name(*mesh, mesh_index as nat),
        },
{
    match node.get("name") {
        Some(v) => match v.as_str() {
            Some(n) => String::from_str(n),
            None => gltf_mesh_name(mesh, mesh_index),
        },
        None => gltf_mesh_name(mesh, mesh_index),
    }
}

/// One step of a walk inside the innermost node of `stack`.
fn node_next(
    document: &JsonValue,
    roots: Vec<usize>,
    next_root: usize,
    stack: Vec<WalkFrame>,
    node: &JsonValue,
) -> (result: Result<(WalkMode, Option<WalkStep>), AssetError>)
    requires
        stack@.len() > 0,
    ensures
        match node_step(
            *document,
            roots@,
            next_root as nat,
            stack@.map_values(|f: WalkFrame| f.view()),
            *node,
        ) {
            Ok((w, s)) => result matches Ok((mode, step)) && mode.view() == w && step_view(step)
                == s,
            Err(f) => result matches Err(e) && reports(e, f),
        },
{
    let ghost views = stack@.map_values(|f: WalkFrame| f.view());
    let ghost depth = (views.len() - 1) as nat;
    let mut stack = stack;
    let frame = stack.pop().unwrap();
    let ghost rest = stack@;
    assert(views.last() == frame.view());
    let node_index = frame.node_index;
    match frame.phase {
        WalkPhase::Start => {
            let mesh_index = match node.get("mesh") {
                Some(v) => v.as_u64(),
                None => None,
            };
            match mesh_index {
                None => {
                    stack.push(WalkFrame { node_index, phase: WalkPhase::Children { next: 0 } });
                    proof {
                        assert(stack@.map_values(|f: WalkFrame| f.view()) == with_top_phase(
                            views,
                            PhaseView::Children { next: 0 },
                        ));
                    }
                    Ok((WalkMode::Nodes { roots, next_root, stack }, Some(WalkStep::Advance)))
                },
                Some(m) => {
                    let mesh = match array_item_at(document, "meshes", m) {
                        Ok(mesh) => mesh,
                        Err(e) => return Err(e),
                    };
                    match gltf_mesh_primitives(mesh) {
                        Ok(_) => {},
                        Err(e) => return Err(e),
                    }
                    let name = instance_name(node, mesh, m);
                    let ghost name_view = name@;
                    stack.push(
                        WalkFrame {
                            node_index,
                            phase: WalkPhase::Primitives { mesh_index: m, instance_name: name, next: 0 },
                        },
                    );
                    proof {
                        assert(stack@.map_values(|f: WalkFrame| f.view()) == with_top_phase(
                            views,
                            PhaseView::Primitives { mesh_index: m, instance_name: name_view, next: 0 },
                        ));
                    }
                    Ok((WalkMode::Nodes { roots, next_root, stack }, Some(WalkStep::Advance)))
                },
            }
        },
        WalkPhase::Primitives { mesh_index, instance_name, next } => {
            let mesh = match array_item_at(document, "meshes", mesh_index) {
                Ok(mesh) => mesh,
                Err(e) => return Err(e),
            };
            let primitives = match gltf_mesh_primitives(mesh) {
                Ok(p) => p,
                Err(e) => return Err(e),
            };
            if next < primitives.len() {
                let name = gltf_primitive_name(instance_name.as_str(), primitives.len(), next);
                let ghost instance_view = instance_name@;
                let depth_now = stack.len();
                stack.push(
                    WalkFrame {
                        node_index,
                        phase: WalkPhase::Primitives { mesh_index, instance_name, next: next + 1 },
                    },
                );
                proof {
                    assert(stack@.map_values(|f: WalkFrame| f.view()) == with_top_phase(
                        views,
                        PhaseView::Primitives {
                            mesh_index,
                            instance_name: instance_view,
                            next: (next + 1) as nat,
                        },
                    ));
                }
                Ok(
                    (
                        WalkMode::Nodes { roots, next_root, stack },
                        Some(
                            WalkStep::Primitive {
                                mesh_index,
                                primitive_index: next,
                                name,
                                depth: Some(depth_now),
                            },
                        ),
                    ),
                )
            } else {
                stack.push(WalkFrame { node_index, phase: WalkPhase::Children { next: 0 } });
                proof {
                    assert(stack@.map_values(|f: WalkFrame| f.view()) == with_top_phase(
                        views,
                        PhaseView::Children { next: 0 },
                    ));
                }
                Ok((WalkMode::Nodes { roots, next_root, stack }, Some(WalkStep::Advance)))
            }
        },
        WalkPhase::Children { next } => {
            let children: Option<&Vec<JsonValue>> = match node.get("children") {
                Some(v) => v.as_array(),
                None => None,
            };
            let children_count = match children {
                Some(items) => items.len(),
                None => 0,
            };
            if next < children_count {
                let child_value = &children.unwrap()[next];
                let child = match gltf_child_index(child_value) {
                    Ok(c) => c,
                    Err(e) => return Err(e),
                };
                match array_item_at(document, "nodes", child) {
                    Ok(_) => {},
                    Err(e) => return Err(e),
                }
                stack.push(WalkFrame { node_index, phase: WalkPhase::Children { next: next + 1 } });
                let ghost updated = stack@;
                stack.push(WalkFrame { node_index: child as usize, phase: WalkPhase::Start });
                let child_depth = stack.len() - 1;
                proof {
                    assert(updated.map_values(|f: WalkFrame| f.view()) == with_top_phase(
                        views,
                        PhaseView::Children { next: (next + 1) as nat },
                    ));
                    assert(stack@.map_values(|f: WalkFrame| f.view()) == updated.map_values(
                        |f: WalkFrame| f.view(),
                    ).push(FrameView { node_index: child as usize, phase: PhaseView::Start }));
                }
                Ok(
                    (
                        WalkMode::Nodes { roots, next_root, stack },
                        Some(WalkStep::EnterNode { node_index: child as usize, depth: child_depth }),
                    ),
                )
            } else {
                proof {
                    assert(stack@.map_values(|f: WalkFrame| f.view()) == views.drop_last());
                }
                Ok((WalkMode::Nodes { roots, next_root, stack }, Some(WalkStep::Advance)))
            }
        },
    }
}

impl SceneWalk {
    /// Takes one step of the walk and says what it reached; `None` when the
    /// walk is over. After a failure the walk is not to be continued.
    pub fn next_step(&mut self, document: &JsonValue) -> (result: Result<Option<WalkStep>, AssetError>)
        ensures
            match walk_next(*document, old(self)@) {
                Ok((w, s)) => result matches Ok(step) && step_view(step) == s && final(self)@ == w,
                Err(f) => result matches Err(e) && reports(e, f),
            },
    {
        let mut mode = WalkMode::Meshes { next_mesh: 0, next_primitive: 0 };
        std::mem::swap(&mut mode, &mut self.mode);
        let stepped = match mode {
            WalkMode::Meshes { next_mesh, next_primitive } => mesh_list_next(
                document,
                next_mesh,
                next_primitive,
            ),
            WalkMode::Nodes { roots, next_root, stack } => {
                if stack.len() == 0 {
                    if next_root < roots.len() {
                        let root = roots[next_root];
                        match gltf_array_item(document, "nodes", root) {
                            Ok(_) => {},
                            Err(e) => return Err(e),
                        }
                        let mut stack = stack;
                        stack.push(WalkFrame { node_index: root, phase: WalkPhase::Start });
                        proof {
                            assert(stack@.map_values(|f: WalkFrame| f.view()) == seq![
                                FrameView { node_index: root, phase: PhaseView::Start },
                            ]);
                        }
                        Ok(
                            (
                                WalkMode::Nodes { roots, next_root: next_root + 1, stack },
                                Some(WalkStep::EnterNode { node_index: root, depth: 0 }),
                            ),
                        )
                    } else {
                        Ok((WalkMode::Nodes { roots, next_root, stack }, None))
                    }
                } else {
                    let node = match gltf_array_item(document, "nodes", stack[stack.len() - 1].node_index) {
                        Ok(node) => node,
                        Err(e) => return Err(e),
                    };
                    node_next(document, roots, next_root, stack, node)
                }
            },
        };
        match stepped {
            Ok((new_mode, step)) => {
                self.mode = new_mode;
                Ok(step)
            },
            Err(e) => Err(e),
        }
    }
}

/// Whether a scene file is binary glTF: its extension is `glb`, in any
/// ASCII case.
pub fn is_binary_gltf_path(path: &str) -> (binary: bool)
    ensures
        binary == has_extension(path@, seq!['g', 'l', 'b']),
{
    let glb: [char; 3] = ['g', 'l', 'b'];
    assert(glb@ == seq!['g', 'l', 'b']);
    path_has_extension(path, &glb)
}

/// The name of the scene a file holds: the file's stem, or "glTF Test
/// Scene" when the path has none.
pub fn gltf_scene_name(path: &str) -> (name: String)
    ensures
        name@ == match std_path_file_stem(path@) {
            Some(stem) => stem,
            None => "glTF Test Scene"@,
        },
{
    match path_file_stem(path) {
        Some(stem) => stem,
        None => String::from_str("glTF Test Scene"),
    }
}

/// The walk and the steps after `n` steps from `walk`; the first failure is
/// reported.
pub open spec fn walk_run(doc: JsonValue, walk: WalkView, n: nat) -> Result<
    (WalkView, Seq<StepView>),
    GltfFailure,
>
    decreases n,
{
    if n == 0 {
        Ok((walk, seq![]))
    } else {
        match walk_run(doc, walk, (n - 1) as nat) {
            Err(f) => Err(f),
            Ok((w, steps)) => match walk_next(doc, w) {
                Err(f) => Err(f),
                Ok((next, step)) => Ok((next, steps.push(step))),
            },
        }
    }
}

/// The name a node gives the primitives of its mesh: its own name, or the
/// mesh's name when it has none.
pub open spec fn node_instance_name(node: JsonValue, mesh: JsonValue, m: u64) -> Seq<char> {
    match json_str(json_get(node, "name"@)) {
        Some(name) => name,
        None => mesh_name(mesh, m as nat),
    }
}

proof fn lemma_node_primitive_steps(
    doc: JsonValue,
    roots: Seq<usize>,
    next_root: nat,
    stack: Seq<FrameView>,
    node: JsonValue,
    m: u64,
    mesh: JsonValue,
    primitives: Seq<JsonValue>,
    j: nat,
)
    requires
        stack.len() > 0,
        stack.last().phase is Start,
        array_item(doc, "nodes"@, stack.last().node_index as int) == Ok::<JsonValue, GltfFailure>(node),
        json_u64(json_get(node, "mesh"@)) == Some(m),
        array_item(doc, "meshes"@, m as int) == Ok::<JsonValue, GltfFailure>(mesh),
        json_array(json_get(mesh, "primitives"@)) == Some(primitives),
        j <= primitives.len(),
    ensures
        ({
            let walk = WalkView::Nodes { roots, next_root, stack };
            let name = node_instance_name(node, mesh, m);
            &&& walk_run(doc, walk, j + 1) is Ok
            &&& walk_run(doc, walk, j + 1)->Ok_0.0 == WalkView::Nodes {
                roots,
                next_root,
                stack: with_top_phase(stack, PhaseView::Primitives { mesh_index: m, instance_name: name, next: j }),
            }
            &&& walk_run(doc, walk, j + 1)->Ok_0.1.len() == j + 1
            &&& walk_run(doc, walk, j + 1)->Ok_0.1[0] == StepView::Advance
            &&& forall|k: int|
                0 <= k < j ==> #[trigger] walk_run(doc, walk, j + 1)->Ok_0.1[k + 1] == StepView::Primitive {
                    mesh_index: m,
                    primitive_index: k as nat,
                    name: primitive_name(name, primitives.len(), k as nat),
                    depth: Some((stack.len() - 1) as nat),
                }
        }),
    decreases j,
{
    let walk = WalkView::Nodes { roots, next_root, stack };
    let name = node_instance_name(node, mesh, m);
    assert(walk_run(doc, walk, 0) == Ok::<(WalkView, Seq<StepView>), GltfFailure>((walk, seq![])));
    if j == 0 {
        assert(walk_run(doc, walk, 1)->Ok_0.1 =~= seq![StepView::Advance]);
    } else {
        let i = (j - 1) as nat;
        lemma_node_primitive_steps(doc, roots, next_root, stack, node, m, mesh, primitives, i);
        let before = with_top_phase(stack, PhaseView::Primitives { mesh_index: m, instance_name: name, next: i });
        let after = with_top_phase(stack, PhaseView::Primitives { mesh_index: m, instance_name: name, next: j });
        assert(before.len() == stack.len());
        assert(before.last().node_index == stack.last().node_index);
        assert(with_top_phase(before, PhaseView::Primitives { mesh_index: m, instance_name: name, next: i + 1 })
            =~= after);
        let prev = walk_run(doc, walk, i + 1)->Ok_0.1;
        let steps = walk_run(doc, walk, j + 1)->Ok_0.1;
        assert(steps == prev.push(
            StepView::Primitive {
                mesh_index: m,
                primitive_index: i,
                name: primitive_name(name, primitives.len(), i),
                depth: Some((stack.len() - 1) as nat),
            },
        ));
        assert forall|k: int| 0 <= k < j implies #[trigger] steps[k + 1] == StepView::Primitive {
            mesh_index: m,
            primitive_index: k as nat,
            name: primitive_name(name, primitives.len(), k as nat),
            depth: Some((stack.len() - 1) as nat),
        } by {
            if k < i {
                assert(steps[k + 1] == prev[k + 1]);
            }
        }
    }
}

/// Every node the walk enters that names a mesh yields that mesh's
/// primitives before anything else, whether or not it has children: from a
/// node just entered (its phase `Start`) whose `mesh` is `m`, the walk takes
/// one step to start the mesh and then reaches primitive `0`, `1`, ... of
/// mesh `m` in order, one per step, each placed by that node's depth and
/// named after the node (or the mesh).
pub proof fn law_entered_node_yields_its_mesh_primitives(
    doc: JsonValue,
    roots: Seq<usize>,
    next_root: nat,
    stack: Seq<FrameView>,
    node: JsonValue,
    m: u64,
    mesh: JsonValue,
    primitives: Seq<JsonValue>,
)
    requires
        stack.len() > 0,
        stack.last().phase is Start,
        array_item(doc, "nodes"@, stack.last().node_index as int) == Ok::<JsonValue, GltfFailure>(node),
        json_u64(json_get(node, "mesh"@)) == Some(m),
        array_item(doc, "meshes"@, m as int) == Ok::<JsonValue, GltfFailure>(mesh),
        json_array(json_get(mesh, "primitives"@)) == Some(primitives),
    ensures
        ({
            let run = walk_run(doc, WalkView::Nodes { roots, next_root, stack }, primitives.len() + 1);
            &&& run is Ok
            &&& run->Ok_0.1.len() == primitives.len() + 1
            &&& run->Ok_0.1[0] == StepView::Advance
            &&& forall|k: int|
                0 <= k < primitives.len() ==> (#[trigger] run->Ok_0.1[k + 1] matches StepView::Primitive {
                    mesh_index,
                    primitive_index,
                    depth,
                    ..
                } && mesh_index == m && primitive_index == k && depth == Some((stack.len() - 1) as nat))
        }),
{
    lemma_node_primitive_steps(doc, roots, next_root, stack, node, m, mesh, primitives, primitives.len());
}

/// Entering a node: from any walk, a step that enters node `i` leaves the
/// walk inside node `i` at its start, one level below the node it was
/// entered from (or at a root), so the law above applies to it.
pub proof fn law_entered_node_starts(doc: JsonValue, walk: WalkView)
    requires
        walk_next(doc, walk) matches Ok((_, StepView::EnterNode { .. })),
    ensures
        ({
            let (next, step) = walk_next(doc, walk)->Ok_0;
            match (next, step) {
                (WalkView::Nodes { stack, .. }, StepView::EnterNode { node_index, depth }) => {
                    &&& stack.len() > 0
                    &&& stack.last().phase is Start
                    &&& stack.last().node_index == node_index
                    &&& depth == stack.len() - 1
                },
                _ => false,
            }
        }),
{
}

proof fn lemma_mesh_list_steps(doc: JsonValue, i: nat, mesh: JsonValue, primitives: Seq<JsonValue>, j: nat)
    requires
        json_array(json_get(doc, "meshes"@)) matches Some(meshes) && i < meshes.len() && meshes[i as int]
            == mesh,
        json_array(json_get(mesh, "primitives"@)) == Some(primitives),
        j <= primitives.len(),
    ensures
        ({
            let run = walk_run(doc, WalkView::Meshes { next_mesh: i, next_primitive: 0 }, j);
            &&& run is Ok
            &&& run->Ok_0.0 == WalkView::Meshes { next_mesh: i, next_primitive: j }
            &&& run->Ok_0.1.len() == j
            &&& forall|k: int|
                0 <= k < j ==> #[trigger] run->Ok_0.1[k] == StepView::Primitive {
                    mesh_index: i as u64,
                    primitive_index: k as nat,
                    name: primitive_name(mesh_name(mesh, i), primitives.len(), k as nat),
                    depth: None,
                }
        }),
    decreases j,
{
    if j > 0 {
        let c = (j - 1) as nat;
        lemma_mesh_list_steps(doc, i, mesh, primitives, c);
        let prev = walk_run(doc, WalkView::Meshes { next_mesh: i, next_primitive: 0 }, c)->Ok_0.1;
        let steps = walk_run(doc, WalkView::Meshes { next_mesh: i, next_primitive: 0 }, j)->Ok_0.1;
        assert forall|k: int| 0 <= k < j implies #[trigger] steps[k] == StepView::Primitive {
            mesh_index: i as u64,
            primitive_index: k as nat,
            name: primitive_name(mesh_name(mesh, i), primitives.len(), k as nat),
            depth: None,
        } by {
            if k < c {
                assert(steps[k] == prev[k]);
            }
        }
    }
}

/// Without a scene, every mesh's primitives are reached in order: from the
/// start of mesh `i`, the walk reaches its primitives `0`, `1`, ... one per
/// step, placed by no node, and then moves on to mesh `i + 1`.
pub proof fn law_mesh_list_yields_every_primitive(doc: JsonValue, i: nat, mesh: JsonValue, primitives: Seq<JsonValue>)
    requires
        json_array(json_get(doc, "meshes"@)) matches Some(meshes) && i < meshes.len() && meshes[i as int]
            == mesh,
        json_array(json_get(mesh, "primitives"@)) == Some(primitives),
    ensures
        ({
            let run = walk_run(doc, WalkView::Meshes { next_mesh: i, next_primitive: 0 }, primitives.len() + 1);
            &&& run is Ok
            &&& run->Ok_0.0 == WalkView::Meshes { next_mesh: i + 1, next_primitive: 0 }
            &&& run->Ok_0.1.len() == primitives.len() + 1
            &&& run->Ok_0.1[primitives.len() as int] == StepView::Advance
            &&& forall|k: int|
                0 <= k < primitives.len() ==> (#[trigger] run->Ok_0.1[k] matches StepView::Primitive {
                    mesh_index,
                    primitive_index,
                    depth,
                    ..
                } && mesh_index == i as u64 && primitive_index == k && depth is None)
        }),
{
    lemma_mesh_list_steps(doc, i, mesh, primitives, primitives.len());
    let prev = walk_run(doc, WalkView::Meshes { next_mesh: i, next_primitive: 0 }, primitives.len())->Ok_0.1;
    let steps = walk_run(doc, WalkView::Meshes { next_mesh: i, next_primitive: 0 }, primitives.len() + 1)->Ok_0.1;
    let w = WalkView::Meshes { next_mesh: i, next_primitive: primitives.len() };
    assert(mesh_primitives(mesh) == Ok::<Seq<JsonValue>, GltfFailure>(primitives));
    assert(walk_next(doc, w) == Ok::<(WalkView, StepView), GltfFailure>(
        (WalkView::Meshes { next_mesh: i + 1, next_primitive: 0 }, StepView::Advance),
    ));
    assert(steps == prev.push(StepView::Advance));
    assert forall|k: int| 0 <= k < primitives.len() implies steps[k] == prev[k] by {}
}

} // verus!
