//! Scenes, scene nodes, and the scene graph.
//!
//! A [`SceneNode`] is a named tree node that owns its children; a [`Scene`]
//! is a named flat container of nodes; a [`SceneGraph`] registers scenes by
//! identifier and keeps a pointer to the "current" scene identifier, which
//! need not refer to a registered scene.

use vstd::prelude::*;

use crate::registry::Registry;

verus! {

/// A named tree node. Children are owned exclusively, so a node can be the
/// child of at most one parent and cycles are structurally unrepresentable.
pub struct SceneNode {
    id: String,
    children: Vec<SceneNode>,
}

impl SceneNode {
    /// The contents of this node's identifier.
    pub closed spec fn spec_id(self) -> Seq<char> {
        self.id@
    }

    /// The children of this node, in insertion order.
    pub closed spec fn spec_children(self) -> Seq<SceneNode> {
        self.children@
    }

    /// A leaf node with the given identifier and no children.
    pub fn new(id: &str) -> (r: Self)
        ensures
            r.spec_id() == id@,
            r.spec_children() == Seq::<SceneNode>::empty(),
    {
        let r = SceneNode { id: id.to_owned(), children: Vec::new() };
        proof {
            assert(r.spec_children() =~= Seq::<SceneNode>::empty());
        }
        r
    }

    /// Appends `child` to the end of the children sequence; ownership of
    /// `child` transfers to this node.
    pub fn add_child(&mut self, child: SceneNode)
        ensures
            final(self).spec_id() == old(self).spec_id(),
            final(self).spec_children() == old(self).spec_children().push(child),
    {
        self.children.push(child);
    }

    /// The identifier of this node.
    pub fn id(&self) -> (r: &str)
        ensures
            r@ == self.spec_id(),
    {
        self.id.as_str()
    }

    /// The children of this node.
    pub fn children(&self) -> (r: &Vec<SceneNode>)
        ensures
            r@ == self.spec_children(),
    {
        &self.children
    }
}

/// A named container of scene nodes. The node list is flat: nodes added here
/// are siblings at the scene's top level, and nesting happens only through
/// [`SceneNode::add_child`] before a node is handed over.
pub struct Scene {
    id: String,
    nodes: Vec<SceneNode>,
}

impl Scene {
    /// The contents of this scene's identifier.
    pub closed spec fn spec_id(self) -> Seq<char> {
        self.id@
    }

    /// The top-level nodes of this scene, in insertion order.
    pub closed spec fn spec_nodes(self) -> Seq<SceneNode> {
        self.nodes@
    }

    /// An empty scene with the given identifier.
    pub fn new(id: &str) -> (r: Self)
        ensures
            r.spec_id() == id@,
            r.spec_nodes() == Seq::<SceneNode>::empty(),
    {
        let r = Scene { id: id.to_owned(), nodes: Vec::new() };
        proof {
            assert(r.spec_nodes() =~= Seq::<SceneNode>::empty());
        }
        r
    }

    /// Appends `node` to the end of the node sequence; ownership transfers.
    pub fn add_node(&mut self, node: SceneNode)
        ensures
            final(self).spec_id() == old(self).spec_id(),
            final(self).spec_nodes() == old(self).spec_nodes().push(node),
    {
        self.nodes.push(node);
    }

    /// The identifier of this scene.
    pub fn id(&self) -> (r: &str)
        ensures
            r@ == self.spec_id(),
    {
        self.id.as_str()
    }

    /// The top-level nodes of this scene.
    pub fn nodes(&self) -> (r: &Vec<SceneNode>)
        ensures
            r@ == self.spec_nodes(),
    {
        &self.nodes
    }
}

/// A registry of scenes keyed by scene identifier, plus the identifier of the
/// scene currently treated as active. The current identifier is not required
/// to match a registered scene.
pub struct SceneGraph {
    scenes: Registry<Scene>,
    current_scene: String,
}

impl SceneGraph {
    /// The registered scenes, as a map from identifier contents to scenes.
    pub closed spec fn scene_map(self) -> Map<Seq<char>, Scene> {
        self.scenes@
    }

    /// The contents of the current scene identifier.
    pub closed spec fn current(self) -> Seq<char> {
        self.current_scene@
    }

    /// An empty scene graph whose current identifier is the empty string.
    pub fn new() -> (r: Self)
        ensures
            r.scene_map() == Map::<Seq<char>, Scene>::empty(),
            r.current() == Seq::<char>::empty(),
    {
        SceneGraph { scenes: Registry::new(), current_scene: String::new() }
    }

    /// Registers `scene` under its own identifier; a scene already registered
    /// under an equal identifier is silently replaced (last write wins).
    pub fn add_scene(&mut self, scene: Scene)
        ensures
            final(self).scene_map() == old(self).scene_map().insert(scene.spec_id(), scene),
            final(self).current() == old(self).current(),
    {
        let id = scene.id.clone();
        self.scenes.insert(id, scene);
    }

    /// Unconditionally stores `scene_id` as the current identifier, with no
    /// check that a scene is registered under it.
    pub fn set_current_scene(&mut self, scene_id: &str)
        ensures
            final(self).scene_map() == old(self).scene_map(),
            final(self).current() == scene_id@,
    {
        self.current_scene = scene_id.to_owned();
    }

    /// Looks up the current identifier among the registered scenes; reports
    /// absence both when no identifier was ever set and when the identifier
    /// matches no registered scene.
    pub fn get_current_scene(&self) -> (r: Option<&Scene>)
        ensures
            match r {
                Some(s) => self.scene_map().contains_key(self.current()) && *s == self.scene_map()[
                    self.current()
                ],
                None => !self.scene_map().contains_key(self.current()),
            },
    {
        self.scenes.get(self.current_scene.as_str())
    }
}

/// Registering a scene and then making its identifier current leaves the
/// current-scene lookup returning exactly that scene, identifier and node
/// contents included: for graph states related as the contracts of
/// [`SceneGraph::add_scene`] and [`SceneGraph::set_current_scene`] describe,
/// the current identifier is registered and maps to the added scene, so
/// [`SceneGraph::get_current_scene`] returns it.
pub proof fn lemma_added_scene_becomes_current(
    g0: SceneGraph,
    g1: SceneGraph,
    g2: SceneGraph,
    s: Scene,
)
    requires
        g1.scene_map() == g0.scene_map().insert(s.spec_id(), s),
        g2.scene_map() == g1.scene_map(),
        g2.current() == s.spec_id(),
    ensures
        g2.scene_map().contains_key(g2.current()),
        g2.scene_map()[g2.current()] == s,
        g2.scene_map()[g2.current()].spec_id() == s.spec_id(),
        g2.scene_map()[g2.current()].spec_nodes() == s.spec_nodes(),
{
}

/// In a scene graph with no registered scenes — in particular a freshly
/// constructed one, before any identifier was made current — the
/// current-scene lookup reports absence.
pub proof fn lemma_fresh_graph_current_absent(g: SceneGraph)
    requires
        g.scene_map() == Map::<Seq<char>, Scene>::empty(),
    ensures
        !g.scene_map().contains_key(g.current()),
{
}

/// Before any identifier is made current, the current identifier is still
/// the empty string, exactly as `new` leaves it and `add_scene` keeps it;
/// as long as no scene is registered under the empty identifier, the
/// current-scene lookup therefore reports absence. (A scene registered
/// under the empty identifier is the one case this leaves out: such a
/// scene would be found.)
pub proof fn lemma_current_absent_before_any_set(g: SceneGraph)
    requires
        g.current() == Seq::<char>::empty(),
        !g.scene_map().contains_key(Seq::<char>::empty()),
    ensures
        !g.scene_map().contains_key(g.current()),
{
}

/// Making an identifier current under which no scene was ever registered
/// leaves the current-scene lookup reporting absence.
pub proof fn lemma_unregistered_current_absent(g0: SceneGraph, g1: SceneGraph, id: Seq<char>)
    requires
        !g0.scene_map().contains_key(id),
        g1.scene_map() == g0.scene_map(),
        g1.current() == id,
    ensures
        !g1.scene_map().contains_key(g1.current()),
{
}

/// Registering a second scene under an identifier equal to an already
/// registered scene's identifier replaces the stored scene: the graph is in
/// the state it would have reached had only the newer scene been registered,
/// and the identifier maps to the newer scene only.
pub proof fn lemma_duplicate_add_replaces(
    g0: SceneGraph,
    g1: SceneGraph,
    g2: SceneGraph,
    s1: Scene,
    s2: Scene,
)
    requires
        s1.spec_id() == s2.spec_id(),
        g1.scene_map() == g0.scene_map().insert(s1.spec_id(), s1),
        g2.scene_map() == g1.scene_map().insert(s2.spec_id(), s2),
    ensures
        g2.scene_map() == g0.scene_map().insert(s2.spec_id(), s2),
        g2.scene_map()[s2.spec_id()] == s2,
{
    assert(g2.scene_map() =~= g0.scene_map().insert(s2.spec_id(), s2));
}

/// Scenes registered under distinct identifiers are all retained, whichever
/// order the registrations are serialized in: after both adds each scene is
/// retrievable under its own identifier, and the two orders end in the same
/// registry state (no lost updates).
pub proof fn lemma_distinct_adds_all_retained(m0: Map<Seq<char>, Scene>, s1: Scene, s2: Scene)
    requires
        s1.spec_id() != s2.spec_id(),
    ensures
        m0.insert(s1.spec_id(), s1).insert(s2.spec_id(), s2).contains_key(s1.spec_id()),
        m0.insert(s1.spec_id(), s1).insert(s2.spec_id(), s2)[s1.spec_id()] == s1,
        m0.insert(s1.spec_id(), s1).insert(s2.spec_id(), s2).contains_key(s2.spec_id()),
        m0.insert(s1.spec_id(), s1).insert(s2.spec_id(), s2)[s2.spec_id()] == s2,
        m0.insert(s1.spec_id(), s1).insert(s2.spec_id(), s2) == m0.insert(s2.spec_id(), s2).insert(
            s1.spec_id(),
            s1,
        ),
{
    assert(m0.insert(s1.spec_id(), s1).insert(s2.spec_id(), s2) =~= m0.insert(
        s2.spec_id(),
        s2,
    ).insert(s1.spec_id(), s1));
}

} // verus!
