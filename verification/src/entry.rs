//! A model entry: one mesh with the forms it is drawn in and the mode that
//! picks among them.
use crate::material::{new_phys_mat, Srgba};
use crate::wireframe::{
    edge_instances, edge_transformations, vertex_instances, vertex_transformations, EdgeInstance,
    Mesh, VertexInstance,
};
use vstd::prelude::*;

verus! {

/// Which of an entry's forms are drawn each frame.
#[derive(Clone, Copy, Debug, PartialEq, Eq, PartialOrd, Ord, Structural)]
pub enum RenderMode {
    Normal,
    Wireframe,
}

/// One form in which an entry can be drawn.
#[derive(Clone, Copy, Debug, PartialEq, Eq, Structural)]
pub enum Renderable {
    /// The mesh itself, with the entry's solid material.
    NormalMesh,
    /// The edge template, once per edge instance, with the wireframe material.
    WireframeEdges,
    /// The vertex template, once per vertex instance, with the wireframe material.
    WireframeVertices,
}

/// The forms that a frame draws in a given mode, in drawing order. The solid
/// form comes first, so that the wireframe lies on top of it.
pub open spec fn draw_sequence(mode: RenderMode) -> Seq<Renderable> {
    match mode {
        RenderMode::Normal => seq![Renderable::NormalMesh],
        RenderMode::Wireframe => seq![
            Renderable::NormalMesh,
            Renderable::WireframeEdges,
            Renderable::WireframeVertices,
        ],
    }
}

/// What a model entry holds.
pub struct ModelEntryView<P> {
    pub positions: Seq<P>,
    pub indices: Seq<u32>,
    pub albedo: Srgba,
    pub wireframe_vertices: Seq<VertexInstance<P>>,
    pub wireframe_edges: Seq<EdgeInstance<P>>,
    pub render_mode: RenderMode,
}

impl<P> ModelEntryView<P> {
    /// The entry as it is right after construction from a mesh and a colour.
    pub open spec fn fresh(positions: Seq<P>, indices: Seq<u32>, albedo: Srgba) -> Self {
        ModelEntryView {
            positions,
            indices,
            albedo,
            wireframe_vertices: vertex_instances(positions),
            wireframe_edges: edge_instances(positions, indices),
            render_mode: RenderMode::Normal,
        }
    }

    /// The entry is one that `ModelEntry::new` builds from the mesh: it holds
    /// the mesh and the wireframe derived from it, is in `Normal` mode, and has
    /// a bright opaque base colour.
    pub open spec fn built_from(self, mesh: Mesh<P>) -> bool {
        &&& self == Self::fresh(mesh.positions@, mesh.indices@, self.albedo)
        &&& self.albedo.is_bright_opaque()
    }

    /// Both wireframe instance sets are the ones derived from the mesh.
    pub open spec fn derived(self) -> bool {
        &&& self.wireframe_vertices == vertex_instances(self.positions)
        &&& self.wireframe_edges == edge_instances(self.positions, self.indices)
    }

    /// The same entry in another render mode.
    pub open spec fn in_mode(self, mode: RenderMode) -> Self {
        ModelEntryView { render_mode: mode, ..self }
    }

    /// The same entry with another base colour.
    pub open spec fn recoloured(self, albedo: Srgba) -> Self {
        ModelEntryView { albedo, ..self }
    }

    /// The forms that a frame draws of this entry, in drawing order.
    pub open spec fn draws(self) -> Seq<Renderable> {
        draw_sequence(self.render_mode)
    }
}

/// The entries of a sequence as the contracts speak of them.
pub open spec fn views<P>(models: Seq<ModelEntry<P>>) -> Seq<ModelEntryView<P>> {
    models.map_values(|entry: ModelEntry<P>| entry@)
}

/// One loaded mesh, the instance sets of its wireframe, the base colour of its
/// solid material and its render mode. The mesh and the instance sets are fixed
/// at construction; the colour and the mode can be set at any time.
#[derive(Debug)]
pub struct ModelEntry<P> {
    cpu_mesh: Mesh<P>,
    albedo: Srgba,
    wireframe_vertices: Vec<VertexInstance<P>>,
    wireframe_edges: Vec<EdgeInstance<P>>,
    render_mode: RenderMode,
}

impl<P> View for ModelEntry<P> {
    type V = ModelEntryView<P>;

    closed spec fn view(&self) -> ModelEntryView<P> {
        ModelEntryView {
            positions: self.cpu_mesh.positions@,
            indices: self.cpu_mesh.indices@,
            albedo: self.albedo,
            wireframe_vertices: self.wireframe_vertices@,
            wireframe_edges: self.wireframe_edges@,
            render_mode: self.render_mode,
        }
    }
}

impl<P> ModelEntry<P> {
    /// Holds of every entry at all times: the mesh is well formed, and both
    /// instance sets are the ones derived from it.
    #[verifier::type_invariant]
    spec fn inv(self) -> bool {
        &&& self.cpu_mesh.well_formed()
        &&& self@.derived()
    }
}

impl<P: Copy> ModelEntry<P> {
    /// Builds the entry of a mesh with a given base colour: derives both
    /// wireframe instance sets and starts in `Normal` mode.
    pub fn with_albedo(cpu_mesh: Mesh<P>, albedo: Srgba) -> (entry: Self)
        requires
            cpu_mesh.well_formed(),
        ensures
            entry@ == ModelEntryView::fresh(cpu_mesh.positions@, cpu_mesh.indices@, albedo),
    {
        let wireframe_edges = edge_transformations(&cpu_mesh);
        let wireframe_vertices = vertex_transformations(&cpu_mesh);
        ModelEntry {
            cpu_mesh,
            albedo,
            wireframe_vertices,
            wireframe_edges,
            render_mode: RenderMode::Normal,
        }
    }

    /// Builds the entry of a mesh. The base colour is drawn at random: it is
    /// opaque, with each colour channel in the bright range.
    pub fn new(cpu_mesh: Mesh<P>) -> (entry: Self)
        requires
            cpu_mesh.well_formed(),
        ensures
            entry@.built_from(cpu_mesh),
    {
        let albedo = new_phys_mat();
        Self::with_albedo(cpu_mesh, albedo)
    }

    /// Lists the forms to draw this frame, in drawing order: the solid form
    /// alone in `Normal` mode; the solid form, then the edges, then the
    /// vertices in `Wireframe` mode.
    pub fn render(&self) -> (forms: Vec<Renderable>)
        ensures
            forms@ == self@.draws(),
    {
        let mut forms: Vec<Renderable> = Vec::new();
        forms.push(Renderable::NormalMesh);
        match self.render_mode {
            RenderMode::Normal => {},
            RenderMode::Wireframe => {
                forms.push(Renderable::WireframeEdges);
                forms.push(Renderable::WireframeVertices);
            },
        }
        forms
    }

    /// Sets the render mode and leaves everything else as it is.
    pub fn set_render_mode(&mut self, mode: RenderMode)
        ensures
            final(self)@ == old(self)@.in_mode(mode),
    {
        proof {
            use_type_invariant(&*self);
        }
        self.render_mode = mode;
    }

    /// Sets the base colour of the solid material. The mesh, both wireframe
    /// instance sets and the render mode stay as they are.
    pub fn set_albedo(&mut self, albedo: Srgba)
        ensures
            final(self)@ == old(self)@.recoloured(albedo),
            final(self)@.wireframe_edges == old(self)@.wireframe_edges,
            final(self)@.wireframe_vertices == old(self)@.wireframe_vertices,
    {
        proof {
            use_type_invariant(&*self);
        }
        self.albedo = albedo;
    }

    /// The mesh that the entry was built from.
    pub fn cpu_mesh(&self) -> (mesh: &Mesh<P>)
        ensures
            mesh.positions@ == self@.positions,
            mesh.indices@ == self@.indices,
            mesh.well_formed(),
    {
        proof {
            use_type_invariant(self);
        }
        &self.cpu_mesh
    }

    /// The edge instances of the wireframe. They are the ones derived from the
    /// entry's mesh, whatever has been set since construction.
    pub fn wireframe_edges(&self) -> (edges: &Vec<EdgeInstance<P>>)
        ensures
            edges@ == self@.wireframe_edges,
            edges@ == edge_instances(self@.positions, self@.indices),
    {
        proof {
            use_type_invariant(self);
        }
        &self.wireframe_edges
    }

    /// The vertex instances of the wireframe. They are the ones derived from
    /// the entry's mesh, whatever has been set since construction.
    pub fn wireframe_vertices(&self) -> (vertices: &Vec<VertexInstance<P>>)
        ensures
            vertices@ == self@.wireframe_vertices,
            vertices@ == vertex_instances(self@.positions),
    {
        proof {
            use_type_invariant(self);
        }
        &self.wireframe_vertices
    }

    /// The base colour of the solid material.
    pub fn albedo(&self) -> (albedo: Srgba)
        ensures
            albedo == self@.albedo,
    {
        self.albedo
    }

    /// The render mode.
    pub fn render_mode(&self) -> (mode: RenderMode)
        ensures
            mode == self@.render_mode,
    {
        self.render_mode
    }
}

/// Switching an entry to `Wireframe` and back to `Normal` leaves an entry that
/// draws its solid form alone. An entry that was in `Normal` mode before is
/// then the entry that it was, and draws what it drew.
pub proof fn lemma_wireframe_and_back<P>(entry: ModelEntryView<P>)
    ensures
        entry.in_mode(RenderMode::Wireframe).in_mode(RenderMode::Normal).draws()
            == seq![Renderable::NormalMesh],
        entry.render_mode == RenderMode::Normal ==> entry.in_mode(
            RenderMode::Wireframe,
        ).in_mode(RenderMode::Normal) == entry,
        entry.render_mode == RenderMode::Normal ==> entry.in_mode(
            RenderMode::Wireframe,
        ).in_mode(RenderMode::Normal).draws() == entry.draws(),
{
}

/// Setting the render mode twice is setting it to the second mode, and setting
/// it to the mode it has changes nothing.
pub proof fn lemma_render_mode_last_wins<P>(
    entry: ModelEntryView<P>,
    first: RenderMode,
    second: RenderMode,
)
    ensures
        entry.in_mode(first).in_mode(second) == entry.in_mode(second),
        entry.in_mode(entry.render_mode) == entry,
{
}

/// Neither the colour nor the render mode touches the mesh or the wireframe:
/// after any change of either, both instance sets are the very sequences they
/// were, and an entry whose wireframe was derived from its mesh still has the
/// wireframe derived from its mesh.
pub proof fn lemma_wireframe_untouched<P>(
    entry: ModelEntryView<P>,
    albedo: Srgba,
    mode: RenderMode,
)
    ensures
        entry.recoloured(albedo).wireframe_edges == entry.wireframe_edges,
        entry.recoloured(albedo).wireframe_vertices == entry.wireframe_vertices,
        entry.recoloured(albedo).positions == entry.positions,
        entry.recoloured(albedo).indices == entry.indices,
        entry.recoloured(albedo).render_mode == entry.render_mode,
        entry.in_mode(mode).wireframe_edges == entry.wireframe_edges,
        entry.in_mode(mode).wireframe_vertices == entry.wireframe_vertices,
        entry.in_mode(mode).positions == entry.positions,
        entry.in_mode(mode).indices == entry.indices,
        entry.in_mode(mode).albedo == entry.albedo,
        entry.derived() ==> entry.recoloured(albedo).derived() && entry.in_mode(
            mode,
        ).derived(),
{
}

} // verus!
