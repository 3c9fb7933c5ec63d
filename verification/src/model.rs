//! The structure of a loaded model (meshes made of primitives that refer to
//! materials) and the draw calls that render it.

use vstd::prelude::*;

verus! {

/// One primitive of a mesh: how many indices it draws and which material it
/// uses.
#[derive(Debug, Clone, Copy, PartialEq, Eq, Structural)]
pub struct PrimitiveInfo {
    pub num_elements: u32,
    pub material_id: usize,
}

/// A mesh: its primitives, in the order the file lists them.
pub struct MeshInfo {
    pub primitives: Vec<PrimitiveInfo>,
}

/// A model: its meshes, and how many materials it has.
pub struct ModelInfo {
    pub meshes: Vec<MeshInfo>,
    pub material_count: usize,
}

/// A range of instances, `start..end`.
#[derive(Debug, Clone, Copy, PartialEq, Eq, Structural)]
pub struct InstanceRange {
    pub start: u32,
    pub end: u32,
}

/// One indexed draw: the primitive's buffers bound, its material's bind group
/// bound, indices `0..index_count` drawn for the instance range.
#[derive(Debug, Clone, Copy, PartialEq, Eq, Structural)]
pub struct DrawCall {
    pub mesh: usize,
    pub primitive: usize,
    pub material: usize,
    pub index_count: u32,
    pub instances: InstanceRange,
}

impl View for MeshInfo {
    type V = Seq<PrimitiveInfo>;

    open spec fn view(&self) -> Seq<PrimitiveInfo> {
        self.primitives@
    }
}

impl ModelInfo {
    /// The primitives of each mesh.
    pub open spec fn mesh_views(&self) -> Seq<Seq<PrimitiveInfo>> {
        self.meshes@.map_values(|m: MeshInfo| m@)
    }

    /// Every primitive refers to one of the model's materials.
    pub open spec fn materials_valid(&self) -> bool {
        forall|m: int, p: int|
            0 <= m < self.meshes@.len() && 0 <= p < self.meshes@[m]@.len()
                ==> #[trigger] self.meshes@[m]@[p].material_id < self.material_count
    }
}

/// The draw of primitive `p` of mesh `m` with the given material.
pub open spec fn call_for(m: int, p: int, prim: PrimitiveInfo, material: int, instances: InstanceRange) -> DrawCall {
    DrawCall {
        mesh: m as usize,
        primitive: p as usize,
        material: material as usize,
        index_count: prim.num_elements,
        instances,
    }
}

/// The draws of every primitive of mesh `m`, each with its own material.
pub open spec fn mesh_calls(m: int, prims: Seq<PrimitiveInfo>, instances: InstanceRange) -> Seq<DrawCall> {
    Seq::new(prims.len(), |p: int| call_for(m, p, prims[p], prims[p].material_id as int, instances))
}

/// The draws of every primitive of the given meshes, mesh by mesh.
pub open spec fn model_calls(meshes: Seq<Seq<PrimitiveInfo>>, instances: InstanceRange) -> Seq<DrawCall>
    decreases meshes.len(),
{
    if meshes.len() == 0 {
        Seq::empty()
    } else {
        model_calls(meshes.drop_last(), instances) + mesh_calls(meshes.len() - 1, meshes.last(), instances)
    }
}

/// The number of primitives of the given meshes.
pub open spec fn total_primitives(meshes: Seq<Seq<PrimitiveInfo>>) -> nat
    decreases meshes.len(),
{
    if meshes.len() == 0 {
        0
    } else {
        total_primitives(meshes.drop_last()) + meshes.last().len()
    }
}

/// A single instance: `0..1`.
pub open spec fn one_instance() -> InstanceRange {
    InstanceRange { start: 0, end: 1 }
}

/// Every draw of a model carries the requested instance range, names a
/// primitive that exists, draws that primitive's indices and binds that
/// primitive's own material; there is one draw per primitive.
pub proof fn model_calls_draw_each_primitive(meshes: Seq<Seq<PrimitiveInfo>>, instances: InstanceRange)
    requires
        meshes.len() <= usize::MAX,
        forall|m: int| 0 <= m < meshes.len() ==> #[trigger] meshes[m].len() <= usize::MAX,
    ensures
        model_calls(meshes, instances).len() == total_primitives(meshes),
        forall|i: int| 0 <= i < model_calls(meshes, instances).len() ==> {
            let c = #[trigger] model_calls(meshes, instances)[i];
            &&& c.instances == instances
            &&& c.mesh < meshes.len()
            &&& c.primitive < meshes[c.mesh as int].len()
            &&& c.index_count == meshes[c.mesh as int][c.primitive as int].num_elements
            &&& c.material == meshes[c.mesh as int][c.primitive as int].material_id
        },
    decreases meshes.len(),
{
    if meshes.len() > 0 {
        let prefix = meshes.drop_last();
        assert forall|m: int| 0 <= m < prefix.len() implies #[trigger] prefix[m].len() <= usize::MAX by {
            assert(prefix[m] == meshes[m]);
        }
        model_calls_draw_each_primitive(prefix, instances);
        let head = model_calls(prefix, instances);
        let tail = mesh_calls(meshes.len() - 1, meshes.last(), instances);
        assert(meshes.last() == meshes[meshes.len() - 1]);
        assert forall|i: int| 0 <= i < model_calls(meshes, instances).len() implies {
            let c = #[trigger] model_calls(meshes, instances)[i];
            &&& c.instances == instances
            &&& c.mesh < meshes.len()
            &&& c.primitive < meshes[c.mesh as int].len()
            &&& c.index_count == meshes[c.mesh as int][c.primitive as int].num_elements
            &&& c.material == meshes[c.mesh as int][c.primitive as int].material_id
        } by {
            if i < head.len() {
                let c = head[i];
                assert(model_calls(meshes, instances)[i] == c);
                assert(prefix[c.mesh as int] == meshes[c.mesh as int]);
            } else {
                assert(model_calls(meshes, instances)[i] == tail[i - head.len()]);
            }
        }
    }
}

impl PrimitiveInfo {
    /// The bookkeeping of a primitive read from a file: its index count
    /// (truncated to 32 bits) and its material, the first one when the file
    /// names none.
    pub fn from_loaded(index_count: usize, material: Option<usize>) -> (p: PrimitiveInfo)
        ensures
            p.num_elements == index_count as u32,
            p.material_id == (match material { Some(i) => i, None => 0 }),
    {
        let material_id = match material {
            Some(i) => i,
            None => 0,
        };
        PrimitiveInfo { num_elements: index_count as u32, material_id }
    }
}

impl ModelInfo {
    /// Whether every primitive refers to one of the model's materials.
    pub fn check_materials(&self) -> (b: bool)
        ensures
            b == self.materials_valid(),
    {
        let mut m: usize = 0;
        while m < self.meshes.len()
            invariant
                m <= self.meshes@.len(),
                forall|i: int, p: int|
                    0 <= i < m && 0 <= p < self.meshes@[i]@.len()
                        ==> #[trigger] self.meshes@[i]@[p].material_id < self.material_count,
            decreases self.meshes@.len() - m,
        {
            let prims = &self.meshes[m].primitives;
            let mut p: usize = 0;
            while p < prims.len()
                invariant
                    m < self.meshes@.len(),
                    prims@ == self.meshes@[m as int]@,
                    p <= prims@.len(),
                    forall|q: int| 0 <= q < p ==> #[trigger] prims@[q].material_id < self.material_count,
                decreases prims@.len() - p,
            {
                if prims[p].material_id >= self.material_count {
                    assert(self.meshes@[m as int]@[p as int].material_id >= self.material_count);
                    return false;
                }
                p = p + 1;
            }
            m = m + 1;
        }
        true
    }
}

/// The draws of a mesh with one material, one instance each
/// (`draw_mesh`).
pub fn draw_mesh(mesh_index: usize, mesh: &MeshInfo, material: usize) -> (calls: Vec<DrawCall>)
    ensures
        calls@ == Seq::new(mesh@.len(), |p: int| call_for(mesh_index as int, p, mesh@[p], material as int, one_instance())),
        calls@.len() == mesh@.len(),
        forall|p: int| 0 <= p < calls@.len() ==> {
            let c = #[trigger] calls@[p];
            &&& c.mesh == mesh_index
            &&& c.primitive == p
            &&& c.material == material
            &&& c.index_count == mesh@[p].num_elements
            &&& c.instances == (InstanceRange { start: 0, end: 1 })
        },
{
    let mut calls: Vec<DrawCall> = Vec::new();
    let mut p: usize = 0;
    while p < mesh.primitives.len()
        invariant
            p <= mesh@.len(),
            calls@ == Seq::new(p as nat, |q: int| call_for(mesh_index as int, q, mesh@[q], material as int, one_instance())),
        decreases mesh@.len() - p,
    {
        let prim = mesh.primitives[p];
        calls.push(draw_primitive_instanced(mesh_index, p, prim, material, InstanceRange { start: 0, end: 1 }));
        p = p + 1;
        assert(calls@ =~= Seq::new(p as nat, |q: int| call_for(mesh_index as int, q, mesh@[q], material as int, one_instance())));
    }
    calls
}

/// The draw of one primitive with a material for a range of instances
/// (`draw_primitive_instanced`).
pub fn draw_primitive_instanced(mesh_index: usize, primitive_index: usize, prim: PrimitiveInfo, material: usize, instances: InstanceRange) -> (c: DrawCall)
    ensures
        c == call_for(mesh_index as int, primitive_index as int, prim, material as int, instances),
{
    DrawCall { mesh: mesh_index, primitive: primitive_index, material, index_count: prim.num_elements, instances }
}

/// The draws of a whole model for a range of instances: every primitive of
/// every mesh, in order, each with its own material
/// (`draw_model_instanced`).
pub fn draw_model_instanced(model: &ModelInfo, instances: InstanceRange) -> (calls: Vec<DrawCall>)
    requires
        model.materials_valid(),
    ensures
        calls@ == model_calls(model.mesh_views(), instances),
        calls@.len() == total_primitives(model.mesh_views()),
        forall|i: int| 0 <= i < calls@.len() ==> (#[trigger] calls@[i]).material < model.material_count,
        forall|i: int| 0 <= i < calls@.len() ==> {
            let c = #[trigger] calls@[i];
            &&& c.instances == instances
            &&& c.mesh < model.meshes@.len()
            &&& c.primitive < model.meshes@[c.mesh as int]@.len()
            &&& c.index_count == model.meshes@[c.mesh as int]@[c.primitive as int].num_elements
            &&& c.material == model.meshes@[c.mesh as int]@[c.primitive as int].material_id
        },
{
    let mut calls: Vec<DrawCall> = Vec::new();
    let ghost views = model.mesh_views();
    let mut m: usize = 0;
    while m < model.meshes.len()
        invariant
            m <= model.meshes@.len(),
            views == model.mesh_views(),
            model.materials_valid(),
            calls@ == model_calls(views.take(m as int), instances),
            calls@.len() == total_primitives(views.take(m as int)),
            forall|i: int| 0 <= i < calls@.len() ==> (#[trigger] calls@[i]).material < model.material_count,
        decreases model.meshes@.len() - m,
    {
        let prims = &model.meshes[m].primitives;
        let ghost before = calls@;
        assert(views[m as int] == prims@);
        let mut p: usize = 0;
        while p < prims.len()
            invariant
                m < model.meshes@.len(),
                prims@ == model.meshes@[m as int]@,
                model.materials_valid(),
                p <= prims@.len(),
                calls@ == before + mesh_calls(m as int, prims@, instances).take(p as int),
                forall|i: int| 0 <= i < calls@.len() ==> (#[trigger] calls@[i]).material < model.material_count,
            decreases prims@.len() - p,
        {
            let prim = prims[p];
            assert(model.meshes@[m as int]@[p as int].material_id < model.material_count);
            calls.push(draw_primitive_instanced(m, p, prim, prim.material_id, instances));
            p = p + 1;
            assert(calls@ =~= before + mesh_calls(m as int, prims@, instances).take(p as int));
        }
        assert(mesh_calls(m as int, prims@, instances).take(p as int) =~= mesh_calls(m as int, prims@, instances));
        assert(views.take(m + 1).drop_last() =~= views.take(m as int));
        assert(views.take(m + 1).last() == prims@);
        m = m + 1;
    }
    assert(views.take(m as int) =~= views);
    proof {
        assert forall|k: int| 0 <= k < views.len() implies #[trigger] views[k].len() <= usize::MAX by {
            assert(views[k] == model.meshes@[k]@);
            assert(model.meshes@[k].primitives.len() == model.meshes@[k].primitives@.len());
        }
        assert(model.meshes.len() == model.meshes@.len());
        model_calls_draw_each_primitive(views, instances);
        assert forall|i: int| 0 <= i < calls@.len() implies {
            let c = #[trigger] calls@[i];
            &&& c.instances == instances
            &&& c.mesh < model.meshes@.len()
            &&& c.primitive < model.meshes@[c.mesh as int]@.len()
            &&& c.index_count == model.meshes@[c.mesh as int]@[c.primitive as int].num_elements
            &&& c.material == model.meshes@[c.mesh as int]@[c.primitive as int].material_id
        } by {
            let c = calls@[i];
            assert(views[c.mesh as int] == model.meshes@[c.mesh as int]@);
        }
    }
    calls
}

/// The draws of a whole model for a single instance (`draw_model`).
pub fn draw_model(model: &ModelInfo) -> (calls: Vec<DrawCall>)
    requires
        model.materials_valid(),
    ensures
        calls@ == model_calls(model.mesh_views(), one_instance()),
{
    draw_model_instanced(model, InstanceRange { start: 0, end: 1 })
}

/// The name of a material: the file's name for it, else "UNNAMED_MATERIAL".
pub fn material_name(name: Option<&str>) -> (s: String)
    ensures
        s@ == (match name { Some(n) => n@, None => "UNNAMED_MATERIAL"@ }),
{
    match name {
        Some(n) => String::from_str(n),
        None => String::from_str("UNNAMED_MATERIAL"),
    }
}

/// The name of a mesh: the file's name for it, else the file name.
pub fn mesh_name(name: Option<&str>, file_name: &str) -> (s: String)
    ensures
        s@ == (match name { Some(n) => n@, None => file_name@ }),
{
    match name {
        Some(n) => String::from_str(n),
        None => String::from_str(file_name),
    }
}

} // verus!
