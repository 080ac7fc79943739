//! The asset registry: textures, meshes, shaders and materials, each under
//! a freshly drawn identifier, plus a name index.
//!
//! The identifier maps are paired with insertion-order lists so that the
//! renderer can walk the registered assets deterministically; the
//! registry's invariant ties each list to its map's domain.
use crate::ids::{generate_id, AssetId};
use crate::material::Material;
use crate::mesh::Mesh;
use crate::shader::Shader;
use crate::texture::Texture;
use vstd::hash_map::HashMapWithView;
use vstd::hash_map::StringHashMap;
use vstd::prelude::*;
use vstd::string::StringExecFns;

verus! {

/// The registry of every asset handed to the engine.
pub struct Assets {
    name_map: StringHashMap<AssetId>,
    textures: HashMapWithView<AssetId, Texture>,
    texture_order: Vec<AssetId>,
    meshes: HashMapWithView<AssetId, Mesh>,
    mesh_order: Vec<AssetId>,
    shaders: HashMapWithView<AssetId, Shader>,
    materials: HashMapWithView<AssetId, Material>,
}

impl Assets {
    /// The registered textures, by identifier.
    pub closed spec fn spec_textures(self) -> Map<AssetId, Texture> {
        self.textures@
    }

    /// Texture identifiers in registration order.
    pub closed spec fn spec_texture_order(self) -> Seq<AssetId> {
        self.texture_order@
    }

    /// The registered meshes, by identifier.
    pub closed spec fn spec_meshes(self) -> Map<AssetId, Mesh> {
        self.meshes@
    }

    /// Mesh identifiers in registration order.
    pub closed spec fn spec_mesh_order(self) -> Seq<AssetId> {
        self.mesh_order@
    }

    /// The registered shaders, by identifier.
    pub closed spec fn spec_shaders(self) -> Map<AssetId, Shader> {
        self.shaders@
    }

    /// The registered materials, by identifier.
    pub closed spec fn spec_materials(self) -> Map<AssetId, Material> {
        self.materials@
    }

    /// The name index.
    pub closed spec fn spec_names(self) -> Map<Seq<char>, AssetId> {
        self.name_map@
    }

    /// Each order list names exactly its map's domain, without repeats,
    /// and every registered texture and mesh is well-formed and keyed by
    /// its own identifier.
    pub open spec fn wf(self) -> bool {
        &&& self.spec_texture_order().no_duplicates()
        &&& forall|i: int| 0 <= i < self.spec_texture_order().len()
            ==> self.spec_textures().contains_key(#[trigger] self.spec_texture_order()[i])
        &&& forall|id: AssetId| #[trigger] self.spec_textures().contains_key(id)
            ==> self.spec_texture_order().contains(id)
        &&& self.spec_mesh_order().no_duplicates()
        &&& forall|i: int| 0 <= i < self.spec_mesh_order().len()
            ==> self.spec_meshes().contains_key(#[trigger] self.spec_mesh_order()[i])
        &&& forall|id: AssetId| #[trigger] self.spec_meshes().contains_key(id)
            ==> self.spec_mesh_order().contains(id)
        &&& forall|id: AssetId| #[trigger] self.spec_textures().contains_key(id) ==> {
            &&& self.spec_textures()[id].wf()
            &&& self.spec_textures()[id].id == id
        }
        &&& forall|id: AssetId| #[trigger] self.spec_meshes().contains_key(id) ==> {
            &&& self.spec_meshes()[id].wf()
            &&& self.spec_meshes()[id].id == id
        }
    }

    /// An empty registry; the caller registers its default assets next.
    pub fn new() -> (r: Assets)
        ensures
            r.wf(),
            r.spec_textures() == Map::<AssetId, Texture>::empty(),
            r.spec_texture_order() == Seq::<AssetId>::empty(),
            r.spec_meshes() == Map::<AssetId, Mesh>::empty(),
            r.spec_mesh_order() == Seq::<AssetId>::empty(),
            r.spec_shaders() == Map::<AssetId, Shader>::empty(),
            r.spec_materials() == Map::<AssetId, Material>::empty(),
            r.spec_names() == Map::<Seq<char>, AssetId>::empty(),
    {
        Assets {
            name_map: StringHashMap::new(),
            textures: HashMapWithView::new(),
            texture_order: Vec::new(),
            meshes: HashMapWithView::new(),
            mesh_order: Vec::new(),
            shaders: HashMapWithView::new(),
            materials: HashMapWithView::new(),
        }
    }

    /// Registers a texture under a fresh identifier and records its name.
    pub fn insert_texture(&mut self, name: &str, texture: Texture) -> (r: AssetId)
        requires
            old(self).wf(),
            texture.wf(),
        ensures
            final(self).wf(),
            final(self).spec_textures() == old(self).spec_textures().insert(
                r,
                (Texture { id: r, ..texture }),
            ),
            final(self).spec_names() == old(self).spec_names().insert(name@, r),
            final(self).spec_meshes() == old(self).spec_meshes(),
            final(self).spec_mesh_order() == old(self).spec_mesh_order(),
            final(self).spec_shaders() == old(self).spec_shaders(),
            final(self).spec_materials() == old(self).spec_materials(),
            !old(self).spec_textures().contains_key(r) ==> final(self).spec_texture_order() == old(
                self,
            ).spec_texture_order().push(r),
            old(self).spec_textures().contains_key(r) ==> final(self).spec_texture_order() == old(
                self,
            ).spec_texture_order(),
    {
        let texture_id = generate_id();
        let mut texture = texture;
        texture.id = texture_id;
        if !self.textures.contains_key(&texture_id) {
            proof {
                lemma_fresh_id_keeps_order_wf(
                    self.spec_texture_order(),
                    self.spec_textures(),
                    texture_id,
                );
            }
            self.texture_order.push(texture_id);
        }
        self.textures.insert(texture_id, texture);
        self.name_map.insert(String::from_str(name), texture_id);
        proof {
            lemma_cover_after_insert(
                old(self).spec_textures(),
                old(self).spec_texture_order(),
                self.spec_texture_order(),
                texture_id,
                self.spec_textures()[texture_id],
            );
            assert(self.spec_textures() == old(self).spec_textures().insert(
                texture_id,
                self.spec_textures()[texture_id],
            ));
            lemma_cover_unchanged(
                old(self).spec_meshes(),
                old(self).spec_mesh_order(),
                self.spec_meshes(),
                self.spec_mesh_order(),
            );
        }
        texture_id
    }

    /// Registers a mesh under a fresh identifier, giving each submesh a
    /// fresh identifier of its own, and records its name.
    pub fn insert_mesh(&mut self, name: &str, mesh: Mesh) -> (r: AssetId)
        requires
            old(self).wf(),
            mesh.wf(),
        ensures
            final(self).wf(),
            final(self).spec_meshes().contains_key(r),
            final(self).spec_meshes()[r].vertices@ == mesh.vertices@,
            final(self).spec_meshes()[r].indices@ == mesh.indices@,
            final(self).spec_meshes()[r].submeshes@.len() == mesh.submeshes@.len(),
            forall|i: int| 0 <= i < mesh.submeshes@.len()
                ==> final(self).spec_meshes()[r].submeshes@[i] == (crate::mesh::Submesh {
                    id: final(self).spec_meshes()[r].submeshes@[i].id,
                    ..mesh.submeshes@[i]
                }),
            final(self).spec_meshes() == old(self).spec_meshes().insert(
                r,
                final(self).spec_meshes()[r],
            ),
            final(self).spec_names() == old(self).spec_names().insert(name@, r),
            final(self).spec_textures() == old(self).spec_textures(),
            final(self).spec_texture_order() == old(self).spec_texture_order(),
            final(self).spec_shaders() == old(self).spec_shaders(),
            final(self).spec_materials() == old(self).spec_materials(),
            !old(self).spec_meshes().contains_key(r) ==> final(self).spec_mesh_order() == old(
                self,
            ).spec_mesh_order().push(r),
            old(self).spec_meshes().contains_key(r) ==> final(self).spec_mesh_order() == old(
                self,
            ).spec_mesh_order(),
    {
        let ghost m0 = mesh;
        let mut mesh = mesh;
        let mut i: usize = 0;
        while i < mesh.submeshes.len()
            invariant
                0 <= i <= mesh.submeshes@.len(),
                mesh.submeshes@.len() == m0.submeshes@.len(),
                mesh.vertices@ == m0.vertices@,
                mesh.indices@ == m0.indices@,
                mesh.id == m0.id,
                forall|j: int| 0 <= j < mesh.submeshes@.len()
                    ==> mesh.submeshes@[j] == (crate::mesh::Submesh {
                        id: mesh.submeshes@[j].id,
                        ..m0.submeshes@[j]
                    }),
            decreases mesh.submeshes@.len() - i,
        {
            let sub = &mut mesh.submeshes[i];
            sub.id = generate_id();
            i += 1;
        }
        proof {
            assert(mesh.wf()) by {
                assert(forall|j: int| 0 <= j < mesh.submeshes@.len()
                    ==> (#[trigger] mesh.submeshes@[j]).start_index == m0.submeshes@[j].start_index
                        && mesh.submeshes@[j].end_index == m0.submeshes@[j].end_index);
            }
        }
        let mesh_id = generate_id();
        mesh.id = mesh_id;
        if !self.meshes.contains_key(&mesh_id) {
            proof {
                lemma_fresh_id_keeps_order_wf(
                    self.spec_mesh_order(),
                    self.spec_meshes(),
                    mesh_id,
                );
            }
            self.mesh_order.push(mesh_id);
        }
        self.meshes.insert(mesh_id, mesh);
        self.name_map.insert(String::from_str(name), mesh_id);
        proof {
            lemma_cover_after_insert(
                old(self).spec_meshes(),
                old(self).spec_mesh_order(),
                self.spec_mesh_order(),
                mesh_id,
                self.spec_meshes()[mesh_id],
            );
            assert(self.spec_meshes() == old(self).spec_meshes().insert(
                mesh_id,
                self.spec_meshes()[mesh_id],
            ));
            lemma_cover_unchanged(
                old(self).spec_textures(),
                old(self).spec_texture_order(),
                self.spec_textures(),
                self.spec_texture_order(),
            );
        }
        mesh_id
    }

    /// Registers a shader under a fresh identifier and records its name.
    pub fn insert_shader(&mut self, name: &str, shader: Shader) -> (r: AssetId)
        requires
            old(self).wf(),
        ensures
            final(self).wf(),
            final(self).spec_shaders() == old(self).spec_shaders().insert(
                r,
                (Shader { id: r, ..shader }),
            ),
            final(self).spec_names() == old(self).spec_names().insert(name@, r),
            final(self).spec_textures() == old(self).spec_textures(),
            final(self).spec_texture_order() == old(self).spec_texture_order(),
            final(self).spec_meshes() == old(self).spec_meshes(),
            final(self).spec_mesh_order() == old(self).spec_mesh_order(),
            final(self).spec_materials() == old(self).spec_materials(),
    {
        let shader_id = generate_id();
        let mut shader = shader;
        shader.id = shader_id;
        self.shaders.insert(shader_id, shader);
        self.name_map.insert(String::from_str(name), shader_id);
        proof {
            lemma_cover_unchanged(
                old(self).spec_textures(),
                old(self).spec_texture_order(),
                self.spec_textures(),
                self.spec_texture_order(),
            );
            lemma_cover_unchanged(
                old(self).spec_meshes(),
                old(self).spec_mesh_order(),
                self.spec_meshes(),
                self.spec_mesh_order(),
            );
        }
        shader_id
    }

    /// Registers a material under a fresh identifier and records its name.
    pub fn insert_material(&mut self, name: &str, material: Material) -> (r: AssetId)
        requires
            old(self).wf(),
        ensures
            final(self).wf(),
            final(self).spec_materials() == old(self).spec_materials().insert(
                r,
                (Material { id: r, ..material }),
            ),
            final(self).spec_names() == old(self).spec_names().insert(name@, r),
            final(self).spec_textures() == old(self).spec_textures(),
            final(self).spec_texture_order() == old(self).spec_texture_order(),
            final(self).spec_meshes() == old(self).spec_meshes(),
            final(self).spec_mesh_order() == old(self).spec_mesh_order(),
            final(self).spec_shaders() == old(self).spec_shaders(),
    {
        let material_id = generate_id();
        let mut material = material;
        material.id = material_id;
        self.materials.insert(material_id, material);
        self.name_map.insert(String::from_str(name), material_id);
        proof {
            lemma_cover_unchanged(
                old(self).spec_textures(),
                old(self).spec_texture_order(),
                self.spec_textures(),
                self.spec_texture_order(),
            );
            lemma_cover_unchanged(
                old(self).spec_meshes(),
                old(self).spec_mesh_order(),
                self.spec_meshes(),
                self.spec_mesh_order(),
            );
        }
        material_id
    }

    /// The texture registered under `id`.
    pub fn texture(&self, id: AssetId) -> (r: Option<&Texture>)
        ensures
            (r matches Some(t) ==> self.spec_textures().contains_key(id) && *t
                == self.spec_textures()[id]),
            r is None ==> !self.spec_textures().contains_key(id),
    {
        self.textures.get(&id)
    }

    /// The mesh registered under `id`.
    pub fn mesh(&self, id: AssetId) -> (r: Option<&Mesh>)
        ensures
            (r matches Some(m) ==> self.spec_meshes().contains_key(id) && *m
                == self.spec_meshes()[id]),
            r is None ==> !self.spec_meshes().contains_key(id),
    {
        self.meshes.get(&id)
    }

    /// The shader registered under `id`.
    pub fn shader(&self, id: AssetId) -> (r: Option<&Shader>)
        ensures
            (r matches Some(s) ==> self.spec_shaders().contains_key(id) && *s
                == self.spec_shaders()[id]),
            r is None ==> !self.spec_shaders().contains_key(id),
    {
        self.shaders.get(&id)
    }

    /// The material registered under `id`.
    pub fn material(&self, id: AssetId) -> (r: Option<&Material>)
        ensures
            (r matches Some(m) ==> self.spec_materials().contains_key(id) && *m
                == self.spec_materials()[id]),
            r is None ==> !self.spec_materials().contains_key(id),
    {
        self.materials.get(&id)
    }

    /// The identifier registered under `name`.
    pub fn id_of(&self, name: &str) -> (r: Option<AssetId>)
        ensures
            (r matches Some(id) ==> self.spec_names().contains_key(name@) && id
                == self.spec_names()[name@]),
            r is None ==> !self.spec_names().contains_key(name@),
    {
        match self.name_map.get(name) {
            Some(id) => Some(*id),
            None => None,
        }
    }

    /// Texture identifiers in registration order.
    pub fn textures(&self) -> (r: &Vec<AssetId>)
        ensures
            r@ == self.spec_texture_order(),
    {
        &self.texture_order
    }

    /// Mesh identifiers in registration order.
    pub fn meshes(&self) -> (r: &Vec<AssetId>)
        ensures
            r@ == self.spec_mesh_order(),
    {
        &self.mesh_order
    }
}

/// After inserting `id`, the order list still names every key of the map:
/// the list gained `id` exactly when the map did.
proof fn lemma_cover_after_insert<T>(
    old_map: Map<AssetId, T>,
    old_ord: Seq<AssetId>,
    new_ord: Seq<AssetId>,
    id: AssetId,
    v: T,
)
    requires
        forall|k: AssetId| #[trigger] old_map.contains_key(k) ==> old_ord.contains(k),
        old_map.contains_key(id) ==> new_ord == old_ord,
        !old_map.contains_key(id) ==> new_ord == old_ord.push(id),
    ensures
        forall|k: AssetId| #[trigger] old_map.insert(id, v).contains_key(k) ==> new_ord.contains(
            k,
        ),
{
    assert forall|k: AssetId| #[trigger] old_map.insert(id, v).contains_key(k) implies new_ord
        .contains(k) by {
        if k == id {
            if !old_map.contains_key(id) {
                assert(new_ord[new_ord.len() - 1] == id);
            }
        } else {
            assert(old_map.contains_key(k));
            assert(old_ord.contains(k));
            let w = choose|w: int| 0 <= w < old_ord.len() && old_ord[w] == k;
            assert(new_ord[w] == k);
        }
    }
}

/// An untouched map and order list still satisfy the cover property.
proof fn lemma_cover_unchanged<T>(
    old_map: Map<AssetId, T>,
    old_ord: Seq<AssetId>,
    new_map: Map<AssetId, T>,
    new_ord: Seq<AssetId>,
)
    requires
        forall|k: AssetId| #[trigger] old_map.contains_key(k) ==> old_ord.contains(k),
        new_map == old_map,
        new_ord == old_ord,
    ensures
        forall|k: AssetId| #[trigger] new_map.contains_key(k) ==> new_ord.contains(k),
{
}

/// Pushing an identifier absent from the map onto an order list in sync
/// with that map keeps the list duplicate-free.
proof fn lemma_fresh_id_keeps_order_wf<T>(order: Seq<AssetId>, map: Map<AssetId, T>, id: AssetId)
    requires
        order.no_duplicates(),
        forall|i: int| 0 <= i < order.len() ==> map.contains_key(#[trigger] order[i]),
        !map.contains_key(id),
    ensures
        order.push(id).no_duplicates(),
        forall|i: int| 0 <= i < order.push(id).len() ==> (#[trigger] order.push(id)[i]) == id
            || map.contains_key(order.push(id)[i]),
{
    assert forall|i: int, j: int|
        0 <= i < order.push(id).len() && 0 <= j < order.push(id).len() && i != j implies order.push(
        id,
    )[i] != order.push(id)[j] by {
        if i < order.len() && j < order.len() {
            assert(order[i] != order[j]);
        } else if i < order.len() && j == order.len() {
            assert(map.contains_key(order[i]));
        } else if j < order.len() && i == order.len() {
            assert(map.contains_key(order[j]));
        }
    }
}

} // verus!
