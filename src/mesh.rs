//! Mesh topology: the triangles of an index list, and how many triangle
//! corners each vertex takes part in, which is what the per-vertex tangent
//! and bitangent are averaged over.
use vstd::prelude::*;

verus! {

/// Three vertex indices of one triangle.
#[derive(Clone, Copy, Debug, PartialEq, Eq, Structural)]
pub struct Triangle {
    pub a: usize,
    pub b: usize,
    pub c: usize,
}

/// Why a parsed mesh cannot be turned into geometry.
#[derive(Clone, Copy, Debug, PartialEq, Eq, Structural)]
pub enum MeshError {
    /// The index list does not end on a whole triangle; `len` is its length.
    PartialTriangle { len: usize },
    /// The index at `position` names no vertex.
    IndexOutOfRange { position: usize, index: u32 },
    /// Fewer texture coordinates than two per vertex.
    MissingTexCoords { vertices: usize, len: usize },
    /// Fewer normal components than three per vertex.
    MissingNormals { vertices: usize, len: usize },
    /// The mesh names a material that the model does not have.
    MaterialOutOfRange { material: usize, count: usize },
}

impl Triangle {
    /// The vertices of the triangle all lie below `n`.
    pub open spec fn in_range(self, n: int) -> bool {
        self.a < n && self.b < n && self.c < n
    }

    /// How many corners of the triangle are vertex `v`.
    pub open spec fn corners_at(self, v: int) -> nat {
        (if self.a == v { 1nat } else { 0nat }) + (if self.b == v { 1nat } else { 0nat }) + (
        if self.c == v { 1nat } else { 0nat })
    }
}

/// The triangle made of indices `3t`, `3t + 1`, `3t + 2` of `indices`.
pub open spec fn triangle_at(indices: Seq<u32>, t: int) -> Triangle {
    Triangle {
        a: indices[3 * t] as usize,
        b: indices[3 * t + 1] as usize,
        c: indices[3 * t + 2] as usize,
    }
}

/// Every index names one of `n` vertices.
pub open spec fn indices_in_range(indices: Seq<u32>, n: int) -> bool {
    forall|i: int| 0 <= i < indices.len() ==> indices[i] < n
}

/// How many corners of the triangles `tris` are vertex `v`: the number of
/// contributions that vertex `v` sums up.
pub open spec fn corner_count(tris: Seq<Triangle>, v: int) -> nat
    decreases tris.len(),
{
    if tris.len() == 0 {
        0
    } else {
        corner_count(tris.drop_last(), v) + tris.last().corners_at(v)
    }
}

/// Groups a flat index list into triangles, three indices each, in order.
///
/// Fails when the list does not end on a whole triangle, or else at the first
/// index that names no vertex of the `vertex_count` vertices.
pub fn split_triangles(indices: &Vec<u32>, vertex_count: usize) -> (r: Result<
    Vec<Triangle>,
    MeshError,
>)
    ensures
        r.is_ok() <==> (indices@.len() % 3 == 0 && indices_in_range(indices@, vertex_count as int)),
        r matches Ok(tris) ==> tris@.len() == indices@.len() / 3 && forall|t: int|
            0 <= t < tris@.len() ==> tris@[t] == triangle_at(indices@, t),
        r matches Err(e) ==> index_error(indices@, vertex_count as int, e),
{
    let len = indices.len();
    if len % 3 != 0 {
        return Err(MeshError::PartialTriangle { len });
    }
    let mut i: usize = 0;
    while i < len
        invariant
            len == indices@.len(),
            len % 3 == 0,
            i <= len,
            indices_in_range(indices@.take(i as int), vertex_count as int),
        decreases len - i,
    {
        let index = indices[i];
        if index as usize >= vertex_count {
            return Err(MeshError::IndexOutOfRange { position: i, index });
        }
        assert(indices@.take(i + 1) =~= indices@.take(i as int).push(index));
        i = i + 1;
    }
    assert(indices@.take(len as int) =~= indices@);
    let mut tris: Vec<Triangle> = Vec::new();
    let n = len / 3;
    let mut t: usize = 0;
    while t < n
        invariant
            n == indices@.len() / 3,
            len == indices@.len(),
            len % 3 == 0,
            t <= n,
            tris@.len() == t,
            forall|k: int| 0 <= k < t ==> tris@[k] == triangle_at(indices@, k),
        decreases n - t,
    {
        let tri = Triangle {
            a: indices[3 * t] as usize,
            b: indices[3 * t + 1] as usize,
            c: indices[3 * t + 2] as usize,
        };
        tris.push(tri);
        t = t + 1;
    }
    Ok(tris)
}

/// For each of `vertex_count` vertices, how many triangle corners name it.
pub fn corner_counts(tris: &Vec<Triangle>, vertex_count: usize) -> (counts: Vec<usize>)
    requires
        forall|t: int| 0 <= t < tris@.len() ==> (#[trigger] tris@[t]).in_range(
            vertex_count as int,
        ),
        3 * tris@.len() <= usize::MAX,
    ensures
        counts@.len() == vertex_count,
        forall|v: int| 0 <= v < vertex_count ==> counts@[v] == corner_count(tris@, v),
{
    let mut counts: Vec<usize> = Vec::new();
    let mut v: usize = 0;
    while v < vertex_count
        invariant
            v <= vertex_count,
            counts@.len() == v,
            forall|w: int| 0 <= w < v ==> counts@[w] == 0,
        decreases vertex_count - v,
    {
        counts.push(0);
        v = v + 1;
    }
    let mut t: usize = 0;
    while t < tris.len()
        invariant
            t <= tris@.len(),
            3 * tris@.len() <= usize::MAX,
            counts@.len() == vertex_count,
            forall|k: int| 0 <= k < tris@.len() ==> (#[trigger] tris@[k]).in_range(
                vertex_count as int,
            ),
            forall|w: int|
                0 <= w < vertex_count ==> counts@[w] == corner_count(tris@.take(t as int), w)
                    && counts@[w] <= 3 * t,
        decreases tris@.len() - t,
    {
        let tri = tris[t];
        assert(tris@.take(t + 1).drop_last() =~= tris@.take(t as int));
        assert(tris@.take(t + 1).last() == tri);
        let ca = counts[tri.a];
        counts.set(tri.a, ca + 1);
        let cb = counts[tri.b];
        counts.set(tri.b, cb + 1);
        let cc = counts[tri.c];
        counts.set(tri.c, cc + 1);
        t = t + 1;
    }
    assert(tris@.take(tris@.len() as int) =~= tris@);
    counts
}

/// The triangles of `tris` that have vertex `v` as a corner.
pub open spec fn sharing(tris: Seq<Triangle>, v: int) -> Seq<Triangle> {
    tris.filter(|t: Triangle| t.corners_at(v) > 0)
}

/// The three corners of each triangle are distinct vertices.
pub open spec fn proper(tris: Seq<Triangle>) -> bool {
    forall|t: int|
        0 <= t < tris.len() ==> (#[trigger] tris[t]).a != tris[t].b && tris[t].b != tris[t].c
            && tris[t].a != tris[t].c
}

/// Where no triangle names a vertex twice, the number of contributions that
/// a vertex sums up is the number of triangles that share it, so the average
/// taken over it is the mean of one contribution per sharing triangle.
pub proof fn lemma_count_is_sharing(tris: Seq<Triangle>, v: int)
    requires
        proper(tris),
    ensures
        corner_count(tris, v) == sharing(tris, v).len(),
    decreases tris.len(),
{
    reveal_with_fuel(Seq::filter, 1);
    if tris.len() > 0 {
        let rest = tris.drop_last();
        assert forall|t: int| 0 <= t < rest.len() implies (#[trigger] rest[t]).a != rest[t].b
            && rest[t].b != rest[t].c && rest[t].a != rest[t].c by {
            assert(rest[t] == tris[t]);
        }
        lemma_count_is_sharing(rest, v);
        let last = tris[tris.len() - 1];
        assert(last.corners_at(v) <= 1);
    }
}

/// The vertex count of a mesh with attribute lists of the given lengths, or
/// why the lists do not make whole vertices.
pub open spec fn attribute_check(positions_len: usize, texcoords_len: usize, normals_len: usize) -> Result<usize, MeshError> {
    if texcoords_len < 2 * (positions_len / 3) {
        Err(MeshError::MissingTexCoords { vertices: positions_len / 3, len: texcoords_len })
    } else if normals_len < 3 * (positions_len / 3) {
        Err(MeshError::MissingNormals { vertices: positions_len / 3, len: normals_len })
    } else {
        Ok(positions_len / 3)
    }
}

/// `e` is the error that an index list of `n` vertices fails with: the list
/// stops inside a triangle, or else `e` names its first index out of range.
pub open spec fn index_error(indices: Seq<u32>, n: int, e: MeshError) -> bool {
    match e {
        MeshError::PartialTriangle { len } => len == indices.len() && len % 3 != 0,
        MeshError::IndexOutOfRange { position, index } => indices.len() % 3 == 0 && position
            < indices.len() && index == indices[position as int] && index >= n && indices_in_range(
            indices.take(position as int),
            n,
        ),
        _ => false,
    }
}

/// The number of vertices of a mesh whose flat attribute lists have the given
/// lengths: one vertex per three position components.
///
/// Fails when there are fewer than two texture coordinates or three normal
/// components for each of those vertices.
pub fn vertex_count(positions_len: usize, texcoords_len: usize, normals_len: usize) -> (r: Result<
    usize,
    MeshError,
>)
    ensures
        r == attribute_check(positions_len, texcoords_len, normals_len),
{
    let n = positions_len / 3;
    if texcoords_len < 2 * n {
        Err(MeshError::MissingTexCoords { vertices: n, len: texcoords_len })
    } else if normals_len < 3 * n {
        Err(MeshError::MissingNormals { vertices: n, len: normals_len })
    } else {
        Ok(n)
    }
}

/// The material index of a mesh in a model with `material_count` materials:
/// the one the mesh names, or 0 where it names none.
pub fn resolve_material(material_id: Option<usize>, material_count: usize) -> (r: Result<
    usize,
    MeshError,
>)
    ensures
        r == (match material_id {
            None => Ok::<usize, MeshError>(0),
            Some(m) => if m < material_count {
                Ok(m)
            } else {
                Err(MeshError::MaterialOutOfRange { material: m, count: material_count })
            },
        }),
{
    match material_id {
        None => Ok(0),
        Some(m) => if m < material_count {
            Ok(m)
        } else {
            Err(MeshError::MaterialOutOfRange { material: m, count: material_count })
        },
    }
}

/// The attributes of one vertex, with components of type `T`.
#[derive(Debug, PartialEq)]
pub struct VertexAttributes<T> {
    pub position: (T, T, T),
    pub tex_coords: (T, T),
    pub normal: (T, T, T),
}

/// The attributes of vertex `i` read from flat attribute lists.
pub open spec fn attributes_at<T>(
    positions: Seq<T>,
    texcoords: Seq<T>,
    normals: Seq<T>,
    i: int,
) -> VertexAttributes<T> {
    VertexAttributes {
        position: (positions[3 * i], positions[3 * i + 1], positions[3 * i + 2]),
        tex_coords: (texcoords[2 * i], texcoords[2 * i + 1]),
        normal: (normals[3 * i], normals[3 * i + 1], normals[3 * i + 2]),
    }
}

/// Reads the vertices of a mesh out of its flat attribute lists: three
/// position components, two texture coordinates and three normal components
/// per vertex, one vertex per whole position.
pub fn gather_vertices<T: Copy>(positions: &Vec<T>, texcoords: &Vec<T>, normals: &Vec<T>) -> (r:
    Result<Vec<VertexAttributes<T>>, MeshError>)
    ensures
        attribute_check(positions@.len() as usize, texcoords@.len() as usize, normals@.len() as usize) matches Err(e)
            ==> r == Err::<Vec<VertexAttributes<T>>, MeshError>(e),
        attribute_check(positions@.len() as usize, texcoords@.len() as usize, normals@.len() as usize) matches Ok(n)
            ==> r matches Ok(v) && v@.len() == n && forall|i: int|
            0 <= i < n ==> v@[i] == attributes_at(positions@, texcoords@, normals@, i),
{
    let (pl, tl, nl) = (positions.len(), texcoords.len(), normals.len());
    let n = match vertex_count(pl, tl, nl) {
        Ok(n) => n,
        Err(e) => return Err(e),
    };
    let mut out: Vec<VertexAttributes<T>> = Vec::new();
    let mut i: usize = 0;
    while i < n
        invariant
            pl == positions@.len(),
            tl == texcoords@.len(),
            nl == normals@.len(),
            n == pl / 3,
            2 * n <= tl,
            3 * n <= nl,
            i <= n,
            out@.len() == i,
            forall|k: int|
                0 <= k < i ==> out@[k] == attributes_at(positions@, texcoords@, normals@, k),
        decreases n - i,
    {
        let a = VertexAttributes {
            position: (positions[3 * i], positions[3 * i + 1], positions[3 * i + 2]),
            tex_coords: (texcoords[2 * i], texcoords[2 * i + 1]),
            normal: (normals[3 * i], normals[3 * i + 1], normals[3 * i + 2]),
        };
        out.push(a);
        i = i + 1;
    }
    Ok(out)
}

/// The checked topology of one mesh: its vertex count, its triangles, and for
/// each vertex the number of triangle corners that name it.
pub struct MeshTopology {
    pub vertex_count: usize,
    pub triangles: Vec<Triangle>,
    pub corner_counts: Vec<usize>,
}

/// Checks the attribute lengths and the index list of a parsed mesh and
/// derives its topology, for the tangent-space pass and for upload.
pub fn build_topology(
    indices: &Vec<u32>,
    positions_len: usize,
    texcoords_len: usize,
    normals_len: usize,
) -> (r: Result<MeshTopology, MeshError>)
    ensures
        attribute_check(positions_len, texcoords_len, normals_len) matches Err(e) ==> r == Err::<
            MeshTopology,
            MeshError,
        >(e),
        attribute_check(positions_len, texcoords_len, normals_len) matches Ok(n) ==> (r.is_ok()
            <==> (indices@.len() % 3 == 0 && indices_in_range(indices@, n as int))),
        attribute_check(positions_len, texcoords_len, normals_len) is Ok ==> (r matches Err(e)
            ==> index_error(indices@, (positions_len / 3) as int, e)),
        r matches Ok(m) ==> {
            &&& m.vertex_count == positions_len / 3
            &&& m.triangles@.len() == indices@.len() / 3
            &&& forall|t: int|
                0 <= t < m.triangles@.len() ==> m.triangles@[t] == triangle_at(indices@, t)
            &&& m.corner_counts@.len() == m.vertex_count
            &&& forall|v: int|
                0 <= v < m.vertex_count ==> m.corner_counts@[v] == corner_count(m.triangles@, v)
        },
{
    let n = match vertex_count(positions_len, texcoords_len, normals_len) {
        Ok(n) => n,
        Err(e) => return Err(e),
    };
    let triangles = match split_triangles(indices, n) {
        Ok(t) => t,
        Err(e) => return Err(e),
    };
    assert forall|t: int| 0 <= t < triangles@.len() implies (#[trigger] triangles@[t]).in_range(
        n as int,
    ) by {
        assert(triangles@[t] == triangle_at(indices@, t));
        assert(indices@[3 * t] < n);
        assert(indices@[3 * t + 1] < n);
        assert(indices@[3 * t + 2] < n);
    }
    let index_len = indices.len();
    assert(3 * triangles@.len() <= index_len);
    let corner_counts = corner_counts(&triangles, n);
    Ok(MeshTopology { vertex_count: n, triangles, corner_counts })
}

} // verus!
