//! World-side mesh data.
//!
//! A mesh is a named list of primitives; each primitive carries interleaved
//! (position, normal, texture-coordinate) vertices, an optional 32-bit index
//! list, and an optional material reference by name.  Vertex components are
//! raw IEEE-754 bit patterns (`u32` words): the core never computes with
//! them, it only uploads them.

use vstd::prelude::*;

verus! {

/// A fresh vector with the same elements.
pub(crate) fn copy_elements<T: Copy>(v: &Vec<T>) -> (r: Vec<T>)
    ensures
        r@ == v@,
{
    let mut r: Vec<T> = Vec::new();
    let n = v.len();
    let mut i: usize = 0;
    while i < n
        invariant
            n == v@.len(),
            i <= n,
            r@ == v@.take(i as int),
        decreases n - i,
    {
        r.push(v[i]);
        proof {
            assert(v@.take(i + 1) =~= v@.take(i as int).push(v@[i as int]));
        }
        i = i + 1;
    }
    proof {
        assert(v@.take(n as int) =~= v@);
    }
    r
}

/// One interleaved vertex: position, normal and texture coordinate, each
/// component a raw 32-bit float pattern.
#[derive(Debug, Clone, Copy, PartialEq, Eq)]
pub struct VPosNormTex {
    pub position: [u32; 3],
    pub normal: [u32; 3],
    pub uv_coord: [u32; 2],
}

/// A primitive: one vertex list with an optional index list, its slot in
/// the owning mesh, and an optional material reference.
#[derive(Debug)]
pub struct Primitive {
    pub index: usize,
    pub material_name: Option<String>,
    pub vertices: Vec<VPosNormTex>,
    pub indices: Vec<u32>,
}

impl Default for Primitive {
    fn default() -> (r: Self)
        ensures
            r.index == 0,
            r.material_name is None,
            r.vertices@ == Seq::<VPosNormTex>::empty(),
            r.indices@ == Seq::<u32>::empty(),
    {
        Primitive { index: 0, material_name: None, vertices: Vec::new(), indices: Vec::new() }
    }
}

/// A named list of primitives.
#[derive(Debug)]
pub struct Mesh {
    pub name: String,
    pub primitives: Vec<Primitive>,
}

impl Default for Mesh {
    fn default() -> (r: Self)
        ensures
            r.name@ == "Unnamed"@,
            r.primitives@ == Seq::<Primitive>::empty(),
    {
        Mesh { name: "Unnamed".to_owned(), primitives: Vec::new() }
    }
}

impl Mesh {
    /// Append a primitive, stamping it with its slot in this mesh.
    pub fn add_primitive(&mut self, p: Primitive)
        ensures
            final(self).name == old(self).name,
            final(self).primitives@.len() == old(self).primitives@.len() + 1,
            forall|i: int|
                0 <= i < old(self).primitives@.len() ==> final(self).primitives@[i]
                    == old(self).primitives@[i],
            ({
                let last = final(self).primitives@.last();
                &&& last.index == old(self).primitives@.len()
                &&& last.material_name == p.material_name
                &&& last.vertices == p.vertices
                &&& last.indices == p.indices
            }),
    {
        let mut p = p;
        p.index = self.primitives.len();
        self.primitives.push(p);
    }
}

} // verus!
