//! How vertex attributes are laid out in a vertex buffer: byte offsets,
//! strides, and the total byte size of a buffer, all checked against
//! overflow.

use vstd::prelude::*;
use vstd::arithmetic::div_mod::{lemma_fundamental_div_mod, lemma_mod_bound};
use vstd::arithmetic::mul::{
    lemma_mul_inequality,
    lemma_mul_is_commutative,
    lemma_mul_is_distributive_add_other_way,
};

verus! {

/// One vertex attribute: its index in the shader, how many float
/// components it has, and its byte offset from the start of a vertex.
#[derive(Clone, Copy, PartialEq, Eq, Structural, Debug)]
pub struct VertexAttribute {
    pub index: u32,
    pub components: u32,
    pub offset: u32,
}

/// The attribute table of one vertex, together with the byte stride from
/// one vertex to the next.
pub struct VertexLayout {
    pub attributes: Vec<VertexAttribute>,
    pub stride: u32,
}

/// The byte offset of the attribute that follows the first `i` component
/// counts: four bytes for every float component before it.
pub open spec fn prefix_bytes(comps: Seq<u32>, i: int) -> int
    decreases i,
{
    if i <= 0 {
        0
    } else {
        prefix_bytes(comps, i - 1) + comps[i - 1] * 4
    }
}

proof fn lemma_prefix_bytes_monotone(comps: Seq<u32>, a: int, b: int)
    requires
        0 <= a <= b,
    ensures
        prefix_bytes(comps, a) <= prefix_bytes(comps, b),
    decreases b - a,
{
    if a < b {
        lemma_prefix_bytes_monotone(comps, a, b - 1);
        assert(comps[b - 1] * 4 >= 0) by {
            lemma_mul_inequality(0, comps[b - 1] as int, 4);
        }
    }
}

/// The attribute table for vertices whose attributes have the given float
/// component counts, packed one after the other: attribute `i` sits at the
/// byte offset of everything before it, and the stride is the full vertex
/// size. `None` exactly when an offset or the index would not fit in 32
/// bits.
pub fn attribute_layout(comps: &Vec<u32>) -> (r: Option<VertexLayout>)
    ensures
        match r {
            Some(l) => comps@.len() <= u32::MAX && prefix_bytes(comps@, comps@.len() as int)
                <= u32::MAX && l.stride == prefix_bytes(comps@, comps@.len() as int)
                && l.attributes@.len() == comps@.len() && forall|i: int|
                0 <= i < comps@.len() ==> l.attributes@[i] == (VertexAttribute {
                    index: i as u32,
                    components: comps@[i],
                    offset: prefix_bytes(comps@, i) as u32,
                }),
            None => prefix_bytes(comps@, comps@.len() as int) > u32::MAX || comps@.len()
                > u32::MAX,
        },
{
    if comps.len() > u32::MAX as usize {
        return None;
    }
    let mut attributes: Vec<VertexAttribute> = Vec::new();
    let mut off: u32 = 0;
    let mut i: usize = 0;
    while i < comps.len()
        invariant
            i <= comps@.len(),
            comps@.len() <= u32::MAX,
            attributes@.len() == i,
            off == prefix_bytes(comps@, i as int),
            forall|j: int|
                0 <= j < i ==> attributes@[j] == (VertexAttribute {
                    index: j as u32,
                    components: comps@[j],
                    offset: prefix_bytes(comps@, j) as u32,
                }),
        decreases comps@.len() - i,
    {
        let c = comps[i];
        let next: u64 = off as u64 + (c as u64) * 4;
        if next > u32::MAX as u64 {
            proof {
                lemma_prefix_bytes_monotone(comps@, i + 1, comps@.len() as int);
            }
            return None;
        }
        attributes.push(VertexAttribute { index: i as u32, components: c, offset: off });
        off = next as u32;
        i = i + 1;
    }
    Some(VertexLayout { attributes, stride: off })
}

/// The layout of a standard mesh vertex: a three-component position, a
/// three-component normal and a two-component texture coordinate, packed
/// into 32 bytes.
pub fn mesh_vertex_layout() -> (r: VertexLayout)
    ensures
        r.stride == 32,
        r.attributes@.len() == 3,
        r.attributes@[0] == (VertexAttribute { index: 0, components: 3, offset: 0 }),
        r.attributes@[1] == (VertexAttribute { index: 1, components: 3, offset: 12 }),
        r.attributes@[2] == (VertexAttribute { index: 2, components: 2, offset: 24 }),
{
    let mut comps: Vec<u32> = Vec::new();
    comps.push(3);
    comps.push(3);
    comps.push(2);
    proof {
        assert(comps@ =~= seq![3u32, 3u32, 2u32]);
        assert(prefix_bytes(comps@, 0) == 0);
        assert(prefix_bytes(comps@, 1) == 12);
        assert(prefix_bytes(comps@, 2) == 24);
        assert(prefix_bytes(comps@, 3) == 32);
    }
    match attribute_layout(&comps) {
        Some(l) => l,
        None => unreached(),
    }
}

/// The byte size of a buffer of `count` elements of `elem_size` bytes
/// each; `None` exactly when the product would not fit in a machine word.
pub fn buffer_bytes(count: usize, elem_size: usize) -> (r: Option<usize>)
    ensures
        match r {
            Some(b) => b == count * elem_size,
            None => count * elem_size > usize::MAX,
        },
{
    if elem_size == 0 {
        return Some(0);
    }
    let quot = usize::MAX / elem_size;
    if count <= quot {
        proof {
            lemma_mul_inequality(count as int, quot as int, elem_size as int);
            lemma_mul_is_commutative(quot as int, elem_size as int);
            lemma_fundamental_div_mod(usize::MAX as int, elem_size as int);
            lemma_mod_bound(usize::MAX as int, elem_size as int);
        }
        Some(count * elem_size)
    } else {
        proof {
            let q = quot as int;
            let e = elem_size as int;
            let m = usize::MAX as int;
            lemma_fundamental_div_mod(m, e);
            lemma_mod_bound(m, e);
            lemma_mul_is_distributive_add_other_way(e, q, 1);
            lemma_mul_is_commutative(q, e);
            assert((q + 1) * e > m);
            lemma_mul_inequality(q + 1, count as int, e);
        }
        None
    }
}

} // verus!
