//! The plain-value steps of loading a model from a scene file: where the
//! model's directory is found in its path, and how per-face vertex indices
//! are collected into one index list.

use vstd::prelude::*;
use vstd::string::{StrSliceExecFns, StringExecFns};

verus! {

/// Whether `s` holds a path separator anywhere.
pub open spec fn contains_slash(s: Seq<char>) -> bool {
    exists|i: int| 0 <= i < s.len() && s[i] == '/'
}

/// The directory part of `path`: everything before its last `/`. `None`
/// exactly when the path has no separator at all.
pub fn directory_of(path: &str) -> (r: Option<String>)
    ensures
        match r {
            Some(d) => exists|i: int|
                0 <= i < path@.len() && path@[i] == '/' && (forall|j: int|
                    i < j < path@.len() ==> path@[j] != '/') && d@ == path@.subrange(0, i),
            None => !contains_slash(path@),
        },
{
    let n = path.unicode_len();
    let mut last_slash: Option<usize> = None;
    let mut i: usize = 0;
    while i < n
        invariant
            n == path@.len(),
            i <= n,
            match last_slash {
                Some(k) => k < i && path@[k as int] == '/' && (forall|j: int|
                    k < j < i ==> path@[j] != '/'),
                None => forall|j: int| 0 <= j < i ==> path@[j] != '/',
            },
        decreases n - i,
    {
        if path.get_char(i) == '/' {
            last_slash = Some(i);
        }
        i = i + 1;
    }
    match last_slash {
        Some(k) => Some(String::from_str(path.substring_char(0, k))),
        None => None,
    }
}

/// The indices of a run of faces, flattened in face order into one
/// sequence.
pub open spec fn flat_indices(faces: Seq<Seq<u32>>) -> Seq<u32>
    decreases faces.len(),
{
    if faces.len() == 0 {
        Seq::empty()
    } else {
        flat_indices(faces.drop_last()) + faces.last()
    }
}

/// Collects the vertex indices of every face, face by face, into the one
/// index list a mesh is drawn from.
pub fn flatten_faces(faces: &Vec<Vec<u32>>) -> (r: Vec<u32>)
    ensures
        r@ == flat_indices(faces.deep_view()),
{
    let mut r: Vec<u32> = Vec::new();
    let mut i: usize = 0;
    while i < faces.len()
        invariant
            i <= faces@.len(),
            r@ == flat_indices(faces.deep_view().take(i as int)),
        decreases faces@.len() - i,
    {
        let face = &faces[i];
        let mut j: usize = 0;
        while j < face.len()
            invariant
                i < faces@.len(),
                j <= face@.len(),
                face@ == faces@[i as int]@,
                r@ == flat_indices(faces.deep_view().take(i as int)) + face@.take(j as int),
            decreases face@.len() - j,
        {
            r.push(face[j]);
            j = j + 1;
        }
        proof {
            assert(face@.take(face@.len() as int) =~= face@);
            assert(faces.deep_view().take(i as int + 1).drop_last() =~= faces.deep_view().take(
                i as int,
            ));
            assert(faces.deep_view().take(i as int + 1).last() == face@);
        }
        i = i + 1;
    }
    proof {
        assert(faces.deep_view().take(faces@.len() as int) =~= faces.deep_view());
    }
    r
}

} // verus!
