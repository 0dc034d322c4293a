//! Textures as the renderer's logic sees them: their kind, the sampler
//! uniform each one is bound under, and the cache that keeps any file from
//! being uploaded twice.

use vstd::prelude::*;
use vstd::string::StringExecFns;
use crate::decimal::{dec_rep, decimal_string};

verus! {

/// The role a texture plays in a material, under the shader naming
/// convention `texture_<kind>N`.
#[derive(Clone, Copy, PartialEq, Eq, Structural, Debug)]
pub enum TextureKind {
    Diffuse,
    Specular,
    Normal,
    Height,
    Ambient,
    Unknown,
}

/// The sampler-name prefix of each texture kind.
pub open spec fn kind_label(k: TextureKind) -> Seq<char> {
    match k {
        TextureKind::Diffuse => "texture_diffuse"@,
        TextureKind::Specular => "texture_specular"@,
        TextureKind::Normal => "texture_normal"@,
        TextureKind::Height => "texture_height"@,
        TextureKind::Ambient => "texture_ambient"@,
        TextureKind::Unknown => "texture_unknown"@,
    }
}

/// The sampler-name prefix of a texture kind.
pub fn texture_kind_label(k: TextureKind) -> (r: &'static str)
    ensures
        r@ == kind_label(k),
{
    match k {
        TextureKind::Diffuse => "texture_diffuse",
        TextureKind::Specular => "texture_specular",
        TextureKind::Normal => "texture_normal",
        TextureKind::Height => "texture_height",
        TextureKind::Ambient => "texture_ambient",
        TextureKind::Unknown => "texture_unknown",
    }
}

/// Whether textures of this kind are numbered per kind when bound; the
/// others are given the number zero.
pub open spec fn is_counted(k: TextureKind) -> bool {
    k == TextureKind::Diffuse || k == TextureKind::Specular || k == TextureKind::Normal
        || k == TextureKind::Height
}

/// How many of the first `i` kinds equal `k`.
pub open spec fn occurrences_before(kinds: Seq<TextureKind>, k: TextureKind, i: int) -> nat
    decreases i,
{
    if i <= 0 {
        0
    } else {
        occurrences_before(kinds, k, i - 1) + (if kinds[i - 1] == k {
            1nat
        } else {
            0nat
        })
    }
}

/// The sampler number of the texture at position `i`: for the counted
/// kinds, one more than the count of earlier textures of the same kind;
/// zero for the rest.
pub open spec fn sampler_number(kinds: Seq<TextureKind>, i: int) -> nat {
    if is_counted(kinds[i]) {
        occurrences_before(kinds, kinds[i], i) + 1
    } else {
        0
    }
}

/// The uniform name a texture is bound under: its kind's label followed by
/// its sampler number in decimal.
pub open spec fn spec_sampler_name(k: TextureKind, n: nat) -> Seq<char> {
    kind_label(k) + dec_rep(n)
}

proof fn lemma_occurrences_bounded(kinds: Seq<TextureKind>, k: TextureKind, i: int)
    requires
        0 <= i,
    ensures
        occurrences_before(kinds, k, i) <= i,
    decreases i,
{
    if i > 0 {
        lemma_occurrences_bounded(kinds, k, i - 1);
    }
}

proof fn lemma_occurrences_monotone(kinds: Seq<TextureKind>, k: TextureKind, a: int, b: int)
    requires
        0 <= a <= b,
    ensures
        occurrences_before(kinds, k, a) <= occurrences_before(kinds, k, b),
    decreases b - a,
{
    if a < b {
        lemma_occurrences_monotone(kinds, k, a, b - 1);
    }
}

/// The sampler numbers of a sequence of textures, in order. A counted kind
/// is numbered 1, 2, 3, ... within the textures of that kind; the other
/// kinds get zero.
pub fn sampler_numbers(kinds: &Vec<TextureKind>) -> (r: Vec<usize>)
    ensures
        r@.len() == kinds@.len(),
        forall|i: int| 0 <= i < kinds@.len() ==> r@[i] == sampler_number(kinds@, i),
{
    let mut r: Vec<usize> = Vec::new();
    let mut diffuse: usize = 0;
    let mut specular: usize = 0;
    let mut normal: usize = 0;
    let mut height: usize = 0;
    let mut idx: usize = 0;
    while idx < kinds.len()
        invariant
            idx <= kinds@.len(),
            r@.len() == idx,
            diffuse == occurrences_before(kinds@, TextureKind::Diffuse, idx as int),
            specular == occurrences_before(kinds@, TextureKind::Specular, idx as int),
            normal == occurrences_before(kinds@, TextureKind::Normal, idx as int),
            height == occurrences_before(kinds@, TextureKind::Height, idx as int),
            forall|i: int| 0 <= i < idx ==> r@[i] == sampler_number(kinds@, i),
        decreases kinds@.len() - idx,
    {
        proof {
            lemma_occurrences_bounded(kinds@, TextureKind::Diffuse, idx as int);
            lemma_occurrences_bounded(kinds@, TextureKind::Specular, idx as int);
            lemma_occurrences_bounded(kinds@, TextureKind::Normal, idx as int);
            lemma_occurrences_bounded(kinds@, TextureKind::Height, idx as int);
        }
        let n: usize = match kinds[idx] {
            TextureKind::Diffuse => {
                diffuse = diffuse + 1;
                diffuse
            },
            TextureKind::Specular => {
                specular = specular + 1;
                specular
            },
            TextureKind::Normal => {
                normal = normal + 1;
                normal
            },
            TextureKind::Height => {
                height = height + 1;
                height
            },
            TextureKind::Ambient => 0,
            TextureKind::Unknown => 0,
        };
        r.push(n);
        idx = idx + 1;
    }
    r
}

/// The uniform name a texture of kind `k` with sampler number `n` is bound
/// under.
pub fn sampler_name(k: TextureKind, n: usize) -> (r: String)
    ensures
        r@ == spec_sampler_name(k, n as nat),
{
    let mut s = String::from_str(texture_kind_label(k));
    let digits = decimal_string(n as u64);
    s.append(digits.as_str());
    s
}

/// The uniform names of a sequence of textures, each built from its kind
/// and its sampler number.
pub fn sampler_names(kinds: &Vec<TextureKind>) -> (r: Vec<String>)
    ensures
        r@.len() == kinds@.len(),
        forall|i: int|
            0 <= i < kinds@.len() ==> r@[i]@ == spec_sampler_name(
                kinds@[i],
                sampler_number(kinds@, i),
            ),
{
    let numbers = sampler_numbers(kinds);
    let mut r: Vec<String> = Vec::new();
    let mut idx: usize = 0;
    while idx < kinds.len()
        invariant
            idx <= kinds@.len(),
            numbers@.len() == kinds@.len(),
            forall|i: int| 0 <= i < kinds@.len() ==> numbers@[i] == sampler_number(kinds@, i),
            r@.len() == idx,
            forall|i: int|
                0 <= i < idx ==> r@[i]@ == spec_sampler_name(
                    kinds@[i],
                    sampler_number(kinds@, i),
                ),
        decreases kinds@.len() - idx,
    {
        let name = sampler_name(kinds[idx], numbers[idx]);
        r.push(name);
        idx = idx + 1;
    }
    r
}

/// Two textures of the same counted kind never share a sampler number: the
/// numbering hands out 1, 2, 3, ... per kind in order, so every sampler
/// uniform of that kind is distinct.
pub proof fn lemma_sampler_numbers_distinct(kinds: Seq<TextureKind>, i: int, j: int)
    requires
        0 <= i < j < kinds.len(),
        kinds[i] == kinds[j],
        is_counted(kinds[i]),
    ensures
        sampler_number(kinds, i) != sampler_number(kinds, j),
{
    lemma_occurrences_monotone(kinds, kinds[i], i + 1, j);
}

/// The pixel layouts a decoded image is delivered in.
#[derive(Clone, Copy, PartialEq, Eq, Structural, Debug)]
pub enum ImageColor {
    Luma8,
    Rgb8,
    Rgba8,
    Other,
}

/// The storage formats a texture is uploaded in.
#[derive(Clone, Copy, PartialEq, Eq, Structural, Debug)]
pub enum TextureFormat {
    Red,
    Rgb,
    Rgba,
}

/// The storage format chosen for an image: one channel for 8-bit
/// grayscale, four for 8-bit RGBA, and three channels for everything else.
pub fn texture_format(c: ImageColor) -> (f: TextureFormat)
    ensures
        f == (match c {
            ImageColor::Luma8 => TextureFormat::Red,
            ImageColor::Rgb8 => TextureFormat::Rgb,
            ImageColor::Rgba8 => TextureFormat::Rgba,
            ImageColor::Other => TextureFormat::Rgb,
        }),
{
    match c {
        ImageColor::Luma8 => TextureFormat::Red,
        ImageColor::Rgb8 => TextureFormat::Rgb,
        ImageColor::Rgba8 => TextureFormat::Rgba,
        ImageColor::Other => TextureFormat::Rgb,
    }
}

/// One texture already uploaded to the renderer: its handle, its kind, and
/// the path it was loaded from.
pub struct Texture {
    pub id: u32,
    pub kind: TextureKind,
    pub path: String,
}

impl Clone for Texture {
    fn clone(&self) -> (r: Self)
        ensures
            r == *self,
    {
        Texture { id: self.id, kind: self.kind, path: self.path.clone() }
    }
}

/// The textures loaded so far, each under the path it was read from, so
/// that no file is uploaded more than once. No two records share a path.
pub struct TextureCache {
    records: Vec<Texture>,
}

impl TextureCache {
    /// All cached records, in the order they were inserted.
    pub closed spec fn records(self) -> Seq<Texture> {
        self.records@
    }

    /// No two records share a path.
    pub open spec fn wf(self) -> bool {
        forall|i: int, j: int|
            0 <= i < j < self.records().len() ==> self.records()[i].path@
                != self.records()[j].path@
    }

    /// Whether some record was loaded from path `p`.
    pub open spec fn contains_path(self, p: Seq<char>) -> bool {
        exists|i: int| 0 <= i < self.records().len() && self.records()[i].path@ == p
    }

    /// An empty cache.
    pub fn new() -> (r: Self)
        ensures
            r.records() == Seq::<Texture>::empty(),
            r.wf(),
    {
        TextureCache { records: Vec::new() }
    }

    /// How many textures are cached.
    pub fn len(&self) -> (n: usize)
        ensures
            n == self.records().len(),
    {
        self.records.len()
    }

    /// The cached record loaded from `path`, if there is one.
    pub fn lookup(&self, path: &str) -> (r: Option<Texture>)
        ensures
            match r {
                Some(t) => t.path@ == path@ && exists|i: int|
                    0 <= i < self.records().len() && self.records()[i] == t,
                None => !self.contains_path(path@),
            },
    {
        let key = path.to_owned();
        let mut idx: usize = 0;
        while idx < self.records.len()
            invariant
                idx <= self.records().len(),
                key@ == path@,
                forall|i: int| 0 <= i < idx ==> self.records()[i].path@ != path@,
            decreases self.records().len() - idx,
        {
            if self.records[idx].path == key {
                return Some(self.records[idx].clone());
            }
            idx = idx + 1;
        }
        None
    }

    /// Records a newly loaded texture; its path must not be cached yet, so
    /// that paths stay unique.
    pub fn insert(&mut self, t: Texture)
        requires
            old(self).wf(),
            !old(self).contains_path(t.path@),
        ensures
            final(self).records() == old(self).records().push(t),
            final(self).wf(),
            final(self).contains_path(t.path@),
    {
        self.records.push(t);
        proof {
            let r = self.records();
            assert(r[r.len() - 1].path@ == t.path@);
        }
    }
}

} // verus!
