use vstd::prelude::*;

verus! {

/// Largest number of samples whose strip still indexes with `u16`.
pub const MAX_STRIP_SAMPLES: usize = 32768;

/// The six indices of quad `q` of a strip: triangles
/// `(2q, 2q+1, 2q+2)` and `(2q+1, 2q+3, 2q+2)`.
pub open spec fn quad_index(q: int, k: int) -> int {
    if k == 0 {
        2 * q
    } else if k == 1 {
        2 * q + 1
    } else if k == 2 {
        2 * q + 2
    } else if k == 3 {
        2 * q + 1
    } else if k == 4 {
        2 * q + 3
    } else {
        2 * q + 2
    }
}

/// The triangle list of a strip over `n` samples: vertex `2i` is the inner
/// and `2i+1` the outer boundary point of sample `i`.
pub open spec fn strip_indices(n: int) -> Seq<int>
    recommends
        n >= 1,
{
    Seq::new((6 * (n - 1)) as nat, |j: int| quad_index(j / 6, j % 6))
}

/// Index `j` of a strip over `n` samples names a vertex of that strip.
pub proof fn lemma_strip_index_bound(n: int, j: int)
    requires
        n >= 1,
        0 <= j < 6 * (n - 1),
    ensures
        0 <= strip_indices(n)[j] < 2 * n,
{
    let q = j / 6;
    let k = j % 6;
    assert(0 <= q < n - 1 && 0 <= k < 6) by (nonlinear_arith)
        requires
            n >= 1,
            0 <= j < 6 * (n - 1),
            q == j / 6,
            k == j % 6,
    ;
}

/// Triangle-strip indices for `num_samples` paired inner/outer samples.
pub fn generate_strip_indices(num_samples: usize) -> (r: Vec<u16>)
    requires
        1 <= num_samples <= MAX_STRIP_SAMPLES,
    ensures
        r@.len() == 6 * (num_samples - 1),
        forall|j: int| 0 <= j < r@.len() ==> r@[j] as int == strip_indices(num_samples as int)[j],
        forall|j: int| 0 <= j < r@.len() ==> r@[j] < 2 * num_samples,
{
    let mut indices: Vec<u16> = Vec::new();
    let mut i: usize = 0;
    while i + 1 < num_samples
        invariant
            1 <= num_samples <= MAX_STRIP_SAMPLES,
            i < num_samples,
            indices@.len() == 6 * i,
            forall|j: int|
                0 <= j < indices@.len() ==> indices@[j] as int == quad_index(j / 6, j % 6),
        decreases num_samples - i,
    {
        let base: u16 = (i * 2) as u16;
        indices.push(base);
        indices.push(base + 1);
        indices.push(base + 2);
        indices.push(base + 1);
        indices.push(base + 3);
        indices.push(base + 2);
        assert forall|j: int| 0 <= j < indices@.len() implies indices@[j] as int == quad_index(
            j / 6,
            j % 6,
        ) by {
            if j >= 6 * i {
                assert(j / 6 == i as int && j % 6 == j - 6 * i) by (nonlinear_arith)
                    requires
                        6 * i <= j < 6 * i + 6,
                ;
            }
        }
        i = i + 1;
    }
    proof {
        assert forall|j: int| 0 <= j < indices@.len() implies indices@[j] < 2 * num_samples by {
            lemma_strip_index_bound(num_samples as int, j);
        }
    }
    indices
}

/// Appends the indices of a mesh placed after `offset` existing vertices:
/// each index of `other` is shifted by `offset`, as merging two meshes needs.
pub fn append_shifted_indices(indices: &mut Vec<u16>, other: &Vec<u16>, offset: u16)
    requires
        forall|j: int| 0 <= j < other@.len() ==> other@[j] + offset <= u16::MAX,
    ensures
        final(indices)@.len() == old(indices)@.len() + other@.len(),
        forall|j: int|
            0 <= j < old(indices)@.len() ==> final(indices)@[j] == old(indices)@[j],
        forall|j: int|
            0 <= j < other@.len() ==> final(indices)@[old(indices)@.len() + j] == other@[j]
                + offset,
{
    let ghost start = indices@;
    let mut i: usize = 0;
    while i < other.len()
        invariant
            i <= other@.len(),
            forall|j: int| 0 <= j < other@.len() ==> other@[j] + offset <= u16::MAX,
            indices@.len() == start.len() + i,
            forall|j: int| 0 <= j < start.len() ==> indices@[j] == start[j],
            forall|j: int| 0 <= j < i ==> indices@[start.len() + j] == other@[j] + offset,
        decreases other@.len() - i,
    {
        indices.push(other[i] + offset);
        i = i + 1;
    }
}

/// Merging keeps a mesh valid: when every index of the first mesh names one
/// of its `n` vertices and every index of the second one of its `m`
/// vertices, the second shifted by `n` and appended names one of the `n + m`
/// vertices of the merged mesh.
pub proof fn lemma_merged_indices_in_range(a: Seq<u16>, b: Seq<u16>, n: int, m: int)
    requires
        0 <= n,
        0 <= m,
        n + m <= u16::MAX + 1,
        forall|j: int| 0 <= j < a.len() ==> a[j] < n,
        forall|j: int| 0 <= j < b.len() ==> b[j] < m,
    ensures
        forall|j: int| 0 <= j < b.len() ==> b[j] + n <= u16::MAX,
        forall|j: int|
            0 <= j < a.len() + b.len() ==> (if j < a.len() {
                a[j] as int
            } else {
                b[j - a.len()] + n
            }) < n + m,
{
}

} // verus!
