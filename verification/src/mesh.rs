use vstd::prelude::*;

verus! {

/// Whether every index points into a list of `len` items.
pub open spec fn indices_in_bounds(indices: Seq<u32>, len: nat) -> bool {
    forall|k: int| 0 <= k < indices.len() ==> (#[trigger] indices[k]) < len
}

/// Turns indexed vertex data into a flat vertex list: the item at each index,
/// in the order of the indices.
pub fn expand_indices<T: Copy>(items: &Vec<T>, indices: &Vec<u32>) -> (r: Vec<T>)
    requires
        indices_in_bounds(indices@, items@.len()),
    ensures
        r@.len() == indices@.len(),
        forall|k: int| 0 <= k < indices@.len() ==> #[trigger] r@[k] == items@[indices@[k] as int],
{
    let mut r: Vec<T> = Vec::new();
    for i in 0..indices.len()
        invariant
            indices_in_bounds(indices@, items@.len()),
            r@.len() == i,
            forall|k: int| 0 <= k < i ==> #[trigger] r@[k] == items@[indices@[k] as int],
    {
        let index = indices[i];
        assert(index < items@.len());
        r.push(items[index as usize]);
    }
    r
}

/// Groups a flat vertex list into triangles of three consecutive vertices.
pub fn triangles<T: Copy>(vertices: &Vec<T>) -> (r: Vec<(T, T, T)>)
    requires
        vertices@.len() % 3 == 0,
    ensures
        r@.len() * 3 == vertices@.len(),
        forall|k: int|
            0 <= k < r@.len() ==> #[trigger] r@[k] == (
                vertices@[3 * k],
                vertices@[3 * k + 1],
                vertices@[3 * k + 2],
            ),
{
    let mut r: Vec<(T, T, T)> = Vec::new();
    let n = vertices.len();
    let count = n / 3;
    assert(count * 3 == vertices@.len()) by (nonlinear_arith)
        requires
            count == vertices@.len() / 3,
            vertices@.len() % 3 == 0,
    ;
    for i in 0..count
        invariant
            n == vertices@.len(),
            count * 3 == vertices@.len(),
            r@.len() == i,
            forall|k: int|
                0 <= k < i ==> #[trigger] r@[k] == (
                    vertices@[3 * k],
                    vertices@[3 * k + 1],
                    vertices@[3 * k + 2],
                ),
    {
        assert(3 * i + 2 < vertices@.len()) by (nonlinear_arith)
            requires
                i < count,
                count * 3 == vertices@.len(),
        ;
        let b = 3 * i;
        r.push((vertices[b], vertices[b + 1], vertices[b + 2]));
    }
    r
}

} // verus!
