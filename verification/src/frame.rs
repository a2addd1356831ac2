//! Assembling the batch of vertices that one frame hands to the renderer.

use vstd::prelude::*;

verus! {

/// The vertices of a run of quads, quad after quad, each quad's six vertices
/// in their own order.
pub open spec fn flattened<V>(quads: Seq<[V; 6]>) -> Seq<V>
    decreases quads.len(),
{
    if quads.len() == 0 {
        Seq::empty()
    } else {
        flattened(quads.drop_last()) + quads.last()@
    }
}

/// A run of `n` quads has `6 * n` vertices, and vertex `j` of quad `i` is
/// vertex `6 * i + j` of the run.
pub proof fn lemma_flattened_index<V>(quads: Seq<[V; 6]>, i: int, j: int)
    requires
        0 <= i < quads.len(),
        0 <= j < 6,
    ensures
        flattened(quads).len() == 6 * quads.len(),
        flattened(quads)[6 * i + j] == quads[i]@[j],
    decreases quads.len(),
{
    lemma_flattened_len(quads);
    lemma_flattened_len(quads.drop_last());
    if i < quads.len() - 1 {
        lemma_flattened_index(quads.drop_last(), i, j);
    }
}

/// A run of `n` quads has `6 * n` vertices.
pub proof fn lemma_flattened_len<V>(quads: Seq<[V; 6]>)
    ensures
        flattened(quads).len() == 6 * quads.len(),
    decreases quads.len(),
{
    if quads.len() > 0 {
        lemma_flattened_len(quads.drop_last());
    }
}

/// Appends the vertices of `quads` to `batch`, quad after quad.
pub fn iterate_through_objects<V: Copy>(batch: &mut Vec<V>, quads: &Vec<[V; 6]>)
    ensures
        final(batch)@ == old(batch)@ + flattened(quads@),
{
    let ghost before = batch@;
    let mut i: usize = 0;
    while i < quads.len()
        invariant
            i <= quads.len(),
            batch@ == before + flattened(quads@.take(i as int)),
        decreases quads.len() - i,
    {
        let ghost start = batch@;
        let quad = &quads[i];
        let mut j: usize = 0;
        while j < 6
            invariant
                j <= 6,
                i < quads.len(),
                *quad == quads@[i as int],
                batch@ == start + quad@.take(j as int),
            decreases 6 - j,
        {
            batch.push(quad[j]);
            j = j + 1;
        }
        proof {
            let prefix = quads@.take(i + 1);
            assert(prefix.drop_last() =~= quads@.take(i as int));
        }
        i = i + 1;
    }
    assert(quads@.take(i as int) =~= quads@);
}

/// Builds the batch of a frame: the vertices of the static objects first,
/// then those of the dynamic objects, each collection in its own order.
pub fn assemble_batch<V: Copy>(static_quads: &Vec<[V; 6]>, game_quads: &Vec<[V; 6]>) -> (batch:
    Vec<V>)
    ensures
        batch@ == flattened(static_quads@) + flattened(game_quads@),
        batch@.len() == 6 * (static_quads@.len() + game_quads@.len()),
{
    let mut batch: Vec<V> = Vec::new();
    iterate_through_objects(&mut batch, static_quads);
    iterate_through_objects(&mut batch, game_quads);
    proof {
        lemma_flattened_len(static_quads@);
        lemma_flattened_len(game_quads@);
    }
    batch
}

} // verus!
