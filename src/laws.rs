//! Properties that relate several steps of building a node.
use vstd::prelude::*;
use crate::node::{chain_buffers_spec, chain_images_spec, image_clear_spec, ChainNode, NodeBuilder};
use crate::resource::{BufferState, ImageId, ImageState};
use crate::schedule::{
    lemma_chain_from_bounds, lemma_chain_from_found, lemma_link_from_first, link_index_spec,
    resolve_spec, Chain, Chains, LinkState, ResourceLink, Submission,
};

verus! {

/// Whether `chains` and `sub` schedule the record `n` alone: each of its
/// resources has a chain of one link, on which submission `sub` sees the
/// state the record declares, and `sub` is at position 0 of every chain.
pub open spec fn solo_schedule(n: ChainNode, chains: Chains<BufferState, ImageState>, sub: Submission) -> bool {
    &&& chains.buffers@.len() == n.buffers@.len()
    &&& forall|k: int| 0 <= k < n.buffers@.len() ==> {
        &&& (#[trigger] chains.buffers@[k]).id == n.buffers@[k].0
        &&& chains.buffers@[k].links@.len() == 1
        &&& chains.buffers@[k].links@[0].states@ == seq![LinkState { submission: sub.id, state: n.buffers@[k].1 }]
    }
    &&& chains.images@.len() == n.images@.len()
    &&& forall|k: int| 0 <= k < n.images@.len() ==> {
        &&& (#[trigger] chains.images@[k]).id == n.images@[k].0
        &&& chains.images@[k].links@.len() == 1
        &&& chains.images@[k].links@[0].states@ == seq![LinkState { submission: sub.id, state: n.images@[k].1 }]
    }
    &&& sub.resource_links@ == Seq::new(n.buffers@.len(), |k: int| ResourceLink { resource: n.buffers@[k].0, link: 0 })
        + Seq::new(n.images@.len(), |k: int| ResourceLink { resource: n.images@[k].0, link: 0 })
}

/// A resource with a one-link chain on which `sub` is listed resolves, at position 0.
proof fn lemma_solo_resolves<S>(chains: Seq<Chain<S>>, sub: Submission, key: usize, k: int, state: S, m: int)
    requires
        0 <= k < chains.len(),
        chains[k].id == key,
        forall|c: int| 0 <= c < chains.len() && (#[trigger] chains[c]).id == key ==> {
            &&& chains[c].links@.len() == 1
            &&& chains[c].links@[0].states@.len() == 1
            &&& chains[c].links@[0].states@[0].submission == sub.id
        },
        0 <= m < sub.resource_links@.len(),
        sub.resource_links@[m].resource == key,
        forall|j: int| 0 <= j < sub.resource_links@.len() ==> (#[trigger] sub.resource_links@[j]).link == 0,
    ensures
        resolve_spec(chains, sub, key) is Some,
        resolve_spec(chains, sub, key)->Some_0.1 == 0,
{
    lemma_link_from_first(sub.resource_links@, key, 0, m);
    lemma_chain_from_found(chains, key, 0, k);
    lemma_chain_from_bounds(chains, key, 0);
}

/// Turning a builder into the scheduler's record and resolving it against a
/// schedule made from that record binds every declared buffer and image:
/// resolution succeeds, so it yields exactly one binding per declared
/// identifier, in declaration order, each at the first position of its chain.
pub proof fn lemma_round_trip<D>(
    b: NodeBuilder<D>,
    n: ChainNode,
    buffer_count: usize,
    image_count: usize,
    chains: Chains<BufferState, ImageState>,
    sub: Submission,
)
    requires
        b.declares_spec(),
        n.buffers@ == chain_buffers_spec(b.buffers@, b.buffer_states@),
        n.images@ == chain_images_spec(b.images@, b.image_states@, buffer_count),
        forall|i: int| 0 <= i < b.buffers@.len() ==> (#[trigger] b.buffers@[i]).0 < buffer_count,
        forall|i: int| 0 <= i < b.images@.len() ==> (#[trigger] b.images@[i]).0 < image_count,
        forall|i: int| 0 <= i < b.images@.len() ==> (#[trigger] b.images@[i]).0 + buffer_count <= usize::MAX,
        solo_schedule(n, chains, sub),
    ensures
        b.binds_spec(buffer_count as int, image_count as int, chains, sub),
        forall|i: int| 0 <= i < b.buffers@.len()
            ==> resolve_spec(chains.buffers@, sub, (#[trigger] b.buffers@[i]).0)->Some_0.1 == 0,
        forall|i: int| 0 <= i < b.images@.len()
            ==> resolve_spec(chains.images@, sub, ((#[trigger] b.images@[i]).0 + buffer_count) as usize)->Some_0.1 == 0,
{
    let nb = n.buffers@.len();
    let links = sub.resource_links@;
    assert forall|j: int| 0 <= j < links.len() implies (#[trigger] links[j]).link == 0 by {
        if j < nb {
            assert(links[j] == ResourceLink { resource: n.buffers@[j].0, link: 0 });
        } else {
            assert(links[j] == ResourceLink { resource: n.images@[j - nb].0, link: 0 });
        }
    }
    assert forall|i: int| 0 <= i < b.buffers@.len() implies {
        &&& resolve_spec(chains.buffers@, sub, (#[trigger] b.buffers@[i]).0) is Some
        &&& resolve_spec(chains.buffers@, sub, b.buffers@[i].0)->Some_0.1 == 0
    } by {
        let key = b.buffers@[i].0;
        assert(n.buffers@[i].0 == key);
        assert(links[i].resource == key);
        assert forall|c: int| 0 <= c < chains.buffers@.len() && (#[trigger] chains.buffers@[c]).id == key implies {
            &&& chains.buffers@[c].links@.len() == 1
            &&& chains.buffers@[c].links@[0].states@.len() == 1
            &&& chains.buffers@[c].links@[0].states@[0].submission == sub.id
        } by {
            assert(chains.buffers@[c].links@[0].states@ == seq![LinkState { submission: sub.id, state: n.buffers@[c].1 }]);
        }
        lemma_solo_resolves(chains.buffers@, sub, key, i, n.buffers@[i].1, i);
    }
    assert forall|i: int| 0 <= i < b.images@.len() implies {
        &&& resolve_spec(chains.images@, sub, ((#[trigger] b.images@[i]).0 + buffer_count) as usize) is Some
        &&& resolve_spec(chains.images@, sub, (b.images@[i].0 + buffer_count) as usize)->Some_0.1 == 0
    } by {
        let key = (b.images@[i].0 + buffer_count) as usize;
        assert(n.images@[i].0 == key);
        assert(links[nb + i].resource == key);
        assert forall|c: int| 0 <= c < chains.images@.len() && (#[trigger] chains.images@[c]).id == key implies {
            &&& chains.images@[c].links@.len() == 1
            &&& chains.images@[c].links@[0].states@.len() == 1
            &&& chains.images@[c].links@[0].states@[0].submission == sub.id
        } by {
            assert(chains.images@[c].links@[0].states@ == seq![LinkState { submission: sub.id, state: n.images@[c].1 }]);
        }
        lemma_solo_resolves(chains.images@, sub, key, i, n.images@[i].1, nb + i);
    }
}

/// An image is cleared on first use only: of two submissions at different
/// positions of the image's chain at most one receives a clear value, one at
/// a position other than 0 receives none, and the one at position 0 receives
/// the image's configured value.
pub proof fn lemma_clear_on_first_use<Img>(
    pool: Seq<(Img, Option<gfx_hal::command::ClearValue>)>,
    id: ImageId,
    chains: Seq<Chain<ImageState>>,
    key: usize,
    first: Submission,
    other: Submission,
)
    requires
        resolve_spec(chains, first, key) is Some,
        resolve_spec(chains, other, key) is Some,
        link_index_spec(first, key) != link_index_spec(other, key),
    ensures
        !(image_clear_spec(pool, resolve_spec(chains, first, key)->Some_0.1, id) is Some
            && image_clear_spec(pool, resolve_spec(chains, other, key)->Some_0.1, id) is Some),
        resolve_spec(chains, other, key)->Some_0.1 != 0
            ==> image_clear_spec(pool, resolve_spec(chains, other, key)->Some_0.1, id) is None,
        resolve_spec(chains, first, key)->Some_0.1 == 0
            ==> image_clear_spec(pool, resolve_spec(chains, first, key)->Some_0.1, id) == pool[id.0 as int].1,
{
}

} // verus!
