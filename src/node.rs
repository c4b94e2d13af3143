//! Nodes, their descriptions, and the builder that binds resources to a node.
use vstd::prelude::*;
use crate::family::{family_spec, select_family, Capability, Family};
use crate::resource::{BufferId, BufferState, ImageId, ImageState, NodeId};
use crate::schedule::{resolve, resolve_spec, Chain, Chains, Submission};

verus! {

/// Barrier a node records between two states of its resources; resources are
/// named by their index among the node's bindings, access flags and stages by
/// their bits.
#[derive(Clone, Copy, Debug, PartialEq, Eq, Structural)]
pub enum Barrier {
    /// Moves every buffer from access `start` to access `end`.
    AllBuffers { start: u32, end: u32 },
    /// Moves every image from access `start` to access `end`.
    AllImages { start: u32, end: u32 },
    /// Moves one buffer from one state to another.
    Buffer { buffer_from: BufferState, buffer_to: BufferState, target: usize },
    /// Moves a range of one image from one state to another.
    Image {
        image_from: ImageState,
        image_to: ImageState,
        target: usize,
        /// Bits of the aspects the barrier covers.
        aspects: u32,
        first_level: u32,
        level_count: u32,
        first_layer: u32,
        layer_count: u32,
    },
}

/// A buffer of the graph bound to a node, with the state the node sees it in.
pub struct NodeBuffer<'a, Buf> {
    pub buffer: &'a Buf,
    pub state: BufferState,
}

/// An image of the graph bound to a node, with the state the node sees it in
/// and, for the image's first user, the value to clear it to.
pub struct NodeImage<'a, Img> {
    pub image: &'a Img,
    pub state: ImageState,
    pub clear: Option<gfx_hal::command::ClearValue>,
}

/// Why a node could not be placed in the graph or built.
#[derive(Debug)]
pub enum NodeError {
    /// No queue family supports the capability the node requires.
    Unschedulable,
    /// The resources given to the builder do not match those its description
    /// declares, or the schedule does not place the node on a resource's chain.
    Desynchronized,
    /// The description failed to build its node.
    Build(failure::Error),
}

/// A node at run time: records the GPU work of one frame, and is disposed of
/// once the device no longer uses its resources.
pub trait Node<F, A, Fr>: Sized {
    /// What one frame's recording hands back for submission.
    type Submit;

    /// Records the node's work for one frame; neither blocks nor submits.
    fn run(&mut self, factory: &mut F, aux: &mut A, frames: &Fr) -> Self::Submit;

    /// Releases what the node owns. Call only once the device is idle with
    /// respect to the node's resources.
    fn dispose(self, factory: &mut F, aux: &mut A);
}

/// A queue: its family and its index within the family.
#[derive(Clone, Copy)]
pub struct QueueId {
    pub family: gfx_hal::queue::QueueFamilyId,
    pub index: usize,
}

/// Everything one submission of a node hands to a queue: the recorded work,
/// the semaphores to wait on (each with the stage the wait applies at), the
/// semaphores to signal, and the fence to signal on completion.
pub struct QueueSubmission<C, W, Sg, Fe> {
    pub queue: QueueId,
    pub submits: C,
    pub waits: Vec<W>,
    pub signals: Vec<Sg>,
    pub fence: Option<Fe>,
}

/// Copy of the items of `s`, in order.
fn copy_all<T: Copy>(s: &[T]) -> (r: Vec<T>)
    ensures
        r@ == s@,
{
    let mut v: Vec<T> = Vec::new();
    let mut i: usize = 0;
    while i < s.len()
        invariant
            i <= s@.len(),
            v@ == s@.take(i as int),
        decreases s@.len() - i,
    {
        v.push(s[i]);
        i = i + 1;
        assert(v@ =~= s@.take(i as int));
    }
    assert(s@.take(i as int) =~= s@);
    v
}

/// Records one frame of `node` and assembles its submission to `queue`,
/// with exactly the waits, signals and fence the schedule computed.
pub fn run_node<N, F, A, Fr, W: Copy, Sg: Copy, Fe>(
    node: &mut N,
    factory: &mut F,
    aux: &mut A,
    frames: &Fr,
    queue: QueueId,
    waits: &[W],
    signals: &[Sg],
    fence: Option<Fe>,
) -> (r: QueueSubmission<N::Submit, W, Sg, Fe>)
    where
        N: Node<F, A, Fr>,
    ensures
        r.queue == queue,
        r.waits@ == waits@,
        r.signals@ == signals@,
        r.fence == fence,
{
    let submits = node.run(factory, aux, frames);
    QueueSubmission { queue, submits, waits: copy_all(waits), signals: copy_all(signals), fence }
}

/// Description of a node: what it requires of the graph, and how to build it.
pub trait NodeDesc<F, A>: Sized {
    /// Buffer type of the graph's resource pool.
    type Buffer;
    /// Image type of the graph's resource pool.
    type Image;
    /// The node this description builds.
    type Node;

    /// Capability the node requires of its queue.
    fn capability(&self) -> Capability;

    /// States of the buffers the node uses, in the order it takes them.
    fn buffers(&self) -> Vec<BufferState>;

    /// States of the images the node uses, in the order it takes them.
    fn images(&self) -> Vec<ImageState>;

    /// Builds the node for queue family `family`, with one binding per
    /// declared buffer and image, in the declared order.
    fn build<'a>(
        &self,
        factory: &mut F,
        aux: &mut A,
        family: gfx_hal::queue::QueueFamilyId,
        buffers: &[NodeBuffer<'a, Self::Buffer>],
        images: &[NodeImage<'a, Self::Image>],
    ) -> Result<Self::Node, failure::Error>;
}

/// The record of a node that the scheduler works on: its queue family, the
/// nodes it depends on, and the key and state of each resource it uses.
pub struct ChainNode {
    pub id: usize,
    pub family: gfx_hal::queue::QueueFamilyId,
    pub dependencies: Vec<usize>,
    pub buffers: Vec<(usize, BufferState)>,
    pub images: Vec<(usize, ImageState)>,
}

/// Collects the resources and dependencies of a node before the graph is
/// scheduled, beside what its description declares.
pub struct NodeBuilder<D> {
    pub desc: D,
    /// Capability the description requires.
    pub capability: Capability,
    /// Buffer states the description declares, in the order it takes them.
    pub buffer_states: Vec<BufferState>,
    /// Image states the description declares, in the order it takes them.
    pub image_states: Vec<ImageState>,
    /// Buffers the node uses, in the order of `buffer_states`.
    pub buffers: Vec<BufferId>,
    /// Images the node uses, in the order of `image_states`.
    pub images: Vec<ImageId>,
    /// Indices of the nodes this node runs after.
    pub dependencies: Vec<usize>,
}

/// Buffer keys paired with declared states, position by position.
pub open spec fn chain_buffers_spec(ids: Seq<BufferId>, states: Seq<BufferState>) -> Seq<(usize, BufferState)> {
    Seq::new(ids.len(), |i: int| (ids[i].0, states[i]))
}

/// Image keys, offset by the graph's buffer count, paired with declared states.
pub open spec fn chain_images_spec(ids: Seq<ImageId>, states: Seq<ImageState>, buffer_count: usize) -> Seq<(usize, ImageState)> {
    Seq::new(ids.len(), |i: int| ((ids[i].0 + buffer_count) as usize, states[i]))
}

/// Whether buffer `id` is in a pool of `pool_len` buffers and the schedule
/// places submission `sub` on its chain.
pub open spec fn buffer_resolves(pool_len: int, chains: Seq<Chain<BufferState>>, sub: Submission, id: BufferId) -> bool {
    &&& id.0 < pool_len
    &&& resolve_spec(chains, sub, id.0) is Some
}

/// Whether image `id` is in a pool of `pool_len` images and the schedule
/// places submission `sub` on its chain, under its key after `buffer_count` buffers.
pub open spec fn image_resolves(pool_len: int, buffer_count: int, chains: Seq<Chain<ImageState>>, sub: Submission, id: ImageId) -> bool {
    &&& id.0 < pool_len
    &&& id.0 + buffer_count <= usize::MAX
    &&& resolve_spec(chains, sub, (id.0 + buffer_count) as usize) is Some
}

/// Clear value a node at position `link` of an image's chain receives: the
/// image's configured one at position 0, none after.
pub open spec fn image_clear_spec<Img>(pool: Seq<(Img, Option<gfx_hal::command::ClearValue>)>, link: usize, id: ImageId) -> Option<gfx_hal::command::ClearValue> {
    if link == 0 {
        pool[id.0 as int].1
    } else {
        None
    }
}

impl<D> NodeBuilder<D> {
    /// A builder for `desc` with no resources and no dependencies yet; it
    /// takes the capability and the states that `desc` declares.
    pub fn new<F, A>(desc: D) -> (r: Self)
        where
            D: NodeDesc<F, A>,
        ensures
            r.desc == desc,
            r.buffers@.len() == 0,
            r.images@.len() == 0,
            r.dependencies@.len() == 0,
    {
        let capability = desc.capability();
        let buffer_states = desc.buffers();
        let image_states = desc.images();
        NodeBuilder {
            desc,
            capability,
            buffer_states,
            image_states,
            buffers: Vec::new(),
            images: Vec::new(),
            dependencies: Vec::new(),
        }
    }

    /// Appends a buffer; call once for each buffer the node declares, in order.
    pub fn add_buffer(&mut self, buffer: BufferId) -> (r: &mut Self)
        ensures
            r.desc == old(self).desc,
            r.capability == old(self).capability,
            r.buffer_states@ == old(self).buffer_states@,
            r.image_states@ == old(self).image_states@,
            r.buffers@ == old(self).buffers@.push(buffer),
            r.images@ == old(self).images@,
            r.dependencies@ == old(self).dependencies@,
            *final(self) == *final(r),
    {
        self.buffers.push(buffer);
        self
    }

    /// Appends an image; call once for each image the node declares, in order.
    pub fn add_image(&mut self, image: ImageId) -> (r: &mut Self)
        ensures
            r.desc == old(self).desc,
            r.capability == old(self).capability,
            r.buffer_states@ == old(self).buffer_states@,
            r.image_states@ == old(self).image_states@,
            r.buffers@ == old(self).buffers@,
            r.images@ == old(self).images@.push(image),
            r.dependencies@ == old(self).dependencies@,
            *final(self) == *final(r),
    {
        self.images.push(image);
        self
    }

    /// Makes the node run after node `dependency`.
    pub fn add_dependency(&mut self, dependency: NodeId) -> (r: &mut Self)
        ensures
            r.desc == old(self).desc,
            r.capability == old(self).capability,
            r.buffer_states@ == old(self).buffer_states@,
            r.image_states@ == old(self).image_states@,
            r.buffers@ == old(self).buffers@,
            r.images@ == old(self).images@,
            r.dependencies@ == old(self).dependencies@.push(dependency.0),
            *final(self) == *final(r),
    {
        self.dependencies.push(dependency.0);
        self
    }

    /// This builder with `buffer` appended.
    pub fn with_buffer(self, buffer: BufferId) -> (r: Self)
        ensures
            r.desc == self.desc,
            r.capability == self.capability,
            r.buffer_states@ == self.buffer_states@,
            r.image_states@ == self.image_states@,
            r.buffers@ == self.buffers@.push(buffer),
            r.images@ == self.images@,
            r.dependencies@ == self.dependencies@,
    {
        let mut b = self;
        b.add_buffer(buffer);
        b
    }

    /// This builder with `image` appended.
    pub fn with_image(self, image: ImageId) -> (r: Self)
        ensures
            r.desc == self.desc,
            r.capability == self.capability,
            r.buffer_states@ == self.buffer_states@,
            r.image_states@ == self.image_states@,
            r.buffers@ == self.buffers@,
            r.images@ == self.images@.push(image),
            r.dependencies@ == self.dependencies@,
    {
        let mut b = self;
        b.add_image(image);
        b
    }

    /// This builder with a dependency on node `dependency` appended.
    pub fn with_dependency(self, dependency: NodeId) -> (r: Self)
        ensures
            r.desc == self.desc,
            r.capability == self.capability,
            r.buffer_states@ == self.buffer_states@,
            r.image_states@ == self.image_states@,
            r.buffers@ == self.buffers@,
            r.images@ == self.images@,
            r.dependencies@ == self.dependencies@.push(dependency.0),
    {
        let mut b = self;
        b.add_dependency(dependency);
        b
    }

    /// Queue family for the node: the first of `families` whose queues
    /// support the capability the description requires.
    pub fn family(&self, families: &[Family]) -> (r: Option<gfx_hal::queue::QueueFamilyId>)
        ensures
            r == family_spec(families@, self.capability),
    {
        select_family(families, self.capability)
    }

    /// The record the scheduler works on for node `id` of a graph with
    /// `buffer_count` buffers: buffers keyed by their identifier, images by
    /// their identifier plus `buffer_count`, each paired with the state the
    /// description declares at the same position.
    pub fn chain(&self, id: usize, families: &[Family], buffer_count: usize) -> (r: Result<ChainNode, NodeError>)
        requires
            forall|i: int| 0 <= i < self.images@.len() ==> #[trigger] self.images@[i].0 + buffer_count <= usize::MAX,
        ensures
            family_spec(families@, self.capability) is None
                ==> r matches Err(NodeError::Unschedulable),
            family_spec(families@, self.capability) is Some
                && !self.declares_spec() ==> r matches Err(NodeError::Desynchronized),
            family_spec(families@, self.capability) is Some
                && self.declares_spec() ==> r is Ok,
            r matches Ok(n) ==> {
                &&& n.id == id
                &&& Some(n.family) == family_spec(families@, self.capability)
                &&& n.dependencies@ == self.dependencies@
                &&& n.buffers@ == chain_buffers_spec(self.buffers@, self.buffer_states@)
                &&& n.images@ == chain_images_spec(self.images@, self.image_states@, buffer_count)
            },
    {
        let family = match self.family(families) {
            Some(f) => f,
            None => return Err(NodeError::Unschedulable),
        };
        let buffer_states = &self.buffer_states;
        let image_states = &self.image_states;
        if buffer_states.len() != self.buffers.len() || image_states.len() != self.images.len() {
            return Err(NodeError::Desynchronized);
        }
        let mut buffers: Vec<(usize, BufferState)> = Vec::new();
        let mut i: usize = 0;
        while i < self.buffers.len()
            invariant
                i <= self.buffers@.len(),
                buffer_states@.len() == self.buffers@.len(),
                buffers@ =~= chain_buffers_spec(self.buffers@.take(i as int), buffer_states@.take(i as int)),
            decreases self.buffers@.len() - i,
        {
            buffers.push((self.buffers[i].0, buffer_states[i]));
            i = i + 1;
            assert(buffers@ =~= chain_buffers_spec(self.buffers@.take(i as int), buffer_states@.take(i as int)));
        }
        assert(self.buffers@.take(i as int) =~= self.buffers@);
        assert(buffer_states@.take(i as int) =~= buffer_states@);
        let mut images: Vec<(usize, ImageState)> = Vec::new();
        let mut j: usize = 0;
        while j < self.images.len()
            invariant
                j <= self.images@.len(),
                image_states@.len() == self.images@.len(),
                forall|k: int| 0 <= k < self.images@.len() ==> #[trigger] self.images@[k].0 + buffer_count <= usize::MAX,
                images@ =~= chain_images_spec(self.images@.take(j as int), image_states@.take(j as int), buffer_count),
            decreases self.images@.len() - j,
        {
            assert(self.images@[j as int].0 + buffer_count <= usize::MAX);
            images.push((self.images[j].0 + buffer_count, image_states[j]));
            j = j + 1;
            assert(images@ =~= chain_images_spec(self.images@.take(j as int), image_states@.take(j as int), buffer_count));
        }
        assert(self.images@.take(j as int) =~= self.images@);
        assert(image_states@.take(j as int) =~= image_states@);
        Ok(ChainNode { id, family, dependencies: self.dependencies.clone(), buffers, images })
    }

    /// Whether the builder holds as many buffers and images as the description declares.
    pub open spec fn declares_spec(&self) -> bool {
        &&& self.buffers@.len() == self.buffer_states@.len()
        &&& self.images@.len() == self.image_states@.len()
    }

    /// Bindings of the node's buffers, in declaration order: buffer `id` of
    /// `pool` with the state the schedule gives submission `sub` on its chain.
    pub fn resolve_buffers<'a, Buf>(&self, pool: &'a [Buf], chains: &Vec<Chain<BufferState>>, sub: &Submission) -> (r: Result<Vec<NodeBuffer<'a, Buf>>, NodeError>)
        ensures
            r is Ok <==> forall|i: int| 0 <= i < self.buffers@.len()
                ==> buffer_resolves(pool@.len() as int, chains@, *sub, #[trigger] self.buffers@[i]),
            r is Err ==> r matches Err(NodeError::Desynchronized),
            r matches Ok(v) ==> {
                &&& v@.len() == self.buffers@.len()
                &&& forall|i: int| 0 <= i < v@.len() ==> {
                    &&& *(#[trigger] v@[i]).buffer == pool@[self.buffers@[i].0 as int]
                    &&& v@[i].state == resolve_spec(chains@, *sub, self.buffers@[i].0)->Some_0.0
                }
            },
    {
        let mut v: Vec<NodeBuffer<'a, Buf>> = Vec::new();
        let mut i: usize = 0;
        while i < self.buffers.len()
            invariant
                i <= self.buffers@.len(),
                v@.len() == i,
                forall|k: int| 0 <= k < i ==> buffer_resolves(pool@.len() as int, chains@, *sub, #[trigger] self.buffers@[k]),
                forall|k: int| 0 <= k < i ==> {
                    &&& *(#[trigger] v@[k]).buffer == pool@[self.buffers@[k].0 as int]
                    &&& v@[k].state == resolve_spec(chains@, *sub, self.buffers@[k].0)->Some_0.0
                },
            decreases self.buffers@.len() - i,
        {
            let index = self.buffers[i].0;
            if index >= pool.len() {
                return Err(NodeError::Desynchronized);
            }
            let state = match resolve(chains, sub, index) {
                Some((state, _link)) => state,
                None => return Err(NodeError::Desynchronized),
            };
            v.push(NodeBuffer { buffer: &pool[index], state });
            i = i + 1;
        }
        Ok(v)
    }

    /// Bindings of the node's images, in declaration order: image `id` of
    /// `pool`, keyed after the graph's `buffer_count` buffers, with the state
    /// the schedule gives submission `sub`, and the image's clear value only
    /// where `sub` is first on the image's chain.
    pub fn resolve_images<'a, Img>(
        &self,
        pool: &'a [(Img, Option<gfx_hal::command::ClearValue>)],
        buffer_count: usize,
        chains: &Vec<Chain<ImageState>>,
        sub: &Submission,
    ) -> (r: Result<Vec<NodeImage<'a, Img>>, NodeError>)
        ensures
            r is Ok <==> forall|i: int| 0 <= i < self.images@.len()
                ==> image_resolves(pool@.len() as int, buffer_count as int, chains@, *sub, #[trigger] self.images@[i]),
            r is Err ==> r matches Err(NodeError::Desynchronized),
            r matches Ok(v) ==> {
                &&& v@.len() == self.images@.len()
                &&& forall|i: int| 0 <= i < v@.len() ==> {
                    let id = self.images@[i];
                    let res = resolve_spec(chains@, *sub, (id.0 + buffer_count) as usize)->Some_0;
                    &&& *(#[trigger] v@[i]).image == pool@[id.0 as int].0
                    &&& v@[i].state == res.0
                    &&& v@[i].clear == image_clear_spec(pool@, res.1, id)
                }
            },
    {
        let mut v: Vec<NodeImage<'a, Img>> = Vec::new();
        let mut i: usize = 0;
        while i < self.images.len()
            invariant
                i <= self.images@.len(),
                v@.len() == i,
                forall|k: int| 0 <= k < i ==> image_resolves(pool@.len() as int, buffer_count as int, chains@, *sub, #[trigger] self.images@[k]),
                forall|k: int| 0 <= k < i ==> {
                    let id = self.images@[k];
                    let res = resolve_spec(chains@, *sub, (id.0 + buffer_count) as usize)->Some_0;
                    &&& *(#[trigger] v@[k]).image == pool@[id.0 as int].0
                    &&& v@[k].state == res.0
                    &&& v@[k].clear == image_clear_spec(pool@, res.1, id)
                },
            decreases self.images@.len() - i,
        {
            let index = self.images[i].0;
            if index >= pool.len() || index > usize::MAX - buffer_count {
                return Err(NodeError::Desynchronized);
            }
            let (state, link) = match resolve(chains, sub, index + buffer_count) {
                Some(found) => found,
                None => return Err(NodeError::Desynchronized),
            };
            let clear = if link == 0 {
                pool[index].1
            } else {
                None
            };
            v.push(NodeImage { image: &pool[index].0, state, clear });
            i = i + 1;
        }
        Ok(v)
    }

    /// Builds the runnable node: checks that the builder holds the resources
    /// the description declares, binds each to the state the schedule gives
    /// submission `sub` (images keyed after the `buffers.len()` buffers of the
    /// graph, cleared only by their first user), and hands the bindings to the
    /// description.
    pub fn build<'a, F, A>(
        self,
        factory: &mut F,
        aux: &mut A,
        family: gfx_hal::queue::QueueFamilyId,
        buffers: &'a [D::Buffer],
        images: &'a [(D::Image, Option<gfx_hal::command::ClearValue>)],
        chains: &Chains<BufferState, ImageState>,
        sub: &Submission,
    ) -> (r: Result<D::Node, NodeError>)
        where
            D: NodeDesc<F, A>,
        ensures
            !self.declares_spec() ==> r matches Err(NodeError::Desynchronized),
            !self.binds_spec(buffers@.len() as int, images@.len() as int, *chains, *sub)
                ==> r matches Err(NodeError::Desynchronized),
            self.declares_spec() && self.binds_spec(buffers@.len() as int, images@.len() as int, *chains, *sub)
                ==> (r is Ok || r matches Err(NodeError::Build(_))),
    {
        if self.buffer_states.len() != self.buffers.len() || self.image_states.len() != self.images.len() {
            return Err(NodeError::Desynchronized);
        }
        let node_buffers = match self.resolve_buffers(buffers, &chains.buffers, sub) {
            Ok(v) => v,
            Err(e) => return Err(e),
        };
        let node_images = match self.resolve_images(images, buffers.len(), &chains.images, sub) {
            Ok(v) => v,
            Err(e) => return Err(e),
        };
        match self.desc.build(factory, aux, family, node_buffers.as_slice(), node_images.as_slice()) {
            Ok(node) => Ok(node),
            Err(e) => Err(NodeError::Build(e)),
        }
    }

    /// Whether every declared buffer and image is in its pool and the
    /// schedule places submission `sub` on its chain.
    pub open spec fn binds_spec(&self, buffer_count: int, image_count: int, chains: Chains<BufferState, ImageState>, sub: Submission) -> bool {
        &&& forall|i: int| 0 <= i < self.buffers@.len()
            ==> buffer_resolves(buffer_count, chains.buffers@, sub, #[trigger] self.buffers@[i])
        &&& forall|i: int| 0 <= i < self.images@.len()
            ==> image_resolves(image_count, buffer_count, chains.images@, sub, #[trigger] self.images@[i])
    }
}

} // verus!
