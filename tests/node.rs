use framegraph::family::{select_family, supports, Capability, Family, QueueType};
use framegraph::node::{run_node, Node, NodeBuffer, NodeBuilder, NodeDesc, NodeError, NodeImage, QueueId};
use framegraph::resource::{buffer_key, image_key, BufferId, BufferState, ImageId, ImageState, NodeId};
use framegraph::schedule::{Chain, Chains, Link, LinkState, ResourceLink, Submission};
use gfx_hal::command::{ClearColor, ClearValue};
use gfx_hal::queue::QueueFamilyId;

const READ: BufferState = BufferState { access: 1, stages: 2 };
const WRITE: ImageState = ImageState { access: 4, layout: 3, stages: 8 };

/// What a test node was bound to.
#[derive(Debug)]
struct Bound {
    family: QueueFamilyId,
    buffers: Vec<(u32, BufferState)>,
    images: Vec<(u32, ImageState, bool)>,
}

#[derive(Debug)]
struct TestDesc {
    capability: Capability,
    buffers: Vec<BufferState>,
    images: Vec<ImageState>,
    fail: bool,
}

impl NodeDesc<(), ()> for TestDesc {
    type Buffer = u32;
    type Image = u32;
    type Node = Bound;

    fn capability(&self) -> Capability {
        self.capability
    }

    fn buffers(&self) -> Vec<BufferState> {
        self.buffers.clone()
    }

    fn images(&self) -> Vec<ImageState> {
        self.images.clone()
    }

    fn build<'a>(
        &self,
        _factory: &mut (),
        _aux: &mut (),
        family: QueueFamilyId,
        buffers: &[NodeBuffer<'a, u32>],
        images: &[NodeImage<'a, u32>],
    ) -> Result<Bound, failure::Error> {
        if self.fail {
            return Err(failure::err_msg("no memory"));
        }
        Ok(Bound {
            family,
            buffers: buffers.iter().map(|b| (*b.buffer, b.state)).collect(),
            images: images.iter().map(|i| (*i.image, i.state, i.clear.is_some())).collect(),
        })
    }
}

fn desc(capability: Capability, buffers: Vec<BufferState>, images: Vec<ImageState>) -> TestDesc {
    TestDesc { capability, buffers, images, fail: false }
}

fn families() -> Vec<Family> {
    vec![
        Family { id: QueueFamilyId(0), capability: QueueType::Transfer },
        Family { id: QueueFamilyId(1), capability: QueueType::Compute },
        Family { id: QueueFamilyId(2), capability: QueueType::General },
    ]
}

fn clear() -> ClearValue {
    ClearValue { color: ClearColor { float32: [0.0, 0.0, 0.0, 1.0] } }
}

fn chain_of<S: Copy>(id: usize, users: &[(usize, S)]) -> Chain<S> {
    Chain {
        id,
        links: users
            .iter()
            .map(|&(submission, state)| Link { states: vec![LinkState { submission, state }] })
            .collect(),
    }
}

fn submission(id: usize, links: &[(usize, usize)]) -> Submission {
    Submission {
        id,
        resource_links: links.iter().map(|&(resource, link)| ResourceLink { resource, link }).collect(),
    }
}

#[test]
fn family_is_first_supporting() {
    let f = families();
    assert_eq!(select_family(&f, Capability::Transfer), Some(QueueFamilyId(0)));
    assert_eq!(select_family(&f, Capability::Compute), Some(QueueFamilyId(1)));
    assert_eq!(select_family(&f, Capability::Execute), Some(QueueFamilyId(1)));
    assert_eq!(select_family(&f, Capability::Graphics), Some(QueueFamilyId(2)));
    assert_eq!(select_family(&f, Capability::General), Some(QueueFamilyId(2)));
    assert_eq!(select_family(&[], Capability::Transfer), None);
}

#[test]
fn supports_table() {
    assert!(supports(QueueType::Transfer, Capability::Transfer));
    assert!(!supports(QueueType::Transfer, Capability::Execute));
    assert!(supports(QueueType::Graphics, Capability::Execute));
    assert!(!supports(QueueType::Graphics, Capability::Compute));
    assert!(supports(QueueType::Graphics, Capability::Graphics));
    assert!(!supports(QueueType::Compute, Capability::General));
    assert!(supports(QueueType::General, Capability::General));
}

#[test]
fn unsupported_capability_is_unschedulable() {
    let f = vec![
        Family { id: QueueFamilyId(0), capability: QueueType::Transfer },
        Family { id: QueueFamilyId(1), capability: QueueType::Compute },
    ];
    let b = NodeBuilder::new(desc(Capability::Graphics, vec![READ], vec![])).with_buffer(BufferId(0));
    assert_eq!(b.family(&f), None);
    assert!(matches!(b.chain(0, &f, 1), Err(NodeError::Unschedulable)));
}

#[test]
fn keys_do_not_collide() {
    assert_eq!(buffer_key(BufferId(2)), 2);
    assert_eq!(image_key(ImageId(0), 3), 3);
    assert_eq!(image_key(ImageId(4), 3), 7);
    for b in 0..3usize {
        for i in 0..5usize {
            assert_ne!(buffer_key(BufferId(b)), image_key(ImageId(i), 3));
        }
    }
}

#[test]
fn builder_keeps_call_order() {
    let mut b = NodeBuilder::new(desc(Capability::Transfer, vec![], vec![]));
    b.add_buffer(BufferId(3)).add_buffer(BufferId(1)).add_image(ImageId(2)).add_dependency(NodeId(7));
    let b = b.with_image(ImageId(0)).with_dependency(NodeId(5)).with_buffer(BufferId(0));
    assert_eq!(b.buffers, vec![BufferId(3), BufferId(1), BufferId(0)]);
    assert_eq!(b.images, vec![ImageId(2), ImageId(0)]);
    assert_eq!(b.dependencies, vec![7, 5]);
}

#[test]
fn chain_record_offsets_image_keys() {
    let b = NodeBuilder::new(desc(Capability::Compute, vec![READ, READ], vec![WRITE]))
        .with_buffer(BufferId(1))
        .with_buffer(BufferId(0))
        .with_image(ImageId(2))
        .with_dependency(NodeId(4));
    let n = b.chain(9, &families(), 5).unwrap();
    assert_eq!(n.id, 9);
    assert_eq!(n.family, QueueFamilyId(1));
    assert_eq!(n.dependencies, vec![4]);
    assert_eq!(n.buffers, vec![(1, READ), (0, READ)]);
    assert_eq!(n.images, vec![(7, WRITE)]);
}

#[test]
fn chain_rejects_count_mismatch() {
    let b = NodeBuilder::new(desc(Capability::Compute, vec![READ], vec![])).with_buffer(BufferId(0)).with_buffer(BufferId(1));
    assert!(matches!(b.chain(0, &families(), 2), Err(NodeError::Desynchronized)));
}

#[test]
fn image_and_buffer_scenario() {
    // image declared before buffer; this node is first on the image's chain
    let b = NodeBuilder::new(desc(Capability::Graphics, vec![READ], vec![WRITE]))
        .with_image(ImageId(0))
        .with_buffer(BufferId(0));
    let buffers = vec![10u32];
    let images = vec![(20u32, Some(clear()))];
    let chains = Chains { buffers: vec![chain_of(0, &[(3, READ)])], images: vec![chain_of(1, &[(3, WRITE)])] };
    let sub = submission(3, &[(1, 0), (0, 0)]);
    let node = b.build(&mut (), &mut (), QueueFamilyId(2), &buffers, &images, &chains, &sub).unwrap();
    assert_eq!(node.family, QueueFamilyId(2));
    assert_eq!(node.images, vec![(20, WRITE, true)]);
    assert_eq!(node.buffers, vec![(10, READ)]);
}

#[test]
fn only_first_user_clears() {
    let read_image = ImageState { access: 1, layout: 5, stages: 8 };
    let images = vec![(20u32, Some(clear()))];
    let buffers: Vec<u32> = vec![];
    // submission 1 is second on the image's chain, submission 2 first
    let chains: Chains<BufferState, ImageState> = Chains { buffers: vec![], images: vec![chain_of(0, &[(2, WRITE), (1, read_image)])] };
    let first_declared = NodeBuilder::new(desc(Capability::Graphics, vec![], vec![read_image])).with_image(ImageId(0));
    let second_declared = NodeBuilder::new(desc(Capability::Graphics, vec![], vec![WRITE])).with_image(ImageId(0));
    let sub1 = submission(1, &[(0, 1)]);
    let sub2 = submission(2, &[(0, 0)]);
    let a = first_declared.resolve_images(&images, 0, &chains.images, &sub1).unwrap();
    let b = second_declared.resolve_images(&images, 0, &chains.images, &sub2).unwrap();
    assert!(a[0].clear.is_none());
    assert_eq!(a[0].state, read_image);
    assert!(b[0].clear.is_some());
    assert_eq!(b[0].state, WRITE);
}

#[test]
fn bindings_follow_declaration_order() {
    let s0 = BufferState { access: 1, stages: 1 };
    let s1 = BufferState { access: 2, stages: 1 };
    let s2 = BufferState { access: 3, stages: 1 };
    let b = NodeBuilder::new(desc(Capability::Transfer, vec![s2, s0, s1], vec![]))
        .with_buffer(BufferId(2))
        .with_buffer(BufferId(0))
        .with_buffer(BufferId(1));
    let pool = vec![100u32, 101, 102];
    let chains = vec![chain_of(0, &[(0, s0)]), chain_of(1, &[(0, s1)]), chain_of(2, &[(0, s2)])];
    let sub = submission(0, &[(0, 0), (1, 0), (2, 0)]);
    let v = b.resolve_buffers(&pool, &chains, &sub).unwrap();
    assert_eq!(v.len(), 3);
    assert_eq!((*v[0].buffer, v[0].state), (102, s2));
    assert_eq!((*v[1].buffer, v[1].state), (100, s0));
    assert_eq!((*v[2].buffer, v[2].state), (101, s1));
}

#[test]
fn round_trip_binds_every_declared_resource() {
    let b = NodeBuilder::new(desc(Capability::Compute, vec![READ, READ], vec![WRITE, WRITE]))
        .with_buffer(BufferId(1))
        .with_buffer(BufferId(0))
        .with_image(ImageId(1))
        .with_image(ImageId(0));
    let n = b.chain(0, &families(), 2).unwrap();
    let sid = 6;
    let chains = Chains {
        buffers: n.buffers.iter().map(|&(k, s)| chain_of(k, &[(sid, s)])).collect(),
        images: n.images.iter().map(|&(k, s)| chain_of(k, &[(sid, s)])).collect(),
    };
    let keys: Vec<(usize, usize)> = n.buffers.iter().map(|&(k, _)| (k, 0)).chain(n.images.iter().map(|&(k, _)| (k, 0))).collect();
    let sub = submission(sid, &keys);
    let buffers = vec![1u32, 2];
    let images = vec![(3u32, Some(clear())), (4u32, None)];
    let node = b.build(&mut (), &mut (), n.family, &buffers, &images, &chains, &sub).unwrap();
    assert_eq!(node.buffers, vec![(2, READ), (1, READ)]);
    assert_eq!(node.images, vec![(4, WRITE, false), (3, WRITE, true)]);
}

#[test]
fn missing_link_is_desynchronized() {
    let b = NodeBuilder::new(desc(Capability::Compute, vec![READ], vec![])).with_buffer(BufferId(0));
    let chains = Chains { buffers: vec![chain_of(0, &[(1, READ)])], images: vec![] };
    let buffers = vec![1u32];
    let images: Vec<(u32, Option<ClearValue>)> = vec![];
    // the submission is not on the buffer's chain
    let sub = submission(1, &[]);
    let r = b.build(&mut (), &mut (), QueueFamilyId(0), &buffers, &images, &chains, &sub);
    assert!(matches!(r, Err(NodeError::Desynchronized)));
    // link index past the end of the chain
    let b = NodeBuilder::new(desc(Capability::Compute, vec![READ], vec![])).with_buffer(BufferId(0));
    let sub = submission(1, &[(0, 4)]);
    let r = b.build(&mut (), &mut (), QueueFamilyId(0), &buffers, &images, &chains, &sub);
    assert!(matches!(r, Err(NodeError::Desynchronized)));
}

#[test]
fn build_rejects_count_mismatch() {
    let b = NodeBuilder::new(desc(Capability::Compute, vec![READ, READ], vec![])).with_buffer(BufferId(0));
    let chains = Chains { buffers: vec![chain_of(0, &[(1, READ)])], images: vec![] };
    let images: Vec<(u32, Option<ClearValue>)> = vec![];
    let r = b.build(&mut (), &mut (), QueueFamilyId(0), &[1u32], &images, &chains, &submission(1, &[(0, 0)]));
    assert!(matches!(r, Err(NodeError::Desynchronized)));
}

#[test]
fn build_error_is_passed_on() {
    let mut d = desc(Capability::Compute, vec![], vec![]);
    d.fail = true;
    let images: Vec<(u32, Option<ClearValue>)> = vec![];
    let chains: Chains<BufferState, ImageState> = Chains { buffers: vec![], images: vec![] };
    let r = NodeBuilder::new(d).build(&mut (), &mut (), QueueFamilyId(0), &[0u32; 0], &images, &chains, &submission(0, &[]));
    match r {
        Err(NodeError::Build(e)) => assert_eq!(e.to_string(), "no memory"),
        _ => panic!("expected a build error"),
    }
}

#[test]
fn empty_node_builds() {
    let chains: Chains<BufferState, ImageState> = Chains { buffers: vec![], images: vec![] };
    let images: Vec<(u32, Option<ClearValue>)> = vec![];
    let node = NodeBuilder::new(desc(Capability::Transfer, vec![], vec![]))
        .build(&mut (), &mut (), QueueFamilyId(0), &[0u32; 0], &images, &chains, &submission(0, &[]))
        .unwrap();
    assert!(node.buffers.is_empty() && node.images.is_empty());
}

struct Counter(u32);

impl Node<(), (), ()> for Counter {
    type Submit = u32;

    fn run(&mut self, _factory: &mut (), _aux: &mut (), _frames: &()) -> u32 {
        self.0 += 1;
        self.0
    }

    fn dispose(self, _factory: &mut (), _aux: &mut ()) {}
}

#[test]
fn run_keeps_waits_signals_and_fence() {
    let mut node = Counter(0);
    let queue = QueueId { family: QueueFamilyId(1), index: 2 };
    let s = run_node(&mut node, &mut (), &mut (), &(), queue, &[(5u8, 1u32), (6, 2)], &[7u8, 8, 9], Some(3u8));
    assert_eq!(s.submits, 1);
    assert_eq!(s.queue.family, QueueFamilyId(1));
    assert_eq!(s.queue.index, 2);
    assert_eq!(s.waits, vec![(5, 1), (6, 2)]);
    assert_eq!(s.signals, vec![7, 8, 9]);
    assert_eq!(s.fence, Some(3));
    node.dispose(&mut (), &mut ());
}
