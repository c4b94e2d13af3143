//! What the graph's scheduler hands back: for each resource, the ordered chain
//! of its accesses ("links"), and for each submission, its position in the
//! chain of every resource it touches.
use vstd::prelude::*;

verus! {

/// The state a resource is in for one submission of a link.
#[derive(Clone, Copy)]
pub struct LinkState<S> {
    pub submission: usize,
    pub state: S,
}

/// One step of a resource's chain: the submissions that access the resource
/// there, each with the state it sees.
pub struct Link<S> {
    pub states: Vec<LinkState<S>>,
}

/// The ordered accesses of one resource, under its key.
pub struct Chain<S> {
    pub id: usize,
    pub links: Vec<Link<S>>,
}

/// Chains of all buffers and all images of the graph.
pub struct Chains<B, I> {
    pub buffers: Vec<Chain<B>>,
    pub images: Vec<Chain<I>>,
}

/// Position of a submission in the chain of one resource.
#[derive(Clone, Copy)]
pub struct ResourceLink {
    pub resource: usize,
    pub link: usize,
}

/// A submission of the schedule and its positions in the chains it touches.
pub struct Submission {
    pub id: usize,
    pub resource_links: Vec<ResourceLink>,
}

/// State the first entry of `states` from index `i` on gives submission `sid`.
pub open spec fn state_from<S>(states: Seq<LinkState<S>>, sid: usize, i: int) -> Option<S>
    decreases states.len() - i,
{
    if i < 0 || i >= states.len() {
        None
    } else if states[i].submission == sid {
        Some(states[i].state)
    } else {
        state_from(states, sid, i + 1)
    }
}

/// State a link gives submission `sid`.
pub open spec fn link_state_spec<S>(link: Link<S>, sid: usize) -> Option<S> {
    state_from(link.states@, sid, 0)
}

/// Index of the first chain from index `i` on whose key is `key`.
pub open spec fn chain_from<S>(chains: Seq<Chain<S>>, key: usize, i: int) -> Option<int>
    decreases chains.len() - i,
{
    if i < 0 || i >= chains.len() {
        None
    } else if chains[i].id == key {
        Some(i)
    } else {
        chain_from(chains, key, i + 1)
    }
}

/// Link index of the first entry of `links` from index `i` on for resource `key`.
pub open spec fn link_from(links: Seq<ResourceLink>, key: usize, i: int) -> Option<usize>
    decreases links.len() - i,
{
    if i < 0 || i >= links.len() {
        None
    } else if links[i].resource == key {
        Some(links[i].link)
    } else {
        link_from(links, key, i + 1)
    }
}

/// Position of submission `sub` in the chain of resource `key`.
pub open spec fn link_index_spec(sub: Submission, key: usize) -> Option<usize> {
    link_from(sub.resource_links@, key, 0)
}

/// State of resource `key` for submission `sub`, with the submission's link
/// index in that resource's chain; `None` when the schedule does not place
/// the submission on that chain.
pub open spec fn resolve_spec<S>(chains: Seq<Chain<S>>, sub: Submission, key: usize) -> Option<(S, usize)> {
    match (link_index_spec(sub, key), chain_from(chains, key, 0)) {
        (Some(li), Some(ci)) => if li < chains[ci].links@.len() {
            match link_state_spec(chains[ci].links@[li as int], sub.id) {
                Some(s) => Some((s, li)),
                None => None,
            }
        } else {
            None
        },
        _ => None,
    }
}

impl<S: Copy> Link<S> {
    /// State this link gives submission `sid`, if the submission is on it.
    pub fn submission_state(&self, sid: usize) -> (r: Option<S>)
        ensures
            r == link_state_spec(*self, sid),
    {
        let mut i: usize = 0;
        while i < self.states.len()
            invariant
                i <= self.states@.len(),
                state_from(self.states@, sid, 0) == state_from(self.states@, sid, i as int),
            decreases self.states@.len() - i,
        {
            if self.states[i].submission == sid {
                return Some(self.states[i].state);
            }
            i = i + 1;
        }
        None
    }
}

impl Submission {
    /// Position of this submission in the chain of resource `key`.
    pub fn resource_link_index(&self, key: usize) -> (r: Option<usize>)
        ensures
            r == link_index_spec(*self, key),
    {
        let mut i: usize = 0;
        while i < self.resource_links.len()
            invariant
                i <= self.resource_links@.len(),
                link_from(self.resource_links@, key, 0) == link_from(self.resource_links@, key, i as int),
            decreases self.resource_links@.len() - i,
        {
            if self.resource_links[i].resource == key {
                return Some(self.resource_links[i].link);
            }
            i = i + 1;
        }
        None
    }
}

/// Index in `chains` of the chain of resource `key`.
pub fn find_chain<S>(chains: &Vec<Chain<S>>, key: usize) -> (r: Option<usize>)
    ensures
        match r {
            Some(i) => chain_from(chains@, key, 0) == Some(i as int),
            None => chain_from(chains@, key, 0) is None,
        },
{
    let mut i: usize = 0;
    while i < chains.len()
        invariant
            i <= chains@.len(),
            chain_from(chains@, key, 0) == chain_from(chains@, key, i as int),
        decreases chains@.len() - i,
    {
        if chains[i].id == key {
            return Some(i);
        }
        i = i + 1;
    }
    None
}

/// State of resource `key` for submission `sub`, and the submission's link
/// index in the resource's chain.
pub fn resolve<S: Copy>(chains: &Vec<Chain<S>>, sub: &Submission, key: usize) -> (r: Option<(S, usize)>)
    ensures
        r == resolve_spec(chains@, *sub, key),
{
    let li = match sub.resource_link_index(key) {
        Some(li) => li,
        None => return None,
    };
    let ci = match find_chain(chains, key) {
        Some(ci) => ci,
        None => return None,
    };
    proof {
        lemma_chain_from_bounds(chains@, key, 0);
    }
    if li >= chains[ci].links.len() {
        return None;
    }
    match chains[ci].links[li].submission_state(sub.id) {
        Some(s) => Some((s, li)),
        None => None,
    }
}

/// A chain index found from `i` on is in bounds and holds key `key`.
pub proof fn lemma_chain_from_bounds<S>(chains: Seq<Chain<S>>, key: usize, i: int)
    ensures
        match chain_from(chains, key, i) {
            Some(k) => 0 <= k < chains.len() && chains[k].id == key,
            None => true,
        },
    decreases chains.len() - i,
{
    if 0 <= i < chains.len() && chains[i].id != key {
        lemma_chain_from_bounds(chains, key, i + 1);
    }
}

/// A chain with key `key` at or after index `i` is found.
pub proof fn lemma_chain_from_found<S>(chains: Seq<Chain<S>>, key: usize, i: int, k: int)
    requires
        0 <= i <= k < chains.len(),
        chains[k].id == key,
    ensures
        chain_from(chains, key, i) is Some,
    decreases k - i,
{
    if chains[i].id != key {
        lemma_chain_from_found(chains, key, i + 1, k);
    }
}

/// Where every entry is at link 0, an entry for `key` at or after index `i`
/// gives link index 0.
pub proof fn lemma_link_from_first(links: Seq<ResourceLink>, key: usize, i: int, k: int)
    requires
        0 <= i <= k < links.len(),
        links[k].resource == key,
        forall|j: int| 0 <= j < links.len() ==> (#[trigger] links[j]).link == 0,
    ensures
        link_from(links, key, i) == Some(0usize),
    decreases k - i,
{
    if links[i].resource != key {
        lemma_link_from_first(links, key, i + 1, k);
    }
}

} // verus!
