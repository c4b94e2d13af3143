//! Node and resource-binding layer of a GPU frame graph.
//!
//! Nodes declare the buffers and images they touch; once a schedule of
//! accesses has been computed for the whole graph, a builder resolves the
//! state each node sees for each resource and hands the bindings to the
//! node's description to build the runnable node.
pub mod outside;
pub mod family;
pub mod laws;
pub mod node;
pub mod resource;
pub mod schedule;
