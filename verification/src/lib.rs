//! Addressing and value typing for a vertex-centred graph model: keys that
//! resolve against containers, the uniform container surface built on them,
//! and the closed family of scalar kinds stored at the leaves.

pub mod atom;
pub mod graph;
pub mod scalar;
pub mod value;
