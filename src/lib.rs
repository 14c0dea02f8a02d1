//! Finalized chain state, sufficient to check the authenticity of the blocks that descend from
//! the finalized block, and the coherence checks that a state must pass before it is trusted.

pub mod chain_information;
pub mod header;
pub mod model;
