//! Frame and stack memory management: the root-registration stack the foreign
//! collector walks, the frames that window into it, and the ghost model that
//! the frame contracts are stated over.

pub mod frame;
pub mod laws;
pub mod model;
pub mod stack;
