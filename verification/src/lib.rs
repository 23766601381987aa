//! Verified core of a small globe demo: exact geographic placement of event
//! markers on a unit sphere, marker sizing from magnitude, the globe's
//! rotation model, and a configuration-driven scene builder.

pub mod placement;
pub mod rotation;
pub mod scene;
