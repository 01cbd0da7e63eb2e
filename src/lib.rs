//! Tiled navigation-mesh management: tile grid arithmetic, tile build
//! requests and outcomes, the binary tile decoder, and the query pool whose
//! quiescence gates every mutation of the navigation structure.

pub mod grid;
pub mod tile;
pub mod building;
pub mod navmesh;
pub mod mesh;
pub mod handles;
pub mod query;
