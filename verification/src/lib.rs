//! A collaborative drawing service core: one shared raster canvas, a registry
//! of connected clients, and a hub that serializes stroke application,
//! snapshotting, broadcasting and periodic persistence.

pub mod color;
pub mod geom;
pub mod canvas;
pub mod registry;
pub mod hub;
