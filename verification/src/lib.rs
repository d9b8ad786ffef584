//! Live migration of virtio-net devices: component snapshots, the device model and the
//! decisions of its event loops.

pub mod activate;
pub mod announce;
pub mod component;
pub mod config;
pub mod ctrl;
pub mod device;
pub mod error;
pub mod events;
pub mod external;
pub mod features;
pub mod handler;
pub mod handler_laws;
pub mod laws;
pub mod message;
pub mod names;
pub mod net;
pub mod protocol;
pub mod run;
pub mod snapshot;
pub mod snapshot_laws;
pub mod snapshot_map;
pub mod taps;
