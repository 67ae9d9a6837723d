//! Startup configuration layer of a multi-camera, gesture-driven
//! device-control application: the calibration data model, the base
//! configuration with its defaulting rules, command-line override merging,
//! and a lazily built, publish-once spatial index over the device list.
//!
//! Real-valued attributes (world coordinates, matrix entries) are carried
//! as IEEE-754 binary64 bit patterns in `u64` fields: this layer stores and
//! routes them without computing on them, and the bit pattern is an exact
//! carrier. The I/O boundary converts them to and from machine floats.

mod camera;
mod config;
mod devices;
mod error;
mod index;

pub use config::BaseConfig;
pub use config::Config;
pub use config::ConfigOverrides;
pub use config::gesture_detection_addr;
pub use config::head_detection_addr;
pub use config::hpe_addr;
pub use config::lemma_merge_idempotent;
pub use config::lemma_merge_preserves_devices;
pub use config::picam_addr;
pub use config::pool_size;
pub use config::spec_gesture_detection_addr;
pub use config::spec_head_detection_addr;
pub use config::spec_hpe_addr;
pub use config::spec_merge;
pub use config::spec_picam_addr;

pub use camera::CameraProperties;
pub use camera::Mat3Bits;
pub use devices::Device;
pub use devices::duplicate_devices;
pub use error::ConfigError;
pub use error::SourceFault;
pub use error::SourceId;
pub use index::IndexBounds;
pub use index::LazyIndex;
pub use index::SpatialIndex;
pub use index::bits_le;
pub use index::lemma_bounds_enclose_leaves;
pub use index::lemma_fold_bounds;
pub use index::bits_max;
pub use index::bits_min;
pub use index::seq_bits_max;
pub use index::seq_bits_min;
pub use index::spec_bits_max;
pub use index::spec_bits_min;
pub use index::spec_enclosing_bounds;
pub use index::spec_total_order_key;
