use vstd::prelude::*;

use crate::camera::CameraProperties;
use crate::devices::Device;
use crate::devices::duplicate_devices;
use crate::error::ConfigError;
use crate::error::SourceFault;
use crate::error::SourceId;
use crate::index::LazyIndex;
use crate::index::SpatialIndex;

verus! {

// ---------------------------------------------------------------------------
// Documented defaults for the fields a base source may omit.
// ---------------------------------------------------------------------------

/// The default pose-estimation endpoint path.
pub open spec fn spec_hpe_addr() -> Seq<char> {
    "/tmp/hpe.sock"@
}

/// The default head-detection endpoint path.
pub open spec fn spec_head_detection_addr() -> Seq<char> {
    "/tmp/head.sock"@
}

/// The default gesture-detection endpoint path.
pub open spec fn spec_gesture_detection_addr() -> Seq<char> {
    "/tmp/gesture.sock"@
}

/// The default camera-capture endpoint path.
pub open spec fn spec_picam_addr() -> Seq<char> {
    "/tmp/picam.sock"@
}

/// The well-known local pose-estimation endpoint, used when the base
/// source omits `hpe_addr`.
pub fn hpe_addr() -> (r: String)
    ensures
        r@ == spec_hpe_addr(),
{
    "/tmp/hpe.sock".to_owned()
}

/// The well-known local head-detection endpoint, used when the base
/// source omits `head_detection_addr`.
pub fn head_detection_addr() -> (r: String)
    ensures
        r@ == spec_head_detection_addr(),
{
    "/tmp/head.sock".to_owned()
}

/// The well-known local gesture-detection endpoint, used when the base
/// source omits `gesture_detection_addr`.
pub fn gesture_detection_addr() -> (r: String)
    ensures
        r@ == spec_gesture_detection_addr(),
{
    "/tmp/gesture.sock".to_owned()
}

/// The well-known local camera-capture endpoint, used when the base
/// source omits `picam_addr`.
pub fn picam_addr() -> (r: String)
    ensures
        r@ == spec_picam_addr(),
{
    "/tmp/picam.sock".to_owned()
}

/// The worker-pool width used when the base source omits `pool_size`.
pub fn pool_size() -> (r: usize)
    ensures
        r == 3,
{
    3
}

// ---------------------------------------------------------------------------
// The base configuration.
// ---------------------------------------------------------------------------

/// Service addresses, worker-pool size, the primary camera position and the
/// device list, as one base source provides them. Read-only for consumers
/// once the overrides have been applied.
#[derive(Debug)]
pub struct BaseConfig {
    /// World position of the primary camera, one bit pattern per axis;
    /// required in the source, no default.
    pub camera1_pos: (u64, u64, u64),
    /// The device list, insertion order preserved; required in the source,
    /// no default.
    pub devices: Vec<Device>,
    pub hpe_addr: String,
    pub head_detection_addr: String,
    pub gesture_detection_addr: String,
    pub picam_addr: String,
    pub pool_size: usize,
}

impl BaseConfig {
    /// Builds the base configuration from the fields of one parsed base
    /// source, substituting the documented default for every optional field
    /// the source omitted. `camera1_pos` and `devices` have no default: a
    /// source without them never reaches this constructor, its absence is a
    /// parse failure at the boundary.
    pub fn from_source(
        camera1_pos: (u64, u64, u64),
        devices: Vec<Device>,
        hpe: Option<String>,
        head_detection: Option<String>,
        gesture_detection: Option<String>,
        picam: Option<String>,
        pool: Option<usize>,
    ) -> (r: BaseConfig)
        ensures
            r.camera1_pos == camera1_pos,
            r.devices == devices,
            (match hpe {
                Some(v) => r.hpe_addr == v,
                None => r.hpe_addr@ == spec_hpe_addr(),
            }),
            (match head_detection {
                Some(v) => r.head_detection_addr == v,
                None => r.head_detection_addr@ == spec_head_detection_addr(),
            }),
            (match gesture_detection {
                Some(v) => r.gesture_detection_addr == v,
                None => r.gesture_detection_addr@ == spec_gesture_detection_addr(),
            }),
            (match picam {
                Some(v) => r.picam_addr == v,
                None => r.picam_addr@ == spec_picam_addr(),
            }),
            (match pool {
                Some(v) => r.pool_size == v,
                None => r.pool_size == 3,
            }),
    {
        BaseConfig {
            camera1_pos,
            devices,
            hpe_addr: match hpe {
                Some(v) => v,
                None => hpe_addr(),
            },
            head_detection_addr: match head_detection {
                Some(v) => v,
                None => head_detection_addr(),
            },
            gesture_detection_addr: match gesture_detection {
                Some(v) => v,
                None => gesture_detection_addr(),
            },
            picam_addr: match picam {
                Some(v) => v,
                None => picam_addr(),
            },
            pool_size: match pool {
                Some(v) => v,
                None => pool_size(),
            },
        }
    }
}

// ---------------------------------------------------------------------------
// Command-line overrides.
// ---------------------------------------------------------------------------

/// The optional single-value overrides the command line may supply, each
/// independently optional.
#[derive(Clone, Debug)]
pub struct ConfigOverrides {
    pub hpe_addr: Option<String>,
    pub head_detection_addr: Option<String>,
    pub gesture_detection_addr: Option<String>,
    pub picam_addr: Option<String>,
    pub pool_size: Option<usize>,
}

impl ConfigOverrides {
    /// The empty override set: every field absent, so a merge changes
    /// nothing.
    pub fn none() -> (r: ConfigOverrides)
        ensures
            r.hpe_addr is None,
            r.head_detection_addr is None,
            r.gesture_detection_addr is None,
            r.picam_addr is None,
            r.pool_size is None,
    {
        ConfigOverrides {
            hpe_addr: None,
            head_detection_addr: None,
            gesture_detection_addr: None,
            picam_addr: None,
            pool_size: None,
        }
    }
}

/// The merge discipline: each present override replaces the corresponding
/// base field unconditionally, each absent one leaves the source-derived
/// value untouched, and each of the five is decided independently of the
/// others. The camera position and the device list are not overridable.
pub open spec fn spec_merge(base: BaseConfig, o: ConfigOverrides) -> BaseConfig {
    BaseConfig {
        camera1_pos: base.camera1_pos,
        devices: base.devices,
        hpe_addr: match o.hpe_addr {
            Some(v) => v,
            None => base.hpe_addr,
        },
        head_detection_addr: match o.head_detection_addr {
            Some(v) => v,
            None => base.head_detection_addr,
        },
        gesture_detection_addr: match o.gesture_detection_addr {
            Some(v) => v,
            None => base.gesture_detection_addr,
        },
        picam_addr: match o.picam_addr {
            Some(v) => v,
            None => base.picam_addr,
        },
        pool_size: match o.pool_size {
            Some(v) => v,
            None => base.pool_size,
        },
    }
}

/// Merging is idempotent: re-applying the same override set on top of an
/// already merged configuration changes nothing.
pub proof fn lemma_merge_idempotent(base: BaseConfig, o: ConfigOverrides)
    ensures
        spec_merge(spec_merge(base, o), o) == spec_merge(base, o),
{
}

/// Merging never touches the camera position or the device list.
pub proof fn lemma_merge_preserves_devices(base: BaseConfig, o: ConfigOverrides)
    ensures
        spec_merge(base, o).devices == base.devices,
        spec_merge(base, o).camera1_pos == base.camera1_pos,
{
}

// ---------------------------------------------------------------------------
// The aggregate.
// ---------------------------------------------------------------------------

/// The configuration aggregate: the two camera calibrations, the (possibly
/// overridden) base configuration, and the lazily built spatial index over
/// the device list.
#[derive(Debug)]
pub struct Config {
    pub camera1: CameraProperties,
    pub camera2: CameraProperties,
    pub base_config: BaseConfig,
    /// The index holder; treat it as owned by the accessor. It is public
    /// only so that the aggregate's contracts can speak of its snapshot.
    pub index: LazyIndex,
}

impl Config {
    /// The index holder's snapshot is exactly the current device list, so
    /// the index, whenever it is built, reflects that list. Every
    /// constructor establishes this and every method preserves it; only
    /// replacing `base_config.devices` through the public field could break
    /// it, after which the accessor is no longer callable from verified
    /// code — the device list is meant to stay frozen once loaded.
    pub open spec fn wf(&self) -> bool {
        self.index@ == self.base_config.devices@
    }

    /// Assembles the aggregate from the two calibrations and the base
    /// configuration, with an index holder keyed on a snapshot of the
    /// device list and not yet built.
    pub fn new(
        camera1: CameraProperties,
        camera2: CameraProperties,
        base_config: BaseConfig,
    ) -> (r: Config)
        ensures
            r.camera1 == camera1,
            r.camera2 == camera2,
            r.base_config == base_config,
            r.wf(),
    {
        let index = LazyIndex::new(duplicate_devices(&base_config.devices));
        Config {
            camera1,
            camera2,
            base_config,
            index,
        }
    }

    /// Combines the three independently read and parsed sources, failing
    /// fast: the first broken source — camera1 calibration, then camera2
    /// calibration, then base configuration — aborts the whole load with an
    /// error naming that source and why, and no partial aggregate is ever
    /// returned. All three sources valid, the aggregate holds their values
    /// exactly.
    pub fn from_sources(
        camera1: Result<CameraProperties, SourceFault>,
        camera2: Result<CameraProperties, SourceFault>,
        base_config: Result<BaseConfig, SourceFault>,
    ) -> (r: Result<Config, ConfigError>)
        ensures
            (r is Ok <==> camera1 is Ok && camera2 is Ok && base_config is Ok),
            r is Ok ==> r->Ok_0.camera1 == camera1->Ok_0
                && r->Ok_0.camera2 == camera2->Ok_0
                && r->Ok_0.base_config == base_config->Ok_0
                && r->Ok_0.wf(),
            camera1 is Err ==> r is Err && r->Err_0 == (ConfigError {
                source: SourceId::Camera1,
                fault: camera1->Err_0,
            }),
            camera1 is Ok && camera2 is Err ==> r is Err && r->Err_0 == (ConfigError {
                source: SourceId::Camera2,
                fault: camera2->Err_0,
            }),
            camera1 is Ok && camera2 is Ok && base_config is Err ==> r is Err
                && r->Err_0 == (ConfigError { source: SourceId::Base, fault: base_config->Err_0 }),
    {
        let c1 = match camera1 {
            Ok(c) => c,
            Err(fault) => {
                return Err(ConfigError { source: SourceId::Camera1, fault });
            },
        };
        let c2 = match camera2 {
            Ok(c) => c,
            Err(fault) => {
                return Err(ConfigError { source: SourceId::Camera2, fault });
            },
        };
        let base = match base_config {
            Ok(b) => b,
            Err(fault) => {
                return Err(ConfigError { source: SourceId::Base, fault });
            },
        };
        Ok(Config::new(c1, c2, base))
    }

    /// Applies the command-line overrides to the base configuration, in
    /// place: unconditional replacement for each present value, no change
    /// for each absent one, each of the five decided independently. The
    /// calibrations, the device list and the index holder are untouched, so
    /// a well-formed aggregate stays well formed. Synchronous, single-pass,
    /// and — by `lemma_merge_idempotent` — idempotent when re-applied with
    /// the same inputs.
    pub fn apply_overrides(&mut self, overrides: ConfigOverrides)
        ensures
            final(self).base_config == spec_merge(old(self).base_config, overrides),
            final(self).camera1 == old(self).camera1,
            final(self).camera2 == old(self).camera2,
            final(self).index == old(self).index,
            old(self).wf() ==> final(self).wf(),
    {
        let ConfigOverrides {
            hpe_addr,
            head_detection_addr,
            gesture_detection_addr,
            picam_addr,
            pool_size,
        } = overrides;
        if let Some(v) = hpe_addr {
            self.base_config.hpe_addr = v;
        }
        if let Some(v) = head_detection_addr {
            self.base_config.head_detection_addr = v;
        }
        if let Some(v) = gesture_detection_addr {
            self.base_config.gesture_detection_addr = v;
        }
        if let Some(v) = picam_addr {
            self.base_config.picam_addr = v;
        }
        if let Some(v) = pool_size {
            self.base_config.pool_size = v;
        }
    }

    /// On-demand access to the spatial index over the device list: built
    /// exactly once, on the first call, from whichever thread makes it, and
    /// shared unchanged thereafter, so a second call observes a structure
    /// with identical membership. The membership is exactly the device
    /// list, for any list size including zero.
    pub fn aabbtree(&self) -> (r: &SpatialIndex)
        requires
            self.wf(),
        ensures
            r@ == self.base_config.devices@,
            r.wf(),
    {
        self.index.get()
    }
}

} // verus!
