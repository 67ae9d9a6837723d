use vstd::prelude::*;

verus! {

/// The three independent configuration sources of one load.
#[derive(Clone, Copy, PartialEq, Eq, Structural, Debug)]
pub enum SourceId {
    Camera1,
    Camera2,
    Base,
}

/// Why a single source failed: it could not be read at all, or it was read
/// but did not match its expected shape (missing required field, wrong
/// type, invalid matrix shape).
#[derive(Clone, Copy, PartialEq, Eq, Structural, Debug)]
pub enum SourceFault {
    Unreadable,
    Malformed,
}

/// The single error kind of this layer: a configuration error naming the
/// broken source and why, so an operator can immediately identify the
/// broken file. Detected at load time, never retried; it aborts the whole
/// load, and no partial configuration is ever returned.
#[derive(Clone, Copy, PartialEq, Eq, Structural, Debug)]
pub struct ConfigError {
    pub source: SourceId,
    pub fault: SourceFault,
}

impl ConfigError {
    /// The description `message` returns, arm by arm.
    pub open spec fn spec_message(&self) -> Seq<char> {
        match (self.source, self.fault) {
            (SourceId::Camera1, SourceFault::Unreadable) => "configuration error: couldn't read the camera1 calibration file"@,
            (SourceId::Camera1, SourceFault::Malformed) => "configuration error: the camera1 calibration file doesn't match the expected shape"@,
            (SourceId::Camera2, SourceFault::Unreadable) => "configuration error: couldn't read the camera2 calibration file"@,
            (SourceId::Camera2, SourceFault::Malformed) => "configuration error: the camera2 calibration file doesn't match the expected shape"@,
            (SourceId::Base, SourceFault::Unreadable) => "configuration error: couldn't read the base configuration file"@,
            (SourceId::Base, SourceFault::Malformed) => "configuration error: the base configuration file doesn't match the expected shape"@,
        }
    }

    /// A human-readable description of which source broke and why.
    pub fn message(&self) -> (r: String)
        ensures
            r@ == self.spec_message(),
    {
        match (self.source, self.fault) {
            (SourceId::Camera1, SourceFault::Unreadable) => "configuration error: couldn't read the camera1 calibration file".to_owned(),
            (SourceId::Camera1, SourceFault::Malformed) => "configuration error: the camera1 calibration file doesn't match the expected shape".to_owned(),
            (SourceId::Camera2, SourceFault::Unreadable) => "configuration error: couldn't read the camera2 calibration file".to_owned(),
            (SourceId::Camera2, SourceFault::Malformed) => "configuration error: the camera2 calibration file doesn't match the expected shape".to_owned(),
            (SourceId::Base, SourceFault::Unreadable) => "configuration error: couldn't read the base configuration file".to_owned(),
            (SourceId::Base, SourceFault::Malformed) => "configuration error: the base configuration file doesn't match the expected shape".to_owned(),
        }
    }
}

} // verus!
