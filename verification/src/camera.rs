use vstd::prelude::*;

verus! {

/// A row-major 3x3 matrix of real values. Each entry is held as the
/// IEEE-754 binary64 bit pattern of the value (the `f64::to_bits` form),
/// because this configuration layer never computes with the entries: it
/// only stores them and hands them through to the geometric consumers,
/// and the bit pattern is an exact, lossless carrier for that.
#[derive(Clone, Copy, PartialEq, Eq, Structural, Debug)]
pub struct Mat3Bits {
    pub r0c0: u64,
    pub r0c1: u64,
    pub r0c2: u64,
    pub r1c0: u64,
    pub r1c1: u64,
    pub r1c2: u64,
    pub r2c0: u64,
    pub r2c1: u64,
    pub r2c2: u64,
}

impl Mat3Bits {
    /// The matrix whose nine entries all hold the bit pattern of zero.
    pub open spec fn zero_spec() -> Mat3Bits {
        Mat3Bits {
            r0c0: 0, r0c1: 0, r0c2: 0,
            r1c0: 0, r1c1: 0, r1c2: 0,
            r2c0: 0, r2c1: 0, r2c2: 0,
        }
    }

    /// The identity matrix: ones (bit pattern 0x3ff0_0000_0000_0000) on the
    /// diagonal, zeroes elsewhere.
    pub open spec fn identity_spec() -> Mat3Bits {
        Mat3Bits {
            r0c0: 0x3ff0_0000_0000_0000, r0c1: 0, r0c2: 0,
            r1c0: 0, r1c1: 0x3ff0_0000_0000_0000, r1c2: 0,
            r2c0: 0, r2c1: 0, r2c2: 0x3ff0_0000_0000_0000,
        }
    }

    pub fn zero() -> (r: Mat3Bits)
        ensures
            r == Mat3Bits::zero_spec(),
    {
        Mat3Bits {
            r0c0: 0, r0c1: 0, r0c2: 0,
            r1c0: 0, r1c1: 0, r1c2: 0,
            r2c0: 0, r2c1: 0, r2c2: 0,
        }
    }

    pub fn identity() -> (r: Mat3Bits)
        ensures
            r == Mat3Bits::identity_spec(),
    {
        Mat3Bits {
            r0c0: 0x3ff0_0000_0000_0000, r0c1: 0, r0c2: 0,
            r1c0: 0, r1c1: 0x3ff0_0000_0000_0000, r1c2: 0,
            r2c0: 0, r2c1: 0, r2c2: 0x3ff0_0000_0000_0000,
        }
    }
}

/// One camera's pose and intrinsic parameters, immutable once constructed.
///
/// Real-valued attributes (position, matrix entries) are carried as IEEE-754
/// binary64 bit patterns in `u64` fields; image dimensions are pixel counts.
/// The intrinsic matrix is upper-triangular by convention and the rotation
/// matrix is intended orthonormal; neither is validated here, a documented
/// gap of this layer.
#[derive(Clone, Copy, PartialEq, Eq, Structural, Debug)]
pub struct CameraProperties {
    pub pos_x: u64,
    pub pos_y: u64,
    pub pos_z: u64,
    pub img_height: u32,
    pub img_width: u32,
    pub intrensic_params: Mat3Bits,
    pub rotation_matrix: Mat3Bits,
}

impl CameraProperties {
    /// The all-zero calibration: origin position, zero-sized image, zero matrices.
    pub open spec fn default_spec() -> CameraProperties {
        CameraProperties {
            pos_x: 0,
            pos_y: 0,
            pos_z: 0,
            img_height: 0,
            img_width: 0,
            intrensic_params: Mat3Bits::zero_spec(),
            rotation_matrix: Mat3Bits::zero_spec(),
        }
    }

    /// The fixed sample calibration: non-zero focal and skew terms in the
    /// intrinsic matrix, identity rotation, and a 720x1280 image.
    pub open spec fn sample_spec() -> CameraProperties {
        CameraProperties {
            pos_x: 0,
            pos_y: 0,
            pos_z: 0,
            img_height: 720,
            img_width: 1280,
            intrensic_params: (Mat3Bits {
                // bit patterns of the sample focal lengths, principal point
                // and skew: 1.425355597530572e3, 7.255278875079987e22,
                // 1.4039605486267199e3, 4.003098490699321e2 and 1.0
                r0c0: 0x4096_456c_21c2_5161, r0c1: 0, r0c2: 0x44ae_ba30_6a0f_67ee,
                r1c0: 0, r1c1: 0x4095_efd7_9a0f_27eb, r1c2: 0x4079_04f5_244c_60df,
                r2c0: 0, r2c1: 0, r2c2: 0x3ff0_0000_0000_0000,
            }),
            rotation_matrix: Mat3Bits::identity_spec(),
        }
    }

    /// A fixed, known calibration for development and testing without real
    /// calibration data.
    pub fn test_new() -> (r: CameraProperties)
        ensures
            r == CameraProperties::sample_spec(),
    {
        let sample_intrensic_matrix = Mat3Bits {
            r0c0: 0x4096_456c_21c2_5161, r0c1: 0, r0c2: 0x44ae_ba30_6a0f_67ee,
            r1c0: 0, r1c1: 0x4095_efd7_9a0f_27eb, r1c2: 0x4079_04f5_244c_60df,
            r2c0: 0, r2c1: 0, r2c2: 0x3ff0_0000_0000_0000,
        };
        let sample_rotation_matrix = Mat3Bits::identity();
        CameraProperties {
            intrensic_params: sample_intrensic_matrix,
            rotation_matrix: sample_rotation_matrix,
            img_height: 720,
            img_width: 1280,
            ..CameraProperties::default()
        }
    }
}

impl Default for CameraProperties {
    fn default() -> (r: CameraProperties)
        ensures
            r == CameraProperties::default_spec(),
    {
        CameraProperties {
            pos_x: 0,
            pos_y: 0,
            pos_z: 0,
            img_height: 0,
            img_width: 0,
            intrensic_params: Mat3Bits::zero(),
            rotation_matrix: Mat3Bits::zero(),
        }
    }
}

} // verus!
