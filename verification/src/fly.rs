//! The free-fly controller: a camera moved by held keys and turned by the
//! mouse.
//!
//! The controller keeps the state of the flight and decides which directions
//! are travelled in, how far the pitch may go, and what an attached camera
//! keeps. The caller does the arithmetic: displacements, the sums of angles,
//! and the basis derived from them.

use vstd::prelude::*;
use vstd::arithmetic::power2::{lemma2_to64, lemma_pow2_pos, lemma_pow2_unfold, pow2};
use crate::camera::Camera;
use crate::scalar::{
    lemma_scaled_magnitude_of_normal, lemma_unit_splits, unit, Scalar, NEG_ONE_BITS, ONE_BITS,
    ZERO_BITS,
};
use crate::vector::{Point3, Vector3};

verus! {

/// Bit pattern of the yaw a controller starts with: `-90.0` degrees, which
/// looks down the -Z axis.
pub const YAW_BITS: u32 = 0xC2B4_0000;

/// Bit pattern of the pitch a controller starts with: `0.0` degrees.
pub const PITCH_BITS: u32 = 0x0000_0000;

/// Bit pattern of the movement speed a controller starts with: `2.5` units per
/// second.
pub const SPEED_BITS: u32 = 0x4020_0000;

/// Bit pattern of the degrees turned per pixel of mouse travel: the
/// single-precision number nearest to `0.1`.
pub const SENSITIVITY_BITS: u32 = 0x3DCC_CCCD;

/// Bit pattern of the lowest constrained pitch: `-89.0` degrees.
pub const MIN_PITCH_BITS: u32 = 0xC2B2_0000;

/// Bit pattern of the highest constrained pitch: `89.0` degrees.
pub const MAX_PITCH_BITS: u32 = 0x42B2_0000;

/// The lowest constrained pitch.
pub open spec fn min_pitch() -> Scalar {
    Scalar { bits: MIN_PITCH_BITS }
}

/// The highest constrained pitch.
pub open spec fn max_pitch() -> Scalar {
    Scalar { bits: MAX_PITCH_BITS }
}

/// A pitch kept short of straight up and straight down, where the view would
/// flip over.
pub open spec fn pitch_clamp(pitch: Scalar) -> Scalar {
    pitch.spec_clamp(min_pitch(), max_pitch())
}

/// A direction of travel, whatever key or button stands for it.
#[allow(non_camel_case_types)]
#[derive(Clone, Copy, Debug, PartialEq, Eq, Structural)]
pub enum CameraMovement {
    FORWARD,
    BACKWARD,
    LEFT,
    RIGHT,
}

/// State of the free-fly controller.
pub struct CameraControls {
    /// Where the camera is.
    pub position: Point3,
    /// The direction the camera looks in, unless `center` is set.
    pub front: Vector3,
    /// A point to look at instead of along `front`, until the basis is next
    /// derived.
    pub center: Option<Point3>,
    pub up: Vector3,
    pub right: Vector3,
    pub world_up: Vector3,
    /// Heading, in degrees.
    pub yaw: Scalar,
    /// Elevation, in degrees.
    pub pitch: Scalar,
    /// Units travelled per second along each held direction.
    pub movement_speed: Scalar,
    /// Degrees turned per pixel of mouse travel.
    pub mouse_sensitivity: Scalar,
    pub camera: Camera,
    pub moving_left: bool,
    pub moving_right: bool,
    pub moving_forward: bool,
    pub moving_backward: bool,
}

impl CameraControls {
    /// The controller as it starts: at the origin, looking down the -Z axis
    /// with +Y up, no key held. `right` and `up` are zero until the basis is
    /// first derived from yaw and pitch.
    pub open spec fn spec_default() -> CameraControls {
        let o = Scalar { bits: ZERO_BITS };
        CameraControls {
            position: Point3 { x: o, y: o, z: o },
            front: Vector3 { x: o, y: o, z: Scalar { bits: NEG_ONE_BITS } },
            center: None,
            up: Vector3::spec_zero(),
            right: Vector3::spec_zero(),
            world_up: Vector3 { x: o, y: Scalar { bits: ONE_BITS }, z: o },
            yaw: Scalar { bits: YAW_BITS },
            pitch: Scalar { bits: PITCH_BITS },
            movement_speed: Scalar { bits: SPEED_BITS },
            mouse_sensitivity: Scalar { bits: SENSITIVITY_BITS },
            camera: Camera::spec_default(),
            moving_left: false,
            moving_right: false,
            moving_forward: false,
            moving_backward: false,
        }
    }

    /// The state after the key for `direction` went down (`pressed`) or up.
    pub open spec fn after_keyboard(self, direction: CameraMovement, pressed: bool) -> CameraControls {
        match direction {
            CameraMovement::FORWARD => CameraControls { moving_forward: pressed, ..self },
            CameraMovement::BACKWARD => CameraControls { moving_backward: pressed, ..self },
            CameraMovement::LEFT => CameraControls { moving_left: pressed, ..self },
            CameraMovement::RIGHT => CameraControls { moving_right: pressed, ..self },
        }
    }

    /// The directions to travel in during one step of time, in the order in
    /// which their displacements are added: each held direction once, whatever
    /// else is held.
    pub open spec fn spec_active_movements(self) -> Seq<CameraMovement> {
        let forward = if self.moving_forward {
            seq![CameraMovement::FORWARD]
        } else {
            Seq::empty()
        };
        let backward = if self.moving_backward {
            seq![CameraMovement::BACKWARD]
        } else {
            Seq::empty()
        };
        let left = if self.moving_left {
            seq![CameraMovement::LEFT]
        } else {
            Seq::empty()
        };
        let right = if self.moving_right {
            seq![CameraMovement::RIGHT]
        } else {
            Seq::empty()
        };
        forward + backward + left + right
    }

    /// The state after the view was turned to `yaw` and `pitch`.
    pub open spec fn after_mouse_movement(self, yaw: Scalar, pitch: Scalar, constrain_pitch: bool) -> CameraControls {
        CameraControls {
            yaw,
            pitch: if constrain_pitch {
                pitch_clamp(pitch)
            } else {
                pitch
            },
            ..self
        }
    }

    /// The state after the controller was attached to `camera`, placed at
    /// `position` and facing `center`: it keeps its own field of view.
    pub open spec fn after_set_camera(self, camera: Camera, position: Point3, center: Point3) -> CameraControls {
        CameraControls {
            position,
            center: Some(center),
            camera: Camera { fovy: self.camera.fovy, perspective: camera.perspective },
            ..self
        }
    }

    /// The state after the basis was derived anew: the camera looks along
    /// `front` again, whatever point it was told to face.
    pub open spec fn after_set_basis(self, front: Vector3, right: Vector3, up: Vector3) -> CameraControls {
        CameraControls { front, right, up, center: None, ..self }
    }

    /// Records that the key for `direction` went down (`pressed`) or up.
    pub fn process_keyboard(&mut self, direction: CameraMovement, pressed: bool)
        ensures
            *final(self) == old(self).after_keyboard(direction, pressed),
    {
        match direction {
            CameraMovement::FORWARD => self.moving_forward = pressed,
            CameraMovement::BACKWARD => self.moving_backward = pressed,
            CameraMovement::LEFT => self.moving_left = pressed,
            CameraMovement::RIGHT => self.moving_right = pressed,
        }
    }

    /// The directions to travel in during one step of time, in the order in
    /// which their displacements are added.
    pub fn active_movements(&self) -> (moves: Vec<CameraMovement>)
        ensures
            moves@ == self.spec_active_movements(),
    {
        let mut moves: Vec<CameraMovement> = Vec::new();
        if self.moving_forward {
            moves.push(CameraMovement::FORWARD);
        }
        if self.moving_backward {
            moves.push(CameraMovement::BACKWARD);
        }
        if self.moving_left {
            moves.push(CameraMovement::LEFT);
        }
        if self.moving_right {
            moves.push(CameraMovement::RIGHT);
        }
        assert(moves@ =~= self.spec_active_movements());
        moves
    }

    /// Turns the view to `yaw` and `pitch`, both in degrees: the present
    /// angles with the mouse travel, times the sensitivity, added. With
    /// `constrain_pitch`, the pitch is kept within 89 degrees of level.
    pub fn process_mouse_movement(&mut self, yaw: Scalar, pitch: Scalar, constrain_pitch: bool)
        ensures
            *final(self) == old(self).after_mouse_movement(yaw, pitch, constrain_pitch),
    {
        self.yaw = yaw;
        if constrain_pitch {
            let lo = Scalar::from_bits(MIN_PITCH_BITS);
            let hi = Scalar::from_bits(MAX_PITCH_BITS);
            self.pitch = pitch.clamp(lo, hi);
        } else {
            self.pitch = pitch;
        }
    }

    /// Takes the basis derived from yaw and pitch. From then on the camera
    /// looks along `front`; a point it was told to face is forgotten.
    pub fn set_basis(&mut self, front: Vector3, right: Vector3, up: Vector3)
        ensures
            *final(self) == old(self).after_set_basis(front, right, up),
    {
        self.front = front;
        self.right = right;
        self.up = up;
        self.center = None;
    }

    /// Attaches the controller to `camera`, placed at `position` and facing
    /// `center`. The controller keeps its own field of view.
    pub fn set_camera(&mut self, camera: &Camera, position: Point3, center: Point3)
        ensures
            *final(self) == old(self).after_set_camera(*camera, position, center),
    {
        let fovy = self.camera.fovy;
        self.position = position;
        self.center = Some(center);
        self.camera = Camera { fovy, perspective: camera.perspective };
    }
}

impl Default for CameraControls {
    fn default() -> (c: CameraControls)
        ensures
            c == CameraControls::spec_default(),
    {
        let o = Scalar::from_bits(ZERO_BITS);
        CameraControls {
            position: Point3::new(o, o, o),
            front: Vector3::new(o, o, Scalar::from_bits(NEG_ONE_BITS)),
            center: None,
            up: Vector3::zero(),
            right: Vector3::zero(),
            world_up: Vector3::new(o, Scalar::from_bits(ONE_BITS), o),
            yaw: Scalar::from_bits(YAW_BITS),
            pitch: Scalar::from_bits(PITCH_BITS),
            movement_speed: Scalar::from_bits(SPEED_BITS),
            mouse_sensitivity: Scalar::from_bits(SENSITIVITY_BITS),
            camera: Camera::default(),
            moving_left: false,
            moving_right: false,
            moving_forward: false,
            moving_backward: false,
        }
    }
}

/// A pitch that is a number ends within 89 degrees of level: at the nearer
/// bound where it was beyond one, and where it was otherwise.
pub proof fn lemma_pitch_clamp_bounds(pitch: Scalar)
    requires
        !pitch.spec_is_nan(),
    ensures
        min_pitch().spec_le(pitch_clamp(pitch)),
        pitch_clamp(pitch).spec_le(max_pitch()),
        pitch.spec_lt(min_pitch()) ==> pitch_clamp(pitch) == min_pitch(),
        pitch.spec_gt(max_pitch()) ==> pitch_clamp(pitch) == max_pitch(),
        min_pitch().spec_le(pitch) && pitch.spec_le(max_pitch()) ==> pitch_clamp(pitch) == pitch,
{
}

/// The bit patterns named in this module encode the numbers they are named
/// for: a yaw of -90 and a pitch of 0 degrees, a speed of 2.5, pitch bounds of
/// -89 and 89 degrees, and a sensitivity between 0.1 and 0.1000001.
pub proof fn lemma_fly_values()
    ensures
        (Scalar { bits: YAW_BITS }).scaled() == -90 * unit(),
        (Scalar { bits: PITCH_BITS }).scaled() == 0,
        2 * (Scalar { bits: SPEED_BITS }).scaled() == 5 * unit(),
        min_pitch().scaled() == -89 * unit(),
        max_pitch().scaled() == 89 * unit(),
        unit() <= 10 * (Scalar { bits: SENSITIVITY_BITS }).scaled(),
        10_000_000 * (Scalar { bits: SENSITIVITY_BITS }).scaled() < 1_000_001 * unit(),
{
    lemma2_to64();
    lemma_scaled_magnitude_of_normal(Scalar { bits: YAW_BITS }, 90, 17);
    lemma_scaled_magnitude_of_normal(Scalar { bits: SPEED_BITS }, 5, 21);
    lemma_pow2_unfold(149);
    lemma_scaled_magnitude_of_normal(min_pitch(), 89, 17);
    lemma_scaled_magnitude_of_normal(max_pitch(), 89, 17);
    lemma_scaled_magnitude_of_normal(Scalar { bits: SENSITIVITY_BITS }, 0xCC_CCCD, 0);
    lemma_unit_splits(122);
    lemma_pow2_pos(122);
    let p = pow2(122) as int;
    assert(0x800_0000 * p <= 10 * (0xCC_CCCD * p)) by (nonlinear_arith)
        requires
            p > 0,
    ;
    assert(10_000_000 * (0xCC_CCCD * p) < 1_000_001 * (0x800_0000 * p)) by (nonlinear_arith)
        requires
            p > 0,
    ;
}

} // verus!
