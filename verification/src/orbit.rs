//! The orbit controller: a camera that circles a target, turned and panned by
//! drags and zoomed by the wheel.
//!
//! The controller keeps the state of the orbit and decides every step of it:
//! what a pointer sample means, where the next stretch of a drag starts, how
//! near the poles the camera may come, how far it may zoom, and what a commit
//! clears. The caller does the arithmetic in between: it turns the stretch of
//! a drag into angles and distances, adds them to the coordinates of the
//! camera, and places the camera where the committed coordinates say.

use vstd::prelude::*;
use crate::camera::{max_zoom, min_zoom, zoom_clamp, Camera};
use crate::scalar::{Scalar, ONE_BITS};
use crate::spherical::{max_polar, min_polar, Spherical};
use crate::vector::{Point3, Vector2, Vector3};

verus! {

/// What a drag of the pointer currently does.
#[derive(Clone, Copy, Debug, PartialEq, Eq, Structural)]
pub enum NavState {
    Idle,
    Rotating,
    Panning,
}

/// The stretch of a drag that one pointer sample adds.
#[derive(Clone, Copy, Debug, PartialEq, Eq, Structural)]
pub struct Drag {
    /// Where the pointer was at the sample before; `None` at the first sample
    /// of a drag, which moves nothing.
    pub from: Option<Vector2>,
    /// Where the pointer is now.
    pub to: Vector2,
}

/// What a pointer sample asks of the camera.
#[derive(Clone, Copy, Debug, PartialEq, Eq, Structural)]
pub enum Motion {
    /// No gesture is active.
    Still,
    /// Turn about the target by the stretch dragged.
    Rotate(Drag),
    /// Shift camera and target by the stretch dragged.
    Pan(Drag),
}

/// Why a pointer sample was refused.
#[derive(Clone, Copy, Debug, PartialEq, Eq, Structural)]
pub enum ControlError {
    /// Panning is defined for a perspective camera only; this one is
    /// orthographic.
    OrthographicPan,
}

/// State of the orbit controller.
pub struct OrbitControls {
    pub camera: Camera,
    /// Where the camera is.
    pub position: Point3,
    /// The point the camera circles and looks at.
    pub target: Point3,
    /// The gesture in progress.
    pub state: NavState,
    /// The coordinates of the camera about the target, as last committed.
    pub spherical: Spherical,
    /// Rotation gathered since the last commit.
    pub spherical_delta: Spherical,
    /// Factor on the radius gathered since the last commit.
    pub scale: Scalar,
    /// Shift of the target gathered since the last commit.
    pub pan_offset: Vector3,
    /// Last pointer position of the rotation in progress.
    pub rotate_start: Option<Vector2>,
    /// Last pointer position of the pan in progress.
    pub pan_start: Option<Vector2>,
    /// Width of the viewport in pixels.
    pub screen_width: Scalar,
    /// Height of the viewport in pixels.
    pub screen_height: Scalar,
}

impl OrbitControls {
    /// The controller as it starts: at `position`, about the origin, with no
    /// gesture, no drag, and nothing gathered.
    pub open spec fn spec_new(position: Point3, screen_width: Scalar, screen_height: Scalar) -> OrbitControls {
        OrbitControls {
            camera: Camera::spec_default(),
            position,
            target: Point3 { x: Scalar { bits: 0 }, y: Scalar { bits: 0 }, z: Scalar { bits: 0 } },
            state: NavState::Idle,
            spherical: Spherical::spec_zero(),
            spherical_delta: Spherical::spec_zero(),
            scale: Scalar { bits: ONE_BITS },
            pan_offset: Vector3::spec_zero(),
            rotate_start: None,
            pan_start: None,
            screen_width,
            screen_height,
        }
    }

    /// Whether a pointer sample is refused: a pan is asked of an orthographic
    /// camera.
    pub open spec fn refuses_move(self) -> bool {
        self.state == NavState::Panning && !self.camera.perspective
    }

    /// What a pointer sample at `(x, y)` asks of the camera.
    pub open spec fn motion(self, x: Scalar, y: Scalar) -> Motion {
        match self.state {
            NavState::Idle => Motion::Still,
            NavState::Rotating => Motion::Rotate(Drag { from: self.rotate_start, to: Vector2 { x, y } }),
            NavState::Panning => Motion::Pan(Drag { from: self.pan_start, to: Vector2 { x, y } }),
        }
    }

    /// The state after a pointer sample at `(x, y)` that was not refused: the
    /// drag in progress now starts at the sample.
    pub open spec fn after_move(self, x: Scalar, y: Scalar) -> OrbitControls {
        match self.state {
            NavState::Idle => self,
            NavState::Rotating => OrbitControls { rotate_start: Some(Vector2 { x, y }), ..self },
            NavState::Panning => OrbitControls { pan_start: Some(Vector2 { x, y }), ..self },
        }
    }

    /// The state after the pointer was released: no drag has a start.
    pub open spec fn after_mouse_up(self) -> OrbitControls {
        OrbitControls { rotate_start: None, pan_start: None, ..self }
    }

    /// The state after a commit of the coordinates `swept` about the target
    /// `target`.
    pub open spec fn after_update(self, swept: Spherical, target: Point3) -> OrbitControls {
        OrbitControls {
            target,
            spherical: swept.spec_make_safe(),
            spherical_delta: Spherical::spec_zero(),
            scale: Scalar { bits: ONE_BITS },
            pan_offset: Vector3::spec_zero(),
            ..self
        }
    }

    /// A controller for a camera at `position` and a viewport of the given
    /// size in pixels. It circles the origin, with no gesture in progress.
    pub fn new(position: Point3, screen_width: Scalar, screen_height: Scalar) -> (c: OrbitControls)
        ensures
            c == OrbitControls::spec_new(position, screen_width, screen_height),
    {
        let o = Scalar::from_bits(0);
        OrbitControls {
            camera: Camera::default(),
            position,
            target: Point3::new(o, o, o),
            state: NavState::Idle,
            spherical: Spherical::zero(),
            spherical_delta: Spherical::zero(),
            scale: Scalar::from_bits(ONE_BITS),
            pan_offset: Vector3::zero(),
            rotate_start: None,
            pan_start: None,
            screen_width,
            screen_height,
        }
    }

    /// Takes a pointer sample at `(x, y)` and says what it asks of the camera.
    ///
    /// With no gesture in progress nothing happens. In a rotation or a pan the
    /// sample ends a stretch that began at the sample before, and the next
    /// stretch begins at it; the first sample of a drag has no stretch. A pan
    /// of an orthographic camera is refused, and nothing changes.
    pub fn handle_mouse_move(&mut self, x: Scalar, y: Scalar) -> (r: Result<Motion, ControlError>)
        ensures
            old(self).refuses_move() ==> r == Err::<Motion, ControlError>(ControlError::OrthographicPan)
                && *final(self) == *old(self),
            !old(self).refuses_move() ==> r == Ok::<Motion, ControlError>(old(self).motion(x, y))
                && *final(self) == old(self).after_move(x, y),
    {
        let here = Vector2::new(x, y);
        match self.state {
            NavState::Idle => Ok(Motion::Still),
            NavState::Rotating => {
                let from = self.rotate_start;
                self.rotate_start = Some(here);
                Ok(Motion::Rotate(Drag { from, to: here }))
            },
            NavState::Panning => {
                if !self.camera.is_perspective() {
                    return Err(ControlError::OrthographicPan);
                }
                let from = self.pan_start;
                self.pan_start = Some(here);
                Ok(Motion::Pan(Drag { from, to: here }))
            },
        }
    }

    /// Ends whatever drag is in progress: the next sample is the first of a
    /// new drag. The gesture itself stays until the caller changes `state`.
    pub fn handle_mouse_up(&mut self)
        ensures
            *final(self) == old(self).after_mouse_up(),
    {
        self.rotate_start = None;
        self.pan_start = None;
    }

    /// Commits a step of the orbit.
    ///
    /// `swept` are the coordinates of `position` about the old target with
    /// what was gathered applied: `spherical_delta` added to the angles and
    /// the radius multiplied by `scale`. `target` is the old target moved by
    /// `pan_offset`. The polar angle is kept off the poles, the azimuth is
    /// free; the result is stored and returned, for the caller to place the
    /// camera by. Everything gathered is cleared, whichever gesture is in
    /// progress.
    pub fn update(&mut self, swept: Spherical, target: Point3) -> (committed: Spherical)
        ensures
            *final(self) == old(self).after_update(swept, target),
            committed == swept.spec_make_safe(),
            !swept.phi.spec_is_nan() ==> min_polar().spec_le(committed.phi),
            !swept.phi.spec_is_nan() ==> committed.phi.spec_le(max_polar()),
            swept.phi.spec_lt(min_polar()) ==> committed.phi == min_polar(),
            swept.phi.spec_gt(max_polar()) ==> committed.phi == max_polar(),
            final(self).spherical_delta == Spherical::spec_zero(),
            final(self).pan_offset == Vector3::spec_zero(),
            final(self).scale == (Scalar { bits: ONE_BITS }),
    {
        let committed = swept.make_safe();
        self.target = target;
        self.spherical = committed;
        self.spherical_delta = Spherical::zero();
        self.scale = Scalar::from_bits(ONE_BITS);
        self.pan_offset = Vector3::zero();
        committed
    }

    /// Zooms to the field of view `fovy`, kept between the narrowest and the
    /// widest. `fovy` is what the wheel asks for: the present field of view
    /// less the scroll offset times the zoom sensitivity.
    pub fn process_mouse_scroll(&mut self, fovy: Scalar)
        ensures
            *final(self) == (OrbitControls {
                camera: Camera { fovy: zoom_clamp(fovy), perspective: old(self).camera.perspective },
                ..*old(self)
            }),
            !fovy.spec_is_nan() ==> min_zoom().spec_le(final(self).camera.fovy),
            !fovy.spec_is_nan() ==> final(self).camera.fovy.spec_le(max_zoom()),
            fovy.spec_le(min_zoom()) ==> final(self).camera.fovy == min_zoom(),
            fovy.spec_ge(max_zoom()) ==> final(self).camera.fovy == max_zoom(),
    {
        self.camera.set_zoom(fovy);
    }
}

/// A commit of coordinates that a commit gave, about the target that it left,
/// changes nothing: with nothing gathered, the controller is at rest.
pub proof fn lemma_update_at_rest(c: OrbitControls, swept: Spherical, target: Point3)
    ensures
        ({
            let rest = c.after_update(swept, target);
            rest.after_update(rest.spherical, rest.target) == rest
        }),
{
}

} // verus!
