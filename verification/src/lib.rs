//! Camera controls for an interactive 3D view: a free-fly controller and an
//! orbit controller.
//!
//! Every decision the controllers make -- which gesture a pointer sample
//! belongs to, where a drag started, how far an angle or a field of view may
//! go, which accumulators are cleared -- is made here, in verified code.
//! Numbers are single-precision values held by their bit patterns
//! ([`scalar::Scalar`]); the arithmetic between two decisions (sums, products,
//! trigonometry, matrices) is the caller's, who hands the results in.

pub mod camera;
pub mod fly;
pub mod orbit;
pub mod scalar;
pub mod spherical;
pub mod vector;
