//! The deciding core of a real-time shader preview.
//!
//! The render loop owns a clock, the last known pointer position and the
//! window extent.  Each tick it asks for one drawn frame and then works
//! through the window events that arrived since the previous tick.  The loop
//! never touches a window or a graphics context itself: it hands back
//! [`render_loop::Command`] values for the host to perform.
//!
//! All quantities are exact.  Time is counted in whole nanoseconds of a
//! monotonic clock, the quad's corners are integers, and a normalised pointer
//! coordinate is kept as an unevaluated quotient of pixels by extent.
pub mod clock;
pub mod geometry;
pub mod lemmas;
pub mod pointer;
pub mod render_loop;
