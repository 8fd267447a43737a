//! Aircraft takeoff performance estimator.
//!
//! The estimator owns three hand-calibrated tables of curve segments
//! (altitude-vs-temperature quadratics, weight-vs-distance quadratics,
//! wind-vs-distance lines) and blends the two segments nearest to a query
//! key at each of three chained interpolation stages, turning
//! (temperature, pressure altitude, takeoff weight, headwind) into a
//! ground-roll distance and a rotation speed.
//!
//! All quantities are exact fixed-point numbers ([`fixed::Fx`], counts of
//! 10^-10 engineering units), so every stage carries an exact arithmetic
//! contract.

pub mod fixed;
pub mod performance;
