//! Zero-yaw drag model of an axisymmetric projectile: the verified parts that
//! decide which empirical formula applies at each Mach number, and the rules
//! that judge a geometry.
//!
//! The floating-point formulas themselves run outside this library. Here each
//! geometry value is held as its IEEE 754 bit pattern, so that every comparison
//! the model makes is proved against the exact value it reads.

mod boundary_layer;
mod ieee;
mod mach;
mod geometry;

pub use boundary_layer::{
    BoundaryLayer,
    validate_boundary_layer,
    code_of,
    parse_canonical,
    upper_of,
    ascii_upper_char,
    all_ascii,
    lemma_code_round_trip,
};
pub use ieee::{
    Binary64,
    FRACTION_UNIT,
    SIGN_BIT,
    EXPONENT_MAX,
    magnitude_field,
    exponent_field,
    fraction_field,
    sign_negative,
    is_nan,
    scaled_magnitude,
    scaled_value,
    less_than,
    at_most,
    lemma_scaled_magnitude_increases,
};
pub use mach::{
    SWEEP_LEN,
    sweep,
    lemma_sweep_ascending,
    mach_sweep,
    MeplatPressure,
    MeplatDrag,
    BasePressureFit,
    BandDrag,
    HeadDrag,
    BoattailDrag,
    Regimes,
    regimes_of,
    regimes,
};
pub use geometry::{
    ZERO_BITS,
    HALF_BITS,
    STEEP_BOATTAIL_BITS,
    ONE_BITS,
    STEEP_FLARE_BITS,
    LONG_BOATTAIL_BITS,
    ProjectileInput,
    Diagnostic,
    ModelError,
    SweepPoint,
    message_text,
    diagnostics_of,
    valid_geometry,
    has_boattail,
    plan_of,
    differ_in_nose_only,
    differ_in_boundary_layer_only,
    lemma_plan_covers_sweep,
    lemma_nose_rule_toggles_alone,
    lemma_boundary_layer_leaves_plan,
};
