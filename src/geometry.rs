use vstd::prelude::*;
use crate::boundary_layer::BoundaryLayer;
use crate::ieee::{Binary64, less_than, at_most};
use crate::mach::{Regimes, regimes_of, regimes, sweep, mach_sweep, SWEEP_LEN, lemma_sweep_ascending};

verus! {

/// Bit pattern of 0.0.
pub const ZERO_BITS: u64 = 0x0;

/// Bit pattern of 0.5.
pub const HALF_BITS: u64 = 0x3fe0_0000_0000_0000;

/// Bit pattern of 0.65, the steepest boattail the base fits cover.
pub const STEEP_BOATTAIL_BITS: u64 = 0x3fe4_cccc_cccc_cccd;

/// Bit pattern of 1.0.
pub const ONE_BITS: u64 = 0x3ff0_0000_0000_0000;

/// Bit pattern of 1.35, the steepest flare the base fits cover.
pub const STEEP_FLARE_BITS: u64 = 0x3ff5_9999_9999_999a;

/// Bit pattern of 1.5, the longest boattail the fits cover.
pub const LONG_BOATTAIL_BITS: u64 = 0x3ff8_0000_0000_0000;

/// Projectile geometry. Lengths and diameters are in calibers but for the
/// reference diameter, in millimetres.
#[derive(Debug, Clone)]
pub struct ProjectileInput {
    pub ref_diameter: Binary64,
    pub total_length: Binary64,
    pub nose_length: Binary64,
    /// Nose bluntness ratio RT/R.
    pub rt_r: Binary64,
    pub boattail_length: Binary64,
    pub base_diameter: Binary64,
    pub meplat_diameter: Binary64,
    pub band_diameter: Binary64,
    /// Centre of gravity, from the nose.
    pub cg_location: Binary64,
    pub boundary_layer: BoundaryLayer,
    pub identification: String,
}

/// An advisory on a geometry outside the range the empirical fits cover.
#[derive(Debug, Clone, Copy, PartialEq, Eq, Structural)]
pub enum Diagnostic {
    NoseTooShort,
    NoseTooBlunt,
    BoattailTooLong,
    BoattailTooSteep,
    FlareTooSteep,
}

#[derive(Debug, Clone, Copy, PartialEq, Eq, Structural)]
pub enum ModelError {
    /// A boundary-layer code other than `L/L`, `L/T` or `T/T`.
    InvalidBoundaryLayerCode,
    /// A nose length not above zero, a total length not above the nose
    /// length, or a reference diameter not above zero.
    InvalidGeometry,
}

pub open spec fn message_text(d: Diagnostic) -> Seq<char> {
    match d {
        Diagnostic::NoseTooShort =>
            "NOSE TOO SHORT. CDH IS TOO HIGH AT TRANSONIC AND SUPERSONIC SPEEDS."@,
        Diagnostic::NoseTooBlunt =>
            "NOSE TOO BLUNT. CDH IS TOO HIGH AT TRANSONIC AND SUPERSONIC SPEEDS."@,
        Diagnostic::BoattailTooLong => "BOATTAIL TOO LONG. CDBT AND CDB MAY BE INCORRECT."@,
        Diagnostic::BoattailTooSteep => "BOATTAIL TOO STEEP. CDBT AND CDB MAY BE INCORRECT."@,
        Diagnostic::FlareTooSteep =>
            "CONICAL FLARE TAIL TOO STEEP. CDBT AND CDB MAY BE INCORRECT."@,
    }
}

impl Diagnostic {
    /// The advisory as printed.
    pub fn message(&self) -> (r: &'static str)
        ensures
            r@ == message_text(*self),
    {
        match self {
            Diagnostic::NoseTooShort =>
                "NOSE TOO SHORT. CDH IS TOO HIGH AT TRANSONIC AND SUPERSONIC SPEEDS.",
            Diagnostic::NoseTooBlunt =>
                "NOSE TOO BLUNT. CDH IS TOO HIGH AT TRANSONIC AND SUPERSONIC SPEEDS.",
            Diagnostic::BoattailTooLong => "BOATTAIL TOO LONG. CDBT AND CDB MAY BE INCORRECT.",
            Diagnostic::BoattailTooSteep => "BOATTAIL TOO STEEP. CDBT AND CDB MAY BE INCORRECT.",
            Diagnostic::FlareTooSteep =>
                "CONICAL FLARE TAIL TOO STEEP. CDBT AND CDB MAY BE INCORRECT.",
        }
    }
}

/// One advisory when `cond` holds, none otherwise.
pub open spec fn when(cond: bool, d: Diagnostic) -> Seq<Diagnostic> {
    if cond {
        seq![d]
    } else {
        seq![]
    }
}

/// The base rules: a base under 0.65 calibers is too steep a boattail; only
/// otherwise, one over 1.35 calibers is too steep a flare.
pub open spec fn base_advisories(g: ProjectileInput) -> Seq<Diagnostic> {
    if less_than(g.base_diameter.bits, STEEP_BOATTAIL_BITS) {
        seq![Diagnostic::BoattailTooSteep]
    } else {
        when(less_than(STEEP_FLARE_BITS, g.base_diameter.bits), Diagnostic::FlareTooSteep)
    }
}

/// The advisories that do not read the nose length.
pub open spec fn shape_advisories(g: ProjectileInput) -> Seq<Diagnostic> {
    when(less_than(HALF_BITS, g.meplat_diameter.bits), Diagnostic::NoseTooBlunt)
        + when(at_most(LONG_BOATTAIL_BITS, g.boattail_length.bits), Diagnostic::BoattailTooLong)
        + base_advisories(g)
}

/// The advisories of a geometry, in the order the rules are checked.
pub open spec fn diagnostics_of(g: ProjectileInput) -> Seq<Diagnostic> {
    when(less_than(g.nose_length.bits, ONE_BITS), Diagnostic::NoseTooShort) + shape_advisories(g)
}

/// Nose and total length and reference diameter are usable as divisors and
/// logarithm arguments.
pub open spec fn valid_geometry(g: ProjectileInput) -> bool {
    less_than(ZERO_BITS, g.nose_length.bits) && less_than(g.nose_length.bits, g.total_length.bits)
        && less_than(ZERO_BITS, g.ref_diameter.bits)
}

/// A boattail is present when its length is not at most zero.
pub open spec fn has_boattail(g: ProjectileInput) -> bool {
    !at_most(g.boattail_length.bits, ZERO_BITS)
}

/// One point of the sweep: the Mach number, in thousandths, and the formulas
/// that apply there.
#[derive(Debug, Clone, Copy, PartialEq, Eq, Structural)]
pub struct SweepPoint {
    pub mach: u32,
    pub regimes: Regimes,
}

/// The sweep of a geometry: each Mach value of the fixed list, in order, with
/// the formulas that apply there.
pub open spec fn plan_of(g: ProjectileInput) -> Seq<SweepPoint> {
    sweep().map_values(|m: u32| SweepPoint { mach: m, regimes: regimes_of(m, has_boattail(g)) })
}

impl ProjectileInput {
    pub fn has_boattail(&self) -> (r: bool)
        ensures
            r == has_boattail(*self),
    {
        !self.boattail_length.le(&Binary64::from_bits(ZERO_BITS))
    }

    /// Fails with `InvalidGeometry` exactly when the geometry is unusable.
    pub fn validate(&self) -> (r: Result<(), ModelError>)
        ensures
            r is Ok <==> valid_geometry(*self),
            r is Err ==> r == Err::<(), ModelError>(ModelError::InvalidGeometry),
    {
        let zero = Binary64::from_bits(ZERO_BITS);
        if zero.lt(&self.nose_length) && self.nose_length.lt(&self.total_length)
            && zero.lt(&self.ref_diameter) {
            Ok(())
        } else {
            Err(ModelError::InvalidGeometry)
        }
    }

    /// The advisories, in the order the rules are checked.
    pub fn diagnostics(&self) -> (r: Vec<Diagnostic>)
        ensures
            r@ == diagnostics_of(*self),
    {
        let mut r: Vec<Diagnostic> = Vec::new();
        if self.nose_length.lt(&Binary64::from_bits(ONE_BITS)) {
            r.push(Diagnostic::NoseTooShort);
        }
        if Binary64::from_bits(HALF_BITS).lt(&self.meplat_diameter) {
            r.push(Diagnostic::NoseTooBlunt);
        }
        if Binary64::from_bits(LONG_BOATTAIL_BITS).le(&self.boattail_length) {
            r.push(Diagnostic::BoattailTooLong);
        }
        if self.base_diameter.lt(&Binary64::from_bits(STEEP_BOATTAIL_BITS)) {
            r.push(Diagnostic::BoattailTooSteep);
        } else if Binary64::from_bits(STEEP_FLARE_BITS).lt(&self.base_diameter) {
            r.push(Diagnostic::FlareTooSteep);
        }
        assert(r@ =~= diagnostics_of(*self));
        r
    }

    /// The advisory messages, in the order the rules are checked.
    pub fn get_diagnostics(&self) -> (r: Vec<String>)
        ensures
            r.len() == diagnostics_of(*self).len(),
            forall|i: int| 0 <= i < r.len() ==> #[trigger] r[i]@ == message_text(diagnostics_of(*self)[i]),
    {
        let kinds = self.diagnostics();
        let mut r: Vec<String> = Vec::new();
        let mut i: usize = 0;
        while i < kinds.len()
            invariant
                kinds@ == diagnostics_of(*self),
                i <= kinds.len(),
                r.len() == i,
                forall|j: int| 0 <= j < i ==> #[trigger] r[j]@ == message_text(kinds@[j]),
            decreases kinds.len() - i,
        {
            r.push(kinds[i].message().to_owned());
            i += 1;
        }
        r
    }

    /// The sweep to evaluate: every Mach value of the fixed list, ascending,
    /// with the formulas that apply there. Fails on an unusable geometry.
    pub fn evaluation_plan(&self) -> (r: Result<Vec<SweepPoint>, ModelError>)
        ensures
            r is Err <==> !valid_geometry(*self),
            r is Err ==> r == Err::<Vec<SweepPoint>, ModelError>(ModelError::InvalidGeometry),
            r matches Ok(v) ==> v@ == plan_of(*self),
    {
        self.validate()?;
        let machs = mach_sweep();
        let hb = self.has_boattail();
        let mut v: Vec<SweepPoint> = Vec::new();
        let mut i: usize = 0;
        while i < machs.len()
            invariant
                machs@ == sweep(),
                hb == has_boattail(*self),
                i <= machs.len(),
                v.len() == i,
                forall|j: int| 0 <= j < i ==> (#[trigger] v[j]) == (SweepPoint {
                    mach: sweep()[j],
                    regimes: regimes_of(sweep()[j], hb),
                }),
            decreases machs.len() - i,
        {
            let m = machs[i];
            v.push(SweepPoint { mach: m, regimes: regimes(m, hb) });
            i += 1;
        }
        assert(v@ =~= plan_of(*self));
        Ok(v)
    }
}

/// Every geometry is evaluated at exactly the 26 Mach values of the fixed
/// list, one point each, in ascending order.
pub proof fn lemma_plan_covers_sweep(g: ProjectileInput)
    ensures
        plan_of(g).len() == SWEEP_LEN,
        forall|i: int| 0 <= i < SWEEP_LEN ==> (#[trigger] plan_of(g)[i]).mach == sweep()[i],
        forall|i: int, j: int| 0 <= i < j < SWEEP_LEN ==> plan_of(g)[i].mach < plan_of(g)[j].mach,
{
    lemma_sweep_ascending();
}

/// Two geometries equal in all but the nose length.
pub open spec fn differ_in_nose_only(g1: ProjectileInput, g2: ProjectileInput) -> bool {
    &&& g1.ref_diameter == g2.ref_diameter
    &&& g1.total_length == g2.total_length
    &&& g1.rt_r == g2.rt_r
    &&& g1.boattail_length == g2.boattail_length
    &&& g1.base_diameter == g2.base_diameter
    &&& g1.meplat_diameter == g2.meplat_diameter
    &&& g1.band_diameter == g2.band_diameter
    &&& g1.cg_location == g2.cg_location
    &&& g1.boundary_layer == g2.boundary_layer
    &&& g1.identification@ == g2.identification@
}

/// Moving the nose length from below 1 caliber to 1 caliber or more removes
/// the short-nose advisory and leaves every other advisory as it was.
pub proof fn lemma_nose_rule_toggles_alone(g1: ProjectileInput, g2: ProjectileInput)
    requires
        differ_in_nose_only(g1, g2),
        less_than(g1.nose_length.bits, ONE_BITS),
        !less_than(g2.nose_length.bits, ONE_BITS),
    ensures
        diagnostics_of(g1) == seq![Diagnostic::NoseTooShort] + diagnostics_of(g2),
        !diagnostics_of(g2).contains(Diagnostic::NoseTooShort),
{
    assert(shape_advisories(g1) == shape_advisories(g2));
    assert(diagnostics_of(g2) =~= shape_advisories(g2));
    let s = shape_advisories(g2);
    assert(forall|i: int| 0 <= i < s.len() ==> #[trigger] s[i] != Diagnostic::NoseTooShort);
}

/// Two geometries equal in all but the boundary layer.
pub open spec fn differ_in_boundary_layer_only(g1: ProjectileInput, g2: ProjectileInput) -> bool {
    &&& g1.nose_length == g2.nose_length
    &&& g1.ref_diameter == g2.ref_diameter
    &&& g1.total_length == g2.total_length
    &&& g1.rt_r == g2.rt_r
    &&& g1.boattail_length == g2.boattail_length
    &&& g1.base_diameter == g2.base_diameter
    &&& g1.meplat_diameter == g2.meplat_diameter
    &&& g1.band_diameter == g2.band_diameter
    &&& g1.cg_location == g2.cg_location
    &&& g1.identification@ == g2.identification@
}

/// The boundary layer decides no formula choice, no advisory and no validity:
/// for geometries that differ only in it, all three agree.
pub proof fn lemma_boundary_layer_leaves_plan(g1: ProjectileInput, g2: ProjectileInput)
    requires
        differ_in_boundary_layer_only(g1, g2),
    ensures
        plan_of(g1) == plan_of(g2),
        diagnostics_of(g1) == diagnostics_of(g2),
        valid_geometry(g1) == valid_geometry(g2),
{
    assert(has_boattail(g1) == has_boattail(g2));
    assert(plan_of(g1) =~= plan_of(g2));
}

} // verus!
