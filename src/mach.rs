use vstd::prelude::*;

verus! {

/// Number of Mach values in the sweep.
pub const SWEEP_LEN: usize = 26;

/// The fixed Mach sweep, in thousandths of Mach, ascending.
pub open spec fn sweep() -> Seq<u32> {
    seq![
        500, 600, 700, 800, 850, 900, 925, 950, 975, 1000,
        1100, 1200, 1300, 1400, 1500, 1600, 1700, 1800, 2000, 2200,
        2500, 3000, 3500, 4000, 4500, 5000,
    ]
}

/// The sweep holds 26 values and each is larger than the one before.
pub proof fn lemma_sweep_ascending()
    ensures
        sweep().len() == SWEEP_LEN,
        forall|i: int, j: int| 0 <= i < j < sweep().len() ==> sweep()[i] < sweep()[j],
{
    assert forall|i: int, j: int| 0 <= i < j < sweep().len() implies sweep()[i] < sweep()[j] by {
        assert forall|k: int| 0 <= k < sweep().len() - 1 implies sweep()[k] < #[trigger] sweep()[k + 1] by {}
        ascending_from_steps(sweep(), i, j);
    }
}

proof fn ascending_from_steps(s: Seq<u32>, i: int, j: int)
    requires
        0 <= i < j < s.len(),
        forall|k: int| 0 <= k < s.len() - 1 ==> s[k] < #[trigger] s[k + 1],
    ensures
        s[i] < s[j],
    decreases j - i,
{
    let k = j - 1;
    assert(s[k] < s[k + 1]);
    if j > i + 1 {
        ascending_from_steps(s, i, k);
    }
}

/// The Mach sweep, in thousandths of Mach.
pub fn mach_sweep() -> (r: Vec<u32>)
    ensures
        r@ == sweep(),
{
    let r: Vec<u32> = vec![
        500, 600, 700, 800, 850, 900, 925, 950, 975, 1000,
        1100, 1200, 1300, 1400, 1500, 1600, 1700, 1800, 2000, 2200,
        2500, 3000, 3500, 4000, 4500, 5000,
    ];
    assert(r@ =~= sweep());
    r
}

/// Stagnation pressure behind the meplat: isentropic up to Mach 1, behind a
/// normal shock above it.
#[derive(Debug, Clone, Copy, PartialEq, Eq, Structural)]
pub enum MeplatPressure {
    Isentropic,
    NormalShock,
}

/// How much of the meplat wave drag enters the head drag: none up to Mach
/// 0.91, a linear blend in the transonic gap, and a fixed share from Mach 1.41.
#[derive(Debug, Clone, Copy, PartialEq, Eq, Structural)]
pub enum MeplatDrag {
    Absent,
    Blended,
    Full,
}

/// Curve fit of the base pressure: one below Mach 1, one from Mach 1 on.
#[derive(Debug, Clone, Copy, PartialEq, Eq, Structural)]
pub enum BasePressureFit {
    Subsonic,
    Supersonic,
}

/// Rotating band drag: a power law below Mach 0.95, the asymptotic fit above.
#[derive(Debug, Clone, Copy, PartialEq, Eq, Structural)]
pub enum BandDrag {
    PowerLaw,
    Asymptotic,
}

/// Head wave drag: the transonic form up to Mach 1, the supersonic form above.
#[derive(Debug, Clone, Copy, PartialEq, Eq, Structural)]
pub enum HeadDrag {
    Transonic,
    Supersonic,
}

/// Boattail drag: none without a boattail or up to Mach 0.85; then a subsonic
/// form up to Mach 1, a near-sonic form up to Mach 1.1, a supersonic one above.
#[derive(Debug, Clone, Copy, PartialEq, Eq, Structural)]
pub enum BoattailDrag {
    Absent,
    Subsonic,
    NearSonic,
    Supersonic,
}

/// Which empirical formula each drag component takes at one Mach number.
#[derive(Debug, Clone, Copy, PartialEq, Eq, Structural)]
pub struct Regimes {
    pub meplat_pressure: MeplatPressure,
    pub meplat_drag: MeplatDrag,
    pub base_pressure: BasePressureFit,
    pub band: BandDrag,
    pub head: HeadDrag,
    pub boattail: BoattailDrag,
}

/// The decision table of the model over Mach (in thousandths) and boattail
/// presence.
pub open spec fn regimes_of(mach: u32, has_boattail: bool) -> Regimes {
    Regimes {
        meplat_pressure: if mach <= 1000 {
            MeplatPressure::Isentropic
        } else {
            MeplatPressure::NormalShock
        },
        meplat_drag: if mach <= 910 {
            MeplatDrag::Absent
        } else if mach >= 1410 {
            MeplatDrag::Full
        } else {
            MeplatDrag::Blended
        },
        base_pressure: if mach < 1000 {
            BasePressureFit::Subsonic
        } else {
            BasePressureFit::Supersonic
        },
        band: if mach < 950 {
            BandDrag::PowerLaw
        } else {
            BandDrag::Asymptotic
        },
        head: if mach <= 1000 {
            HeadDrag::Transonic
        } else {
            HeadDrag::Supersonic
        },
        boattail: if !has_boattail || mach <= 850 {
            BoattailDrag::Absent
        } else if mach <= 1000 {
            BoattailDrag::Subsonic
        } else if mach <= 1100 {
            BoattailDrag::NearSonic
        } else {
            BoattailDrag::Supersonic
        },
    }
}

/// The formulas that apply at `mach` thousandths of Mach.
pub fn regimes(mach: u32, has_boattail: bool) -> (r: Regimes)
    ensures
        r == regimes_of(mach, has_boattail),
{
    let meplat_pressure = if mach <= 1000 {
        MeplatPressure::Isentropic
    } else {
        MeplatPressure::NormalShock
    };
    let meplat_drag = if mach <= 910 {
        MeplatDrag::Absent
    } else if mach >= 1410 {
        MeplatDrag::Full
    } else {
        MeplatDrag::Blended
    };
    let base_pressure = if mach < 1000 {
        BasePressureFit::Subsonic
    } else {
        BasePressureFit::Supersonic
    };
    let band = if mach < 950 {
        BandDrag::PowerLaw
    } else {
        BandDrag::Asymptotic
    };
    let head = if mach <= 1000 {
        HeadDrag::Transonic
    } else {
        HeadDrag::Supersonic
    };
    let boattail = if !has_boattail || mach <= 850 {
        BoattailDrag::Absent
    } else if mach <= 1000 {
        BoattailDrag::Subsonic
    } else if mach <= 1100 {
        BoattailDrag::NearSonic
    } else {
        BoattailDrag::Supersonic
    };
    Regimes { meplat_pressure, meplat_drag, base_pressure, band, head, boattail }
}

} // verus!
