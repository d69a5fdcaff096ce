use vstd::prelude::*;

use crate::scalar::is_zero_bits;
use crate::scalar::zero_bits;

verus! {

/// The linear system solver for the foreign resource to use.
#[derive(Clone, Copy, Debug, PartialEq, Eq, Structural)]
#[non_exhaustive]
pub enum LinsysSolver {
    Unknown,
    Direct,
    Indirect,
}

/// The foreign backend selector code of a linear system solver choice.
pub open spec fn spec_linsys_code(s: LinsysSolver) -> i64 {
    match s {
        LinsysSolver::Unknown => 0,
        LinsysSolver::Direct => 1,
        LinsysSolver::Indirect => 2,
    }
}

impl LinsysSolver {
    /// The foreign backend selector code of this choice.
    pub fn code(&self) -> (r: i64)
        ensures
            r == spec_linsys_code(*self),
    {
        match self {
            LinsysSolver::Unknown => 0,
            LinsysSolver::Direct => 1,
            LinsysSolver::Indirect => 2,
        }
    }
}

// Default tuning parameters, as the solver documents them.  Fractional
// values are binary64 bit patterns.
/// Bits of the default ADMM step 0.1.
pub const DEFAULT_RHO: u64 = 0x3FB999999999999A;

/// Bits of the default ADMM step 1e-6, also the default polishing
/// regularization parameter.
pub const DEFAULT_SIGMA: u64 = 0x3EB0C6F7A0B5ED8D;

/// Bits of the default rho-adaptation tolerance 5.0.
pub const DEFAULT_ADAPTIVE_RHO_TOLERANCE: u64 = 0x4014000000000000;

/// Bits of the default rho-adaptation setup-time fraction 0.4.
pub const DEFAULT_ADAPTIVE_RHO_FRACTION: u64 = 0x3FD999999999999A;

/// Bits of the default convergence tolerance 1e-3.
pub const DEFAULT_EPS: u64 = 0x3F50624DD2F1A9FC;

/// Bits of the default infeasibility tolerance 1e-4.
pub const DEFAULT_EPS_INF: u64 = 0x3F1A36E2EB1C432D;

/// Bits of the default relaxation parameter 1.6.
pub const DEFAULT_ALPHA: u64 = 0x3FF999999999999A;

/// Bits of the smallest accepted time limit, 1e-12 seconds.  A zero time
/// limit would mean "no limit" to the foreign resource, so an exact zero is
/// replaced by this value.
pub const TIME_LIMIT_MIN: u64 = 0x3D719799812DEA11;

/// The tuning parameters in the foreign resource's own representation:
/// fractional values as binary64 bit patterns, counts and toggles as the
/// foreign index width (toggles are 0 or 1, disabled optional counts are 0).
#[derive(Clone, Copy, Debug, PartialEq, Eq, Structural)]
pub struct SettingsData {
    /// The ADMM step rho, as bits.
    pub rho: u64,
    /// The ADMM step sigma, as bits.
    pub sigma: u64,
    /// The number of heuristic data scaling iterations; 0 disables scaling.
    pub scaling: i64,
    /// Whether rho is chosen adaptively.
    pub adaptive_rho: i64,
    /// The number of iterations between rho adaptations; 0 means automatic.
    pub adaptive_rho_interval: i64,
    /// The tolerance for adapting rho, as bits.
    pub adaptive_rho_tolerance: u64,
    /// The interval for adapting rho as a fraction of the setup time, as
    /// bits.
    pub adaptive_rho_fraction: u64,
    /// The maximum number of ADMM iterations.
    pub max_iter: i64,
    /// The absolute convergence tolerance, as bits.
    pub eps_abs: u64,
    /// The relative convergence tolerance, as bits.
    pub eps_rel: u64,
    /// The primal infeasibility tolerance, as bits.
    pub eps_prim_inf: u64,
    /// The dual infeasibility tolerance, as bits.
    pub eps_dual_inf: u64,
    /// The linear solver relaxation parameter, as bits.
    pub alpha: u64,
    /// The linear system solver backend selector.
    pub linsys_solver: i64,
    /// The polishing regularization parameter, as bits.
    pub delta: u64,
    /// Whether the ADMM solution is polished.
    pub polishing: i64,
    /// The number of iterative refinement steps when polishing.
    pub polish_refine_iter: i64,
    /// Whether progress is written to stdout.
    pub verbose: i64,
    /// Whether termination criteria are scaled.
    pub scaled_termination: i64,
    /// The number of ADMM iterations between termination checks; 0 disables
    /// checking.
    pub check_termination: i64,
    /// Whether the primal and dual variables are warm started from the
    /// previous solution.
    pub warm_starting: i64,
    /// The solve time limit in seconds, as bits; an exact zero means no
    /// limit.
    pub time_limit: u64,
}

/// The solver's documented default tuning parameters.
pub open spec fn default_settings_data() -> SettingsData {
    SettingsData {
        rho: DEFAULT_RHO,
        sigma: DEFAULT_SIGMA,
        scaling: 10,
        adaptive_rho: 1,
        adaptive_rho_interval: 0,
        adaptive_rho_tolerance: DEFAULT_ADAPTIVE_RHO_TOLERANCE,
        adaptive_rho_fraction: DEFAULT_ADAPTIVE_RHO_FRACTION,
        max_iter: 4000,
        eps_abs: DEFAULT_EPS,
        eps_rel: DEFAULT_EPS,
        eps_prim_inf: DEFAULT_EPS_INF,
        eps_dual_inf: DEFAULT_EPS_INF,
        alpha: DEFAULT_ALPHA,
        linsys_solver: 1,
        delta: DEFAULT_SIGMA,
        polishing: 0,
        polish_refine_iter: 3,
        verbose: 1,
        scaled_termination: 0,
        check_termination: 25,
        warm_starting: 1,
        time_limit: 0,
    }
}

/// The settings used when initialising a solver.
///
/// Each setter consumes the value and returns a new one, so a configuration
/// is built fluently.  Counts arrive as `u32` and are widened into the
/// 64-bit foreign index width, where every `u32` fits; fractional values
/// arrive as binary64 bit patterns.
#[derive(Clone, Copy, Debug)]
pub struct Settings {
    /// The parameter block in the foreign resource's representation.
    pub inner: SettingsData,
}

/// Widens a caller-supplied count into the foreign index width.  The foreign
/// index here is 64 bits wide, so every `u32` fits; on a narrower index this
/// conversion would be where an oversized value is rejected.
pub fn index_from_u32(value: u32) -> (r: i64)
    ensures
        r == value as i64,
        0 <= r <= i64::MAX,
{
    value as i64
}

/// Maps an optional count to the foreign representation: the reserved value
/// 0 stands for "automatic/disabled".
pub fn index_from_option_u32(value: Option<u32>) -> (r: i64)
    ensures
        r == match value {
            Some(v) => v as i64,
            None => 0,
        },
{
    match value {
        Some(v) => index_from_u32(v),
        None => 0,
    }
}

/// Maps a toggle to the foreign representation.
pub fn index_from_bool(value: bool) -> (r: i64)
    ensures
        r == if value {
            1i64
        } else {
            0i64
        },
{
    if value {
        1
    } else {
        0
    }
}

impl Default for Settings {
    /// The solver-supplied defaults.
    fn default() -> (r: Settings)
        ensures
            r.inner == default_settings_data(),
    {
        Settings {
            inner: SettingsData {
                rho: DEFAULT_RHO,
                sigma: DEFAULT_SIGMA,
                scaling: 10,
                adaptive_rho: 1,
                adaptive_rho_interval: 0,
                adaptive_rho_tolerance: DEFAULT_ADAPTIVE_RHO_TOLERANCE,
                adaptive_rho_fraction: DEFAULT_ADAPTIVE_RHO_FRACTION,
                max_iter: 4000,
                eps_abs: DEFAULT_EPS,
                eps_rel: DEFAULT_EPS,
                eps_prim_inf: DEFAULT_EPS_INF,
                eps_dual_inf: DEFAULT_EPS_INF,
                alpha: DEFAULT_ALPHA,
                linsys_solver: 1,
                delta: DEFAULT_SIGMA,
                polishing: 0,
                polish_refine_iter: 3,
                verbose: 1,
                scaled_termination: 0,
                check_termination: 25,
                warm_starting: 1,
                time_limit: 0,
            },
        }
    }
}

impl Settings {
    /// Sets the ADMM step rho, as bits.
    pub fn rho(self, value: u64) -> (r: Settings)
        ensures
            r.inner == (SettingsData { rho: value, ..self.inner }),
    {
        Settings { inner: SettingsData { rho: value, ..self.inner } }
    }

    /// Sets the ADMM step sigma, as bits.
    pub fn sigma(self, value: u64) -> (r: Settings)
        ensures
            r.inner == (SettingsData { sigma: value, ..self.inner }),
    {
        Settings { inner: SettingsData { sigma: value, ..self.inner } }
    }

    /// Sets the number of heuristic data scaling iterations.
    ///
    /// If `None` scaling is disabled.
    pub fn scaling(self, value: Option<u32>) -> (r: Settings)
        ensures
            r.inner == (SettingsData {
                scaling: match value {
                    Some(v) => v as i64,
                    None => 0,
                },
                ..self.inner
            }),
    {
        Settings { inner: SettingsData { scaling: index_from_option_u32(value), ..self.inner } }
    }

    /// Enables choosing rho adaptively.
    pub fn adaptive_rho(self, value: bool) -> (r: Settings)
        ensures
            r.inner == (SettingsData {
                adaptive_rho: if value {
                    1i64
                } else {
                    0i64
                },
                ..self.inner
            }),
    {
        Settings { inner: SettingsData { adaptive_rho: index_from_bool(value), ..self.inner } }
    }

    /// Sets the number of iterations between rho adaptations.
    ///
    /// If `None` it is automatic.
    pub fn adaptive_rho_interval(self, value: Option<u32>) -> (r: Settings)
        ensures
            r.inner == (SettingsData {
                adaptive_rho_interval: match value {
                    Some(v) => v as i64,
                    None => 0,
                },
                ..self.inner
            }),
    {
        Settings {
            inner: SettingsData {
                adaptive_rho_interval: index_from_option_u32(value),
                ..self.inner
            },
        }
    }

    /// Sets the tolerance for adapting rho, as bits.
    ///
    /// The new rho has to be `value` times larger or `1/value` times smaller
    /// than the current rho to trigger a new factorization.
    pub fn adaptive_rho_tolerance(self, value: u64) -> (r: Settings)
        ensures
            r.inner == (SettingsData { adaptive_rho_tolerance: value, ..self.inner }),
    {
        Settings { inner: SettingsData { adaptive_rho_tolerance: value, ..self.inner } }
    }

    /// Sets the interval for adapting rho as a fraction of the setup time,
    /// as bits.
    pub fn adaptive_rho_fraction(self, value: u64) -> (r: Settings)
        ensures
            r.inner == (SettingsData { adaptive_rho_fraction: value, ..self.inner }),
    {
        Settings { inner: SettingsData { adaptive_rho_fraction: value, ..self.inner } }
    }

    /// Sets the maximum number of ADMM iterations.
    pub fn max_iter(self, value: u32) -> (r: Settings)
        ensures
            r.inner == (SettingsData { max_iter: value as i64, ..self.inner }),
    {
        Settings { inner: SettingsData { max_iter: index_from_u32(value), ..self.inner } }
    }

    /// Sets the absolute convergence tolerance, as bits.
    pub fn eps_abs(self, value: u64) -> (r: Settings)
        ensures
            r.inner == (SettingsData { eps_abs: value, ..self.inner }),
    {
        Settings { inner: SettingsData { eps_abs: value, ..self.inner } }
    }

    /// Sets the relative convergence tolerance, as bits.
    pub fn eps_rel(self, value: u64) -> (r: Settings)
        ensures
            r.inner == (SettingsData { eps_rel: value, ..self.inner }),
    {
        Settings { inner: SettingsData { eps_rel: value, ..self.inner } }
    }

    /// Sets the primal infeasibility tolerance, as bits.
    pub fn eps_prim_inf(self, value: u64) -> (r: Settings)
        ensures
            r.inner == (SettingsData { eps_prim_inf: value, ..self.inner }),
    {
        Settings { inner: SettingsData { eps_prim_inf: value, ..self.inner } }
    }

    /// Sets the dual infeasibility tolerance, as bits.
    pub fn eps_dual_inf(self, value: u64) -> (r: Settings)
        ensures
            r.inner == (SettingsData { eps_dual_inf: value, ..self.inner }),
    {
        Settings { inner: SettingsData { eps_dual_inf: value, ..self.inner } }
    }

    /// Sets the linear solver relaxation parameter, as bits.
    pub fn alpha(self, value: u64) -> (r: Settings)
        ensures
            r.inner == (SettingsData { alpha: value, ..self.inner }),
    {
        Settings { inner: SettingsData { alpha: value, ..self.inner } }
    }

    /// Sets the linear system solver to use.
    pub fn linsys_solver(self, value: LinsysSolver) -> (r: Settings)
        ensures
            r.inner == (SettingsData { linsys_solver: spec_linsys_code(value), ..self.inner }),
    {
        Settings { inner: SettingsData { linsys_solver: value.code(), ..self.inner } }
    }

    /// Sets the polishing regularization parameter, as bits.
    pub fn delta(self, value: u64) -> (r: Settings)
        ensures
            r.inner == (SettingsData { delta: value, ..self.inner }),
    {
        Settings { inner: SettingsData { delta: value, ..self.inner } }
    }

    /// Enables polishing the ADMM solution.
    pub fn polishing(self, value: bool) -> (r: Settings)
        ensures
            r.inner == (SettingsData {
                polishing: if value {
                    1i64
                } else {
                    0i64
                },
                ..self.inner
            }),
    {
        Settings { inner: SettingsData { polishing: index_from_bool(value), ..self.inner } }
    }

    /// Sets the number of iterative refinement steps to use when polishing.
    pub fn polish_refine_iter(self, value: u32) -> (r: Settings)
        ensures
            r.inner == (SettingsData { polish_refine_iter: value as i64, ..self.inner }),
    {
        Settings { inner: SettingsData { polish_refine_iter: index_from_u32(value), ..self.inner } }
    }

    /// Enables writing progress to stdout.
    pub fn verbose(self, value: bool) -> (r: Settings)
        ensures
            r.inner == (SettingsData {
                verbose: if value {
                    1i64
                } else {
                    0i64
                },
                ..self.inner
            }),
    {
        Settings { inner: SettingsData { verbose: index_from_bool(value), ..self.inner } }
    }

    /// Enables scaled termination criteria.
    pub fn scaled_termination(self, value: bool) -> (r: Settings)
        ensures
            r.inner == (SettingsData {
                scaled_termination: if value {
                    1i64
                } else {
                    0i64
                },
                ..self.inner
            }),
    {
        Settings { inner: SettingsData { scaled_termination: index_from_bool(value), ..self.inner } }
    }

    /// Sets the number of ADMM iterations between termination checks.
    ///
    /// If `None` termination checking is disabled.
    pub fn check_termination(self, value: Option<u32>) -> (r: Settings)
        ensures
            r.inner == (SettingsData {
                check_termination: match value {
                    Some(v) => v as i64,
                    None => 0,
                },
                ..self.inner
            }),
    {
        Settings {
            inner: SettingsData { check_termination: index_from_option_u32(value), ..self.inner },
        }
    }

    /// Enables warm starting the primal and dual variables from the previous
    /// solution.
    pub fn warm_starting(self, value: bool) -> (r: Settings)
        ensures
            r.inner == (SettingsData {
                warm_starting: if value {
                    1i64
                } else {
                    0i64
                },
                ..self.inner
            }),
    {
        Settings { inner: SettingsData { warm_starting: index_from_bool(value), ..self.inner } }
    }

    /// Sets the solve time limit, in seconds as bits; `None` removes the
    /// limit.
    ///
    /// An exact zero would mean "no limit" to the foreign resource, so it is
    /// treated as the smallest accepted limit instead.
    pub fn time_limit(self, value: Option<u64>) -> (r: Settings)
        ensures
            r.inner == (SettingsData {
                time_limit: match value {
                    Some(b) => if is_zero_bits(b) {
                        TIME_LIMIT_MIN
                    } else {
                        b
                    },
                    None => 0,
                },
                ..self.inner
            }),
    {
        let limit = match value {
            Some(b) => if zero_bits(b) {
                TIME_LIMIT_MIN
            } else {
                b
            },
            None => 0,
        };
        Settings { inner: SettingsData { time_limit: limit, ..self.inner } }
    }
}

} // verus!
