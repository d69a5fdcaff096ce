use vstd::prelude::*;

verus! {

use crate::csc::clone_vec_u64;

/// The status of the polish operation.
#[derive(Copy, Clone, Debug, Hash, PartialEq, Eq, Structural)]
#[non_exhaustive]
pub enum PolishStatus {
    Successful,
    Unsuccessful,
    Unperformed,
}

/// The polish classification of a foreign polish status code: 1 means
/// successful, -1 unsuccessful, 0 unperformed; everything else is outside
/// the documented codomain.
pub open spec fn spec_polish(code: i64) -> Option<PolishStatus> {
    if code == 1 {
        Some(PolishStatus::Successful)
    } else if code == -1 {
        Some(PolishStatus::Unsuccessful)
    } else if code == 0 {
        Some(PolishStatus::Unperformed)
    } else {
        None
    }
}

impl PolishStatus {
    /// Classifies a foreign polish status code; `None` marks a code outside
    /// the documented codomain.
    pub fn from_raw(code: i64) -> (r: Option<PolishStatus>)
        ensures
            r == spec_polish(code),
    {
        if code == 1 {
            Some(PolishStatus::Successful)
        } else if code == -1 {
            Some(PolishStatus::Unsuccessful)
        } else if code == 0 {
            Some(PolishStatus::Unperformed)
        } else {
            None
        }
    }
}

/// Run statistics read from the foreign resource's info block after a
/// solve.  Times are in seconds, as binary64 bit patterns.
#[derive(Copy, Clone, Debug, PartialEq, Eq, Structural)]
pub struct SolveStats {
    /// The number of iterations taken by the solver.
    pub iter: u32,
    /// The time taken for the setup phase, in seconds as bits.
    pub setup_time: u64,
    /// The time taken for the solve phase, in seconds as bits.
    pub solve_time: u64,
    /// The time taken for the polish phase, in seconds as bits.
    pub polish_time: u64,
    /// The total time taken by the solver, in seconds as bits.
    pub run_time: u64,
    /// The number of rho updates.
    pub rho_updates: u32,
    /// The current best estimate of rho, as bits.
    pub rho_estimate: u64,
}

/// Everything the foreign resource reports after one solve call: the
/// terminal status code, the polish status code, the info block scalars and
/// the solution and certificate buffers, already copied into owned vectors
/// of bit patterns.
pub struct SolveOutput {
    /// The terminal status code.
    pub status_val: i64,
    /// The polish status code.
    pub status_polish: i64,
    /// The primal objective value, as bits.
    pub obj_val: u64,
    /// The norm of the primal residual, as bits.
    pub pri_res: u64,
    /// The norm of the dual residual, as bits.
    pub dua_res: u64,
    /// The number of iterations taken.
    pub iter: u32,
    /// The setup phase time, in seconds as bits.
    pub setup_time: u64,
    /// The solve phase time, in seconds as bits.
    pub solve_time: u64,
    /// The polish phase time, in seconds as bits.
    pub polish_time: u64,
    /// The total time, in seconds as bits.
    pub run_time: u64,
    /// The number of rho updates.
    pub rho_updates: u32,
    /// The current best estimate of rho, as bits.
    pub rho_estimate: u64,
    /// The primal variables at the solution.
    pub x: Vec<u64>,
    /// The dual variables at the solution.
    pub y: Vec<u64>,
    /// The dual infeasibility certificate buffer.
    pub delta_x: Vec<u64>,
    /// The primal infeasibility certificate buffer.
    pub delta_y: Vec<u64>,
}

/// The statistics part of a solve readout.
pub open spec fn stats_of(out: SolveOutput) -> SolveStats {
    SolveStats {
        iter: out.iter,
        setup_time: out.setup_time,
        solve_time: out.solve_time,
        polish_time: out.polish_time,
        run_time: out.run_time,
        rho_updates: out.rho_updates,
        rho_estimate: out.rho_estimate,
    }
}

/// A solution to a problem.
#[derive(Debug)]
pub struct Solution {
    /// The primal variables at the solution, as bits.
    pub x: Vec<u64>,
    /// The dual variables at the solution, as bits.
    pub y: Vec<u64>,
    /// The status of the polish operation.
    pub polish: PolishStatus,
    /// The primal objective value, as bits.
    pub obj_val: u64,
    /// The norm of the primal residual, as bits.
    pub pri_res: u64,
    /// The norm of the dual residual, as bits.
    pub dua_res: u64,
    /// The run statistics.
    pub stats: SolveStats,
}

/// Whether a solution value carries exactly what the solve readout reports.
pub open spec fn solution_reads(s: Solution, out: SolveOutput) -> bool {
    &&& s.x@ == out.x@
    &&& s.y@ == out.y@
    &&& Some(s.polish) == spec_polish(out.status_polish)
    &&& s.obj_val == out.obj_val
    &&& s.pri_res == out.pri_res
    &&& s.dua_res == out.dua_res
    &&& s.stats == stats_of(out)
}

/// A proof of primal infeasibility.
#[derive(Debug)]
pub struct PrimalInfeasibilityCertificate {
    /// The certificate vector, of the constraint count's length, as bits.
    pub delta_y: Vec<u64>,
    /// The run statistics.
    pub stats: SolveStats,
}

/// A proof of dual infeasibility.
#[derive(Debug)]
pub struct DualInfeasibilityCertificate {
    /// The certificate vector, of the variable count's length, as bits.
    pub delta_x: Vec<u64>,
    /// The run statistics.
    pub stats: SolveStats,
}

/// The result of solving a problem.
#[derive(Debug)]
#[non_exhaustive]
pub enum Status {
    Solved(Solution),
    SolvedInaccurate(Solution),
    MaxIterationsReached(Solution),
    PrimalInfeasible(PrimalInfeasibilityCertificate),
    PrimalInfeasibleInaccurate(PrimalInfeasibilityCertificate),
    DualInfeasible(DualInfeasibilityCertificate),
    DualInfeasibleInaccurate(DualInfeasibilityCertificate),
}

/// Whether a terminal status code reports a solution (possibly inaccurate
/// or iteration-limited).
pub open spec fn is_solution_code(v: i64) -> bool {
    v == 1 || v == 2 || v == -2
}

/// Whether a terminal status code is in the foreign resource's documented
/// codomain.
pub open spec fn is_known_status_code(v: i64) -> bool {
    v == 1 || v == 2 || v == -2 || v == -3 || v == 3 || v == -4 || v == 4
}

impl Clone for Solution {
    /// A copy that carries the same vectors and scalars.
    fn clone(&self) -> (r: Solution)
        ensures
            r.x@ == self.x@,
            r.y@ == self.y@,
            r.polish == self.polish,
            r.obj_val == self.obj_val,
            r.pri_res == self.pri_res,
            r.dua_res == self.dua_res,
            r.stats == self.stats,
    {
        Solution {
            x: clone_vec_u64(&self.x),
            y: clone_vec_u64(&self.y),
            polish: self.polish,
            obj_val: self.obj_val,
            pri_res: self.pri_res,
            dua_res: self.dua_res,
            stats: self.stats,
        }
    }
}

impl Status {
    /// Classifies a solve readout by its terminal status code: a solution
    /// for the solved and iteration-limited codes, an infeasibility
    /// certificate for the infeasible codes, and `None` for any code
    /// outside the documented codomain, including a solution whose polish
    /// status code is undocumented.
    pub fn from_raw(out: SolveOutput) -> (r: Option<Status>)
        ensures
            out.status_val == 1 && spec_polish(out.status_polish) is Some ==> (r matches Some(
                Status::Solved(s),
            ) && solution_reads(s, out)),
            out.status_val == 2 && spec_polish(out.status_polish) is Some ==> (r matches Some(
                Status::SolvedInaccurate(s),
            ) && solution_reads(s, out)),
            out.status_val == -2 && spec_polish(out.status_polish) is Some ==> (r matches Some(
                Status::MaxIterationsReached(s),
            ) && solution_reads(s, out)),
            is_solution_code(out.status_val) && spec_polish(out.status_polish) is None ==> r
                is None,
            out.status_val == -3 ==> (r matches Some(Status::PrimalInfeasible(cert))
                && cert.delta_y@ == out.delta_y@ && cert.stats == stats_of(out)),
            out.status_val == 3 ==> (r matches Some(Status::PrimalInfeasibleInaccurate(cert))
                && cert.delta_y@ == out.delta_y@ && cert.stats == stats_of(out)),
            out.status_val == -4 ==> (r matches Some(Status::DualInfeasible(cert))
                && cert.delta_x@ == out.delta_x@ && cert.stats == stats_of(out)),
            out.status_val == 4 ==> (r matches Some(Status::DualInfeasibleInaccurate(cert))
                && cert.delta_x@ == out.delta_x@ && cert.stats == stats_of(out)),
            !is_known_status_code(out.status_val) ==> r is None,
    {
        let stats = SolveStats {
            iter: out.iter,
            setup_time: out.setup_time,
            solve_time: out.solve_time,
            polish_time: out.polish_time,
            run_time: out.run_time,
            rho_updates: out.rho_updates,
            rho_estimate: out.rho_estimate,
        };
        if out.status_val == 1 || out.status_val == 2 || out.status_val == -2 {
            let polish = match PolishStatus::from_raw(out.status_polish) {
                Some(p) => p,
                None => {
                    return None;
                },
            };
            let solution = Solution {
                x: out.x,
                y: out.y,
                polish,
                obj_val: out.obj_val,
                pri_res: out.pri_res,
                dua_res: out.dua_res,
                stats,
            };
            if out.status_val == 1 {
                Some(Status::Solved(solution))
            } else if out.status_val == 2 {
                Some(Status::SolvedInaccurate(solution))
            } else {
                Some(Status::MaxIterationsReached(solution))
            }
        } else if out.status_val == -3 || out.status_val == 3 {
            let cert = PrimalInfeasibilityCertificate { delta_y: out.delta_y, stats };
            if out.status_val == -3 {
                Some(Status::PrimalInfeasible(cert))
            } else {
                Some(Status::PrimalInfeasibleInaccurate(cert))
            }
        } else if out.status_val == -4 || out.status_val == 4 {
            let cert = DualInfeasibilityCertificate { delta_x: out.delta_x, stats };
            if out.status_val == -4 {
                Some(Status::DualInfeasible(cert))
            } else {
                Some(Status::DualInfeasibleInaccurate(cert))
            }
        } else {
            None
        }
    }

    /// The run statistics, available whatever the classification.
    pub open spec fn spec_stats(self) -> SolveStats {
        match self {
            Status::Solved(s) => s.stats,
            Status::SolvedInaccurate(s) => s.stats,
            Status::MaxIterationsReached(s) => s.stats,
            Status::PrimalInfeasible(c) => c.stats,
            Status::PrimalInfeasibleInaccurate(c) => c.stats,
            Status::DualInfeasible(c) => c.stats,
            Status::DualInfeasibleInaccurate(c) => c.stats,
        }
    }

    /// The run statistics carried by any variant.
    fn stats(&self) -> (r: &SolveStats)
        ensures
            *r == self.spec_stats(),
    {
        match self {
            Status::Solved(s) => &s.stats,
            Status::SolvedInaccurate(s) => &s.stats,
            Status::MaxIterationsReached(s) => &s.stats,
            Status::PrimalInfeasible(c) => &c.stats,
            Status::PrimalInfeasibleInaccurate(c) => &c.stats,
            Status::DualInfeasible(c) => &c.stats,
            Status::DualInfeasibleInaccurate(c) => &c.stats,
        }
    }

    /// Returns the solution if the problem is `Solved`.
    pub fn solution(&self) -> (r: Option<Solution>)
        ensures
            match *self {
                Status::Solved(ref s) => (r matches Some(out) && out.x@ == s.x@ && out.y@ == s.y@
                    && out.polish == s.polish && out.obj_val == s.obj_val && out.pri_res
                    == s.pri_res && out.dua_res == s.dua_res && out.stats == s.stats),
                _ => r is None,
            },
    {
        match self {
            Status::Solved(s) => Some(s.clone()),
            _ => None,
        }
    }

    /// Returns the primal variables at the solution if the problem is
    /// `Solved`.
    pub fn x(&self) -> (r: Option<&Vec<u64>>)
        ensures
            match *self {
                Status::Solved(ref s) => (r matches Some(v) && v@ == s.x@),
                _ => r is None,
            },
    {
        match self {
            Status::Solved(s) => Some(&s.x),
            _ => None,
        }
    }

    /// Returns the number of iterations taken by the solver.
    pub fn iter(&self) -> (r: u32)
        ensures
            r == self.spec_stats().iter,
    {
        self.stats().iter
    }

    /// Returns the time taken for the setup phase, in seconds as bits.
    pub fn setup_time(&self) -> (r: u64)
        ensures
            r == self.spec_stats().setup_time,
    {
        self.stats().setup_time
    }

    /// Returns the time taken for the solve phase, in seconds as bits.
    pub fn solve_time(&self) -> (r: u64)
        ensures
            r == self.spec_stats().solve_time,
    {
        self.stats().solve_time
    }

    /// Returns the time taken for the polish phase, in seconds as bits.
    pub fn polish_time(&self) -> (r: u64)
        ensures
            r == self.spec_stats().polish_time,
    {
        self.stats().polish_time
    }

    /// Returns the total time taken by the solver, in seconds as bits.
    ///
    /// This includes the time taken for the setup phase on the first solve.
    pub fn run_time(&self) -> (r: u64)
        ensures
            r == self.spec_stats().run_time,
    {
        self.stats().run_time
    }

    /// Returns the number of rho updates.
    pub fn rho_updates(&self) -> (r: u32)
        ensures
            r == self.spec_stats().rho_updates,
    {
        self.stats().rho_updates
    }

    /// Returns the current best estimate of rho, as bits.
    pub fn rho_estimate(&self) -> (r: u64)
        ensures
            r == self.spec_stats().rho_estimate,
    {
        self.stats().rho_estimate
    }
}

impl Solution {
    /// Returns the primal variables at the solution, as bits.
    pub fn x(&self) -> (r: &Vec<u64>)
        ensures
            r@ == self.x@,
    {
        &self.x
    }

    /// Returns the dual variables at the solution, as bits.
    ///
    /// These are the Lagrange multipliers of the constraints
    /// `l <= Ax <= u`.
    pub fn y(&self) -> (r: &Vec<u64>)
        ensures
            r@ == self.y@,
    {
        &self.y
    }

    /// Returns the status of the polish operation.
    pub fn polish_status(&self) -> (r: PolishStatus)
        ensures
            r == self.polish,
    {
        self.polish
    }

    /// Returns the primal objective value, as bits.
    pub fn obj_val(&self) -> (r: u64)
        ensures
            r == self.obj_val,
    {
        self.obj_val
    }

    /// Returns the norm of the primal residual, as bits.
    pub fn pri_res(&self) -> (r: u64)
        ensures
            r == self.pri_res,
    {
        self.pri_res
    }

    /// Returns the norm of the dual residual, as bits.
    pub fn dua_res(&self) -> (r: u64)
        ensures
            r == self.dua_res,
    {
        self.dua_res
    }
}

impl PrimalInfeasibilityCertificate {
    /// Returns the certificate of primal infeasibility, as bits.
    pub fn delta_y(&self) -> (r: &Vec<u64>)
        ensures
            r@ == self.delta_y@,
    {
        &self.delta_y
    }
}

impl DualInfeasibilityCertificate {
    /// Returns the certificate of dual infeasibility, as bits.
    pub fn delta_x(&self) -> (r: &Vec<u64>)
        ensures
            r@ == self.delta_x@,
    {
        &self.delta_x
    }
}

} // verus!
