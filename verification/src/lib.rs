//! A safe interface to a native convex-quadratic-program solver working on
//! sparse matrices.
//!
//! Callers supply a quadratic objective matrix `P`, a linear cost vector
//! `q`, a sparse constraint matrix `A` and box bounds `l <= Ax <= u`.  This
//! crate holds everything about that interface that can be reasoned about
//! over plain values: the Compressed-Sparse-Column matrix model with its
//! validity and triangularity invariants (`csc`), the tuning-parameter
//! block (`settings`), the problem lifecycle — validation, cached sparsity
//! structure, in-place updates, release-once teardown (`Problem`) — and the
//! classification of solver outcomes (`status`).  The iterative algorithm
//! itself runs in the native solver library behind a thin unverified
//! boundary that owns the foreign resource and converts values at the
//! edge; binary64 values travel through this crate as their bit patterns
//! (`scalar`).

#![allow(non_snake_case)]

pub mod csc;
pub mod scalar;
pub mod settings;
pub mod status;

pub use csc::CscMatrix;
pub use settings::LinsysSolver;
pub use settings::Settings;
pub use status::DualInfeasibilityCertificate;
pub use status::PolishStatus;
pub use status::PrimalInfeasibilityCertificate;
pub use status::Solution;
pub use status::Status;

use vstd::prelude::*;

verus! {

use crate::csc::CscModel;
use crate::csc::eq_usize_vecs;
use crate::scalar::float_le;
use crate::scalar::le_bits;

/// The reason a setup input was rejected, or that the foreign resource
/// reported its own data validation failure (`Unspecified`).
#[derive(Clone, Copy, Debug, PartialEq, Eq, Structural)]
#[non_exhaustive]
pub enum DataError {
    QuadNotSquare,
    CostLength,
    ConstraintCols,
    LowerBoundLength,
    UpperBoundLength,
    BoundsInconsistent,
    QuadInvalid,
    ConstraintInvalid,
    QuadNotUpperTri,
    Unspecified,
}

impl DataError {
    /// A short description of the rejection.
    pub fn message(&self) -> (r: &'static str)
        ensures
            *self is QuadNotSquare ==> r@ == "P must be a square matrix"@,
            *self is CostLength ==> r@ == "q must be the same number of rows as P"@,
            *self is ConstraintCols ==> r@ == "A must have the same number of columns as P"@,
            *self is LowerBoundLength ==> r@ == "l must have the same number of rows as A"@,
            *self is UpperBoundLength ==> r@ == "u must have the same number of rows as A"@,
            *self is BoundsInconsistent ==> r@
                == "all elements of l must be less than or equal to the corresponding element of u"@,
            *self is QuadInvalid ==> r@ == "P must be a valid CSC matrix"@,
            *self is ConstraintInvalid ==> r@ == "A must be a valid CSC matrix"@,
            *self is QuadNotUpperTri ==> r@ == "P must be structurally upper triangular"@,
            *self is Unspecified ==> r@ == ""@,
    {
        match self {
            DataError::QuadNotSquare => "P must be a square matrix",
            DataError::CostLength => "q must be the same number of rows as P",
            DataError::ConstraintCols => "A must have the same number of columns as P",
            DataError::LowerBoundLength => "l must have the same number of rows as A",
            DataError::UpperBoundLength => "u must have the same number of rows as A",
            DataError::BoundsInconsistent => "all elements of l must be less than or equal to the corresponding element of u",
            DataError::QuadInvalid => "P must be a valid CSC matrix",
            DataError::ConstraintInvalid => "A must be a valid CSC matrix",
            DataError::QuadNotUpperTri => "P must be structurally upper triangular",
            DataError::Unspecified => "",
        }
    }
}

/// An error that can occur when setting up the solver.
#[derive(Clone, Copy, Debug, PartialEq, Eq, Structural)]
#[non_exhaustive]
pub enum SetupError {
    DataInvalid(DataError),
    SettingsInvalid,
    LinsysSolverLoadFailed,
    LinsysSolverInitFailed,
    NonConvex,
    MemoryAllocationFailed,
}

impl SetupError {
    /// A short description of the error.
    pub fn message(&self) -> (r: &'static str)
        ensures
            *self is DataInvalid ==> r@ == "problem data invalid"@,
            *self is SettingsInvalid ==> r@ == "problem settings invalid"@,
            *self is LinsysSolverLoadFailed ==> r@ == "linear system solver failed to load"@,
            *self is LinsysSolverInitFailed ==> r@ == "linear system solver failed to initialise"@,
            *self is NonConvex ==> r@ == "problem non-convex"@,
            *self is MemoryAllocationFailed ==> r@ == "memory allocation failed"@,
    {
        match self {
            SetupError::DataInvalid(_) => "problem data invalid",
            SetupError::SettingsInvalid => "problem settings invalid",
            SetupError::LinsysSolverLoadFailed => "linear system solver failed to load",
            SetupError::LinsysSolverInitFailed => "linear system solver failed to initialise",
            SetupError::NonConvex => "problem non-convex",
            SetupError::MemoryAllocationFailed => "memory allocation failed",
        }
    }
}

/// Whether every lower bound is at most the corresponding upper bound; a
/// NaN on either side fails the comparison, as it does on the values
/// themselves.
pub open spec fn bounds_ok(l: Seq<u64>, u: Seq<u64>) -> bool {
    forall|i: int| 0 <= i < l.len() ==> float_le(#[trigger] l[i], u[i])
}

/// The first check of the setup order that the inputs fail, if any:
/// dimension cross-checks, bound consistency, structural validity of both
/// matrices, then structural upper triangularity of the quadratic matrix.
pub open spec fn setup_check(
    P: CscModel,
    q: Seq<u64>,
    A: CscModel,
    l: Seq<u64>,
    u: Seq<u64>,
) -> Result<(), DataError> {
    if P.ncols != P.nrows {
        Err(DataError::QuadNotSquare)
    } else if q.len() != P.nrows {
        Err(DataError::CostLength)
    } else if A.ncols != P.nrows {
        Err(DataError::ConstraintCols)
    } else if l.len() != A.nrows {
        Err(DataError::LowerBoundLength)
    } else if u.len() != A.nrows {
        Err(DataError::UpperBoundLength)
    } else if !bounds_ok(l, u) {
        Err(DataError::BoundsInconsistent)
    } else if !P.valid() {
        Err(DataError::QuadInvalid)
    } else if !A.valid() {
        Err(DataError::ConstraintInvalid)
    } else if !P.upper_tri() {
        Err(DataError::QuadNotUpperTri)
    } else {
        Ok(())
    }
}

/// Whether the inputs pass every local setup check.
pub open spec fn setup_ok(P: CscModel, q: Seq<u64>, A: CscModel, l: Seq<u64>, u: Seq<u64>) -> bool {
    setup_check(P, q, A, l, u) is Ok
}

/// The abstract state of a problem handle: the cached dimensions and
/// sparsity structures used to vet later updates, and the problem data the
/// foreign resource currently holds.
#[verifier::ext_equal]
pub ghost struct ProblemModel {
    /// The number of variables.
    pub n: usize,
    /// The number of constraints.
    pub m: usize,
    /// The cached column pointers of the quadratic matrix.
    pub p_indptr: Seq<usize>,
    /// The cached row indices of the quadratic matrix.
    pub p_indices: Seq<usize>,
    /// The cached column pointers of the constraint matrix.
    pub a_indptr: Seq<usize>,
    /// The cached row indices of the constraint matrix.
    pub a_indices: Seq<usize>,
    /// The current linear cost vector.
    pub q: Seq<u64>,
    /// The current lower bounds.
    pub l: Seq<u64>,
    /// The current upper bounds.
    pub u: Seq<u64>,
    /// The current values of the quadratic matrix.
    pub p_vals: Seq<u64>,
    /// The current values of the constraint matrix.
    pub a_vals: Seq<u64>,
    /// The current ADMM step rho, as bits.
    pub rho: u64,
    /// The most recent primal warm start, if any.
    pub warm_x: Option<Seq<u64>>,
    /// The most recent dual warm start, if any.
    pub warm_y: Option<Seq<u64>>,
    /// Whether the foreign resource has been released.
    pub released: bool,
}

/// The quadratic matrix the handle's state describes.
pub open spec fn p_model(pm: ProblemModel) -> CscModel {
    CscModel {
        nrows: pm.n,
        ncols: pm.n,
        indptr: pm.p_indptr,
        indices: pm.p_indices,
        data: pm.p_vals,
    }
}

/// The constraint matrix the handle's state describes.
pub open spec fn a_model(pm: ProblemModel) -> CscModel {
    CscModel {
        nrows: pm.m,
        ncols: pm.n,
        indptr: pm.a_indptr,
        indices: pm.a_indices,
        data: pm.a_vals,
    }
}

/// Well-formedness of a handle's state: the described matrices are valid,
/// the quadratic one upper triangular, and every vector has its declared
/// length.
pub open spec fn problem_wf(pm: ProblemModel) -> bool {
    &&& p_model(pm).valid()
    &&& p_model(pm).upper_tri()
    &&& a_model(pm).valid()
    &&& pm.q.len() == pm.n
    &&& pm.l.len() == pm.m
    &&& pm.u.len() == pm.m
    &&& (pm.warm_x matches Some(x) ==> x.len() == pm.n)
    &&& (pm.warm_y matches Some(y) ==> y.len() == pm.m)
}

/// Whether a replacement quadratic matrix carries exactly the cached
/// sparsity structure, so that only numeric values change.
pub open spec fn matches_p_structure(pm: ProblemModel, P: CscModel) -> bool {
    &&& P.nrows == pm.n
    &&& P.ncols == pm.n
    &&& P.indptr == pm.p_indptr
    &&& P.indices == pm.p_indices
    &&& P.data.len() == pm.p_indices.len()
}

/// Whether a replacement constraint matrix carries exactly the cached
/// sparsity structure.
pub open spec fn matches_a_structure(pm: ProblemModel, A: CscModel) -> bool {
    &&& A.nrows == pm.m
    &&& A.ncols == pm.n
    &&& A.indptr == pm.a_indptr
    &&& A.indices == pm.a_indices
    &&& A.data.len() == pm.a_indices.len()
}

/// The error of an in-place matrix update whose sparsity structure differs
/// from the one fixed at setup.
#[derive(Clone, Copy, Debug, PartialEq, Eq, Structural)]
#[non_exhaustive]
pub enum UpdateError {
    StructureMismatch,
}

/// An instance of the solver: the validated problem state behind one
/// foreign solver resource.
///
/// The handle caches the dimensions and the sparsity structures fixed at
/// setup and vets every later update against them, because the foreign
/// resource can only replace numeric values at fixed offsets.  The problem
/// data itself is tracked in ghost state.
pub struct Problem {
    n: usize,
    m: usize,
    p_indptr: Vec<usize>,
    p_indices: Vec<usize>,
    a_indptr: Vec<usize>,
    a_indices: Vec<usize>,
    q_cur: Ghost<Seq<u64>>,
    l_cur: Ghost<Seq<u64>>,
    u_cur: Ghost<Seq<u64>>,
    p_vals: Ghost<Seq<u64>>,
    a_vals: Ghost<Seq<u64>>,
    rho_cur: Ghost<u64>,
    warm_x: Ghost<Option<Seq<u64>>>,
    warm_y: Ghost<Option<Seq<u64>>>,
    released: bool,
}

impl View for Problem {
    type V = ProblemModel;

    closed spec fn view(&self) -> ProblemModel {
        ProblemModel {
            n: self.n,
            m: self.m,
            p_indptr: self.p_indptr@,
            p_indices: self.p_indices@,
            a_indptr: self.a_indptr@,
            a_indices: self.a_indices@,
            q: self.q_cur@,
            l: self.l_cur@,
            u: self.u_cur@,
            p_vals: self.p_vals@,
            a_vals: self.a_vals@,
            rho: self.rho_cur@,
            warm_x: self.warm_x@,
            warm_y: self.warm_y@,
            released: self.released,
        }
    }
}

/// Checks that every lower bound is at most the corresponding upper bound.
#[verifier::loop_isolation(false)]
fn check_bounds(l: &Vec<u64>, u: &Vec<u64>) -> (r: bool)
    requires
        l@.len() == u@.len(),
    ensures
        r == bounds_ok(l@, u@),
{
    let mut i: usize = 0;
    while i < l.len()
        invariant
            i <= l@.len(),
            forall|t: int| 0 <= t < i ==> float_le(#[trigger] l@[t], u@[t]),
        decreases l.len() - i,
    {
        if !le_bits(l[i], u[i]) {
            return false;
        }
        i += 1;
    }
    true
}

impl Problem {
    /// Validates the problem and initialises the handle's state.
    ///
    /// The inputs are vetted in the setup order before the foreign resource
    /// would ever be invoked: dimension cross-checks, elementwise bound
    /// consistency, structural validity of both matrices, and structural
    /// upper triangularity of the quadratic matrix.  The first failing
    /// check is returned as a typed data error; nothing of the foreign
    /// resource is touched by this function.
    pub fn new(
        P: CscMatrix,
        q: &Vec<u64>,
        A: CscMatrix,
        l: &Vec<u64>,
        u: &Vec<u64>,
        settings: &Settings,
    ) -> (r: Result<Problem, SetupError>)
        ensures
            r is Ok <==> setup_ok(P@, q@, A@, l@, u@),
            r matches Err(e) ==> (setup_check(P@, q@, A@, l@, u@) matches Err(d) && e
                == SetupError::DataInvalid(d)),
            r matches Ok(p) ==> p@ == (ProblemModel {
                n: P@.nrows,
                m: A@.nrows,
                p_indptr: P@.indptr,
                p_indices: P@.indices,
                a_indptr: A@.indptr,
                a_indices: A@.indices,
                q: q@,
                l: l@,
                u: u@,
                p_vals: P@.data,
                a_vals: A@.data,
                rho: settings.inner.rho,
                warm_x: None,
                warm_y: None,
                released: false,
            }) && problem_wf(p@),
    {
        let n = P.nrows;
        if P.ncols != n {
            return Err(SetupError::DataInvalid(DataError::QuadNotSquare));
        }
        if q.len() != n {
            return Err(SetupError::DataInvalid(DataError::CostLength));
        }
        if A.ncols != n {
            return Err(SetupError::DataInvalid(DataError::ConstraintCols));
        }
        let m = A.nrows;
        if l.len() != m {
            return Err(SetupError::DataInvalid(DataError::LowerBoundLength));
        }
        if u.len() != m {
            return Err(SetupError::DataInvalid(DataError::UpperBoundLength));
        }
        if !check_bounds(l, u) {
            return Err(SetupError::DataInvalid(DataError::BoundsInconsistent));
        }
        if !P.is_valid() {
            return Err(SetupError::DataInvalid(DataError::QuadInvalid));
        }
        if !A.is_valid() {
            return Err(SetupError::DataInvalid(DataError::ConstraintInvalid));
        }
        if !P.is_structurally_upper_tri() {
            return Err(SetupError::DataInvalid(DataError::QuadNotUpperTri));
        }
        let problem = Problem {
            n,
            m,
            p_indptr: P.indptr,
            p_indices: P.indices,
            a_indptr: A.indptr,
            a_indices: A.indices,
            q_cur: Ghost(q@),
            l_cur: Ghost(l@),
            u_cur: Ghost(u@),
            p_vals: Ghost(P.data@),
            a_vals: Ghost(A.data@),
            rho_cur: Ghost(settings.inner.rho),
            warm_x: Ghost(None),
            warm_y: Ghost(None),
            released: false,
        };
        Ok(problem)
    }

    /// Sets the linear part of the cost function to `q`.
    ///
    /// The length of `q` must be the number of problem variables.
    pub fn update_lin_cost(&mut self, q: &Vec<u64>)
        requires
            !old(self)@.released,
            q@.len() == old(self)@.n,
        ensures
            final(self)@ == (ProblemModel { q: q@, ..old(self)@ }),
    {
        self.q_cur = Ghost(q@);
    }

    /// Sets the lower and upper bounds of the constraints to `l` and `u`.
    ///
    /// The lengths of `l` and `u` must be the number of problem
    /// constraints.
    pub fn update_bounds(&mut self, l: &Vec<u64>, u: &Vec<u64>)
        requires
            !old(self)@.released,
            l@.len() == old(self)@.m,
            u@.len() == old(self)@.m,
        ensures
            final(self)@ == (ProblemModel { l: l@, u: u@, ..old(self)@ }),
    {
        self.l_cur = Ghost(l@);
        self.u_cur = Ghost(u@);
    }

    /// Sets the lower bound of the constraints to `l`.
    ///
    /// The length of `l` must be the number of problem constraints.
    pub fn update_lower_bound(&mut self, l: &Vec<u64>)
        requires
            !old(self)@.released,
            l@.len() == old(self)@.m,
        ensures
            final(self)@ == (ProblemModel { l: l@, ..old(self)@ }),
    {
        self.l_cur = Ghost(l@);
    }

    /// Sets the upper bound of the constraints to `u`.
    ///
    /// The length of `u` must be the number of problem constraints.
    pub fn update_upper_bound(&mut self, u: &Vec<u64>)
        requires
            !old(self)@.released,
            u@.len() == old(self)@.m,
        ensures
            final(self)@ == (ProblemModel { u: u@, ..old(self)@ }),
    {
        self.u_cur = Ghost(u@);
    }

    /// Warm starts the primal variables at `x` and the dual variables at
    /// `y`.
    ///
    /// The length of `x` must be the number of problem variables and the
    /// length of `y` the number of problem constraints.
    pub fn warm_start(&mut self, x: &Vec<u64>, y: &Vec<u64>)
        requires
            !old(self)@.released,
            x@.len() == old(self)@.n,
            y@.len() == old(self)@.m,
        ensures
            final(self)@ == (ProblemModel {
                warm_x: Some(x@),
                warm_y: Some(y@),
                ..old(self)@
            }),
    {
        self.warm_x = Ghost(Some(x@));
        self.warm_y = Ghost(Some(y@));
    }

    /// Warm starts the primal variables at `x`.
    ///
    /// The length of `x` must be the number of problem variables.
    pub fn warm_start_x(&mut self, x: &Vec<u64>)
        requires
            !old(self)@.released,
            x@.len() == old(self)@.n,
        ensures
            final(self)@ == (ProblemModel { warm_x: Some(x@), ..old(self)@ }),
    {
        self.warm_x = Ghost(Some(x@));
    }

    /// Warm starts the dual variables at `y`.
    ///
    /// The length of `y` must be the number of problem constraints.
    pub fn warm_start_y(&mut self, y: &Vec<u64>)
        requires
            !old(self)@.released,
            y@.len() == old(self)@.m,
        ensures
            final(self)@ == (ProblemModel { warm_y: Some(y@), ..old(self)@ }),
    {
        self.warm_y = Ghost(Some(y@));
    }

    /// Updates the elements of the quadratic matrix without changing its
    /// sparsity structure.
    ///
    /// The structure of `P` is compared against the structure cached at
    /// setup; the set and order of stored positions must be identical,
    /// because the foreign resource only replaces values at fixed offsets.
    /// A mismatch leaves the state unchanged.
    pub fn update_P(&mut self, P: &CscMatrix) -> (r: Result<(), UpdateError>)
        requires
            !old(self)@.released,
        ensures
            r is Ok <==> matches_p_structure(old(self)@, P@),
            r is Ok ==> final(self)@ == (ProblemModel { p_vals: P@.data, ..old(self)@ }),
            r is Err ==> final(self)@ == old(self)@ && r == Err::<(), UpdateError>(
                UpdateError::StructureMismatch,
            ),
    {
        if self.check_p_structure(P) {
            self.p_vals = Ghost(P.data@);
            Ok(())
        } else {
            Err(UpdateError::StructureMismatch)
        }
    }

    /// Updates the elements of the constraint matrix without changing its
    /// sparsity structure.
    ///
    /// The structure of `A` is compared against the structure cached at
    /// setup; a mismatch leaves the state unchanged.
    pub fn update_A(&mut self, A: &CscMatrix) -> (r: Result<(), UpdateError>)
        requires
            !old(self)@.released,
        ensures
            r is Ok <==> matches_a_structure(old(self)@, A@),
            r is Ok ==> final(self)@ == (ProblemModel { a_vals: A@.data, ..old(self)@ }),
            r is Err ==> final(self)@ == old(self)@ && r == Err::<(), UpdateError>(
                UpdateError::StructureMismatch,
            ),
    {
        if self.check_a_structure(A) {
            self.a_vals = Ghost(A.data@);
            Ok(())
        } else {
            Err(UpdateError::StructureMismatch)
        }
    }

    /// Updates the elements of both matrices without changing their
    /// sparsity structures.
    ///
    /// Both structures are vetted before either value block is replaced, so
    /// a mismatch on either side leaves the whole state unchanged.
    pub fn update_P_and_A(&mut self, P: &CscMatrix, A: &CscMatrix) -> (r: Result<(), UpdateError>)
        requires
            !old(self)@.released,
        ensures
            r is Ok <==> matches_p_structure(old(self)@, P@) && matches_a_structure(
                old(self)@,
                A@,
            ),
            r is Ok ==> final(self)@ == (ProblemModel {
                p_vals: P@.data,
                a_vals: A@.data,
                ..old(self)@
            }),
            r is Err ==> final(self)@ == old(self)@ && r == Err::<(), UpdateError>(
                UpdateError::StructureMismatch,
            ),
    {
        if self.check_p_structure(P) && self.check_a_structure(A) {
            self.p_vals = Ghost(P.data@);
            self.a_vals = Ghost(A.data@);
            Ok(())
        } else {
            Err(UpdateError::StructureMismatch)
        }
    }

    /// Sets the ADMM step rho, as bits.
    pub fn update_rho(&mut self, value: u64)
        requires
            !old(self)@.released,
        ensures
            final(self)@ == (ProblemModel { rho: value, ..old(self)@ }),
    {
        self.rho_cur = Ghost(value);
    }

    /// Marks the foreign resource as released.  A handle can be released
    /// only once.
    pub fn release(&mut self)
        requires
            !old(self)@.released,
        ensures
            final(self)@ == (ProblemModel { released: true, ..old(self)@ }),
    {
        self.released = true;
    }

    /// Whether the foreign resource has been released.
    pub fn is_released(&self) -> (r: bool)
        ensures
            r == self@.released,
    {
        self.released
    }

    /// The number of problem variables.
    pub fn var_count(&self) -> (r: usize)
        ensures
            r == self@.n,
    {
        self.n
    }

    /// The number of problem constraints.
    pub fn constraint_count(&self) -> (r: usize)
        ensures
            r == self@.m,
    {
        self.m
    }

    /// Whether `P` carries exactly the cached quadratic sparsity structure.
    fn check_p_structure(&self, P: &CscMatrix) -> (r: bool)
        ensures
            r == matches_p_structure(self@, P@),
    {
        P.nrows == self.n && P.ncols == self.n && eq_usize_vecs(&P.indptr, &self.p_indptr)
            && eq_usize_vecs(&P.indices, &self.p_indices) && P.data.len() == self.p_nnz()
    }

    /// Whether `A` carries exactly the cached constraint sparsity
    /// structure.
    fn check_a_structure(&self, A: &CscMatrix) -> (r: bool)
        ensures
            r == matches_a_structure(self@, A@),
    {
        A.nrows == self.m && A.ncols == self.n && eq_usize_vecs(&A.indptr, &self.a_indptr)
            && eq_usize_vecs(&A.indices, &self.a_indices) && A.data.len() == self.a_nnz()
    }

    /// The cached number of stored entries of the quadratic matrix.
    pub fn p_nnz(&self) -> (r: usize)
        ensures
            r == self@.p_indices.len(),
    {
        self.p_indices.len()
    }

    /// The cached number of stored entries of the constraint matrix.
    pub fn a_nnz(&self) -> (r: usize)
        ensures
            r == self@.a_indices.len(),
    {
        self.a_indices.len()
    }
}

/// What the wrapper around the foreign resource must do after the foreign
/// setup call has returned.
#[derive(Clone, Copy, Debug, PartialEq, Eq, Structural)]
pub enum SetupFollowup {
    /// Setup succeeded: keep the resource and build the handle.
    Proceed,
    /// Setup failed with the given error; release the partially allocated
    /// resource first exactly when one was allocated.
    Abandon { error: SetupError, release: bool },
}

/// The typed setup error of a foreign setup status code, `None` outside the
/// documented codomain.
pub open spec fn spec_setup_error(code: i64) -> Option<SetupError> {
    if code == 1 {
        Some(SetupError::DataInvalid(DataError::Unspecified))
    } else if code == 2 {
        Some(SetupError::SettingsInvalid)
    } else if code == 3 {
        Some(SetupError::LinsysSolverLoadFailed)
    } else if code == 4 {
        Some(SetupError::LinsysSolverInitFailed)
    } else if code == 5 {
        Some(SetupError::NonConvex)
    } else if code == 6 {
        Some(SetupError::MemoryAllocationFailed)
    } else {
        None
    }
}

/// The follow-up a foreign setup status code and the allocation state call
/// for: proceed on success, abandon with a typed error on a documented
/// failure, and nothing (fatal) on an undocumented code.
pub open spec fn spec_setup_followup(code: i64, allocated: bool) -> Option<SetupFollowup> {
    if code == 0 {
        Some(SetupFollowup::Proceed)
    } else {
        match spec_setup_error(code) {
            Some(e) => Some(SetupFollowup::Abandon { error: e, release: allocated }),
            None => None,
        }
    }
}

/// Decides what to do after the foreign setup call: `allocated` says
/// whether a (possibly partial) resource exists.  Returns `None` for a
/// status code outside the documented codomain, which is fatal.
pub fn setup_followup(code: i64, allocated: bool) -> (r: Option<SetupFollowup>)
    ensures
        r == spec_setup_followup(code, allocated),
{
    if code == 0 {
        Some(SetupFollowup::Proceed)
    } else {
        let error = if code == 1 {
            SetupError::DataInvalid(DataError::Unspecified)
        } else if code == 2 {
            SetupError::SettingsInvalid
        } else if code == 3 {
            SetupError::LinsysSolverLoadFailed
        } else if code == 4 {
            SetupError::LinsysSolverInitFailed
        } else if code == 5 {
            SetupError::NonConvex
        } else if code == 6 {
            SetupError::MemoryAllocationFailed
        } else {
            return None;
        };
        Some(SetupFollowup::Abandon { error, release: allocated })
    }
}

/// The foreign resource allocated by one setup call is released exactly
/// once.  The follow-up instructs an immediate release exactly when setup
/// failed with a documented error while a resource was allocated; it
/// instructs keeping the resource exactly when setup succeeded, and the
/// handle built in that case can be released only once by its own
/// contract; and it never instructs both, nor a release when nothing was
/// allocated.
pub proof fn lemma_setup_release_exactly_once(code: i64, allocated: bool)
    ensures
        spec_setup_followup(code, allocated) == Some(SetupFollowup::Proceed) <==> code == 0,
        (match spec_setup_followup(code, allocated) {
            Some(SetupFollowup::Abandon { release, .. }) => release,
            _ => false,
        }) <==> (allocated && 1 <= code <= 6),
        !allocated ==> (match spec_setup_followup(code, allocated) {
            Some(SetupFollowup::Abandon { release, .. }) => !release,
            _ => true,
        }),
{
}

} // verus!
