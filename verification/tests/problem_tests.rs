#![allow(non_snake_case)]

use osqp::csc::CscMatrix;
use osqp::settings::TIME_LIMIT_MIN;
use osqp::status::SolveOutput;
use osqp::DataError;
use osqp::LinsysSolver;
use osqp::PolishStatus;
use osqp::Problem;
use osqp::Settings;
use osqp::SetupError;
use osqp::SetupFollowup;
use osqp::Status;
use osqp::setup_followup;

fn row(vals: &[f64]) -> Vec<u64> {
    vals.iter().map(|v| v.to_bits()).collect()
}

fn table(rows_in: &[&[f64]]) -> Vec<Vec<u64>> {
    rows_in.iter().map(|r| row(r)).collect()
}

fn reference_P() -> CscMatrix {
    CscMatrix::from_rows(&table(&[&[4.0, 1.0], &[1.0, 2.0]])).into_upper_tri()
}

fn reference_A() -> CscMatrix {
    CscMatrix::from_rows(&table(&[&[1.0, 1.0], &[1.0, 0.0], &[0.0, 1.0]]))
}

fn output(status_val: i64, status_polish: i64, x: &[f64], y: &[f64]) -> SolveOutput {
    SolveOutput {
        status_val,
        status_polish,
        obj_val: 1.88f64.to_bits(),
        pri_res: 0.0f64.to_bits(),
        dua_res: 0.0f64.to_bits(),
        iter: 25,
        setup_time: 0.001f64.to_bits(),
        solve_time: 0.002f64.to_bits(),
        polish_time: 0.0f64.to_bits(),
        run_time: 0.003f64.to_bits(),
        rho_updates: 1,
        rho_estimate: 0.1f64.to_bits(),
        x: row(x),
        y: row(y),
        delta_x: row(x),
        delta_y: row(y),
    }
}

#[test]
fn update_settings() {
    // Directly update some settings using methods on the Settings object
    let settings = Settings::default().alpha(0.7f64.to_bits()).verbose(false);
    let settings = settings.adaptive_rho(true);

    assert_eq!(settings.inner.alpha, 0.7f64.to_bits());
    assert_eq!(settings.inner.verbose, 0);
    assert_eq!(settings.inner.adaptive_rho, 1);
}

#[test]
fn default_settings_match_documented_values() {
    let inner = Settings::default().inner;
    assert_eq!(inner.rho, 0.1f64.to_bits());
    assert_eq!(inner.sigma, 1e-6f64.to_bits());
    assert_eq!(inner.adaptive_rho_tolerance, 5.0f64.to_bits());
    assert_eq!(inner.adaptive_rho_fraction, 0.4f64.to_bits());
    assert_eq!(inner.eps_abs, 1e-3f64.to_bits());
    assert_eq!(inner.eps_prim_inf, 1e-4f64.to_bits());
    assert_eq!(inner.alpha, 1.6f64.to_bits());
    assert_eq!(inner.delta, 1e-6f64.to_bits());
    assert_eq!(inner.scaling, 10);
    assert_eq!(inner.max_iter, 4000);
    assert_eq!(inner.polish_refine_iter, 3);
    assert_eq!(inner.check_termination, 25);
    assert_eq!(inner.warm_starting, 1);
    assert_eq!(inner.time_limit, 0);
}

#[test]
fn optional_settings_use_reserved_zero() {
    let s = Settings::default().scaling(None).check_termination(None);
    assert_eq!(s.inner.scaling, 0);
    assert_eq!(s.inner.check_termination, 0);
    let s = s.scaling(Some(7)).check_termination(Some(3));
    assert_eq!(s.inner.scaling, 7);
    assert_eq!(s.inner.check_termination, 3);
}

#[test]
fn time_limit_zero_maps_to_smallest_limit() {
    let s = Settings::default().time_limit(Some(0.0f64.to_bits()));
    assert_eq!(s.inner.time_limit, TIME_LIMIT_MIN);
    assert_eq!(s.inner.time_limit, 1e-12f64.to_bits());
    let s = s.time_limit(Some(2.5f64.to_bits()));
    assert_eq!(s.inner.time_limit, 2.5f64.to_bits());
    let s = s.time_limit(None);
    assert_eq!(s.inner.time_limit, 0);
}

#[test]
fn linsys_solver_codes() {
    assert_eq!(Settings::default().linsys_solver(LinsysSolver::Unknown).inner.linsys_solver, 0);
    assert_eq!(Settings::default().linsys_solver(LinsysSolver::Direct).inner.linsys_solver, 1);
    assert_eq!(Settings::default().linsys_solver(LinsysSolver::Indirect).inner.linsys_solver, 2);
}

#[test]
fn setup_reference_problem() {
    let P = reference_P();
    assert_eq!(&row(&[4.0, 1.0, 2.0])[..], &P.data[..]);
    let q = row(&[1.0, 1.0]);
    let A = reference_A();
    let l = row(&[1.0, 0.0, 0.0]);
    let u = row(&[1.0, 0.7, 0.7]);

    let prob = Problem::new(P, &q, A, &l, &u, &Settings::default()).unwrap();
    assert_eq!(prob.var_count(), 2);
    assert_eq!(prob.constraint_count(), 3);
    assert_eq!(prob.p_nnz(), 3);
    assert_eq!(prob.a_nnz(), 4);

    // A successful solve readout classifies as Solved with the right shapes.
    let status = Status::from_raw(output(1, 1, &[0.299, 0.701], &[-2.9, 0.0, 0.2])).unwrap();
    match status {
        Status::Solved(s) => {
            assert_eq!(s.x().len(), 2);
            assert_eq!(s.y().len(), 3);
            assert_eq!(s.polish_status(), PolishStatus::Successful);
        }
        _ => panic!("expected Solved"),
    }
}

#[test]
fn setup_rejects_inconsistent_bounds() {
    let q = row(&[1.0, 1.0]);
    let l = row(&[1.0, 0.8, 0.0]);
    let u = row(&[1.0, 0.5, 0.7]);
    let err = Problem::new(reference_P(), &q, reference_A(), &l, &u, &Settings::default())
        .err()
        .unwrap();
    assert!(matches!(err, SetupError::DataInvalid(DataError::BoundsInconsistent)));

    // A NaN bound cannot satisfy the comparison either.
    let l = row(&[1.0, f64::NAN, 0.0]);
    let u = row(&[1.0, 0.5, 0.7]);
    let err = Problem::new(reference_P(), &q, reference_A(), &l, &u, &Settings::default())
        .err()
        .unwrap();
    assert!(matches!(err, SetupError::DataInvalid(DataError::BoundsInconsistent)));
}

#[test]
fn setup_rejects_each_malformed_input() {
    let q2 = row(&[1.0, 1.0]);
    let l = row(&[1.0, 0.0, 0.0]);
    let u = row(&[1.0, 0.7, 0.7]);

    let P_rect = CscMatrix::from_rows(&table(&[&[1.0, 2.0, 3.0], &[4.0, 5.0, 6.0]]));
    let err = Problem::new(P_rect, &q2, reference_A(), &l, &u, &Settings::default())
        .err()
        .unwrap();
    assert!(matches!(err, SetupError::DataInvalid(DataError::QuadNotSquare)));

    let q3 = row(&[1.0, 1.0, 1.0]);
    let err = Problem::new(reference_P(), &q3, reference_A(), &l, &u, &Settings::default())
        .err()
        .unwrap();
    assert!(matches!(err, SetupError::DataInvalid(DataError::CostLength)));

    let A_wide = CscMatrix::from_rows(&table(&[&[1.0, 1.0, 1.0], &[1.0, 0.0, 0.0]]));
    let err = Problem::new(reference_P(), &q2, A_wide, &l, &u, &Settings::default())
        .err()
        .unwrap();
    assert!(matches!(err, SetupError::DataInvalid(DataError::ConstraintCols)));

    let l_short = row(&[1.0, 0.0]);
    let err = Problem::new(reference_P(), &q2, reference_A(), &l_short, &u, &Settings::default())
        .err()
        .unwrap();
    assert!(matches!(err, SetupError::DataInvalid(DataError::LowerBoundLength)));

    let u_short = row(&[1.0, 0.7]);
    let err = Problem::new(reference_P(), &q2, reference_A(), &l, &u_short, &Settings::default())
        .err()
        .unwrap();
    assert!(matches!(err, SetupError::DataInvalid(DataError::UpperBoundLength)));

    let P_bad = CscMatrix {
        nrows: 2,
        ncols: 2,
        indptr: vec![0, 3],
        indices: vec![0, 1, 0],
        data: row(&[4.0, 1.0, 2.0]),
    };
    let err = Problem::new(P_bad, &q2, reference_A(), &l, &u, &Settings::default())
        .err()
        .unwrap();
    assert!(matches!(err, SetupError::DataInvalid(DataError::QuadInvalid)));

    let A_bad = CscMatrix {
        nrows: 3,
        ncols: 2,
        indptr: vec![0, 2, 2],
        indices: vec![0, 7],
        data: row(&[1.0, 1.0]),
    };
    let err = Problem::new(reference_P(), &q2, A_bad, &l, &u, &Settings::default())
        .err()
        .unwrap();
    assert!(matches!(err, SetupError::DataInvalid(DataError::ConstraintInvalid)));

    let P_full = CscMatrix::from_rows(&table(&[&[4.0, 1.0], &[1.0, 2.0]]));
    let err = Problem::new(P_full, &q2, reference_A(), &l, &u, &Settings::default())
        .err()
        .unwrap();
    assert!(matches!(err, SetupError::DataInvalid(DataError::QuadNotUpperTri)));
}

#[test]
fn update_A_structure_checks() {
    let q = row(&[1.0, 1.0]);
    let l = row(&[1.0, 0.0, 0.0]);
    let u = row(&[1.0, 0.7, 0.7]);
    let mut prob =
        Problem::new(reference_P(), &q, reference_A(), &l, &u, &Settings::default()).unwrap();

    // A zero-filled matrix of the same declared sparsity: the zeros are
    // explicit stored entries, not omissions.
    let A_zero = CscMatrix {
        nrows: 3,
        ncols: 2,
        indptr: vec![0, 2, 4],
        indices: vec![0, 1, 0, 2],
        data: row(&[0.0, 0.0, 0.0, 0.0]),
    };
    assert!(prob.update_A(&A_zero).is_ok());

    // A genuinely different sparsity pattern is refused.
    let A_diff = CscMatrix::from_rows(&table(&[&[1.0, 1.0], &[0.0, 0.0], &[1.0, 1.0]]));
    assert!(prob.update_A(&A_diff).is_err());
}

#[test]
fn update_P_structure_checks() {
    let q = row(&[1.0, 1.0]);
    let l = row(&[1.0, 0.0, 0.0]);
    let u = row(&[1.0, 0.7, 0.7]);
    let mut prob =
        Problem::new(reference_P(), &q, reference_A(), &l, &u, &Settings::default()).unwrap();

    let P_new = CscMatrix {
        nrows: 2,
        ncols: 2,
        indptr: vec![0, 1, 3],
        indices: vec![0, 0, 1],
        data: row(&[5.0, 1.5, 2.5]),
    };
    assert!(prob.update_P(&P_new).is_ok());

    let P_diff = CscMatrix::from_rows(&table(&[&[4.0, 0.0], &[0.0, 2.0]]));
    assert!(prob.update_P(&P_diff).is_err());
    assert!(prob.update_P_and_A(&P_new, &reference_A()).is_ok());
}

#[test]
fn empty_A() {
    let P = reference_P();
    let q = row(&[1.0, 1.0]);

    let A = CscMatrix::from_column_iter_dense(0, 2, &row(&[]));
    let l = row(&[]);
    let u = row(&[]);
    let mut prob =
        Problem::new(P.clone(), &q, A.clone(), &l, &u, &Settings::default()).unwrap();
    assert!(prob.update_A(&A).is_ok());

    let A = CscMatrix::from_rows(&table(&[&[0.0, 0.0], &[0.0, 0.0]]));
    assert_eq!(A.data.len(), 0);
    let l = row(&[0.0, 0.0]);
    let u = row(&[1.0, 1.0]);
    let mut prob = Problem::new(P, &q, A.clone(), &l, &u, &Settings::default()).unwrap();
    assert!(prob.update_A(&A).is_ok());
}

#[test]
fn vector_updates_accepted() {
    let q = row(&[1.0, 1.0]);
    let l = row(&[1.0, 0.0, 0.0]);
    let u = row(&[1.0, 0.7, 0.7]);
    let mut prob =
        Problem::new(reference_P(), &q, reference_A(), &l, &u, &Settings::default()).unwrap();

    prob.update_lin_cost(&row(&[2.0, 3.0]));
    prob.update_bounds(&row(&[0.0, 0.0, 0.0]), &row(&[2.0, 2.0, 2.0]));
    prob.update_lower_bound(&row(&[0.5, 0.0, 0.0]));
    prob.update_upper_bound(&row(&[2.0, 1.0, 1.0]));
    prob.warm_start(&row(&[0.3, 0.7]), &row(&[0.0, 0.0, 0.0]));
    prob.warm_start_x(&row(&[0.3, 0.7]));
    prob.warm_start_y(&row(&[0.0, 0.0, 0.2]));
    prob.update_rho(0.7f64.to_bits());
    assert!(!prob.is_released());
}

#[test]
fn classify_terminal_status() {
    assert!(matches!(
        Status::from_raw(output(1, 0, &[0.0], &[0.0])),
        Some(Status::Solved(_))
    ));
    assert!(matches!(
        Status::from_raw(output(2, 0, &[0.0], &[0.0])),
        Some(Status::SolvedInaccurate(_))
    ));
    assert!(matches!(
        Status::from_raw(output(-2, -1, &[0.0], &[0.0])),
        Some(Status::MaxIterationsReached(_))
    ));
    assert!(matches!(
        Status::from_raw(output(-3, 0, &[0.0], &[0.0])),
        Some(Status::PrimalInfeasible(_))
    ));
    assert!(matches!(
        Status::from_raw(output(3, 0, &[0.0], &[0.0])),
        Some(Status::PrimalInfeasibleInaccurate(_))
    ));
    assert!(matches!(
        Status::from_raw(output(-4, 0, &[0.0], &[0.0])),
        Some(Status::DualInfeasible(_))
    ));
    assert!(matches!(
        Status::from_raw(output(4, 0, &[0.0], &[0.0])),
        Some(Status::DualInfeasibleInaccurate(_))
    ));
    // Codes outside the documented codomain are fatal.
    assert!(Status::from_raw(output(-10, 0, &[0.0], &[0.0])).is_none());
    assert!(Status::from_raw(output(7, 0, &[0.0], &[0.0])).is_none());
    // So is an undocumented polish status on a solution.
    assert!(Status::from_raw(output(1, 9, &[0.0], &[0.0])).is_none());
    // But the polish status does not matter for a certificate.
    assert!(Status::from_raw(output(-3, 9, &[0.0], &[0.0])).is_some());
}

#[test]
fn polish_status_classification() {
    assert_eq!(PolishStatus::from_raw(1), Some(PolishStatus::Successful));
    assert_eq!(PolishStatus::from_raw(-1), Some(PolishStatus::Unsuccessful));
    assert_eq!(PolishStatus::from_raw(0), Some(PolishStatus::Unperformed));
    assert_eq!(PolishStatus::from_raw(2), None);
}

#[test]
fn status_accessors_report_readout() {
    let status = Status::from_raw(output(1, 0, &[0.3, 0.7], &[0.0, 0.0, 0.2])).unwrap();
    assert_eq!(status.iter(), 25);
    assert_eq!(status.setup_time(), 0.001f64.to_bits());
    assert_eq!(status.solve_time(), 0.002f64.to_bits());
    assert_eq!(status.polish_time(), 0.0f64.to_bits());
    assert_eq!(status.run_time(), 0.003f64.to_bits());
    assert_eq!(status.rho_updates(), 1);
    assert_eq!(status.rho_estimate(), 0.1f64.to_bits());
    let solution = status.solution().unwrap();
    assert_eq!(solution.obj_val(), 1.88f64.to_bits());
    assert_eq!(solution.x(), &row(&[0.3, 0.7]));
    assert_eq!(solution.y(), &row(&[0.0, 0.0, 0.2]));
    assert_eq!(status.x().unwrap(), &row(&[0.3, 0.7]));

    let infeasible = Status::from_raw(output(-3, 0, &[0.1], &[5.0])).unwrap();
    assert!(infeasible.solution().is_none());
    assert!(infeasible.x().is_none());
    match infeasible {
        Status::PrimalInfeasible(cert) => assert_eq!(cert.delta_y(), &row(&[5.0])),
        _ => panic!("expected PrimalInfeasible"),
    }
    let dual = Status::from_raw(output(-4, 0, &[0.1], &[5.0])).unwrap();
    match dual {
        Status::DualInfeasible(cert) => assert_eq!(cert.delta_x(), &row(&[0.1])),
        _ => panic!("expected DualInfeasible"),
    }
}

#[test]
fn setup_error_messages() {
    assert_eq!(
        SetupError::DataInvalid(DataError::QuadNotSquare).message(),
        "problem data invalid"
    );
    assert_eq!(DataError::QuadNotSquare.message(), "P must be a square matrix");
    assert_eq!(SetupError::NonConvex.message(), "problem non-convex");
    assert_eq!(SetupError::MemoryAllocationFailed.message(), "memory allocation failed");
}

struct StubResource {
    cleanups: u32,
}

impl StubResource {
    fn cleanup(&mut self) {
        self.cleanups += 1;
    }
}

#[test]
fn resource_released_exactly_once_on_partial_setup() {
    // A documented setup failure after partial allocation: the follow-up
    // instructs exactly one release of the partial resource.
    let mut stub = StubResource { cleanups: 0 };
    match setup_followup(5, true).unwrap() {
        SetupFollowup::Abandon { error, release } => {
            assert!(matches!(error, SetupError::NonConvex));
            assert!(release);
            if release {
                stub.cleanup();
            }
        }
        SetupFollowup::Proceed => panic!("expected Abandon"),
    }
    assert_eq!(stub.cleanups, 1);

    // A failure before anything was allocated instructs no release.
    match setup_followup(6, false).unwrap() {
        SetupFollowup::Abandon { error, release } => {
            assert!(matches!(error, SetupError::MemoryAllocationFailed));
            assert!(!release);
        }
        SetupFollowup::Proceed => panic!("expected Abandon"),
    }

    // An undocumented code is fatal rather than silently handled.
    assert!(setup_followup(-1, true).is_none());

    // On success the handle owns the resource and is released exactly once.
    assert!(matches!(setup_followup(0, true), Some(SetupFollowup::Proceed)));
    let q = row(&[1.0, 1.0]);
    let l = row(&[1.0, 0.0, 0.0]);
    let u = row(&[1.0, 0.7, 0.7]);
    let mut prob =
        Problem::new(reference_P(), &q, reference_A(), &l, &u, &Settings::default()).unwrap();
    let mut owned = StubResource { cleanups: 0 };
    assert!(!prob.is_released());
    prob.release();
    owned.cleanup();
    assert!(prob.is_released());
    assert_eq!(owned.cleanups, 1);
}
