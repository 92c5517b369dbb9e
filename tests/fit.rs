use gradfit::cost::{compute_cost, predict};
use gradfit::dataset::{Dataset, FitError, MAX_ROWS, MAX_SAMPLE};
use gradfit::descent::{
    cost_difference, derivative, derivative_from_costs, fit, step, update_params, update_weight,
    Hyper, MAX_PARAM,
};
use gradfit::fixed::{div_toward_zero, SCALE};
use gradfit::trainer::{predictions, random_initial_weight, Phase, Trainer, INITIAL_WEIGHT_LIMIT};

fn doubling() -> Dataset {
    Dataset::new(vec![(0, 0), (1, 2), (2, 4), (3, 6), (4, 8), (5, 10)]).unwrap()
}

#[test]
fn linear_model_converges_to_two() {
    let data = doubling();
    let hyper = Hyper { eps: 1000, learning_rate: 1000, iterations: 1000, report_every: 100 };
    for w0 in [0i64, 50 * SCALE, 99 * SCALE] {
        let w = fit(&data, w0, &hyper).unwrap();
        assert!((w - 2 * SCALE).abs() <= 50_000, "weight {} from {}", w, w0);
        assert!(compute_cost(&data, w) < 1000);
    }
}

#[test]
fn cost_is_zero_at_exact_fit() {
    assert_eq!(compute_cost(&doubling(), 2 * SCALE), 0);
}

#[test]
fn cost_is_mean_squared_error() {
    // errors are x * 1.0, squares sum to 55, mean 55 / 6
    assert_eq!(compute_cost(&doubling(), 3 * SCALE), 9_166_666);
}

#[test]
fn cost_is_never_negative() {
    let data = doubling();
    for w in [-MAX_PARAM, -7 * SCALE, -1, 0, 1, SCALE, 3 * SCALE, MAX_PARAM] {
        assert!(compute_cost(&data, w) >= 0);
    }
}

#[test]
fn cost_is_deterministic() {
    let data = doubling();
    let again = doubling();
    assert_eq!(compute_cost(&data, 1_234_567), compute_cost(&data, 1_234_567));
    assert_eq!(compute_cost(&data, 1_234_567), compute_cost(&again, 1_234_567));
}

#[test]
fn single_row_cost_is_its_squared_error() {
    let data = Dataset::new(vec![(3, 5)]).unwrap();
    // 3 * 1.0 - 5 = -2, squared 4
    assert_eq!(compute_cost(&data, SCALE), 4 * SCALE as i128);
}

#[test]
fn derivative_numerator_is_cost_difference() {
    let data = doubling();
    let w = 3 * SCALE;
    let direct = compute_cost(&data, w + 1000) - compute_cost(&data, w);
    assert_eq!(cost_difference(&data, w, 1000), direct);
    assert_eq!(direct, 18_343);
    assert_eq!(derivative(&data, w, 1000), 18_343_000);
    assert_eq!(derivative_from_costs(compute_cost(&data, w), compute_cost(&data, w + 1000), 1000), 18_343_000);
}

#[test]
fn derivative_sign_follows_cost() {
    let data = doubling();
    assert!(derivative(&data, 3 * SCALE, 1000) > 0);
    assert!(derivative(&data, SCALE, 1000) < 0);
    assert!(cost_difference(&data, SCALE, 1000) < 0);
}

#[test]
fn step_matches_update_rule() {
    let data = doubling();
    let rep = step(&data, 3 * SCALE, &Hyper::long_run()).unwrap();
    assert_eq!(rep.cost, 9_166_666);
    assert_eq!(rep.derivative, 18_343_000);
    assert_eq!(rep.weight_before, 3 * SCALE);
    assert_eq!(rep.weight_after, 2_981_657);
}

#[test]
fn update_is_elementwise() {
    let before = vec![SCALE, -2 * SCALE, 0];
    let derivatives = vec![500_000i128, -1_000_000, 0];
    let after = update_params(&before, &derivatives, 100_000).unwrap();
    assert_eq!(after, vec![950_000, -1_900_000, 0]);
}

#[test]
fn update_rounds_toward_zero() {
    assert_eq!(update_weight(0, -1, 999_999), Ok(0));
    assert_eq!(update_weight(0, 1, 999_999), Ok(0));
    assert_eq!(div_toward_zero(-7, 2), -3);
    assert_eq!(div_toward_zero(7, 2), 3);
}

#[test]
fn update_reports_divergence() {
    assert_eq!(update_weight(MAX_PARAM, -SCALE as i128, SCALE), Err(FitError::Diverged));
    assert_eq!(update_weight(0, i128::MAX, i64::MAX), Err(FitError::Diverged));
    assert_eq!(
        update_params(&vec![0, MAX_PARAM], &vec![0, -(SCALE as i128)], SCALE),
        Err(FitError::Diverged)
    );
}

#[test]
fn fit_reports_divergence() {
    let data = doubling();
    let hyper = Hyper { eps: 1000, learning_rate: 10 * SCALE, iterations: 100, report_every: 1 };
    assert_eq!(fit(&data, 99 * SCALE, &hyper), Err(FitError::Diverged));
}

#[test]
fn empty_dataset_is_refused() {
    assert_eq!(Dataset::new(vec![]).err(), Some(FitError::EmptyDataset));
}

#[test]
fn out_of_range_sample_is_refused() {
    assert_eq!(Dataset::new(vec![(1, 2), (MAX_SAMPLE + 1, 0)]).err(), Some(FitError::SampleOutOfRange));
    assert_eq!(Dataset::new(vec![(0, MAX_SAMPLE + 1)]).err(), Some(FitError::SampleOutOfRange));
    assert!(Dataset::new(vec![(MAX_SAMPLE, MAX_SAMPLE)]).is_ok());
}

#[test]
fn too_many_rows_is_refused() {
    assert_eq!(Dataset::new(vec![(1, 1); MAX_ROWS + 1]).err(), Some(FitError::TooManyRows));
    assert_eq!(Dataset::new(vec![(1, 1); MAX_ROWS]).unwrap().len(), MAX_ROWS);
}

#[test]
fn predictions_scale_inputs() {
    let data = doubling();
    assert_eq!(predict(4, 2_500_000), 10_000_000);
    assert_eq!(
        predictions(&data, 2 * SCALE),
        vec![0, 2_000_000, 4_000_000, 6_000_000, 8_000_000, 10_000_000]
    );
}

#[test]
fn random_weight_lies_in_range() {
    for _ in 0..100 {
        let w = random_initial_weight();
        assert!(0 <= w && w < INITIAL_WEIGHT_LIMIT);
    }
}

#[test]
fn trainer_walks_through_phases() {
    let mut t = Trainer::new(doubling(), Hyper::short_run(), 3 * SCALE).unwrap();
    assert_eq!(t.phase(), Phase::Initialized);
    assert!(!t.should_report());
    let rep = t.advance().unwrap();
    assert_eq!(rep.weight_after, 2_981_657);
    assert_eq!(t.weight, 2_981_657);
    assert_eq!(t.phase(), Phase::Training);
    assert!(t.should_report());
    for _ in 1..10 {
        t.advance().unwrap();
    }
    assert_eq!(t.phase(), Phase::Done);
    assert_eq!(Ok(t.weight), fit(&doubling(), 3 * SCALE, &Hyper::short_run()));
}

#[test]
fn trainer_reports_on_cadence() {
    let mut t = Trainer::new(doubling(), Hyper::long_run(), 50 * SCALE).unwrap();
    let mut reported = 0;
    while t.phase() != Phase::Done {
        t.advance().unwrap();
        if t.should_report() {
            reported += 1;
        }
    }
    assert_eq!(reported, 5);
}

#[test]
fn trainer_refuses_bad_configuration() {
    let bad_eps = Hyper { eps: 0, learning_rate: 1000, iterations: 1, report_every: 1 };
    assert!(matches!(Trainer::new(doubling(), bad_eps, 0), Err(FitError::ParameterOutOfRange)));
    let no_cadence = Hyper { eps: 1000, learning_rate: 1000, iterations: 1, report_every: 0 };
    assert!(matches!(Trainer::new(doubling(), no_cadence, 0), Err(FitError::ParameterOutOfRange)));
    assert!(matches!(
        Trainer::new(doubling(), Hyper::short_run(), MAX_PARAM + 1),
        Err(FitError::ParameterOutOfRange)
    ));
}

#[test]
fn named_configurations() {
    let s = Hyper::short_run();
    assert_eq!((s.eps, s.learning_rate, s.iterations, s.report_every), (1000, 1000, 10, 1));
    let l = Hyper::long_run();
    assert_eq!((l.eps, l.learning_rate, l.iterations, l.report_every), (1000, 1000, 500, 100));
}
