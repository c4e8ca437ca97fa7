use plato_threshold::adaptive::{confidence, is_warmed_up, record_sample, Confidence};

#[test]
fn warm_up_completes_at_the_warmup_length() {
    for count in 0..5 {
        assert!(!is_warmed_up(count, 5));
    }
    assert!(is_warmed_up(5, 5));
    assert!(is_warmed_up(6, 5));
}

#[test]
fn zero_warmup_is_warmed_up_from_the_start() {
    assert!(is_warmed_up(0, 0));
    assert_eq!(confidence(0, 0), Confidence::Full);
    assert_eq!(confidence(7, 0), Confidence::Full);
}

#[test]
fn confidence_is_zero_before_warm_up() {
    assert_eq!(confidence(0, 10), Confidence::Zero);
    assert_eq!(confidence(9, 10), Confidence::Zero);
}

#[test]
fn confidence_grows_after_warm_up() {
    // five samples against a warm-up of three: 5 / 9
    assert_eq!(
        confidence(5, 3),
        Confidence::Partial {
            samples: 5,
            full_at: 9
        }
    );
    assert_eq!(
        confidence(3, 3),
        Confidence::Partial {
            samples: 3,
            full_at: 9
        }
    );
    // a single sample with a warm-up of one: 1 / 3
    assert_eq!(
        confidence(1, 1),
        Confidence::Partial {
            samples: 1,
            full_at: 3
        }
    );
}

#[test]
fn confidence_is_full_at_three_warmups() {
    assert_eq!(confidence(9, 3), Confidence::Full);
    assert_eq!(confidence(100, 3), Confidence::Full);
    assert_eq!(confidence(8, 3), Confidence::Partial { samples: 8, full_at: 9 });
}

#[test]
fn confidence_never_drops_as_samples_arrive() {
    let warmup = 4;
    let mut last = 0.0f64;
    for count in 0..20 {
        let value = match confidence(count, warmup) {
            Confidence::Zero => 0.0,
            Confidence::Partial { samples, full_at } => samples as f64 / full_at as f64,
            Confidence::Full => 1.0,
        };
        assert!(value >= last);
        assert!(value <= 1.0);
        last = value;
    }
    assert_eq!(last, 1.0);
}

#[test]
fn accepted_samples_are_appended() {
    let mut history: Vec<f64> = vec![10.0];
    record_sample(&mut history, 11.0, true);
    assert_eq!(history, vec![10.0, 11.0]);
}

#[test]
fn rejected_samples_leave_the_history_alone() {
    let mut history: Vec<f64> = Vec::new();
    record_sample(&mut history, f64::NAN, false);
    record_sample(&mut history, f64::NAN, false);
    assert!(history.is_empty());
    assert!(!is_warmed_up(history.len(), 2));
}

#[test]
fn warm_up_counts_only_accepted_samples() {
    let mut history: Vec<u32> = Vec::new();
    let offered = [(1, true), (2, false), (3, true), (4, false), (5, true)];
    for (sample, accepted) in offered {
        record_sample(&mut history, sample, accepted);
    }
    assert_eq!(history, vec![1, 3, 5]);
    assert!(is_warmed_up(history.len(), 3));
    assert!(!is_warmed_up(history.len(), 4));
}
