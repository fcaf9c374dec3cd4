use acs::{select_step, StepChoice, StepQuality, TrustRadius};

fn value(radius: TrustRadius) -> f64 {
    (if radius.five { 5.0 } else { 1.0 }) * 2f64.powi(radius.exponent as i32)
}

#[test]
fn the_initial_radius_is_one() {
    let radius = TrustRadius::initial();
    assert_eq!(radius, TrustRadius { five: false, exponent: 0 });
    assert_eq!(value(radius), 1.0);
    assert!(!radius.is_below_floor());
}

#[test]
fn a_good_step_doubles_up_to_the_cap() {
    let mut radius = TrustRadius::initial();
    let mut seen = Vec::new();
    for _ in 0..6 {
        radius = radius.adjust(StepQuality::Good);
        seen.push(value(radius));
    }
    assert_eq!(seen, vec![2.0, 4.0, 8.0, 10.0, 10.0, 10.0]);
}

#[test]
fn a_fair_step_keeps_the_radius() {
    let radius = TrustRadius::initial().adjust(StepQuality::Good);
    assert_eq!(radius.adjust(StepQuality::Fair), radius);
}

#[test]
fn a_poor_or_rejected_step_halves() {
    let radius = TrustRadius::initial();
    assert_eq!(value(radius.adjust(StepQuality::Poor)), 0.5);
    assert_eq!(value(radius.adjust(StepQuality::Rejected)), 0.5);
    let capped = TrustRadius { five: true, exponent: 1 };
    assert_eq!(value(capped), 10.0);
    assert_eq!(value(capped.adjust(StepQuality::Poor)), 5.0);
    assert_eq!(value(capped.adjust(StepQuality::Poor).adjust(StepQuality::Good)), 10.0);
    assert_eq!(value(capped.adjust(StepQuality::Rejected).adjust(StepQuality::Rejected)), 2.5);
}

#[test]
fn a_radius_of_two_and_a_half_grows_to_five_then_ten() {
    let radius = TrustRadius { five: true, exponent: -1 };
    assert_eq!(value(radius), 2.5);
    assert_eq!(value(radius.adjust(StepQuality::Good)), 5.0);
    assert_eq!(value(radius.adjust(StepQuality::Good).adjust(StepQuality::Good)), 10.0);
}

#[test]
fn the_floor_is_met_after_twenty_seven_halvings_from_one() {
    let mut radius = TrustRadius::initial();
    let mut halvings = 0;
    while !radius.is_below_floor() {
        assert!(value(radius) >= 1e-8);
        radius = radius.adjust(StepQuality::Poor);
        halvings += 1;
    }
    assert_eq!(halvings, 27);
    assert!(value(radius) < 1e-8);
    assert_eq!(value(radius), 2f64.powi(-27));
}

#[test]
fn the_floor_is_met_after_thirty_halvings_from_ten() {
    let mut radius = TrustRadius { five: true, exponent: 1 };
    let mut halvings = 0;
    while !radius.is_below_floor() {
        assert!(value(radius) >= 1e-8);
        radius = radius.adjust(StepQuality::Rejected);
        halvings += 1;
    }
    assert_eq!(halvings, 30);
    assert!(value(radius) < 1e-8);
    assert_eq!(value(radius), 5.0 * 2f64.powi(-29));
}

#[test]
fn a_radius_below_the_floor_is_not_halved_again() {
    let spent = TrustRadius { five: false, exponent: -27 };
    assert!(spent.is_below_floor());
    assert_eq!(spent.adjust(StepQuality::Poor), spent);
    assert_eq!(spent.adjust(StepQuality::Rejected), spent);
    assert_eq!(spent.adjust(StepQuality::Fair), spent);
    let lowest = TrustRadius { five: true, exponent: i8::MIN };
    assert_eq!(lowest.adjust(StepQuality::Rejected), lowest);
    let highest = TrustRadius { five: false, exponent: i8::MAX };
    assert_eq!(highest.adjust(StepQuality::Good), TrustRadius { five: true, exponent: 1 });
}

#[test]
fn the_step_follows_the_two_comparisons() {
    assert_eq!(select_step(true, true), StepChoice::GaussNewton);
    assert_eq!(select_step(true, false), StepChoice::GaussNewton);
    assert_eq!(select_step(false, true), StepChoice::ScaledDescent);
    assert_eq!(select_step(false, false), StepChoice::DogLeg);
}

#[test]
fn the_quality_follows_the_three_comparisons() {
    let classify = |rho: f64| StepQuality::from_comparisons(rho >= 0.0, rho < 0.25, rho > 0.75);
    assert_eq!(classify(-0.001), StepQuality::Rejected);
    assert_eq!(classify(f64::NAN), StepQuality::Rejected);
    assert_eq!(classify(f64::NEG_INFINITY), StepQuality::Rejected);
    assert_eq!(classify(0.0), StepQuality::Poor);
    assert_eq!(classify(0.2499), StepQuality::Poor);
    assert_eq!(classify(0.25), StepQuality::Fair);
    assert_eq!(classify(0.75), StepQuality::Fair);
    assert_eq!(classify(0.7501), StepQuality::Good);
    assert_eq!(classify(1.0), StepQuality::Good);
    assert_eq!(classify(f64::INFINITY), StepQuality::Good);
}
