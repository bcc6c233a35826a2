use scrummage::Priority;

#[test]
fn priorities_equal_themselves() {
    assert_eq!(Priority::normal(), Priority::normal());
    let p = Priority::from_increment(-5);
    assert_eq!(p, p);
    let q = Priority::from_increment(7);
    assert_eq!(q, q);
    assert_ne!(p, q);
}

#[test]
fn higher_walk_from_normal() {
    let up = Priority::normal().higher();
    assert_eq!(up.len(), 20);
    assert_eq!(up[0], Priority::from_increment(-1));
    assert_eq!(up[19], Priority::from_increment(-20));
}

#[test]
fn lower_walk_from_normal() {
    let down = Priority::normal().lower();
    assert_eq!(down.len(), 19);
    assert_eq!(down[0], Priority::from_increment(1));
    assert_eq!(down[18], Priority::from_increment(19));
}

#[test]
fn one_step_round_trips() {
    let up = Priority::normal().higher();
    assert_eq!(up[0].lower()[0], Priority::normal());
    let down = Priority::normal().lower();
    assert_eq!(down[0].higher()[0], Priority::normal());
    let far = Priority::from_increment(-7);
    assert_eq!(far.higher()[0].lower()[0], far);
    assert_eq!(far.lower()[0].higher()[0], far);
}

#[test]
fn walks_are_deterministic() {
    assert_eq!(Priority::normal().higher(), Priority::normal().higher());
    assert_eq!(Priority::normal().lower(), Priority::normal().lower());
    let p = Priority::from_increment(5);
    assert_eq!(p.higher(), p.higher());
    assert_eq!(p.lower(), p.lower());
}

#[test]
fn walks_are_strictly_monotonic() {
    let up = Priority::from_increment(10).higher();
    for i in 1..up.len() {
        assert!(up[i - 1] < up[i]);
    }
    let down = Priority::from_increment(-10).lower();
    for i in 1..down.len() {
        assert!(down[i - 1] > down[i]);
    }
}

#[test]
fn ordering_follows_favor_not_niceness() {
    assert!(Priority::from_increment(-1) > Priority::normal());
    assert!(Priority::from_increment(1) < Priority::normal());
    assert!(Priority::from_increment(-20) > Priority::from_increment(19));
    assert_eq!(
        Priority::normal().partial_cmp(&Priority::normal()),
        Some(std::cmp::Ordering::Equal)
    );
}

#[test]
fn increments_clamp_at_the_bounds() {
    let up = Priority::normal().higher();
    assert_eq!(Priority::from_increment(-999), up[up.len() - 1]);
    let down = Priority::normal().lower();
    assert_eq!(Priority::from_increment(999), down[down.len() - 1]);
    assert_eq!(Priority::from_increment(-999), Priority::from_increment(-20));
    assert_eq!(Priority::from_increment(999), Priority::from_increment(19));
    assert_eq!(Priority::from_increment(0), Priority::normal());
}

#[test]
fn extremes_have_empty_walks() {
    assert!(Priority::from_increment(-999).higher().is_empty());
    assert!(Priority::from_increment(999).lower().is_empty());
    assert!(!Priority::normal().higher().is_empty());
    assert!(!Priority::normal().lower().is_empty());
}

#[test]
fn cli_style_increments() {
    let up = Priority::normal().higher();
    assert_eq!(Priority::from_increment(-5), up[4]);
    let down = Priority::normal().lower();
    assert_eq!(Priority::from_increment(3), down[2]);
}
