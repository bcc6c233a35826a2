use scrummage::windows::{
    decode_class_read, Priority, ABOVE_NORMAL_PRIORITY_CLASS, BELOW_NORMAL_PRIORITY_CLASS,
    HIGH_PRIORITY_CLASS, IDLE_PRIORITY_CLASS, NORMAL_PRIORITY_CLASS,
    PROCESS_MODE_BACKGROUND_BEGIN, PROCESS_MODE_BACKGROUND_END, REALTIME_PRIORITY_CLASS,
};

fn class(raw: u32) -> Priority {
    decode_class_read(raw).expect("a known class decodes")
}

#[test]
fn ladder_walks_step_through_the_classes() {
    let normal = Priority::normal();
    let up = normal.higher();
    assert_eq!(up.len(), 3);
    assert_eq!(up[0], class(ABOVE_NORMAL_PRIORITY_CLASS));
    assert_eq!(up[1], class(HIGH_PRIORITY_CLASS));
    assert_eq!(up[2], class(REALTIME_PRIORITY_CLASS));
    let down = normal.lower();
    assert_eq!(down.len(), 2);
    assert_eq!(down[0], class(BELOW_NORMAL_PRIORITY_CLASS));
    assert_eq!(down[1], class(IDLE_PRIORITY_CLASS));
}

#[test]
fn ladder_ends_have_empty_walks() {
    assert!(class(REALTIME_PRIORITY_CLASS).higher().is_empty());
    assert!(class(IDLE_PRIORITY_CLASS).lower().is_empty());
    assert_eq!(class(IDLE_PRIORITY_CLASS).higher().len(), 5);
    assert_eq!(class(REALTIME_PRIORITY_CLASS).lower().len(), 5);
}

#[test]
fn one_step_round_trips_on_the_ladder() {
    let normal = Priority::normal();
    assert_eq!(normal.higher()[0].lower()[0], normal);
    assert_eq!(normal.lower()[0].higher()[0], normal);
    let idle = class(IDLE_PRIORITY_CLASS);
    assert_eq!(idle.higher()[0].lower()[0], idle);
}

#[test]
fn ladder_walks_are_deterministic() {
    assert_eq!(Priority::normal().higher(), Priority::normal().higher());
    assert_eq!(
        class(HIGH_PRIORITY_CLASS).lower(),
        class(HIGH_PRIORITY_CLASS).lower()
    );
}

#[test]
fn relative_positions_follow_the_six_level_order() {
    assert_eq!(class(IDLE_PRIORITY_CLASS).to_relative(), 0);
    assert_eq!(class(BELOW_NORMAL_PRIORITY_CLASS).to_relative(), 1);
    assert_eq!(Priority::normal().to_relative(), 2);
    assert_eq!(class(ABOVE_NORMAL_PRIORITY_CLASS).to_relative(), 3);
    assert_eq!(class(HIGH_PRIORITY_CLASS).to_relative(), 4);
    assert_eq!(class(REALTIME_PRIORITY_CLASS).to_relative(), 5);
}

#[test]
fn ordering_goes_by_position_not_raw_value() {
    // HIGH's raw value is numerically far below ABOVE_NORMAL's, yet it is
    // the more favored class.
    assert!(HIGH_PRIORITY_CLASS < ABOVE_NORMAL_PRIORITY_CLASS);
    assert!(class(HIGH_PRIORITY_CLASS) > class(ABOVE_NORMAL_PRIORITY_CLASS));
    assert!(class(REALTIME_PRIORITY_CLASS) > class(IDLE_PRIORITY_CLASS));
    assert!(class(BELOW_NORMAL_PRIORITY_CLASS) < Priority::normal());
    let up = class(IDLE_PRIORITY_CLASS).higher();
    for i in 1..up.len() {
        assert!(up[i - 1] < up[i]);
    }
}

#[test]
fn background_markers_order_as_normal_but_never_walk() {
    for marker in [PROCESS_MODE_BACKGROUND_BEGIN, PROCESS_MODE_BACKGROUND_END] {
        let bg = class(marker);
        assert_ne!(bg, Priority::normal());
        assert_eq!(
            bg.partial_cmp(&Priority::normal()),
            Some(std::cmp::Ordering::Equal)
        );
        assert_eq!(bg.to_relative(), 2);
        assert!(bg.higher().is_empty());
        assert!(bg.lower().is_empty());
    }
}

#[test]
fn reading_the_no_value_sentinel_is_not_found() {
    assert!(decode_class_read(0).is_err());
    assert!(decode_class_read(NORMAL_PRIORITY_CLASS).is_ok());
}
