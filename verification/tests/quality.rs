use converter_desk::quality::Quality;

// ── sort_key ─────────────────────────────────────────────────────────────────

#[test]
fn sort_key_best_is_u32_max_no_panic() {
    assert_eq!(Quality::Best.sort_key(), u32::MAX);
}

#[test]
fn sort_key_p2160_is_2160() {
    assert_eq!(Quality::P2160.sort_key(), 2160);
}

#[test]
fn sort_key_p1080_is_1080() {
    assert_eq!(Quality::P1080.sort_key(), 1080);
}

#[test]
fn sort_key_descending_order() {
    let ordered = [
        Quality::Best,
        Quality::P2160,
        Quality::P1440,
        Quality::P1080,
        Quality::P720,
        Quality::P480,
        Quality::P360,
    ];
    for window in ordered.windows(2) {
        assert!(
            window[0].sort_key() > window[1].sort_key(),
            "{:?}.sort_key() should be > {:?}.sort_key()",
            window[0],
            window[1]
        );
    }
}

#[test]
fn height_caps_of_bounded_levels() {
    assert_eq!(Quality::P2160.height_cap(), 2160);
    assert_eq!(Quality::P1440.height_cap(), 1440);
    assert_eq!(Quality::P720.height_cap(), 720);
    assert_eq!(Quality::P480.height_cap(), 480);
    assert_eq!(Quality::P360.height_cap(), 360);
}

#[test]
fn height_cap_round_trips_through_from_height() {
    for q in [
        Quality::P2160,
        Quality::P1440,
        Quality::P1080,
        Quality::P720,
        Quality::P480,
        Quality::P360,
    ] {
        assert_eq!(Quality::from_height(q.height_cap()), q);
    }
}

// ── selectable_list ──────────────────────────────────────────────────────────

#[test]
fn empty_returns_best_first() {
    let result = Quality::selectable_list(&[]);
    assert_eq!(result, vec![Quality::Best]);
}

#[test]
fn dedup_and_sort_desc_best_first() {
    let result = Quality::selectable_list(&[Quality::P720, Quality::P1080, Quality::P720]);
    assert_eq!(result[0], Quality::Best, "Best must be at index 0");
    assert_eq!(result[1], Quality::P1080);
    assert_eq!(result[2], Quality::P720);
    assert_eq!(result.len(), 3);
}

#[test]
fn already_sorted_preserved_best_first() {
    let result = Quality::selectable_list(&[
        Quality::P2160,
        Quality::P1080,
        Quality::P720,
        Quality::P480,
    ]);
    assert_eq!(result[0], Quality::Best);
    assert_eq!(result[1], Quality::P2160);
    assert_eq!(result[2], Quality::P1080);
    assert_eq!(result[3], Quality::P720);
    assert_eq!(result[4], Quality::P480);
    assert_eq!(result.len(), 5);
}

#[test]
fn input_already_contains_best_no_duplicate() {
    let result = Quality::selectable_list(&[Quality::P1080, Quality::Best]);
    assert_eq!(result[0], Quality::Best, "Best must be at index 0");
    assert_eq!(result[1], Quality::P1080);
    assert_eq!(result.len(), 2, "Best must not be duplicated");
}

#[test]
fn all_same_deduped() {
    let result = Quality::selectable_list(&[Quality::P720, Quality::P720, Quality::P720]);
    assert_eq!(result[0], Quality::Best);
    assert_eq!(result[1], Quality::P720);
    assert_eq!(result.len(), 2);
}

#[test]
fn single_element_no_best_produces_two_items() {
    let result = Quality::selectable_list(&[Quality::P1080]);
    assert_eq!(result, vec![Quality::Best, Quality::P1080]);
}

#[test]
fn result_is_sorted_descending_by_sort_key() {
    let result = Quality::selectable_list(&[
        Quality::P480,
        Quality::P720,
        Quality::P1080,
        Quality::P2160,
    ]);
    for window in result.windows(2) {
        assert!(
            window[0].sort_key() >= window[1].sort_key(),
            "Result must be sorted descending: {:?} >= {:?}",
            window[0],
            window[1]
        );
    }
}

#[test]
fn every_level_in_reverse_order_is_sorted_back() {
    let result = Quality::selectable_list(&[
        Quality::P360,
        Quality::P480,
        Quality::P720,
        Quality::P1080,
        Quality::P1440,
        Quality::P2160,
        Quality::Best,
    ]);
    assert_eq!(
        result,
        vec![
            Quality::Best,
            Quality::P2160,
            Quality::P1440,
            Quality::P1080,
            Quality::P720,
            Quality::P480,
            Quality::P360,
        ]
    );
}

// ── from_height ──────────────────────────────────────────────────────────────

#[test]
fn from_height_zero_is_p360() {
    assert_eq!(Quality::from_height(0), Quality::P360);
}

#[test]
fn from_height_479_is_p360() {
    assert_eq!(Quality::from_height(479), Quality::P360);
}

#[test]
fn from_height_480_is_p480() {
    assert_eq!(Quality::from_height(480), Quality::P480);
}

#[test]
fn from_height_719_is_p480() {
    assert_eq!(Quality::from_height(719), Quality::P480);
}

#[test]
fn from_height_720_is_p720() {
    assert_eq!(Quality::from_height(720), Quality::P720);
}

#[test]
fn from_height_1079_is_p720() {
    assert_eq!(Quality::from_height(1079), Quality::P720);
}

#[test]
fn from_height_1080_is_p1080() {
    assert_eq!(Quality::from_height(1080), Quality::P1080);
}

#[test]
fn from_height_1439_is_p1080() {
    assert_eq!(Quality::from_height(1439), Quality::P1080);
}

#[test]
fn from_height_1440_is_p1440() {
    assert_eq!(Quality::from_height(1440), Quality::P1440);
}

#[test]
fn from_height_2159_is_p1440() {
    assert_eq!(Quality::from_height(2159), Quality::P1440);
}

#[test]
fn from_height_2160_is_p2160() {
    assert_eq!(Quality::from_height(2160), Quality::P2160);
}

#[test]
fn from_height_9999_is_p2160() {
    assert_eq!(Quality::from_height(9999), Quality::P2160);
}

#[test]
fn from_height_max_is_p2160() {
    assert_eq!(Quality::from_height(u32::MAX), Quality::P2160);
}

// ── labels ───────────────────────────────────────────────────────────────────

#[test]
fn display_p1080() {
    assert_eq!(Quality::P1080.label(), "1080p");
}

#[test]
fn display_best() {
    assert_eq!(Quality::Best.label(), "Best");
}

#[test]
fn labels_of_all_levels() {
    assert_eq!(Quality::P2160.label(), "2160p");
    assert_eq!(Quality::P1440.label(), "1440p");
    assert_eq!(Quality::P720.label(), "720p");
    assert_eq!(Quality::P480.label(), "480p");
    assert_eq!(Quality::P360.label(), "360p");
}
