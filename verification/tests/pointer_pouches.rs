use dd_bot::detect::{Finding, Region};
use dd_bot::pointer::{
    aim, aim_at_region, click_buton, click_buton_direct, click_buton_right,
    click_buton_right_direct, draw_away_point, draw_detected_click, draw_direct_click,
    draw_fast_move, draw_salt, move_to_location_fast, plan_lines, plan_misses, ClickDraw, CommandError,
    Gesture, KeyStroke, LineStep, MouseButton, Path,
};
use dd_bot::pouches::{calculate_pouches, click_pouches};

fn fixed_draw(salt: i32) -> ClickDraw {
    ClickDraw { salt, steps: 60, ctrl_x: 500, ctrl_y: 400, first_pause: 55, second_pause: 700 }
}

#[test]
fn aims_at_the_middle_plus_offset_and_salt() {
    assert_eq!(aim(10, 30, 0, 0), Some(20));
    assert_eq!(aim(10, 31, 0, 0), Some(20));
    assert_eq!(aim(30, 10, 0, 0), Some(20));
    assert_eq!(aim(31, 10, 0, 0), Some(21));
    assert_eq!(aim(10, 30, 5, -3), Some(22));
    assert_eq!(aim(i32::MIN, i32::MAX, 0, 0), None);
    assert_eq!(aim(i32::MAX - 1, i32::MAX, 0, 8), None);
}

#[test]
fn salts_stay_in_range_and_vary() {
    let mut seen = std::collections::BTreeSet::new();
    for _ in 0..300 {
        let s = draw_salt();
        assert!((-9..9).contains(&s));
        seen.insert(s);
    }
    assert!(seen.len() > 1);
}

#[test]
fn aims_at_a_region_near_its_centre() {
    for _ in 0..50 {
        let (x, y) = aim_at_region(Region { x1: 10, y1: 20, x2: 30, y2: 40 }).unwrap();
        assert_eq!(x - 20, y - 30);
        assert!((-9..9).contains(&(x - 20)));
    }
    assert_eq!(aim_at_region(Region { x1: -10, y1: 0, x2: i32::MAX, y2: 10 }), None);
    assert_eq!(aim_at_region(Region { x1: i32::MAX - 2, y1: 0, x2: i32::MAX, y2: 10 }), None);
}

#[test]
fn away_points_are_left_of_the_items() {
    for _ in 0..50 {
        let (x, y) = draw_away_point();
        assert!((25..50).contains(&x));
        assert!((200..300).contains(&y));
    }
}

#[test]
fn a_failed_detector_gives_no_click() {
    match click_buton(false, "Could not detect", true, 0, 0, fixed_draw(0)) {
        Err(CommandError::ExecutionFailed(s)) => assert_eq!(s, "Could not detect"),
        _ => panic!("expected a failure"),
    }
}

#[test]
fn a_quick_click_jumps_to_the_salted_centre() {
    let g = click_buton(true, "10 20 30 40", false, 0, 5, fixed_draw(3)).ok().unwrap();
    assert_eq!(g, vec![Gesture::Jump { x: 23, y: 38 }, Gesture::Click(MouseButton::Left)]);
    let g = click_buton_right(true, "10 20 30 40", false, 0, 0, fixed_draw(-2)).ok().unwrap();
    assert_eq!(g, vec![Gesture::Jump { x: 18, y: 28 }, Gesture::Click(MouseButton::Right)]);
}

#[test]
fn a_smooth_click_leaves_the_game_and_glides_there() {
    let d = fixed_draw(1);
    let g = click_buton(true, "10 20 30 40\n", true, 0, 0, d).ok().unwrap();
    assert_eq!(
        g,
        vec![
            Gesture::Press(KeyStroke::ShowDesktop),
            Gesture::Glide(Path { from_x: 10, from_y: 20, to_x: 21, to_y: 31, ctrl_x: 500, ctrl_y: 400, steps: 60 }),
            Gesture::Press(KeyStroke::AltTabDown),
            Gesture::Pause(55),
            Gesture::Press(KeyStroke::AltTabUp),
            Gesture::Pause(700),
            Gesture::Click(MouseButton::Left),
        ]
    );
    assert!(matches!(
        click_buton(true, "-2147483648 0 2147483647 0", true, 0, 0, d),
        Err(CommandError::Overflow)
    ));
}

#[test]
fn direct_clicks_follow_their_flags() {
    let d = fixed_draw(0);
    let g = click_buton_direct(100, 200, false, false, 7, 7, 0, 0, d).ok().unwrap();
    assert_eq!(g, vec![Gesture::Jump { x: 100, y: 200 }, Gesture::Click(MouseButton::Left)]);
    let g = click_buton_right_direct(100, 200, false, true, 0, 0, 0, 0, d).ok().unwrap();
    assert_eq!(g, vec![Gesture::Jump { x: 100, y: 200 }, Gesture::Click(MouseButton::Right)]);
    let g = click_buton_direct(100, 200, true, false, 1, 2, 5, 6, d).ok().unwrap();
    assert_eq!(
        g,
        vec![
            Gesture::Press(KeyStroke::TapMeta),
            Gesture::Glide(Path { from_x: 5, from_y: 6, to_x: 101, to_y: 202, ctrl_x: 500, ctrl_y: 400, steps: 60 }),
            Gesture::Press(KeyStroke::TapMeta),
            Gesture::Pause(55),
            Gesture::Click(MouseButton::Left),
        ]
    );
    let g = click_buton_direct(100, 200, true, true, 0, 0, 5, 6, d).ok().unwrap();
    assert_eq!(g.len(), 7);
    assert_eq!(g[0], Gesture::Press(KeyStroke::ShowDesktop));
    assert_eq!(g[1], Gesture::Glide(Path { from_x: 5, from_y: 6, to_x: 100, to_y: 200, ctrl_x: 500, ctrl_y: 400, steps: 60 }));
    assert_eq!(g[6], Gesture::Click(MouseButton::Left));
    let g = click_buton_right_direct(100, 200, true, true, 3, 4, 5, 6, d).ok().unwrap();
    assert_eq!(g.len(), 7);
    assert_eq!(g[1], Gesture::Glide(Path { from_x: 5, from_y: 6, to_x: 103, to_y: 204, ctrl_x: 500, ctrl_y: 400, steps: 60 }));
    assert_eq!(g[6], Gesture::Click(MouseButton::Right));
    let g = click_buton_right_direct(100, 200, true, false, 3, 4, 5, 6, d).ok().unwrap();
    assert_eq!(g[g.len() - 1], Gesture::Click(MouseButton::Right));
    assert!(matches!(
        click_buton_direct(i32::MAX, 0, true, true, 1, 0, 0, 0, d),
        Err(CommandError::Overflow)
    ));
}

#[test]
fn click_draws_come_from_their_ranges() {
    for _ in 0..30 {
        let d = draw_detected_click(true, 100, 100, 1920, 1080);
        assert!((-9..9).contains(&d.salt));
        assert!((50..100).contains(&d.steps));
        assert!((100..1920).contains(&d.ctrl_x));
        assert!((100..1080).contains(&d.ctrl_y));
        let d = draw_direct_click(false, 100, 100, 1920, 1080);
        assert!((20..30).contains(&d.steps));
        assert!((100..149).contains(&d.ctrl_x));
        assert!((100..200).contains(&d.first_pause));
        let d = draw_fast_move(10, 10);
        assert!((10..20).contains(&d.steps));
        assert!((10..59).contains(&d.ctrl_y));
    }
}

#[test]
fn a_quick_move_taps_the_windows_key_around_the_glide() {
    let d = ClickDraw { salt: 0, steps: 12, ctrl_x: 3, ctrl_y: 4, first_pause: 0, second_pause: 0 };
    let g = move_to_location_fast(40, 50, 1, 2, d);
    assert_eq!(
        g,
        vec![
            Gesture::Press(KeyStroke::TapMeta),
            Gesture::Glide(Path { from_x: 1, from_y: 2, to_x: 40, to_y: 50, ctrl_x: 3, ctrl_y: 4, steps: 12 }),
            Gesture::Press(KeyStroke::TapMeta),
        ]
    );
}

#[test]
fn plans_one_step_per_line_until_a_malformed_one() {
    let found = vec![
        Finding::Missing,
        Finding::Found(Region { x1: 0, y1: 0, x2: 10, y2: 10 }),
        Finding::Ignored,
        Finding::Malformed,
        Finding::Missing,
    ];
    let (steps, complete) = plan_lines(&found);
    assert!(!complete);
    assert_eq!(steps.len(), 3);
    assert!(matches!(steps[0], LineStep::Away { x, y } if (25..50).contains(&x) && (200..300).contains(&y)));
    assert!(matches!(steps[1], LineStep::Target { x, y } if x == y && (-4..14).contains(&x)));
    assert_eq!(steps[2], LineStep::Pass);
    let (steps, complete) = plan_lines(&vec![Finding::Ignored]);
    assert!(complete);
    assert_eq!(steps, vec![LineStep::Pass]);
}

#[test]
fn calculates_pouches_for_given_stocks() {
    assert_eq!(calculate_pouches(100, 3, 0, 2, 0), Some((2, 0, 0, 0)));
    assert_eq!(calculate_pouches(135, 1, 2, 3, 1), Some((1, 2, 0, 0)));
    assert_eq!(calculate_pouches(70, 0, 0, 5, 5), Some((0, 0, 2, 0)));
    assert_eq!(calculate_pouches(30, 4, 4, 4, 4), Some((1, 0, 0, 0)));
    assert_eq!(calculate_pouches(1000, 2, 3, 1, 1), Some((2, 3, 1, 1)));
    assert_eq!(calculate_pouches(85, 1, 0, 1, 0), Some((1, 0, 1, 0)));
    assert_eq!(calculate_pouches(60, 0, 2, 0, 0), Some((0, 1, 0, 0)));
    assert_eq!(calculate_pouches(45, 5, 0, 0, 0), Some((1, 0, 0, 0)));
    assert_eq!(calculate_pouches(0, 1, 1, 1, 1), Some((0, 0, 0, 0)));
    assert_eq!(calculate_pouches(250, 2, 1, 3, 3), Some((2, 1, 3, 0)));
}

#[test]
fn pouch_arithmetic_that_overflows_gives_no_plan() {
    assert_eq!(calculate_pouches(i32::MIN, 1, 0, 0, 0), None);
    assert_eq!(calculate_pouches(i32::MIN + 10, 0, 0, 1, 0), None);
}

#[test]
fn clicks_no_pouch_where_none_was_detected() {
    let r = click_pouches("Could not detect", 3, 4, 25);
    assert!(r.targets.is_empty());
    assert_eq!(r.clicked, 4);
    assert!(r.complete);
}

#[test]
fn clicks_as_many_pouches_as_owed_and_as_fit() {
    let coords = "0 0 10 10\n20 20 30 30\n40 40 50 50";
    let r = click_pouches(coords, 2, 0, 25);
    assert_eq!(r.targets.len(), 2);
    assert_eq!(r.clicked, 2);
    assert!(r.complete);
    assert_eq!(r.targets[0].0, r.targets[0].1);
    assert!((-4..14).contains(&r.targets[0].0));
    assert!((16..34).contains(&r.targets[1].0));
    let r = click_pouches(coords, 3, 24, 25);
    assert_eq!(r.targets.len(), 1);
    assert_eq!(r.clicked, 25);
    let r = click_pouches(coords, 0, 0, 25);
    assert!(r.targets.is_empty());
    let r = click_pouches("0 0 10 10\nbad", 5, 0, 25);
    assert_eq!(r.targets.len(), 1);
    assert!(!r.complete);
}

#[test]
fn clears_only_the_misses_of_a_match_list() {
    let found = vec![
        Finding::Ignored,
        Finding::Missing,
        Finding::Found(Region { x1: 0, y1: 0, x2: 10, y2: 10 }),
        Finding::Malformed,
    ];
    let steps = plan_misses(&found);
    assert_eq!(steps.len(), 4);
    assert_eq!(steps[0], LineStep::Pass);
    assert!(matches!(steps[1], LineStep::Away { x, y } if (25..50).contains(&x) && (200..300).contains(&y)));
    assert_eq!(steps[2], LineStep::Pass);
    assert_eq!(steps[3], LineStep::Pass);
}
