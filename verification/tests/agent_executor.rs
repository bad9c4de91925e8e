use gamesense::agent::executor::action_to_swipe;


#[test]
fn swipe_up_coordinates() {
    let (x1, y1, x2, y2) = action_to_swipe("swipe_up", 1080, 2340).unwrap();
    assert_eq!(x1, 540); // center x
    assert_eq!(x2, 540); // center x (vertical swipe)
    assert!(y1 > y2); // start below, end above
}

#[test]
fn swipe_down_coordinates() {
    let (x1, y1, x2, y2) = action_to_swipe("swipe_down", 1080, 2340).unwrap();
    assert_eq!(x1, 540);
    assert!(y2 > y1); // end below start
}

#[test]
fn swipe_left_coordinates() {
    let (x1, y1, x2, y2) = action_to_swipe("swipe_left", 1080, 2340).unwrap();
    assert_eq!(y1, 1170); // center y
    assert!(x1 > x2); // start right, end left
}

#[test]
fn swipe_right_coordinates() {
    let (x1, y1, x2, y2) = action_to_swipe("swipe_right", 1080, 2340).unwrap();
    assert_eq!(y1, 1170);
    assert!(x2 > x1); // end right of start
}

#[test]
fn unknown_action_returns_none() {
    assert!(action_to_swipe("tap:50%:50%", 1080, 2340).is_none());
    assert!(action_to_swipe("", 1080, 2340).is_none());
    assert!(action_to_swipe("swipe_diagonal", 1080, 2340).is_none());
}





#[test]
fn coordinates_scale_with_screen_size() {
    let (_, _, _, y2_small) = action_to_swipe("swipe_up", 720, 1280).unwrap();
    let (_, _, _, y2_large) = action_to_swipe("swipe_up", 1440, 3200).unwrap();
    // Larger screen should have larger coordinate values
    assert!(y2_large.abs() > y2_small.abs());
}
