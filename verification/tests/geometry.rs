use aquariwm::geometry::{Axis, Orientation};

#[test]
fn reversed_orientations_are_right_to_left_and_bottom_to_top() {
    assert!(!Orientation::LeftToRight.reversed());
    assert!(!Orientation::TopToBottom.reversed());
    assert!(Orientation::RightToLeft.reversed());
    assert!(Orientation::BottomToTop.reversed());
}

#[test]
fn axis_of_each_orientation() {
    assert_eq!(Orientation::LeftToRight.axis(), Axis::Horizontal);
    assert_eq!(Orientation::RightToLeft.axis(), Axis::Horizontal);
    assert_eq!(Orientation::TopToBottom.axis(), Axis::Vertical);
    assert_eq!(Orientation::BottomToTop.axis(), Axis::Vertical);
}

#[test]
fn flipped_gives_the_other_axis() {
    assert_eq!(Axis::Horizontal.flipped(), Axis::Vertical);
    assert_eq!(Axis::Vertical.flipped(), Axis::Horizontal);
    assert_eq!(Axis::Vertical.flipped().flipped(), Axis::Vertical);
}

#[test]
fn rotated_by_walks_the_cycle_clockwise() {
    let start = Orientation::LeftToRight;
    assert_eq!(start.rotated_by(0), Orientation::LeftToRight);
    assert_eq!(start.rotated_by(1), Orientation::TopToBottom);
    assert_eq!(start.rotated_by(2), Orientation::RightToLeft);
    assert_eq!(start.rotated_by(3), Orientation::BottomToTop);
    assert_eq!(start.rotated_by(4), Orientation::LeftToRight);
    assert_eq!(start.rotated_by(5), Orientation::TopToBottom);
}

#[test]
fn rotated_by_negative_walks_counter_clockwise() {
    assert_eq!(Orientation::LeftToRight.rotated_by(-1), Orientation::BottomToTop);
    assert_eq!(Orientation::LeftToRight.rotated_by(-4), Orientation::LeftToRight);
    assert_eq!(Orientation::TopToBottom.rotated_by(-3), Orientation::RightToLeft);
    assert_eq!(Orientation::BottomToTop.rotated_by(-7), Orientation::LeftToRight);
}

#[test]
fn rotated_by_takes_the_extremes_of_i32() {
    // 2147483647 = 4 * 536870911 + 3; -2147483648 = 4 * -536870912.
    assert_eq!(Orientation::LeftToRight.rotated_by(i32::MAX), Orientation::BottomToTop);
    assert_eq!(Orientation::BottomToTop.rotated_by(i32::MAX), Orientation::RightToLeft);
    assert_eq!(Orientation::LeftToRight.rotated_by(i32::MIN), Orientation::LeftToRight);
    assert_eq!(Orientation::TopToBottom.rotated_by(i32::MIN), Orientation::TopToBottom);
}

#[test]
fn four_quarter_turns_come_back() {
    for start in [
        Orientation::LeftToRight,
        Orientation::TopToBottom,
        Orientation::RightToLeft,
        Orientation::BottomToTop,
    ] {
        let turned = start.rotated_by(1).rotated_by(1).rotated_by(1).rotated_by(1);
        assert_eq!(turned, start);
        assert_eq!(start.rotated_by(4), start);
    }
}
