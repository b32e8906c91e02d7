use pure_widget::Padding;

#[test]
fn new_is_uniform() {
    assert_eq!(
        Padding::new(3),
        Padding { top: 3, right: 3, bottom: 3, left: 3 }
    );
    assert_eq!(
        Padding::new(0),
        Padding { top: 0, right: 0, bottom: 0, left: 0 }
    );
}

#[test]
fn from_one_amount() {
    assert_eq!(Padding::from(65535u16), Padding::new(65535));
}

#[test]
fn from_vertical_and_horizontal() {
    assert_eq!(
        Padding::from([5u16, 20u16]),
        Padding { top: 5, right: 20, bottom: 5, left: 20 }
    );
}

#[test]
fn from_each_side_clockwise() {
    assert_eq!(
        Padding::from([10u16, 20u16, 30u16, 40u16]),
        Padding { top: 10, right: 20, bottom: 30, left: 40 }
    );
}
