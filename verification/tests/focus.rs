use pipemind_rust::focus::{Direction, FocusArea};

const CYCLE: [FocusArea; 4] =
    [FocusArea::Header, FocusArea::Navigation, FocusArea::Preview, FocusArea::Footer];

#[test]
fn left_table() {
    assert_eq!(FocusArea::Navigation.left(), FocusArea::Header);
    assert_eq!(FocusArea::Preview.left(), FocusArea::Navigation);
    assert_eq!(FocusArea::Footer.left(), FocusArea::Preview);
    assert_eq!(FocusArea::Header.left(), FocusArea::Footer);
    assert_eq!(FocusArea::Input.left(), FocusArea::Input);
}

#[test]
fn right_table() {
    assert_eq!(FocusArea::Header.right(), FocusArea::Navigation);
    assert_eq!(FocusArea::Navigation.right(), FocusArea::Preview);
    assert_eq!(FocusArea::Preview.right(), FocusArea::Footer);
    assert_eq!(FocusArea::Footer.right(), FocusArea::Header);
    assert_eq!(FocusArea::Input.right(), FocusArea::Input);
}

#[test]
fn right_is_inverse_of_left() {
    for area in CYCLE {
        assert_eq!(area.left().right(), area);
        assert_eq!(area.right().left(), area);
    }
}

#[test]
fn down_and_up_cycles() {
    assert_eq!(FocusArea::Header.neighbour(Direction::Down), FocusArea::Navigation);
    assert_eq!(FocusArea::Navigation.neighbour(Direction::Down), FocusArea::Preview);
    assert_eq!(FocusArea::Preview.neighbour(Direction::Down), FocusArea::Footer);
    assert_eq!(FocusArea::Footer.neighbour(Direction::Down), FocusArea::Header);
    assert_eq!(FocusArea::Header.neighbour(Direction::Up), FocusArea::Footer);
    assert_eq!(FocusArea::Navigation.neighbour(Direction::Up), FocusArea::Header);
    assert_eq!(FocusArea::Preview.neighbour(Direction::Up), FocusArea::Navigation);
    assert_eq!(FocusArea::Footer.neighbour(Direction::Up), FocusArea::Preview);
    assert_eq!(FocusArea::Preview.neighbour(Direction::Left), FocusArea::Navigation);
    assert_eq!(FocusArea::Preview.neighbour(Direction::Right), FocusArea::Footer);
}

#[test]
fn four_steps_come_back() {
    for dir in [Direction::Left, Direction::Right, Direction::Up, Direction::Down] {
        for area in CYCLE {
            let end = area.neighbour(dir).neighbour(dir).neighbour(dir).neighbour(dir);
            assert_eq!(end, area);
            assert_ne!(area.neighbour(dir), FocusArea::Input);
        }
        assert_eq!(FocusArea::Input.neighbour(dir), FocusArea::Input);
    }
}

#[test]
fn function_keys_name_regions() {
    assert_eq!(FocusArea::from_index(1), Some(FocusArea::Header));
    assert_eq!(FocusArea::from_index(2), Some(FocusArea::Navigation));
    assert_eq!(FocusArea::from_index(3), Some(FocusArea::Preview));
    assert_eq!(FocusArea::from_index(4), Some(FocusArea::Input));
    assert_eq!(FocusArea::from_index(5), Some(FocusArea::Footer));
    assert_eq!(FocusArea::from_index(0), None);
    assert_eq!(FocusArea::from_index(6), None);
    assert_eq!(FocusArea::from_index(255), None);
}
