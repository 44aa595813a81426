use tasklist::layout::{can_split, split, Area, Constraint};

fn area(x: u16, y: u16, width: u16, height: u16) -> Area {
    Area { x, y, width, height }
}

#[test]
fn split_gives_one_row_for_each_constraint() {
    let size = area(0, 0, 80, 24);
    for n in 0..6usize {
        let constraints = vec![Constraint::Min(1); n];
        assert!(can_split(size, 1, &constraints));
        assert_eq!(split(size, 1, &constraints).unwrap().len(), n);
    }
}

#[test]
fn split_in_halves() {
    let constraints = vec![Constraint::Percentage(50), Constraint::Min(10)];
    let rows = split(area(0, 0, 80, 24), 2, &constraints).unwrap();
    assert_eq!(rows, vec![area(2, 2, 76, 10), area(2, 12, 76, 10)]);
}

#[test]
fn split_by_lengths() {
    let constraints = vec![Constraint::Length(1), Constraint::Length(3), Constraint::Min(1)];
    let rows = split(area(2, 2, 76, 10), 2, &constraints).unwrap();
    assert_eq!(rows, vec![area(4, 4, 72, 1), area(4, 5, 72, 3), area(4, 8, 72, 2)]);
}

#[test]
fn split_without_margin() {
    let constraints = vec![Constraint::Length(5), Constraint::Min(0)];
    let rows = split(area(2, 2, 10, 10), 0, &constraints).unwrap();
    assert_eq!(rows, vec![area(2, 2, 10, 5), area(2, 7, 10, 5)]);
}

#[test]
fn split_where_the_margin_does_not_fit() {
    let constraints = vec![Constraint::Percentage(50), Constraint::Min(10)];
    let rows = split(area(5, 5, 3, 30), 2, &constraints).unwrap();
    assert_eq!(rows.len(), 2);
    assert!(rows.iter().all(|r| r.x == 0 && r.width == 0));
}

#[test]
fn split_of_a_large_area() {
    let constraints = vec![Constraint::Length(7), Constraint::Min(0)];
    let rows = split(area(0, 0, 1000, 1000), 0, &constraints).unwrap();
    assert_eq!(rows, vec![area(0, 0, 1000, 7), area(0, 7, 1000, 993)]);
}

#[test]
fn percentages_must_fit_sixteen_bits() {
    let half = vec![Constraint::Percentage(50)];
    assert!(can_split(area(0, 0, 10, 1310), 0, &half));
    assert!(!can_split(area(0, 0, 10, 1311), 0, &half));
    assert!(can_split(area(0, 0, 10, 1314), 2, &half));
    assert!(!can_split(area(0, 0, 10, 1315), 2, &half));
    assert!(can_split(area(0, 0, 10, u16::MAX), 0, &vec![Constraint::Percentage(1)]));
    assert!(!can_split(area(0, 0, 10, u16::MAX), 0, &vec![Constraint::Percentage(2)]));
    assert!(can_split(area(0, 0, 10, u16::MAX), 0, &vec![Constraint::Percentage(0)]));
    assert!(can_split(area(0, 0, 10, 0), 0, &vec![Constraint::Percentage(u16::MAX)]));
    assert!(!can_split(area(0, 0, 10, 2), 0, &vec![Constraint::Percentage(u16::MAX)]));
}

#[test]
fn a_percentage_anywhere_counts() {
    let constraints =
        vec![Constraint::Length(1), Constraint::Min(3), Constraint::Percentage(50)];
    assert!(can_split(area(0, 0, 10, 1000), 0, &constraints));
    assert!(!can_split(area(0, 0, 10, 2000), 0, &constraints));
    assert_eq!(split(area(0, 0, 10, 2000), 0, &constraints), None);
}

#[test]
fn lengths_and_minima_always_fit() {
    let constraints = vec![Constraint::Length(u16::MAX), Constraint::Min(u16::MAX)];
    assert!(can_split(area(0, 0, u16::MAX, u16::MAX), 0, &constraints));
    assert_eq!(split(area(0, 0, 300, 300), 0, &constraints).unwrap().len(), 2);
}

#[test]
fn the_margin_must_fit_sixteen_bits_twice() {
    assert!(can_split(area(0, 0, 10, 10), 32767, &vec![]));
    assert!(!can_split(area(0, 0, 10, 10), 32768, &vec![]));
    assert!(!can_split(area(0, 0, 10, 10), u16::MAX, &vec![Constraint::Min(0)]));
    assert_eq!(split(area(0, 0, 10, 10), 32768, &vec![]), None);
    assert_eq!(split(area(0, 0, 10, 10), 32767, &vec![]), Some(vec![]));
}

#[test]
fn the_corners_must_fit_sixteen_bits() {
    let one = vec![Constraint::Min(0)];
    assert!(can_split(area(u16::MAX - 10, 0, 10, 10), 0, &one));
    assert!(!can_split(area(u16::MAX - 9, 0, 10, 10), 0, &one));
    assert!(can_split(area(u16::MAX - 9, 0, 10, 10), 0, &vec![]));
    assert!(can_split(area(u16::MAX - 9, 0, 10, 10), 1, &one));
    assert!(!can_split(area(u16::MAX, 0, 10, 10), 1, &one));
    assert!(can_split(area(u16::MAX, 0, 1, 10), 1, &one));
    assert!(!can_split(area(0, u16::MAX, 10, 10), 1, &one));
    assert!(can_split(area(0, u16::MAX, 10, 10), 0, &one));
    assert!(can_split(area(0, u16::MAX - 2, 10, 10), 2, &one));
}

#[test]
fn split_at_the_far_edge() {
    let one = vec![Constraint::Min(0)];
    let rows = split(area(u16::MAX - 10, u16::MAX - 10, 10, 10), 0, &one).unwrap();
    assert_eq!(rows, vec![area(u16::MAX - 10, u16::MAX - 10, 10, 10)]);
    let rows = split(area(0, u16::MAX, 10, 10), 0, &one).unwrap();
    assert_eq!(rows.len(), 1);
}

#[test]
fn split_agrees_with_can_split() {
    let constraints = vec![Constraint::Percentage(50), Constraint::Min(10)];
    for height in [0u16, 3, 4, 24, 1314, 1315, 40000] {
        for x in [0u16, 100, u16::MAX - 50, u16::MAX] {
            let a = area(x, 0, 60, height);
            assert_eq!(split(a, 2, &constraints).is_some(), can_split(a, 2, &constraints));
        }
    }
}
