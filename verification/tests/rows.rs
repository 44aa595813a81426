use tasklist::layout::{can_split, split, Area, Constraint};

fn inner(a: Area, m: u16) -> Area {
    if a.width < 2 * m || a.height < 2 * m {
        Area { x: 0, y: 0, width: 0, height: 0 }
    } else {
        Area { x: a.x + m, y: a.y + m, width: a.width - 2 * m, height: a.height - 2 * m }
    }
}

fn rows_end_inside(a: Area, m: u16, cs: &Vec<Constraint>) -> u64 {
    if !can_split(a, m, cs) {
        return 0;
    }
    let d = inner(a, m);
    let right = d.x as u32 + d.width as u32;
    let bottom = (d.y as u32 + d.height as u32).min(65535);
    let rows = split(a, m, cs).unwrap();
    assert_eq!(rows.len(), cs.len());
    for r in &rows {
        assert!(r.x as u32 + r.width as u32 <= right, "{:?} {} {:?} -> {:?}", a, m, cs, rows);
        assert!(r.y as u32 + r.height as u32 <= bottom, "{:?} {} {:?} -> {:?}", a, m, cs, rows);
        assert_eq!((r.x, r.width), (d.x, d.width), "{:?} {} {:?} -> {:?}", a, m, cs, rows);
    }
    if let (Some(first), Some(last)) = (rows.first(), rows.last()) {
        assert_eq!(first.y, d.y, "{:?} {} {:?} -> {:?}", a, m, cs, rows);
        assert_eq!(last.y as u32 + last.height as u32, bottom, "{:?} {} {:?} -> {:?}", a, m, cs, rows);
    }
    1
}

fn rows_end_inside_for(cs: Vec<Constraint>) {
    let mut n = 0;
    for m in [0u16, 1, 2, 5] {
        for w in [0u16, 3, 4, 80] {
            for h in (0u16..60).chain([99, 100, 101, 130, 500, 1314]) {
                for (x, y) in [(0u16, 0u16), (3, 7), (65000, 65000), (0, 65500)] {
                    n += rows_end_inside(Area { x, y, width: w, height: h }, m, &cs);
                }
            }
        }
    }
    assert!(n > 500);
}

#[test]
fn rows_end_inside_halves() {
    rows_end_inside_for(vec![Constraint::Percentage(50), Constraint::Min(10)]);
}

#[test]
fn rows_end_inside_input_rows() {
    rows_end_inside_for(vec![Constraint::Length(1), Constraint::Length(3), Constraint::Min(1)]);
}

#[test]
fn rows_end_inside_thirds() {
    rows_end_inside_for(vec![Constraint::Percentage(33), Constraint::Percentage(33), Constraint::Percentage(33)]);
}

#[test]
fn rows_end_inside_two_large_shares() {
    rows_end_inside_for(vec![Constraint::Percentage(90), Constraint::Percentage(90)]);
}

#[test]
fn rows_end_inside_lengths_too_long() {
    rows_end_inside_for(vec![Constraint::Length(100), Constraint::Length(100), Constraint::Length(7)]);
}

#[test]
fn rows_end_inside_minima_too_large() {
    rows_end_inside_for(vec![Constraint::Min(50), Constraint::Min(50), Constraint::Min(50), Constraint::Min(1)]);
}

#[test]
fn rows_end_inside_one_small_share() {
    rows_end_inside_for(vec![Constraint::Percentage(7)]);
}

#[test]
fn rows_end_inside_empty_and_huge_rows() {
    rows_end_inside_for(vec![Constraint::Length(0), Constraint::Min(0), Constraint::Percentage(0), Constraint::Length(65535)]);
}

#[test]
fn rows_end_inside_for_mixed_constraints() {
    let mut s: u64 = 0x2545F4914F6CDD1D;
    let mut next = move || {
        s ^= s << 13;
        s ^= s >> 7;
        s ^= s << 17;
        s
    };
    let mut n = 0;
    for _ in 0..4000 {
        let k = (next() % 6) as usize;
        let mut cs = Vec::new();
        for _ in 0..k {
            let v = (next() % 300) as u16;
            cs.push(match next() % 3 {
                0 => Constraint::Percentage(v % 120),
                1 => Constraint::Length(v),
                _ => Constraint::Min(v),
            });
        }
        let big = next() % 4 == 0;
        let lim = if big { 65536 } else { 400 };
        let a = Area {
            x: (next() % lim) as u16,
            y: (next() % lim) as u16,
            width: (next() % lim) as u16,
            height: (next() % 600) as u16,
        };
        let m = (next() % 8) as u16;
        n += rows_end_inside(a, m, &cs);
    }
    assert!(n > 1000);
}
