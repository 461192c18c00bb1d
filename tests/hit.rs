use shapes::{nearest, recolor, Color, Hit};

fn hit(color: Color, t: f64) -> Option<Hit<f64>> {
    Some(Hit { color, t })
}

fn union(a: Option<Hit<f64>>, b: Option<Hit<f64>>) -> Option<Hit<f64>> {
    let first_nearer = match (&a, &b) {
        (Some(x), Some(y)) => x.t <= y.t,
        _ => true,
    };
    nearest(a, b, first_nearer)
}

#[test]
fn union_prefers_nearer_first() {
    let r = union(hit(Color::Red, 2.0), hit(Color::Blue, 5.0)).unwrap();
    assert_eq!(r.color, Color::Red);
    assert_eq!(r.t, 2.0);
}

#[test]
fn union_prefers_nearer_second() {
    let r = union(hit(Color::Red, 5.0), hit(Color::Blue, 2.0)).unwrap();
    assert_eq!(r.color, Color::Blue);
    assert_eq!(r.t, 2.0);
}

#[test]
fn union_first_misses() {
    let r = union(None, hit(Color::Blue, 5.0)).unwrap();
    assert_eq!(r.color, Color::Blue);
    assert_eq!(r.t, 5.0);
}

#[test]
fn union_second_misses() {
    let r = union(hit(Color::Green, 3.5), None).unwrap();
    assert_eq!(r.color, Color::Green);
    assert_eq!(r.t, 3.5);
}

#[test]
fn union_both_miss() {
    assert!(union(None, None).is_none());
}

#[test]
fn union_tie_keeps_first() {
    let r = union(hit(Color::Cyan, 1.0), hit(Color::Magenta, 1.0)).unwrap();
    assert_eq!(r.color, Color::Cyan);
}

#[test]
fn nearest_follows_flag() {
    let r = nearest(hit(Color::Red, 9.0), hit(Color::Blue, 1.0), true).unwrap();
    assert_eq!(r.color, Color::Red);
    let r = nearest(hit(Color::Red, 1.0), hit(Color::Blue, 9.0), false).unwrap();
    assert_eq!(r.color, Color::Blue);
}

#[test]
fn recolor_keeps_t() {
    let r = recolor(hit(Color::Red, 0.75), Color::Yellow).unwrap();
    assert_eq!(r.color, Color::Yellow);
    assert_eq!(r.t, 0.75);
}

#[test]
fn recolor_miss_stays_miss() {
    assert!(recolor::<f64>(None, Color::Yellow).is_none());
}
