use clay_layout::layout::padding::Padding;
use clay_layout::layout::padding::PaddingRecord;

#[test]
fn padding_constructors() {
    let p = Padding::new_rect(1, 2, 3, 4);
    assert_eq!(p.left, 1);
    assert_eq!(p.right, 2);
    assert_eq!(p.top, 3);
    assert_eq!(p.bottom, 4);

    let a = Padding::all(9);
    assert_eq!((a.left, a.right, a.top, a.bottom), (9, 9, 9, 9));

    let h = Padding::horizontal(7);
    assert_eq!((h.left, h.right, h.top, h.bottom), (7, 7, 0, 0));

    let v = Padding::vertical(5);
    assert_eq!((v.left, v.right, v.top, v.bottom), (0, 0, 5, 5));

    let z = Padding::new();
    assert_eq!((z.left, z.right, z.top, z.bottom), (0, 0, 0, 0));
}

#[test]
fn padding_setters_chain() {
    let p = Padding::new().left(1).right(2).top(3).bottom(4).end();
    assert_eq!((p.left, p.right, p.top, p.bottom), (1, 2, 3, 4));
}

#[test]
fn padding_round_trip_zero_and_max() {
    let zero = Padding::new_rect(0, 0, 0, 0);
    assert_eq!(Padding::from_record(zero.to_record()), zero);

    let max = Padding::new_rect(u16::MAX, u16::MAX, u16::MAX, u16::MAX);
    assert_eq!(Padding::from_record(max.to_record()), max);

    let mixed = Padding::new_rect(0, u16::MAX, 12345, 1);
    assert_eq!(Padding::from_record(mixed.to_record()), mixed);

    let record = PaddingRecord { left: 3, right: 1, top: 4, bottom: 1 };
    assert_eq!(Padding::from_record(record).to_record(), record);
}

#[test]
fn padding_from_tuples() {
    let four = Padding::from((1, 2, 3, 4));
    assert_eq!((four.left, four.right, four.top, four.bottom), (1, 2, 3, 4));

    let pair = Padding::from((10, 20));
    assert_eq!((pair.left, pair.right, pair.top, pair.bottom), (10, 10, 20, 20));
}
