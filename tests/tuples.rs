use exercicios::somar;

#[test]
fn sums_a_pair() {
    assert_eq!(somar((12, 12)), 24);
    assert_eq!(somar((-5, 3)), -2);
    assert_eq!(somar((i32::MAX, 0)), i32::MAX);
    assert_eq!(somar((i32::MIN, i32::MAX)), -1);
}

#[test]
fn tuple_positions_keep_literals() {
    let x: (i32, f64, u8) = (500, 6.4, 1);
    assert_eq!(x.0, 500);
    assert_eq!(x.1, 6.4);
    assert_eq!(x.2, 1);
    let (a, b, c) = x;
    assert_eq!((a, b, c), (500, 6.4, 1));
}
