use faux::{Budget, Faux, MaybeFaux, MockCall, WhenHolder};

fn produced<O>(r: MockCall<O>) -> Option<O> {
    match r {
        MockCall::Produced(v) => Some(v),
        _ => None,
    }
}

fn is_no_mock<O>(r: &MockCall<O>) -> bool {
    matches!(r, MockCall::NoMock)
}

fn is_type_mismatch<O>(r: &MockCall<O>) -> bool {
    matches!(r, MockCall::TypeMismatch)
}

#[test]
fn consume_once() {
    let mut f = Faux::new();
    f.mock_once_safe(10, |_: ()| 7i32);
    assert_eq!(produced(f.safe_call_mock::<(), i32>(10, ())), Some(7));
    assert!(is_no_mock(&f.safe_call_mock::<(), i32>(10, ())));
}

#[test]
fn identifier_isolation() {
    let mut f = Faux::new();
    f.mock_once_safe(1, |_: ()| 1i32);
    WhenHolder::new(2).safe_then(&mut f, |_: ()| 2i32);
    // Registering under one identifier leaves the other alone.
    assert_eq!(produced(f.safe_call_mock::<(), i32>(2, ())), Some(2));
    // Consuming under one identifier leaves the other alone.
    assert_eq!(produced(f.safe_call_mock::<(), i32>(1, ())), Some(1));
    assert!(is_no_mock(&f.safe_call_mock::<(), i32>(1, ())));
    assert_eq!(produced(f.safe_call_mock::<(), i32>(2, ())), Some(2));
}

#[test]
fn bounded_budget_counts_down() {
    let mut f = Faux::new();
    WhenHolder::new(5).times(3).safe_then(&mut f, |_: ()| 9i32);
    for _ in 0..3 {
        assert_eq!(produced(f.safe_call_mock::<(), i32>(5, ())), Some(9));
    }
    assert!(is_no_mock(&f.safe_call_mock::<(), i32>(5, ())));
}

#[test]
fn round_trip_integers() {
    let mut f = Faux::new();
    WhenHolder::new(3).safe_then(&mut f, |x: i32| x * 2);
    assert_eq!(produced(f.safe_call_mock::<i32, i32>(3, 5)), Some(10));
    assert_eq!(produced(f.safe_call_mock::<i32, i32>(3, -4)), Some(-8));
    assert_eq!(produced(f.safe_call_mock::<i32, i32>(3, 0)), Some(0));
}

#[test]
fn round_trip_strings() {
    let mut f = Faux::new();
    WhenHolder::new(4).safe_then(&mut f, |s: String| s.len());
    assert_eq!(
        produced(f.safe_call_mock::<String, usize>(4, String::from("hello"))),
        Some(5)
    );
    assert_eq!(
        produced(f.safe_call_mock::<String, usize>(4, String::new())),
        Some(0)
    );
}

#[derive(Debug, PartialEq)]
struct Point {
    x: i64,
    y: i64,
}

#[test]
fn round_trip_structs() {
    let mut f = Faux::new();
    WhenHolder::new(6).safe_then(&mut f, |p: Point| Point { x: p.y, y: p.x });
    assert_eq!(
        produced(f.safe_call_mock::<Point, Point>(6, Point { x: 2, y: 3 })),
        Some(Point { x: 3, y: 2 })
    );
}

#[test]
fn mismatched_output_type_is_reported() {
    let mut f = Faux::new();
    WhenHolder::new(8).safe_then(&mut f, |_: ()| 1i32);
    // Asking for a String where an i32 was registered is a distinct failure,
    // and the entry is dropped with it.
    assert!(is_type_mismatch(&f.safe_call_mock::<(), String>(8, ())));
    assert!(is_no_mock(&f.safe_call_mock::<(), i32>(8, ())));
}

#[test]
fn mismatched_input_type_is_reported() {
    let mut f = Faux::new();
    WhenHolder::new(9).safe_then(&mut f, |x: i32| x);
    assert!(is_type_mismatch(
        &f.safe_call_mock::<String, i32>(9, String::from("five"))
    ));
}

#[test]
fn last_registration_wins() {
    let mut f = Faux::new();
    f.mock_once_safe(11, |_: ()| 1i32);
    f.mock_once_safe(11, |_: ()| 2i32);
    assert_eq!(produced(f.safe_call_mock::<(), i32>(11, ())), Some(2));
    assert!(is_no_mock(&f.safe_call_mock::<(), i32>(11, ())));
}

#[test]
fn heterogeneous_behaviors_share_one_store() {
    let mut f = Faux::new();
    WhenHolder::new(21).safe_then(&mut f, |x: u8| u32::from(x) + 1);
    WhenHolder::new(22).safe_then(&mut f, |s: String| format!("{s}!"));
    WhenHolder::new(23).safe_then(&mut f, |(a, b): (i32, i32)| a + b);
    assert_eq!(produced(f.safe_call_mock::<u8, u32>(21, 41)), Some(42));
    assert_eq!(
        produced(f.safe_call_mock::<String, String>(22, String::from("ok"))),
        Some(String::from("ok!"))
    );
    assert_eq!(
        produced(f.safe_call_mock::<(i32, i32), i32>(23, (20, 22))),
        Some(42)
    );
}

#[test]
fn fn_once_behavior_may_move_its_capture() {
    let mut f = Faux::new();
    let answer = String::from("moved");
    f.mock_once_safe(12, move |_: ()| answer);
    assert_eq!(
        produced(f.safe_call_mock::<(), String>(12, ())),
        Some(String::from("moved"))
    );
}

#[test]
fn budget_state_machine_steps() {
    assert_eq!(Budget::Times(3).next(), Some(Budget::Times(2)));
    assert_eq!(Budget::Times(1).next(), None);
    assert_eq!(Budget::Always.next(), Some(Budget::Always));
}

#[test]
fn real_variant_keeps_its_contents() {
    let real: MaybeFaux<i32> = MaybeFaux::Real(17);
    match real {
        MaybeFaux::Real(v) => assert_eq!(v, 17),
        MaybeFaux::Faux(_) => panic!("expected the real variant"),
    }
}

#[test]
fn mismatched_input_does_not_leak_through() {
    let mut f = Faux::new();
    WhenHolder::new(13).safe_then(&mut f, |x: i32| format!("{x}"));
    // The presented input already has the output's type; it must still be
    // rejected, not handed back as if it were the behavior's answer.
    assert!(is_type_mismatch(
        &f.safe_call_mock::<String, String>(13, String::from("abc"))
    ));
}
