use blackheap::benchmarker::{inline_tuple_add, tuple_add, Tuple};

#[test]
fn c_interop_works_const() {
    let tuple1 = Tuple { a: 1, b: 2 };
    let tuple2 = Tuple { a: 3, b: 4 };
    let result = tuple_add(&tuple1, &tuple2);
    assert_eq!(result.a, 4);
    assert_eq!(result.b, 6);
}

#[test]
fn c_interop_works_non_const() {
    let mut tuple1 = Tuple { a: 1, b: 2 };
    let tuple2 = Tuple { a: 3, b: 4 };
    inline_tuple_add(&mut tuple1, &tuple2);
    assert_eq!(tuple1.a, 4);
    assert_eq!(tuple1.b, 6);
}

#[test]
fn tuple_add_handles_negative_components() {
    let result = tuple_add(&Tuple { a: -5, b: 7 }, &Tuple { a: 2, b: -10 });
    assert_eq!(result, Tuple { a: -3, b: -3 });
}
