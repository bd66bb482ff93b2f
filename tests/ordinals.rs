use kj::header::{BuiltinIndicesEnum, HeaderId, HEADER_COUNT};
use kj::method::{HttpMethod, METHOD_COUNT};

#[test]
fn method_ordinals_are_fixed() {
    assert_eq!(HttpMethod::GET.ordinal(), 0);
    assert_eq!(HttpMethod::HEAD.ordinal(), 1);
    assert_eq!(HttpMethod::OPTIONS.ordinal(), 7);
    assert_eq!(HttpMethod::QUERY.ordinal(), 26);
    assert_eq!(HttpMethod::BAN.ordinal(), 27);
    assert_eq!(METHOD_COUNT, 28);
}

#[test]
fn method_ordinal_round_trips() {
    for n in 0..METHOD_COUNT {
        let m = HttpMethod::from_ordinal(n).unwrap();
        assert_eq!(m.ordinal(), n);
    }
    assert_eq!(HttpMethod::from_ordinal(28), None);
    assert_eq!(HttpMethod::from_ordinal(u32::MAX), None);
    assert_eq!(HttpMethod::from_ordinal(0), Some(HttpMethod::GET));
    assert_eq!(HttpMethod::from_ordinal(27), Some(HttpMethod::BAN));
}

#[test]
fn header_ordinals_are_fixed() {
    assert_eq!(BuiltinIndicesEnum::CONNECTION.ordinal(), 0);
    assert_eq!(BuiltinIndicesEnum::HOST.ordinal(), 11);
    assert_eq!(BuiltinIndicesEnum::CONTENT_RANGE.ordinal(), 16);
    assert_eq!(HEADER_COUNT, 17);
}

#[test]
fn header_ordinal_round_trips() {
    for n in 0..HEADER_COUNT {
        let id: HeaderId = BuiltinIndicesEnum::from_ordinal(n).unwrap();
        assert_eq!(id.ordinal(), n);
    }
    assert_eq!(BuiltinIndicesEnum::from_ordinal(17), None);
    assert_eq!(BuiltinIndicesEnum::from_ordinal(16), Some(BuiltinIndicesEnum::CONTENT_RANGE));
}
