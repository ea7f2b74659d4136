// Round-trip tests of the conversion trait on the worked mirror pairs.

use redefined::convert_round_trip;
use redefined::mirrors::{EnumA, EnumB, GenericConstantStructB, GenericStructB,
    SelfEnumWithAttributeA, SelfEnumWithAttributeARedefined, SelfSourceEnumA,
    SelfSourceEnumARedefined, SelfSourceEnumWithDefaultAttributeA,
    SelfSourceEnumWithDefaultAttributeARedefined, SelfSourceStructA, SelfSourceStructARedefined,
    SelfSourceStructWithAttributeA, SelfSourceStructWithAttributeARedefined,
    SelfSourceStructWithDefaultAttributeA, SelfSourceStructWithDefaultAttributeARedefined,
    OutsideStructB, StructA, StructB, UnnamedStructA, UnnamedStructB};
use redefined::outside_types::{GenericConstantStructA, GenericStructA, OutsideStructA};
use redefined::test_types::{GenericConstantStruct, GenericTypeStruct, NonPubFieldStructB,
    PrivateFieldStruct, ToFromSourceFieldStructB};
use redefined::RedefinedConvert;

#[test]
fn test_struct() {
    let struct_a = StructA::default();
    let struct_b = StructB::from_source(struct_a.clone());
    let struct_b_to_a: StructA = struct_b.to_source();
    assert_eq!(struct_b_to_a, struct_a);
}

#[test]
fn test_unnamed_struct() {
    let struct_a = UnnamedStructA::default();
    let struct_b = UnnamedStructB::from_source(struct_a.clone());
    let struct_b_to_a: UnnamedStructA = struct_b.to_source();
    assert_eq!(struct_b_to_a, struct_a);
}

#[test]
fn test_enum() {
    // case 1
    let enum_a = EnumA::A;
    let enum_b = EnumB::from_source(enum_a.clone());
    assert_eq!(EnumB::A, enum_b);
    let enum_b_to_a: EnumA = enum_b.to_source();
    assert_eq!(enum_b_to_a, enum_a);

    // case 2
    let enum_a = EnumA::C(100);
    let enum_b = EnumB::from_source(enum_a.clone());
    let enum_b_to_a: EnumA = enum_b.to_source();
    assert_eq!(enum_b_to_a, enum_a);
}

#[test]
fn test_struct_non_pub_and_new_source_fn_field() {
    let struct_a = PrivateFieldStruct::default();
    let struct_b = NonPubFieldStructB::from_source(struct_a.clone());
    let struct_b_to_a: PrivateFieldStruct = struct_b.to_source();
    assert_eq!(struct_b_to_a, struct_a);
}

#[test]
fn test_struct_new_self_and_new_source_fn_field() {
    let struct_a = PrivateFieldStruct::default();
    let struct_b = NonPubFieldStructB::from_source(struct_a.clone());
    let struct_b_to_a: PrivateFieldStruct = struct_b.to_source();
    assert_eq!(struct_b_to_a, struct_a);
}

#[test]
fn test_transmute_struct() {
    let struct_a = PrivateFieldStruct::default();
    let struct_b = ToFromSourceFieldStructB::from_source(struct_a.clone());
    let struct_b_to_a: PrivateFieldStruct = struct_b.to_source();
    assert_eq!(struct_b_to_a, struct_a);
}

#[test]
fn test_type_generic_struct() {
    let struct_a: GenericTypeStruct<i32, String> =
        GenericTypeStruct { p: 10, d: 100, vals: vec![String::new()] };
    let struct_b: GenericStructB<i32, String> = GenericStructB::from_source(struct_a.clone());
    let struct_b_to_a: GenericTypeStruct<i32, String> = struct_b.to_source();
    assert_eq!(struct_b_to_a, struct_a);
}

#[test]
fn test_const_generic_struct() {
    let struct_a = GenericConstantStruct { p: 100, d: [100, 231, -12356] };
    let struct_b: GenericConstantStructB<3> = GenericConstantStructB::from_source(struct_a.clone());
    let struct_b_to_a: GenericConstantStruct<3> = struct_b.to_source();
    assert_eq!(struct_b_to_a, struct_a);
}

#[test]
fn test_self_source_struct() {
    let struct_a: SelfSourceStructA<u64, OutsideStructA> = SelfSourceStructA::default();
    let struct_b: SelfSourceStructARedefined<u64, OutsideStructB> =
        SelfSourceStructARedefined::from_source(struct_a.clone());
    let struct_b_to_a: SelfSourceStructA<u64, OutsideStructA> = struct_b.to_source();
    assert_eq!(struct_b_to_a, struct_a);
}

#[test]
fn test_self_source_struct_with_default_attr() {
    let struct_a: SelfSourceStructWithDefaultAttributeA<u64> =
        SelfSourceStructWithDefaultAttributeA::default();
    let struct_b: SelfSourceStructWithDefaultAttributeARedefined<u64> =
        SelfSourceStructWithDefaultAttributeARedefined::from_source(struct_a.clone());
    let struct_b_to_a: SelfSourceStructWithDefaultAttributeA<u64> = struct_b.to_source();
    assert_eq!(struct_b_to_a, struct_a);
}

#[test]
fn test_self_source_struct_with_attr() {
    let struct_a: SelfSourceStructWithAttributeA<u64> = SelfSourceStructWithAttributeA::default();
    let struct_b: SelfSourceStructWithAttributeARedefined<u64> =
        SelfSourceStructWithAttributeARedefined::from_source(struct_a.clone());
    let struct_b_to_a: SelfSourceStructWithAttributeA<u64> = struct_b.to_source();
    assert_eq!(struct_b_to_a, struct_a);
}

#[test]
fn test_self_source_enum() {
    let enum_a: SelfSourceEnumA<u64, OutsideStructA> = SelfSourceEnumA::C(Default::default());
    let enum_b: SelfSourceEnumARedefined<u64, OutsideStructB> =
        SelfSourceEnumARedefined::from_source(enum_a.clone());
    let enum_b_to_a: SelfSourceEnumA<u64, OutsideStructA> = enum_b.to_source();
    assert_eq!(enum_b_to_a, enum_a);
}

#[test]
fn test_self_source_enum_with_default_attr() {
    let enum_a: SelfSourceEnumWithDefaultAttributeA<u64> =
        SelfSourceEnumWithDefaultAttributeA::D { d: Default::default() };
    let enum_b: SelfSourceEnumWithDefaultAttributeARedefined<u64> =
        SelfSourceEnumWithDefaultAttributeARedefined::from_source(enum_a.clone());
    let enum_b_to_a: SelfSourceEnumWithDefaultAttributeA<u64> = enum_b.to_source();
    assert_eq!(enum_b_to_a, enum_a);
}

#[test]
fn test_self_source_enum_with_attr() {
    let enum_a: SelfEnumWithAttributeA<OutsideStructA> =
        SelfEnumWithAttributeA::C(Default::default());
    let enum_b: SelfEnumWithAttributeARedefined<OutsideStructB> =
        SelfEnumWithAttributeARedefined::from_source(enum_a.clone());
    let enum_b_to_a: SelfEnumWithAttributeA<OutsideStructA> = enum_b.to_source();
    assert_eq!(enum_b_to_a, enum_a);
}

#[test]
fn round_trip_law_on_concrete_values() {
    // The generic round-trip law, exercised at two mirror pairs.
    let a = StructA { p: 7, d: 9, vals: vec!["x".to_string(), "y".to_string()] };
    let r = convert_round_trip::<StructA, StructB>(a.clone());
    assert_eq!(r, a);

    let g: GenericStructA<u32, String> =
        GenericStructA { p: 1, d: 2, vals: vec!["z".to_string()] };
    let r = convert_round_trip::<GenericStructA<u32, String>, GenericStructB<u32, String>>(
        g.clone(),
    );
    assert_eq!(r, g);
}

#[test]
fn generic_mirror_round_trips_at_two_instantiations() {
    // One generic implementation serves two different concrete type pairs.
    let first: GenericStructA<i32, String> =
        GenericStructA { p: 10, d: 100, vals: vec![String::new()] };
    let b: GenericStructB<i32, String> = GenericStructB::from_source(first.clone());
    let back: GenericStructA<i32, String> = b.to_source();
    assert_eq!(back, first);

    let second: GenericStructA<u64, u8> = GenericStructA { p: 3, d: 4, vals: vec![5u8, 6u8] };
    let b: GenericStructB<u64, u8> = GenericStructB::from_source(second.clone());
    let back: GenericStructA<u64, u8> = b.to_source();
    assert_eq!(back, second);
}

#[test]
fn const_generic_mirror_of_outside_source() {
    let a = GenericConstantStructA { p: 8, d: [1, 2] };
    let b: GenericConstantStructB<2> = GenericConstantStructB::from_source(a.clone());
    let back: GenericConstantStructA<2> = b.to_source();
    assert_eq!(back, a);
}

#[test]
fn nested_mirror_converts_one_level_deep() {
    // A record whose field type has its own mirror: conversion recurses one
    // level.
    let inner = SelfSourceStructWithAttributeA {
        p: "inner".to_string(),
        c: OutsideStructA { p: 1, d: 2, vals: vec!["v".to_string()] },
        d: vec![10u64],
    };
    let outer = SelfSourceStructWithDefaultAttributeA {
        p: "outer".to_string(),
        c: inner.clone(),
        d: vec![20u64],
    };
    let mirrored: SelfSourceStructWithDefaultAttributeARedefined<u64> =
        SelfSourceStructWithDefaultAttributeARedefined::from_source(outer.clone());
    assert_eq!(mirrored.c.c.p, 1);
    assert_eq!(mirrored.c.c.vals, vec!["v".to_string()]);
    let back: SelfSourceStructWithDefaultAttributeA<u64> = mirrored.to_source();
    assert_eq!(back, outer);
}

#[test]
fn private_field_mirror_uses_accessor() {
    // The accessor expression stands in for the private field.
    let a = PrivateFieldStruct::new(41, 42, vec!["w".to_string()]);
    let b = NonPubFieldStructB::from_source(a.clone());
    assert_eq!(b.p, 41);
    assert_eq!(b.d, 42);
    let back = b.to_source();
    assert_eq!(back, a);
    assert_eq!(back.get_p(), 41);
}

#[test]
fn tuple_components_convert_independently() {
    let src: (u64, String, u8, bool) = (1, "t".to_string(), 2, true);
    let mirrored: (u64, String, u8, bool) = RedefinedConvert::from_source(src.clone());
    assert_eq!(mirrored, src);
    let back: (u64, String, u8, bool) = mirrored.to_source();
    assert_eq!(back, src);

    let nested: (StructA, u64) = (StructA { p: 1, d: 2, vals: vec![] }, 3);
    let mirrored: (StructB, u64) = RedefinedConvert::from_source(nested.clone());
    assert_eq!(mirrored.0.p, 1);
    let back: (StructA, u64) = mirrored.to_source();
    assert_eq!(back, nested);
}

#[test]
fn option_and_vec_containers_convert() {
    let src: Option<StructA> = Some(StructA { p: 5, d: 6, vals: vec!["a".to_string()] });
    let mirrored: Option<StructB> = RedefinedConvert::from_source(src.clone());
    assert_eq!(mirrored.as_ref().map(|b| b.p), Some(5));
    let back: Option<StructA> = mirrored.to_source();
    assert_eq!(back, src);

    let none_src: Option<StructA> = None;
    let none_mirrored: Option<StructB> = RedefinedConvert::from_source(none_src.clone());
    assert!(none_mirrored.is_none());

    let many: Vec<StructA> = vec![
        StructA { p: 1, d: 2, vals: vec![] },
        StructA { p: 3, d: 4, vals: vec!["b".to_string()] },
    ];
    let mirrored: Vec<StructB> = RedefinedConvert::from_source(many.clone());
    assert_eq!(mirrored.len(), 2);
    assert_eq!(mirrored[1].p, 3);
    let back: Vec<StructA> = mirrored.to_source();
    assert_eq!(back, many);
}

#[test]
fn references_arrays_and_wide_tuples_convert_to_themselves() {
    let x: u64 = 9;
    let r: &u64 = RedefinedConvert::from_source(&x);
    assert_eq!(*r, 9);
    let s: &str = RedefinedConvert::from_source("borrowed");
    assert_eq!(s, "borrowed");

    let a: [u32; 3] = [1, 2, 3];
    let m: [u32; 3] = RedefinedConvert::from_source(a);
    assert_eq!(m, [1, 2, 3]);
    let back: [u32; 3] = m.to_source();
    assert_eq!(back, a);

    let unit: () = RedefinedConvert::from_source(());
    assert_eq!(unit, ());
    let wide: (u8, u8, u8, u8, u8, u8, u8) =
        RedefinedConvert::from_source((1u8, 2u8, 3u8, 4u8, 5u8, 6u8, 7u8));
    assert_eq!(wide, (1, 2, 3, 4, 5, 6, 7));
}
