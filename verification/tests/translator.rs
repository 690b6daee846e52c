use cddl_itr::Error;
use cddl_itr::ast::{
    CtlKind, Group, GroupChoice, GroupEntry, Literal, MemberKey, Occur, Operator, RangeCtlOp, Rule,
    RuleMetadata, Type1, Type2, TypeChoice, TypeExpr,
};
use cddl_itr::catalog::IntermediateTypes;
use cddl_itr::ir::{FixedValue, Primitive, Representation, RustStruct, RustType, VariantIdent};
use cddl_itr::parsing::parse_rule;

fn meta_none() -> RuleMetadata {
    RuleMetadata { name: None, is_newtype: false }
}

fn bare_type1(t2: Type2) -> Type1 {
    Type1 { type2: t2, operator: None, meta: meta_none() }
}

fn single_type(t1: Type1) -> TypeExpr {
    TypeExpr { choices: vec![TypeChoice { type1: t1 }] }
}

fn typename(name: &str) -> Type2 {
    Type2::Typename { ident: name.to_owned(), generic_args: None }
}

fn type_rule(name: &str, value: TypeExpr) -> Rule {
    Rule::TypeRule { name: name.to_owned(), generic_params: None, value }
}

fn bareword_entry(key: &str, ty: &str) -> GroupEntry {
    GroupEntry::ValueMemberKey {
        occur: None,
        member_key: Some(MemberKey::Bareword { ident: key.to_owned() }),
        entry_type: single_type(bare_type1(typename(ty))),
        meta: meta_none(),
    }
}

#[test]
fn uint_size_two_is_u16_alias() {
    // foo = uint .size 2
    let mut types = IntermediateTypes::new();
    let rule = type_rule(
        "foo",
        single_type(Type1 {
            type2: typename("uint"),
            operator: Some(Operator {
                op: RangeCtlOp::CtlOp { ctrl: CtlKind::Size },
                type2: Type2::UintValue { value: 2 },
            }),
            meta: meta_none(),
        }),
    );
    assert_eq!(parse_rule(&mut types, &rule), Ok(()));
    assert_eq!(types.aliases.len(), 1);
    assert_eq!(types.aliases[0].ident.name, "Foo");
    assert_eq!(types.aliases[0].ty, RustType::Primitive(Primitive::U16));
}

#[test]
fn bytes_size_range_is_bounded_wrapper() {
    // bar = bytes .size (0..32)
    let mut types = IntermediateTypes::new();
    let rule = type_rule(
        "bar",
        single_type(Type1 {
            type2: typename("bytes"),
            operator: Some(Operator {
                op: RangeCtlOp::CtlOp { ctrl: CtlKind::Size },
                type2: Type2::ParenthesizedType {
                    inner: single_type(Type1 {
                        type2: Type2::UintValue { value: 0 },
                        operator: Some(Operator {
                            op: RangeCtlOp::RangeOp { is_inclusive: true },
                            type2: Type2::UintValue { value: 32 },
                        }),
                        meta: meta_none(),
                    }),
                },
            }),
            meta: meta_none(),
        }),
    );
    assert_eq!(parse_rule(&mut types, &rule), Ok(()));
    assert_eq!(types.structs.len(), 1);
    match &types.structs[0] {
        RustStruct::Wrapper { ident, tag, wrapped, bounds } => {
            assert_eq!(ident.name, "Bar");
            assert_eq!(*tag, None);
            assert_eq!(*wrapped, RustType::Primitive(Primitive::Bytes));
            assert_eq!(*bounds, Some((Some(0), Some(32))));
        },
        other => panic!("expected a wrapper, got {:?}", other),
    }
}

#[test]
fn int_or_null_is_optional_alias() {
    // maybe = int / null
    let mut types = IntermediateTypes::new();
    let rule = type_rule(
        "maybe",
        TypeExpr {
            choices: vec![
                TypeChoice { type1: bare_type1(typename("int")) },
                TypeChoice { type1: bare_type1(typename("null")) },
            ],
        },
    );
    assert_eq!(parse_rule(&mut types, &rule), Ok(()));
    assert_eq!(types.aliases.len(), 1);
    assert_eq!(types.aliases[0].ident.name, "Maybe");
    assert_eq!(
        types.aliases[0].ty,
        RustType::Optional(Box::new(RustType::Primitive(Primitive::I64)))
    );
}

#[test]
fn null_or_int_is_same_optional_alias() {
    // maybe = null / int reads the same as int / null
    let mut types = IntermediateTypes::new();
    let rule = type_rule(
        "maybe",
        TypeExpr {
            choices: vec![
                TypeChoice { type1: bare_type1(typename("null")) },
                TypeChoice { type1: bare_type1(typename("int")) },
            ],
        },
    );
    assert_eq!(parse_rule(&mut types, &rule), Ok(()));
    assert_eq!(
        types.aliases[0].ty,
        RustType::Optional(Box::new(RustType::Primitive(Primitive::I64)))
    );
}

#[test]
fn homogeneous_map_is_table() {
    // kv = { * uint => tstr }
    let mut types = IntermediateTypes::new();
    let entry = GroupEntry::ValueMemberKey {
        occur: Some(Occur::ZeroOrMore),
        member_key: Some(MemberKey::Type1 { t1: Box::new(bare_type1(typename("uint"))) }),
        entry_type: single_type(bare_type1(typename("tstr"))),
        meta: meta_none(),
    };
    let rule = type_rule(
        "kv",
        single_type(bare_type1(Type2::MapGroup {
            group: Group {
                choices: vec![GroupChoice { entries: vec![entry], meta: meta_none() }],
            },
        })),
    );
    assert_eq!(parse_rule(&mut types, &rule), Ok(()));
    assert_eq!(types.structs.len(), 1);
    match &types.structs[0] {
        RustStruct::Table { ident, tag, key, value } => {
            assert_eq!(ident.name, "Kv");
            assert_eq!(*tag, None);
            assert_eq!(*key, RustType::Primitive(Primitive::U64));
            assert_eq!(*value, RustType::Primitive(Primitive::Str));
        },
        other => panic!("expected a table, got {:?}", other),
    }
}

#[test]
fn single_entry_map_with_literal_key_is_record() {
    // one = { 1 => int }
    let mut types = IntermediateTypes::new();
    let entry = GroupEntry::ValueMemberKey {
        occur: None,
        member_key: Some(MemberKey::Value { value: Literal::Uint { value: 1 } }),
        entry_type: single_type(bare_type1(typename("int"))),
        meta: meta_none(),
    };
    let rule = type_rule(
        "one",
        single_type(bare_type1(Type2::MapGroup {
            group: Group {
                choices: vec![GroupChoice { entries: vec![entry], meta: meta_none() }],
            },
        })),
    );
    assert_eq!(parse_rule(&mut types, &rule), Ok(()));
    match &types.structs[0] {
        RustStruct::Record { ident, record, .. } => {
            assert_eq!(ident.name, "One");
            assert_eq!(record.rep, Representation::CborMap);
            assert_eq!(record.fields.len(), 1);
            assert_eq!(record.fields[0].name, "key_1");
            assert_eq!(record.fields[0].key, Some(FixedValue::Uint { value: 1 }));
        },
        other => panic!("expected a record, got {:?}", other),
    }
}

#[test]
fn array_record_with_two_fields() {
    // point = [x: int, y: int]
    let mut types = IntermediateTypes::new();
    let rule = type_rule(
        "point",
        single_type(bare_type1(Type2::ArrayGroup {
            group: Group {
                choices: vec![GroupChoice {
                    entries: vec![bareword_entry("x", "int"), bareword_entry("y", "int")],
                    meta: meta_none(),
                }],
            },
        })),
    );
    assert_eq!(parse_rule(&mut types, &rule), Ok(()));
    match &types.structs[0] {
        RustStruct::Record { ident, tag, record } => {
            assert_eq!(ident.name, "Point");
            assert_eq!(*tag, None);
            assert_eq!(record.rep, Representation::CborArray);
            assert_eq!(record.fields.len(), 2);
            assert_eq!(record.fields[0].name, "x");
            assert_eq!(record.fields[0].rust_type, RustType::Primitive(Primitive::I64));
            assert_eq!(record.fields[0].optional, false);
            assert_eq!(record.fields[0].key, None);
            assert_eq!(record.fields[1].name, "y");
        },
        other => panic!("expected a record, got {:?}", other),
    }
}

#[test]
fn duplicate_field_names_take_numeric_suffixes() {
    // dup = [a: int, a: int]
    let mut types = IntermediateTypes::new();
    let rule = type_rule(
        "dup",
        single_type(bare_type1(Type2::ArrayGroup {
            group: Group {
                choices: vec![GroupChoice {
                    entries: vec![bareword_entry("a", "int"), bareword_entry("a", "int")],
                    meta: meta_none(),
                }],
            },
        })),
    );
    assert_eq!(parse_rule(&mut types, &rule), Ok(()));
    match &types.structs[0] {
        RustStruct::Record { record, .. } => {
            assert_eq!(record.fields[0].name, "a");
            assert_eq!(record.fields[1].name, "a2");
        },
        other => panic!("expected a record, got {:?}", other),
    }
}

#[test]
fn tagged_cbor_bytes_resolves_earlier_alias() {
    // foo = uint
    // tagged = #6.24(bytes .cbor foo)
    let mut types = IntermediateTypes::new();
    let foo = type_rule("foo", single_type(bare_type1(typename("uint"))));
    assert_eq!(parse_rule(&mut types, &foo), Ok(()));
    let tagged = type_rule(
        "tagged",
        single_type(bare_type1(Type2::TaggedData {
            tag: Some(24),
            inner: single_type(Type1 {
                type2: typename("bytes"),
                operator: Some(Operator {
                    op: RangeCtlOp::CtlOp { ctrl: CtlKind::Cbor },
                    type2: typename("foo"),
                }),
                meta: meta_none(),
            }),
        })),
    );
    assert_eq!(parse_rule(&mut types, &tagged), Ok(()));
    assert_eq!(types.aliases.len(), 2);
    assert_eq!(types.aliases[1].ident.name, "Tagged");
    assert_eq!(
        types.aliases[1].ty,
        RustType::Tagged(
            24,
            Box::new(RustType::CBORBytes(Box::new(RustType::Primitive(Primitive::U64))))
        )
    );
}

#[test]
fn tagged_cbor_bytes_needs_referent_registered() {
    // tagged = #6.24(bytes .cbor missing) fails: nothing registered `missing`
    let mut types = IntermediateTypes::new();
    let tagged = type_rule(
        "tagged",
        single_type(bare_type1(Type2::TaggedData {
            tag: Some(24),
            inner: single_type(Type1 {
                type2: typename("bytes"),
                operator: Some(Operator {
                    op: RangeCtlOp::CtlOp { ctrl: CtlKind::Cbor },
                    type2: typename("missing"),
                }),
                meta: meta_none(),
            }),
        })),
    );
    assert_eq!(parse_rule(&mut types, &tagged), Err(Error::UnresolvedReference));
}

#[test]
fn type_choice_variants_are_named_and_deduped() {
    // union = int / tstr / bool
    let mut types = IntermediateTypes::new();
    let rule = type_rule(
        "union",
        TypeExpr {
            choices: vec![
                TypeChoice { type1: bare_type1(typename("int")) },
                TypeChoice { type1: bare_type1(typename("tstr")) },
                TypeChoice { type1: bare_type1(typename("bool")) },
            ],
        },
    );
    assert_eq!(parse_rule(&mut types, &rule), Ok(()));
    match &types.structs[0] {
        RustStruct::TypeChoice { ident, tag, variants } => {
            assert_eq!(ident.name, "Union");
            assert_eq!(*tag, None);
            assert_eq!(variants.len(), 3);
            assert_eq!(variants[0].name, VariantIdent::Custom { name: "Int".to_owned() });
            assert_eq!(variants[1].name, VariantIdent::Custom { name: "Text".to_owned() });
            assert_eq!(variants[2].name, VariantIdent::Custom { name: "Bool".to_owned() });
            assert_eq!(variants[0].rust_type, RustType::Primitive(Primitive::I64));
        },
        other => panic!("expected a type choice, got {:?}", other),
    }
}

#[test]
fn duplicate_variant_names_take_numeric_suffixes() {
    // pair = int / int
    let mut types = IntermediateTypes::new();
    let rule = type_rule(
        "pair",
        TypeExpr {
            choices: vec![
                TypeChoice { type1: bare_type1(typename("int")) },
                TypeChoice { type1: bare_type1(typename("int")) },
            ],
        },
    );
    assert_eq!(parse_rule(&mut types, &rule), Ok(()));
    match &types.structs[0] {
        RustStruct::TypeChoice { variants, .. } => {
            assert_eq!(variants[0].name, VariantIdent::Custom { name: "Int".to_owned() });
            assert_eq!(variants[1].name, VariantIdent::Custom { name: "Int2".to_owned() });
        },
        other => panic!("expected a type choice, got {:?}", other),
    }
}

#[test]
fn nested_tags_are_rejected() {
    // bad = #6.1(#6.2(int))
    let mut types = IntermediateTypes::new();
    let rule = type_rule(
        "bad",
        single_type(bare_type1(Type2::TaggedData {
            tag: Some(1),
            inner: single_type(bare_type1(Type2::TaggedData {
                tag: Some(2),
                inner: single_type(bare_type1(typename("int"))),
            })),
        })),
    );
    assert_eq!(parse_rule(&mut types, &rule), Err(Error::InvalidSchema));
}

#[test]
fn alias_chain_resolves_to_same_form() {
    // a = b ; c = a: both resolve to the same reference
    let mut types = IntermediateTypes::new();
    assert_eq!(parse_rule(&mut types, &type_rule("a", single_type(bare_type1(typename("b"))))), Ok(()));
    assert_eq!(parse_rule(&mut types, &type_rule("c", single_type(bare_type1(typename("a"))))), Ok(()));
    assert_eq!(types.aliases.len(), 2);
    assert_eq!(types.aliases[0].ty, types.aliases[1].ty);
    let a_res = types.apply_type_aliases(&cddl_itr::ir::CDDLIdent::new("a".to_owned()));
    let c_res = types.apply_type_aliases(&cddl_itr::ir::CDDLIdent::new("c".to_owned()));
    assert_eq!(a_res, c_res);
}

#[test]
fn newtype_annotation_makes_wrapper() {
    // speed = uint ; @newtype
    let mut types = IntermediateTypes::new();
    let rule = type_rule(
        "speed",
        single_type(Type1 {
            type2: typename("uint"),
            operator: None,
            meta: RuleMetadata { name: None, is_newtype: true },
        }),
    );
    assert_eq!(parse_rule(&mut types, &rule), Ok(()));
    match &types.structs[0] {
        RustStruct::Wrapper { ident, tag, wrapped, bounds } => {
            assert_eq!(ident.name, "Speed");
            assert_eq!(*tag, None);
            assert_eq!(*wrapped, RustType::Primitive(Primitive::U64));
            assert_eq!(*bounds, None);
        },
        other => panic!("expected a wrapper, got {:?}", other),
    }
}

#[test]
fn unsupported_control_operator_fails() {
    // bad = uint .default 5
    let mut types = IntermediateTypes::new();
    let rule = type_rule(
        "bad",
        single_type(Type1 {
            type2: typename("uint"),
            operator: Some(Operator {
                op: RangeCtlOp::CtlOp { ctrl: CtlKind::Default },
                type2: Type2::UintValue { value: 5 },
            }),
            meta: meta_none(),
        }),
    );
    assert_eq!(parse_rule(&mut types, &rule), Err(Error::SyntaxUnsupported));
}

#[test]
fn unknown_control_operator_fails() {
    let mut types = IntermediateTypes::new();
    let rule = type_rule(
        "bad",
        single_type(Type1 {
            type2: typename("uint"),
            operator: Some(Operator {
                op: RangeCtlOp::CtlOp { ctrl: CtlKind::Other },
                type2: Type2::UintValue { value: 5 },
            }),
            meta: meta_none(),
        }),
    );
    assert_eq!(parse_rule(&mut types, &rule), Err(Error::Unreachable));
}

#[test]
fn map_field_without_key_fails() {
    // bad = { int }
    let mut types = IntermediateTypes::new();
    let entry = GroupEntry::ValueMemberKey {
        occur: None,
        member_key: None,
        entry_type: single_type(bare_type1(typename("int"))),
        meta: meta_none(),
    };
    let rule = type_rule(
        "bad",
        single_type(bare_type1(Type2::MapGroup {
            group: Group {
                choices: vec![GroupChoice { entries: vec![entry], meta: meta_none() }],
            },
        })),
    );
    assert_eq!(parse_rule(&mut types, &rule), Err(Error::InvalidSchema));
}

#[test]
fn group_rule_with_generics_fails() {
    let mut types = IntermediateTypes::new();
    let rule = Rule::GroupRule {
        name: "g".to_owned(),
        has_generic_params: true,
        inline_group: Some(Group { choices: vec![] }),
    };
    assert_eq!(parse_rule(&mut types, &rule), Err(Error::SyntaxUnsupported));
}

#[test]
fn group_rule_with_other_entry_fails() {
    let mut types = IntermediateTypes::new();
    let rule = Rule::GroupRule {
        name: "g".to_owned(),
        has_generic_params: false,
        inline_group: None,
    };
    assert_eq!(parse_rule(&mut types, &rule), Err(Error::Unreachable));
}

#[test]
fn range_literal_rule_promotes_exact_bounds() {
    // byte = 0..255 ; nearly = 0..254
    let mut types = IntermediateTypes::new();
    let byte = type_rule(
        "byte",
        single_type(Type1 {
            type2: Type2::UintValue { value: 0 },
            operator: Some(Operator {
                op: RangeCtlOp::RangeOp { is_inclusive: true },
                type2: Type2::UintValue { value: 255 },
            }),
            meta: meta_none(),
        }),
    );
    assert_eq!(parse_rule(&mut types, &byte), Ok(()));
    assert_eq!(types.aliases[0].ty, RustType::Primitive(Primitive::U8));
    let nearly = type_rule(
        "nearly",
        single_type(Type1 {
            type2: Type2::UintValue { value: 0 },
            operator: Some(Operator {
                op: RangeCtlOp::RangeOp { is_inclusive: true },
                type2: Type2::UintValue { value: 254 },
            }),
            meta: meta_none(),
        }),
    );
    assert_eq!(parse_rule(&mut types, &nearly), Ok(()));
    // one unit narrower: no promotion, the literal fallback stands
    assert_eq!(types.aliases[1].ty, RustType::Fixed(FixedValue::Uint { value: 0 }));
}

#[test]
fn exclusive_range_lowers_upper_end() {
    // small = 0...16 means 0..15
    let mut types = IntermediateTypes::new();
    let rule = type_rule(
        "small",
        single_type(Type1 {
            type2: typename("bytes"),
            operator: Some(Operator {
                op: RangeCtlOp::CtlOp { ctrl: CtlKind::Size },
                type2: Type2::ParenthesizedType {
                    inner: single_type(Type1 {
                        type2: Type2::UintValue { value: 0 },
                        operator: Some(Operator {
                            op: RangeCtlOp::RangeOp { is_inclusive: false },
                            type2: Type2::UintValue { value: 16 },
                        }),
                        meta: meta_none(),
                    }),
                },
            }),
            meta: meta_none(),
        }),
    );
    assert_eq!(parse_rule(&mut types, &rule), Ok(()));
    match &types.structs[0] {
        RustStruct::Wrapper { bounds, .. } => {
            assert_eq!(*bounds, Some((Some(0), Some(15))));
        },
        other => panic!("expected a wrapper, got {:?}", other),
    }
}

#[test]
fn case_conversions() {
    assert_eq!(cddl_itr::names::convert_to_snake_case("FooBar"), "foo_bar");
    assert_eq!(cddl_itr::names::convert_to_snake_case("my-field"), "my_field");
    assert_eq!(cddl_itr::names::convert_to_camel_case("foo_bar-baz"), "FooBarBaz");
    assert_eq!(cddl_itr::names::u64_to_dec_string(1230), "1230");
    assert_eq!(cddl_itr::names::u64_to_dec_string(0), "0");
}
