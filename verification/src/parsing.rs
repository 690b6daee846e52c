//! The rule dispatcher: walks each top-level CDDL rule and registers what it
//! denotes — an alias, a wrapper, an optional, a tagged type, a record, a
//! table, or a sum type.

use vstd::prelude::*;
use crate::Error;
use crate::ast::{Rule, RuleV, Type1V, TypeChoice, TypeChoiceV, Type2, Type2V};
use crate::catalog::{CatalogV, IntermediateTypes, spec_apply_type_aliases, spec_new_type};
use crate::control::{ControlOperator, parse_control_operator, range_to_primitive, spec_ctl,
    spec_range_to_primitive};
use crate::ir::{CDDLIdent, Representation, RustIdent, RustStruct, RustStructV, RustType,
    RustTypeV};
use crate::names::camel_of;

verus! {

broadcast use crate::ast::group_ast_views, crate::ast::group_ast_view_defs;

/// Whether a basic type term is the `null` (or `nil`) typename.
pub open spec fn spec_type2_is_null(t2: Type2V) -> bool {
    match t2 {
        Type2V::Typename { ident, .. } => ident == "null"@ || ident == "nil"@,
        _ => false,
    }
}

/// Tests whether a basic type term is `null`/`nil`.
pub fn type2_is_null(t2: &Type2) -> (r: bool)
    ensures
        r == spec_type2_is_null(t2.deep_view()),
{
    match t2 {
        Type2::Typename { ident, .. } => {
            let null_s: String = "null".to_owned();
            let nil_s: String = "nil".to_owned();
            *ident == null_s || *ident == nil_s
        },
        _ => false,
    }
}


/// Which of the prelude names with special rule-level treatment `s` is.
pub open spec fn is_int_name(s: Seq<char>) -> bool {
    s == "uint"@ || s == "int"@
}

pub open spec fn is_text_name(s: Seq<char>) -> bool {
    s == "tstr"@ || s == "text"@
}

pub open spec fn is_bytes_name(s: Seq<char>) -> bool {
    s == "bstr"@ || s == "bytes"@
}

fn ident_is_int_name(s: &String) -> (r: bool)
    ensures
        r == is_int_name(s@),
{
    let a: String = "uint".to_owned();
    let b: String = "int".to_owned();
    *s == a || *s == b
}

fn ident_is_text_name(s: &String) -> (r: bool)
    ensures
        r == is_text_name(s@),
{
    let a: String = "tstr".to_owned();
    let b: String = "text".to_owned();
    *s == a || *s == b
}

fn ident_is_bytes_name(s: &String) -> (r: bool)
    ensures
        r == is_bytes_name(s@),
{
    let a: String = "bstr".to_owned();
    let b: String = "bytes".to_owned();
    *s == a || *s == b
}

/// Pushes a type alias registration onto the catalog model.
pub open spec fn spec_push_alias(cat: CatalogV, name: Seq<char>, ty: RustTypeV) -> CatalogV {
    CatalogV {
        aliases: cat.aliases.push(
            crate::catalog::AliasEntryV {
                ident: name,
                ty,
                generate_rust: true,
                generate_serialize: true,
            },
        ),
        ..cat
    }
}

/// Registers a rule whose body is a list of alternatives. Exactly two
/// alternatives with one `null` register an alias to `Optional` of the other
/// (under the outer tag when one is given); `null / null` is invalid, and
/// generic parameters on the optional shape are unsupported. Any other list
/// registers a `TypeChoice` (or its `GenericDef`) with synthesized variants.
pub open spec fn spec_parse_type_choices(
    cat: CatalogV,
    name: Seq<char>,
    choices: Seq<TypeChoiceV>,
    tag: Option<u64>,
    generic_params: Option<Seq<Seq<char>>>,
) -> Result<CatalogV, Error>
    decreases choices, 3int, 0int,
{
    let optional_inner: Option<Type1V> = if choices.len() == 2 {
        if spec_type2_is_null(choices[0].type1.type2) {
            Some(choices[1].type1)
        } else if spec_type2_is_null(choices[1].type1.type2) {
            Some(choices[0].type1)
        } else {
            None
        }
    } else {
        None
    };
    match optional_inner {
        Some(inner) => {
            if generic_params is Some {
                Err(Error::SyntaxUnsupported)
            } else if spec_type2_is_null(inner.type2) {
                Err(Error::InvalidSchema)
            } else {
                match crate::lower::spec_rust_type_from_type1(cat, inner) {
                    Err(e) => Err(e),
                    Ok((cat1, ty)) => {
                        let final_type = match tag {
                            Some(t) => RustTypeV::Tagged(
                                t,
                                Box::new(RustTypeV::Optional(Box::new(ty))),
                            ),
                            None => RustTypeV::Optional(Box::new(ty)),
                        };
                        Ok(spec_push_alias(cat1, name, final_type))
                    },
                }
            }
        },
        None => match crate::lower::spec_variants_from_type_choices(
            cat,
            Seq::<(Seq<char>, u64)>::empty(),
            choices,
            0,
        ) {
            Err(e) => Err(e),
            Ok((cat1, variants)) => {
                let s = RustStructV::TypeChoice { ident: name, tag, variants };
                match generic_params {
                    Some(params) => Ok(
                        CatalogV {
                            generic_defs: cat1.generic_defs.push(
                                crate::ir::GenericDefV { params, body: s },
                            ),
                            ..cat1
                        },
                    ),
                    None => Ok(CatalogV { structs: cat1.structs.push(s), ..cat1 }),
                }
            },
        },
    }
}

/// Registers one rule alternative under `name`.
///
/// A typename with a range control registers the matching primitive alias
/// (for `uint`/`int`) or a bounded `Wrapper` over text or bytes; `.cbor`
/// over bytes registers an alias to `CBORBytes` of the lowered operand. A
/// bare typename resolves through the catalog and registers an alias, a
/// newtype `Wrapper` when the `@newtype` annotation stands on it, or a
/// `GenericInstance` when arguments are given. Map and array bodies go to
/// the group classifier. One level of tagged data re-dispatches under the
/// tag; a tagged typename resolves eagerly and fails with an unresolved
/// reference when the referent is not yet registered. Literal bodies
/// register fixed-value aliases, promoted through a range control when one
/// fits a primitive exactly.
pub open spec fn spec_parse_type(
    cat: CatalogV,
    name: Seq<char>,
    choice: TypeChoiceV,
    outer_tag: Option<u64>,
    generic_params: Option<Seq<Seq<char>>>,
) -> Result<CatalogV, Error>
    decreases choice, 0int, 0int,
{
    let t1 = choice.type1;
    match t1.type2 {
        Type2V::Typename { ident, generic_args } => match t1.operator {
            Some(op) => match spec_ctl(t1.type2, op) {
                Err(e) => Err(e),
                Ok(ctl) => {
                    if generic_params is Some {
                        Err(Error::SyntaxUnsupported)
                    } else {
                        match ctl {
                            ControlOperator::Range { low, high } => {
                                if is_int_name(ident) {
                                    match spec_range_to_primitive(low, high) {
                                        Some(p) => Ok(
                                            spec_push_alias(cat, name, RustTypeV::Primitive(p)),
                                        ),
                                        None => Err(Error::SyntaxUnsupported),
                                    }
                                } else if is_text_name(ident) {
                                    Ok(
                                        CatalogV {
                                            structs: cat.structs.push(
                                                RustStructV::Wrapper {
                                                    ident: name,
                                                    tag: outer_tag,
                                                    wrapped: RustTypeV::Primitive(
                                                        crate::ir::Primitive::Str,
                                                    ),
                                                    bounds: Some((low, high)),
                                                },
                                            ),
                                            ..cat
                                        },
                                    )
                                } else if is_bytes_name(ident) {
                                    Ok(
                                        CatalogV {
                                            structs: cat.structs.push(
                                                RustStructV::Wrapper {
                                                    ident: name,
                                                    tag: outer_tag,
                                                    wrapped: RustTypeV::Primitive(
                                                        crate::ir::Primitive::Bytes,
                                                    ),
                                                    bounds: Some((low, high)),
                                                },
                                            ),
                                            ..cat
                                        },
                                    )
                                } else {
                                    Err(Error::SyntaxUnsupported)
                                }
                            },
                            ControlOperator::Cbor => {
                                if is_bytes_name(ident) {
                                    match crate::lower::spec_rust_type_from_type2(
                                        cat,
                                        op.type2,
                                        t1.meta,
                                    ) {
                                        Err(e) => Err(e),
                                        Ok((cat1, ty)) => Ok(
                                            spec_push_alias(
                                                cat1,
                                                name,
                                                RustTypeV::CBORBytes(Box::new(ty)),
                                            ),
                                        ),
                                    }
                                } else if is_text_name(ident) {
                                    Err(Error::InvalidSchema)
                                } else {
                                    Err(Error::SyntaxUnsupported)
                                }
                            },
                        }
                    }
                },
            },
            None => {
                let concrete = match spec_new_type(cat, ident) {
                    RustTypeV::Alias(_id, ty) => *ty,
                    ty => ty,
                };
                if generic_params is Some {
                    Err(Error::SyntaxUnsupported)
                } else {
                    match generic_args {
                        Some(args) => match crate::lower::spec_lower_generic_args(cat, args, 0) {
                            Err(e) => Err(e),
                            Ok((cat1, tys)) => Ok(
                                CatalogV {
                                    generic_instances: cat1.generic_instances.push(
                                        crate::ir::GenericInstanceV {
                                            ident: name,
                                            generic_ident: camel_of(ident),
                                            generic_args: tys,
                                        },
                                    ),
                                    ..cat1
                                },
                            ),
                        },
                        None => {
                            if t1.meta.is_newtype {
                                Ok(
                                    CatalogV {
                                        structs: cat.structs.push(
                                            RustStructV::Wrapper {
                                                ident: name,
                                                tag: None,
                                                wrapped: concrete,
                                                bounds: None,
                                            },
                                        ),
                                        ..cat
                                    },
                                )
                            } else {
                                Ok(spec_push_alias(cat, name, concrete))
                            }
                        },
                    }
                }
            },
        },
        Type2V::MapGroup { group } => crate::group::spec_parse_group(
            cat,
            group,
            name,
            Representation::CborMap,
            outer_tag,
            generic_params,
        ),
        Type2V::ArrayGroup { group } => crate::group::spec_parse_group(
            cat,
            group,
            name,
            Representation::CborArray,
            outer_tag,
            generic_params,
        ),
        Type2V::TaggedData { tag, inner } => {
            if outer_tag is Some {
                Err(Error::InvalidSchema)
            } else {
                match tag {
                    None => Err(Error::SyntaxUnsupported),
                    Some(tag_unwrap) => {
                        if inner.choices.len() == 1 {
                            let it = inner.choices[0];
                            match it.type1.type2 {
                                Type2V::Typename { ident: id2, .. } => {
                                    let new_ty = spec_new_type(cat, id2);
                                    match it.type1.operator {
                                        None => match spec_apply_type_aliases(cat, id2) {
                                            None => Err(Error::UnresolvedReference),
                                            Some(base) => Ok(
                                                spec_push_alias(
                                                    cat,
                                                    name,
                                                    RustTypeV::Tagged(tag_unwrap, Box::new(base)),
                                                ),
                                            ),
                                        },
                                        Some(op) => match spec_ctl(it.type1.type2, op) {
                                            Err(e) => Err(e),
                                            Ok(ControlOperator::Cbor) => {
                                                if is_bytes_name(id2) {
                                                    match op.type2 {
                                                        Type2V::Typename { ident: oid, .. } => {
                                                            match spec_apply_type_aliases(
                                                                cat,
                                                                oid,
                                                            ) {
                                                                None => Err(
                                                                    Error::UnresolvedReference,
                                                                ),
                                                                Some(base) => Ok(
                                                                    spec_push_alias(
                                                                        cat,
                                                                        name,
                                                                        RustTypeV::Tagged(
                                                                            tag_unwrap,
                                                                            Box::new(
                                                                                RustTypeV::CBORBytes(
                                                                                    Box::new(base),
                                                                                ),
                                                                            ),
                                                                        ),
                                                                    ),
                                                                ),
                                                            }
                                                        },
                                                        _ => match
                                                            crate::lower::spec_rust_type_from_type2(
                                                            cat,
                                                            op.type2,
                                                            it.type1.meta,
                                                        ) {
                                                            Err(e) => Err(e),
                                                            Ok((cat1, ty)) => Ok(
                                                                spec_push_alias(
                                                                    cat1,
                                                                    name,
                                                                    RustTypeV::Tagged(
                                                                        tag_unwrap,
                                                                        Box::new(
                                                                            RustTypeV::CBORBytes(
                                                                                Box::new(ty),
                                                                            ),
                                                                        ),
                                                                    ),
                                                                ),
                                                            ),
                                                        },
                                                    }
                                                } else {
                                                    Err(Error::InvalidSchema)
                                                }
                                            },
                                            Ok(ControlOperator::Range { low, high }) => {
                                                if is_int_name(id2) {
                                                    match spec_range_to_primitive(low, high) {
                                                        Some(p) => Ok(
                                                            spec_push_alias(
                                                                cat,
                                                                name,
                                                                RustTypeV::Primitive(p),
                                                            ),
                                                        ),
                                                        None => Err(Error::SyntaxUnsupported),
                                                    }
                                                } else {
                                                    Ok(
                                                        CatalogV {
                                                            structs: cat.structs.push(
                                                                RustStructV::Wrapper {
                                                                    ident: name,
                                                                    tag: Some(tag_unwrap),
                                                                    wrapped: new_ty,
                                                                    bounds: Some((low, high)),
                                                                },
                                                            ),
                                                            ..cat
                                                        },
                                                    )
                                                }
                                            },
                                        },
                                    }
                                },
                                Type2V::MapGroup { .. } => spec_parse_type(
                                    cat,
                                    name,
                                    it,
                                    Some(tag_unwrap),
                                    generic_params,
                                ),
                                Type2V::ArrayGroup { .. } => spec_parse_type(
                                    cat,
                                    name,
                                    it,
                                    Some(tag_unwrap),
                                    generic_params,
                                ),
                                _ => Err(Error::InvalidSchema),
                            }
                        } else {
                            spec_parse_type_choices(
                                cat,
                                name,
                                inner.choices,
                                Some(tag_unwrap),
                                generic_params,
                            )
                        }
                    },
                }
            }
        },
        Type2V::IntValue { value } => {
            let fallback = RustTypeV::Fixed(crate::ir::FixedValueV::Int { value });
            match t1.operator {
                None => Ok(spec_push_alias(cat, name, fallback)),
                Some(op) => match spec_ctl(t1.type2, op) {
                    Err(e) => Err(e),
                    Ok(ControlOperator::Range { low, high }) => match spec_range_to_primitive(
                        low,
                        high,
                    ) {
                        Some(p) => Ok(spec_push_alias(cat, name, RustTypeV::Primitive(p))),
                        None => Ok(spec_push_alias(cat, name, fallback)),
                    },
                    Ok(_) => Ok(spec_push_alias(cat, name, fallback)),
                },
            }
        },
        Type2V::UintValue { value } => {
            let fallback = RustTypeV::Fixed(crate::ir::FixedValueV::Uint { value });
            match t1.operator {
                None => Ok(spec_push_alias(cat, name, fallback)),
                Some(op) => match spec_ctl(t1.type2, op) {
                    Err(e) => Err(e),
                    Ok(ControlOperator::Range { low, high }) => match spec_range_to_primitive(
                        low,
                        high,
                    ) {
                        Some(p) => Ok(spec_push_alias(cat, name, RustTypeV::Primitive(p))),
                        None => Ok(spec_push_alias(cat, name, fallback)),
                    },
                    Ok(_) => Ok(spec_push_alias(cat, name, fallback)),
                },
            }
        },
        Type2V::TextValue { value } => Ok(
            spec_push_alias(
                cat,
                name,
                RustTypeV::Fixed(crate::ir::FixedValueV::Text { value }),
            ),
        ),
        _ => Err(Error::SyntaxUnsupported),
    }
}

/// The CamelCase forms of a rule's generic parameters.
pub open spec fn spec_params_camel(ps: Seq<Seq<char>>) -> Seq<Seq<char>> {
    ps.map_values(|p: Seq<char>| camel_of(p))
}

/// Registers one top-level rule. A type rule dispatches on its alternatives
/// under its CamelCase name with its generic parameters; a group rule must
/// be an inline-group definition without generics, and registers nothing
/// here (its group is parsed where it is used).
pub open spec fn spec_parse_rule(cat: CatalogV, rule: RuleV) -> Result<CatalogV, Error>
    decreases rule, 4int, 0int,
{
    match rule {
        RuleV::TypeRule { name, generic_params, value } => {
            let rust_name = camel_of(name);
            let params = match generic_params {
                Some(ps) => Some(spec_params_camel(ps)),
                None => None,
            };
            if value.choices.len() == 1 {
                spec_parse_type(cat, rust_name, value.choices[0], None, params)
            } else {
                spec_parse_type_choices(cat, rust_name, value.choices, None, params)
            }
        },
        RuleV::GroupRule { has_generic_params, inline_group, .. } => {
            if has_generic_params {
                Err(Error::SyntaxUnsupported)
            } else {
                match inline_group {
                    Some(_g) => Ok(cat),
                    None => Err(Error::Unreachable),
                }
            }
        },
    }
}


/// Registers a rule whose body is a list of alternatives, as
/// `spec_parse_type_choices` says.
pub fn parse_type_choices(
    types: &mut IntermediateTypes,
    name: &RustIdent,
    type_choices: &Vec<TypeChoice>,
    tag: Option<u64>,
    generic_params: Option<Vec<RustIdent>>,
) -> (r: Result<(), Error>)
    ensures
        ({
            let s = spec_parse_type_choices(
                old(types).deep_view(),
                name.deep_view(),
                crate::ast::type_choices_view(type_choices@),
                tag,
                generic_params.deep_view(),
            );
            match r {
                Ok(()) => s == Ok::<_, Error>(final(types).deep_view()),
                Err(e) => s == Err::<CatalogV, Error>(e),
            }
        }),
    decreases type_choices@, 3int, 0int,
{
    proof {
        reveal_with_fuel(crate::ir::rust_type_view, 4);
    }
    let optional_inner: Option<&crate::ast::Type1> = if type_choices.len() == 2 {
        if type2_is_null(&type_choices[0].type1.type2) {
            Some(&type_choices[1].type1)
        } else if type2_is_null(&type_choices[1].type1.type2) {
            Some(&type_choices[0].type1)
        } else {
            None
        }
    } else {
        None
    };
    match optional_inner {
        Some(inner) => {
            if generic_params.is_some() {
                return Err(Error::SyntaxUnsupported);
            }
            if type2_is_null(&inner.type2) {
                return Err(Error::InvalidSchema);
            }
            let ty = match crate::lower::rust_type_from_type1(types, inner) {
                Ok(ty) => ty,
                Err(e) => {
                    return Err(e);
                },
            };
            let final_type = match tag {
                Some(t) => RustType::Tagged(t, Box::new(RustType::Optional(Box::new(ty)))),
                None => RustType::Optional(Box::new(ty)),
            };
            types.register_type_alias(name.duplicate(), final_type, true, true);
            Ok(())
        },
        None => {
            let variants = match crate::lower::create_variants_from_type_choices(
                types,
                type_choices,
            ) {
                Ok(vs) => vs,
                Err(e) => {
                    return Err(e);
                },
            };
            let rust_struct = RustStruct::TypeChoice { ident: name.duplicate(), tag, variants };
            match generic_params {
                Some(params) => types.register_generic_def(
                    crate::ir::GenericDef { params, body: rust_struct },
                ),
                None => types.register_rust_struct(rust_struct),
            }
            Ok(())
        },
    }
}

/// Registers one rule alternative under `name`, as `spec_parse_type` says.
#[verifier::rlimit(100)]
#[verifier::spinoff_prover]
pub fn parse_type(
    types: &mut IntermediateTypes,
    rule_name: &RustIdent,
    type_choice: &TypeChoice,
    outer_tag: Option<u64>,
    generic_params: Option<Vec<RustIdent>>,
) -> (r: Result<(), Error>)
    ensures
        ({
            let s = spec_parse_type(
                old(types).deep_view(),
                rule_name.deep_view(),
                type_choice.deep_view(),
                outer_tag,
                generic_params.deep_view(),
            );
            match r {
                Ok(()) => s == Ok::<_, Error>(final(types).deep_view()),
                Err(e) => s == Err::<CatalogV, Error>(e),
            }
        }),
    decreases *type_choice, 0int, 0int,
{
    proof {
        reveal_with_fuel(crate::ir::rust_type_view, 4);
    }
    let t1 = &type_choice.type1;
    match &t1.type2 {
        Type2::Typename { ident, generic_args } => match &t1.operator {
            Some(op) => {
                let ctl = match parse_control_operator(&t1.type2, op) {
                    Ok(c) => c,
                    Err(e) => {
                        return Err(e);
                    },
                };
                if generic_params.is_some() {
                    return Err(Error::SyntaxUnsupported);
                }
                match ctl {
                    ControlOperator::Range { low, high } => {
                        if ident_is_int_name(ident) {
                            match range_to_primitive(low, high) {
                                Some(ty) => {
                                    types.register_type_alias(
                                        rule_name.duplicate(),
                                        ty,
                                        true,
                                        true,
                                    );
                                    Ok(())
                                },
                                None => Err(Error::SyntaxUnsupported),
                            }
                        } else if ident_is_text_name(ident) {
                            types.register_rust_struct(
                                RustStruct::Wrapper {
                                    ident: rule_name.duplicate(),
                                    tag: outer_tag,
                                    wrapped: RustType::Primitive(crate::ir::Primitive::Str),
                                    bounds: Some((low, high)),
                                },
                            );
                            Ok(())
                        } else if ident_is_bytes_name(ident) {
                            types.register_rust_struct(
                                RustStruct::Wrapper {
                                    ident: rule_name.duplicate(),
                                    tag: outer_tag,
                                    wrapped: RustType::Primitive(crate::ir::Primitive::Bytes),
                                    bounds: Some((low, high)),
                                },
                            );
                            Ok(())
                        } else {
                            Err(Error::SyntaxUnsupported)
                        }
                    },
                    ControlOperator::Cbor => {
                        if ident_is_bytes_name(ident) {
                            let ty = match crate::lower::rust_type_from_type2(
                                types,
                                &op.type2,
                                &t1.meta,
                            ) {
                                Ok(ty) => ty,
                                Err(e) => {
                                    return Err(e);
                                },
                            };
                            types.register_type_alias(
                                rule_name.duplicate(),
                                RustType::CBORBytes(Box::new(ty)),
                                true,
                                true,
                            );
                            Ok(())
                        } else if ident_is_text_name(ident) {
                            Err(Error::InvalidSchema)
                        } else {
                            Err(Error::SyntaxUnsupported)
                        }
                    },
                }
            },
            None => {
                let nt = types.new_type(&CDDLIdent::new(ident.clone()));
                let concrete = match nt {
                    RustType::Alias(_id, ty) => *ty,
                    ty => ty,
                };
                if generic_params.is_some() {
                    return Err(Error::SyntaxUnsupported);
                }
                match generic_args {
                    Some(args) => {
                        let tys = match crate::lower::lower_generic_args(types, args, 0) {
                            Ok(tys) => tys,
                            Err(e) => {
                                return Err(e);
                            },
                        };
                        types.register_generic_instance(
                            crate::ir::GenericInstance {
                                ident: rule_name.duplicate(),
                                generic_ident: RustIdent::new(CDDLIdent::new(ident.clone())),
                                generic_args: tys,
                            },
                        );
                        Ok(())
                    },
                    None => {
                        if t1.meta.is_newtype {
                            types.register_rust_struct(
                                RustStruct::Wrapper {
                                    ident: rule_name.duplicate(),
                                    tag: None,
                                    wrapped: concrete,
                                    bounds: None,
                                },
                            );
                            Ok(())
                        } else {
                            types.register_type_alias(rule_name.duplicate(), concrete, true, true);
                            Ok(())
                        }
                    },
                }
            },
        },
        Type2::MapGroup { group } => crate::group::parse_group(
            types,
            group,
            rule_name,
            Representation::CborMap,
            outer_tag,
            generic_params,
        ),
        Type2::ArrayGroup { group } => crate::group::parse_group(
            types,
            group,
            rule_name,
            Representation::CborArray,
            outer_tag,
            generic_params,
        ),
        Type2::TaggedData { tag, inner } => {
            if outer_tag.is_some() {
                return Err(Error::InvalidSchema);
            }
            let tag_unwrap: u64 = match tag {
                None => {
                    return Err(Error::SyntaxUnsupported);
                },
                Some(t) => *t,
            };
            if inner.choices.len() == 1 {
                let it = &inner.choices[0];
                match &it.type1.type2 {
                    Type2::Typename { ident: id2, .. } => {
                        let new_ty = types.new_type(&CDDLIdent::new(id2.clone()));
                        match &it.type1.operator {
                            None => match types.apply_type_aliases(&CDDLIdent::new(id2.clone())) {
                                None => Err(Error::UnresolvedReference),
                                Some(base) => {
                                    types.register_type_alias(
                                        rule_name.duplicate(),
                                        RustType::Tagged(tag_unwrap, Box::new(base)),
                                        true,
                                        true,
                                    );
                                    Ok(())
                                },
                            },
                            Some(op) => {
                                let ctl = match parse_control_operator(&it.type1.type2, op) {
                                    Ok(c) => c,
                                    Err(e) => {
                                        return Err(e);
                                    },
                                };
                                match ctl {
                                    ControlOperator::Cbor => {
                                        if ident_is_bytes_name(id2) {
                                            match &op.type2 {
                                                Type2::Typename { ident: oid, .. } => {
                                                    match types.apply_type_aliases(
                                                        &CDDLIdent::new(oid.clone()),
                                                    ) {
                                                        None => Err(Error::UnresolvedReference),
                                                        Some(base) => {
                                                            types.register_type_alias(
                                                                rule_name.duplicate(),
                                                                RustType::Tagged(
                                                                    tag_unwrap,
                                                                    Box::new(
                                                                        RustType::CBORBytes(
                                                                            Box::new(base),
                                                                        ),
                                                                    ),
                                                                ),
                                                                true,
                                                                true,
                                                            );
                                                            Ok(())
                                                        },
                                                    }
                                                },
                                                _ => {
                                                    let ty = match
                                                        crate::lower::rust_type_from_type2(
                                                        types,
                                                        &op.type2,
                                                        &it.type1.meta,
                                                    ) {
                                                        Ok(ty) => ty,
                                                        Err(e) => {
                                                            return Err(e);
                                                        },
                                                    };
                                                    types.register_type_alias(
                                                        rule_name.duplicate(),
                                                        RustType::Tagged(
                                                            tag_unwrap,
                                                            Box::new(
                                                                RustType::CBORBytes(Box::new(ty)),
                                                            ),
                                                        ),
                                                        true,
                                                        true,
                                                    );
                                                    Ok(())
                                                },
                                            }
                                        } else {
                                            Err(Error::InvalidSchema)
                                        }
                                    },
                                    ControlOperator::Range { low, high } => {
                                        if ident_is_int_name(id2) {
                                            match range_to_primitive(low, high) {
                                                Some(ty) => {
                                                    types.register_type_alias(
                                                        rule_name.duplicate(),
                                                        ty,
                                                        true,
                                                        true,
                                                    );
                                                    Ok(())
                                                },
                                                None => Err(Error::SyntaxUnsupported),
                                            }
                                        } else {
                                            types.register_rust_struct(
                                                RustStruct::Wrapper {
                                                    ident: rule_name.duplicate(),
                                                    tag: Some(tag_unwrap),
                                                    wrapped: new_ty,
                                                    bounds: Some((low, high)),
                                                },
                                            );
                                            Ok(())
                                        }
                                    },
                                }
                            },
                        }
                    },
                    Type2::MapGroup { .. } => parse_type(
                        types,
                        rule_name,
                        it,
                        Some(tag_unwrap),
                        generic_params,
                    ),
                    Type2::ArrayGroup { .. } => parse_type(
                        types,
                        rule_name,
                        it,
                        Some(tag_unwrap),
                        generic_params,
                    ),
                    _ => Err(Error::InvalidSchema),
                }
            } else {
                parse_type_choices(types, rule_name, &inner.choices, Some(tag_unwrap), generic_params)
            }
        },
        Type2::IntValue { value } => {
            let fallback = RustType::Fixed(crate::ir::FixedValue::Int { value: *value });
            match &t1.operator {
                None => {
                    types.register_type_alias(rule_name.duplicate(), fallback, true, true);
                    Ok(())
                },
                Some(op) => {
                    let ctl = match parse_control_operator(&t1.type2, op) {
                        Ok(c) => c,
                        Err(e) => {
                            return Err(e);
                        },
                    };
                    match ctl {
                        ControlOperator::Range { low, high } => match range_to_primitive(
                            low,
                            high,
                        ) {
                            Some(ty) => {
                                types.register_type_alias(rule_name.duplicate(), ty, true, true);
                                Ok(())
                            },
                            None => {
                                types.register_type_alias(
                                    rule_name.duplicate(),
                                    fallback,
                                    true,
                                    true,
                                );
                                Ok(())
                            },
                        },
                        _ => {
                            types.register_type_alias(rule_name.duplicate(), fallback, true, true);
                            Ok(())
                        },
                    }
                },
            }
        },
        Type2::UintValue { value } => {
            let fallback = RustType::Fixed(crate::ir::FixedValue::Uint { value: *value });
            match &t1.operator {
                None => {
                    types.register_type_alias(rule_name.duplicate(), fallback, true, true);
                    Ok(())
                },
                Some(op) => {
                    let ctl = match parse_control_operator(&t1.type2, op) {
                        Ok(c) => c,
                        Err(e) => {
                            return Err(e);
                        },
                    };
                    match ctl {
                        ControlOperator::Range { low, high } => match range_to_primitive(
                            low,
                            high,
                        ) {
                            Some(ty) => {
                                types.register_type_alias(rule_name.duplicate(), ty, true, true);
                                Ok(())
                            },
                            None => {
                                types.register_type_alias(
                                    rule_name.duplicate(),
                                    fallback,
                                    true,
                                    true,
                                );
                                Ok(())
                            },
                        },
                        _ => {
                            types.register_type_alias(rule_name.duplicate(), fallback, true, true);
                            Ok(())
                        },
                    }
                },
            }
        },
        Type2::TextValue { value } => {
            types.register_type_alias(
                rule_name.duplicate(),
                RustType::Fixed(crate::ir::FixedValue::Text { value: value.clone() }),
                true,
                true,
            );
            Ok(())
        },
        _ => Err(Error::SyntaxUnsupported),
    }
}

/// Registers one top-level rule, as `spec_parse_rule` says.
pub fn parse_rule(types: &mut IntermediateTypes, cddl_rule: &Rule) -> (r: Result<(), Error>)
    ensures
        ({
            let s = spec_parse_rule(old(types).deep_view(), cddl_rule.deep_view());
            match r {
                Ok(()) => s == Ok::<_, Error>(final(types).deep_view()),
                Err(e) => s == Err::<CatalogV, Error>(e),
            }
        }),
{
    match cddl_rule {
        Rule::TypeRule { name, generic_params, value } => {
            let rust_ident = RustIdent::new(CDDLIdent::new(name.clone()));
            let params: Option<Vec<RustIdent>> = match generic_params {
                Some(ps) => {
                    let n = ps.len();
                    let mut out: Vec<RustIdent> = Vec::new();
                    let mut i: usize = 0;
                    while i < n
                        invariant
                            i <= n,
                            n == ps.len(),
                            out.deep_view().len() == i,
                            forall|j: int|
                                0 <= j < i ==> out.deep_view()[j] == camel_of(ps.deep_view()[j]),
                        decreases n - i,
                    {
                        let ghost pre = out.deep_view();
                        out.push(RustIdent::new(CDDLIdent::new(ps[i].clone())));
                        proof {
                            assert(out.deep_view() =~= pre.push(
                                camel_of(ps.deep_view()[i as int]),
                            ));
                        }
                        i = i + 1;
                    }
                    proof {
                        assert(out.deep_view() =~= spec_params_camel(ps.deep_view()));
                    }
                    Some(out)
                },
                None => None,
            };
            if value.choices.len() == 1 {
                parse_type(types, &rust_ident, &value.choices[0], None, params)
            } else {
                parse_type_choices(types, &rust_ident, &value.choices, None, params)
            }
        },
        Rule::GroupRule { has_generic_params, inline_group, .. } => {
            if *has_generic_params {
                Err(Error::SyntaxUnsupported)
            } else {
                match inline_group {
                    Some(_g) => Ok(()),
                    None => Err(Error::Unreachable),
                }
            }
        },
    }
}

} // verus!
