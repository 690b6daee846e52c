//! The type-expression lowerer: translates `Type1`/`Type2`/`Type` AST nodes
//! to IR type expressions, creating anonymous generic instances, inline
//! records and synthesized sum types as needed.

use vstd::prelude::*;
use crate::Error;
use crate::ast::{
    GroupEntry,
    GroupEntryV,
    Type1,
    Type1V,
    TypeChoice,
    TypeChoiceV,
    TypeExpr,
    TypeExprV,
    Type2,
    Type2V,
    RuleMetadata,
    RuleMetadataV,
};
use crate::catalog::{CatalogV, IntermediateTypes, spec_new_type};
use crate::control::{ControlOperator, parse_control_operator, range_to_primitive, spec_ctl,
    spec_range_to_primitive, is_typename};
use crate::group::spec_table_domain_range;
use crate::ir::{
    CDDLIdent,
    EnumVariant,
    EnumVariantV,
    GenericInstance,
    Representation,
    RustIdent,
    RustStruct,
    RustStructV,
    RustType,
    RustTypeV,
    VariantIdent,
    VariantIdentV,
    for_variant_v,
};
use crate::names::dedup_step;

verus! {

broadcast use crate::ast::group_ast_views, crate::ast::group_ast_view_defs;

/// Lowers the generic arguments `args[i..]` in order, threading the catalog.
pub open spec fn spec_lower_generic_args(cat: CatalogV, args: Seq<Type1V>, i: int) -> Result<
    (CatalogV, Seq<RustTypeV>),
    Error,
>
    decreases args, 0int, args.len() - i,
{
    if i < 0 || i >= args.len() {
        Ok((cat, Seq::<RustTypeV>::empty()))
    } else {
        match spec_rust_type_from_type1(cat, args[i]) {
            Err(e) => Err(e),
            Ok((cat1, ty)) => match spec_lower_generic_args(cat1, args, i + 1) {
                Err(e) => Err(e),
                Ok((cat2, rest)) => Ok((cat2, seq![ty] + rest)),
            },
        }
    }
}

/// The `_`-separated join of the variant-name projections of `tys[i..]`,
/// naming an anonymous generic instance.
pub open spec fn spec_join_args(tys: Seq<RustTypeV>, i: int) -> Seq<char>
    decreases tys.len() - i,
{
    if i < 0 || i >= tys.len() {
        Seq::<char>::empty()
    } else if i + 1 == tys.len() {
        for_variant_v(tys[i])
    } else {
        for_variant_v(tys[i]) + "_"@ + spec_join_args(tys, i + 1)
    }
}

/// The `Or`-joined name of a synthesized type choice: each variant type's
/// projection, with `Or` between the pieces already present.
pub open spec fn spec_join_names(acc: Seq<char>, variants: Seq<EnumVariantV>, i: int) -> Seq<char>
    decreases variants.len() - i,
{
    if i < 0 || i >= variants.len() {
        acc
    } else {
        let n = for_variant_v(variants[i].rust_type);
        let acc2 = if acc.len() > 0 {
            acc + "Or"@ + n
        } else {
            acc + n
        };
        spec_join_names(acc2, variants, i + 1)
    }
}

/// One synthesized variant per type alternative in `choices[i..]`: the
/// variant wraps the lowered type and is named by the type's projection,
/// deduplicated against `used`.
pub open spec fn spec_variants_from_type_choices(
    cat: CatalogV,
    used: Seq<(Seq<char>, u64)>,
    choices: Seq<TypeChoiceV>,
    i: int,
) -> Result<(CatalogV, Seq<EnumVariantV>), Error>
    decreases choices, 2int, choices.len() - i,
{
    if i < 0 || i >= choices.len() {
        Ok((cat, Seq::<EnumVariantV>::empty()))
    } else {
        match spec_rust_type_from_type1(cat, choices[i].type1) {
            Err(e) => Err(e),
            Ok((cat1, ty)) => {
                let st = dedup_step(used, for_variant_v(ty));
                match spec_variants_from_type_choices(cat1, st.0, choices, i + 1) {
                    Err(e) => Err(e),
                    Ok((cat2, rest)) => Ok(
                        (
                            cat2,
                            seq![
                                EnumVariantV {
                                    name: VariantIdentV::Custom { name: st.1 },
                                    rust_type: ty,
                                    serialize_as_embedded_group: false,
                                },
                            ] + rest,
                        ),
                    ),
                }
            },
        }
    }
}

/// Lowers one basic type term to an IR type.
///
/// Literals become fixed types. A typename resolves through the catalog; one
/// with generic arguments registers an anonymous instance named
/// `<name>_<arg>...` and resolves to it. A one-element array becomes a
/// homogeneous `Array`; a longer inline array is parsed as a record under
/// the `@name` annotation, which it must carry. A table-shaped map becomes
/// a key-to-value map type. Tagged data lowers its inner type under the tag.
pub open spec fn spec_rust_type_from_type2(cat: CatalogV, t2: Type2V, meta: RuleMetadataV) -> Result<
    (CatalogV, RustTypeV),
    Error,
>
    decreases t2, 0int, 0int,
{
    match t2 {
        Type2V::UintValue { value } => Ok(
            (cat, RustTypeV::Fixed(crate::ir::FixedValueV::Uint { value })),
        ),
        Type2V::IntValue { value } => Ok(
            (cat, RustTypeV::Fixed(crate::ir::FixedValueV::Int { value })),
        ),
        Type2V::TextValue { value } => Ok(
            (cat, RustTypeV::Fixed(crate::ir::FixedValueV::Text { value })),
        ),
        Type2V::Typename { ident, generic_args } => match generic_args {
            Some(args) => match spec_lower_generic_args(cat, args, 0) {
                Err(e) => Err(e),
                Ok((cat1, tys)) => {
                    let instance_raw = ident + "_"@ + spec_join_args(tys, 0);
                    let cat2 = CatalogV {
                        generic_instances: cat1.generic_instances.push(
                            crate::ir::GenericInstanceV {
                                ident: crate::names::camel_of(instance_raw),
                                generic_ident: crate::names::camel_of(ident),
                                generic_args: tys,
                            },
                        ),
                        ..cat1
                    };
                    Ok((cat2, spec_new_type(cat2, instance_raw)))
                },
            },
            None => Ok((cat, spec_new_type(cat, ident))),
        },
        Type2V::ArrayGroup { group } => {
            if group.choices.len() == 1 {
                let choice = group.choices[0];
                if choice.entries.len() == 1 {
                    match choice.entries[0] {
                        GroupEntryV::ValueMemberKey { entry_type, .. } => {
                            match spec_rust_type(cat, entry_type) {
                                Err(e) => Err(e),
                                Ok((cat1, el)) => Ok(
                                    (cat1, RustTypeV::Array(Box::new(el))),
                                ),
                            }
                        },
                        GroupEntryV::TypeGroupname { name, .. } => Ok(
                            (cat, RustTypeV::Array(Box::new(spec_new_type(cat, name)))),
                        ),
                        GroupEntryV::InlineGroup { .. } => Err(Error::SyntaxUnsupported),
                    }
                } else {
                    match meta.name {
                        None => Err(Error::InvalidSchema),
                        Some(n) => match crate::group::spec_parse_group(
                            cat,
                            group,
                            crate::names::camel_of(n),
                            Representation::CborArray,
                            None,
                            None,
                        ) {
                            Err(e) => Err(e),
                            Ok(cat1) => Ok((cat1, spec_new_type(cat1, n))),
                        },
                    }
                }
            } else {
                Err(Error::SyntaxUnsupported)
            }
        },
        Type2V::MapGroup { group } => {
            if group.choices.len() == 1 {
                let gc = group.choices[0];
                match spec_table_domain_range(gc, Representation::CborMap) {
                    Some((domain, range)) => match spec_rust_type_from_type1(cat, domain) {
                        Err(e) => Err(e),
                        Ok((cat1, kt)) => match spec_rust_type(cat1, range) {
                            Err(e) => Err(e),
                            Ok((cat2, vt)) => Ok(
                                (cat2, RustTypeV::CborMap(Box::new(kt), Box::new(vt))),
                            ),
                        },
                    },
                    None => Err(Error::SyntaxUnsupported),
                }
            } else {
                Err(Error::SyntaxUnsupported)
            }
        },
        Type2V::TaggedData { tag, inner } => match tag {
            None => Err(Error::SyntaxUnsupported),
            Some(t) => match spec_rust_type(cat, inner) {
                Err(e) => Err(e),
                Ok((cat1, ty)) => Ok((cat1, RustTypeV::Tagged(t, Box::new(ty)))),
            },
        },
        _ => Err(Error::SyntaxUnsupported),
    }
}

/// Lowers a `Type1` to an IR type: `.cbor` wraps the lowered operand in
/// `CBORBytes`; a numeric range on `uint`/`int` must fit a fixed-width
/// primitive exactly; any other control falls through to the bare term.
pub open spec fn spec_rust_type_from_type1(cat: CatalogV, t1: Type1V) -> Result<
    (CatalogV, RustTypeV),
    Error,
>
    decreases t1, 0int, 0int,
{
    match t1.operator {
        None => spec_rust_type_from_type2(cat, t1.type2, t1.meta),
        Some(op) => match spec_ctl(t1.type2, op) {
            Err(e) => Err(e),
            Ok(ControlOperator::Cbor) => match spec_rust_type_from_type2(cat, op.type2, t1.meta) {
                Err(e) => Err(e),
                Ok((cat1, ty)) => Ok((cat1, RustTypeV::CBORBytes(Box::new(ty)))),
            },
            Ok(ControlOperator::Range { low, high }) => {
                if is_typename(t1.type2, "uint"@) || is_typename(t1.type2, "int"@) {
                    match spec_range_to_primitive(low, high) {
                        Some(p) => Ok((cat, RustTypeV::Primitive(p))),
                        None => Err(Error::SyntaxUnsupported),
                    }
                } else {
                    spec_rust_type_from_type2(cat, t1.type2, t1.meta)
                }
            },
        },
    }
}

/// Lowers a type expression: a single alternative lowers directly; a pair
/// with `null` on either side becomes `Optional` of the other (`null/null`
/// is invalid); any other choice list registers a synthesized `TypeChoice`
/// named by joining the variant names with `Or`, and resolves to it.
pub open spec fn spec_rust_type(cat: CatalogV, t: TypeExprV) -> Result<(CatalogV, RustTypeV), Error>
    decreases t, 3int, 0int,
{
    if t.choices.len() == 1 {
        spec_rust_type_from_type1(cat, t.choices[0].type1)
    } else if t.choices.len() == 2 && (crate::parsing::spec_type2_is_null(t.choices[0].type1.type2)
        || crate::parsing::spec_type2_is_null(t.choices[1].type1.type2)) {
        let a = t.choices[0].type1;
        let b = t.choices[1].type1;
        if crate::parsing::spec_type2_is_null(a.type2) && crate::parsing::spec_type2_is_null(
            b.type2,
        ) {
            Err(Error::InvalidSchema)
        } else {
            let inner = if crate::parsing::spec_type2_is_null(a.type2) {
                b
            } else {
                a
            };
            match spec_rust_type_from_type1(cat, inner) {
                Err(e) => Err(e),
                Ok((cat1, ty)) => Ok((cat1, RustTypeV::Optional(Box::new(ty)))),
            }
        }
    } else {
        match spec_variants_from_type_choices(cat, Seq::<(Seq<char>, u64)>::empty(), t.choices, 0) {
            Err(e) => Err(e),
            Ok((cat1, variants)) => {
                let combined = spec_join_names(Seq::<char>::empty(), variants, 0);
                let cat2 = CatalogV {
                    structs: cat1.structs.push(
                        RustStructV::TypeChoice {
                            ident: crate::names::camel_of(combined),
                            tag: None,
                            variants,
                        },
                    ),
                    ..cat1
                };
                Ok((cat2, spec_new_type(cat2, combined)))
            },
        }
    }
}

pub(crate) fn lower_generic_args(types: &mut IntermediateTypes, args: &Vec<Type1>, i: usize) -> (r: Result<
    Vec<RustType>,
    Error,
>)
    requires
        i <= args.len(),
    ensures
        ({
            let s = spec_lower_generic_args(
                old(types).deep_view(),
                crate::ast::type1s_view(args@),
                i as int,
            );
            match r {
                Ok(tys) => s == Ok::<_, Error>((final(types).deep_view(), tys.deep_view())),
                Err(e) => s == Err::<(CatalogV, Seq<RustTypeV>), Error>(e),
            }
        }),
    decreases args@, 0int, args.len() - i,
{
    if i == args.len() {
        let out: Vec<RustType> = Vec::new();
        proof {
            assert(out.deep_view() =~= Seq::<RustTypeV>::empty());
        }
        Ok(out)
    } else {
        let ty = match rust_type_from_type1(types, &args[i]) {
            Ok(ty) => ty,
            Err(e) => {
                return Err(e);
            },
        };
        let mut rest = match lower_generic_args(types, args, i + 1) {
            Ok(rest) => rest,
            Err(e) => {
                return Err(e);
            },
        };
        let ghost tyv = ty.deep_view();
        let ghost restv = rest.deep_view();
        rest.insert(0, ty);
        proof {
            assert(rest.deep_view() =~= seq![tyv] + restv);
        }
        Ok(rest)
    }
}

fn join_args_name(tys: &Vec<RustType>, i: usize) -> (r: String)
    requires
        i <= tys.len(),
    ensures
        r@ == spec_join_args(tys.deep_view(), i as int),
    decreases tys.len() - i,
{
    proof {
        reveal_strlit("");
        reveal_strlit("_");
    }
    if i == tys.len() {
        let r: String = "".to_owned();
        proof {
            assert(r@ =~= Seq::<char>::empty());
        }
        r
    } else if i + 1 == tys.len() {
        tys[i].for_variant()
    } else {
        let mut s = tys[i].for_variant();
        s.append("_");
        let rest = join_args_name(tys, i + 1);
        s.append(rest.as_str());
        s
    }
}

fn join_variant_names(acc: String, variants: &Vec<EnumVariant>, i: usize) -> (r: String)
    requires
        i <= variants.len(),
    ensures
        r@ == spec_join_names(acc@, variants.deep_view(), i as int),
    decreases variants.len() - i,
{
    proof {
        reveal_strlit("Or");
    }
    if i == variants.len() {
        acc
    } else {
        let n = variants[i].rust_type.for_variant();
        let acc2: String = if !acc.as_str().is_empty() {
            let mut s = acc;
            s.append("Or");
            s.append(n.as_str());
            s
        } else {
            let mut s = acc;
            s.append(n.as_str());
            s
        };
        join_variant_names(acc2, variants, i + 1)
    }
}

fn variants_from_type_choices_rec(
    types: &mut IntermediateTypes,
    used: &mut Vec<(String, u64)>,
    choices: &Vec<TypeChoice>,
    i: usize,
) -> (r: Result<Vec<EnumVariant>, Error>)
    requires
        i <= choices.len(),
    ensures
        ({
            let s = spec_variants_from_type_choices(
                old(types).deep_view(),
                old(used).deep_view(),
                crate::ast::type_choices_view(choices@),
                i as int,
            );
            match r {
                Ok(vs) => s == Ok::<_, Error>((final(types).deep_view(), vs.deep_view())),
                Err(e) => s == Err::<(CatalogV, Seq<EnumVariantV>), Error>(e),
            }
        }),
    decreases choices@, 2int, choices.len() - i,
{
    if i == choices.len() {
        let out: Vec<EnumVariant> = Vec::new();
        proof {
            assert(out.deep_view() =~= Seq::<EnumVariantV>::empty());
        }
        Ok(out)
    } else {
        let ty = match rust_type_from_type1(types, &choices[i].type1) {
            Ok(ty) => ty,
            Err(e) => {
                return Err(e);
            },
        };
        let vn = ty.for_variant();
        let variant_name = crate::names::append_number_if_duplicate(used, vn);
        let mut rest = match variants_from_type_choices_rec(types, used, choices, i + 1) {
            Ok(rest) => rest,
            Err(e) => {
                return Err(e);
            },
        };
        let v = EnumVariant {
            name: VariantIdent::Custom { name: variant_name },
            rust_type: ty,
            serialize_as_embedded_group: false,
        };
        let ghost vv = v.deep_view();
        let ghost restv = rest.deep_view();
        rest.insert(0, v);
        proof {
            assert(rest.deep_view() =~= seq![vv] + restv);
        }
        Ok(rest)
    }
}

/// Synthesizes one variant per type alternative, as
/// `spec_variants_from_type_choices` (from an empty duplicate counter) says.
pub fn create_variants_from_type_choices(
    types: &mut IntermediateTypes,
    type_choices: &Vec<TypeChoice>,
) -> (r: Result<Vec<EnumVariant>, Error>)
    ensures
        ({
            let s = spec_variants_from_type_choices(
                old(types).deep_view(),
                Seq::<(Seq<char>, u64)>::empty(),
                crate::ast::type_choices_view(type_choices@),
                0,
            );
            match r {
                Ok(vs) => s == Ok::<_, Error>((final(types).deep_view(), vs.deep_view())),
                Err(e) => s == Err::<(CatalogV, Seq<EnumVariantV>), Error>(e),
            }
        }),
    decreases type_choices@, 2int, type_choices@.len() + 1,
{
    let mut used: Vec<(String, u64)> = Vec::new();
    proof {
        assert(used.deep_view() =~= Seq::<(Seq<char>, u64)>::empty());
    }
    variants_from_type_choices_rec(types, &mut used, type_choices, 0)
}

/// Lowers one basic type term, as `spec_rust_type_from_type2` says; `meta`
/// is the metadata of the enclosing `Type1` (it may name an inline record).
#[verifier::rlimit(100)]
#[verifier::spinoff_prover]
pub fn rust_type_from_type2(types: &mut IntermediateTypes, t2: &Type2, meta: &RuleMetadata) -> (r:
    Result<RustType, Error>)
    ensures
        ({
            let s = spec_rust_type_from_type2(
                old(types).deep_view(),
                t2.deep_view(),
                meta.deep_view(),
            );
            match r {
                Ok(ty) => s == Ok::<_, Error>((final(types).deep_view(), ty.deep_view())),
                Err(e) => s == Err::<(CatalogV, RustTypeV), Error>(e),
            }
        }),
    decreases *t2, 0int, 0int,
{
    match t2 {
        Type2::UintValue { value } => Ok(
            RustType::Fixed(crate::ir::FixedValue::Uint { value: *value }),
        ),
        Type2::IntValue { value } => Ok(
            RustType::Fixed(crate::ir::FixedValue::Int { value: *value }),
        ),
        Type2::TextValue { value } => Ok(
            RustType::Fixed(crate::ir::FixedValue::Text { value: value.clone() }),
        ),
        Type2::Typename { ident, generic_args } => match generic_args {
            Some(args) => {
                let tys = match lower_generic_args(types, args, 0) {
                    Ok(tys) => tys,
                    Err(e) => {
                        return Err(e);
                    },
                };
                let args_name = join_args_name(&tys, 0);
                let mut instance_raw: String = ident.clone();
                proof {
                    reveal_strlit("_");
                }
                instance_raw.append("_");
                instance_raw.append(args_name.as_str());
                let instance_cddl = CDDLIdent::new(instance_raw);
                let instance_ident = RustIdent::new(instance_cddl.duplicate());
                let generic_ident = RustIdent::new(CDDLIdent::new(ident.clone()));
                types.register_generic_instance(
                    GenericInstance {
                        ident: instance_ident,
                        generic_ident,
                        generic_args: tys,
                    },
                );
                Ok(types.new_type(&instance_cddl))
            },
            None => Ok(types.new_type(&CDDLIdent::new(ident.clone()))),
        },
        Type2::ArrayGroup { group } => {
            if group.choices.len() == 1 {
                let choice = &group.choices[0];
                if choice.entries.len() == 1 {
                    match &choice.entries[0] {
                        GroupEntry::ValueMemberKey { entry_type, .. } => {
                            let el = match rust_type(types, entry_type) {
                                Ok(el) => el,
                                Err(e) => {
                                    return Err(e);
                                },
                            };
                            Ok(RustType::Array(Box::new(el)))
                        },
                        GroupEntry::TypeGroupname { name, .. } => {
                            let el = types.new_type(&CDDLIdent::new(name.clone()));
                            Ok(RustType::Array(Box::new(el)))
                        },
                        GroupEntry::InlineGroup { .. } => Err(Error::SyntaxUnsupported),
                    }
                } else {
                    match &meta.name {
                        None => Err(Error::InvalidSchema),
                        Some(n) => {
                            let cddl_ident = CDDLIdent::new(n.clone());
                            let rust_ident = RustIdent::new(cddl_ident.duplicate());
                            match crate::group::parse_group(
                                types,
                                group,
                                &rust_ident,
                                Representation::CborArray,
                                None,
                                None,
                            ) {
                                Ok(()) => {},
                                Err(e) => {
                                    return Err(e);
                                },
                            }
                            Ok(types.new_type(&cddl_ident))
                        },
                    }
                }
            } else {
                Err(Error::SyntaxUnsupported)
            }
        },
        Type2::MapGroup { group } => {
            if group.choices.len() == 1 {
                let gc = &group.choices[0];
                match crate::group::table_domain_range(gc, Representation::CborMap) {
                    Some((domain, range)) => {
                        proof {
                            assert(decreases_to!(*t2, 0int, 0int => *domain, 0int, 0int));
                            assert(decreases_to!(*t2, 0int, 0int => *range, 3int, 0int));
                        }
                        let kt = match rust_type_from_type1(types, domain) {
                            Ok(kt) => kt,
                            Err(e) => {
                                return Err(e);
                            },
                        };
                        let vt = match rust_type(types, range) {
                            Ok(vt) => vt,
                            Err(e) => {
                                return Err(e);
                            },
                        };
                        Ok(RustType::CborMap(Box::new(kt), Box::new(vt)))
                    },
                    None => Err(Error::SyntaxUnsupported),
                }
            } else {
                Err(Error::SyntaxUnsupported)
            }
        },
        Type2::TaggedData { tag, inner } => match tag {
            None => Err(Error::SyntaxUnsupported),
            Some(t) => {
                let ty = match rust_type(types, inner) {
                    Ok(ty) => ty,
                    Err(e) => {
                        return Err(e);
                    },
                };
                Ok(RustType::Tagged(*t, Box::new(ty)))
            },
        },
        _ => Err(Error::SyntaxUnsupported),
    }
}

/// Lowers a `Type1`, as `spec_rust_type_from_type1` says.
pub fn rust_type_from_type1(types: &mut IntermediateTypes, t1: &Type1) -> (r: Result<
    RustType,
    Error,
>)
    ensures
        ({
            let s = spec_rust_type_from_type1(old(types).deep_view(), t1.deep_view());
            match r {
                Ok(ty) => s == Ok::<_, Error>((final(types).deep_view(), ty.deep_view())),
                Err(e) => s == Err::<(CatalogV, RustTypeV), Error>(e),
            }
        }),
    decreases *t1, 0int, 0int,
{
    match &t1.operator {
        None => rust_type_from_type2(types, &t1.type2, &t1.meta),
        Some(op) => {
            let ctl = match parse_control_operator(&t1.type2, op) {
                Ok(c) => c,
                Err(e) => {
                    return Err(e);
                },
            };
            match ctl {
                ControlOperator::Cbor => {
                    let ty = match rust_type_from_type2(types, &op.type2, &t1.meta) {
                        Ok(ty) => ty,
                        Err(e) => {
                            return Err(e);
                        },
                    };
                    Ok(RustType::CBORBytes(Box::new(ty)))
                },
                ControlOperator::Range { low, high } => {
                    if crate::control::type2_is_uint_or_int_name(&t1.type2) {
                        match range_to_primitive(low, high) {
                            Some(t) => Ok(t),
                            None => Err(Error::SyntaxUnsupported),
                        }
                    } else {
                        rust_type_from_type2(types, &t1.type2, &t1.meta)
                    }
                },
            }
        },
    }
}

/// Lowers a type expression, as `spec_rust_type` says.
pub fn rust_type(types: &mut IntermediateTypes, t: &TypeExpr) -> (r: Result<RustType, Error>)
    ensures
        ({
            let s = spec_rust_type(old(types).deep_view(), t.deep_view());
            match r {
                Ok(ty) => s == Ok::<_, Error>((final(types).deep_view(), ty.deep_view())),
                Err(e) => s == Err::<(CatalogV, RustTypeV), Error>(e),
            }
        }),
    decreases *t, 3int, 0int,
{
    if t.choices.len() == 1 {
        rust_type_from_type1(types, &t.choices[0].type1)
    } else if t.choices.len() == 2 && (crate::parsing::type2_is_null(&t.choices[0].type1.type2)
        || crate::parsing::type2_is_null(&t.choices[1].type1.type2)) {
        let a_null = crate::parsing::type2_is_null(&t.choices[0].type1.type2);
        let b_null = crate::parsing::type2_is_null(&t.choices[1].type1.type2);
        if a_null && b_null {
            Err(Error::InvalidSchema)
        } else {
            let inner = if a_null {
                &t.choices[1].type1
            } else {
                &t.choices[0].type1
            };
            let ty = match rust_type_from_type1(types, inner) {
                Ok(ty) => ty,
                Err(e) => {
                    return Err(e);
                },
            };
            Ok(RustType::Optional(Box::new(ty)))
        }
    } else {
        let variants = match create_variants_from_type_choices(types, &t.choices) {
            Ok(vs) => vs,
            Err(e) => {
                return Err(e);
            },
        };
        let empty: String = String::new();
        let combined = join_variant_names(empty, &variants, 0);
        let combined_cddl = CDDLIdent::new(combined);
        let combined_ident = RustIdent::new(combined_cddl.duplicate());
        types.register_rust_struct(
            RustStruct::TypeChoice { ident: combined_ident, tag: None, variants },
        );
        Ok(types.new_type(&combined_cddl))
    }
}

} // verus!
