//! Laws of the pass, stated over the spec-level models and proved once for
//! all inputs.

use vstd::prelude::*;
use crate::Error;
use crate::ast::{GroupChoiceV, GroupEntryV, MemberKeyV, RuleMetadataV, RuleV, Type1V, TypeChoiceV,
    TypeExprV, Type2V};
use crate::catalog::{alias_lookup, spec_apply_type_aliases, spec_new_type, AliasEntryV, CatalogV,
    prim_of_name};
use crate::control::{prim_high, prim_low, spec_range_to_primitive};
use crate::group::spec_table_domain_range;
use crate::ir::{Primitive, Representation, RustTypeV};
use crate::names::camel_of;
use crate::parsing::{spec_parse_rule, spec_parse_type, spec_parse_type_choices};

verus! {

/// The model of a plain alias rule `name = target`, with no operator, no
/// generics and no annotations.
pub open spec fn plain_alias_rule(name: Seq<char>, target: Seq<char>) -> RuleV {
    RuleV::TypeRule {
        name,
        generic_params: None,
        value: TypeExprV {
            choices: seq![
                TypeChoiceV {
                    type1: Type1V {
                        type2: Type2V::Typename { ident: target, generic_args: None },
                        operator: None,
                        meta: RuleMetadataV { name: None, is_newtype: false },
                    },
                },
            ],
        },
    }
}

proof fn lemma_alias_lookup_push(aliases: Seq<AliasEntryV>, e: AliasEntryV, name: Seq<char>)
    ensures
        alias_lookup(aliases.push(e), name) == (match alias_lookup(aliases, name) {
            Some(ty) => Some(ty),
            None => if e.ident == name {
                Some(e.ty)
            } else {
                None
            },
        }),
    decreases aliases.len(),
{
    reveal_with_fuel(alias_lookup, 3);
    if aliases.len() == 0 {
        assert(aliases.push(e).drop_first() =~= Seq::<AliasEntryV>::empty());
    } else {
        lemma_alias_lookup_push(aliases.drop_first(), e, name);
        assert(aliases.push(e).drop_first() =~= aliases.drop_first().push(e));
    }
}

/// Alias idempotence: after `a = b` and `c = a`, the names `a` and `c`
/// resolve through the catalog to the same type — the resolved form of `b`
/// at the time `a` was registered. Both rules always succeed, provided `a`
/// and `c` are schema-defined names that were not aliased before and do not
/// collide.
#[verifier::rlimit(100)]
pub proof fn lemma_alias_idempotence(cat0: CatalogV, a: Seq<char>, b: Seq<char>, c: Seq<char>)
    requires
        prim_of_name(a) is None,
        prim_of_name(c) is None,
        alias_lookup(cat0.aliases, camel_of(a)) is None,
        alias_lookup(cat0.aliases, camel_of(c)) is None,
        camel_of(a) != camel_of(c),
    ensures
        ({
            let r1 = spec_parse_rule(cat0, plain_alias_rule(a, b));
            &&& r1 is Ok
            &&& {
                let cat1 = r1.unwrap();
                let r2 = spec_parse_rule(cat1, plain_alias_rule(c, a));
                &&& r2 is Ok
                &&& spec_apply_type_aliases(r2.unwrap(), c) == spec_apply_type_aliases(
                    r2.unwrap(),
                    a,
                )
                &&& spec_apply_type_aliases(r2.unwrap(), a) == Some(
                    match spec_new_type(cat0, b) {
                        RustTypeV::Alias(_id, ty) => *ty,
                        ty => ty,
                    },
                )
            }
        }),
{
    reveal_with_fuel(crate::parsing::spec_parse_type, 2);
    let rule1 = plain_alias_rule(a, b);
    let concrete = match spec_new_type(cat0, b) {
        RustTypeV::Alias(_id, ty) => *ty,
        ty => ty,
    };
    let r1 = spec_parse_rule(cat0, rule1);
    let entry_a = AliasEntryV {
        ident: camel_of(a),
        ty: concrete,
        generate_rust: true,
        generate_serialize: true,
    };
    assert(r1 == Ok::<CatalogV, Error>(
        CatalogV { aliases: cat0.aliases.push(entry_a), ..cat0 },
    ));
    let cat1 = r1.unwrap();
    lemma_alias_lookup_push(cat0.aliases, entry_a, camel_of(a));
    lemma_alias_lookup_push(cat0.aliases, entry_a, camel_of(c));
    assert(alias_lookup(cat1.aliases, camel_of(a)) == Some(concrete));
    assert(alias_lookup(cat1.aliases, camel_of(c)) is None);
    assert(spec_new_type(cat1, a) == RustTypeV::Alias(camel_of(a), Box::new(concrete)));
    let r2 = spec_parse_rule(cat1, plain_alias_rule(c, a));
    let entry_c = AliasEntryV {
        ident: camel_of(c),
        ty: concrete,
        generate_rust: true,
        generate_serialize: true,
    };
    assert(r2 == Ok::<CatalogV, Error>(
        CatalogV { aliases: cat1.aliases.push(entry_c), ..cat1 },
    ));
    let cat2 = r2.unwrap();
    lemma_alias_lookup_push(cat1.aliases, entry_c, camel_of(c));
    lemma_alias_lookup_push(cat1.aliases, entry_c, camel_of(a));
    assert(alias_lookup(cat2.aliases, camel_of(c)) == Some(concrete));
    assert(alias_lookup(cat2.aliases, camel_of(a)) == Some(concrete));
}

/// Optional canonicalization: for a type `T` that is not `null`, the rule
/// bodies `T / null` and `null / T` register exactly the same catalog —
/// an alias to `Optional` of the lowered `T` — and at expression position
/// both lower to the same `Optional` type.
pub proof fn lemma_optional_canonicalization(
    cat: CatalogV,
    name: Seq<char>,
    t1: Type1V,
    null_t1: Type1V,
    tag: Option<u64>,
)
    requires
        crate::parsing::spec_type2_is_null(null_t1.type2),
        !crate::parsing::spec_type2_is_null(t1.type2),
    ensures
        spec_parse_type_choices(
            cat,
            name,
            seq![TypeChoiceV { type1: null_t1 }, TypeChoiceV { type1: t1 }],
            tag,
            None,
        ) == spec_parse_type_choices(
            cat,
            name,
            seq![TypeChoiceV { type1: t1 }, TypeChoiceV { type1: null_t1 }],
            tag,
            None,
        ),
        crate::lower::spec_rust_type(
            cat,
            TypeExprV { choices: seq![TypeChoiceV { type1: null_t1 }, TypeChoiceV { type1: t1 }] },
        ) == crate::lower::spec_rust_type(
            cat,
            TypeExprV { choices: seq![TypeChoiceV { type1: t1 }, TypeChoiceV { type1: null_t1 }] },
        ),
{
    reveal_with_fuel(crate::lower::spec_rust_type, 2);
}

/// Range-to-primitive exactness: for every fixed-width integer primitive,
/// the range equal to its exact inclusive bounds is promoted to that
/// primitive, and the ranges one unit narrower on either end are not
/// promoted at all.
pub proof fn lemma_range_to_primitive(p: Primitive)
    requires
        p != Primitive::Str,
        p != Primitive::Bytes,
    ensures
        spec_range_to_primitive(Some(prim_low(p) as i128), Some(prim_high(p) as i128)) == Some(p),
        spec_range_to_primitive(Some((prim_low(p) + 1) as i128), Some(prim_high(p) as i128))
            is None,
        spec_range_to_primitive(Some(prim_low(p) as i128), Some((prim_high(p) - 1) as i128))
            is None,
{
}

/// Table versus record: a group choice classifies as a table exactly when it
/// stands in map framing, has a single entry, and that entry's member key is
/// a full `Type1` key expression; in particular a single-entry map with a
/// literal or bareword key falls to the record builder.
pub proof fn lemma_table_vs_record(gc: GroupChoiceV, rep: Representation)
    ensures
        (spec_table_domain_range(gc, rep) is Some) <==> (rep == Representation::CborMap
            && gc.entries.len() == 1 && match gc.entries[0] {
            GroupEntryV::ValueMemberKey { member_key, .. } => match member_key {
                Some(MemberKeyV::Type1 { .. }) => true,
                _ => false,
            },
            _ => false,
        }),
{
}

/// Tag nesting: tagged data directly inside tagged data is rejected as
/// invalid, whatever the inner shape carries.
pub proof fn lemma_tag_nesting(
    cat: CatalogV,
    name: Seq<char>,
    outer_tag: u64,
    inner_t1: Type1V,
    generic_params: Option<Seq<Seq<char>>>,
)
    requires
        inner_t1.type2 is TaggedData,
    ensures
        spec_parse_type(
            cat,
            name,
            TypeChoiceV {
                type1: Type1V {
                    type2: Type2V::TaggedData {
                        tag: Some(outer_tag),
                        inner: TypeExprV { choices: seq![TypeChoiceV { type1: inner_t1 }] },
                    },
                    operator: None,
                    meta: RuleMetadataV { name: None, is_newtype: false },
                },
            },
            None,
            generic_params,
        ) == Err::<CatalogV, Error>(Error::InvalidSchema),
{
    reveal_with_fuel(crate::parsing::spec_parse_type, 2);
}

} // verus!
