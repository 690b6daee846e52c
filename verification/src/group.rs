//! Group classification: the table-versus-record test, reading one group
//! entry (occurrence, key, type, field name), and the record builder.

use vstd::prelude::*;
use crate::Error;
use crate::ast::{
    GroupChoice,
    GroupChoiceV,
    GroupEntry,
    GroupEntryV,
    Literal,
    LiteralV,
    MemberKey,
    MemberKeyV,
    Occur,
    Type1,
    Type1V,
    TypeExpr,
    TypeExprV,
    Type2V,
};
use crate::ir::{FixedValue, FixedValueV, Representation};
use crate::names::{dec_seq, dec_seq_signed, dedup_step, snake_of, is_user_defined};
use crate::parsing::spec_type2_is_null;

verus! {

broadcast use crate::ast::group_ast_views, crate::ast::group_ast_view_defs;

/// The table test: only a single-entry map group whose member key is a full
/// `Type1` key expression (not a bareword and not a literal) reads as a
/// homogeneous table; everything else reads as a record.
pub open spec fn spec_table_domain_range(gc: GroupChoiceV, rep: Representation) -> Option<
    (Type1V, TypeExprV),
> {
    if rep == Representation::CborMap && gc.entries.len() == 1 {
        match gc.entries[0] {
            GroupEntryV::ValueMemberKey { member_key, entry_type, .. } => {
                match member_key {
                    Some(MemberKeyV::Type1 { t1 }) => Some((*t1, entry_type)),
                    _ => None,
                }
            },
            _ => None,
        }
    } else {
        None
    }
}

/// Classifies a group choice as a table, returning its key `Type1` and value
/// type, or `None` for a record shape; as `spec_table_domain_range` says.
pub fn table_domain_range<'a>(gc: &'a GroupChoice, rep: Representation) -> (r: Option<
    (&'a Type1, &'a TypeExpr),
>)
    ensures
        match r {
            Some((domain, range)) => ({
                &&& spec_table_domain_range(gc.deep_view(), rep) == Some(
                    (domain.deep_view(), range.deep_view()),
                )
                &&& gc.entries@.len() == 1
                &&& match gc.entries@[0] {
                    GroupEntry::ValueMemberKey { member_key, entry_type, .. } => match member_key {
                        Some(MemberKey::Type1 { t1 }) => *domain == *t1 && *range == entry_type,
                        _ => false,
                    },
                    _ => false,
                }
            }),
            None => spec_table_domain_range(gc.deep_view(), rep) is None,
        },
{
    if rep == Representation::CborMap && gc.entries.len() == 1 {
        match &gc.entries[0] {
            GroupEntry::ValueMemberKey { member_key, entry_type, .. } => {
                match member_key {
                    Some(MemberKey::Type1 { t1 }) => Some((&**t1, entry_type)),
                    _ => None,
                }
            },
            _ => None,
        }
    } else {
        None
    }
}

/// Whether an entry is optional: exactly the `?` occurrence. The `*` and `+`
/// occurrences are not promoted; inline groups are not implemented.
pub open spec fn spec_group_entry_optional(e: GroupEntryV) -> Result<bool, Error> {
    match e {
        GroupEntryV::ValueMemberKey { occur, .. } => Ok(occur == Some(Occur::Optional)),
        GroupEntryV::TypeGroupname { occur, .. } => Ok(occur == Some(Occur::Optional)),
        GroupEntryV::InlineGroup { .. } => Err(Error::SyntaxUnsupported),
    }
}

/// Reads the optionality of a group entry, as `spec_group_entry_optional` says.
pub fn group_entry_optional(e: &GroupEntry) -> (r: Result<bool, Error>)
    ensures
        r == spec_group_entry_optional(e.deep_view()),
{
    match e {
        GroupEntry::ValueMemberKey { occur, .. } => Ok(
            match occur {
                Some(Occur::Optional) => true,
                _ => false,
            },
        ),
        GroupEntry::TypeGroupname { occur, .. } => Ok(
            match occur {
                Some(Occur::Optional) => true,
                _ => false,
            },
        ),
        GroupEntry::InlineGroup { .. } => Err(Error::SyntaxUnsupported),
    }
}

/// The fixed key an entry is stored under in a map record: a literal key
/// maps to the matching constant, a bareword to its text, a `Type1` key to
/// the literal it wraps. Entries without a member key have no fixed key.
pub open spec fn spec_group_entry_to_key(e: GroupEntryV) -> Result<Option<FixedValueV>, Error> {
    match e {
        GroupEntryV::ValueMemberKey { member_key, .. } => match member_key {
            None => Ok(None::<FixedValueV>),
            Some(MemberKeyV::Value { value }) => match value {
                LiteralV::Uint { value } => Ok(Some(FixedValueV::Uint { value })),
                LiteralV::Int { value } => Ok(Some(FixedValueV::Int { value })),
                LiteralV::Text { value } => Ok(Some(FixedValueV::Text { value })),
                LiteralV::Other => Err(Error::InvalidSchema),
            },
            Some(MemberKeyV::Bareword { ident }) => Ok(Some(FixedValueV::Text { value: ident })),
            Some(MemberKeyV::Type1 { t1 }) => match t1.type2 {
                Type2V::UintValue { value } => Ok(Some(FixedValueV::Uint { value })),
                Type2V::IntValue { value } => Ok(Some(FixedValueV::Int { value })),
                Type2V::TextValue { value } => Ok(Some(FixedValueV::Text { value })),
                _ => Err(Error::InvalidSchema),
            },
            Some(MemberKeyV::NonMemberKey) => Err(Error::Unreachable),
        },
        _ => Ok(None::<FixedValueV>),
    }
}

/// Extracts the fixed key of an entry, as `spec_group_entry_to_key` says.
pub fn group_entry_to_key(e: &GroupEntry) -> (r: Result<Option<FixedValue>, Error>)
    ensures
        match r {
            Ok(k) => spec_group_entry_to_key(e.deep_view()) == Ok::<_, Error>(k.deep_view()),
            Err(err) => spec_group_entry_to_key(e.deep_view()) == Err::<Option<FixedValueV>, _>(
                err,
            ),
        },
{
    match e {
        GroupEntry::ValueMemberKey { member_key, .. } => match member_key {
            None => Ok(None),
            Some(MemberKey::Value { value }) => match value {
                Literal::Uint { value } => Ok(Some(FixedValue::Uint { value: *value })),
                Literal::Int { value } => Ok(Some(FixedValue::Int { value: *value })),
                Literal::Text { value } => Ok(Some(FixedValue::Text { value: value.clone() })),
                Literal::Other => Err(Error::InvalidSchema),
            },
            Some(MemberKey::Bareword { ident }) => Ok(
                Some(FixedValue::Text { value: ident.clone() }),
            ),
            Some(MemberKey::Type1 { t1 }) => match &t1.type2 {
                crate::ast::Type2::UintValue { value } => Ok(
                    Some(FixedValue::Uint { value: *value }),
                ),
                crate::ast::Type2::IntValue { value } => Ok(
                    Some(FixedValue::Int { value: *value }),
                ),
                crate::ast::Type2::TextValue { value } => Ok(
                    Some(FixedValue::Text { value: value.clone() }),
                ),
                _ => Err(Error::InvalidSchema),
            },
            Some(MemberKey::NonMemberKey) => Err(Error::Unreachable),
        },
        _ => Ok(None),
    }
}

/// The field name a basic type term suggests: a typename names the field, a
/// text literal names it by its text, a homogeneous array of `T` suggests
/// `<T>s`.
pub open spec fn spec_type2_to_field_name(t2: Type2V) -> Option<Seq<char>>
    decreases t2, 0int,
{
    match t2 {
        Type2V::Typename { ident, .. } => Some(ident),
        Type2V::TextValue { value } => Some(value),
        Type2V::ArrayGroup { group } => {
            if group.choices.len() == 1 {
                let entries = group.choices[0].entries;
                if entries.len() == 1 {
                    match entries[0] {
                        GroupEntryV::ValueMemberKey { entry_type, .. } => {
                            match spec_type_to_field_name(entry_type) {
                                Some(n) => Some(n + "s"@),
                                None => None,
                            }
                        },
                        GroupEntryV::TypeGroupname { name, .. } => Some(name + "s"@),
                        GroupEntryV::InlineGroup { .. } => None,
                    }
                } else {
                    None
                }
            } else {
                None
            }
        },
        _ => None,
    }
}

/// The field name a type expression suggests: its single alternative's name,
/// or, for `T / null`, the name `T` suggests.
pub open spec fn spec_type_to_field_name(t: TypeExprV) -> Option<Seq<char>>
    decreases t, 1int,
{
    if t.choices.len() == 1 {
        spec_type2_to_field_name(t.choices[0].type1.type2)
    } else if t.choices.len() == 2 {
        let a = t.choices[0].type1.type2;
        let b = t.choices[1].type1.type2;
        if spec_type2_is_null(a) {
            spec_type2_to_field_name(b)
        } else if spec_type2_is_null(b) {
            spec_type2_to_field_name(a)
        } else {
            None
        }
    } else {
        None
    }
}

fn type2_to_field_name(t2: &crate::ast::Type2) -> (r: Option<String>)
    ensures
        r.deep_view() == spec_type2_to_field_name(t2.deep_view()),
    decreases *t2, 0int,
{
    proof {
        reveal_strlit("s");
    }
    match t2 {
        crate::ast::Type2::Typename { ident, .. } => Some(ident.clone()),
        crate::ast::Type2::TextValue { value } => Some(value.clone()),
        crate::ast::Type2::ArrayGroup { group } => {
            if group.choices.len() == 1 {
                let entries = &group.choices[0].entries;
                if entries.len() == 1 {
                    match &entries[0] {
                        GroupEntry::ValueMemberKey { entry_type, .. } => {
                            match type_to_field_name(entry_type) {
                                Some(n) => Some(n.concat("s")),
                                None => None,
                            }
                        },
                        GroupEntry::TypeGroupname { name, .. } => Some(name.clone().concat("s")),
                        GroupEntry::InlineGroup { .. } => None,
                    }
                } else {
                    None
                }
            } else {
                None
            }
        },
        _ => None,
    }
}

/// Derives a field name from a field's type, as `spec_type_to_field_name`
/// says.
pub fn type_to_field_name(t: &TypeExpr) -> (r: Option<String>)
    ensures
        r.deep_view() == spec_type_to_field_name(t.deep_view()),
    decreases *t, 1int,
{
    if t.choices.len() == 1 {
        type2_to_field_name(&t.choices[0].type1.type2)
    } else if t.choices.len() == 2 {
        let a = &t.choices[0].type1.type2;
        let b = &t.choices[1].type1.type2;
        if crate::parsing::type2_is_null(a) {
            type2_to_field_name(b)
        } else if crate::parsing::type2_is_null(b) {
            type2_to_field_name(a)
        } else {
            None
        }
    } else {
        None
    }
}

/// How a literal key renders inside a synthesized `key_<v>` field name.
pub open spec fn spec_literal_render(v: LiteralV) -> Seq<char> {
    match v {
        LiteralV::Uint { value } => dec_seq(value as int),
        LiteralV::Int { value } => dec_seq_signed(value as int),
        LiteralV::Text { value } => value,
        LiteralV::Other => Seq::<char>::empty(),
    }
}

/// The base name of one record field, before snake-casing and deduplication:
/// a bareword names it directly; a literal key uses the `@name` annotation
/// or `key_<v>`; a `Type1` key must wrap an unsigned literal and gives
/// `key_<n>`; an unkeyed entry is named from its type, the `@name`
/// annotation, or by position as `index_<i>`; a reference to a prelude name
/// also falls back to the annotation or the position.
pub open spec fn spec_field_base_name(e: GroupEntryV, index: int) -> Result<Seq<char>, Error> {
    match e {
        GroupEntryV::ValueMemberKey { member_key, entry_type, meta, .. } => match member_key {
            Some(MemberKeyV::Value { value }) => match meta.name {
                Some(n) => Ok(n),
                None => Ok("key_"@ + spec_literal_render(value)),
            },
            Some(MemberKeyV::Bareword { ident }) => Ok(ident),
            Some(MemberKeyV::Type1 { t1 }) => match t1.type2 {
                Type2V::UintValue { value } => Ok("key_"@ + dec_seq(value as int)),
                _ => Err(Error::InvalidSchema),
            },
            Some(MemberKeyV::NonMemberKey) => Err(Error::Unreachable),
            None => match spec_type_to_field_name(entry_type) {
                Some(n) => Ok(n),
                None => match meta.name {
                    Some(n) => Ok(n),
                    None => Ok("index_"@ + dec_seq(index)),
                },
            },
        },
        GroupEntryV::TypeGroupname { name, meta, .. } => {
            if is_user_defined(name) {
                Ok(name)
            } else {
                match meta.name {
                    Some(n) => Ok(n),
                    None => Ok("index_"@ + dec_seq(index)),
                }
            }
        },
        GroupEntryV::InlineGroup { .. } => Err(Error::SyntaxUnsupported),
    }
}

/// The final field name and the updated duplicate counter: the base name in
/// snake_case, deduplicated with numeric suffixes.
pub open spec fn spec_group_entry_to_field_name(
    e: GroupEntryV,
    index: int,
    used: Seq<(Seq<char>, u64)>,
) -> Result<(Seq<(Seq<char>, u64)>, Seq<char>), Error> {
    match spec_field_base_name(e, index) {
        Err(err) => Err(err),
        Ok(base) => Ok(dedup_step(used, snake_of(base))),
    }
}

/// Synthesizes the field name of `e` at position `index`, deduplicating
/// against `used`, as `spec_group_entry_to_field_name` says.
pub fn group_entry_to_field_name(
    e: &GroupEntry,
    index: usize,
    used: &mut Vec<(String, u64)>,
) -> (r: Result<String, Error>)
    ensures
        match r {
            Ok(name) => spec_group_entry_to_field_name(
                e.deep_view(),
                index as int,
                old(used).deep_view(),
            ) == Ok::<_, Error>((final(used).deep_view(), name@)),
            Err(err) => spec_group_entry_to_field_name(
                e.deep_view(),
                index as int,
                old(used).deep_view(),
            ) == Err::<(Seq<(Seq<char>, u64)>, Seq<char>), _>(err) && *final(used) == *old(used),
        },
{
    proof {
        reveal_strlit("key_");
        reveal_strlit("index_");
    }
    let base: String = match e {
        GroupEntry::ValueMemberKey { member_key, entry_type, meta, .. } => match member_key {
            Some(MemberKey::Value { value }) => match &meta.name {
                Some(n) => n.clone(),
                None => {
                    let mut s: String = "key_".to_owned();
                    match value {
                        Literal::Uint { value } => crate::names::push_dec_u64(&mut s, *value),
                        Literal::Int { value } => crate::names::push_dec_i64(&mut s, *value),
                        Literal::Text { value } => s.append(value.as_str()),
                        Literal::Other => {},
                    }
                    s
                },
            },
            Some(MemberKey::Bareword { ident }) => ident.clone(),
            Some(MemberKey::Type1 { t1 }) => match &t1.type2 {
                crate::ast::Type2::UintValue { value } => {
                    let mut s: String = "key_".to_owned();
                    crate::names::push_dec_u64(&mut s, *value);
                    s
                },
                _ => {
                    return Err(Error::InvalidSchema);
                },
            },
            Some(MemberKey::NonMemberKey) => {
                return Err(Error::Unreachable);
            },
            None => match type_to_field_name(entry_type) {
                Some(n) => n,
                None => match &meta.name {
                    Some(n) => n.clone(),
                    None => {
                        let mut s: String = "index_".to_owned();
                        crate::names::push_dec_u64(&mut s, index as u64);
                        s
                    },
                },
            },
        },
        GroupEntry::TypeGroupname { name, meta, .. } => {
            if crate::names::is_identifier_user_defined(name) {
                name.clone()
            } else {
                match &meta.name {
                    Some(n) => n.clone(),
                    None => {
                        let mut s: String = "index_".to_owned();
                        crate::names::push_dec_u64(&mut s, index as u64);
                        s
                    },
                }
            }
        },
        GroupEntry::InlineGroup { .. } => {
            return Err(Error::SyntaxUnsupported);
        },
    };
    let snake = crate::names::convert_to_snake_case(base.as_str());
    let name = crate::names::append_number_if_duplicate(used, snake);
    Ok(name)
}

/// The explicitly stated field name of an entry, if any: a bareword key, or
/// a reference to a schema-defined name. No casing is applied.
pub open spec fn spec_group_entry_to_raw_field_name(e: GroupEntryV) -> Result<
    Option<Seq<char>>,
    Error,
> {
    match e {
        GroupEntryV::ValueMemberKey { member_key, .. } => match member_key {
            Some(MemberKeyV::Bareword { ident }) => Ok(Some(ident)),
            _ => Ok(None::<Seq<char>>),
        },
        GroupEntryV::TypeGroupname { name, .. } => {
            if is_user_defined(name) {
                Ok(Some(name))
            } else {
                Ok(None::<Seq<char>>)
            }
        },
        GroupEntryV::InlineGroup { .. } => Err(Error::SyntaxUnsupported),
    }
}

/// Reads the explicit field name of an entry, as
/// `spec_group_entry_to_raw_field_name` says.
pub fn group_entry_to_raw_field_name(e: &GroupEntry) -> (r: Result<Option<String>, Error>)
    ensures
        match r {
            Ok(name) => spec_group_entry_to_raw_field_name(e.deep_view()) == Ok::<_, Error>(
                name.deep_view(),
            ),
            Err(err) => spec_group_entry_to_raw_field_name(e.deep_view()) == Err::<
                Option<Seq<char>>,
                _,
            >(err),
        },
{
    match e {
        GroupEntry::ValueMemberKey { member_key, .. } => match member_key {
            Some(MemberKey::Bareword { ident }) => Ok(Some(ident.clone())),
            _ => Ok(None),
        },
        GroupEntry::TypeGroupname { name, .. } => {
            if crate::names::is_identifier_user_defined(name) {
                Ok(Some(name.clone()))
            } else {
                Ok(None)
            }
        },
        GroupEntry::InlineGroup { .. } => Err(Error::SyntaxUnsupported),
    }
}


/// Lowers the type of one group entry: a keyed entry lowers its type
/// expression; a reference resolves through the catalog (generic arguments
/// on references are unsupported); inline groups are not implemented.
pub open spec fn spec_group_entry_to_type(cat: crate::catalog::CatalogV, e: GroupEntryV) -> Result<
    (crate::catalog::CatalogV, crate::ir::RustTypeV),
    Error,
>
    decreases e, 0int, 0int,
{
    match e {
        GroupEntryV::ValueMemberKey { entry_type, .. } => crate::lower::spec_rust_type(
            cat,
            entry_type,
        ),
        GroupEntryV::TypeGroupname { name, has_generic_args, .. } => {
            if has_generic_args {
                Err(Error::SyntaxUnsupported)
            } else {
                Ok((cat, crate::catalog::spec_new_type(cat, name)))
            }
        },
        GroupEntryV::InlineGroup { .. } => Err(Error::SyntaxUnsupported),
    }
}

/// Lowers one group entry's type, as `spec_group_entry_to_type` says.
pub fn group_entry_to_type(
    types: &mut crate::catalog::IntermediateTypes,
    e: &GroupEntry,
) -> (r: Result<crate::ir::RustType, Error>)
    ensures
        ({
            let s = spec_group_entry_to_type(old(types).deep_view(), e.deep_view());
            match r {
                Ok(ty) => s == Ok::<_, Error>((final(types).deep_view(), ty.deep_view())),
                Err(err) => s == Err::<(crate::catalog::CatalogV, crate::ir::RustTypeV), Error>(
                    err,
                ),
            }
        }),
    decreases *e, 0int, 0int,
{
    match e {
        GroupEntry::ValueMemberKey { entry_type, .. } => crate::lower::rust_type(
            types,
            entry_type,
        ),
        GroupEntry::TypeGroupname { name, has_generic_args, .. } => {
            if *has_generic_args {
                Err(Error::SyntaxUnsupported)
            } else {
                Ok(types.new_type(&crate::ir::CDDLIdent::new(name.clone())))
            }
        },
        GroupEntry::InlineGroup { .. } => Err(Error::SyntaxUnsupported),
    }
}

/// Builds the fields of a record from `entries[i..]`: for each entry its
/// synthesized name, its lowered type (recording the framing of plain-group
/// references), its optionality, and — in map framing — its fixed key,
/// which every map field must have.
pub open spec fn spec_record_fields(
    cat: crate::catalog::CatalogV,
    rep: Representation,
    entries: Seq<GroupEntryV>,
    i: int,
    used: Seq<(Seq<char>, u64)>,
) -> Result<(crate::catalog::CatalogV, Seq<crate::ir::RustFieldV>), Error>
    decreases entries, 0int, entries.len() - i,
{
    if i < 0 || i >= entries.len() {
        Ok((cat, Seq::<crate::ir::RustFieldV>::empty()))
    } else {
        let e = entries[i];
        match spec_group_entry_to_field_name(e, i, used) {
            Err(err) => Err(err),
            Ok((used2, name)) => match spec_group_entry_to_type(cat, e) {
                Err(err) => Err(err),
                Ok((cat2, ty)) => {
                    let cat3 = match ty {
                        crate::ir::RustTypeV::Rust(id) => crate::catalog::spec_set_rep_if_plain_group(
                            cat2,
                            id,
                            rep,
                        ),
                        _ => cat2,
                    };
                    match spec_group_entry_optional(e) {
                        Err(err) => Err(err),
                        Ok(optional) => {
                            let key_r: Result<Option<FixedValueV>, Error> = match rep {
                                Representation::CborMap => match spec_group_entry_to_key(e) {
                                    Err(err) => Err(err),
                                    Ok(Some(k)) => Ok(Some(k)),
                                    Ok(None) => Err(Error::InvalidSchema),
                                },
                                Representation::CborArray => Ok(None::<FixedValueV>),
                            };
                            match key_r {
                                Err(err) => Err(err),
                                Ok(key) => match spec_record_fields(cat3, rep, entries, i + 1, used2) {
                                    Err(err) => Err(err),
                                    Ok((cat4, rest)) => Ok(
                                        (
                                            cat4,
                                            seq![
                                                crate::ir::RustFieldV {
                                                    name,
                                                    rust_type: ty,
                                                    optional,
                                                    key,
                                                },
                                            ] + rest,
                                        ),
                                    ),
                                },
                            }
                        },
                    }
                },
            },
        }
    }
}

fn record_fields_rec(
    types: &mut crate::catalog::IntermediateTypes,
    rep: Representation,
    entries: &Vec<GroupEntry>,
    i: usize,
    used: &mut Vec<(String, u64)>,
) -> (r: Result<Vec<crate::ir::RustField>, Error>)
    requires
        i <= entries.len(),
    ensures
        ({
            let s = spec_record_fields(
                old(types).deep_view(),
                rep,
                crate::ast::group_entries_view(entries@),
                i as int,
                old(used).deep_view(),
            );
            match r {
                Ok(fs) => s == Ok::<_, Error>((final(types).deep_view(), fs.deep_view())),
                Err(err) => s == Err::<
                    (crate::catalog::CatalogV, Seq<crate::ir::RustFieldV>),
                    Error,
                >(err),
            }
        }),
    decreases entries@, 0int, entries.len() - i,
{
    if i == entries.len() {
        let out: Vec<crate::ir::RustField> = Vec::new();
        proof {
            assert(out.deep_view() =~= Seq::<crate::ir::RustFieldV>::empty());
        }
        Ok(out)
    } else {
        let e = &entries[i];
        let name = match group_entry_to_field_name(e, i, used) {
            Ok(n) => n,
            Err(err) => {
                return Err(err);
            },
        };
        let ty = match group_entry_to_type(types, e) {
            Ok(t) => t,
            Err(err) => {
                return Err(err);
            },
        };
        match &ty {
            crate::ir::RustType::Rust(id) => {
                types.set_rep_if_plain_group(id, rep);
            },
            _ => {},
        }
        let optional = match group_entry_optional(e) {
            Ok(o) => o,
            Err(err) => {
                return Err(err);
            },
        };
        let key: Option<FixedValue> = match rep {
            Representation::CborMap => match group_entry_to_key(e) {
                Err(err) => {
                    return Err(err);
                },
                Ok(Some(k)) => Some(k),
                Ok(None) => {
                    return Err(Error::InvalidSchema);
                },
            },
            Representation::CborArray => None,
        };
        let mut rest = match record_fields_rec(types, rep, entries, i + 1, used) {
            Ok(rest) => rest,
            Err(err) => {
                return Err(err);
            },
        };
        let f = crate::ir::RustField { name, rust_type: ty, optional, key };
        let ghost fv = f.deep_view();
        let ghost restv = rest.deep_view();
        rest.insert(0, f);
        proof {
            assert(rest.deep_view() =~= seq![fv] + restv);
        }
        Ok(rest)
    }
}

/// Builds a record from a group choice: its fields in order, under the given
/// framing, with field names deduplicated from a fresh counter.
pub open spec fn spec_parse_record_from_group_choice(
    cat: crate::catalog::CatalogV,
    rep: Representation,
    gc: GroupChoiceV,
) -> Result<(crate::catalog::CatalogV, crate::ir::RustRecordV), Error>
    decreases gc, 1int, 0int,
{
    match spec_record_fields(cat, rep, gc.entries, 0, Seq::<(Seq<char>, u64)>::empty()) {
        Err(err) => Err(err),
        Ok((cat1, fields)) => Ok((cat1, crate::ir::RustRecordV { rep, fields })),
    }
}

/// Builds a record from a group choice, as
/// `spec_parse_record_from_group_choice` says.
pub fn parse_record_from_group_choice(
    types: &mut crate::catalog::IntermediateTypes,
    rep: Representation,
    gc: &GroupChoice,
) -> (r: Result<crate::ir::RustRecord, Error>)
    ensures
        ({
            let s = spec_parse_record_from_group_choice(old(types).deep_view(), rep, gc.deep_view());
            match r {
                Ok(rec) => s == Ok::<_, Error>((final(types).deep_view(), rec.deep_view())),
                Err(err) => s == Err::<
                    (crate::catalog::CatalogV, crate::ir::RustRecordV),
                    Error,
                >(err),
            }
        }),
    decreases *gc, 1int, 0int,
{
    let mut used: Vec<(String, u64)> = Vec::new();
    proof {
        assert(used.deep_view() =~= Seq::<(Seq<char>, u64)>::empty());
    }
    let fields = match record_fields_rec(types, rep, &gc.entries, 0, &mut used) {
        Ok(fs) => fs,
        Err(err) => {
            return Err(err);
        },
    };
    Ok(crate::ir::RustRecord { rep, fields })
}

/// Registers one group choice under `name`: a table shape registers a
/// `Table` with its lowered key and value types; anything else registers a
/// `Record` with the built fields. With generic parameters the struct is
/// wrapped in a `GenericDef` instead.
pub open spec fn spec_parse_group_choice(
    cat: crate::catalog::CatalogV,
    gc: GroupChoiceV,
    name: Seq<char>,
    rep: Representation,
    tag: Option<u64>,
    generic_params: Option<Seq<Seq<char>>>,
) -> Result<crate::catalog::CatalogV, Error>
    decreases gc, 2int, 0int,
{
    let struct_r: Result<(crate::catalog::CatalogV, crate::ir::RustStructV), Error> = match
        spec_table_domain_range(gc, rep) {
        Some((domain, range)) => match crate::lower::spec_rust_type_from_type1(cat, domain) {
            Err(err) => Err(err),
            Ok((cat1, kt)) => match crate::lower::spec_rust_type(cat1, range) {
                Err(err) => Err(err),
                Ok((cat2, vt)) => Ok(
                    (
                        cat2,
                        crate::ir::RustStructV::Table { ident: name, tag, key: kt, value: vt },
                    ),
                ),
            },
        },
        None => match spec_parse_record_from_group_choice(cat, rep, gc) {
            Err(err) => Err(err),
            Ok((cat1, record)) => Ok(
                (cat1, crate::ir::RustStructV::Record { ident: name, tag, record }),
            ),
        },
    };
    match struct_r {
        Err(err) => Err(err),
        Ok((cat2, s)) => match generic_params {
            Some(params) => Ok(
                crate::catalog::CatalogV {
                    generic_defs: cat2.generic_defs.push(
                        crate::ir::GenericDefV { params, body: s },
                    ),
                    ..cat2
                },
            ),
            None => Ok(
                crate::catalog::CatalogV { structs: cat2.structs.push(s), ..cat2 },
            ),
        },
    }
}

/// Registers one group choice, as `spec_parse_group_choice` says.
#[verifier::rlimit(60)]
pub fn parse_group_choice(
    types: &mut crate::catalog::IntermediateTypes,
    gc: &GroupChoice,
    name: &crate::ir::RustIdent,
    rep: Representation,
    tag: Option<u64>,
    generic_params: Option<Vec<crate::ir::RustIdent>>,
) -> (r: Result<(), Error>)
    ensures
        ({
            let s = spec_parse_group_choice(
                old(types).deep_view(),
                gc.deep_view(),
                name.deep_view(),
                rep,
                tag,
                generic_params.deep_view(),
            );
            match r {
                Ok(()) => s == Ok::<_, Error>(final(types).deep_view()),
                Err(err) => s == Err::<crate::catalog::CatalogV, Error>(err),
            }
        }),
    decreases *gc, 2int, 0int,
{
    let rust_struct: crate::ir::RustStruct = match table_domain_range(gc, rep) {
        Some((domain, range)) => {
            proof {
                assert(decreases_to!(*gc, 2int, 0int => *domain, 0int, 0int));
                assert(decreases_to!(*gc, 2int, 0int => *range, 3int, 0int));
            }
            let kt = match crate::lower::rust_type_from_type1(types, domain) {
                Ok(kt) => kt,
                Err(err) => {
                    return Err(err);
                },
            };
            let vt = match crate::lower::rust_type(types, range) {
                Ok(vt) => vt,
                Err(err) => {
                    return Err(err);
                },
            };
            crate::ir::RustStruct::Table { ident: name.duplicate(), tag, key: kt, value: vt }
        },
        None => {
            let record = match parse_record_from_group_choice(types, rep, gc) {
                Ok(rec) => rec,
                Err(err) => {
                    return Err(err);
                },
            };
            crate::ir::RustStruct::Record { ident: name.duplicate(), tag, record }
        },
    };
    match generic_params {
        Some(params) => types.register_generic_def(
            crate::ir::GenericDef { params, body: rust_struct },
        ),
        None => types.register_rust_struct(rust_struct),
    }
    Ok(())
}

/// One variant per group choice of a multi-choice group. A single-entry
/// choice wraps that entry's type directly, named by its explicit field
/// name or by the type's deduplicated projection, and flagged as embedded
/// when the type is a marked plain group. A longer choice is registered as
/// its own record, named by its `@name` annotation or `<outer><position>`,
/// and the variant references it.
pub open spec fn spec_group_variants(
    cat: crate::catalog::CatalogV,
    choices: Seq<GroupChoiceV>,
    i: int,
    used: Seq<(Seq<char>, u64)>,
    outer_name: Seq<char>,
    rep: Representation,
) -> Result<(crate::catalog::CatalogV, Seq<crate::ir::EnumVariantV>), Error>
    decreases choices, 0int, choices.len() - i,
{
    if i < 0 || i >= choices.len() {
        Ok((cat, Seq::<crate::ir::EnumVariantV>::empty()))
    } else {
        let gc = choices[i];
        let one: Result<
            (crate::catalog::CatalogV, Seq<(Seq<char>, u64)>, crate::ir::EnumVariantV),
            Error,
        > = if gc.entries.len() == 1 {
            let entry = gc.entries[0];
            match spec_group_entry_to_type(cat, entry) {
                Err(err) => Err(err),
                Ok((cat1, ty)) => {
                    let st: (crate::catalog::CatalogV, bool) = match ty {
                        crate::ir::RustTypeV::Rust(id) => {
                            let cat2 = crate::catalog::spec_set_rep_if_plain_group(cat1, id, rep);
                            (cat2, crate::catalog::pg_find(cat2.plain_groups, id) is Some)
                        },
                        _ => (cat1, false),
                    };
                    match spec_group_entry_to_raw_field_name(entry) {
                        Err(err) => Err(err),
                        Ok(raw) => {
                            let named: (Seq<(Seq<char>, u64)>, Seq<char>) = match raw {
                                Some(n) => (used, n),
                                None => dedup_step(used, crate::ir::for_variant_v(ty)),
                            };
                            Ok(
                                (
                                    st.0,
                                    named.0,
                                    crate::ir::EnumVariantV {
                                        name: crate::ir::VariantIdentV::Custom {
                                            name: crate::names::camel_of(named.1),
                                        },
                                        rust_type: ty,
                                        serialize_as_embedded_group: st.1,
                                    },
                                ),
                            )
                        },
                    }
                },
            }
        } else {
            let ident_name = match gc.meta.name {
                Some(n) => n,
                None => outer_name + crate::names::dec_seq(i),
            };
            let variant_name = crate::names::camel_of(ident_name);
            let cat1 = crate::catalog::spec_mark_plain_group(cat, variant_name, None);
            match spec_parse_group_choice(cat1, gc, variant_name, rep, None, None) {
                Err(err) => Err(err),
                Ok(cat2) => Ok(
                    (
                        cat2,
                        used,
                        crate::ir::EnumVariantV {
                            name: crate::ir::VariantIdentV::RustId { ident: variant_name },
                            rust_type: crate::ir::RustTypeV::Rust(variant_name),
                            serialize_as_embedded_group: true,
                        },
                    ),
                ),
            }
        };
        match one {
            Err(err) => Err(err),
            Ok((cat_after, used_after, v)) => match spec_group_variants(
                cat_after,
                choices,
                i + 1,
                used_after,
                outer_name,
                rep,
            ) {
                Err(err) => Err(err),
                Ok((cat_rest, rest)) => Ok((cat_rest, seq![v] + rest)),
            },
        }
    }
}

fn group_variants_rec(
    types: &mut crate::catalog::IntermediateTypes,
    choices: &Vec<GroupChoice>,
    i: usize,
    used: &mut Vec<(String, u64)>,
    outer_name: &crate::ir::RustIdent,
    rep: Representation,
) -> (r: Result<Vec<crate::ir::EnumVariant>, Error>)
    requires
        i <= choices.len(),
    ensures
        ({
            let s = spec_group_variants(
                old(types).deep_view(),
                crate::ast::group_choices_view(choices@),
                i as int,
                old(used).deep_view(),
                outer_name.deep_view(),
                rep,
            );
            match r {
                Ok(vs) => s == Ok::<_, Error>((final(types).deep_view(), vs.deep_view())),
                Err(err) => s == Err::<
                    (crate::catalog::CatalogV, Seq<crate::ir::EnumVariantV>),
                    Error,
                >(err),
            }
        }),
    decreases choices@, 0int, choices.len() - i,
{
    if i == choices.len() {
        let out: Vec<crate::ir::EnumVariant> = Vec::new();
        proof {
            assert(out.deep_view() =~= Seq::<crate::ir::EnumVariantV>::empty());
        }
        Ok(out)
    } else {
        let gc = &choices[i];
        let v: crate::ir::EnumVariant = if gc.entries.len() == 1 {
            let entry = &gc.entries[0];
            let ty = match group_entry_to_type(types, entry) {
                Ok(t) => t,
                Err(err) => {
                    return Err(err);
                },
            };
            let serialize_as_embedded: bool = match &ty {
                crate::ir::RustType::Rust(id) => {
                    types.set_rep_if_plain_group(id, rep);
                    types.is_plain_group(id)
                },
                _ => false,
            };
            let raw = match group_entry_to_raw_field_name(entry) {
                Ok(raw) => raw,
                Err(err) => {
                    return Err(err);
                },
            };
            let base: String = match raw {
                Some(n) => n,
                None => {
                    let vn = ty.for_variant();
                    crate::names::append_number_if_duplicate(used, vn)
                },
            };
            let variant_ident = crate::names::convert_to_camel_case(base.as_str());
            crate::ir::EnumVariant {
                name: crate::ir::VariantIdent::Custom { name: variant_ident },
                rust_type: ty,
                serialize_as_embedded_group: serialize_as_embedded,
            }
        } else {
            let ident_name: String = match &gc.meta.name {
                Some(n) => n.clone(),
                None => {
                    let mut s: String = outer_name.name.clone();
                    crate::names::push_dec_u64(&mut s, i as u64);
                    s
                },
            };
            let variant_name = crate::ir::RustIdent::new(crate::ir::CDDLIdent::new(ident_name));
            types.mark_plain_group(variant_name.duplicate(), None);
            match parse_group_choice(types, gc, &variant_name, rep, None, None) {
                Ok(()) => {},
                Err(err) => {
                    return Err(err);
                },
            }
            crate::ir::EnumVariant {
                name: crate::ir::VariantIdent::RustId { ident: variant_name.duplicate() },
                rust_type: crate::ir::RustType::Rust(variant_name),
                serialize_as_embedded_group: true,
            }
        };
        let mut rest = match group_variants_rec(types, choices, i + 1, used, outer_name, rep) {
            Ok(rest) => rest,
            Err(err) => {
                return Err(err);
            },
        };
        let ghost vv = v.deep_view();
        let ghost restv = rest.deep_view();
        rest.insert(0, v);
        proof {
            assert(rest.deep_view() =~= seq![vv] + restv);
        }
        Ok(rest)
    }
}

/// Registers a group under `name`: a single choice registers directly as a
/// table or record; several choices register a `GroupChoice` sum with one
/// variant per choice. Generic parameters on multi-choice groups, and a
/// multi-choice group already marked as a plain group, are unsupported.
pub open spec fn spec_parse_group(
    cat: crate::catalog::CatalogV,
    g: crate::ast::GroupV,
    name: Seq<char>,
    rep: Representation,
    tag: Option<u64>,
    generic_params: Option<Seq<Seq<char>>>,
) -> Result<crate::catalog::CatalogV, Error>
    decreases g, 0int, 0int,
{
    if g.choices.len() == 1 {
        spec_parse_group_choice(cat, g.choices[0], name, rep, tag, generic_params)
    } else if generic_params is Some {
        Err(Error::SyntaxUnsupported)
    } else if crate::catalog::pg_find(cat.plain_groups, name) is Some {
        Err(Error::SyntaxUnsupported)
    } else {
        match spec_group_variants(cat, g.choices, 0, Seq::<(Seq<char>, u64)>::empty(), name, rep) {
            Err(err) => Err(err),
            Ok((cat1, variants)) => Ok(
                crate::catalog::CatalogV {
                    structs: cat1.structs.push(
                        crate::ir::RustStructV::GroupChoice { ident: name, tag, variants, rep },
                    ),
                    ..cat1
                },
            ),
        }
    }
}

/// Registers a group under `name`, as `spec_parse_group` says.
pub fn parse_group(
    types: &mut crate::catalog::IntermediateTypes,
    group: &crate::ast::Group,
    name: &crate::ir::RustIdent,
    rep: Representation,
    tag: Option<u64>,
    generic_params: Option<Vec<crate::ir::RustIdent>>,
) -> (r: Result<(), Error>)
    ensures
        ({
            let s = spec_parse_group(
                old(types).deep_view(),
                group.deep_view(),
                name.deep_view(),
                rep,
                tag,
                generic_params.deep_view(),
            );
            match r {
                Ok(()) => s == Ok::<_, Error>(final(types).deep_view()),
                Err(err) => s == Err::<crate::catalog::CatalogV, Error>(err),
            }
        }),
    decreases *group, 3int, 0int,
{
    if group.choices.len() == 1 {
        parse_group_choice(types, &group.choices[0], name, rep, tag, generic_params)
    } else if generic_params.is_some() {
        Err(Error::SyntaxUnsupported)
    } else if types.is_plain_group(name) {
        Err(Error::SyntaxUnsupported)
    } else {
        let mut used: Vec<(String, u64)> = Vec::new();
        proof {
            assert(used.deep_view() =~= Seq::<(Seq<char>, u64)>::empty());
        }
        let variants = match group_variants_rec(types, &group.choices, 0, &mut used, name, rep) {
            Ok(vs) => vs,
            Err(err) => {
                return Err(err);
            },
        };
        types.register_rust_struct(
            crate::ir::RustStruct::GroupChoice {
                ident: name.duplicate(),
                tag,
                variants,
                rep,
            },
        );
        Ok(())
    }
}

} // verus!
