//! The intermediate type representation (IR) that the pass registers:
//! type expressions, records, tables, wrappers, sum types and generics,
//! together with their spec-level models (strings as `Seq<char>`).

use vstd::prelude::*;
use crate::names::{camel_of, dec_seq, dec_seq_signed};

verus! {

/// Serialized framing of a group: CBOR map or CBOR array.
#[derive(Clone, Copy, Debug, PartialEq, Eq, Structural)]
pub enum Representation {
    CborMap,
    CborArray,
}

impl DeepView for Representation {
    type V = Representation;

    open spec fn deep_view(&self) -> Representation {
        *self
    }
}

/// An identifier as it stands in the CDDL source (dashes and case preserved).
#[derive(Clone, Debug, PartialEq, Eq)]
pub struct CDDLIdent {
    pub name: String,
}

impl DeepView for CDDLIdent {
    type V = Seq<char>;

    open spec fn deep_view(&self) -> Seq<char> {
        self.name@
    }
}

impl CDDLIdent {
    pub fn new(name: String) -> (r: CDDLIdent)
        ensures
            r.deep_view() == name@,
    {
        CDDLIdent { name }
    }

    pub fn duplicate(&self) -> (r: CDDLIdent)
        ensures
            r.deep_view() == self.deep_view(),
    {
        CDDLIdent { name: self.name.clone() }
    }
}

/// An identifier in target-language casing (CamelCase).
#[derive(Clone, Debug, PartialEq, Eq)]
pub struct RustIdent {
    pub name: String,
}

impl DeepView for RustIdent {
    type V = Seq<char>;

    open spec fn deep_view(&self) -> Seq<char> {
        self.name@
    }
}

impl RustIdent {
    /// Converts a raw CDDL identifier to its CamelCase target form.
    pub fn new(ident: CDDLIdent) -> (r: RustIdent)
        ensures
            r.deep_view() == camel_of(ident.deep_view()),
    {
        RustIdent { name: crate::names::convert_to_camel_case(ident.name.as_str()) }
    }

    pub fn duplicate(&self) -> (r: RustIdent)
        ensures
            r.deep_view() == self.deep_view(),
    {
        RustIdent { name: self.name.clone() }
    }
}

/// The name of one variant of a sum type: either synthesized from a type's
/// variant projection, or the name of a registered struct.
#[derive(Clone, Debug, PartialEq, Eq)]
pub enum VariantIdent {
    Custom { name: String },
    RustId { ident: RustIdent },
}

pub enum VariantIdentV {
    Custom { name: Seq<char> },
    RustId { ident: Seq<char> },
}

impl DeepView for VariantIdent {
    type V = VariantIdentV;

    open spec fn deep_view(&self) -> VariantIdentV {
        match self {
            VariantIdent::Custom { name } => VariantIdentV::Custom { name: name@ },
            VariantIdent::RustId { ident } => VariantIdentV::RustId { ident: ident.deep_view() },
        }
    }
}

/// The fixed-width primitive IR types.
#[derive(Clone, Copy, Debug, PartialEq, Eq, Structural)]
pub enum Primitive {
    U8,
    I8,
    U16,
    I16,
    U32,
    I32,
    U64,
    I64,
    Str,
    Bytes,
}

impl DeepView for Primitive {
    type V = Primitive;

    open spec fn deep_view(&self) -> Primitive {
        *self
    }
}

/// The variant-name projection of a primitive. The default unsigned and
/// signed integers read as `Uint` and `Int`; the sized widths keep their
/// width in the name.
pub open spec fn prim_variant(p: Primitive) -> Seq<char> {
    match p {
        Primitive::U8 => "U8"@,
        Primitive::I8 => "I8"@,
        Primitive::U16 => "U16"@,
        Primitive::I16 => "I16"@,
        Primitive::U32 => "U32"@,
        Primitive::I32 => "I32"@,
        Primitive::U64 => "Uint"@,
        Primitive::I64 => "Int"@,
        Primitive::Str => "Text"@,
        Primitive::Bytes => "Bytes"@,
    }
}

fn prim_variant_str(p: &Primitive) -> (r: &'static str)
    ensures
        r@ == prim_variant(*p),
{
    match p {
        Primitive::U8 => "U8",
        Primitive::I8 => "I8",
        Primitive::U16 => "U16",
        Primitive::I16 => "I16",
        Primitive::U32 => "U32",
        Primitive::I32 => "I32",
        Primitive::U64 => "Uint",
        Primitive::I64 => "Int",
        Primitive::Str => "Text",
        Primitive::Bytes => "Bytes",
    }
}

/// A literal constant type.
#[derive(Clone, Debug, PartialEq, Eq)]
pub enum FixedValue {
    Uint { value: u64 },
    Int { value: i64 },
    Text { value: String },
}

pub enum FixedValueV {
    Uint { value: u64 },
    Int { value: i64 },
    Text { value: Seq<char> },
}

impl DeepView for FixedValue {
    type V = FixedValueV;

    open spec fn deep_view(&self) -> FixedValueV {
        match self {
            FixedValue::Uint { value } => FixedValueV::Uint { value: *value },
            FixedValue::Int { value } => FixedValueV::Int { value: *value },
            FixedValue::Text { value } => FixedValueV::Text { value: value@ },
        }
    }
}

/// An IR type expression.
#[derive(Debug, PartialEq, Eq)]
pub enum RustType {
    /// A literal constant.
    Fixed(FixedValue),
    /// A fixed-width primitive.
    Primitive(Primitive),
    /// A named user type, registered in this same pass or built in.
    Rust(RustIdent),
    /// A named reference whose referent is already known.
    Alias(RustIdent, Box<RustType>),
    /// CBOR tag applied to an inner type; one level only.
    Tagged(u64, Box<RustType>),
    /// The inner type or null.
    Optional(Box<RustType>),
    /// Homogeneous array of the element type.
    Array(Box<RustType>),
    /// Homogeneous map from key type to value type.
    CborMap(Box<RustType>, Box<RustType>),
    /// The inner value serialized as CBOR inside a byte string (`.cbor`).
    CBORBytes(Box<RustType>),
}

pub enum RustTypeV {
    Fixed(FixedValueV),
    Primitive(Primitive),
    Rust(Seq<char>),
    Alias(Seq<char>, Box<RustTypeV>),
    Tagged(u64, Box<RustTypeV>),
    Optional(Box<RustTypeV>),
    Array(Box<RustTypeV>),
    CborMap(Box<RustTypeV>, Box<RustTypeV>),
    CBORBytes(Box<RustTypeV>),
}

pub open spec fn rust_type_view(t: RustType) -> RustTypeV
    decreases t,
{
    match t {
        RustType::Fixed(f) => RustTypeV::Fixed(f.deep_view()),
        RustType::Primitive(p) => RustTypeV::Primitive(p),
        RustType::Rust(id) => RustTypeV::Rust(id.deep_view()),
        RustType::Alias(id, inner) => RustTypeV::Alias(
            id.deep_view(),
            Box::new(rust_type_view(*inner)),
        ),
        RustType::Tagged(tag, inner) => RustTypeV::Tagged(tag, Box::new(rust_type_view(*inner))),
        RustType::Optional(inner) => RustTypeV::Optional(Box::new(rust_type_view(*inner))),
        RustType::Array(inner) => RustTypeV::Array(Box::new(rust_type_view(*inner))),
        RustType::CborMap(k, v) => RustTypeV::CborMap(
            Box::new(rust_type_view(*k)),
            Box::new(rust_type_view(*v)),
        ),
        RustType::CBORBytes(inner) => RustTypeV::CBORBytes(Box::new(rust_type_view(*inner))),
    }
}

impl DeepView for RustType {
    type V = RustTypeV;

    open spec fn deep_view(&self) -> RustTypeV {
        rust_type_view(*self)
    }
}

/// The variant-name projection of an IR type: the name a sum-type variant or
/// a generic-instance segment takes when this type stands in it.
pub open spec fn for_variant_v(t: RustTypeV) -> Seq<char>
    decreases t,
{
    match t {
        RustTypeV::Fixed(f) => match f {
            FixedValueV::Uint { value } => "U"@ + dec_seq(value as int),
            FixedValueV::Int { value } => "I"@ + dec_seq_signed(value as int),
            FixedValueV::Text { value } => camel_of(value),
        },
        RustTypeV::Primitive(p) => prim_variant(p),
        RustTypeV::Rust(id) => id,
        RustTypeV::Alias(id, _inner) => id,
        RustTypeV::Tagged(tag, inner) => "Tagged"@ + dec_seq(tag as int) + for_variant_v(*inner),
        RustTypeV::Optional(inner) => "Opt"@ + for_variant_v(*inner),
        RustTypeV::Array(inner) => "Arr"@ + for_variant_v(*inner),
        RustTypeV::CborMap(k, v) => "Map"@ + for_variant_v(*k) + "To"@ + for_variant_v(*v),
        RustTypeV::CBORBytes(inner) => "CborBytes"@ + for_variant_v(*inner),
    }
}

impl RustType {
    /// The variant-name projection, as `for_variant_v` of the model says.
    pub fn for_variant(&self) -> (r: String)
        ensures
            r@ == for_variant_v(self.deep_view()),
        decreases *self,
    {
        proof {
            reveal_strlit("U");
            reveal_strlit("I");
            reveal_strlit("Tagged");
            reveal_strlit("Opt");
            reveal_strlit("Arr");
            reveal_strlit("Map");
            reveal_strlit("To");
            reveal_strlit("CborBytes");
        }
        match self {
            RustType::Fixed(f) => match f {
                FixedValue::Uint { value } => {
                    let mut s: String = "U".to_owned();
                    crate::names::push_dec_u64(&mut s, *value);
                    s
                },
                FixedValue::Int { value } => {
                    let mut s: String = "I".to_owned();
                    crate::names::push_dec_i64(&mut s, *value);
                    s
                },
                FixedValue::Text { value } => crate::names::convert_to_camel_case(value.as_str()),
            },
            RustType::Primitive(p) => prim_variant_str(p).to_owned(),
            RustType::Rust(id) => id.name.clone(),
            RustType::Alias(id, _inner) => id.name.clone(),
            RustType::Tagged(tag, inner) => {
                let mut s: String = "Tagged".to_owned();
                crate::names::push_dec_u64(&mut s, *tag);
                let rest = inner.for_variant();
                s.append(rest.as_str());
                s
            },
            RustType::Optional(inner) => {
                let mut s: String = "Opt".to_owned();
                let rest = inner.for_variant();
                s.append(rest.as_str());
                s
            },
            RustType::Array(inner) => {
                let mut s: String = "Arr".to_owned();
                let rest = inner.for_variant();
                s.append(rest.as_str());
                s
            },
            RustType::CborMap(k, v) => {
                let mut s: String = "Map".to_owned();
                let rk = k.for_variant();
                s.append(rk.as_str());
                s.append("To");
                let rv = v.for_variant();
                s.append(rv.as_str());
                s
            },
            RustType::CBORBytes(inner) => {
                let mut s: String = "CborBytes".to_owned();
                let rest = inner.for_variant();
                s.append(rest.as_str());
                s
            },
        }
    }
}

/// One field of a record: name, type, optionality, and (for map records)
/// the fixed key it is stored under.
#[derive(Debug, PartialEq, Eq)]
pub struct RustField {
    pub name: String,
    pub rust_type: RustType,
    pub optional: bool,
    pub key: Option<FixedValue>,
}

pub struct RustFieldV {
    pub name: Seq<char>,
    pub rust_type: RustTypeV,
    pub optional: bool,
    pub key: Option<FixedValueV>,
}

impl DeepView for RustField {
    type V = RustFieldV;

    open spec fn deep_view(&self) -> RustFieldV {
        RustFieldV {
            name: self.name@,
            rust_type: self.rust_type.deep_view(),
            optional: self.optional,
            key: self.key.deep_view(),
        }
    }
}

/// A heterogeneous group with fixed fields, framed as a map or an array.
#[derive(Debug, PartialEq, Eq)]
pub struct RustRecord {
    pub rep: Representation,
    pub fields: Vec<RustField>,
}

pub struct RustRecordV {
    pub rep: Representation,
    pub fields: Seq<RustFieldV>,
}

impl DeepView for RustRecord {
    type V = RustRecordV;

    open spec fn deep_view(&self) -> RustRecordV {
        RustRecordV { rep: self.rep, fields: self.fields.deep_view() }
    }
}

/// One variant of a sum type.
#[derive(Debug, PartialEq, Eq)]
pub struct EnumVariant {
    pub name: VariantIdent,
    pub rust_type: RustType,
    pub serialize_as_embedded_group: bool,
}

pub struct EnumVariantV {
    pub name: VariantIdentV,
    pub rust_type: RustTypeV,
    pub serialize_as_embedded_group: bool,
}

impl DeepView for EnumVariant {
    type V = EnumVariantV;

    open spec fn deep_view(&self) -> EnumVariantV {
        EnumVariantV {
            name: self.name.deep_view(),
            rust_type: self.rust_type.deep_view(),
            serialize_as_embedded_group: self.serialize_as_embedded_group,
        }
    }
}

/// A named IR declaration.
#[derive(Debug, PartialEq, Eq)]
pub enum RustStruct {
    /// Fixed fields under fixed keys (or positions).
    Record { ident: RustIdent, tag: Option<u64>, record: RustRecord },
    /// Homogeneous key-to-value map.
    Table { ident: RustIdent, tag: Option<u64>, key: RustType, value: RustType },
    /// A newtype around one inner type, with optional inclusive numeric bounds.
    Wrapper {
        ident: RustIdent,
        tag: Option<u64>,
        wrapped: RustType,
        bounds: Option<(Option<i128>, Option<i128>)>,
    },
    /// A sum of type variants.
    TypeChoice { ident: RustIdent, tag: Option<u64>, variants: Vec<EnumVariant> },
    /// A sum of group variants inside a map or array framing.
    GroupChoice {
        ident: RustIdent,
        tag: Option<u64>,
        variants: Vec<EnumVariant>,
        rep: Representation,
    },
}

pub enum RustStructV {
    Record { ident: Seq<char>, tag: Option<u64>, record: RustRecordV },
    Table { ident: Seq<char>, tag: Option<u64>, key: RustTypeV, value: RustTypeV },
    Wrapper {
        ident: Seq<char>,
        tag: Option<u64>,
        wrapped: RustTypeV,
        bounds: Option<(Option<i128>, Option<i128>)>,
    },
    TypeChoice { ident: Seq<char>, tag: Option<u64>, variants: Seq<EnumVariantV> },
    GroupChoice {
        ident: Seq<char>,
        tag: Option<u64>,
        variants: Seq<EnumVariantV>,
        rep: Representation,
    },
}

impl DeepView for RustStruct {
    type V = RustStructV;

    open spec fn deep_view(&self) -> RustStructV {
        match self {
            RustStruct::Record { ident, tag, record } => RustStructV::Record {
                ident: ident.deep_view(),
                tag: *tag,
                record: record.deep_view(),
            },
            RustStruct::Table { ident, tag, key, value } => RustStructV::Table {
                ident: ident.deep_view(),
                tag: *tag,
                key: key.deep_view(),
                value: value.deep_view(),
            },
            RustStruct::Wrapper { ident, tag, wrapped, bounds } => RustStructV::Wrapper {
                ident: ident.deep_view(),
                tag: *tag,
                wrapped: wrapped.deep_view(),
                bounds: *bounds,
            },
            RustStruct::TypeChoice { ident, tag, variants } => RustStructV::TypeChoice {
                ident: ident.deep_view(),
                tag: *tag,
                variants: variants.deep_view(),
            },
            RustStruct::GroupChoice { ident, tag, variants, rep } => RustStructV::GroupChoice {
                ident: ident.deep_view(),
                tag: *tag,
                variants: variants.deep_view(),
                rep: *rep,
            },
        }
    }
}

/// The schema of a generic rule: its parameters and the struct they stand in.
#[derive(Debug, PartialEq, Eq)]
pub struct GenericDef {
    pub params: Vec<RustIdent>,
    pub body: RustStruct,
}

pub struct GenericDefV {
    pub params: Seq<Seq<char>>,
    pub body: RustStructV,
}

impl DeepView for GenericDef {
    type V = GenericDefV;

    open spec fn deep_view(&self) -> GenericDefV {
        GenericDefV { params: self.params.deep_view(), body: self.body.deep_view() }
    }
}

/// A monomorphization request: instantiate `generic_ident` with `generic_args`
/// under the new name `ident`.
#[derive(Debug, PartialEq, Eq)]
pub struct GenericInstance {
    pub ident: RustIdent,
    pub generic_ident: RustIdent,
    pub generic_args: Vec<RustType>,
}

pub struct GenericInstanceV {
    pub ident: Seq<char>,
    pub generic_ident: Seq<char>,
    pub generic_args: Seq<RustTypeV>,
}

impl DeepView for GenericInstance {
    type V = GenericInstanceV;

    open spec fn deep_view(&self) -> GenericInstanceV {
        GenericInstanceV {
            ident: self.ident.deep_view(),
            generic_ident: self.generic_ident.deep_view(),
            generic_args: self.generic_args.deep_view(),
        }
    }
}

} // verus!
