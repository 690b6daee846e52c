//! The slice of the CDDL abstract syntax tree that this pass reads, with
//! spec-level models. Comment blocks arrive already parsed into
//! `RuleMetadata` by the upstream comment reader.

use vstd::prelude::*;

verus! {

/// Metadata the upstream comment parser extracts from the comments attached
/// to a rule, a type, a group entry or a group choice:
/// `@name: <ident>` and `@newtype`.
#[derive(Clone, Debug, PartialEq, Eq)]
pub struct RuleMetadata {
    pub name: Option<String>,
    pub is_newtype: bool,
}

pub struct RuleMetadataV {
    pub name: Option<Seq<char>>,
    pub is_newtype: bool,
}

impl DeepView for RuleMetadata {
    type V = RuleMetadataV;

    open spec fn deep_view(&self) -> RuleMetadataV {
        RuleMetadataV { name: self.name.deep_view(), is_newtype: self.is_newtype }
    }
}

impl RuleMetadata {
    /// Metadata of a node without annotated comments.
    pub fn none() -> (r: RuleMetadata)
        ensures
            r.deep_view() == (RuleMetadataV { name: None::<Seq<char>>, is_newtype: false }),
    {
        RuleMetadata { name: None, is_newtype: false }
    }
}

/// An occurrence annotation on a group entry.
#[derive(Clone, Copy, Debug, PartialEq, Eq, Structural)]
pub enum Occur {
    /// `?`: the entry may be absent.
    Optional,
    /// `*`: zero or more.
    ZeroOrMore,
    /// `+`: one or more.
    OneOrMore,
    /// An explicit numeric occurrence.
    Exact,
}

impl DeepView for Occur {
    type V = Occur;

    open spec fn deep_view(&self) -> Occur {
        *self
    }
}

/// A control operator name (the token after the dot).
#[derive(Clone, Copy, Debug, PartialEq, Eq, Structural)]
pub enum CtlKind {
    Size,
    Cbor,
    Eq,
    Ne,
    Le,
    Lt,
    Ge,
    Gt,
    Default,
    CborSeq,
    Within,
    And,
    Other,
}

impl DeepView for CtlKind {
    type V = CtlKind;

    open spec fn deep_view(&self) -> CtlKind {
        *self
    }
}

/// A literal in member-key position.
#[derive(Clone, Debug, PartialEq, Eq)]
pub enum Literal {
    Uint { value: u64 },
    Int { value: i64 },
    Text { value: String },
    /// A literal kind this pass does not accept as a key (bytes, floats).
    Other,
}

pub enum LiteralV {
    Uint { value: u64 },
    Int { value: i64 },
    Text { value: Seq<char> },
    Other,
}

impl DeepView for Literal {
    type V = LiteralV;

    open spec fn deep_view(&self) -> LiteralV {
        match self {
            Literal::Uint { value } => LiteralV::Uint { value: *value },
            Literal::Int { value } => LiteralV::Int { value: *value },
            Literal::Text { value } => LiteralV::Text { value: value@ },
            Literal::Other => LiteralV::Other,
        }
    }
}

/// A type expression: one or more alternatives separated by `/`.
#[derive(Debug, PartialEq, Eq)]
pub struct TypeExpr {
    pub choices: Vec<TypeChoice>,
}

/// One alternative of a type expression.
#[derive(Debug, PartialEq, Eq)]
pub struct TypeChoice {
    pub type1: Type1,
}

/// A `Type2` with an optional range or control operator, plus the metadata
/// of the comments that follow the type.
#[derive(Debug, PartialEq, Eq)]
pub struct Type1 {
    pub type2: Type2,
    pub operator: Option<Operator>,
    pub meta: RuleMetadata,
}

/// A range or control operator together with its right-hand operand.
#[derive(Debug, PartialEq, Eq)]
pub struct Operator {
    pub op: RangeCtlOp,
    pub type2: Type2,
}

/// Which operator stands between the two `Type2`s.
#[derive(Debug, PartialEq, Eq)]
pub enum RangeCtlOp {
    /// `..` (inclusive) or `...` (exclusive upper end).
    RangeOp { is_inclusive: bool },
    /// A named control such as `.size` or `.cbor`.
    CtlOp { ctrl: CtlKind },
}

impl DeepView for RangeCtlOp {
    type V = RangeCtlOp;

    open spec fn deep_view(&self) -> RangeCtlOp {
        match self {
            RangeCtlOp::RangeOp { is_inclusive } => RangeCtlOp::RangeOp {
                is_inclusive: *is_inclusive,
            },
            RangeCtlOp::CtlOp { ctrl } => RangeCtlOp::CtlOp { ctrl: *ctrl },
        }
    }
}

/// A basic type term.
#[derive(Debug, PartialEq, Eq)]
pub enum Type2 {
    UintValue { value: u64 },
    IntValue { value: i64 },
    TextValue { value: String },
    Typename { ident: String, generic_args: Option<Vec<Type1>> },
    /// A parenthesized type expression, as in `.size (0..32)`.
    ParenthesizedType { inner: TypeExpr },
    /// A group in map framing: `{ ... }`.
    MapGroup { group: Group },
    /// A group in array framing: `[ ... ]`.
    ArrayGroup { group: Group },
    /// `#6.<tag>(<inner>)`.
    TaggedData { tag: Option<u64>, inner: TypeExpr },
    /// A term this pass does not accept in type position.
    Unsupported,
}

/// A group: one or more choices separated by `//`.
#[derive(Debug, PartialEq, Eq)]
pub struct Group {
    pub choices: Vec<GroupChoice>,
}

/// One group choice: its entries in order, and the metadata of the comments
/// that precede the choice.
#[derive(Debug, PartialEq, Eq)]
pub struct GroupChoice {
    pub entries: Vec<GroupEntry>,
    pub meta: RuleMetadata,
}

/// One entry of a group choice. Each entry carries the metadata of its own
/// trailing comments (those after the entry and after its comma, combined).
#[derive(Debug, PartialEq, Eq)]
pub enum GroupEntry {
    /// `key => type`, `key: type`, or a bare type expression.
    ValueMemberKey {
        occur: Option<Occur>,
        member_key: Option<MemberKey>,
        entry_type: TypeExpr,
        meta: RuleMetadata,
    },
    /// A reference to a named type or group.
    TypeGroupname { occur: Option<Occur>, name: String, has_generic_args: bool, meta: RuleMetadata },
    /// An inline parenthesized group.
    InlineGroup { group: Group },
}

/// The key of a `ValueMemberKey` entry.
#[derive(Debug, PartialEq, Eq)]
pub enum MemberKey {
    /// A literal key, as in `1 => uint`.
    Value { value: Literal },
    /// A bareword key, as in `x: int`.
    Bareword { ident: String },
    /// A full type expression as key, as in `* uint => tstr`.
    Type1 { t1: Box<Type1> },
    /// A non-member key produced by the grammar in corner cases.
    NonMemberKey,
}

/// A top-level CDDL rule.
#[derive(Debug, PartialEq, Eq)]
pub enum Rule {
    /// `name [<params>] = <type>`.
    TypeRule { name: String, generic_params: Option<Vec<String>>, value: TypeExpr },
    /// `name = ( ... )`: a plain group definition. `inline_group` is the
    /// parenthesized body when the rule has one, `None` for any other
    /// entry shape.
    GroupRule { name: String, has_generic_params: bool, inline_group: Option<Group> },
}

pub struct TypeExprV {
    pub choices: Seq<TypeChoiceV>,
}

pub struct TypeChoiceV {
    pub type1: Type1V,
}

pub struct Type1V {
    pub type2: Type2V,
    pub operator: Option<OperatorV>,
    pub meta: RuleMetadataV,
}

pub struct OperatorV {
    pub op: RangeCtlOp,
    pub type2: Type2V,
}

pub enum Type2V {
    UintValue { value: u64 },
    IntValue { value: i64 },
    TextValue { value: Seq<char> },
    Typename { ident: Seq<char>, generic_args: Option<Seq<Type1V>> },
    ParenthesizedType { inner: TypeExprV },
    MapGroup { group: GroupV },
    ArrayGroup { group: GroupV },
    TaggedData { tag: Option<u64>, inner: TypeExprV },
    Unsupported,
}

pub struct GroupV {
    pub choices: Seq<GroupChoiceV>,
}

pub struct GroupChoiceV {
    pub entries: Seq<GroupEntryV>,
    pub meta: RuleMetadataV,
}

pub enum GroupEntryV {
    ValueMemberKey {
        occur: Option<Occur>,
        member_key: Option<MemberKeyV>,
        entry_type: TypeExprV,
        meta: RuleMetadataV,
    },
    TypeGroupname {
        occur: Option<Occur>,
        name: Seq<char>,
        has_generic_args: bool,
        meta: RuleMetadataV,
    },
    InlineGroup { group: GroupV },
}

pub enum MemberKeyV {
    Value { value: LiteralV },
    Bareword { ident: Seq<char> },
    Type1 { t1: Box<Type1V> },
    NonMemberKey,
}

pub enum RuleV {
    TypeRule { name: Seq<char>, generic_params: Option<Seq<Seq<char>>>, value: TypeExprV },
    GroupRule { name: Seq<char>, has_generic_params: bool, inline_group: Option<GroupV> },
}

pub open spec fn type_choices_view(s: Seq<TypeChoice>) -> Seq<TypeChoiceV>
    decreases s,
{
    if s.len() == 0 {
        Seq::<TypeChoiceV>::empty()
    } else {
        seq![type_choice_view(s[0])] + type_choices_view(s.drop_first())
    }
}

pub open spec fn type1s_view(s: Seq<Type1>) -> Seq<Type1V>
    decreases s,
{
    if s.len() == 0 {
        Seq::<Type1V>::empty()
    } else {
        seq![type1_view(s[0])] + type1s_view(s.drop_first())
    }
}

pub open spec fn group_choices_view(s: Seq<GroupChoice>) -> Seq<GroupChoiceV>
    decreases s,
{
    if s.len() == 0 {
        Seq::<GroupChoiceV>::empty()
    } else {
        seq![group_choice_view(s[0])] + group_choices_view(s.drop_first())
    }
}

pub open spec fn group_entries_view(s: Seq<GroupEntry>) -> Seq<GroupEntryV>
    decreases s,
{
    if s.len() == 0 {
        Seq::<GroupEntryV>::empty()
    } else {
        seq![group_entry_view(s[0])] + group_entries_view(s.drop_first())
    }
}

pub open spec fn type_expr_view(t: TypeExpr) -> TypeExprV
    decreases t,
{
    TypeExprV { choices: type_choices_view(t.choices@) }
}

pub open spec fn type_choice_view(c: TypeChoice) -> TypeChoiceV
    decreases c,
{
    TypeChoiceV { type1: type1_view(c.type1) }
}

pub open spec fn type1_view(t: Type1) -> Type1V
    decreases t,
{
    Type1V {
        type2: type2_view(t.type2),
        operator: match t.operator {
            Some(op) => Some(operator_view(op)),
            None => None,
        },
        meta: t.meta.deep_view(),
    }
}

pub open spec fn operator_view(op: Operator) -> OperatorV
    decreases op,
{
    OperatorV { op: op.op.deep_view(), type2: type2_view(op.type2) }
}

pub open spec fn type2_view(t: Type2) -> Type2V
    decreases t,
{
    match t {
        Type2::UintValue { value } => Type2V::UintValue { value },
        Type2::IntValue { value } => Type2V::IntValue { value },
        Type2::TextValue { value } => Type2V::TextValue { value: value@ },
        Type2::Typename { ident, generic_args } => Type2V::Typename {
            ident: ident@,
            generic_args: match generic_args {
                Some(args) => Some(type1s_view(args@)),
                None => None,
            },
        },
        Type2::ParenthesizedType { inner } => Type2V::ParenthesizedType {
            inner: type_expr_view(inner),
        },
        Type2::MapGroup { group } => Type2V::MapGroup { group: group_view(group) },
        Type2::ArrayGroup { group } => Type2V::ArrayGroup { group: group_view(group) },
        Type2::TaggedData { tag, inner } => Type2V::TaggedData {
            tag,
            inner: type_expr_view(inner),
        },
        Type2::Unsupported => Type2V::Unsupported,
    }
}

pub open spec fn group_view(g: Group) -> GroupV
    decreases g,
{
    GroupV { choices: group_choices_view(g.choices@) }
}

pub open spec fn group_choice_view(gc: GroupChoice) -> GroupChoiceV
    decreases gc,
{
    GroupChoiceV {
        entries: group_entries_view(gc.entries@),
        meta: gc.meta.deep_view(),
    }
}

pub open spec fn group_entry_view(e: GroupEntry) -> GroupEntryV
    decreases e,
{
    match e {
        GroupEntry::ValueMemberKey { occur, member_key, entry_type, meta } => {
            GroupEntryV::ValueMemberKey {
                occur,
                member_key: match member_key {
                    Some(mk) => Some(member_key_view(mk)),
                    None => None,
                },
                entry_type: type_expr_view(entry_type),
                meta: meta.deep_view(),
            }
        },
        GroupEntry::TypeGroupname { occur, name, has_generic_args, meta } => {
            GroupEntryV::TypeGroupname {
                occur,
                name: name@,
                has_generic_args,
                meta: meta.deep_view(),
            }
        },
        GroupEntry::InlineGroup { group } => GroupEntryV::InlineGroup { group: group_view(group) },
    }
}

pub open spec fn member_key_view(mk: MemberKey) -> MemberKeyV
    decreases mk,
{
    match mk {
        MemberKey::Value { value } => MemberKeyV::Value { value: value.deep_view() },
        MemberKey::Bareword { ident } => MemberKeyV::Bareword { ident: ident@ },
        MemberKey::Type1 { t1 } => MemberKeyV::Type1 { t1: Box::new(type1_view(*t1)) },
        MemberKey::NonMemberKey => MemberKeyV::NonMemberKey,
    }
}

pub open spec fn rule_view(r: Rule) -> RuleV
    decreases r,
{
    match r {
        Rule::TypeRule { name, generic_params, value } => RuleV::TypeRule {
            name: name@,
            generic_params: generic_params.deep_view(),
            value: type_expr_view(value),
        },
        Rule::GroupRule { name, has_generic_params, inline_group } => RuleV::GroupRule {
            name: name@,
            has_generic_params,
            inline_group: match inline_group {
                Some(g) => Some(group_view(g)),
                None => None,
            },
        },
    }
}

impl DeepView for TypeExpr {
    type V = TypeExprV;

    open spec fn deep_view(&self) -> TypeExprV {
        type_expr_view(*self)
    }
}

impl DeepView for TypeChoice {
    type V = TypeChoiceV;

    open spec fn deep_view(&self) -> TypeChoiceV {
        type_choice_view(*self)
    }
}

impl DeepView for Type1 {
    type V = Type1V;

    open spec fn deep_view(&self) -> Type1V {
        type1_view(*self)
    }
}

impl DeepView for Operator {
    type V = OperatorV;

    open spec fn deep_view(&self) -> OperatorV {
        operator_view(*self)
    }
}

impl DeepView for Type2 {
    type V = Type2V;

    open spec fn deep_view(&self) -> Type2V {
        type2_view(*self)
    }
}

impl DeepView for Group {
    type V = GroupV;

    open spec fn deep_view(&self) -> GroupV {
        group_view(*self)
    }
}

impl DeepView for GroupChoice {
    type V = GroupChoiceV;

    open spec fn deep_view(&self) -> GroupChoiceV {
        group_choice_view(*self)
    }
}

impl DeepView for GroupEntry {
    type V = GroupEntryV;

    open spec fn deep_view(&self) -> GroupEntryV {
        group_entry_view(*self)
    }
}

impl DeepView for MemberKey {
    type V = MemberKeyV;

    open spec fn deep_view(&self) -> MemberKeyV {
        member_key_view(*self)
    }
}

impl DeepView for Rule {
    type V = RuleV;

    open spec fn deep_view(&self) -> RuleV {
        rule_view(*self)
    }
}


pub broadcast proof fn lemma_type_choices_view_len(s: Seq<TypeChoice>)
    ensures
        #[trigger] type_choices_view(s).len() == s.len(),
    decreases s.len(),
{
    if s.len() > 0 {
        lemma_type_choices_view_len(s.drop_first());
    }
}

pub broadcast proof fn lemma_type_choices_view_index(s: Seq<TypeChoice>, i: int)
    requires
        0 <= i < s.len(),
    ensures
        #[trigger] type_choices_view(s)[i] == type_choice_view(s[i]),
    decreases s.len(),
{
    lemma_type_choices_view_len(s);
    if i > 0 {
        lemma_type_choices_view_index(s.drop_first(), i - 1);
    }
}

pub broadcast proof fn lemma_type1s_view_len(s: Seq<Type1>)
    ensures
        #[trigger] type1s_view(s).len() == s.len(),
    decreases s.len(),
{
    if s.len() > 0 {
        lemma_type1s_view_len(s.drop_first());
    }
}

pub broadcast proof fn lemma_type1s_view_index(s: Seq<Type1>, i: int)
    requires
        0 <= i < s.len(),
    ensures
        #[trigger] type1s_view(s)[i] == type1_view(s[i]),
    decreases s.len(),
{
    lemma_type1s_view_len(s);
    if i > 0 {
        lemma_type1s_view_index(s.drop_first(), i - 1);
    }
}

pub broadcast proof fn lemma_group_choices_view_len(s: Seq<GroupChoice>)
    ensures
        #[trigger] group_choices_view(s).len() == s.len(),
    decreases s.len(),
{
    if s.len() > 0 {
        lemma_group_choices_view_len(s.drop_first());
    }
}

pub broadcast proof fn lemma_group_choices_view_index(s: Seq<GroupChoice>, i: int)
    requires
        0 <= i < s.len(),
    ensures
        #[trigger] group_choices_view(s)[i] == group_choice_view(s[i]),
    decreases s.len(),
{
    lemma_group_choices_view_len(s);
    if i > 0 {
        lemma_group_choices_view_index(s.drop_first(), i - 1);
    }
}

pub broadcast proof fn lemma_group_entries_view_len(s: Seq<GroupEntry>)
    ensures
        #[trigger] group_entries_view(s).len() == s.len(),
    decreases s.len(),
{
    if s.len() > 0 {
        lemma_group_entries_view_len(s.drop_first());
    }
}

pub broadcast proof fn lemma_group_entries_view_index(s: Seq<GroupEntry>, i: int)
    requires
        0 <= i < s.len(),
    ensures
        #[trigger] group_entries_view(s)[i] == group_entry_view(s[i]),
    decreases s.len(),
{
    lemma_group_entries_view_len(s);
    if i > 0 {
        lemma_group_entries_view_index(s.drop_first(), i - 1);
    }
}

/// The list views element-wise: lengths carry over and each element's view
/// is the element viewed.
pub broadcast group group_ast_views {
    lemma_type_choices_view_len,
    lemma_type_choices_view_index,
    lemma_type1s_view_len,
    lemma_type1s_view_index,
    lemma_group_choices_view_len,
    lemma_group_choices_view_index,
    lemma_group_entries_view_len,
    lemma_group_entries_view_index,
}


pub broadcast proof fn lemma_type_choice_view_unfold(c: TypeChoice)
    ensures
        #[trigger] type_choice_view(c) == (TypeChoiceV { type1: type1_view(c.type1) }),
{
}

pub broadcast proof fn lemma_type1_view_unfold(t: Type1)
    ensures
        #[trigger] type1_view(t) == (Type1V {
        type2: type2_view(t.type2),
        operator: match t.operator {
            Some(op) => Some(operator_view(op)),
            None => None,
        },
        meta: t.meta.deep_view(),
    }),
{
}

pub broadcast proof fn lemma_operator_view_unfold(op: Operator)
    ensures
        #[trigger] operator_view(op) == (OperatorV { op: op.op.deep_view(), type2: type2_view(op.type2) }),
{
}

pub broadcast proof fn lemma_type2_view_unfold(t: Type2)
    ensures
        #[trigger] type2_view(t) == (match t {
        Type2::UintValue { value } => Type2V::UintValue { value },
        Type2::IntValue { value } => Type2V::IntValue { value },
        Type2::TextValue { value } => Type2V::TextValue { value: value@ },
        Type2::Typename { ident, generic_args } => Type2V::Typename {
            ident: ident@,
            generic_args: match generic_args {
                Some(args) => Some(type1s_view(args@)),
                None => None,
            },
        },
        Type2::ParenthesizedType { inner } => Type2V::ParenthesizedType {
            inner: type_expr_view(inner),
        },
        Type2::MapGroup { group } => Type2V::MapGroup { group: group_view(group) },
        Type2::ArrayGroup { group } => Type2V::ArrayGroup { group: group_view(group) },
        Type2::TaggedData { tag, inner } => Type2V::TaggedData {
            tag,
            inner: type_expr_view(inner),
        },
        Type2::Unsupported => Type2V::Unsupported,
    }),
{
}

pub broadcast proof fn lemma_group_view_unfold(g: Group)
    ensures
        #[trigger] group_view(g) == (GroupV { choices: group_choices_view(g.choices@) }),
{
}

pub broadcast proof fn lemma_group_choice_view_unfold(gc: GroupChoice)
    ensures
        #[trigger] group_choice_view(gc) == (GroupChoiceV {
        entries: group_entries_view(gc.entries@),
        meta: gc.meta.deep_view(),
    }),
{
}

pub broadcast proof fn lemma_group_entry_view_unfold(e: GroupEntry)
    ensures
        #[trigger] group_entry_view(e) == (match e {
        GroupEntry::ValueMemberKey { occur, member_key, entry_type, meta } => {
            GroupEntryV::ValueMemberKey {
                occur,
                member_key: match member_key {
                    Some(mk) => Some(member_key_view(mk)),
                    None => None,
                },
                entry_type: type_expr_view(entry_type),
                meta: meta.deep_view(),
            }
        },
        GroupEntry::TypeGroupname { occur, name, has_generic_args, meta } => {
            GroupEntryV::TypeGroupname {
                occur,
                name: name@,
                has_generic_args,
                meta: meta.deep_view(),
            }
        },
        GroupEntry::InlineGroup { group } => GroupEntryV::InlineGroup { group: group_view(group) },
    }),
{
}

pub broadcast proof fn lemma_member_key_view_unfold(mk: MemberKey)
    ensures
        #[trigger] member_key_view(mk) == (match mk {
        MemberKey::Value { value } => MemberKeyV::Value { value: value.deep_view() },
        MemberKey::Bareword { ident } => MemberKeyV::Bareword { ident: ident@ },
        MemberKey::Type1 { t1 } => MemberKeyV::Type1 { t1: Box::new(type1_view(*t1)) },
        MemberKey::NonMemberKey => MemberKeyV::NonMemberKey,
    }),
{
}

pub broadcast proof fn lemma_rule_view_unfold(r: Rule)
    ensures
        #[trigger] rule_view(r) == (match r {
        Rule::TypeRule { name, generic_params, value } => RuleV::TypeRule {
            name: name@,
            generic_params: generic_params.deep_view(),
            value: type_expr_view(value),
        },
        Rule::GroupRule { name, has_generic_params, inline_group } => RuleV::GroupRule {
            name: name@,
            has_generic_params,
            inline_group: match inline_group {
                Some(g) => Some(group_view(g)),
                None => None,
            },
        },
    }),
{
}

pub broadcast proof fn lemma_type_expr_view_unfold(t: TypeExpr)
    ensures
        #[trigger] type_expr_view(t) == (TypeExprV { choices: type_choices_view(t.choices@) }),
{
}

/// Definition lemmas: each view application equals its unfolding, so that
/// contracts over the models read through the views without fuel limits.
pub broadcast group group_ast_view_defs {
    lemma_type_choice_view_unfold,
    lemma_type1_view_unfold,
    lemma_operator_view_unfold,
    lemma_type2_view_unfold,
    lemma_group_view_unfold,
    lemma_group_choice_view_unfold,
    lemma_group_entry_view_unfold,
    lemma_member_key_view_unfold,
    lemma_rule_view_unfold,
    lemma_type_expr_view_unfold
}

} // verus!
