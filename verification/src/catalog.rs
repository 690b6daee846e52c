//! The mutable catalog the pass registers into: type aliases, structs,
//! generic definitions and instances, and plain-group marks.

use vstd::prelude::*;
use crate::ir::{
    CDDLIdent,
    GenericDef,
    GenericDefV,
    GenericInstance,
    GenericInstanceV,
    Primitive,
    Representation,
    RustIdent,
    RustStruct,
    RustStructV,
    RustType,
    RustTypeV,
};
use crate::names::camel_of;

verus! {

/// One registered type alias: the target name, the type it stands for, and
/// whether a declaration and serializers should be generated for it.
#[derive(Debug, PartialEq, Eq)]
pub struct AliasEntry {
    pub ident: RustIdent,
    pub ty: RustType,
    pub generate_rust: bool,
    pub generate_serialize: bool,
}

pub struct AliasEntryV {
    pub ident: Seq<char>,
    pub ty: RustTypeV,
    pub generate_rust: bool,
    pub generate_serialize: bool,
}

impl DeepView for AliasEntry {
    type V = AliasEntryV;

    open spec fn deep_view(&self) -> AliasEntryV {
        AliasEntryV {
            ident: self.ident.deep_view(),
            ty: self.ty.deep_view(),
            generate_rust: self.generate_rust,
            generate_serialize: self.generate_serialize,
        }
    }
}

/// One plain-group mark: a group rule usable by reference inside another
/// group, with the framing it was first used under once that is known.
#[derive(Debug, PartialEq, Eq)]
pub struct PlainGroupEntry {
    pub ident: RustIdent,
    pub rep: Option<Representation>,
}

pub struct PlainGroupEntryV {
    pub ident: Seq<char>,
    pub rep: Option<Representation>,
}

impl DeepView for PlainGroupEntry {
    type V = PlainGroupEntryV;

    open spec fn deep_view(&self) -> PlainGroupEntryV {
        PlainGroupEntryV { ident: self.ident.deep_view(), rep: self.rep }
    }
}

/// The model of the catalog.
pub struct CatalogV {
    pub aliases: Seq<AliasEntryV>,
    pub structs: Seq<RustStructV>,
    pub generic_defs: Seq<GenericDefV>,
    pub generic_instances: Seq<GenericInstanceV>,
    pub plain_groups: Seq<PlainGroupEntryV>,
}

/// The catalog of intermediate types, mutated in place as rules register.
#[derive(Debug, PartialEq, Eq)]
pub struct IntermediateTypes {
    pub aliases: Vec<AliasEntry>,
    pub structs: Vec<RustStruct>,
    pub generic_defs: Vec<GenericDef>,
    pub generic_instances: Vec<GenericInstance>,
    pub plain_groups: Vec<PlainGroupEntry>,
}

impl DeepView for IntermediateTypes {
    type V = CatalogV;

    open spec fn deep_view(&self) -> CatalogV {
        CatalogV {
            aliases: self.aliases.deep_view(),
            structs: self.structs.deep_view(),
            generic_defs: self.generic_defs.deep_view(),
            generic_instances: self.generic_instances.deep_view(),
            plain_groups: self.plain_groups.deep_view(),
        }
    }
}

/// The primitive a CDDL prelude type name denotes, if any. The default
/// integer widths are 64 bits.
pub open spec fn prim_of_name(raw: Seq<char>) -> Option<Primitive> {
    if raw == "uint"@ {
        Some(Primitive::U64)
    } else if raw == "int"@ {
        Some(Primitive::I64)
    } else if raw == "tstr"@ || raw == "text"@ {
        Some(Primitive::Str)
    } else if raw == "bstr"@ || raw == "bytes"@ {
        Some(Primitive::Bytes)
    } else {
        None
    }
}

/// The type registered for `name`, taking the first registration.
pub open spec fn alias_lookup(aliases: Seq<AliasEntryV>, name: Seq<char>) -> Option<RustTypeV>
    decreases aliases.len(),
{
    if aliases.len() == 0 {
        None
    } else if aliases[0].ident == name {
        Some(aliases[0].ty)
    } else {
        alias_lookup(aliases.drop_first(), name)
    }
}

/// Index of the first plain-group mark for `name`, if any.
pub open spec fn pg_find(pgs: Seq<PlainGroupEntryV>, name: Seq<char>) -> Option<int>
    decreases pgs.len(),
{
    if pgs.len() == 0 {
        None
    } else if pgs[0].ident == name {
        Some(0int)
    } else {
        match pg_find(pgs.drop_first(), name) {
            Some(i) => Some(i + 1),
            None => None,
        }
    }
}

/// What `new_type` resolves a raw CDDL name to: a prelude primitive, an
/// already-registered alias (kept under an `Alias` node naming it), or a
/// reference to a type registered elsewhere in the pass.
pub open spec fn spec_new_type(cat: CatalogV, raw: Seq<char>) -> RustTypeV {
    match prim_of_name(raw) {
        Some(p) => RustTypeV::Primitive(p),
        None => {
            let name = camel_of(raw);
            match alias_lookup(cat.aliases, name) {
                Some(ty) => RustTypeV::Alias(name, Box::new(ty)),
                None => RustTypeV::Rust(name),
            }
        },
    }
}

/// What `apply_type_aliases` resolves a raw CDDL name to. Registration
/// already stores resolved types, so one lookup chases the whole alias
/// chain; an unregistered user name gives `None`.
pub open spec fn spec_apply_type_aliases(cat: CatalogV, raw: Seq<char>) -> Option<RustTypeV> {
    match prim_of_name(raw) {
        Some(p) => Some(RustTypeV::Primitive(p)),
        None => alias_lookup(cat.aliases, camel_of(raw)),
    }
}

/// The catalog after `mark_plain_group`: a fresh mark is appended, a
/// repeated mark overwrites the framing of the first.
pub open spec fn spec_mark_plain_group(
    cat: CatalogV,
    name: Seq<char>,
    rep: Option<Representation>,
) -> CatalogV {
    match pg_find(cat.plain_groups, name) {
        Some(i) => CatalogV {
            plain_groups: cat.plain_groups.update(i, PlainGroupEntryV { ident: name, rep }),
            ..cat
        },
        None => CatalogV {
            plain_groups: cat.plain_groups.push(PlainGroupEntryV { ident: name, rep }),
            ..cat
        },
    }
}

/// The catalog after `set_rep_if_plain_group`: a marked plain group takes
/// the framing `rep`; anything else leaves the catalog unchanged.
pub open spec fn spec_set_rep_if_plain_group(
    cat: CatalogV,
    name: Seq<char>,
    rep: Representation,
) -> CatalogV {
    match pg_find(cat.plain_groups, name) {
        Some(i) => CatalogV {
            plain_groups: cat.plain_groups.update(
                i,
                PlainGroupEntryV { ident: name, rep: Some(rep) },
            ),
            ..cat
        },
        None => cat,
    }
}

proof fn lemma_alias_lookup_none(aliases: Seq<AliasEntryV>, name: Seq<char>)
    requires
        forall|j: int| 0 <= j < aliases.len() ==> aliases[j].ident != name,
    ensures
        alias_lookup(aliases, name) is None,
    decreases aliases.len(),
{
    if aliases.len() > 0 {
        lemma_alias_lookup_none(aliases.drop_first(), name);
    }
}

proof fn lemma_alias_lookup_some(aliases: Seq<AliasEntryV>, name: Seq<char>, i: int)
    requires
        0 <= i < aliases.len(),
        aliases[i].ident == name,
        forall|j: int| 0 <= j < i ==> aliases[j].ident != name,
    ensures
        alias_lookup(aliases, name) == Some(aliases[i].ty),
    decreases aliases.len(),
{
    if i > 0 {
        lemma_alias_lookup_some(aliases.drop_first(), name, i - 1);
    }
}

proof fn lemma_pg_find_none(pgs: Seq<PlainGroupEntryV>, name: Seq<char>)
    requires
        forall|j: int| 0 <= j < pgs.len() ==> pgs[j].ident != name,
    ensures
        pg_find(pgs, name) is None,
    decreases pgs.len(),
{
    if pgs.len() > 0 {
        lemma_pg_find_none(pgs.drop_first(), name);
    }
}

proof fn lemma_pg_find_some(pgs: Seq<PlainGroupEntryV>, name: Seq<char>, i: int)
    requires
        0 <= i < pgs.len(),
        pgs[i].ident == name,
        forall|j: int| 0 <= j < i ==> pgs[j].ident != name,
    ensures
        pg_find(pgs, name) == Some(i),
    decreases pgs.len(),
{
    if i > 0 {
        lemma_pg_find_some(pgs.drop_first(), name, i - 1);
    }
}

impl RustType {
    /// A deep copy whose model equals this type's model.
    pub fn duplicate(&self) -> (r: RustType)
        ensures
            r.deep_view() == self.deep_view(),
        decreases *self,
    {
        match self {
            RustType::Fixed(f) => RustType::Fixed(
                match f {
                    crate::ir::FixedValue::Uint { value } => crate::ir::FixedValue::Uint {
                        value: *value,
                    },
                    crate::ir::FixedValue::Int { value } => crate::ir::FixedValue::Int {
                        value: *value,
                    },
                    crate::ir::FixedValue::Text { value } => crate::ir::FixedValue::Text {
                        value: value.clone(),
                    },
                },
            ),
            RustType::Primitive(p) => RustType::Primitive(*p),
            RustType::Rust(id) => RustType::Rust(id.duplicate()),
            RustType::Alias(id, inner) => RustType::Alias(
                id.duplicate(),
                Box::new(inner.duplicate()),
            ),
            RustType::Tagged(tag, inner) => RustType::Tagged(*tag, Box::new(inner.duplicate())),
            RustType::Optional(inner) => RustType::Optional(Box::new(inner.duplicate())),
            RustType::Array(inner) => RustType::Array(Box::new(inner.duplicate())),
            RustType::CborMap(k, v) => RustType::CborMap(
                Box::new(k.duplicate()),
                Box::new(v.duplicate()),
            ),
            RustType::CBORBytes(inner) => RustType::CBORBytes(Box::new(inner.duplicate())),
        }
    }
}

impl IntermediateTypes {
    /// A catalog with nothing registered.
    pub fn new() -> (r: IntermediateTypes)
        ensures
            r.deep_view().aliases.len() == 0,
            r.deep_view().structs.len() == 0,
            r.deep_view().generic_defs.len() == 0,
            r.deep_view().generic_instances.len() == 0,
            r.deep_view().plain_groups.len() == 0,
    {
        IntermediateTypes {
            aliases: Vec::new(),
            structs: Vec::new(),
            generic_defs: Vec::new(),
            generic_instances: Vec::new(),
            plain_groups: Vec::new(),
        }
    }

    /// Registers `name` as an alias for `ty`.
    pub fn register_type_alias(
        &mut self,
        name: RustIdent,
        ty: RustType,
        generate_rust: bool,
        generate_serialize: bool,
    )
        ensures
            final(self).deep_view() == (CatalogV {
                aliases: old(self).deep_view().aliases.push(
                    AliasEntryV {
                        ident: name.deep_view(),
                        ty: ty.deep_view(),
                        generate_rust,
                        generate_serialize,
                    },
                ),
                ..old(self).deep_view()
            }),
    {
        self.aliases.push(AliasEntry { ident: name, ty, generate_rust, generate_serialize });
        proof {
            assert(final(self).deep_view().aliases =~= old(self).deep_view().aliases.push(
                final(self).aliases@.last().deep_view(),
            ));
        }
    }

    /// Registers a named struct.
    pub fn register_rust_struct(&mut self, s: RustStruct)
        ensures
            final(self).deep_view() == (CatalogV {
                structs: old(self).deep_view().structs.push(s.deep_view()),
                ..old(self).deep_view()
            }),
    {
        let ghost sv = s.deep_view();
        self.structs.push(s);
        proof {
            assert(final(self).deep_view().structs =~= old(self).deep_view().structs.push(sv));
        }
    }

    /// Registers the schema of a generic rule.
    pub fn register_generic_def(&mut self, def: GenericDef)
        ensures
            final(self).deep_view() == (CatalogV {
                generic_defs: old(self).deep_view().generic_defs.push(def.deep_view()),
                ..old(self).deep_view()
            }),
    {
        let ghost dv = def.deep_view();
        self.generic_defs.push(def);
        proof {
            assert(final(self).deep_view().generic_defs =~= old(
                self,
            ).deep_view().generic_defs.push(dv));
        }
    }

    /// Registers a monomorphization request.
    pub fn register_generic_instance(&mut self, inst: GenericInstance)
        ensures
            final(self).deep_view() == (CatalogV {
                generic_instances: old(self).deep_view().generic_instances.push(inst.deep_view()),
                ..old(self).deep_view()
            }),
    {
        let ghost iv = inst.deep_view();
        self.generic_instances.push(inst);
        proof {
            assert(final(self).deep_view().generic_instances =~= old(
                self,
            ).deep_view().generic_instances.push(iv));
        }
    }

    fn find_alias_index(&self, name: &RustIdent) -> (r: Option<usize>)
        ensures
            match r {
                Some(i) => i < self.deep_view().aliases.len() && alias_lookup(
                    self.deep_view().aliases,
                    name.deep_view(),
                ) == Some(self.deep_view().aliases[i as int].ty),
                None => alias_lookup(self.deep_view().aliases, name.deep_view()) is None,
            },
    {
        let n = self.aliases.len();
        let mut i: usize = 0;
        loop
            invariant
                0 <= i <= n,
                n == self.aliases.len(),
                forall|j: int| 0 <= j < i ==> self.deep_view().aliases[j].ident != name.deep_view(),
            ensures
                i <= n,
                forall|j: int| 0 <= j < i ==> self.deep_view().aliases[j].ident != name.deep_view(),
                i < n ==> self.deep_view().aliases[i as int].ident == name.deep_view(),
                i == n ==> forall|j: int|
                    0 <= j < n ==> self.deep_view().aliases[j].ident != name.deep_view(),
            decreases n - i,
        {
            if i == n {
                break ;
            }
            if self.aliases[i].ident.name == name.name {
                break ;
            }
            i = i + 1;
        }
        if i == n {
            proof {
                lemma_alias_lookup_none(self.deep_view().aliases, name.deep_view());
            }
            None
        } else {
            proof {
                lemma_alias_lookup_some(self.deep_view().aliases, name.deep_view(), i as int);
            }
            Some(i)
        }
    }

    /// Resolves a raw CDDL name, as `spec_new_type` says.
    pub fn new_type(&self, raw: &CDDLIdent) -> (r: RustType)
        ensures
            r.deep_view() == spec_new_type(self.deep_view(), raw.deep_view()),
    {
        if let Some(p) = prim_name_exec(&raw.name) {
            RustType::Primitive(p)
        } else {
            let ident = RustIdent::new(raw.duplicate());
            match self.find_alias_index(&ident) {
                Some(i) => {
                    let ty = self.aliases[i].ty.duplicate();
                    RustType::Alias(ident, Box::new(ty))
                },
                None => RustType::Rust(ident),
            }
        }
    }

    /// Resolves a raw CDDL name through the registered aliases, as
    /// `spec_apply_type_aliases` says.
    pub fn apply_type_aliases(&self, raw: &CDDLIdent) -> (r: Option<RustType>)
        ensures
            match r {
                Some(ty) => spec_apply_type_aliases(self.deep_view(), raw.deep_view()) == Some(
                    ty.deep_view(),
                ),
                None => spec_apply_type_aliases(self.deep_view(), raw.deep_view()) is None,
            },
    {
        if let Some(p) = prim_name_exec(&raw.name) {
            Some(RustType::Primitive(p))
        } else {
            let ident = RustIdent::new(raw.duplicate());
            match self.find_alias_index(&ident) {
                Some(i) => Some(self.aliases[i].ty.duplicate()),
                None => None,
            }
        }
    }

    fn find_plain_group_index(&self, name: &RustIdent) -> (r: Option<usize>)
        ensures
            match r {
                Some(i) => pg_find(self.deep_view().plain_groups, name.deep_view()) == Some(
                    i as int,
                ) && i < self.deep_view().plain_groups.len(),
                None => pg_find(self.deep_view().plain_groups, name.deep_view()) is None,
            },
    {
        let n = self.plain_groups.len();
        let mut i: usize = 0;
        loop
            invariant
                0 <= i <= n,
                n == self.plain_groups.len(),
                forall|j: int|
                    0 <= j < i ==> self.deep_view().plain_groups[j].ident != name.deep_view(),
            ensures
                i <= n,
                forall|j: int|
                    0 <= j < i ==> self.deep_view().plain_groups[j].ident != name.deep_view(),
                i < n ==> self.deep_view().plain_groups[i as int].ident == name.deep_view(),
                i == n ==> forall|j: int|
                    0 <= j < n ==> self.deep_view().plain_groups[j].ident != name.deep_view(),
            decreases n - i,
        {
            if i == n {
                break ;
            }
            if self.plain_groups[i].ident.name == name.name {
                break ;
            }
            i = i + 1;
        }
        if i == n {
            proof {
                lemma_pg_find_none(self.deep_view().plain_groups, name.deep_view());
            }
            None
        } else {
            proof {
                lemma_pg_find_some(self.deep_view().plain_groups, name.deep_view(), i as int);
            }
            Some(i)
        }
    }

    /// Whether `name` is marked as a plain group.
    pub fn is_plain_group(&self, name: &RustIdent) -> (r: bool)
        ensures
            r == (pg_find(self.deep_view().plain_groups, name.deep_view()) is Some),
    {
        self.find_plain_group_index(name).is_some()
    }

    /// Marks `name` as a plain group, with its framing when already known.
    pub fn mark_plain_group(&mut self, name: RustIdent, rep: Option<Representation>)
        ensures
            final(self).deep_view() == spec_mark_plain_group(
                old(self).deep_view(),
                name.deep_view(),
                rep,
            ),
    {
        let ghost nv = name.deep_view();
        match self.find_plain_group_index(&name) {
            Some(i) => {
                self.plain_groups[i] = PlainGroupEntry { ident: name, rep };
                proof {
                    assert(final(self).deep_view().plain_groups =~= old(
                        self,
                    ).deep_view().plain_groups.update(
                        pg_find(old(self).deep_view().plain_groups, nv).unwrap(),
                        PlainGroupEntryV { ident: nv, rep },
                    ));
                }
            },
            None => {
                self.plain_groups.push(PlainGroupEntry { ident: name, rep });
                proof {
                    assert(final(self).deep_view().plain_groups =~= old(
                        self,
                    ).deep_view().plain_groups.push(PlainGroupEntryV { ident: nv, rep }));
                }
            },
        }
    }

    /// Records the framing a marked plain group is used under.
    pub fn set_rep_if_plain_group(&mut self, name: &RustIdent, rep: Representation)
        ensures
            final(self).deep_view() == spec_set_rep_if_plain_group(
                old(self).deep_view(),
                name.deep_view(),
                rep,
            ),
    {
        let ghost nv = name.deep_view();
        match self.find_plain_group_index(name) {
            Some(i) => {
                self.plain_groups[i] = PlainGroupEntry { ident: name.duplicate(), rep: Some(rep) };
                proof {
                    assert(final(self).deep_view().plain_groups =~= old(
                        self,
                    ).deep_view().plain_groups.update(
                        pg_find(old(self).deep_view().plain_groups, nv).unwrap(),
                        PlainGroupEntryV { ident: nv, rep: Some(rep) },
                    ));
                }
            },
            None => {},
        }
    }
}

fn prim_name_exec(raw: &String) -> (r: Option<Primitive>)
    ensures
        r == prim_of_name(raw@),
{
    let uint_s: String = "uint".to_owned();
    let int_s: String = "int".to_owned();
    let tstr_s: String = "tstr".to_owned();
    let text_s: String = "text".to_owned();
    let bstr_s: String = "bstr".to_owned();
    let bytes_s: String = "bytes".to_owned();
    if *raw == uint_s {
        Some(Primitive::U64)
    } else if *raw == int_s {
        Some(Primitive::I64)
    } else if *raw == tstr_s || *raw == text_s {
        Some(Primitive::Str)
    } else if *raw == bstr_s || *raw == bytes_s {
        Some(Primitive::Bytes)
    } else {
        None
    }
}

} // verus!
