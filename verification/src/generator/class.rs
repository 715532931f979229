//! Lowering of structs and classes.

use crate::generator::expression::failure;
use crate::generator::function::{done_outcome, types_outcome};
use crate::generator::ir::{IrType, Op};
use crate::generator::lowering::{field_tags, fields_in_order, gen_struct_spec, refuse, types_of};
use crate::generator::model::{GenError, GenErrorKind};
use crate::generator::Generator;
use crate::names::{lemma_find_absent, NameMap};
use crate::parser::ast::{fields_view, Class, FieldInfo};
use crate::parser::class::fields_of;
use vstd::prelude::*;

verus! {

/// A copy of the fields of a struct.
pub fn copy_fields(fields: &NameMap<FieldInfo>) -> (r: NameMap<FieldInfo>)
    requires
        fields.wf(),
    ensures
        r.wf(),
        fields_of(r) == fields_of(*fields),
{
    let mut r: NameMap<FieldInfo> = NameMap::new();
    let n = fields.len();
    let mut i: usize = 0;
    proof {
        fields.lemma_lengths();
        assert(fields.names().take(0) =~= Seq::<Seq<char>>::empty());
        assert(fields_view(r.values()) =~= fields_view(fields.values()).take(0));
    }
    while i < n
        invariant
            i <= n,
            n == fields.names().len(),
            n == fields.values().len(),
            fields.wf(),
            fields.names().no_duplicates(),
            r.wf(),
            r.names() == fields.names().take(i as int),
            r.names().len() == r.values().len(),
            fields_view(r.values()) == fields_view(fields.values()).take(i as int),
        decreases n - i,
    {
        let name = fields.name_at(i).clone();
        let info = fields.get(i);
        let copy = FieldInfo { type_: info.type_.clone(), index: info.index };
        proof {
            assert forall|j: int| 0 <= j < r.names().len() implies r.names()[j] != name@ by {
                assert(r.names()[j] == fields.names()[j]);
            }
            lemma_find_absent(r.names(), name@);
        }
        let ghost before = r.values();
        r.insert(name, copy);
        i += 1;
        proof {
            r.lemma_lengths();
            assert(r.names() =~= fields.names().take(i as int));
            assert(fields_view(r.values()) =~= fields_view(fields.values()).take(i as int)) by {
                assert(r.values() == before.push(copy));
                assert forall|j: int| 0 <= j < i implies fields_view(r.values())[j] == fields_view(
                    fields.values(),
                ).take(i as int)[j] by {
                    if j < i - 1 {
                        assert(fields_view(before)[j] == fields_view(fields.values()).take(i - 1)[j]);
                    }
                }
            }
        }
    }
    proof {
        assert(fields.names().take(n as int) =~= fields.names());
        assert(fields_view(fields.values()).take(n as int) =~= fields_view(fields.values()));
    }
    r
}

/// Whether the fields are numbered from 0 in their order.
pub fn check_field_order(fields: &NameMap<FieldInfo>) -> (r: bool)
    ensures
        r == fields_in_order(fields_of(*fields)),
        r ==> fields.wf(),
{
    proof {
        fields.lemma_wf();
        assert(fields_view(fields.values()).len() == fields.values().len());
    }
    if !fields.check() {
        return false;
    }
    proof {
        fields.lemma_lengths();
    }
    let n = fields.len();
    if n > i32::MAX as usize {
        return false;
    }
    let mut i: usize = 0;
    while i < n
        invariant
            i <= n,
            n <= i32::MAX,
            fields.wf(),
            n == fields.values().len(),
            forall|j: int| 0 <= j < i ==> (#[trigger] fields_view(fields.values())[j]).index == j,
        decreases n - i,
    {
        if fields.get(i).index != i as i32 {
            assert(fields_view(fields.values())[i as int].index != i);
            return false;
        }
        i += 1;
    }
    true
}

impl Generator {
    /// The types of the fields, in their order; or the first type tag that
    /// names no type.
    pub fn field_types(&self, fields: &NameMap<FieldInfo>) -> (r: Result<Vec<IrType>, GenError>)
        requires
            self.wf(),
            fields.wf(),
        ensures
            types_outcome(r) == types_of(self@.structs, field_tags(fields_of(*fields)), 0, Seq::empty()),
    {
        proof {
            fields.lemma_lengths();
        }
        let ghost tags = field_tags(fields_of(*fields));
        let n = fields.len();
        let mut types: Vec<IrType> = Vec::new();
        let mut i: usize = 0;
        while i < n
            invariant
                i <= n,
                n == fields.values().len(),
                n == tags.len(),
                tags == field_tags(fields_of(*fields)),
                self.wf(),
                fields.wf(),
                types_of(self@.structs, tags, i as int, types@) == types_of(
                    self@.structs,
                    tags,
                    0,
                    Seq::empty(),
                ),
            decreases n - i,
        {
            let tag = &fields.get(i).type_;
            assert(tags[i as int] == tag@);
            match self.str_to_type(tag.as_str()) {
                None => {
                    return Err(failure(GenErrorKind::UnknownType, tag.as_str()));
                },
                Some(t) => {
                    types.push(t);
                },
            }
            i += 1;
        }
        Ok(types)
    }

    /// Lowers the declaration of a struct and registers its layout.
    pub fn gen_struct(&mut self, name: &String, struct_: &NameMap<FieldInfo>) -> (r: Result<
        (),
        GenError,
    >)
        requires
            old(self).wf(),
        ensures
            final(self).wf(),
            final(self).program() == old(self).program(),
            final(self)@ == gen_struct_spec(old(self)@, name@, fields_of(*struct_)).st,
            done_outcome(r) == gen_struct_spec(old(self)@, name@, fields_of(*struct_)).result,
    {
        if self.find_struct(name.as_str()).is_some() {
            return Err(failure(GenErrorKind::StructExists, name.as_str()));
        }
        if !check_field_order(struct_) {
            return Err(failure(GenErrorKind::FieldOrder, name.as_str()));
        }
        let types: Vec<IrType> = match self.field_types(struct_) {
            Err(x) => {
                return Err(x);
            },
            Ok(t) => t,
        };
        let handle = self.emit(Op::DeclareStruct { name: name.clone(), fields: types });
        self.register_struct(name.clone(), handle, copy_fields(struct_));
        Ok(())
    }

    /// Refuses a class: classes are parsed, and not lowered.
    pub fn gen_class(&mut self, class: &Class) -> (r: Result<(), GenError>)
        requires
            old(self).wf(),
        ensures
            final(self).wf(),
            final(self).program() == old(self).program(),
            final(self)@ == old(self)@,
            done_outcome(r) == refuse(old(self)@, GenErrorKind::UnsupportedClass, class.name@).result,
    {
        Err(failure(GenErrorKind::UnsupportedClass, class.name.as_str()))
    }

    /// Refuses the table of the methods of a class, of the given type:
    /// classes are parsed, and not lowered.
    pub fn gen_vtable(&mut self, vtable: IrType, class: &Class) -> (r: Result<(), GenError>)
        requires
            old(self).wf(),
        ensures
            final(self).wf(),
            final(self).program() == old(self).program(),
            final(self)@ == old(self)@,
            done_outcome(r) == refuse(old(self)@, GenErrorKind::UnsupportedClass, class.name@).result,
    {
        Err(failure(GenErrorKind::UnsupportedClass, class.name.as_str()))
    }
}

} // verus!
