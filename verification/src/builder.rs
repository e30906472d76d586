//! The declaration surface: the operations that a declaration routine calls,
//! whichever artifact is being emitted.

use vstd::prelude::*;
use crate::text::option_view;
use crate::types::{TaggedModel, Type, TypeModel};

verus! {

/// Model of one field of a record: its name, its type and its byte offset.
pub struct FieldModel {
    pub name: Seq<char>,
    pub ty: TypeModel,
    pub offset: nat,
}

/// Model of one declaration.
pub enum Decl {
    /// A tagged type.
    TaggedType(TaggedModel),
    /// A named constant of a declared type, with the literal that gives its value.
    Constant { name: Seq<char>, ty: TypeModel, literal: Seq<char> },
    /// A foreign function, with its return type and its argument types in order.
    Function { name: Seq<char>, ret: TypeModel, args: Seq<TypeModel> },
    /// The fields of a record.
    Fields { record: TypeModel, fields: Seq<FieldModel> },
}

impl FieldModel {
    /// The field `name` of type `ty` at the byte offset `offset`.
    pub open spec fn new(name: Seq<char>, ty: TypeModel, offset: nat) -> FieldModel {
        FieldModel { name, ty, offset }
    }
}

impl Decl {
    /// The declaration that introduces the tagged type `t`.
    pub open spec fn of_type(t: TypeModel) -> Decl
        recommends
            t is Tagged,
    {
        Decl::TaggedType(t->Tagged_0)
    }
}

/// The models of the types of `types`.
pub open spec fn type_models(types: Seq<Type>) -> Seq<TypeModel>
    decreases types.len(),
{
    if types.len() == 0 {
        Seq::empty()
    } else {
        type_models(types.drop_last()).push(types.last()@)
    }
}

/// The model of one field, given as its name, its type and its byte offset.
pub open spec fn field_model(field: (&str, Type, usize)) -> FieldModel {
    FieldModel::new(field.0@, field.1@, field.2 as nat)
}

/// The models of the fields of `fields`.
pub open spec fn field_models(fields: Seq<(&str, Type, usize)>) -> Seq<FieldModel>
    decreases fields.len(),
{
    if fields.len() == 0 {
        Seq::empty()
    } else {
        field_models(fields.drop_last()).push(field_model(fields.last()))
    }
}

/// `type_models` keeps the length and models each type in its place.
pub proof fn lemma_type_models(types: Seq<Type>)
    ensures
        type_models(types).len() == types.len(),
        forall|i: int| 0 <= i < types.len() ==> (#[trigger] type_models(types)[i]) == types[i]@,
    decreases types.len(),
{
    if types.len() > 0 {
        lemma_type_models(types.drop_last());
    }
}

/// `field_models` keeps the length and models each field in its place.
pub proof fn lemma_field_models(fields: Seq<(&str, Type, usize)>)
    ensures
        field_models(fields).len() == fields.len(),
        forall|i: int|
            0 <= i < fields.len() ==> (#[trigger] field_models(fields)[i]) == field_model(
                fields[i],
            ),
    decreases fields.len(),
{
    if fields.len() > 0 {
        lemma_field_models(fields.drop_last());
    }
}

/// Whether every type of `types` can be erased.
pub open spec fn all_erasable(types: Seq<Type>) -> bool {
    forall|i: int| 0 <= i < types.len() ==> (#[trigger] types[i])@.erasable()
}

/// The texts that the emitter `B` produces for the declarations of `decls`, in order.
pub open spec fn emit_all<B: Builder>(interface: Seq<char>, decls: Seq<Decl>) -> Seq<char>
    decreases decls.len(),
{
    if decls.len() == 0 {
        Seq::empty()
    } else {
        emit_all::<B>(interface, decls.drop_last()) + B::emit(interface, decls.last())
    }
}

/// The names of the functions that `decls` declares, in the order of their
/// declarations.
pub open spec fn function_names(decls: Seq<Decl>) -> Seq<Seq<char>>
    decreases decls.len(),
{
    if decls.len() == 0 {
        Seq::empty()
    } else {
        match decls.last() {
            Decl::Function { name, ret, args } => function_names(decls.drop_last()).push(name),
            _ => function_names(decls.drop_last()),
        }
    }
}

/// What an emitter produces for one sequence of declarations followed by
/// another is what it produces for the first, followed by what it produces
/// for the second.
pub proof fn lemma_emit_all_concat<B: Builder>(
    interface: Seq<char>,
    first: Seq<Decl>,
    second: Seq<Decl>,
)
    ensures
        emit_all::<B>(interface, first + second) == emit_all::<B>(interface, first) + emit_all::<B>(
            interface,
            second,
        ),
    decreases second.len(),
{
    if second.len() == 0 {
        assert(first + second =~= first);
        assert(emit_all::<B>(interface, first) + Seq::<char>::empty() =~= emit_all::<B>(
            interface,
            first,
        ));
    } else {
        lemma_emit_all_concat::<B>(interface, first, second.drop_last());
        assert((first + second).drop_last() =~= first + second.drop_last());
        assert(emit_all::<B>(interface, first + second) =~= emit_all::<B>(interface, first)
            + emit_all::<B>(interface, second));
    }
}

/// An emitter of one artifact. Every declaration appends to the text what
/// this kind of emitter produces for it, and changes nothing else.
pub trait Builder {
    /// The name of the interface that is being generated.
    spec fn interface(&self) -> Seq<char>;

    /// The text emitted so far.
    spec fn text(&self) -> Seq<char>;

    /// The text that this kind of emitter produces for one declaration of
    /// the interface `interface`.
    spec fn emit(interface: Seq<char>, decl: Decl) -> Seq<char>;

    /// Whether this kind of emitter erases the types of the signature of a
    /// function that is declared.
    spec fn erases() -> bool;

    /// Declares the tagged type `name` over `base` that mirrors the foreign
    /// type `tag`, with the sentinel literal `iv` if there is one, and
    /// returns it.
    fn define_tagged_type_impl(
        &mut self,
        name: &str,
        base: Type,
        tag: &str,
        iv: Option<&str>,
    ) -> (res: Type)
        ensures
            res@ == TypeModel::Tagged(TaggedModel::new(name@, base@, tag@, option_view(iv))),
            res@.erasable(),
            final(self).interface() == old(self).interface(),
            final(self).text() == old(self).text() + Self::emit(
                old(self).interface(),
                Decl::TaggedType(TaggedModel::new(name@, base@, tag@, option_view(iv))),
            ),
    ;

    /// Declares the constant `name` of type `ty`, whose value is the literal `val`.
    fn define_constant(&mut self, name: &str, ty: Type, val: &str)
        ensures
            final(self).interface() == old(self).interface(),
            final(self).text() == old(self).text() + Self::emit(
                old(self).interface(),
                Decl::Constant { name: name@, ty: ty@, literal: val@ },
            ),
    ;

    /// Declares the function `name` that returns `return_type` and takes
    /// arguments of the types `args`, in order. Where the emitter erases the
    /// signature, none of its types may be erased already.
    fn define_function(&mut self, name: &str, return_type: Type, args: &[Type])
        requires
            Self::erases() ==> return_type@.erasable() && all_erasable(args@),
        ensures
            final(self).interface() == old(self).interface(),
            final(self).text() == old(self).text() + Self::emit(
                old(self).interface(),
                Decl::Function { name: name@, ret: return_type@, args: type_models(args@) },
            ),
    ;

    /// Declares the fields of the record `rec`, each with its name, its type
    /// and its byte offset.
    fn define_fields(&mut self, rec: Type, fields: &[(&str, Type, usize)])
        ensures
            final(self).interface() == old(self).interface(),
            final(self).text() == old(self).text() + Self::emit(
                old(self).interface(),
                Decl::Fields { record: rec@, fields: field_models(fields@) },
            ),
    ;

    /// Declares the tagged type `name` over `base` that mirrors the foreign
    /// type `tag`, and returns it.
    fn define_tagged_type(&mut self, name: &str, base: Type, tag: &str) -> (res: Type)
        ensures
            res@ == TypeModel::tagged(name@, base@, tag@),
            res@.erasable(),
            final(self).interface() == old(self).interface(),
            final(self).text() == old(self).text() + Self::emit(
                old(self).interface(),
                Decl::TaggedType(TaggedModel::new(name@, base@, tag@, None)),
            ),
    {
        self.define_tagged_type_impl(name, base, tag, None)
    }

    /// Declares the tagged type `name` over `base` that mirrors the foreign
    /// type `tag`, with the sentinel literal `iv`, and returns it.
    fn define_tagged_type_iv(&mut self, name: &str, base: Type, tag: &str, iv: &str) -> (res: Type)
        ensures
            res@ == TypeModel::tagged_with_sentinel(name@, base@, tag@, iv@),
            res@.erasable(),
            final(self).interface() == old(self).interface(),
            final(self).text() == old(self).text() + Self::emit(
                old(self).interface(),
                Decl::TaggedType(TaggedModel::new(name@, base@, tag@, Some(iv@))),
            ),
    {
        self.define_tagged_type_impl(name, base, tag, Some(iv))
    }

    /// Declares the enumeration `name` that mirrors the foreign type `tag`,
    /// and returns it.
    fn define_enum(&mut self, name: &str, tag: &str) -> (res: Type)
        ensures
            res@ == TypeModel::enumeration(name@, tag@),
            res@.erasable(),
            final(self).interface() == old(self).interface(),
            final(self).text() == old(self).text() + Self::emit(
                old(self).interface(),
                Decl::TaggedType(TaggedModel::new(name@, TypeModel::Int32, tag@, None)),
            ),
    {
        self.define_tagged_type(name, Type::Int32, tag)
    }

    /// Declares the opaque pointer `name` that mirrors the foreign type
    /// `tag`, and returns it.
    fn define_opaque_ptr(&mut self, name: &str, tag: &str) -> (res: Type)
        ensures
            res@ == TypeModel::opaque_pointer(name@, tag@),
            res@.erasable(),
            final(self).interface() == old(self).interface(),
            final(self).text() == old(self).text() + Self::emit(
                old(self).interface(),
                Decl::TaggedType(TaggedModel::new(name@, TypeModel::voidp(), tag@, None)),
            ),
    {
        self.define_tagged_type(name, Type::voidp(), tag)
    }
}

} // verus!
