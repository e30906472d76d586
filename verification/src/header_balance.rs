//! The header is balanced: in each class of paired delimiter it closes as
//! many as it opens.
//!
//! The proof goes from the small to the large. The depth of each fixed piece
//! of text is found by looking at its characters. From these follows the
//! depth of what the header says for one declaration, given the depths of
//! the names and literals in it, and from that the depth of the whole header.

use vstd::prelude::*;
use crate::balance::{
    angles, balanced, braces, depth, depth_upto, lemma_decimal_balanced, lemma_depth_concat,
    lemma_joined_balanced, parens, Depth,
};
use crate::builder::{emit_all, Decl, FieldModel};
use crate::header::{
    accessors_text, alias_text, constant_text, epilogue, fields_text, function_text, header_emit,
    header_text, interface_head, native_texts, parameters, preamble, prologue, record_access,
    sentinel_argument, unwrapped_parameters, HeaderBuilder,
};
use crate::text::joined;
use crate::types::{TaggedModel, TypeModel};

verus! {

/// Whether every name that the author gave inside the type `t` is balanced,
/// as far as the text of `t` shows it.
pub open spec fn names_balanced(t: TypeModel) -> bool
    decreases t,
{
    match t {
        TypeModel::Tagged(tagged) => balanced(tagged.name),
        TypeModel::NativeTagged(tagged) => balanced(tagged.name),
        TypeModel::Pointer(inner) => names_balanced(*inner),
        TypeModel::Const(inner) => names_balanced(*inner),
        _ => true,
    }
}

/// Whether the names inside every type of `types` are balanced.
pub open spec fn all_names_balanced(types: Seq<TypeModel>) -> bool {
    forall|i: int| 0 <= i < types.len() ==> names_balanced(#[trigger] types[i])
}

/// Whether the name of every field of `fields`, and the names inside its
/// type, are balanced.
pub open spec fn fields_balanced(fields: Seq<FieldModel>) -> bool {
    forall|i: int|
        0 <= i < fields.len() ==> balanced((#[trigger] fields[i]).name) && names_balanced(
            fields[i].ty,
        )
}

/// Whether every text that the author gave in the declaration `decl` is
/// balanced: the names, the foreign tag, the literals, and the names inside
/// the types.
pub open spec fn decl_balanced(decl: Decl) -> bool {
    match decl {
        Decl::TaggedType(t) => {
            &&& balanced(t.name)
            &&& names_balanced(*t.base)
            &&& balanced(t.tag)
            &&& t.sentinel matches Some(literal) ==> balanced(literal)
        },
        Decl::Constant { name, ty, literal } => {
            &&& balanced(name)
            &&& names_balanced(ty)
            &&& balanced(literal)
        },
        Decl::Function { name, ret, args } => {
            &&& balanced(name)
            &&& names_balanced(ret)
            &&& all_names_balanced(args)
        },
        Decl::Fields { record, fields } => {
            &&& names_balanced(record)
            &&& fields_balanced(fields)
        },
    }
}

/// The fixed parts of the texts of types.
proof fn lemma_type_literals()
    ensures
        balanced("char"@),
        balanced("int8_t"@),
        balanced("int16_t"@),
        balanced("int32_t"@),
        balanced("int64_t"@),
        balanced("uint8_t"@),
        balanced("uint16_t"@),
        balanced("uint32_t"@),
        balanced("uint64_t"@),
        balanced("size_t"@),
        balanced("void"@),
        balanced("typename "@),
        balanced("::native"@),
        balanced("void*"@),
        balanced("*"@),
        balanced(" const"@),
        depth("detail::record_type<"@) == angles(1),
        balanced(", "@),
        depth(">"@) == angles(-1),
{
    reveal_with_fuel(depth_upto, 21);
    reveal_strlit("char");
    reveal_strlit("int8_t");
    reveal_strlit("int16_t");
    reveal_strlit("int32_t");
    reveal_strlit("int64_t");
    reveal_strlit("uint8_t");
    reveal_strlit("uint16_t");
    reveal_strlit("uint32_t");
    reveal_strlit("uint64_t");
    reveal_strlit("size_t");
    reveal_strlit("void");
    reveal_strlit("typename ");
    reveal_strlit("::native");
    reveal_strlit("void*");
    reveal_strlit("*");
    reveal_strlit(" const");
    reveal_strlit("detail::record_type<");
    reveal_strlit(", ");
    reveal_strlit(">");
}

/// The lines of the preamble.
proof fn lemma_preamble_literals()
    ensures
        balanced("\n            #pragma once\n\n"@),
        balanced("            #include <cstdint>\n"@),
        balanced("            #include <cstdlib>\n"@),
        balanced("            #include <memory>\n"@),
        balanced("            #include <string>\n"@),
        balanced("            #include <error.hpp>\n"@),
        balanced("            #include <interfaces.hpp>\n\n"@),
        balanced("            CHARM_SYCL_BEGIN_NAMESPACE\n\n"@),
        depth("            namespace runtime {\n"@) == braces(1),
{
    reveal_with_fuel(depth_upto, 41);
    reveal_strlit("\n            #pragma once\n\n");
    reveal_strlit("            #include <cstdint>\n");
    reveal_strlit("            #include <cstdlib>\n");
    reveal_strlit("            #include <memory>\n");
    reveal_strlit("            #include <string>\n");
    reveal_strlit("            #include <error.hpp>\n");
    reveal_strlit("            #include <interfaces.hpp>\n\n");
    reveal_strlit("            CHARM_SYCL_BEGIN_NAMESPACE\n\n");
    reveal_strlit("            namespace runtime {\n");
}

/// The fixed parts of the opening of the interface type.
proof fn lemma_interface_head_literals()
    ensures
        balanced("            struct "@),
        depth(" {\n"@) == braces(1),
        balanced("                using this_type = "@),
        balanced(";\n\n"@),
        balanced("                static error::result<void> init();\n"@),
        balanced("                static void close();\n"@),
        balanced("                static void clear();\n"@),
        balanced("                static std::string version_str();\n\n"@),
        balanced("                private:\n"@),
        balanced("                struct impl;\n"@),
        balanced("                static std::unique_ptr<impl> pimpl_;\n\n"@),
{
    reveal_with_fuel(depth_upto, 55);
    reveal_strlit("            struct ");
    reveal_strlit(" {\n");
    reveal_strlit("                using this_type = ");
    reveal_strlit(";\n\n");
    reveal_strlit("                static error::result<void> init();\n");
    reveal_strlit("                static void close();\n");
    reveal_strlit("                static void clear();\n");
    reveal_strlit("                static std::string version_str();\n\n");
    reveal_strlit("                private:\n");
    reveal_strlit("                struct impl;\n");
    reveal_strlit("                static std::unique_ptr<impl> pimpl_;\n\n");
}

/// The lines of the primitive that writes a field.
proof fn lemma_mutator_literals()
    ensures
        balanced("                template <size_t Offset, class R, class T>\n"@),
        balanced("                [[maybe_unused]]\n"@),
        depth("                static inline void set_(R& record, T val) {\n"@) == braces(1),
        balanced("                    *reinterpret_cast<T*>(reinterpret_cast<std::byte*>(record.address()) + Offset) = val;\n"@),
        depth("                }\n\n"@) == braces(-1),
{
    reveal_with_fuel(depth_upto, 61);
    reveal_strlit("                template <size_t Offset, class R, class T>\n");
    reveal_strlit("                [[maybe_unused]]\n");
    reveal_strlit("                static inline void set_(R& record, T val) {\n");
    reveal_strlit("                    *reinterpret_cast<T*>(reinterpret_cast<std::byte*>(record.address()) + Offset) = val;\n");
    assert(depth_upto("                    *reinterpret_cast<T*>(reinterpret_cast<std::byte*>(record.address()) + Offset) = val;\n"@, 53) == parens(1));
    reveal_strlit("                }\n\n");
}

/// The lines of the primitive that reads a field.
proof fn lemma_accessor_literals()
    ensures
        balanced("                template <size_t Offset, class T, class R>\n"@),
        depth("                static inline auto get_(R const& record) {\n"@) == braces(1),
        balanced("                    return *reinterpret_cast<T const*>(reinterpret_cast<std::byte const*>(record.address()) + Offset);\n"@),
        depth("                }\n"@) == braces(-1),
        balanced("                public:\n            \n"@),
{
    reveal_with_fuel(depth_upto, 62);
    reveal_strlit("                template <size_t Offset, class T, class R>\n");
    reveal_strlit("                static inline auto get_(R const& record) {\n");
    reveal_strlit("                    return *reinterpret_cast<T const*>(reinterpret_cast<std::byte const*>(record.address()) + Offset);\n");
    assert(depth_upto("                    return *reinterpret_cast<T const*>(reinterpret_cast<std::byte const*>(record.address()) + Offset);\n"@, 59) == parens(1));
    reveal_strlit("                }\n");
    reveal_strlit("                public:\n            \n");
}

/// The lines of the epilogue.
proof fn lemma_epilogue_literals()
    ensures
        depth("\n            };\n\n"@) == braces(-1),
        depth("            }\n\n"@) == braces(-1),
        balanced("            CHARM_SYCL_END_NAMESPACE\n            \n"@),
{
    reveal_with_fuel(depth_upto, 51);
    reveal_strlit("\n            };\n\n");
    reveal_strlit("            }\n\n");
    reveal_strlit("            CHARM_SYCL_END_NAMESPACE\n            \n");
}

/// The fixed parts of an alias.
proof fn lemma_alias_literals()
    ensures
        balanced("\n            using "@),
        depth(" = detail::tagged_t<this_type, "@) == angles(1),
        depth(", detail::tag_name(\""@) == parens(1),
        depth("\")"@) == parens(-1),
        depth(">;\n            \n"@) == angles(-1),
        depth(", detail::init_val("@) == parens(1),
        depth(")"@) == parens(-1),
{
    reveal_with_fuel(depth_upto, 32);
    reveal_strlit("\n            using ");
    reveal_strlit(" = detail::tagged_t<this_type, ");
    reveal_strlit(", detail::tag_name(\"");
    reveal_strlit("\")");
    reveal_strlit(">;\n            \n");
    reveal_strlit(", detail::init_val(");
    reveal_strlit(")");
}

/// The fixed parts of the definition of a constant.
proof fn lemma_constant_literals()
    ensures
        balanced("\n            static constexpr auto "@),
        balanced(" = "@),
        depth("("@) == parens(1),
        depth(");\n            \n"@) == parens(-1),
{
    reveal_with_fuel(depth_upto, 36);
    reveal_strlit("\n            static constexpr auto ");
    reveal_strlit(" = ");
    reveal_strlit("(");
    reveal_strlit(");\n            \n");
}

/// The fixed parts of the parameters of a wrapper and the separators between them.
proof fn lemma_parameter_literals()
    ensures
        balanced(" param"@),
        depth("detail::unwrap(param"@) == parens(1),
        depth(")"@) == parens(-1),
        balanced(", "@),
        balanced(","@),
{
    reveal_with_fuel(depth_upto, 21);
    reveal_strlit(" param");
    reveal_strlit("detail::unwrap(param");
    reveal_strlit(")");
    reveal_strlit(", ");
    reveal_strlit(",");
}

/// The fixed parts of the slot and the wrapper of a function.
proof fn lemma_function_literals()
    ensures
        balanced("\n            private:\n"@),
        balanced("            static void* "@),
        balanced("_ptr;\n\n"@),
        balanced("            public:\n"@),
        balanced("            static inline auto "@),
        depth("("@) == parens(1),
        balanced(", "@),
        depth(") {\n"@) == parens(-1).plus(braces(1)),
        balanced("                using Fn = "@),
        depth(" (*)("@) == parens(1),
        depth(");\n"@) == parens(-1),
        depth("                return detail::wrap<"@) == angles(1),
        depth(">(\n"@) == parens(1).plus(angles(-1)),
        depth("                    reinterpret_cast<Fn>("@) == parens(1),
        balanced("_ptr)("@),
        balanced(","@),
        depth("));\n"@) == parens(-2),
        depth("            }\n            \n"@) == braces(-1),
{
    reveal_with_fuel(depth_upto, 42);
    reveal_strlit("\n            private:\n");
    reveal_strlit("            static void* ");
    reveal_strlit("_ptr;\n\n");
    reveal_strlit("            public:\n");
    reveal_strlit("            static inline auto ");
    reveal_strlit("(");
    reveal_strlit(", ");
    reveal_strlit(") {\n");
    reveal_strlit("                using Fn = ");
    reveal_strlit(" (*)(");
    reveal_strlit(");\n");
    reveal_strlit("                return detail::wrap<");
    reveal_strlit(">(\n");
    reveal_strlit("                    reinterpret_cast<Fn>(");
    reveal_strlit("_ptr)(");
    reveal_strlit(",");
    reveal_strlit("));\n");
    reveal_strlit("            }\n            \n");
}

/// The fixed parts of the mutator and the accessor of a field.
proof fn lemma_accessors_literals()
    ensures
        balanced("\n                static inline void set_"@),
        depth("("@) == parens(1),
        balanced("& x, "@),
        depth(" val) {\n"@) == parens(-1).plus(braces(1)),
        depth("                    set_<"@) == angles(1),
        depth(">(x, val);\n"@) == angles(-1),
        depth("                }\n\n"@) == braces(-1),
        balanced("                static inline auto get_"@),
        depth(" const& x) {\n"@) == parens(-1).plus(braces(1)),
        depth("                    return get_<"@) == angles(1),
        balanced(", "@),
        depth(">(x);\n"@) == angles(-1),
        depth("                }\n                "@) == braces(-1),
{
    reveal_with_fuel(depth_upto, 41);
    reveal_strlit("\n                static inline void set_");
    reveal_strlit("(");
    reveal_strlit("& x, ");
    reveal_strlit(" val) {\n");
    reveal_strlit("                    set_<");
    reveal_strlit(">(x, val);\n");
    reveal_strlit("                }\n\n");
    reveal_strlit("                static inline auto get_");
    reveal_strlit(" const& x) {\n");
    reveal_strlit("                    return get_<");
    reveal_strlit(", ");
    reveal_strlit(">(x);\n");
    reveal_strlit("                }\n                ");
}

/// The text of a type whose names are balanced is balanced, and so is the
/// text of its native form.
pub proof fn lemma_type_text_balanced(t: TypeModel)
    requires
        names_balanced(t),
    ensures
        balanced(t.text()),
        balanced(t.erased().text()),
    decreases t,
{
    broadcast use lemma_depth_concat;

    lemma_type_literals();
    match t {
        TypeModel::Record(r) => {
            lemma_decimal_balanced(r.size);
            lemma_decimal_balanced(r.align);
        },
        TypeModel::Pointer(inner) => {
            lemma_type_text_balanced(*inner);
        },
        TypeModel::Const(inner) => {
            lemma_type_text_balanced(*inner);
        },
        _ => {},
    }
}

proof fn lemma_prologue_depth(name: Seq<char>)
    requires
        balanced(name),
    ensures
        depth(prologue(name)) == braces(2),
{
    broadcast use lemma_depth_concat;

    lemma_preamble_literals();
    lemma_interface_head_literals();
    lemma_mutator_literals();
    lemma_accessor_literals();
    assert(depth(preamble()) == braces(1));
    assert(depth(interface_head(name)) == braces(1));
    assert(balanced(record_access()));
}

proof fn lemma_epilogue_depth()
    ensures
        depth(epilogue()) == braces(-2),
{
    broadcast use lemma_depth_concat;

    lemma_epilogue_literals();
}

proof fn lemma_alias_balanced(t: TaggedModel)
    requires
        decl_balanced(Decl::TaggedType(t)),
    ensures
        balanced(alias_text(t)),
{
    broadcast use lemma_depth_concat;

    lemma_alias_literals();
    lemma_type_text_balanced(*t.base);
    assert(depth(sentinel_argument(t.sentinel)) == Depth::zero());
}

proof fn lemma_constant_balanced(name: Seq<char>, ty: TypeModel, literal: Seq<char>)
    requires
        decl_balanced(Decl::Constant { name, ty, literal }),
    ensures
        balanced(constant_text(name, ty, literal)),
{
    broadcast use lemma_depth_concat;

    lemma_constant_literals();
    lemma_type_text_balanced(ty);
}

proof fn lemma_parameters_balanced(args: Seq<TypeModel>)
    requires
        all_names_balanced(args),
    ensures
        balanced(joined(parameters(args), ", "@)),
        balanced(joined(native_texts(args), ", "@)),
        balanced(joined(unwrapped_parameters(args.len()), ","@)),
{
    lemma_parameter_literals();
    assert forall|i: int| 0 <= i < args.len() implies balanced(
        #[trigger] parameters(args)[i],
    ) by {
        broadcast use lemma_depth_concat;

        lemma_type_text_balanced(args[i]);
        lemma_decimal_balanced(i as nat);
    }
    assert forall|i: int| 0 <= i < args.len() implies balanced(
        #[trigger] native_texts(args)[i],
    ) by {
        lemma_type_text_balanced(args[i]);
    }
    assert forall|i: int| 0 <= i < args.len() implies balanced(
        #[trigger] unwrapped_parameters(args.len())[i],
    ) by {
        broadcast use lemma_depth_concat;

        lemma_decimal_balanced(i as nat);
    }
    lemma_joined_balanced(parameters(args), ", "@);
    lemma_joined_balanced(native_texts(args), ", "@);
    lemma_joined_balanced(unwrapped_parameters(args.len()), ","@);
}

proof fn lemma_function_balanced(name: Seq<char>, ret: TypeModel, args: Seq<TypeModel>)
    requires
        decl_balanced(Decl::Function { name, ret, args }),
    ensures
        balanced(function_text(name, ret, args)),
{
    broadcast use lemma_depth_concat;

    lemma_function_literals();
    lemma_type_text_balanced(ret);
    lemma_parameters_balanced(args);
}

proof fn lemma_accessors_balanced(record: TypeModel, field: FieldModel)
    requires
        names_balanced(record),
        balanced(field.name),
        names_balanced(field.ty),
    ensures
        balanced(accessors_text(record, field)),
{
    broadcast use lemma_depth_concat;

    lemma_accessors_literals();
    lemma_type_text_balanced(record);
    lemma_type_text_balanced(field.ty);
    lemma_decimal_balanced(field.offset);
}

proof fn lemma_fields_balanced(record: TypeModel, fields: Seq<FieldModel>)
    requires
        decl_balanced(Decl::Fields { record, fields }),
    ensures
        balanced(fields_text(record, fields)),
    decreases fields.len(),
{
    if fields.len() > 0 {
        lemma_fields_balanced(record, fields.drop_last());
        lemma_accessors_balanced(record, fields.last());
        lemma_depth_concat(
            fields_text(record, fields.drop_last()),
            accessors_text(record, fields.last()),
        );
    }
}

/// What the header says for one declaration is balanced where the
/// declaration is.
pub proof fn lemma_declaration_balanced(decl: Decl)
    requires
        decl_balanced(decl),
    ensures
        balanced(header_emit(decl)),
{
    match decl {
        Decl::TaggedType(t) => lemma_alias_balanced(t),
        Decl::Constant { name, ty, literal } => lemma_constant_balanced(name, ty, literal),
        Decl::Function { name, ret, args } => lemma_function_balanced(name, ret, args),
        Decl::Fields { record, fields } => lemma_fields_balanced(record, fields),
    }
}

proof fn lemma_declarations_balanced(interface: Seq<char>, decls: Seq<Decl>)
    requires
        forall|i: int| 0 <= i < decls.len() ==> decl_balanced(#[trigger] decls[i]),
    ensures
        balanced(emit_all::<HeaderBuilder>(interface, decls)),
    decreases decls.len(),
{
    if decls.len() > 0 {
        lemma_declarations_balanced(interface, decls.drop_last());
        lemma_declaration_balanced(decls.last());
        lemma_depth_concat(
            emit_all::<HeaderBuilder>(interface, decls.drop_last()),
            header_emit(decls.last()),
        );
    }
}

/// The header is balanced in every class of paired delimiter (parentheses,
/// braces, angle brackets, square brackets), provided that the name of the
/// interface and every name, tag and literal of the declarations is.
pub proof fn lemma_header_balanced(interface: Seq<char>, decls: Seq<Decl>)
    requires
        balanced(interface),
        forall|i: int| 0 <= i < decls.len() ==> decl_balanced(#[trigger] decls[i]),
    ensures
        balanced(header_text(interface, decls)),
{
    lemma_prologue_depth(interface);
    lemma_declarations_balanced(interface, decls);
    lemma_epilogue_depth();
    let body = emit_all::<HeaderBuilder>(interface, decls);
    lemma_depth_concat(prologue(interface), body);
    lemma_depth_concat(prologue(interface) + body, epilogue());
}

} // verus!
