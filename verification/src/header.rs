//! The header emitter: the type-safe declarations of the interface, framed
//! by a fixed prologue and epilogue.

use std::rc::Rc;
use vstd::prelude::*;
use vstd::string::StringExecFns;
use crate::builder::{
    all_erasable, emit_all, field_model, field_models, lemma_field_models, lemma_type_models,
    type_models, Builder, Decl, FieldModel,
};
use crate::text::{decimal, join, joined, option_view, push_decimal, views};
use crate::types::{make_tagged_type, TaggedModel, Type, TypeModel};

verus! {

/// The include guard, the library includes and the opening of the namespaces.
pub open spec fn preamble() -> Seq<char> {
    "\n            #pragma once\n\n"@
        + "            #include <cstdint>\n"@
        + "            #include <cstdlib>\n"@
        + "            #include <memory>\n"@
        + "            #include <string>\n"@
        + "            #include <error.hpp>\n"@
        + "            #include <interfaces.hpp>\n\n"@
        + "            CHARM_SYCL_BEGIN_NAMESPACE\n\n"@
        + "            namespace runtime {\n"@
}

/// The opening of the interface type `name`: its four lifecycle entry points
/// and the implementation handle that it owns.
pub open spec fn interface_head(name: Seq<char>) -> Seq<char> {
    "            struct "@ + name + " {\n"@
        + "                using this_type = "@ + name + ";\n\n"@
        + "                static error::result<void> init();\n"@
        + "                static void close();\n"@
        + "                static void clear();\n"@
        + "                static std::string version_str();\n\n"@
        + "                private:\n"@
        + "                struct impl;\n"@
        + "                static std::unique_ptr<impl> pimpl_;\n\n"@
}

/// The two primitives through which every field accessor reads and writes:
/// the address of the record plus a byte offset, taken as the field's type.
pub open spec fn record_access() -> Seq<char> {
    "                template <size_t Offset, class R, class T>\n"@
        + "                [[maybe_unused]]\n"@
        + "                static inline void set_(R& record, T val) {\n"@
        + "                    *reinterpret_cast<T*>(reinterpret_cast<std::byte*>(record.address()) + Offset) = val;\n"@
        + "                }\n\n"@
        + "                template <size_t Offset, class T, class R>\n"@
        + "                [[maybe_unused]]\n"@
        + "                static inline auto get_(R const& record) {\n"@
        + "                    return *reinterpret_cast<T const*>(reinterpret_cast<std::byte const*>(record.address()) + Offset);\n"@
        + "                }\n"@
        + "                public:\n            \n"@
}

/// Everything that precedes the declarations in the header of the interface `name`.
pub open spec fn prologue(name: Seq<char>) -> Seq<char> {
    preamble() + interface_head(name) + record_access()
}

/// Everything that follows the declarations: the end of the interface type
/// and of the namespaces.
pub open spec fn epilogue() -> Seq<char> {
    "\n            };\n\n"@ + "            }\n\n"@
        + "            CHARM_SYCL_END_NAMESPACE\n            \n"@
}

/// The argument of an alias that carries the sentinel literal; nothing where
/// the tagged type has none.
pub open spec fn sentinel_argument(sentinel: Option<Seq<char>>) -> Seq<char> {
    match sentinel {
        Some(literal) => ", detail::init_val("@ + literal + ")"@,
        None => Seq::empty(),
    }
}

/// An alias up to the place of the sentinel: the name, and the strong wrapper
/// with its owning scope, its base type and its foreign tag.
pub open spec fn alias_opening(name: Seq<char>, base: TypeModel, tag: Seq<char>) -> Seq<char> {
    "\n            using "@ + name + " = detail::tagged_t<this_type, "@ + base.text()
        + ", detail::tag_name(\""@ + tag + "\")"@
}

/// An alias from the place of the sentinel on.
pub open spec fn alias_closing() -> Seq<char> {
    ">;\n            \n"@
}

/// The alias that binds the name of a tagged type to the strong wrapper over
/// its base type, its foreign tag and its sentinel.
pub open spec fn alias_text(t: TaggedModel) -> Seq<char> {
    alias_opening(t.name, *t.base, t.tag) + sentinel_argument(t.sentinel) + alias_closing()
}

/// The definition of the constant `name` of type `ty` from the literal `literal`.
pub open spec fn constant_text(name: Seq<char>, ty: TypeModel, literal: Seq<char>) -> Seq<char> {
    "\n            static constexpr auto "@ + name + " = "@ + ty.text() + "("@ + literal
        + ");\n            \n"@
}

/// The `i`-th parameter of a wrapper, of the declared type `arg`.
pub open spec fn parameter(arg: TypeModel, i: int) -> Seq<char> {
    arg.text() + " param"@ + decimal(i as nat)
}

/// The parameters of a wrapper over arguments of the types `args`.
pub open spec fn parameters(args: Seq<TypeModel>) -> Seq<Seq<char>> {
    Seq::new(args.len(), |i: int| parameter(args[i], i))
}

/// The `i`-th parameter of a wrapper, unwrapped to its native representation.
pub open spec fn unwrapped(i: int) -> Seq<char> {
    "detail::unwrap(param"@ + decimal(i as nat) + ")"@
}

/// The first `n` parameters of a wrapper, each unwrapped.
pub open spec fn unwrapped_parameters(n: nat) -> Seq<Seq<char>> {
    Seq::new(n, |i: int| unwrapped(i))
}

/// The texts of the native forms of the types `args`.
pub open spec fn native_texts(args: Seq<TypeModel>) -> Seq<Seq<char>> {
    Seq::new(args.len(), |i: int| args[i].erased().text())
}

/// The slot and the wrapper of the function `name`: a private untyped slot
/// for the resolved entry point, and a public wrapper that takes the
/// declared types, calls through the slot with the erased signature, and
/// wraps the result back into the declared return type.
pub open spec fn function_text(name: Seq<char>, ret: TypeModel, args: Seq<TypeModel>) -> Seq<char> {
    "\n            private:\n"@
        + "            static void* "@ + name + "_ptr;\n\n"@
        + "            public:\n"@
        + "            static inline auto "@ + name + "("@ + joined(parameters(args), ", "@) + ") {\n"@
        + "                using Fn = "@ + ret.erased().text() + " (*)("@
        + joined(native_texts(args), ", "@) + ");\n"@
        + "                return detail::wrap<"@ + ret.text() + ">(\n"@
        + "                    reinterpret_cast<Fn>("@ + name + "_ptr)("@
        + joined(unwrapped_parameters(args.len()), ","@) + "));\n"@
        + "            }\n            \n"@
}

/// The mutator and the accessor of one field of the record `record`.
pub open spec fn accessors_text(record: TypeModel, field: FieldModel) -> Seq<char> {
    "\n                static inline void set_"@ + field.name + "("@ + record.text() + "& x, "@
        + field.ty.text() + " val) {\n"@
        + "                    set_<"@ + decimal(field.offset) + ">(x, val);\n"@
        + "                }\n\n"@
        + "                static inline auto get_"@ + field.name + "("@ + record.text()
        + " const& x) {\n"@
        + "                    return get_<"@ + decimal(field.offset) + ", "@ + field.ty.text()
        + ">(x);\n"@
        + "                }\n                "@
}

/// The mutators and accessors of the fields `fields` of the record `record`,
/// one pair for each field, in order.
pub open spec fn fields_text(record: TypeModel, fields: Seq<FieldModel>) -> Seq<char>
    decreases fields.len(),
{
    if fields.len() == 0 {
        Seq::empty()
    } else {
        fields_text(record, fields.drop_last()) + accessors_text(record, fields.last())
    }
}

/// What the header says for one declaration.
pub open spec fn header_emit(decl: Decl) -> Seq<char> {
    match decl {
        Decl::TaggedType(t) => alias_text(t),
        Decl::Constant { name, ty, literal } => constant_text(name, ty, literal),
        Decl::Function { name, ret, args } => function_text(name, ret, args),
        Decl::Fields { record, fields } => fields_text(record, fields),
    }
}

/// The whole header of the interface `interface` for the declarations `decls`.
pub open spec fn header_text(interface: Seq<char>, decls: Seq<Decl>) -> Seq<char> {
    prologue(interface) + emit_all::<HeaderBuilder>(interface, decls) + epilogue()
}

/// Appends the mutator and the accessor of one field to `buf`.
fn write_accessors(buf: &mut String, rec: &Type, name: &str, ty: &Type, offset: usize)
    ensures
        final(buf)@ == old(buf)@ + accessors_text(
            rec@,
            FieldModel::new(name@, ty@, offset as nat),
        ),
{
    buf.append("\n                static inline void set_");
    buf.append(name);
    buf.append("(");
    rec.write_to(buf);
    buf.append("& x, ");
    ty.write_to(buf);
    buf.append(" val) {\n");
    buf.append("                    set_<");
    push_decimal(buf, offset);
    buf.append(">(x, val);\n");
    buf.append("                }\n\n");
    buf.append("                static inline auto get_");
    buf.append(name);
    buf.append("(");
    rec.write_to(buf);
    buf.append(" const& x) {\n");
    buf.append("                    return get_<");
    push_decimal(buf, offset);
    buf.append(", ");
    ty.write_to(buf);
    buf.append(">(x);\n");
    buf.append("                }\n                ");
    assert(buf@ =~= old(buf)@ + accessors_text(
        rec@,
        FieldModel::new(name@, ty@, offset as nat),
    ));
}

/// Emits the header of one interface.
pub struct HeaderBuilder {
    buffer: String,
    name: Ghost<Seq<char>>,
}

impl Builder for HeaderBuilder {
    closed spec fn interface(&self) -> Seq<char> {
        self.name@
    }

    closed spec fn text(&self) -> Seq<char> {
        self.buffer@
    }

    open spec fn emit(interface: Seq<char>, decl: Decl) -> Seq<char> {
        header_emit(decl)
    }

    open spec fn erases() -> bool {
        true
    }

    fn define_tagged_type_impl(
        &mut self,
        name: &str,
        base: Type,
        tag: &str,
        iv: Option<&str>,
    ) -> (res: Type) {
        self.buffer.append("\n            using ");
        self.buffer.append(name);
        self.buffer.append(" = detail::tagged_t<this_type, ");
        base.write_to(&mut self.buffer);
        self.buffer.append(", detail::tag_name(\"");
        self.buffer.append(tag);
        self.buffer.append("\")");
        match iv {
            Some(literal) => {
                self.buffer.append(", detail::init_val(");
                self.buffer.append(literal);
                self.buffer.append(")");
            },
            None => {},
        }
        self.buffer.append(">;\n            \n");
        let ghost model = TaggedModel::new(name@, base@, tag@, option_view(iv));
        assert(self.buffer@ =~= old(self).buffer@ + alias_text(model));
        Type::Tagged(Rc::new(make_tagged_type(name, base, tag, iv)))
    }

    fn define_constant(&mut self, name: &str, ty: Type, val: &str) {
        self.buffer.append("\n            static constexpr auto ");
        self.buffer.append(name);
        self.buffer.append(" = ");
        ty.write_to(&mut self.buffer);
        self.buffer.append("(");
        self.buffer.append(val);
        self.buffer.append(");\n            \n");
        assert(self.buffer@ =~= old(self).buffer@ + constant_text(name@, ty@, val@));
    }

    fn define_function(&mut self, name: &str, return_type: Type, args: &[Type]) {
        let ghost models = type_models(args@);
        proof {
            lemma_type_models(args@);
        }
        let mut native_args: Vec<String> = Vec::new();
        let mut arguments: Vec<String> = Vec::new();
        let mut params: Vec<String> = Vec::new();
        let mut i: usize = 0;
        while i < args.len()
            invariant
                i <= args.len(),
                models.len() == args.len(),
                forall|j: int| 0 <= j < args.len() ==> (#[trigger] models[j]) == args[j]@,
                all_erasable(args@),
                native_args.len() == i,
                arguments.len() == i,
                params.len() == i,
                forall|j: int|
                    0 <= j < i ==> (#[trigger] native_args[j])@ == models[j].erased().text(),
                forall|j: int| 0 <= j < i ==> (#[trigger] arguments[j])@ == parameter(models[j], j),
                forall|j: int| 0 <= j < i ==> (#[trigger] params[j])@ == unwrapped(j),
            decreases args.len() - i,
        {
            assert(args@[i as int]@.erasable());
            let native = args[i].into_native();
            native_args.push(native.to_string());
            let mut argument = args[i].to_string();
            argument.append(" param");
            push_decimal(&mut argument, i);
            arguments.push(argument);
            let mut param = String::from_str("detail::unwrap(param");
            push_decimal(&mut param, i);
            param.append(")");
            params.push(param);
            i += 1;
        }
        assert(views(native_args@) =~= native_texts(models));
        assert(views(arguments@) =~= parameters(models));
        assert(views(params@) =~= unwrapped_parameters(models.len()));
        proof {
            reveal_strlit(", ");
            reveal_strlit(",");
        }
        let native_args = join(&native_args, ", ");
        let arguments = join(&arguments, ", ");
        let params = join(&params, ",");
        let return_native = return_type.into_native();

        self.buffer.append("\n            private:\n");
        self.buffer.append("            static void* ");
        self.buffer.append(name);
        self.buffer.append("_ptr;\n\n");
        self.buffer.append("            public:\n");
        self.buffer.append("            static inline auto ");
        self.buffer.append(name);
        self.buffer.append("(");
        self.buffer.append(arguments.as_str());
        self.buffer.append(") {\n");
        self.buffer.append("                using Fn = ");
        return_native.write_to(&mut self.buffer);
        self.buffer.append(" (*)(");
        self.buffer.append(native_args.as_str());
        self.buffer.append(");\n");
        self.buffer.append("                return detail::wrap<");
        return_type.write_to(&mut self.buffer);
        self.buffer.append(">(\n");
        self.buffer.append("                    reinterpret_cast<Fn>(");
        self.buffer.append(name);
        self.buffer.append("_ptr)(");
        self.buffer.append(params.as_str());
        self.buffer.append("));\n");
        self.buffer.append("            }\n            \n");
        assert(self.buffer@ =~= old(self).buffer@ + function_text(name@, return_type@, models));
    }

    fn define_fields(&mut self, rec: Type, fields: &[(&str, Type, usize)]) {
        let ghost models = field_models(fields@);
        proof {
            lemma_field_models(fields@);
        }
        let mut i: usize = 0;
        while i < fields.len()
            invariant
                i <= fields.len(),
                models.len() == fields.len(),
                forall|j: int|
                    0 <= j < fields.len() ==> (#[trigger] models[j]) == field_model(fields[j]),
                self.name == old(self).name,
                self.buffer@ == old(self).buffer@ + fields_text(rec@, models.take(i as int)),
            decreases fields.len() - i,
        {
            let field = &fields[i];
            write_accessors(&mut self.buffer, &rec, field.0, &field.1, field.2);
            assert(models.take(i + 1).drop_last() =~= models.take(i as int));
            i += 1;
        }
        assert(models.take(fields.len() as int) =~= models);
    }
}

impl HeaderBuilder {
    /// A header for the interface `name`, holding its prologue and no declaration yet.
    pub fn new(name: &str) -> (res: Self)
        ensures
            res.interface() == name@,
            res.text() == prologue(name@),
    {
        let mut b = HeaderBuilder { buffer: String::new(), name: Ghost(name@) };
        b.begin(name);
        b
    }

    fn begin(&mut self, name: &str)
        ensures
            final(self).name == old(self).name,
            final(self).buffer@ == old(self).buffer@ + prologue(name@),
    {
        self.buffer.append("\n            #pragma once\n\n");
        self.buffer.append("            #include <cstdint>\n");
        self.buffer.append("            #include <cstdlib>\n");
        self.buffer.append("            #include <memory>\n");
        self.buffer.append("            #include <string>\n");
        self.buffer.append("            #include <error.hpp>\n");
        self.buffer.append("            #include <interfaces.hpp>\n\n");
        self.buffer.append("            CHARM_SYCL_BEGIN_NAMESPACE\n\n");
        self.buffer.append("            namespace runtime {\n");
        assert(self.buffer@ =~= old(self).buffer@ + preamble());
        self.buffer.append("            struct ");
        self.buffer.append(name);
        self.buffer.append(" {\n");
        self.buffer.append("                using this_type = ");
        self.buffer.append(name);
        self.buffer.append(";\n\n");
        self.buffer.append("                static error::result<void> init();\n");
        self.buffer.append("                static void close();\n");
        self.buffer.append("                static void clear();\n");
        self.buffer.append("                static std::string version_str();\n\n");
        self.buffer.append("                private:\n");
        self.buffer.append("                struct impl;\n");
        self.buffer.append("                static std::unique_ptr<impl> pimpl_;\n\n");
        assert(self.buffer@ =~= old(self).buffer@ + preamble() + interface_head(name@));
        self.buffer.append("                template <size_t Offset, class R, class T>\n");
        self.buffer.append("                [[maybe_unused]]\n");
        self.buffer.append("                static inline void set_(R& record, T val) {\n");
        self.buffer.append("                    *reinterpret_cast<T*>(reinterpret_cast<std::byte*>(record.address()) + Offset) = val;\n");
        self.buffer.append("                }\n\n");
        self.buffer.append("                template <size_t Offset, class T, class R>\n");
        self.buffer.append("                [[maybe_unused]]\n");
        self.buffer.append("                static inline auto get_(R const& record) {\n");
        self.buffer.append("                    return *reinterpret_cast<T const*>(reinterpret_cast<std::byte const*>(record.address()) + Offset);\n");
        self.buffer.append("                }\n");
        self.buffer.append("                public:\n            \n");
        assert(self.buffer@ =~= old(self).buffer@ + prologue(name@));
    }

    /// Closes the interface and hands out the header.
    pub fn finish(self) -> (res: String)
        ensures
            res@ == self.text() + epilogue(),
    {
        let mut buffer = self.buffer;
        buffer.append("\n            };\n\n");
        buffer.append("            }\n\n");
        buffer.append("            CHARM_SYCL_END_NAMESPACE\n            \n");
        assert(buffer@ =~= self.buffer@ + epilogue());
        buffer
    }
}

} // verus!
