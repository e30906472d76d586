//! The storage emitter: the definition of the backing slot of each function.

use std::rc::Rc;
use vstd::prelude::*;
use vstd::string::StringExecFns;
use crate::builder::{emit_all, function_names, Builder, Decl};
use crate::types::{make_tagged_type, Type};

verus! {

/// The definition of the slot of the function `name` of the interface
/// `interface`, unset.
pub open spec fn slot_definition(interface: Seq<char>, name: Seq<char>) -> Seq<char> {
    "void* "@ + interface + "::"@ + name + "_ptr = nullptr;\n"@
}

/// What the storage says for one declaration: a slot for a function, and
/// nothing for anything else.
pub open spec fn storage_emit(interface: Seq<char>, decl: Decl) -> Seq<char> {
    match decl {
        Decl::Function { name, ret, args } => slot_definition(interface, name),
        _ => Seq::empty(),
    }
}

/// The definitions of the slots of the functions `names` of the interface
/// `interface`, one for each name, in order.
pub open spec fn slot_definitions(interface: Seq<char>, names: Seq<Seq<char>>) -> Seq<char>
    decreases names.len(),
{
    if names.len() == 0 {
        Seq::empty()
    } else {
        slot_definitions(interface, names.drop_last()) + slot_definition(interface, names.last())
    }
}

/// The whole storage of the interface `interface` for the declarations `decls`.
pub open spec fn storage_text(interface: Seq<char>, decls: Seq<Decl>) -> Seq<char> {
    emit_all::<VarsBuilder>(interface, decls)
}

/// The storage holds one slot definition for each declaration of a function,
/// in the order of the declarations, and nothing else.
pub proof fn lemma_storage_text(interface: Seq<char>, decls: Seq<Decl>)
    ensures
        storage_text(interface, decls) == slot_definitions(interface, function_names(decls)),
    decreases decls.len(),
{
    if decls.len() > 0 {
        lemma_storage_text(interface, decls.drop_last());
        let names = function_names(decls.drop_last());
        match decls.last() {
            Decl::Function { name, ret, args } => {
                assert(names.push(name).drop_last() =~= names);
            },
            _ => {
                assert(storage_text(interface, decls) =~= storage_text(
                    interface,
                    decls.drop_last(),
                ));
            },
        }
    }
}

/// Emits the backing slots of one interface.
pub struct VarsBuilder {
    name: String,
    buffer: String,
}

impl Builder for VarsBuilder {
    closed spec fn interface(&self) -> Seq<char> {
        self.name@
    }

    closed spec fn text(&self) -> Seq<char> {
        self.buffer@
    }

    open spec fn emit(interface: Seq<char>, decl: Decl) -> Seq<char> {
        storage_emit(interface, decl)
    }

    open spec fn erases() -> bool {
        false
    }

    fn define_tagged_type_impl(
        &mut self,
        name: &str,
        base: Type,
        tag: &str,
        iv: Option<&str>,
    ) -> (res: Type) {
        assert(self.buffer@ =~= old(self).buffer@ + Seq::<char>::empty());
        Type::Tagged(Rc::new(make_tagged_type(name, base, tag, iv)))
    }

    fn define_constant(&mut self, _name: &str, _ty: Type, _val: &str) {
        assert(self.buffer@ =~= old(self).buffer@ + Seq::<char>::empty());
    }

    fn define_fields(&mut self, _rec: Type, _fields: &[(&str, Type, usize)]) {
        assert(self.buffer@ =~= old(self).buffer@ + Seq::<char>::empty());
    }

    fn define_function(&mut self, name: &str, _return_type: Type, _args: &[Type]) {
        self.buffer.append("void* ");
        self.buffer.append(self.name.as_str());
        self.buffer.append("::");
        self.buffer.append(name);
        self.buffer.append("_ptr = nullptr;\n");
        assert(self.buffer@ =~= old(self).buffer@ + slot_definition(self.name@, name@));
    }
}

impl VarsBuilder {
    /// The storage of the interface `name`, with no slot yet.
    pub fn new(name: &str) -> (res: Self)
        ensures
            res.interface() == name@,
            res.text() == Seq::<char>::empty(),
    {
        VarsBuilder { name: String::from_str(name), buffer: String::new() }
    }

    /// Hands out the slot definitions.
    pub fn finish(self) -> (res: String)
        ensures
            res@ == self.text(),
    {
        self.buffer
    }
}

} // verus!
