//! The reset emitter: the routine that clears every backing slot and then
//! releases the implementation handle.

use std::rc::Rc;
use vstd::prelude::*;
use vstd::string::StringExecFns;
use crate::builder::{emit_all, function_names, Builder, Decl};
use crate::types::{make_tagged_type, Type};

verus! {

/// The head of the reset routine of the interface `interface`.
pub open spec fn reset_opening(interface: Seq<char>) -> Seq<char> {
    "void "@ + interface + "::clear() {\n"@
}

/// The statement that clears the slot of the function `name`.
pub open spec fn clearing_statement(name: Seq<char>) -> Seq<char> {
    name + "_ptr = nullptr;\n"@
}

/// The statement that releases the implementation handle, with the end of
/// the routine.
pub open spec fn release_statement() -> Seq<char> {
    "pimpl_.reset();}\n"@
}

/// The statements that clear the slots of the functions `names`, one for
/// each name, in order.
pub open spec fn clearing_statements(names: Seq<Seq<char>>) -> Seq<char>
    decreases names.len(),
{
    if names.len() == 0 {
        Seq::empty()
    } else {
        clearing_statements(names.drop_last()) + clearing_statement(names.last())
    }
}

/// What the reset routine says for one declaration: a clearing statement for
/// a function, and nothing for anything else.
pub open spec fn reset_emit(decl: Decl) -> Seq<char> {
    match decl {
        Decl::Function { name, ret, args } => clearing_statement(name),
        _ => Seq::empty(),
    }
}

/// The whole reset routine of the interface `interface` for the declarations `decls`.
pub open spec fn reset_text(interface: Seq<char>, decls: Seq<Decl>) -> Seq<char> {
    reset_opening(interface) + emit_all::<ClearBuilder>(interface, decls) + release_statement()
}

proof fn lemma_reset_statements(interface: Seq<char>, decls: Seq<Decl>)
    ensures
        emit_all::<ClearBuilder>(interface, decls) == clearing_statements(function_names(decls)),
    decreases decls.len(),
{
    if decls.len() > 0 {
        lemma_reset_statements(interface, decls.drop_last());
        let names = function_names(decls.drop_last());
        match decls.last() {
            Decl::Function { name, ret, args } => {
                assert(names.push(name).drop_last() =~= names);
            },
            _ => {
                assert(emit_all::<ClearBuilder>(interface, decls) =~= emit_all::<ClearBuilder>(
                    interface,
                    decls.drop_last(),
                ));
            },
        }
    }
}

/// The reset routine holds, after its head, one clearing statement for each
/// declaration of a function, in the order of the declarations, then the
/// one statement that releases the implementation handle, and nothing else.
pub proof fn lemma_reset_text(interface: Seq<char>, decls: Seq<Decl>)
    ensures
        reset_text(interface, decls) == reset_opening(interface) + clearing_statements(
            function_names(decls),
        ) + release_statement(),
{
    lemma_reset_statements(interface, decls);
}

/// Emits the reset routine of one interface.
pub struct ClearBuilder {
    name: String,
    buffer: String,
}

impl Builder for ClearBuilder {
    closed spec fn interface(&self) -> Seq<char> {
        self.name@
    }

    closed spec fn text(&self) -> Seq<char> {
        self.buffer@
    }

    open spec fn emit(interface: Seq<char>, decl: Decl) -> Seq<char> {
        reset_emit(decl)
    }

    open spec fn erases() -> bool {
        false
    }

    fn define_tagged_type_impl(
        &mut self,
        name: &str,
        base: Type,
        tag: &str,
        iv: Option<&str>,
    ) -> (res: Type) {
        assert(self.buffer@ =~= old(self).buffer@ + Seq::<char>::empty());
        Type::Tagged(Rc::new(make_tagged_type(name, base, tag, iv)))
    }

    fn define_constant(&mut self, _name: &str, _ty: Type, _val: &str) {
        assert(self.buffer@ =~= old(self).buffer@ + Seq::<char>::empty());
    }

    fn define_fields(&mut self, _rec: Type, _fields: &[(&str, Type, usize)]) {
        assert(self.buffer@ =~= old(self).buffer@ + Seq::<char>::empty());
    }

    fn define_function(&mut self, name: &str, _return_type: Type, _args: &[Type]) {
        self.buffer.append(name);
        self.buffer.append("_ptr = nullptr;\n");
        assert(self.buffer@ =~= old(self).buffer@ + clearing_statement(name@));
    }
}

impl ClearBuilder {
    /// The reset routine of the interface `name`, opened, with no statement yet.
    pub fn new(name: &str) -> (res: Self)
        ensures
            res.interface() == name@,
            res.text() == reset_opening(name@),
    {
        let mut b = ClearBuilder { name: String::from_str(name), buffer: String::new() };
        b.begin();
        b
    }

    /// Releases the implementation handle, closes the routine and hands it out.
    pub fn finish(self) -> (res: String)
        ensures
            res@ == self.text() + release_statement(),
    {
        let mut b = self;
        b.end();
        b.buffer
    }

    fn begin(&mut self)
        ensures
            final(self).name == old(self).name,
            final(self).buffer@ == old(self).buffer@ + reset_opening(old(self).name@),
    {
        self.buffer.append("void ");
        self.buffer.append(self.name.as_str());
        self.buffer.append("::clear() {\n");
        assert(self.buffer@ =~= old(self).buffer@ + reset_opening(self.name@));
    }

    fn end(&mut self)
        ensures
            final(self).name == old(self).name,
            final(self).buffer@ == old(self).buffer@ + release_statement(),
    {
        self.buffer.append("pimpl_.reset();}\n");
    }
}

} // verus!
