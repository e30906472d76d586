//! The type algebra: scalars, records, tagged wrappers, pointers and consts,
//! and the native forms that cross the raw call boundary.

use std::rc::Rc;
use vstd::pervasive::unreached;
use vstd::prelude::*;
use vstd::string::StringExecFns;
use crate::text::{decimal, option_view, push_decimal};

verus! {

/// Mathematical model of a record type: an opaque blob of fixed size and alignment.
pub struct RecordModel {
    pub size: nat,
    pub align: nat,
}

/// Mathematical model of a tagged type.
pub struct TaggedModel {
    pub name: Seq<char>,
    pub base: Box<TypeModel>,
    pub tag: Seq<char>,
    pub sentinel: Option<Seq<char>>,
}

/// Mathematical model of a type.
pub enum TypeModel {
    Char,
    Int8,
    Int16,
    Int32,
    Int64,
    UInt8,
    UInt16,
    UInt32,
    UInt64,
    USize,
    Void,
    Record(RecordModel),
    Tagged(TaggedModel),
    NativeRecord(RecordModel),
    NativeTagged(TaggedModel),
    Pointer(Box<TypeModel>),
    Const(Box<TypeModel>),
}

impl TaggedModel {
    /// The tagged type `name` over `base`, which mirrors the foreign type
    /// `tag` and has the invalid value `sentinel`, if any.
    pub open spec fn new(
        name: Seq<char>,
        base: TypeModel,
        tag: Seq<char>,
        sentinel: Option<Seq<char>>,
    ) -> TaggedModel {
        TaggedModel { name, base: Box::new(base), tag, sentinel }
    }
}

impl RecordModel {
    /// The blob-type expression that a record renders to.
    pub open spec fn text(self) -> Seq<char> {
        "detail::record_type<"@ + decimal(self.size) + ", "@ + decimal(self.align) + ">"@
    }
}

impl TypeModel {
    /// The source text that this type renders to.
    pub open spec fn text(self) -> Seq<char>
        decreases self,
    {
        match self {
            TypeModel::Char => "char"@,
            TypeModel::Int8 => "int8_t"@,
            TypeModel::Int16 => "int16_t"@,
            TypeModel::Int32 => "int32_t"@,
            TypeModel::Int64 => "int64_t"@,
            TypeModel::UInt8 => "uint8_t"@,
            TypeModel::UInt16 => "uint16_t"@,
            TypeModel::UInt32 => "uint32_t"@,
            TypeModel::UInt64 => "uint64_t"@,
            TypeModel::USize => "size_t"@,
            TypeModel::Void => "void"@,
            TypeModel::Record(r) => r.text(),
            TypeModel::Tagged(t) => t.name,
            TypeModel::NativeTagged(t) => "typename "@ + t.name + "::native"@,
            TypeModel::NativeRecord(_) => "void*"@,
            TypeModel::Pointer(inner) => inner.text() + "*"@,
            TypeModel::Const(inner) => inner.text() + " const"@,
        }
    }

    /// Whether erasure is defined on this type: no native form is reached
    /// when walking down through pointers and consts.
    pub open spec fn erasable(self) -> bool
        decreases self,
    {
        match self {
            TypeModel::NativeRecord(_) => false,
            TypeModel::NativeTagged(_) => false,
            TypeModel::Pointer(inner) => inner.erasable(),
            TypeModel::Const(inner) => inner.erasable(),
            _ => true,
        }
    }

    /// The native form of this type: the raw, binary-compatible type that
    /// crosses the call boundary in its place. Meaningful on erasable types.
    pub open spec fn erased(self) -> TypeModel
        decreases self,
    {
        match self {
            TypeModel::Tagged(t) => TypeModel::NativeTagged(t),
            TypeModel::Record(r) => TypeModel::NativeRecord(r),
            TypeModel::Pointer(inner) => TypeModel::Pointer(Box::new(inner.erased())),
            TypeModel::Const(inner) => TypeModel::Const(Box::new(inner.erased())),
            _ => self,
        }
    }

    /// The text of the native form of this type, written down directly:
    /// a tagged type gives the member type of its wrapper, a record gives a
    /// raw pointer, a pointer or a const wraps what its inner type gives,
    /// and a scalar stays as it is.
    pub open spec fn native_text(self) -> Seq<char>
        decreases self,
    {
        match self {
            TypeModel::Tagged(t) => "typename "@ + t.name + "::native"@,
            TypeModel::Record(_) => "void*"@,
            TypeModel::Pointer(inner) => inner.native_text() + "*"@,
            TypeModel::Const(inner) => inner.native_text() + " const"@,
            _ => self.text(),
        }
    }

    /// The record type of `size` bytes, aligned to `align` bytes.
    pub open spec fn record(size: nat, align: nat) -> TypeModel {
        TypeModel::Record(RecordModel { size, align })
    }

    /// The tagged type `name` over `base` that mirrors the foreign type `tag`.
    pub open spec fn tagged(name: Seq<char>, base: TypeModel, tag: Seq<char>) -> TypeModel {
        TypeModel::Tagged(TaggedModel::new(name, base, tag, None))
    }

    /// The tagged type `name` over `base` that mirrors the foreign type
    /// `tag`, with the invalid value `sentinel`.
    pub open spec fn tagged_with_sentinel(
        name: Seq<char>,
        base: TypeModel,
        tag: Seq<char>,
        sentinel: Seq<char>,
    ) -> TypeModel {
        TypeModel::Tagged(TaggedModel::new(name, base, tag, Some(sentinel)))
    }

    /// The enumeration `name` that mirrors the foreign type `tag`: a tagged
    /// type over the signed 32-bit integer.
    pub open spec fn enumeration(name: Seq<char>, tag: Seq<char>) -> TypeModel {
        TypeModel::tagged(name, TypeModel::Int32, tag)
    }

    /// The opaque pointer `name` that mirrors the foreign type `tag`: a
    /// tagged type over the pointer to void.
    pub open spec fn opaque_pointer(name: Seq<char>, tag: Seq<char>) -> TypeModel {
        TypeModel::tagged(name, TypeModel::voidp(), tag)
    }

    /// The pointer to this type.
    pub open spec fn pointer(self) -> TypeModel {
        TypeModel::Pointer(Box::new(self))
    }

    /// The const-qualified form of this type.
    pub open spec fn constant(self) -> TypeModel {
        TypeModel::Const(Box::new(self))
    }

    /// The pointer to the const-qualified form of this type.
    pub open spec fn const_pointer(self) -> TypeModel {
        self.constant().pointer()
    }

    /// Pointer to const char.
    pub open spec fn cstr() -> TypeModel {
        TypeModel::Char.const_pointer()
    }

    /// Pointer to void.
    pub open spec fn voidp() -> TypeModel {
        TypeModel::Void.pointer()
    }

    /// Pointer to const void.
    pub open spec fn voidcp() -> TypeModel {
        TypeModel::Void.const_pointer()
    }

    /// Pointer to pointer to void.
    pub open spec fn voidpp() -> TypeModel {
        TypeModel::Void.pointer().pointer()
    }
}

/// Erasing a type that has no native form in it, and rendering the result,
/// gives the text of its native form. Erasing a pointer gives the pointer to
/// the erasure of what it points to, and erasing a const gives the const of
/// the erasure of what it qualifies.
pub proof fn lemma_erasure(t: TypeModel)
    requires
        t.erasable(),
    ensures
        t.erased().text() == t.native_text(),
        t.pointer().erasable(),
        t.constant().erasable(),
        t.pointer().erased() == t.erased().pointer(),
        t.constant().erased() == t.erased().constant(),
    decreases t,
{
    match t {
        TypeModel::Pointer(inner) => {
            lemma_erasure(*inner);
        },
        TypeModel::Const(inner) => {
            lemma_erasure(*inner);
        },
        _ => {},
    }
}

/// `Rc::clone`: a second handle to the value that `rc` points to.
#[verifier::external_body]
fn share<T>(rc: &Rc<T>) -> (res: Rc<T>)
    ensures
        res == *rc,
{
    Rc::clone(rc)
}

/// A record type: an opaque blob of fixed size and alignment, whose fields
/// are reached by their byte offsets only.
#[derive(Debug)]
pub struct RecordType {
    size_byte: usize,
    align_byte: usize,
}

/// A tagged type: a named strong wrapper over a base type, which remembers
/// the foreign type that it mirrors and, where there is one, the literal
/// that stands for its invalid value.
#[derive(Debug)]
pub struct TaggedType {
    name: String,
    base: Type,
    tag: String,
    iv: Option<String>,
}

/// A type. Records and tagged types are shared by all the types and
/// declarations that mention them. The two native forms come out of erasure
/// only.
#[derive(Debug)]
pub enum Type {
    Char,
    Int8,
    Int16,
    Int32,
    Int64,
    UInt8,
    UInt16,
    UInt32,
    UInt64,
    USize,
    Void,
    Record(Rc<RecordType>),
    Tagged(Rc<TaggedType>),
    NativeR(Rc<RecordType>),
    NativeT(Rc<TaggedType>),
    Pointer(Rc<Type>),
    Const(Rc<Type>),
}

impl View for RecordType {
    type V = RecordModel;

    closed spec fn view(&self) -> RecordModel {
        RecordModel { size: self.size_byte as nat, align: self.align_byte as nat }
    }
}

impl TaggedType {
    /// The model of this tagged type.
    pub closed spec fn model(&self) -> TaggedModel
        decreases self,
    {
        TaggedModel {
            name: self.name@,
            base: Box::new(self.base.model()),
            tag: self.tag@,
            sentinel: match self.iv {
                Some(s) => Some(s@),
                None => None,
            },
        }
    }

    proof fn lemma_model(&self)
        ensures
            self.model().name == self.name@,
            self.model().base == self.base.model(),
            self.model().tag == self.tag@,
            self.model().sentinel == match self.iv {
                Some(s) => Some(s@),
                None => None,
            },
    {
    }
}

impl View for TaggedType {
    type V = TaggedModel;

    open spec fn view(&self) -> TaggedModel {
        self.model()
    }
}

impl Type {
    /// The model of this type.
    pub open spec fn model(&self) -> TypeModel
        decreases self,
    {
        match self {
            Type::Char => TypeModel::Char,
            Type::Int8 => TypeModel::Int8,
            Type::Int16 => TypeModel::Int16,
            Type::Int32 => TypeModel::Int32,
            Type::Int64 => TypeModel::Int64,
            Type::UInt8 => TypeModel::UInt8,
            Type::UInt16 => TypeModel::UInt16,
            Type::UInt32 => TypeModel::UInt32,
            Type::UInt64 => TypeModel::UInt64,
            Type::USize => TypeModel::USize,
            Type::Void => TypeModel::Void,
            Type::Record(r) => TypeModel::Record(r@),
            Type::Tagged(t) => TypeModel::Tagged(t.model()),
            Type::NativeR(r) => TypeModel::NativeRecord(r@),
            Type::NativeT(t) => TypeModel::NativeTagged(t.model()),
            Type::Pointer(inner) => TypeModel::Pointer(Box::new(inner.model())),
            Type::Const(inner) => TypeModel::Const(Box::new(inner.model())),
        }
    }
}

impl View for Type {
    type V = TypeModel;

    open spec fn view(&self) -> TypeModel {
        self.model()
    }
}

impl Clone for RecordType {
    fn clone(&self) -> (res: RecordType)
        ensures
            res == *self,
    {
        RecordType { size_byte: self.size_byte, align_byte: self.align_byte }
    }
}

impl Clone for TaggedType {
    fn clone(&self) -> (res: TaggedType)
        ensures
            res == *self,
    {
        TaggedType {
            name: self.name.clone(),
            base: self.base.clone(),
            tag: self.tag.clone(),
            iv: match &self.iv {
                Some(s) => Some(s.clone()),
                None => None,
            },
        }
    }
}

impl Clone for Type {
    fn clone(&self) -> (res: Type)
        ensures
            res == *self,
    {
        match self {
            Type::Char => Type::Char,
            Type::Int8 => Type::Int8,
            Type::Int16 => Type::Int16,
            Type::Int32 => Type::Int32,
            Type::Int64 => Type::Int64,
            Type::UInt8 => Type::UInt8,
            Type::UInt16 => Type::UInt16,
            Type::UInt32 => Type::UInt32,
            Type::UInt64 => Type::UInt64,
            Type::USize => Type::USize,
            Type::Void => Type::Void,
            Type::Record(r) => Type::Record(share(r)),
            Type::Tagged(t) => Type::Tagged(share(t)),
            Type::NativeR(r) => Type::NativeR(share(r)),
            Type::NativeT(t) => Type::NativeT(share(t)),
            Type::Pointer(inner) => Type::Pointer(share(inner)),
            Type::Const(inner) => Type::Const(share(inner)),
        }
    }
}

impl Type {
    /// Erases this type to its native form: a tagged type and a record go to
    /// their native forms, a pointer and a const erase what is inside them,
    /// and a scalar stays. A type that is erased already cannot be erased
    /// again.
    pub fn into_native(&self) -> (res: Type)
        requires
            self@.erasable(),
        ensures
            res@ == self@.erased(),
        decreases self,
    {
        match self {
            Type::Tagged(inner) => Type::NativeT(share(inner)),
            Type::Record(inner) => Type::NativeR(share(inner)),
            Type::NativeR(_) => unreached(),
            Type::NativeT(_) => unreached(),
            Type::Pointer(inner) => Type::Pointer(Rc::new(inner.into_native())),
            Type::Const(inner) => Type::Const(Rc::new(inner.into_native())),
            _ => self.clone(),
        }
    }

    /// Pointer to this type.
    pub fn p(&self) -> (res: Type)
        ensures
            res@ == self@.pointer(),
            res@.erasable() == self@.erasable(),
    {
        Type::Pointer(Rc::new(self.clone()))
    }

    /// This type, const-qualified.
    pub fn c(&self) -> (res: Type)
        ensures
            res@ == self@.constant(),
            res@.erasable() == self@.erasable(),
    {
        Type::Const(Rc::new(self.clone()))
    }

    /// Pointer to this type, const-qualified.
    pub fn cp(&self) -> (res: Type)
        ensures
            res@ == self@.const_pointer(),
            res@.erasable() == self@.erasable(),
    {
        self.c().p()
    }

    /// Pointer to const char.
    pub fn cstr() -> (res: Type)
        ensures
            res@ == TypeModel::cstr(),
            res@.erasable(),
    {
        Type::Char.c().p()
    }

    /// Pointer to void.
    pub fn voidp() -> (res: Type)
        ensures
            res@ == TypeModel::voidp(),
            res@.erasable(),
    {
        Type::Void.p()
    }

    /// Pointer to const void.
    pub fn voidcp() -> (res: Type)
        ensures
            res@ == TypeModel::voidcp(),
            res@.erasable(),
    {
        Type::Void.cp()
    }

    /// Pointer to pointer to void.
    pub fn voidpp() -> (res: Type)
        ensures
            res@ == TypeModel::voidpp(),
            res@.erasable(),
    {
        Type::Void.p().p()
    }

    /// Appends the source text of this type to `buf`.
    pub fn write_to(&self, buf: &mut String)
        ensures
            final(buf)@ == old(buf)@ + self@.text(),
        decreases self,
    {
        match self {
            Type::Char => buf.append("char"),
            Type::Int8 => buf.append("int8_t"),
            Type::Int16 => buf.append("int16_t"),
            Type::Int32 => buf.append("int32_t"),
            Type::Int64 => buf.append("int64_t"),
            Type::UInt8 => buf.append("uint8_t"),
            Type::UInt16 => buf.append("uint16_t"),
            Type::UInt32 => buf.append("uint32_t"),
            Type::UInt64 => buf.append("uint64_t"),
            Type::USize => buf.append("size_t"),
            Type::Void => buf.append("void"),
            Type::Record(r) => r.write_to(buf),
            Type::Tagged(t) => {
                proof {
                    t.lemma_model();
                }
                buf.append(t.name.as_str());
            },
            Type::NativeT(t) => {
                proof {
                    t.lemma_model();
                }
                buf.append("typename ");
                buf.append(t.name.as_str());
                buf.append("::native");
            },
            Type::NativeR(_) => buf.append("void*"),
            Type::Pointer(inner) => {
                inner.write_to(buf);
                buf.append("*");
            },
            Type::Const(inner) => {
                inner.write_to(buf);
                buf.append(" const");
            },
        }
        assert(buf@ =~= old(buf)@ + self@.text());
    }

    /// The source text of this type.
    pub fn to_string(&self) -> (res: String)
        ensures
            res@ == self@.text(),
    {
        let mut buf = String::new();
        self.write_to(&mut buf);
        assert(buf@ =~= self@.text());
        buf
    }
}

impl RecordType {
    /// The record type of `size_byte` bytes, aligned to `align_byte` bytes.
    pub fn new(size_byte: usize, align_byte: usize) -> (res: Type)
        ensures
            res@ == TypeModel::record(size_byte as nat, align_byte as nat),
            res@.erasable(),
    {
        Type::Record(Rc::new(RecordType { size_byte, align_byte }))
    }

    /// Appends the source text of this record type to `buf`.
    pub fn write_to(&self, buf: &mut String)
        ensures
            final(buf)@ == old(buf)@ + self@.text(),
    {
        buf.append("detail::record_type<");
        push_decimal(buf, self.size_byte);
        buf.append(", ");
        push_decimal(buf, self.align_byte);
        buf.append(">");
        assert(buf@ =~= old(buf)@ + self@.text());
    }

    /// The source text of this record type.
    pub fn to_string(&self) -> (res: String)
        ensures
            res@ == self@.text(),
    {
        let mut buf = String::new();
        self.write_to(&mut buf);
        assert(buf@ =~= self@.text());
        buf
    }
}

impl TaggedType {
    /// The source text of this tagged type: its name.
    pub fn to_string(&self) -> (res: String)
        ensures
            res@ == self@.name,
    {
        proof {
            self.lemma_model();
        }
        self.name.clone()
    }
}

/// Builds a tagged type. Every emitter goes through this one constructor, so
/// all of them agree on the name, the base, the foreign tag and the sentinel.
pub(crate) fn make_tagged_type(
    name: &str,
    base: Type,
    tag: &str,
    iv: Option<&str>,
) -> (res: TaggedType)
    ensures
        res@ == TaggedModel::new(name@, base@, tag@, option_view(iv)),
{
    let iv = match iv {
        Some(s) => Some(String::from_str(s)),
        None => None,
    };
    let res = TaggedType { name: String::from_str(name), base, tag: String::from_str(tag), iv };
    proof {
        res.lemma_model();
    }
    res
}

impl From<TaggedType> for Type {
    fn from(value: TaggedType) -> (res: Type) {
        Type::Tagged(Rc::new(value))
    }
}

impl vstd::std_specs::convert::FromSpecImpl<TaggedType> for Type {
    open spec fn obeys_from_spec() -> bool {
        true
    }

    open spec fn from_spec(value: TaggedType) -> Type {
        Type::Tagged(Rc::new(value))
    }
}

impl From<RecordType> for Type {
    fn from(value: RecordType) -> (res: Type) {
        Type::Record(Rc::new(value))
    }
}

impl vstd::std_specs::convert::FromSpecImpl<RecordType> for Type {
    open spec fn obeys_from_spec() -> bool {
        true
    }

    open spec fn from_spec(value: RecordType) -> Type {
        Type::Record(Rc::new(value))
    }
}

} // verus!
