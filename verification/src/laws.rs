//! What holds of the three artifacts together, whatever is declared.

use vstd::prelude::*;
use crate::builder::{emit_all, function_names, lemma_emit_all_concat, Decl, FieldModel};
use crate::header::{
    accessors_text, alias_closing, alias_opening, alias_text, fields_text, header_emit,
    native_texts, parameters, HeaderBuilder,
};
use crate::reset::{
    clearing_statements, lemma_reset_text, release_statement, reset_emit, reset_opening,
    reset_text,
};
use crate::storage::{lemma_storage_text, slot_definitions, storage_emit, storage_text};
use crate::text::joined;
use crate::types::{TaggedModel, TypeModel};

verus! {

/// The names of `names` without repetition: each name once, at the place
/// where it comes first.
pub open spec fn first_occurrences(names: Seq<Seq<char>>) -> Seq<Seq<char>>
    decreases names.len(),
{
    if names.len() == 0 {
        Seq::empty()
    } else if names.drop_last().contains(names.last()) {
        first_occurrences(names.drop_last())
    } else {
        first_occurrences(names.drop_last()).push(names.last())
    }
}

proof fn lemma_first_occurrences_of_distinct(names: Seq<Seq<char>>)
    requires
        names.no_duplicates(),
    ensures
        first_occurrences(names) == names,
    decreases names.len(),
{
    if names.len() > 0 {
        let front = names.drop_last();
        lemma_first_occurrences_of_distinct(front);
        if front.contains(names.last()) {
            let i = choose|i: int| 0 <= i < front.len() && front[i] == names.last();
            assert(names[i] == names[names.len() - 1]);
        }
        assert(front.push(names.last()) =~= names);
    }
}

/// Where no function is declared twice, the storage holds exactly one slot
/// definition for each distinct function name, in the order in which the
/// names are first declared, and the reset routine holds exactly one
/// clearing statement for each of them, in the same order, followed by
/// exactly one release statement.
pub proof fn lemma_one_slot_and_one_clearing_statement_per_function(
    interface: Seq<char>,
    decls: Seq<Decl>,
)
    requires
        function_names(decls).no_duplicates(),
    ensures
        storage_text(interface, decls) == slot_definitions(
            interface,
            first_occurrences(function_names(decls)),
        ),
        reset_text(interface, decls) == reset_opening(interface) + clearing_statements(
            first_occurrences(function_names(decls)),
        ) + release_statement(),
{
    lemma_storage_text(interface, decls);
    lemma_reset_text(interface, decls);
    lemma_first_occurrences_of_distinct(function_names(decls));
}

/// Two types that are the same but for the sentinels of the tagged types in
/// them.
pub open spec fn differ_in_sentinels_only(a: TypeModel, b: TypeModel) -> bool
    decreases a,
{
    match (a, b) {
        (TypeModel::Tagged(x), TypeModel::Tagged(y)) => x.name == y.name && x.base == y.base
            && x.tag == y.tag,
        (TypeModel::NativeTagged(x), TypeModel::NativeTagged(y)) => x.name == y.name && x.base
            == y.base && x.tag == y.tag,
        (TypeModel::Pointer(x), TypeModel::Pointer(y)) => differ_in_sentinels_only(*x, *y),
        (TypeModel::Const(x), TypeModel::Const(y)) => differ_in_sentinels_only(*x, *y),
        _ => a == b,
    }
}

/// Two sequences of types that are the same but for sentinels, place by place.
pub open spec fn all_differ_in_sentinels_only(a: Seq<TypeModel>, b: Seq<TypeModel>) -> bool {
    &&& a.len() == b.len()
    &&& forall|i: int| 0 <= i < a.len() ==> differ_in_sentinels_only(#[trigger] a[i], b[i])
}

/// Two sequences of fields that are the same but for the sentinels in the
/// types of the fields.
pub open spec fn fields_differ_in_sentinels_only(a: Seq<FieldModel>, b: Seq<FieldModel>) -> bool {
    &&& a.len() == b.len()
    &&& forall|i: int|
        0 <= i < a.len() ==> (#[trigger] a[i]).name == b[i].name && a[i].offset == b[i].offset
            && differ_in_sentinels_only(a[i].ty, b[i].ty)
}

/// Two declarations of a constant, of a function or of the fields of a
/// record that are the same but for the sentinels of the tagged types that
/// they mention.
pub open spec fn uses_differ_in_sentinels_only(a: Decl, b: Decl) -> bool {
    match (a, b) {
        (
            Decl::Constant { name: n1, ty: t1, literal: l1 },
            Decl::Constant { name: n2, ty: t2, literal: l2 },
        ) => n1 == n2 && differ_in_sentinels_only(t1, t2) && l1 == l2,
        (
            Decl::Function { name: n1, ret: r1, args: a1 },
            Decl::Function { name: n2, ret: r2, args: a2 },
        ) => n1 == n2 && differ_in_sentinels_only(r1, r2) && all_differ_in_sentinels_only(a1, a2),
        (
            Decl::Fields { record: r1, fields: f1 },
            Decl::Fields { record: r2, fields: f2 },
        ) => differ_in_sentinels_only(r1, r2) && fields_differ_in_sentinels_only(f1, f2),
        _ => false,
    }
}

/// A sentinel shows in no rendering of a type: two types that differ in
/// sentinels only have the same text, can be erased alike, and have native
/// forms of the same text.
pub proof fn lemma_sentinel_not_in_types(a: TypeModel, b: TypeModel)
    requires
        differ_in_sentinels_only(a, b),
    ensures
        a.text() == b.text(),
        a.erasable() == b.erasable(),
        a.erased().text() == b.erased().text(),
    decreases a,
{
    match (a, b) {
        (TypeModel::Pointer(x), TypeModel::Pointer(y)) => {
            lemma_sentinel_not_in_types(*x, *y);
        },
        (TypeModel::Const(x), TypeModel::Const(y)) => {
            lemma_sentinel_not_in_types(*x, *y);
        },
        _ => {},
    }
}

proof fn lemma_sentinel_not_in_fields(
    r1: TypeModel,
    f1: Seq<FieldModel>,
    r2: TypeModel,
    f2: Seq<FieldModel>,
)
    requires
        differ_in_sentinels_only(r1, r2),
        fields_differ_in_sentinels_only(f1, f2),
    ensures
        fields_text(r1, f1) == fields_text(r2, f2),
    decreases f1.len(),
{
    if f1.len() > 0 {
        lemma_sentinel_not_in_fields(r1, f1.drop_last(), r2, f2.drop_last());
        lemma_sentinel_not_in_types(r1, r2);
        lemma_sentinel_not_in_types(f1.last().ty, f2.last().ty);
    }
}

/// A tagged type with a sentinel and one without differ only in the
/// sentinel argument of the alias in the header. The storage and the reset
/// routine say nothing for either, and the two types differ in the sentinel
/// only, so that they render to the same text, erased or not.
pub proof fn lemma_sentinel_only_adds_its_argument(
    interface: Seq<char>,
    name: Seq<char>,
    base: TypeModel,
    tag: Seq<char>,
    literal: Seq<char>,
)
    ensures
        alias_text(TaggedModel::new(name, base, tag, Some(literal))) == alias_opening(
            name,
            base,
            tag,
        ) + ", detail::init_val("@ + literal + ")"@ + alias_closing(),
        alias_text(TaggedModel::new(name, base, tag, None)) == alias_opening(name, base, tag)
            + alias_closing(),
        storage_emit(interface, Decl::TaggedType(TaggedModel::new(name, base, tag, Some(literal))))
            == storage_emit(interface, Decl::TaggedType(TaggedModel::new(name, base, tag, None))),
        reset_emit(Decl::TaggedType(TaggedModel::new(name, base, tag, Some(literal))))
            == reset_emit(Decl::TaggedType(TaggedModel::new(name, base, tag, None))),
        differ_in_sentinels_only(
            TypeModel::tagged_with_sentinel(name, base, tag, literal),
            TypeModel::tagged(name, base, tag),
        ),
        TypeModel::tagged_with_sentinel(name, base, tag, literal).text() == TypeModel::tagged(
            name,
            base,
            tag,
        ).text(),
        TypeModel::tagged_with_sentinel(name, base, tag, literal).erased().text()
            == TypeModel::tagged(name, base, tag).erased().text(),
{
    assert(alias_text(TaggedModel::new(name, base, tag, Some(literal))) =~= alias_opening(
        name,
        base,
        tag,
    ) + ", detail::init_val("@ + literal + ")"@ + alias_closing());
    assert(alias_text(TaggedModel::new(name, base, tag, None)) =~= alias_opening(name, base, tag)
        + alias_closing());
}

/// A declaration that uses tagged types renders the same, in all three
/// artifacts, whether those types have sentinels or not.
pub proof fn lemma_sentinel_not_in_later_declarations(
    interface: Seq<char>,
    with: Decl,
    without: Decl,
)
    requires
        uses_differ_in_sentinels_only(with, without),
    ensures
        header_emit(with) == header_emit(without),
        storage_emit(interface, with) == storage_emit(interface, without),
        reset_emit(with) == reset_emit(without),
{
    match (with, without) {
        (
            Decl::Constant { name: n1, ty: t1, literal: l1 },
            Decl::Constant { name: n2, ty: t2, literal: l2 },
        ) => {
            lemma_sentinel_not_in_types(t1, t2);
        },
        (
            Decl::Function { name: n1, ret: r1, args: a1 },
            Decl::Function { name: n2, ret: r2, args: a2 },
        ) => {
            lemma_sentinel_not_in_types(r1, r2);
            assert forall|i: int| 0 <= i < a1.len() implies a1[i].text() == a2[i].text()
                && a1[i].erased().text() == a2[i].erased().text() by {
                lemma_sentinel_not_in_types(a1[i], a2[i]);
            }
            assert(parameters(a1) =~= parameters(a2));
            assert(native_texts(a1) =~= native_texts(a2));
        },
        (
            Decl::Fields { record: r1, fields: f1 },
            Decl::Fields { record: r2, fields: f2 },
        ) => {
            lemma_sentinel_not_in_fields(r1, f1, r2, f2);
        },
        _ => {},
    }
}

/// The fields of a record give exactly one pair of a mutator and an
/// accessor each, in order, and each pair names the offset and the type of
/// its own field. What is declared before and after the fields has no part
/// in it.
pub proof fn lemma_one_pair_of_accessors_per_field(
    interface: Seq<char>,
    before: Seq<Decl>,
    record: TypeModel,
    fields: Seq<FieldModel>,
    after: Seq<Decl>,
)
    ensures
        fields_text(record, fields) == joined(
            Seq::new(fields.len(), |i: int| accessors_text(record, fields[i])),
            Seq::empty(),
        ),
        emit_all::<HeaderBuilder>(interface, before + seq![Decl::Fields { record, fields }] + after)
            == emit_all::<HeaderBuilder>(interface, before) + fields_text(record, fields)
            + emit_all::<HeaderBuilder>(interface, after),
{
    lemma_fields_joined(record, fields);
    let decl = Decl::Fields { record, fields };
    lemma_emit_all_concat::<HeaderBuilder>(interface, before, seq![decl]);
    lemma_emit_all_concat::<HeaderBuilder>(interface, before + seq![decl], after);
    assert(seq![decl].drop_last() =~= Seq::<Decl>::empty());
    assert(emit_all::<HeaderBuilder>(interface, seq![decl]) =~= fields_text(record, fields)) by {
        reveal_with_fuel(emit_all, 2);
    }
}

proof fn lemma_fields_joined(record: TypeModel, fields: Seq<FieldModel>)
    ensures
        fields_text(record, fields) == joined(
            Seq::new(fields.len(), |i: int| accessors_text(record, fields[i])),
            Seq::empty(),
        ),
    decreases fields.len(),
{
    let pairs = Seq::new(fields.len(), |i: int| accessors_text(record, fields[i]));
    if fields.len() == 1 {
        assert(fields_text(record, fields.drop_last()) =~= Seq::<char>::empty());
        assert(fields_text(record, fields) =~= pairs[0]);
    } else if fields.len() > 1 {
        let front = fields.drop_last();
        lemma_fields_joined(record, front);
        assert(pairs.drop_last() =~= Seq::new(
            front.len(),
            |i: int| accessors_text(record, front[i]),
        ));
        assert(fields_text(record, fields) =~= joined(pairs, Seq::empty()));
    }
}

} // verus!
