//! Laws of synthesis and rendering that relate several functions.
use vstd::prelude::*;
use vstd::seq_lib::lemma_multiset_commutative;
use crate::attr::{FieldDefinition, GenericParam};
use crate::field::field_error;
use crate::record::{record_dependencies, record_lines};
use crate::render::{flattened_text, inline_text};
use crate::text::pad;

verus! {

/// The body of a record without fields is an empty line between braces: an
/// opening brace, two line breaks, the indentation and the closing brace.
pub proof fn lemma_empty_record_body(
    names: Seq<String>,
    generics: &Vec<GenericParam>,
    indent: nat,
    texts: Seq<String>,
)
    ensures
        record_lines(Seq::<FieldDefinition>::empty(), names, generics).len() == 0,
        flattened_text(
            record_lines(Seq::<FieldDefinition>::empty(), names, generics),
            indent,
            texts,
        ).len() == 0,
        inline_text(record_lines(Seq::<FieldDefinition>::empty(), names, generics), indent, texts)
            == seq!['{', '\n', '\n'] + pad(indent) + seq!['}'],
{
    reveal_strlit("{\n");
    reveal_strlit("\n");
    reveal_strlit("}");
    assert(inline_text(
        record_lines(Seq::<FieldDefinition>::empty(), names, generics),
        indent,
        texts,
    ) =~= seq!['{', '\n', '\n'] + pad(indent) + seq!['}']);
}

/// Entries and dependencies follow the order of the fields: what a sequence
/// of fields gives is what its front part gives, followed by what its back
/// part gives. Moving a field therefore moves its entry and its contribution,
/// and changes neither.
pub proof fn lemma_field_order_is_kept(
    front: Seq<FieldDefinition>,
    back: Seq<FieldDefinition>,
    front_names: Seq<String>,
    back_names: Seq<String>,
    generics: &Vec<GenericParam>,
)
    requires
        front_names.len() == front.len(),
        back_names.len() == back.len(),
    ensures
        record_lines(front + back, front_names + back_names, generics) == record_lines(
            front,
            front_names,
            generics,
        ) + record_lines(back, back_names, generics),
        record_dependencies(front + back, generics) == record_dependencies(front, generics)
            + record_dependencies(back, generics),
    decreases back.len(),
{
    if back.len() == 0 {
        assert(front + back =~= front);
        assert(front_names + back_names =~= front_names);
        assert(record_lines(front, front_names, generics) + record_lines(
            back,
            back_names,
            generics,
        ) =~= record_lines(front, front_names, generics));
        assert(record_dependencies(front, generics) + record_dependencies(back, generics)
            =~= record_dependencies(front, generics));
    } else {
        lemma_field_order_is_kept(
            front,
            back.drop_last(),
            front_names,
            back_names.drop_last(),
            generics,
        );
        assert((front + back).drop_last() =~= front + back.drop_last());
        assert((front_names + back_names).drop_last() =~= front_names + back_names.drop_last());
        assert((front + back).last() == back.last());
        assert((front_names + back_names).last() == back_names.last());
        assert(record_lines(front + back, front_names + back_names, generics) =~= record_lines(
            front,
            front_names,
            generics,
        ) + record_lines(back, back_names, generics));
        assert(record_dependencies(front + back, generics) =~= record_dependencies(
            front,
            generics,
        ) + record_dependencies(back, generics));
    }
}

/// Reordering the fields reorders the entries and the contributions, and
/// does nothing else: with two runs of fields exchanged, the record gives the
/// same entries and the same contributions, each as often as before.
pub proof fn lemma_reordering_only_reorders(
    front: Seq<FieldDefinition>,
    back: Seq<FieldDefinition>,
    front_names: Seq<String>,
    back_names: Seq<String>,
    generics: &Vec<GenericParam>,
)
    requires
        front_names.len() == front.len(),
        back_names.len() == back.len(),
    ensures
        record_lines(front + back, front_names + back_names, generics).to_multiset()
            == record_lines(back + front, back_names + front_names, generics).to_multiset(),
        record_dependencies(front + back, generics).to_multiset() == record_dependencies(
            back + front,
            generics,
        ).to_multiset(),
{
    lemma_field_order_is_kept(front, back, front_names, back_names, generics);
    lemma_field_order_is_kept(back, front, back_names, front_names, generics);
    let lines_front = record_lines(front, front_names, generics);
    let lines_back = record_lines(back, back_names, generics);
    lemma_multiset_commutative(lines_front, lines_back);
    lemma_multiset_commutative(lines_back, lines_front);
    let deps_front = record_dependencies(front, generics);
    let deps_back = record_dependencies(back, generics);
    lemma_multiset_commutative(deps_front, deps_back);
    lemma_multiset_commutative(deps_back, deps_front);
    assert(lines_front.to_multiset().add(lines_back.to_multiset()) =~= lines_back.to_multiset().add(
        lines_front.to_multiset(),
    ));
    assert(deps_front.to_multiset().add(deps_back.to_multiset()) =~= deps_back.to_multiset().add(
        deps_front.to_multiset(),
    ));
}

/// A skipped field leaves no trace: it is never in error, and the record with
/// it, wherever it stands, gives the entries and the dependencies of the
/// record without it.
pub proof fn lemma_skipped_field_leaves_no_trace(
    front: Seq<FieldDefinition>,
    back: Seq<FieldDefinition>,
    front_names: Seq<String>,
    back_names: Seq<String>,
    field: FieldDefinition,
    name: String,
    generics: &Vec<GenericParam>,
)
    requires
        field.attrs.skip,
        front_names.len() == front.len(),
        back_names.len() == back.len(),
    ensures
        field_error(field) is None,
        record_lines(front.push(field) + back, front_names.push(name) + back_names, generics)
            == record_lines(front + back, front_names + back_names, generics),
        record_dependencies(front.push(field) + back, generics) == record_dependencies(
            front + back,
            generics,
        ),
{
    lemma_field_order_is_kept(
        front.push(field),
        back,
        front_names.push(name),
        back_names,
        generics,
    );
    lemma_field_order_is_kept(front, back, front_names, back_names, generics);
    assert(front.push(field).drop_last() =~= front);
    assert(front_names.push(name).drop_last() =~= front_names);
    assert(record_lines(front.push(field), front_names.push(name), generics) =~= record_lines(
        front,
        front_names,
        generics,
    ));
    assert(record_dependencies(front.push(field), generics) =~= record_dependencies(
        front,
        generics,
    ));
}

} // verus!
