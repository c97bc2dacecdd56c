//! Carrying live state over a reload.
//!
//! The bytes saved from the old generation are read against the new
//! generation's struct layout, field by field and by position. A field whose
//! bytes cannot be read keeps the value that the new generation started with,
//! and so does every field behind it: once a read fails, position no longer
//! says which bytes belong to which field. Bytes left over are ignored.

use vstd::prelude::*;
use crate::codec::{
    decode, encode, encode_all, lemma_decode_nothing, lemma_round_trip, read_value, readable,
    readable_all, strings_fit, strings_fit_all,
};
use crate::value::{
    conforms, conforms_all, field_type_views, lemma_field_type_views, lemma_views, views,
    ScriptValue, StructModel, StructType, TypeModel, ValueModel,
};

verus! {

/// The field slots after migration: each field read from `bytes` by position,
/// up to the first that cannot be read; from there on, the slots of `fresh`.
pub open spec fn migrate_fields(
    types: Seq<TypeModel>,
    fresh: Seq<ValueModel>,
    bytes: Seq<u8>,
) -> Seq<ValueModel>
    decreases types.len(),
{
    if types.len() == 0 || fresh.len() == 0 {
        fresh
    } else {
        match decode(types[0], bytes) {
            Some((value, used)) => seq![value] + migrate_fields(
                types.skip(1),
                fresh.skip(1),
                bytes.skip(used as int),
            ),
            None => fresh,
        }
    }
}

/// The live value after migration. A fresh value that is no struct has no
/// fields to fill and stays as it is.
pub open spec fn migrated(definition: StructModel, fresh: ValueModel, bytes: Seq<u8>) -> ValueModel {
    match fresh {
        ValueModel::Struct(fields) => ValueModel::Struct(
            migrate_fields(definition.field_types, fields, bytes),
        ),
        _ => fresh,
    }
}

/// Migration gives one slot for each slot of the fresh value.
pub proof fn lemma_migrate_fields_len(
    types: Seq<TypeModel>,
    fresh: Seq<ValueModel>,
    bytes: Seq<u8>,
)
    ensures
        migrate_fields(types, fresh, bytes).len() == fresh.len(),
    decreases types.len(),
{
    if types.len() > 0 && fresh.len() > 0 {
        if let Some((value, used)) = decode(types[0], bytes) {
            lemma_migrate_fields_len(types.skip(1), fresh.skip(1), bytes.skip(used as int));
        }
    }
}

/// Fills a freshly started value with the state saved from the generation
/// before it.
///
/// `definition` is the new generation's layout of the struct, `fresh` the value
/// that the new generation started with and `bytes` what the old generation
/// saved. Never fails: what cannot be read keeps its fresh value.
pub fn migrate(definition: &StructType, fresh: ScriptValue, bytes: &[u8]) -> (live: ScriptValue)
    ensures
        live@ == migrated(definition@, fresh@, bytes@),
{
    match fresh {
        ScriptValue::Struct(mut fields) => {
            let ghost types = definition@.field_types;
            let ghost start = views(fields@);
            let mut used: usize = 0;
            let mut i: usize = 0;
            let mut reading = true;
            let total = bytes.len();
            proof {
                lemma_views(fields@);
                lemma_field_type_views(definition.fields@);
                assert(bytes@.skip(0) =~= bytes@);
                assert(types.skip(0) =~= types);
                assert(start.skip(0) =~= start);
                assert(views(fields@).take(0) + migrate_fields(types, start, bytes@)
                    =~= migrate_fields(types, start, bytes@));
            }
            while reading && i < definition.fields.len() && i < fields.len()
                invariant
                    i <= definition.fields.len(),
                    i <= fields.len(),
                    used <= bytes@.len() == total,
                    types == field_type_views(definition.fields@),
                    types.len() == definition.fields@.len(),
                    forall|j: int|
                        0 <= j < definition.fields@.len() ==> #[trigger] types[j]
                            == definition.fields@[j].field_type@,
                    fields@.len() == start.len(),
                    views(fields@).len() == start.len(),
                    views(fields@).skip(i as int) =~= start.skip(i as int),
                    reading ==> migrate_fields(types, start, bytes@) == views(fields@).take(
                        i as int,
                    ) + migrate_fields(
                        types.skip(i as int),
                        start.skip(i as int),
                        bytes@.skip(used as int),
                    ),
                    !reading ==> migrate_fields(types, start, bytes@) == views(fields@),
                decreases (if reading { 1int } else { 0int }), definition.fields.len() - i,
            {
                let ghost before = views(fields@);
                let ghost slots = fields@;
                let ghost rest_types = types.skip(i as int);
                let ghost rest_fresh = start.skip(i as int);
                let ghost input = bytes@.skip(used as int);
                proof {
                    assert(rest_types[0] == types[i as int]);
                    assert(rest_types.skip(1) =~= types.skip(i + 1));
                    assert(rest_fresh.skip(1) =~= start.skip(i + 1));
                }
                match read_value(&definition.fields[i].field_type, bytes, used) {
                    Some((value, more)) => {
                        fields.set(i, value);
                        proof {
                            lemma_views(fields@);
                            lemma_views(slots);
                            assert(input.skip(more as int) =~= bytes@.skip(used + more));
                            assert(views(fields@).take(i + 1) =~= before.take(i as int)
                                + seq![value@]);
                            assert(views(fields@).skip(i + 1) =~= start.skip(i + 1)) by {
                                assert forall|j: int| i + 1 <= j < start.len() implies views(
                                    fields@,
                                )[j] == start[j] by {
                                    assert(before.skip(i as int)[j - i] == start.skip(
                                        i as int,
                                    )[j - i]);
                                }
                            }
                            assert(before.take(i as int) + (seq![value@] + migrate_fields(
                                rest_types.skip(1),
                                rest_fresh.skip(1),
                                input.skip(more as int),
                            )) =~= (before.take(i as int) + seq![value@]) + migrate_fields(
                                rest_types.skip(1),
                                rest_fresh.skip(1),
                                input.skip(more as int),
                            ));
                        }
                        used = used + more;
                        i += 1;
                    },
                    None => {
                        proof {
                            assert(before.take(i as int) + before.skip(i as int) =~= before);
                        }
                        reading = false;
                    },
                }
            }
            proof {
                if reading {
                    let rest_types = types.skip(i as int);
                    let rest_fresh = start.skip(i as int);
                    assert(rest_types.len() == 0 || rest_fresh.len() == 0);
                    assert(views(fields@).take(i as int) + views(fields@).skip(i as int)
                        =~= views(fields@));
                }
            }
            ScriptValue::Struct(fields)
        },
        other => other,
    }
}


/// Values that are of the types come one for each type.
pub proof fn lemma_conforms_all_len(values: Seq<ValueModel>, types: Seq<TypeModel>)
    requires
        conforms_all(values, types),
    ensures
        values.len() == types.len(),
    decreases values,
{
    if values.len() > 0 {
        lemma_conforms_all_len(values.skip(1), types.skip(1));
    }
}

/// With no saved bytes left, migration leaves fresh slots as they are.
pub proof fn lemma_migrate_nothing(types: Seq<TypeModel>, fresh: Seq<ValueModel>)
    requires
        conforms_all(fresh, types),
    ensures
        migrate_fields(types, fresh, Seq::empty()) == fresh,
    decreases fresh,
{
    let nothing = Seq::<u8>::empty();
    if types.len() > 0 && fresh.len() > 0 {
        if let Some((value, used)) = decode(types[0], nothing) {
            lemma_decode_nothing(types[0], fresh[0]);
            assert(nothing.skip(0) =~= nothing);
            lemma_migrate_nothing(types.skip(1), fresh.skip(1));
            assert(seq![fresh[0]] + fresh.skip(1) =~= fresh);
        }
    }
}

/// Migration under additive growth, slot by slot: where the new layout is the
/// old layout with fields added behind it, the old slots come back as they
/// were saved and the added slots keep their fresh values.
pub proof fn lemma_migrate_fields_growth(
    old_fields: Seq<ValueModel>,
    old_types: Seq<TypeModel>,
    added: Seq<TypeModel>,
    fresh: Seq<ValueModel>,
)
    requires
        conforms_all(old_fields, old_types),
        strings_fit_all(old_fields),
        readable_all(old_types),
        conforms_all(fresh, old_types + added),
    ensures
        migrate_fields(old_types + added, fresh, encode_all(old_fields)) == old_fields
            + fresh.skip(old_fields.len() as int),
    decreases old_fields,
{
    let types = old_types + added;
    let bytes = encode_all(old_fields);
    lemma_conforms_all_len(old_fields, old_types);
    lemma_conforms_all_len(fresh, types);
    if old_fields.len() == 0 {
        assert(types =~= added);
        assert(bytes =~= Seq::empty());
        lemma_migrate_nothing(added, fresh);
        assert(fresh.skip(0) =~= fresh);
        assert(old_fields + fresh =~= fresh);
    } else {
        let tail = encode_all(old_fields.skip(1));
        assert(types[0] == old_types[0]);
        assert(types.skip(1) =~= old_types.skip(1) + added);
        lemma_round_trip(old_fields[0], old_types[0], tail);
        let used = encode(old_fields[0]).len();
        assert(bytes.skip(used as int) =~= tail);
        lemma_migrate_fields_growth(old_fields.skip(1), old_types.skip(1), added, fresh.skip(1));
        assert(fresh.skip(1).skip(old_fields.skip(1).len() as int) =~= fresh.skip(
            old_fields.len() as int,
        ));
        assert(seq![old_fields[0]] + (old_fields.skip(1) + fresh.skip(old_fields.len() as int))
            =~= old_fields + fresh.skip(old_fields.len() as int));
    }
}

/// Reload preserves compatible fields: where the new generation's struct has
/// the layout that the state was saved with, migration gives back the saved
/// value, whatever the new generation started with.
pub proof fn theorem_reload_preserves_same_layout(
    definition: StructModel,
    saved: ValueModel,
    fresh: ValueModel,
)
    requires
        conforms(saved, TypeModel::Struct(definition)),
        conforms(fresh, TypeModel::Struct(definition)),
        strings_fit(saved),
        readable(TypeModel::Struct(definition)),
    ensures
        migrated(definition, fresh, encode(saved)) == saved,
{
    let slots = saved->Struct_0;
    let fresh_slots = fresh->Struct_0;
    let types = definition.field_types;
    assert(types + Seq::<TypeModel>::empty() =~= types);
    lemma_migrate_fields_growth(slots, types, Seq::empty(), fresh_slots);
    lemma_conforms_all_len(slots, types);
    lemma_conforms_all_len(fresh_slots, types);
    assert(slots + fresh_slots.skip(slots.len() as int) =~= slots);
}

/// Reload under layout drift: where the new generation's struct is the old one
/// with fields added behind it, migration gives the saved value in the old
/// fields and leaves each added field at the value that the new generation
/// started with.
pub proof fn theorem_reload_under_added_fields(
    old_definition: StructModel,
    new_definition: StructModel,
    saved: ValueModel,
    fresh: ValueModel,
)
    requires
        conforms(saved, TypeModel::Struct(old_definition)),
        conforms(fresh, TypeModel::Struct(new_definition)),
        strings_fit(saved),
        readable(TypeModel::Struct(old_definition)),
        old_definition.field_types.len() <= new_definition.field_types.len(),
        new_definition.field_types.take(old_definition.field_types.len() as int)
            == old_definition.field_types,
    ensures
        migrated(new_definition, fresh, encode(saved)) == ValueModel::Struct(
            saved->Struct_0 + fresh->Struct_0.skip(saved->Struct_0.len() as int),
        ),
{
    let old_types = old_definition.field_types;
    let new_types = new_definition.field_types;
    let added = new_types.skip(old_types.len() as int);
    assert(new_types =~= old_types + added);
    lemma_migrate_fields_growth(saved->Struct_0, old_types, added, fresh->Struct_0);
}

} // verus!
