//! The measurement-type registry: the catalog of measurable quantities.
//!
//! Deletion is guarded: a type still referenced by a sensor-to-type binding
//! cannot be removed. Updates coalesce, field by field.

use vstd::prelude::*;

use crate::models::{
    MeasurementType, MeasurementTypeRequest, MeasurementTypeRequestV, MeasurementTypeUpdate,
    MeasurementTypeUpdateV, MeasurementTypeV, StoreError,
};
use crate::store::{
    find_type, lemma_filter_keeps_increasing, lemma_filter_keeps_keys_below,
    lemma_filter_take_succ, lemma_seq_find_first, lemma_seq_find_none, seq_find, type_key,
    type_referenced, type_with_id, Store, StoreV,
};

verus! {

// ---------------------------------------------------------------------------
// Transitions
// ---------------------------------------------------------------------------

/// The row a create request stores, under the catalog's next id.
pub open spec fn spec_insert_type_row(s: StoreV, req: MeasurementTypeRequestV) -> MeasurementTypeV {
    MeasurementTypeV { id: s.next_type_id, name: req.name, units: req.units }
}

/// The store after a create: the new row appended, the next id advanced.
pub open spec fn spec_insert_type(s: StoreV, req: MeasurementTypeRequestV) -> StoreV {
    StoreV {
        measurement_types: s.measurement_types.push(spec_insert_type_row(s, req)),
        next_type_id: s.next_type_id + 1,
        ..s
    }
}

/// A row after a coalescing update: a given field replaces, an absent one
/// leaves the stored value.
pub open spec fn coalesce_type(t: MeasurementTypeV, u: MeasurementTypeUpdateV) -> MeasurementTypeV {
    MeasurementTypeV {
        id: t.id,
        name: match u.name {
            Some(n) => n,
            None => t.name,
        },
        units: match u.units {
            Some(x) => x,
            None => t.units,
        },
    }
}

/// The update applied to the one row with the given id.
pub open spec fn type_coalesce_at(id: int, u: MeasurementTypeUpdateV) -> spec_fn(
    MeasurementTypeV,
) -> MeasurementTypeV {
    |t: MeasurementTypeV|
        if t.id == id {
            coalesce_type(t, u)
        } else {
            t
        }
}

/// The store after a coalescing update of one catalog row.
pub open spec fn spec_update_type(s: StoreV, id: int, u: MeasurementTypeUpdateV) -> StoreV {
    StoreV {
        measurement_types: s.measurement_types.map_values(type_coalesce_at(id, u)),
        ..s
    }
}

/// Keeps every catalog row but the one with the given id.
pub open spec fn type_without_id(id: int) -> spec_fn(MeasurementTypeV) -> bool {
    |t: MeasurementTypeV| t.id != id
}

/// The store after deleting one catalog row.
pub open spec fn spec_delete_type(s: StoreV, id: int) -> StoreV {
    StoreV { measurement_types: s.measurement_types.filter(type_without_id(id)), ..s }
}

// ---------------------------------------------------------------------------
// Lookup helpers
// ---------------------------------------------------------------------------

/// Index of the catalog row with this id, if any.
fn type_index(types: &Vec<MeasurementType>, type_id: i32) -> (r: Option<usize>)
    ensures
        match r {
            Some(i) => i < types.len() && seq_find(types.deep_view(), type_with_id(type_id as int))
                == Some(types.deep_view()[i as int]) && types.deep_view()[i as int].id
                == type_id as int,
            None => seq_find(types.deep_view(), type_with_id(type_id as int)) is None,
        },
{
    let ghost dv = types.deep_view();
    let mut i: usize = 0;
    while i < types.len()
        invariant
            i <= types.len(),
            dv == types.deep_view(),
            dv.len() == types.len(),
            forall|j: int| 0 <= j < i ==> #[trigger] dv[j].id != type_id as int,
        decreases types.len() - i,
    {
        if types[i].id == type_id {
            proof {
                lemma_seq_find_first(dv, type_with_id(type_id as int), i as int);
            }
            return Some(i);
        }
        i += 1;
    }
    proof {
        lemma_seq_find_none(dv, type_with_id(type_id as int));
    }
    None
}

/// Whether some sensor-to-type binding references this type.
fn type_in_use(s: &Store, type_id: i32) -> (r: bool)
    ensures
        r == type_referenced(s@, type_id as int),
{
    let mut i: usize = 0;
    while i < s.sensors_measurements.len()
        invariant
            i <= s.sensors_measurements.len(),
            forall|j: int|
                0 <= j < i ==> #[trigger] s@.sensors_measurements[j].type_id != type_id as int,
            s@.sensors_measurements.len() == s.sensors_measurements.len(),
        decreases s.sensors_measurements.len() - i,
    {
        if s.sensors_measurements[i].type_id == type_id {
            proof {
                assert(s@.sensors_measurements[i as int].type_id == type_id as int);
            }
            return true;
        }
        i += 1;
    }
    false
}

// ---------------------------------------------------------------------------
// Operations
// ---------------------------------------------------------------------------

/// Lists the whole catalog in stored order.
pub fn fetch_measurement_types(s: &Store) -> (r: Result<Vec<MeasurementType>, StoreError>)
    ensures
        r matches Ok(rows) && rows.deep_view() == s@.measurement_types,
{
    let mut rows: Vec<MeasurementType> = Vec::new();
    let mut i: usize = 0;
    while i < s.measurement_types.len()
        invariant
            i <= s.measurement_types.len(),
            rows.len() == i,
            s@.measurement_types.len() == s.measurement_types.len(),
            rows.deep_view() =~= s@.measurement_types.take(i as int),
        decreases s.measurement_types.len() - i,
    {
        rows.push(s.measurement_types[i].duplicate());
        i += 1;
        proof {
            assert(rows.deep_view() =~= s@.measurement_types.take(i as int));
        }
    }
    proof {
        assert(s@.measurement_types.take(s.measurement_types.len() as int)
            =~= s@.measurement_types);
    }
    Ok(rows)
}

/// Creates a catalog row from the request; the returned row carries the
/// generated id and the submitted fields.
pub fn insert_measurement_type(s: &mut Store, mtype: &MeasurementTypeRequest) -> (r: Result<
    MeasurementType,
    StoreError,
>)
    requires
        old(s).wf(),
        old(s).next_type_id < i32::MAX,
    ensures
        final(s).wf(),
        final(s)@ == spec_insert_type(old(s)@, mtype@),
        r matches Ok(row) && row@ == spec_insert_type_row(old(s)@, mtype@),
{
    let row = MeasurementType {
        id: s.next_type_id,
        name: mtype.name.clone(),
        units: mtype.units.clone(),
    };
    let copy = row.duplicate();
    s.measurement_types.push(row);
    s.next_type_id = s.next_type_id + 1;
    proof {
        assert(s@ =~= spec_insert_type(old(s)@, mtype@));
        assert forall|i: int, j: int|
            0 <= i < j < s@.measurement_types.len() implies type_key()(
            s@.measurement_types[i],
        ) < type_key()(s@.measurement_types[j]) by {
            if j < s@.measurement_types.len() - 1 {
                assert(old(s)@.measurement_types[i] == s@.measurement_types[i]);
            }
        }
        assert forall|i: int| 0 <= i < s@.measurement_types.len() implies 1 <= type_key()(
            #[trigger] s@.measurement_types[i],
        ) && type_key()(s@.measurement_types[i]) < s@.next_type_id by {
            if i < s@.measurement_types.len() - 1 {
                assert(old(s)@.measurement_types[i] == s@.measurement_types[i]);
            }
        }
    }
    Ok(copy)
}

/// Coalescing update of the row with this id; absent when the id is unknown.
pub fn update_one_measurement_type(
    s: &mut Store,
    type_id: i32,
    item: &MeasurementTypeUpdate,
) -> (r: Result<MeasurementType, StoreError>)
    requires
        old(s).wf(),
    ensures
        final(s).wf(),
        match find_type(old(s)@, type_id as int) {
            None => r == Err::<MeasurementType, StoreError>(StoreError::NotFound) && final(s)@
                == old(s)@,
            Some(t) => final(s)@ == spec_update_type(old(s)@, type_id as int, item@) && (
            r matches Ok(row) && row@ == coalesce_type(t, item@)),
        },
{
    let idx = match type_index(&s.measurement_types, type_id) {
        None => {
            return Err(StoreError::NotFound);
        },
        Some(i) => i,
    };
    let ghost dv = s@.measurement_types;
    let ghost f = type_coalesce_at(type_id as int, item@);
    let mut rows: Vec<MeasurementType> = Vec::new();
    let mut i: usize = 0;
    while i < s.measurement_types.len()
        invariant
            i <= s.measurement_types.len(),
            dv == s@.measurement_types,
            dv.len() == s.measurement_types.len(),
            rows.len() == i,
            f == type_coalesce_at(type_id as int, item@),
            rows.deep_view() =~= dv.take(i as int).map_values(f),
        decreases s.measurement_types.len() - i,
    {
        let row = &s.measurement_types[i];
        let new_row = if row.id == type_id {
            MeasurementType {
                id: row.id,
                name: match &item.name {
                    Some(n) => n.clone(),
                    None => row.name.clone(),
                },
                units: match &item.units {
                    Some(u) => u.clone(),
                    None => row.units.clone(),
                },
            }
        } else {
            row.duplicate()
        };
        proof {
            assert(new_row@ == f(dv[i as int]));
        }
        rows.push(new_row);
        i += 1;
        proof {
            assert(dv.take(i as int).map_values(f) =~= dv.take(i as int - 1).map_values(f).push(
                f(dv[i as int - 1]),
            ));
            assert(rows.deep_view() =~= dv.take(i as int).map_values(f));
        }
    }
    s.measurement_types = rows;
    proof {
        assert(dv.take(dv.len() as int) =~= dv);
        assert(s@ =~= spec_update_type(old(s)@, type_id as int, item@));
        assert forall|a: int| 0 <= a < s@.measurement_types.len() implies type_key()(
            #[trigger] s@.measurement_types[a],
        ) == type_key()(dv[a]) by {
            assert(s@.measurement_types[a] == f(dv[a]));
        }
        assert(s@.measurement_types.len() == dv.len());
        assert(s@.measurement_types[idx as int] == f(dv[idx as int]));
        assert(f(dv[idx as int]) == coalesce_type(dv[idx as int], item@));
    }
    let updated = s.measurement_types[idx].duplicate();
    proof {
        assert(updated@ == s@.measurement_types[idx as int]);
    }
    Ok(updated)
}

/// Deletes the row with this id, unless a sensor-to-type binding still
/// references it; deleting an absent id succeeds and changes nothing.
pub fn delete_one_measurement_type(s: &mut Store, type_id: i32) -> (r: Result<(), StoreError>)
    requires
        old(s).wf(),
    ensures
        final(s).wf(),
        type_referenced(old(s)@, type_id as int) ==> r == Err::<(), StoreError>(StoreError::Conflict)
            && final(s)@ == old(s)@,
        !type_referenced(old(s)@, type_id as int) ==> r == Ok::<(), StoreError>(()) && final(s)@
            == spec_delete_type(old(s)@, type_id as int),
{
    if type_in_use(s, type_id) {
        return Err(StoreError::Conflict);
    }
    let ghost dv = s@.measurement_types;
    let ghost p = type_without_id(type_id as int);
    let mut rows: Vec<MeasurementType> = Vec::new();
    let mut i: usize = 0;
    while i < s.measurement_types.len()
        invariant
            i <= s.measurement_types.len(),
            dv == s@.measurement_types,
            dv.len() == s.measurement_types.len(),
            rows.len() == dv.take(i as int).filter(p).len(),
            p == type_without_id(type_id as int),
            rows.deep_view() =~= dv.take(i as int).filter(p),
        decreases s.measurement_types.len() - i,
    {
        let row = &s.measurement_types[i];
        if row.id != type_id {
            rows.push(row.duplicate());
        }
        i += 1;
        proof {
            lemma_filter_take_succ(dv, p, i as int - 1);
            assert(rows.deep_view() =~= dv.take(i as int).filter(p));
        }
    }
    s.measurement_types = rows;
    proof {
        assert(dv.take(dv.len() as int) =~= dv);
        assert(s@ =~= spec_delete_type(old(s)@, type_id as int));
        lemma_filter_keeps_increasing(dv, p, type_key());
        lemma_filter_keeps_keys_below(dv, p, type_key(), old(s)@.next_type_id);
    }
    Ok(())
}

} // verus!
