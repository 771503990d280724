//! Account and class properties: reading one, and storing one, which
//! keeps the other properties.
use vstd::prelude::*;
use crate::classes::Class;
use crate::error::{failure, AppError, ErrorKind};
use crate::properties::{keys_unique, lemma_get_push, spec_get, KeyValueProperties};

verus! {

/// The value of a property of an account, as JSON text: an account that
/// was never stored, or one without the property, has none.
pub fn read_property(account: Option<&KeyValueProperties>, property_id: &str) -> (r: Result<
    String,
    AppError,
>)
    requires
        account matches Some(p) ==> p.well_formed(),
    ensures
        match account {
            None => r matches Err(e) && e.spec_kind() == ErrorKind::AccountNotFound,
            Some(p) => match spec_get(p.entries@, property_id@) {
                None => r matches Err(e) && e.spec_kind() == ErrorKind::AccountPropertyNotFound,
                Some(v) => r matches Ok(s) && s@ == v,
            },
        },
{
    match account {
        None => Err(AppError::new(ErrorKind::AccountNotFound, failure("Failed to find account"))),
        Some(p) => match p.get(property_id) {
            Some(v) => Ok(v),
            None => Err(
                AppError::new(ErrorKind::AccountPropertyNotFound, failure("Account property not found")),
            ),
        },
    }
}

/// The properties an update of one property stores: that property alone.
pub fn property_update(property_id: String, payload: String) -> (r: KeyValueProperties)
    ensures
        r.well_formed(),
        forall|k: Seq<char>|
            #![trigger spec_get(r.entries@, k)]
            spec_get(r.entries@, k) == if k == property_id@ {
                Some(payload@)
            } else {
                None::<Seq<char>>
            },
{
    let mut r = KeyValueProperties::new();
    proof {
        assert forall|k: Seq<char>| #![trigger spec_get(r.entries@, k)] spec_get(r.entries@, k) is None by {}
    }
    r.insert(property_id, payload);
    r
}

/// The properties of an account after an update is stored: those of the
/// update, and the stored ones under the keys the update does not have.
pub open spec fn spec_merged(
    stored: Seq<(String, String)>,
    update: Seq<(String, String)>,
    k: Seq<char>,
) -> Option<Seq<char>> {
    match spec_get(update, k) {
        Some(v) => Some(v),
        None => spec_get(stored, k),
    }
}

/// Stores an update into an account's properties.
pub fn merge_properties(stored: KeyValueProperties, update: &KeyValueProperties) -> (r: KeyValueProperties)
    requires
        stored.well_formed(),
        update.well_formed(),
    ensures
        r.well_formed(),
        forall|k: Seq<char>|
            #![trigger spec_get(r.entries@, k)]
            spec_get(r.entries@, k) == spec_merged(stored.entries@, update.entries@, k),
{
    let ghost s0 = stored.entries@;
    let ghost u = update.entries@;
    let mut acc = stored;
    for i in 0..update.entries.len()
        invariant
            u == update.entries@,
            keys_unique(u),
            acc.well_formed(),
            forall|k: Seq<char>|
                #![trigger spec_get(acc.entries@, k)]
                spec_get(acc.entries@, k) == spec_merged(s0, u.take(i as int), k),
    {
        let ghost prev = acc.entries@;
        acc.insert(update.entries[i].0.clone(), update.entries[i].1.clone());
        proof {
            let e = u[i as int];
            assert(u.take(i + 1) =~= u.take(i as int).push(e));
            assert forall|x: int, y: int|
                0 <= x < u.take(i + 1).len() && 0 <= y < u.take(i + 1).len() && x != y implies (#[trigger] u.take(i + 1)[x]).0@
                    != (#[trigger] u.take(i + 1)[y]).0@ by {
                assert(u.take(i + 1)[x] == u[x] && u.take(i + 1)[y] == u[y]);
            }
            assert forall|k: Seq<char>|
                #![trigger spec_get(acc.entries@, k)]
                spec_get(acc.entries@, k) == spec_merged(s0, u.take(i + 1), k) by {
                lemma_get_push(u.take(i as int), e, k);
                assert(spec_get(prev, k) == spec_merged(s0, u.take(i as int), k));
            }
        }
    }
    proof {
        assert(u.take(u.len() as int) =~= u);
    }
    acc
}

/// What an account's properties read as, under a key, after a property is
/// stored: the stored value under its key; what the account held under the
/// others (nothing, for an account that was never stored).
pub open spec fn spec_stored(
    stored: Option<Seq<(String, String)>>,
    property_id: Seq<char>,
    payload: Seq<char>,
    k: Seq<char>,
) -> Option<Seq<char>> {
    if k == property_id {
        Some(payload)
    } else {
        match stored {
            Some(s) => spec_get(s, k),
            None => None,
        }
    }
}

/// Texts of the stored properties of an account, if it was stored.
pub open spec fn stored_view(stored: Option<KeyValueProperties>) -> Option<Seq<(String, String)>> {
    match stored {
        Some(p) => Some(p.entries@),
        None => None,
    }
}

/// Stores a property of an account: the account is created with it, or its
/// properties are merged with it.
pub fn store_property(stored: Option<KeyValueProperties>, property_id: String, payload: String) -> (r:
    KeyValueProperties)
    requires
        stored matches Some(p) ==> p.well_formed(),
    ensures
        r.well_formed(),
        forall|k: Seq<char>|
            #![trigger spec_get(r.entries@, k)]
            spec_get(r.entries@, k) == spec_stored(stored_view(stored), property_id@, payload@, k),
{
    let ghost id = property_id@;
    let ghost pv = payload@;
    let update = property_update(property_id, payload);
    match stored {
        Some(p) => {
            let ghost sp = p.entries@;
            let r = merge_properties(p, &update);
            proof {
                assert forall|k: Seq<char>|
                    #![trigger spec_get(r.entries@, k)]
                    spec_get(r.entries@, k) == spec_stored(Some(sp), id, pv, k) by {
                    assert(spec_get(update.entries@, k) == if k == id {
                        Some(pv)
                    } else {
                        None::<Seq<char>>
                    });
                }
            }
            r
        },
        None => update,
    }
}

/// After a property is stored, reading it gives what was stored, and every
/// other property reads as it did before.
pub proof fn lemma_read_after_store(
    stored: Option<KeyValueProperties>,
    property_id: Seq<char>,
    payload: Seq<char>,
    result: KeyValueProperties,
    k: Seq<char>,
)
    requires
        forall|x: Seq<char>|
            #![trigger spec_get(result.entries@, x)]
            spec_get(result.entries@, x) == spec_stored(stored_view(stored), property_id, payload, x),
    ensures
        spec_get(result.entries@, property_id) == Some(payload),
        k != property_id ==> spec_get(result.entries@, k) == match stored {
            Some(p) => spec_get(p.entries@, k),
            None => None,
        },
{
    assert(spec_get(result.entries@, property_id) == spec_stored(
        stored_view(stored),
        property_id,
        payload,
        property_id,
    ));
    assert(spec_get(result.entries@, k) == spec_stored(stored_view(stored), property_id, payload, k));
}

/// What an account's properties read as under a key after a sequence of
/// stores, each a property id and its payload: the payload of the last store
/// under that key, else what the account held before them.
pub open spec fn spec_after_stores(
    initial: Option<Seq<(String, String)>>,
    writes: Seq<(Seq<char>, Seq<char>)>,
    k: Seq<char>,
) -> Option<Seq<char>>
    decreases writes.len(),
{
    if writes.len() == 0 {
        match initial {
            Some(s) => spec_get(s, k),
            None => None,
        }
    } else if writes.last().0 == k {
        Some(writes.last().1)
    } else {
        spec_after_stores(initial, writes.drop_last(), k)
    }
}

/// The properties the `i`-th of a sequence of stores starts from: those held
/// before the first, then what the previous store left.
pub open spec fn before_store(
    initial: Option<Seq<(String, String)>>,
    results: Seq<Seq<(String, String)>>,
    i: int,
) -> Option<Seq<(String, String)>> {
    if i == 0 {
        initial
    } else {
        Some(results[i - 1])
    }
}

/// After a sequence of property stores, each made on what the previous one
/// left, a key reads as the payload of the last store under it: the latest
/// write wins, and stores under other keys do not disturb it. A key that no
/// store named reads as before.
pub proof fn lemma_read_after_stores(
    initial: Option<Seq<(String, String)>>,
    writes: Seq<(Seq<char>, Seq<char>)>,
    results: Seq<Seq<(String, String)>>,
    k: Seq<char>,
)
    requires
        results.len() == writes.len(),
        forall|i: int, x: Seq<char>|
            #![trigger spec_get(results[i], x)]
            0 <= i < writes.len() ==> spec_get(results[i], x) == spec_stored(
                before_store(initial, results, i),
                writes[i].0,
                writes[i].1,
                x,
            ),
    ensures
        writes.len() > 0 ==> spec_get(results.last(), k) == spec_after_stores(initial, writes, k),
    decreases writes.len(),
{
    let n = writes.len() - 1;
    if writes.len() == 1 {
        assert(spec_get(results[0], k) == spec_stored(initial, writes[0].0, writes[0].1, k));
    } else if writes.len() > 1 {
        let w = writes.drop_last();
        let r = results.drop_last();
        assert forall|i: int, x: Seq<char>|
            #![trigger spec_get(r[i], x)]
            0 <= i < w.len() implies spec_get(r[i], x) == spec_stored(
                before_store(initial, r, i),
                w[i].0,
                w[i].1,
                x,
            ) by {
            assert(r[i] == results[i] && w[i] == writes[i]);
            assert(before_store(initial, r, i) == before_store(initial, results, i));
            assert(spec_get(results[i], x) == spec_stored(
                before_store(initial, results, i),
                writes[i].0,
                writes[i].1,
                x,
            ));
        }
        lemma_read_after_stores(initial, w, r, k);
        assert(spec_get(results[n], k) == spec_stored(
            before_store(initial, results, n),
            writes[n].0,
            writes[n].1,
            k,
        ));
        assert(r.last() == results[n - 1]);
    }
}

/// The value of a property of a class, as JSON text; a class without the
/// property has none.
pub fn read_class_property(class: &Class, property_id: &str) -> (r: Result<String, AppError>)
    requires
        class.properties.well_formed(),
    ensures
        match spec_get(class.properties.entries@, property_id@) {
            None => r matches Err(e) && e.spec_kind() == ErrorKind::ClassPropertyNotFound,
            Some(v) => r matches Ok(s) && s@ == v,
        },
{
    match class.properties.get(property_id) {
        Some(v) => Ok(v),
        None => Err(AppError::new(ErrorKind::ClassPropertyNotFound, failure("missing class property"))),
    }
}

/// The properties of a class once one is set: the others stay.
pub fn update_class_property(class: &Class, property_id: String, payload: String) -> (r:
    KeyValueProperties)
    requires
        class.properties.well_formed(),
    ensures
        r.well_formed(),
        forall|k: Seq<char>|
            #![trigger spec_get(r.entries@, k)]
            spec_get(r.entries@, k) == if k == property_id@ {
                Some(payload@)
            } else {
                spec_get(class.properties.entries@, k)
            },
{
    let mut props = class.properties.duplicate();
    proof {
        assert forall|k: Seq<char>|
            #![trigger spec_get(props.entries@, k)]
            spec_get(props.entries@, k) == spec_get(class.properties.entries@, k) by {
            crate::properties::lemma_get_same(props.entries@, class.properties.entries@, k);
        }
    }
    props.insert(property_id, payload);
    props
}

} // verus!
