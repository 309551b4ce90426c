use vstd::prelude::*;
use vstd::slice::slice_to_vec;

verus! {

/// Entries kept under names, each name as the sequence of its bytes.
pub open spec fn named_models<V>(entries: Seq<(Vec<u8>, V)>) -> Seq<(Seq<u8>, V)> {
    entries.map_values(|e: (Vec<u8>, V)| (e.0@, e.1))
}

/// The first place of `entries` that holds `name`, or their number if none
/// does.
pub open spec fn name_position<V>(entries: Seq<(Seq<u8>, V)>, name: Seq<u8>) -> int
    decreases entries.len(),
{
    if entries.len() == 0 {
        0
    } else if entries[0].0 == name {
        0
    } else {
        1 + name_position(entries.drop_first(), name)
    }
}

/// What `entries` hold under `name`: the value in the first place that
/// holds the name.
pub open spec fn named_value<V>(entries: Seq<(Seq<u8>, V)>, name: Seq<u8>) -> Option<V> {
    let at = name_position(entries, name);
    if at < entries.len() {
        Some(entries[at].1)
    } else {
        None
    }
}

/// `entries` after `name` was given `value`: in the place that held the
/// name, or at the end if none did.
pub open spec fn named_updated<V>(entries: Seq<(Seq<u8>, V)>, name: Seq<u8>, value: V) -> Seq<
    (Seq<u8>, V),
> {
    let at = name_position(entries, name);
    if at < entries.len() {
        entries.update(at, (name, value))
    } else {
        entries.push((name, value))
    }
}

/// No name occurs twice in `entries`.
pub open spec fn names_distinct<V>(entries: Seq<(Seq<u8>, V)>) -> bool {
    forall|i: int, j: int|
        0 <= i < j < entries.len() ==> (#[trigger] entries[i]).0 != (#[trigger] entries[j]).0
}

proof fn lemma_position<V>(entries: Seq<(Seq<u8>, V)>, name: Seq<u8>, at: int)
    requires
        0 <= at <= entries.len(),
        forall|k: int| 0 <= k < at ==> entries[k].0 != name,
        at == entries.len() || entries[at].0 == name,
    ensures
        name_position(entries, name) == at,
    decreases at,
{
    if at > 0 {
        let rest = entries.drop_first();
        assert forall|k: int| 0 <= k < at - 1 implies rest[k].0 != name by {
            assert(rest[k] == entries[k + 1]);
        }
        lemma_position(rest, name, at - 1);
    }
}

/// `name_position` gives the first place that holds the name, and the
/// number of entries exactly if none does.
pub proof fn lemma_name_position_is_first<V>(entries: Seq<(Seq<u8>, V)>, name: Seq<u8>)
    ensures
        0 <= name_position(entries, name) <= entries.len(),
        forall|k: int| 0 <= k < name_position(entries, name) ==> entries[k].0 != name,
        name_position(entries, name) < entries.len() ==> entries[name_position(entries, name)].0
            == name,
    decreases entries.len(),
{
    if entries.len() > 0 && entries[0].0 != name {
        let rest = entries.drop_first();
        lemma_name_position_is_first(rest, name);
        assert forall|k: int| 0 <= k < name_position(entries, name) implies entries[k].0
            != name by {
            if k > 0 {
                assert(rest[k - 1] == entries[k]);
            }
        }
    }
}

/// Giving a name a value keeps the names distinct; afterwards the name has
/// that value, and every other name what it had.
pub proof fn lemma_named_updated<V>(
    entries: Seq<(Seq<u8>, V)>,
    name: Seq<u8>,
    value: V,
    other: Seq<u8>,
)
    requires
        names_distinct(entries),
    ensures
        names_distinct(named_updated(entries, name, value)),
        named_value(named_updated(entries, name, value), name) == Some(value),
        other != name ==> named_value(named_updated(entries, name, value), other) == named_value(
            entries,
            other,
        ),
{
    lemma_name_position_is_first(entries, name);
    lemma_name_position_is_first(entries, other);
    let at = name_position(entries, name);
    let after = named_updated(entries, name, value);
    assert(after[at] == (name, value));
    assert forall|k: int| 0 <= k < at implies after[k].0 != name by {
        assert(after[k] == entries[k]);
    }
    lemma_position(after, name, at);
    if other != name {
        let place = name_position(entries, other);
        assert forall|k: int| 0 <= k < place implies after[k].0 != other by {
            if k != at {
                assert(after[k] == entries[k]);
            }
        }
        if place < entries.len() {
            assert(after[place] == entries[place]);
            lemma_position(after, other, place);
        } else {
            assert forall|k: int| 0 <= k < after.len() implies after[k].0 != other by {
                if k != at {
                    assert(after[k] == entries[k]);
                }
            }
            lemma_position(after, other, after.len() as int);
        }
    }
}

/// Whether two runs of bytes are the same.
pub fn bytes_equal(a: &[u8], b: &[u8]) -> (same: bool)
    ensures
        same == (a@ == b@),
{
    if a.len() != b.len() {
        return false;
    }
    let mut i: usize = 0;
    while i < a.len()
        invariant
            i <= a@.len(),
            a@.len() == b@.len(),
            forall|k: int| 0 <= k < i ==> a@[k] == b@[k],
        decreases a.len() - i,
    {
        if a[i] != b[i] {
            return false;
        }
        i += 1;
    }
    assert(a@ =~= b@);
    true
}

/// The first place of `entries` that holds `name`, or their number if none
/// does.
pub fn find_named<V>(entries: &Vec<(Vec<u8>, V)>, name: &[u8]) -> (at: usize)
    ensures
        at == name_position(named_models(entries@), name@),
        at <= entries@.len(),
{
    let ghost models = named_models(entries@);
    let mut at: usize = 0;
    while at < entries.len()
        invariant
            at <= entries@.len(),
            models == named_models(entries@),
            forall|k: int| 0 <= k < at ==> models[k].0 != name@,
        decreases entries.len() - at,
    {
        if bytes_equal(entries[at].0.as_slice(), name) {
            proof {
                lemma_position(models, name@, at as int);
            }
            return at;
        }
        at += 1;
    }
    proof {
        lemma_position(models, name@, at as int);
    }
    at
}

/// Gives `name` the value `value`: in the place that holds the name, or at
/// the end if none does.
pub fn set_named<V>(entries: &mut Vec<(Vec<u8>, V)>, name: &[u8], value: V)
    ensures
        named_models(final(entries)@) == named_updated(named_models(old(entries)@), name@, value),
{
    let ghost before = named_models(entries@);
    let at = find_named(entries, name);
    if at < entries.len() {
        entries[at] = (slice_to_vec(name), value);
        assert(named_models(entries@) =~= before.update(at as int, (name@, value)));
    } else {
        entries.push((slice_to_vec(name), value));
        assert(named_models(entries@) =~= before.push((name@, value)));
    }
}

} // verus!
