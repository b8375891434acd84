//! Values of the notation in which the state is kept, and the merge that
//! brings a stored state of an older shape up to date: what the stored value
//! holds is kept, and what it lacks is filled in from a value that is
//! complete.

use vstd::prelude::*;
use vstd::string::StringExecFns;

verus! {

/// A value. An object holds its fields in the order in which they were
/// written; a number is kept as it was written.
#[derive(Debug)]
pub enum Json {
    Null,
    Bool(bool),
    Number(String),
    Text(String),
    Array(Vec<Json>),
    Object(Vec<(String, Json)>),
}

/// A value as a mathematical value.
pub ghost enum JsonView {
    Null,
    Bool(bool),
    Number(Seq<char>),
    Text(Seq<char>),
    Array(Seq<JsonView>),
    Object(Seq<(Seq<char>, JsonView)>),
}

/// The fields of an object as mathematical values.
pub open spec fn fields_view(fields: Seq<(String, Json)>) -> Seq<(Seq<char>, JsonView)>
    decreases fields, 0nat,
{
    Seq::new(
        fields.len(),
        |i: int|
            if 0 <= i < fields.len() {
                (fields[i].0@, json_view(fields[i].1))
            } else {
                (Seq::empty(), JsonView::Null)
            },
    )
}

/// The items of an array as mathematical values.
pub open spec fn items_view(items: Seq<Json>) -> Seq<JsonView>
    decreases items, 0nat,
{
    Seq::new(
        items.len(),
        |i: int|
            if 0 <= i < items.len() {
                json_view(items[i])
            } else {
                JsonView::Null
            },
    )
}

/// A value as a mathematical value.
pub open spec fn json_view(json: Json) -> JsonView
    decreases json, 1nat,
{
    match json {
        Json::Null => JsonView::Null,
        Json::Bool(b) => JsonView::Bool(b),
        Json::Number(n) => JsonView::Number(n@),
        Json::Text(t) => JsonView::Text(t@),
        Json::Array(items) => JsonView::Array(items_view(items@)),
        Json::Object(fields) => JsonView::Object(fields_view(fields@)),
    }
}

impl View for Json {
    type V = JsonView;

    open spec fn view(&self) -> JsonView {
        json_view(*self)
    }
}

/// The place of the first field named `key`, or the number of fields where
/// there is none.
pub open spec fn field_index(fields: Seq<(Seq<char>, JsonView)>, key: Seq<char>) -> int
    decreases fields.len(),
{
    if fields.len() == 0 {
        0
    } else if fields[0].0 == key {
        0
    } else {
        1 + field_index(fields.drop_first(), key)
    }
}

/// The value of the first field named `key`, where there is one.
pub open spec fn field(fields: Seq<(Seq<char>, JsonView)>, key: Seq<char>) -> Option<JsonView> {
    let i = field_index(fields, key);
    if i < fields.len() {
        Some(fields[i].1)
    } else {
        None
    }
}

/// Whether `base` has no field of the name of `entry`.
pub open spec fn lacks_name(base: Seq<(Seq<char>, JsonView)>) -> spec_fn(
    (Seq<char>, JsonView),
) -> bool {
    |entry: (Seq<char>, JsonView)| field(base, entry.0) is None
}

/// The fields of `base` merged with those of `patch`: every field of `base`
/// in its place, merged with the field of the same name in `patch` where
/// there is one, and after them the fields that only `patch` has.
pub open spec fn merged_fields(
    base: Seq<(Seq<char>, JsonView)>,
    patch: Seq<(Seq<char>, JsonView)>,
) -> Seq<(Seq<char>, JsonView)>
    decreases base, 0nat,
{
    Seq::new(
        base.len(),
        |i: int|
            if 0 <= i < base.len() {
                (
                    base[i].0,
                    match field(patch, base[i].0) {
                        Some(value) => merged(base[i].1, value),
                        None => base[i].1,
                    },
                )
            } else {
                (Seq::empty(), JsonView::Null)
            },
    ) + patch.filter(lacks_name(base))
}

/// `patch` merged into `base`: two objects are merged field by field; in
/// every other case the patch wins.
pub open spec fn merged(base: JsonView, patch: JsonView) -> JsonView
    decreases base, 1nat,
{
    match (base, patch) {
        (JsonView::Object(b), JsonView::Object(p)) => JsonView::Object(merged_fields(b, p)),
        _ => patch,
    }
}

/// A copy of a value.
pub fn clone_json(json: &Json) -> (copy: Json)
    ensures
        copy@ == json@,
    decreases json,
{
    match json {
        Json::Null => Json::Null,
        Json::Bool(b) => Json::Bool(*b),
        Json::Number(n) => Json::Number(n.clone()),
        Json::Text(t) => Json::Text(t.clone()),
        Json::Array(items) => {
            let mut copies: Vec<Json> = Vec::new();
            let mut i: usize = 0;
            while i < items.len()
                invariant
                    i <= items.len(),
                    *json == Json::Array(*items),
                    copies.len() == i,
                    forall|k: int| 0 <= k < i ==> json_view(#[trigger] copies[k]) == json_view(items[k]),
                decreases items.len() - i,
            {
                proof {
                    vstd::std_specs::vec::axiom_vec_index_decreases(*items, i as int);
                    assert(json->Array_0 == *items);
                    assert(decreases_to!(*json => json->Array_0));
                    assert(decreases_to!(*json => items[i as int]));
                }
                copies.push(clone_json(&items[i]));
                i += 1;
            }
            proof {
                assert(items_view(copies@) =~= items_view(items@));
            }
            Json::Array(copies)
        },
        Json::Object(fields) => {
            let mut copies: Vec<(String, Json)> = Vec::new();
            let mut i: usize = 0;
            while i < fields.len()
                invariant
                    i <= fields.len(),
                    *json == Json::Object(*fields),
                    copies.len() == i,
                    forall|k: int|
                        0 <= k < i ==> (#[trigger] copies[k]).0@ == fields[k].0@ && json_view(
                            copies[k].1,
                        ) == json_view(fields[k].1),
                decreases fields.len() - i,
            {
                proof {
                    vstd::std_specs::vec::axiom_vec_index_decreases(*fields, i as int);
                    assert(json->Object_0 == *fields);
                    assert(decreases_to!(*json => json->Object_0));
                    assert(decreases_to!(*json => fields[i as int]));
                    assert(decreases_to!(*json => fields[i as int].1));
                }
                copies.push((fields[i].0.clone(), clone_json(&fields[i].1)));
                i += 1;
            }
            proof {
                assert(fields_view(copies@) =~= fields_view(fields@));
            }
            Json::Object(copies)
        },
    }
}

/// A value that may be missing, as a mathematical value.
pub open spec fn view_of(json: Option<&Json>) -> Option<JsonView> {
    match json {
        Some(j) => Some(json_view(*j)),
        None => None,
    }
}

/// The value of the first field named `key`, where there is one.
pub fn get_field<'a>(fields: &'a Vec<(String, Json)>, key: &str) -> (value: Option<&'a Json>)
    ensures
        view_of(value) == field(fields_view(fields@), key@),
{
    let name = String::from_str(key);
    let index = find_field(fields, &name);
    if index < fields.len() {
        Some(&fields[index].1)
    } else {
        None
    }
}

/// The place of the first field named `key`, or the number of fields where
/// there is none.
fn find_field(fields: &Vec<(String, Json)>, key: &String) -> (index: usize)
    ensures
        index == field_index(fields_view(fields@), key@),
        index <= fields.len(),
{
    let mut i: usize = 0;
    proof {
        assert(fields_view(fields@).skip(0) =~= fields_view(fields@));
    }
    while i < fields.len() && !fields[i].0.eq(key)
        invariant
            i <= fields.len(),
            field_index(fields_view(fields@), key@) == i + field_index(
                fields_view(fields@).skip(i as int),
                key@,
            ),
        decreases fields.len() - i,
    {
        proof {
            let rest = fields_view(fields@).skip(i as int);
            assert(rest[0].0 == fields[i as int].0@);
            assert(rest.drop_first() =~= fields_view(fields@).skip(i + 1));
        }
        i += 1;
    }
    proof {
        let rest = fields_view(fields@).skip(i as int);
        if i < fields.len() {
            assert(rest[0].0 == fields[i as int].0@);
        }
    }
    i
}

/// The place of the first field of a name depends on the names alone.
proof fn lemma_field_index_by_names(
    a: Seq<(Seq<char>, JsonView)>,
    b: Seq<(Seq<char>, JsonView)>,
    key: Seq<char>,
)
    requires
        a.len() == b.len(),
        forall|i: int| 0 <= i < a.len() ==> (#[trigger] a[i]).0 == b[i].0,
    ensures
        field_index(a, key) == field_index(b, key),
    decreases a.len(),
{
    if a.len() > 0 {
        assert(a[0].0 == b[0].0);
        assert forall|i: int| 0 <= i < a.drop_first().len() implies (#[trigger] a.drop_first()[i]).0
            == b.drop_first()[i].0 by {
            assert(a[i + 1].0 == b[i + 1].0);
        }
        lemma_field_index_by_names(a.drop_first(), b.drop_first(), key);
    }
}

/// The fields that only the patch has, as far as the first `upto` fields of
/// the patch go.
spec fn patch_only(
    base: Seq<(Seq<char>, JsonView)>,
    patch: Seq<(Seq<char>, JsonView)>,
    upto: int,
) -> Seq<(Seq<char>, JsonView)> {
    patch.take(upto).filter(lacks_name(base))
}

/// One more field of the patch is taken over if the base has none of its
/// name.
proof fn lemma_patch_only_step(
    base: Seq<(Seq<char>, JsonView)>,
    patch: Seq<(Seq<char>, JsonView)>,
    upto: int,
)
    requires
        0 <= upto < patch.len(),
    ensures
        patch_only(base, patch, upto + 1) == if field(base, patch[upto].0) is None {
            patch_only(base, patch, upto).push(patch[upto])
        } else {
            patch_only(base, patch, upto)
        },
        patch_only(base, patch, 0) == Seq::<(Seq<char>, JsonView)>::empty(),
{
    reveal(Seq::filter);
    assert(patch.take(upto + 1).drop_last() =~= patch.take(upto));
    assert(patch.take(upto + 1).last() == patch[upto]);
    assert(patch.take(0) =~= Seq::<(Seq<char>, JsonView)>::empty());
}

/// Merges `patch` into `base`. Two objects are merged field by field: a
/// field of both is merged in turn, a field of the base alone stays, and a
/// field of the patch alone is added. In every other case the patch takes
/// the place of the base.
pub fn merge_json(base: Json, patch: &Json) -> (out: Json)
    ensures
        out@ == merged(base@, patch@),
    decreases base,
{
    let ghost whole = base;
    match (base, patch) {
        (Json::Object(base_fields), Json::Object(patch_fields)) => {
            let ghost given = base_fields;
            let ghost b = fields_view(given@);
            let ghost p = fields_view(patch_fields@);
            let mut base_fields = base_fields;
            let mut out: Vec<(String, Json)> = Vec::new();
            let total = base_fields.len();
            let ghost mut done: int = 0;
            proof {
                assert(given@.skip(0) =~= given@);
            }
            while base_fields.len() > 0
                invariant
                    0 <= done <= given.len(),
                    total == given.len(),
                    base_fields@ == given@.skip(done),
                    whole == Json::Object(given),
                    whole == base,
                    b == fields_view(given@),
                    p == fields_view(patch_fields@),
                    out.len() == done,
                    forall|k: int|
                        0 <= k < done ==> (#[trigger] out[k]).0@ == b[k].0 && json_view(out[k].1)
                            == match field(p, b[k].0) {
                            Some(value) => merged(b[k].1, value),
                            None => b[k].1,
                        },
                decreases base_fields.len(),
            {
                let entry = base_fields.remove(0);
                let name = entry.0;
                let value = entry.1;
                proof {
                    assert(entry == given@[done]);
                    assert(given@.skip(done).remove(0) =~= given@.skip(done + 1));
                    vstd::std_specs::vec::axiom_vec_index_decreases(given, done);
                    assert(whole->Object_0 == given);
                    assert(decreases_to!(whole => whole->Object_0));
                    assert(decreases_to!(whole => given[done]));
                    assert(decreases_to!(whole => value));
                }
                let found = find_field(patch_fields, &name);
                let merged_value = if found < patch_fields.len() {
                    merge_json(value, &patch_fields[found].1)
                } else {
                    value
                };
                out.push((name, merged_value));
                proof {
                    done = done + 1;
                }
            }
            let ghost merged_base = fields_view(out@);
            let mut j: usize = 0;
            proof {
                lemma_patch_only_step_zero(b, p);
            }
            while j < patch_fields.len()
                invariant
                    j <= patch_fields.len(),
                    total == given.len(),
                    total == b.len(),
                    b == fields_view(given@),
                    p == fields_view(patch_fields@),
                    out.len() >= total,
                    merged_base.len() == total,
                    fields_view(out@) == merged_base + patch_only(b, p, j as int),
                    forall|k: int| 0 <= k < total ==> (#[trigger] merged_base[k]).0 == b[k].0,
                decreases patch_fields.len() - j,
            {
                let ghost before = fields_view(out@);
                let found = find_field_among(&out, total, &patch_fields[j].0);
                proof {
                    assert(before.take(total as int) =~= merged_base);
                    lemma_field_index_by_names(merged_base, b, patch_fields[j as int].0@);
                    lemma_patch_only_step(b, p, j as int);
                    assert(p[j as int] == (patch_fields[j as int].0@, json_view(patch_fields[j as int].1)));
                }
                if found >= total {
                    out.push((patch_fields[j].0.clone(), clone_json(&patch_fields[j].1)));
                    proof {
                        assert(fields_view(out@) =~= before.push(p[j as int]));
                        assert(before.push(p[j as int]) =~= merged_base + patch_only(
                            b,
                            p,
                            j as int,
                        ).push(p[j as int]));
                    }
                }
                j += 1;
            }
            proof {
                assert(p.take(p.len() as int) =~= p);
                assert(merged_base =~= Seq::new(
                    b.len(),
                    |i: int|
                        if 0 <= i < b.len() {
                            (
                                b[i].0,
                                match field(p, b[i].0) {
                                    Some(value) => merged(b[i].1, value),
                                    None => b[i].1,
                                },
                            )
                        } else {
                            (Seq::empty(), JsonView::Null)
                        },
                ));
                assert(fields_view(out@) == merged_fields(b, p));
            }
            Json::Object(out)
        },
        (_, _) => clone_json(patch),
    }
}

/// Before any field of the patch is looked at, none is taken over.
proof fn lemma_patch_only_step_zero(
    base: Seq<(Seq<char>, JsonView)>,
    patch: Seq<(Seq<char>, JsonView)>,
)
    ensures
        patch_only(base, patch, 0) == Seq::<(Seq<char>, JsonView)>::empty(),
{
    reveal(Seq::filter);
    assert(patch.take(0) =~= Seq::<(Seq<char>, JsonView)>::empty());
}

/// The place of the first of the first `limit` fields named `key`, or
/// `limit` where there is none.
fn find_field_among(fields: &Vec<(String, Json)>, limit: usize, key: &String) -> (index: usize)
    requires
        limit <= fields.len(),
    ensures
        index == field_index(fields_view(fields@).take(limit as int), key@),
        index <= limit,
{
    let ghost first = fields_view(fields@).take(limit as int);
    let mut i: usize = 0;
    proof {
        assert(first.skip(0) =~= first);
    }
    while i < limit && !fields[i].0.eq(key)
        invariant
            i <= limit,
            limit <= fields.len(),
            first == fields_view(fields@).take(limit as int),
            field_index(first, key@) == i + field_index(first.skip(i as int), key@),
        decreases limit - i,
    {
        proof {
            let rest = first.skip(i as int);
            assert(rest[0].0 == fields[i as int].0@);
            assert(rest.drop_first() =~= first.skip(i + 1));
        }
        i += 1;
    }
    proof {
        let rest = first.skip(i as int);
        if i < limit {
            assert(rest[0].0 == fields[i as int].0@);
        }
    }
    i
}

/// Where the first field of a name stands once a field is added at the end.
proof fn lemma_field_index_push(
    fields: Seq<(Seq<char>, JsonView)>,
    entry: (Seq<char>, JsonView),
    key: Seq<char>,
)
    ensures
        field_index(fields, key) <= fields.len(),
        field_index(fields.push(entry), key) == if field_index(fields, key) < fields.len() {
            field_index(fields, key)
        } else if entry.0 == key {
            fields.len() as int
        } else {
            fields.len() as int + 1
        },
    decreases fields.len(),
{
    if fields.len() == 0 {
        assert(fields.push(entry).drop_first() =~= fields);
    } else {
        assert(fields.push(entry).drop_first() =~= fields.drop_first().push(entry));
        lemma_field_index_push(fields.drop_first(), entry, key);
    }
}

/// Where the first field of a name stands in two runs of fields in a row.
proof fn lemma_field_index_concat(
    front: Seq<(Seq<char>, JsonView)>,
    back: Seq<(Seq<char>, JsonView)>,
    key: Seq<char>,
)
    ensures
        field_index(front, key) <= front.len(),
        field_index(front + back, key) == if field_index(front, key) < front.len() {
            field_index(front, key)
        } else {
            front.len() as int + field_index(back, key)
        },
    decreases back.len(),
{
    lemma_field_index_push(front, (key, JsonView::Null), key);
    if back.len() == 0 {
        assert(front + back =~= front);
    } else {
        let shorter = back.drop_last();
        lemma_field_index_concat(front, shorter, key);
        assert(front + back =~= (front + shorter).push(back.last()));
        assert(back =~= shorter.push(back.last()));
        lemma_field_index_push(front + shorter, back.last(), key);
        lemma_field_index_push(shorter, back.last(), key);
    }
}

/// What a run of fields holds under a name once a field is added at the
/// end: what it held, or else the new field where it has the name.
proof fn lemma_field_push(
    fields: Seq<(Seq<char>, JsonView)>,
    entry: (Seq<char>, JsonView),
    key: Seq<char>,
)
    ensures
        field(fields.push(entry), key) == match field(fields, key) {
            Some(value) => Some(value),
            None => if entry.0 == key {
                Some(entry.1)
            } else {
                None
            },
        },
{
    lemma_field_index_push(fields, entry, key);
    lemma_field_index_is_first(fields, key);
}

/// Among the fields that only the patch has, a name that the base lacks is
/// found where the patch has it.
proof fn lemma_field_of_patch_only(
    base: Seq<(Seq<char>, JsonView)>,
    patch: Seq<(Seq<char>, JsonView)>,
    key: Seq<char>,
)
    requires
        field(base, key) is None,
    ensures
        field(patch.filter(lacks_name(base)), key) == field(patch, key),
    decreases patch.len(),
{
    reveal(Seq::filter);
    if patch.len() > 0 {
        let shorter = patch.drop_last();
        let last = patch.last();
        lemma_field_of_patch_only(base, shorter, key);
        assert(patch =~= shorter.push(last));
        lemma_field_push(shorter, last, key);
        lemma_field_push(shorter.filter(lacks_name(base)), last, key);
    }
}

/// What a merge of two objects holds under a name: the merge of the two
/// values where both have the name, the value of the one that has it where
/// only one does, and nothing where neither does. So the merge keeps what
/// the patch says and fills in from the base what the patch lacks.
pub proof fn lemma_merged_field(
    base: Seq<(Seq<char>, JsonView)>,
    patch: Seq<(Seq<char>, JsonView)>,
    key: Seq<char>,
)
    ensures
        field(merged_fields(base, patch), key) == match (field(base, key), field(patch, key)) {
            (Some(x), Some(y)) => Some(merged(x, y)),
            (Some(x), None) => Some(x),
            (None, y) => y,
        },
{
    let front = Seq::new(
        base.len(),
        |i: int|
            if 0 <= i < base.len() {
                (
                    base[i].0,
                    match field(patch, base[i].0) {
                        Some(value) => merged(base[i].1, value),
                        None => base[i].1,
                    },
                )
            } else {
                (Seq::empty(), JsonView::Null)
            },
    );
    let back = patch.filter(lacks_name(base));
    assert(merged_fields(base, patch) == front + back);
    lemma_field_index_by_names(front, base, key);
    lemma_field_index_concat(front, back, key);
    lemma_field_index_push(base, (key, JsonView::Null), key);
    let i = field_index(base, key);
    if i < base.len() {
        lemma_field_index_is_first(base, key);
        assert(base[i].0 == key);
        assert((front + back)[i] == front[i]);
    } else {
        lemma_field_of_patch_only(base, patch, key);
        lemma_field_index_is_first(back, key);
        let j = field_index(back, key);
        if j < back.len() {
            assert((front + back)[front.len() + j] == back[j]);
        }
    }
}

/// The field at the place that `field_index` gives has the name asked for.
proof fn lemma_field_index_is_first(fields: Seq<(Seq<char>, JsonView)>, key: Seq<char>)
    ensures
        field_index(fields, key) < fields.len() ==> fields[field_index(fields, key)].0 == key,
        0 <= field_index(fields, key) <= fields.len(),
    decreases fields.len(),
{
    if fields.len() > 0 && fields[0].0 != key {
        lemma_field_index_is_first(fields.drop_first(), key);
    }
}

/// Against anything but an object, and into anything but an object, the
/// patch wins.
pub proof fn lemma_patch_wins(base: JsonView, patch: JsonView)
    requires
        !(base is Object) || !(patch is Object),
    ensures
        merged(base, patch) == patch,
{
}

} // verus!
