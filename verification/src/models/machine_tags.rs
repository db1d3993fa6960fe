//! Machine tags: the filtered tag list, and which tags of a batch exist and
//! which must be created.
use vstd::prelude::*;

use crate::entitys::machine_tags::QueryTagsParams;
use crate::models::query::{param_views, ParamView, SqlParam};
use crate::text::opt_string_view;

verus! {

/// The text of the tag list query, as written: the two optional conditions
/// keep their numbers `$1` and `$2` whichever is present.
pub open spec fn spec_distinct_tags_sql(has_category: bool, has_active: bool) -> Seq<char> {
    "\n        SELECT * FROM machine_tags\n        WHERE 1=1\n    "@ + (if has_category {
        " AND category = $1"@
    } else {
        Seq::empty()
    }) + (if has_active {
        " AND is_active = $2"@
    } else {
        Seq::empty()
    }) + " ORDER BY created_at DESC"@
}

/// The tags of the tag list, newest first, and the values bound to the
/// query: when a filter is set both the category and the active flag are
/// bound (as `$1` and `$2`, each possibly `NULL`), else nothing is.
pub fn query_all_distinct_tags(params: &QueryTagsParams) -> (r: (String, Vec<SqlParam>))
    ensures
        r.0@ == spec_distinct_tags_sql(params.category is Some, params.is_active is Some),
        param_views(r.1@) == if params.category is Some || params.is_active is Some {
            seq![
                ParamView::OptText(opt_string_view(params.category)),
                ParamView::OptBool(params.is_active),
            ]
        } else {
            Seq::empty()
        },
{
    let mut query = String::from_str("\n        SELECT * FROM machine_tags\n        WHERE 1=1\n    ");
    if params.category.is_some() {
        query.append(" AND category = $1");
    }
    if params.is_active.is_some() {
        query.append(" AND is_active = $2");
    }
    query.append(" ORDER BY created_at DESC");
    let mut binds: Vec<SqlParam> = Vec::new();
    if params.category.is_some() || params.is_active.is_some() {
        let category = match &params.category {
            Some(c) => Some(c.clone()),
            None => None,
        };
        binds.push(SqlParam::OptText(category));
        binds.push(SqlParam::OptBool(params.is_active));
    }
    assert(param_views(binds@) =~= if params.category is Some || params.is_active is Some {
        seq![
            ParamView::OptText(opt_string_view(params.category)),
            ParamView::OptBool(params.is_active),
        ]
    } else {
        Seq::<ParamView>::empty()
    });
    (query, binds)
}

/// What getting a tag by name does.
#[derive(Debug, Clone, Copy, PartialEq, Eq)]
pub enum TagStep {
    /// The tag exists: its id is the answer.
    Existing(i32),
    /// There is no tag of that name yet: create it (active).
    Create,
}

/// Getting a tag by name, once its id has been looked up: the existing tag,
/// or a new one.
pub fn insert_or_get_tag(existing: Option<i32>) -> (r: TagStep)
    ensures
        r == match existing {
            Some(id) => TagStep::Existing(id),
            None => TagStep::Create,
        },
{
    match existing {
        Some(id) => TagStep::Existing(id),
        None => TagStep::Create,
    }
}

/// The names of the existing tags, in the order the database gave them.
pub open spec fn known_names(existing: Seq<(String, i32)>) -> Seq<Seq<char>> {
    existing.map_values(|t: (String, i32)| t.0@)
}

/// The ids of the existing tags, in the order the database gave them.
pub open spec fn known_ids(existing: Seq<(String, i32)>) -> Seq<i32> {
    existing.map_values(|t: (String, i32)| t.1)
}

/// The requested names that are not among the known ones, once each, in the
/// order they are first requested: the batch is deduplicated by name.
pub open spec fn missing_names(requested: Seq<Seq<char>>, known: Seq<Seq<char>>) -> Seq<Seq<char>>
    decreases requested.len(),
{
    if requested.len() == 0 {
        Seq::empty()
    } else {
        let before = missing_names(requested.drop_last(), known);
        let name = requested.last();
        before + (if known.contains(name) || before.contains(name) {
            Seq::empty()
        } else {
            seq![name]
        })
    }
}

/// The characters of each string.
pub open spec fn names(v: Seq<String>) -> Seq<Seq<char>> {
    v.map_values(|s: String| s@)
}

/// Whether one of the strings holds the same characters as `name`.
fn contains_name(v: &Vec<String>, name: &String) -> (r: bool)
    ensures
        r == names(v@).contains(name@),
{
    let n = v.len();
    let mut k: usize = 0;
    while k < n
        invariant
            n == v.len(),
            k <= n,
            forall|j: int| 0 <= j < k ==> v@[j]@ != name@,
        decreases n - k,
    {
        if v[k] == *name {
            assert(names(v@)[k as int] == name@);
            return true;
        }
        k = k + 1;
    }
    assert forall|j: int| 0 <= j < names(v@).len() implies names(v@)[j] != name@ by {
        assert(names(v@)[j] == v@[j]@);
    }
    false
}

/// What creating a batch of tags by name has to do.
#[derive(Debug, Clone)]
pub struct TagBatchPlan {
    /// The ids of the tags that exist, first in the result.
    pub known_ids: Vec<i32>,
    /// The names to create, whose new ids follow in the result.
    pub to_insert: Vec<String>,
}

/// The plan of inserting or getting tags by name, once the existing tags
/// among the names have been read as `(name, id)` pairs: their ids come
/// first, in the order read (an empty batch gets no ids at all, whatever was
/// read), then one tag is created for each requested name
/// that does not exist, once per name, in the order of first request.
pub fn batch_insert_or_get_tags(tag_names: &Vec<String>, existing: &Vec<(String, i32)>) -> (r:
    TagBatchPlan)
    ensures
        r.known_ids@ == if tag_names@.len() == 0 {
            Seq::<i32>::empty()
        } else {
            known_ids(existing@)
        },
        names(r.to_insert@) == missing_names(names(tag_names@), known_names(existing@)),
{
    let mut ids: Vec<i32> = Vec::new();
    if tag_names.len() == 0 {
        return TagBatchPlan { known_ids: ids, to_insert: Vec::new() };
    }
    let ne = existing.len();
    let mut j: usize = 0;
    while j < ne
        invariant
            ne == existing.len(),
            j <= ne,
            ids@ == known_ids(existing@).take(j as int),
        decreases ne - j,
    {
        ids.push(existing[j].1);
        assert(known_ids(existing@).take(j + 1) =~= known_ids(existing@).take(j as int).push(
            existing@[j as int].1,
        ));
        j = j + 1;
    }
    assert(known_ids(existing@).take(ne as int) =~= known_ids(existing@));
    let ghost requested = names(tag_names@);
    let ghost known = known_names(existing@);
    let mut out: Vec<String> = Vec::new();
    let n = tag_names.len();
    let mut i: usize = 0;
    while i < n
        invariant
            n == tag_names.len(),
            i <= n,
            ne == existing.len(),
            requested == names(tag_names@),
            known == known_names(existing@),
            names(out@) == missing_names(requested.take(i as int), known),
        decreases n - i,
    {
        let name = &tag_names[i];
        let mut found = false;
        let mut k: usize = 0;
        while k < ne
            invariant
                ne == existing.len(),
                k <= ne,
                known == known_names(existing@),
                found == known.take(k as int).contains(name@),
            decreases ne - k,
        {
            let ghost t0 = known.take(k as int);
            let ghost t1 = known.take(k + 1);
            assert(t1 =~= t0.push(existing@[k as int].0@));
            let same = existing[k].0 == *name;
            if same {
                found = true;
                assert(t1[k as int] == name@);
            } else {
                assert(t1.contains(name@) ==> t0.contains(name@)) by {
                    if t1.contains(name@) {
                        let w = choose|w: int| 0 <= w < t1.len() && t1[w] == name@;
                        assert(w < k);
                        assert(t0[w] == t1[w]);
                    }
                }
                assert(t0.contains(name@) ==> t1.contains(name@)) by {
                    if t0.contains(name@) {
                        let w = choose|w: int| 0 <= w < t0.len() && t0[w] == name@;
                        assert(t1[w] == t0[w]);
                    }
                }
            }
            k = k + 1;
        }
        assert(known.take(ne as int) =~= known);
        let ghost before = out@;
        assert(requested.take(i + 1).drop_last() =~= requested.take(i as int));
        assert(requested.take(i + 1).last() == name@);
        let already = contains_name(&out, name);
        if !found && !already {
            out.push(name.clone());
            assert(names(out@) =~= names(before).push(name@));
        } else {
            assert(missing_names(requested.take(i + 1), known) =~= missing_names(
                requested.take(i as int),
                known,
            ));
        }
        i = i + 1;
    }
    assert(requested.take(n as int) =~= requested);
    TagBatchPlan { known_ids: ids, to_insert: out }
}

/// Every requested name either exists or is created, no existing name is
/// created again, and no name is created twice.
pub proof fn lemma_tag_plan_covers(requested: Seq<Seq<char>>, known: Seq<Seq<char>>)
    ensures
        forall|i: int|
            0 <= i < requested.len() ==> known.contains(#[trigger] requested[i]) || missing_names(
                requested,
                known,
            ).contains(requested[i]),
        forall|i: int|
            0 <= i < missing_names(requested, known).len() ==> !known.contains(
                #[trigger] missing_names(requested, known)[i],
            ),
        forall|i: int, j: int|
            0 <= i < j < missing_names(requested, known).len() ==> #[trigger] missing_names(
                requested,
                known,
            )[i] != #[trigger] missing_names(requested, known)[j],
    decreases requested.len(),
{
    if requested.len() > 0 {
        let prev = requested.drop_last();
        lemma_tag_plan_covers(prev, known);
        let m = missing_names(requested, known);
        let mp = missing_names(prev, known);
        assert forall|i: int| 0 <= i < requested.len() implies known.contains(
            #[trigger] requested[i],
        ) || m.contains(requested[i]) by {
            if i < requested.len() - 1 {
                assert(requested[i] == prev[i]);
                if !known.contains(prev[i]) {
                    let j = choose|j: int| 0 <= j < mp.len() && mp[j] == prev[i];
                    assert(m[j] == mp[j]);
                }
            } else if !known.contains(requested.last()) {
                if mp.contains(requested.last()) {
                    let j = choose|j: int| 0 <= j < mp.len() && mp[j] == requested.last();
                    assert(m[j] == mp[j]);
                } else {
                    assert(m[m.len() - 1] == requested.last());
                }
            }
        }
        assert forall|i: int| 0 <= i < m.len() implies !known.contains(#[trigger] m[i]) by {
            if i < mp.len() {
                assert(m[i] == mp[i]);
            }
        }
        assert forall|i: int, j: int| 0 <= i < j < m.len() implies #[trigger] m[i] != #[trigger] m[j] by {
            if j < mp.len() {
                assert(m[i] == mp[i]);
                assert(m[j] == mp[j]);
            } else {
                assert(m[i] == mp[i]);
                assert(mp.contains(m[i]));
            }
        }
    }
}

} // verus!
