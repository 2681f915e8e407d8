use vstd::prelude::*;
use crate::models::{CreateLaunchItemRequest, LaunchItem, OpError, UpdateLaunchItemRequest};
use crate::outside::{new_id, now_rfc3339};

verus! {

broadcast use vstd::seq_lib::group_seq_properties;

/// Some item of `s` carries the id `id`.
pub open spec fn has_item_id(s: Seq<LaunchItem>, id: Seq<char>) -> bool {
    exists|k: int| 0 <= k < s.len() && #[trigger] s[k].id@ == id
}

/// No two items of `s` share an id.
pub open spec fn item_ids_unique(s: Seq<LaunchItem>) -> bool {
    forall|a: int, b: int|
        0 <= a < s.len() && 0 <= b < s.len() && a != b ==> #[trigger] s[a].id@ != #[trigger] s[b].id@
}

/// Every item's order is its position in `s`.
pub open spec fn orders_are_positions(s: Seq<LaunchItem>) -> bool {
    forall|k: int| 0 <= k < s.len() ==> #[trigger] s[k].order == k
}

/// `k` is the first position of `s` whose item carries `id`.
pub open spec fn first_item_with_id(s: Seq<LaunchItem>, id: Seq<char>, k: int) -> bool {
    &&& 0 <= k < s.len()
    &&& s[k].id@ == id
    &&& forall|j: int| 0 <= j < k ==> #[trigger] s[j].id@ != id
}

/// `after` is `before` with one item appended whose id is new and whose
/// order is the former length: what a successful create does.
pub open spec fn is_create_step(before: Seq<LaunchItem>, after: Seq<LaunchItem>) -> bool {
    &&& after.len() == before.len() + 1
    &&& after.drop_last() == before
    &&& !has_item_id(before, after.last().id@)
    &&& after.last().order == before.len()
}

/// The item that creating `req` under `id` at time `now` appends at `order`.
pub open spec fn new_item(req: CreateLaunchItemRequest, id: String, now: String, order: i32) -> LaunchItem {
    LaunchItem {
        id: id,
        name: req.name,
        path: req.path,
        args: req.args,
        working_dir: req.working_dir,
        icon: req.icon,
        shortcut: req.shortcut,
        group_id: req.group_id,
        order: order,
        created_at: now,
        updated_at: now,
    }
}

/// `old` with every field that `req` supplies replaced, and stamped at `now`.
pub open spec fn merged_item(old: LaunchItem, req: UpdateLaunchItemRequest, now: String) -> LaunchItem {
    LaunchItem {
        id: old.id,
        name: match req.name { Some(v) => v, None => old.name },
        path: match req.path { Some(v) => v, None => old.path },
        args: match req.args { Some(v) => v, None => old.args },
        working_dir: match req.working_dir { Some(v) => Some(v), None => old.working_dir },
        icon: match req.icon { Some(v) => Some(v), None => old.icon },
        shortcut: match req.shortcut { Some(v) => Some(v), None => old.shortcut },
        group_id: match req.group_id { Some(v) => Some(v), None => old.group_id },
        order: match req.order { Some(v) => v, None => old.order },
        created_at: old.created_at,
        updated_at: now,
    }
}

/// `s` without the items that carry `id`, the others in their order.
pub open spec fn items_without(s: Seq<LaunchItem>, id: Seq<char>) -> Seq<LaunchItem> {
    s.filter(id_is_not(id))
}

/// The test that keeps an item whose id is not `id`.
pub open spec fn id_is_not(id: Seq<char>) -> spec_fn(LaunchItem) -> bool {
    |x: LaunchItem| x.id@ != id
}

/// The first position of an item with id `id`, if there is one.
pub fn find_launch_item(items: &Vec<LaunchItem>, id: &String) -> (r: Option<usize>)
    ensures
        r.is_none() <==> !has_item_id(items@, id@),
        r matches Some(k) ==> first_item_with_id(items@, id@, k as int),
{
    let mut i: usize = 0;
    while i < items.len()
        invariant
            i <= items@.len(),
            forall|j: int| 0 <= j < i ==> #[trigger] items@[j].id@ != id@,
        decreases items@.len() - i,
    {
        if items[i].id == *id {
            return Some(i);
        }
        i = i + 1;
    }
    None
}

/// Appends the item that `request` describes under the id `id`, created and
/// updated at `now`, with its order the collection's former length. Refused,
/// with the collection unchanged, when `id` is already in use.
pub fn insert_launch_item(
    items: &mut Vec<LaunchItem>,
    request: CreateLaunchItemRequest,
    id: String,
    now: String,
) -> (r: Result<LaunchItem, OpError>)
    requires
        old(items)@.len() < i32::MAX,
    ensures
        r is Err <==> has_item_id(old(items)@, id@),
        r matches Err(e) ==> e == OpError::DuplicateId(id) && final(items)@ == old(items)@,
        r matches Ok(it) ==> final(items)@ == old(items)@.push(
            new_item(request, id, now, old(items)@.len() as i32),
        ) && it.same_as(&final(items)@.last()),
        item_ids_unique(old(items)@) ==> item_ids_unique(final(items)@),
{
    if find_launch_item(items, &id).is_some() {
        return Err(OpError::DuplicateId(id));
    }
    let order = items.len() as i32;
    let item = LaunchItem {
        id: id,
        name: request.name,
        path: request.path,
        args: request.args,
        working_dir: request.working_dir,
        icon: request.icon,
        shortcut: request.shortcut,
        group_id: request.group_id,
        order: order,
        created_at: now.clone(),
        updated_at: now,
    };
    let created = item.copy();
    items.push(item);
    proof {
        let s = final(items)@;
        assert forall|a: int, b: int|
            item_ids_unique(old(items)@) && 0 <= a < s.len() && 0 <= b < s.len() && a != b
            implies #[trigger] s[a].id@ != #[trigger] s[b].id@ by {
            if a == s.len() - 1 {
                assert(old(items)@[b] == s[b]);
            } else if b == s.len() - 1 {
                assert(old(items)@[a] == s[a]);
            } else {
                assert(old(items)@[a] == s[a] && old(items)@[b] == s[b]);
            }
        }
    }
    Ok(created)
}

/// Creates a launch item under a freshly drawn id, stamped with the current
/// time and appended at the end. Should the drawn id be in use already, the
/// collection is left as it was and `DuplicateId` comes back.
pub fn create_launch_item(items: &mut Vec<LaunchItem>, request: CreateLaunchItemRequest) -> (r:
    Result<LaunchItem, OpError>)
    requires
        old(items)@.len() < i32::MAX,
    ensures
        r matches Err(e) ==> e matches OpError::DuplicateId(id) && has_item_id(old(items)@, id@),
        r is Err ==> final(items)@ == old(items)@,
        old(items)@.len() == 0 ==> r is Ok,
        r matches Ok(it) ==> {
            &&& !has_item_id(old(items)@, it.id@)
            &&& final(items)@ == old(items)@.push(
                new_item(request, it.id, it.created_at, old(items)@.len() as i32),
            )
            &&& it.same_as(&final(items)@.last())
            &&& it.order == old(items)@.len()
            &&& it.created_at == it.updated_at
        },
        r is Ok ==> is_create_step(old(items)@, final(items)@),
        item_ids_unique(old(items)@) ==> item_ids_unique(final(items)@),
{
    let id = new_id();
    let now = now_rfc3339();
    let r = insert_launch_item(items, request, id, now);
    assert(r is Ok ==> final(items)@.drop_last() =~= old(items)@);
    r
}

/// Applies the partial update `request` to the first item with its id,
/// stamping it at `now`; `NotFound`, with the collection unchanged, when no
/// item carries that id.
pub fn apply_launch_item_update(
    items: &mut Vec<LaunchItem>,
    request: UpdateLaunchItemRequest,
    now: String,
) -> (r: Result<LaunchItem, OpError>)
    ensures
        r is Err <==> !has_item_id(old(items)@, request.id@),
        r matches Err(e) ==> e == OpError::NotFound(request.id) && final(items)@ == old(items)@,
        r matches Ok(it) ==> exists|k: int|
            {
                &&& first_item_with_id(old(items)@, request.id@, k)
                &&& final(items)@ == old(items)@.update(k, merged_item(old(items)@[k], request, now))
                &&& it.same_as(&final(items)@[k])
            },
        item_ids_unique(old(items)@) ==> item_ids_unique(final(items)@),
{
    let pos = find_launch_item(items, &request.id);
    match pos {
        None => Err(OpError::NotFound(request.id)),
        Some(k) => {
            let ghost req = request;
            let old_item = items.remove(k);
            let merged = LaunchItem {
                id: old_item.id,
                name: match request.name { Some(v) => v, None => old_item.name },
                path: match request.path { Some(v) => v, None => old_item.path },
                args: match request.args { Some(v) => v, None => old_item.args },
                working_dir: match request.working_dir { Some(v) => Some(v), None => old_item.working_dir },
                icon: match request.icon { Some(v) => Some(v), None => old_item.icon },
                shortcut: match request.shortcut { Some(v) => Some(v), None => old_item.shortcut },
                group_id: match request.group_id { Some(v) => Some(v), None => old_item.group_id },
                order: match request.order { Some(v) => v, None => old_item.order },
                created_at: old_item.created_at,
                updated_at: now,
            };
            let updated = merged.copy();
            items.insert(k, merged);
            proof {
                let o = old(items)@;
                let s = final(items)@;
                assert(s =~= o.update(k as int, merged_item(o[k as int], req, now)));
                assert forall|a: int, b: int|
                    item_ids_unique(o) && 0 <= a < s.len() && 0 <= b < s.len() && a != b
                    implies #[trigger] s[a].id@ != #[trigger] s[b].id@ by {
                    assert(s[a].id == o[a].id && s[b].id == o[b].id);
                }
            }
            Ok(updated)
        },
    }
}

/// Applies the partial update `request`, stamping the item with the current
/// time; `NotFound`, with the collection unchanged, when no item carries its id.
pub fn update_launch_item(items: &mut Vec<LaunchItem>, request: UpdateLaunchItemRequest) -> (r:
    Result<LaunchItem, OpError>)
    ensures
        r is Err <==> !has_item_id(old(items)@, request.id@),
        r matches Err(e) ==> e == OpError::NotFound(request.id) && final(items)@ == old(items)@,
        r matches Ok(it) ==> exists|k: int|
            {
                &&& first_item_with_id(old(items)@, request.id@, k)
                &&& final(items)@ == old(items)@.update(
                    k,
                    merged_item(old(items)@[k], request, it.updated_at),
                )
                &&& it.same_as(&final(items)@[k])
            },
        item_ids_unique(old(items)@) ==> item_ids_unique(final(items)@),
{
    let now = now_rfc3339();
    apply_launch_item_update(items, request, now)
}

/// Removes every item that carries `id`; nothing changes when none does.
pub fn delete_launch_item(items: &mut Vec<LaunchItem>, id: &String)
    ensures
        final(items)@ == items_without(old(items)@, id@),
        item_ids_unique(old(items)@) ==> item_ids_unique(final(items)@),
{
    let ghost orig = items@;
    let mut rest: Vec<LaunchItem> = Vec::new();
    std::mem::swap(items, &mut rest);
    let ghost n = orig.len();
    while rest.len() > 0
        invariant
            n == orig.len(),
            rest@.len() <= n,
            rest@ == orig.subrange(n - rest@.len(), n as int),
            items@ == orig.subrange(0, n - rest@.len()).filter(id_is_not(id@)),
        decreases rest@.len(),
    {
        let ghost i = n - rest@.len();
        let it = rest.remove(0);
        assert(it == orig[i]);
        assert(orig.subrange(0, i + 1) =~= orig.subrange(0, i).push(it));
        proof {
            orig.subrange(0, i).lemma_filter_push(it, id_is_not(id@));
        }
        assert(id_is_not(id@)(it) == (it.id@ != id@));
        if !(it.id == *id) {
            items.push(it);
        }
        assert(rest@ =~= orig.subrange(i + 1, n as int));
    }
    assert(orig.subrange(0, n as int) =~= orig);
    proof {
        lemma_filter_keeps_unique_ids(orig, id_is_not(id@));
    }
}

/// Dropping items never makes two ids equal.
pub proof fn lemma_filter_keeps_unique_ids(s: Seq<LaunchItem>, p: spec_fn(LaunchItem) -> bool)
    ensures
        item_ids_unique(s) ==> item_ids_unique(s.filter(p)),
    decreases s.len(),
{
    if s.len() > 0 {
        lemma_filter_keeps_unique_ids(s.drop_last(), p);
        assert(s =~= s.drop_last().push(s.last()));
        s.drop_last().lemma_filter_push(s.last(), p);
        let f = s.filter(p);
        let g = s.drop_last().filter(p);
        if item_ids_unique(s) {
            assert(item_ids_unique(s.drop_last())) by {
                assert forall|a: int, b: int|
                    0 <= a < s.len() - 1 && 0 <= b < s.len() - 1 && a != b
                    implies #[trigger] s.drop_last()[a].id@ != #[trigger] s.drop_last()[b].id@ by {
                    assert(s[a].id@ != s[b].id@);
                }
            }
            if p(s.last()) {
                assert(f =~= g.push(s.last()));
                assert forall|a: int| 0 <= a < g.len() implies #[trigger] g[a].id@ != s.last().id@ by {
                    assert(g.contains(g[a]));
                    s.drop_last().lemma_filter_contains_rev(p, g[a]);
                    let j = choose|j: int| 0 <= j < s.len() - 1 && s.drop_last()[j] == g[a];
                    assert(s[j] == s.drop_last()[j]);
                    assert(s[j].id@ != s[s.len() - 1].id@);
                }
                assert forall|a: int, b: int|
                    0 <= a < f.len() && 0 <= b < f.len() && a != b
                    implies #[trigger] f[a].id@ != #[trigger] f[b].id@ by {
                    if a == f.len() - 1 {
                        assert(f[b] == g[b]);
                    } else if b == f.len() - 1 {
                        assert(f[a] == g[a]);
                    } else {
                        assert(f[a] == g[a] && f[b] == g[b]);
                    }
                }
            } else {
                assert(f =~= g);
            }
        }
    }
}

/// Appending an item whose order is the collection's length keeps every
/// order equal to its position, so items created one after another carry the
/// orders 0, 1, 2, ... in the order of their creation.
pub proof fn lemma_append_keeps_orders(s: Seq<LaunchItem>, it: LaunchItem)
    requires
        orders_are_positions(s),
        it.order == s.len(),
    ensures
        orders_are_positions(s.push(it)),
{
    assert forall|k: int| 0 <= k < s.push(it).len() implies #[trigger] s.push(it)[k].order == k by {
        if k < s.len() {
            assert(s.push(it)[k] == s[k]);
        }
    }
}

/// A partial update replaces exactly the fields it supplies: every omitted
/// field keeps its value, the id and creation time never change, and the
/// update time is always refreshed. An update that supplies nothing changes
/// nothing but the update time.
pub proof fn lemma_partial_merge(it: LaunchItem, req: UpdateLaunchItemRequest, now: String)
    ensures
        merged_item(it, req, now).id == it.id,
        merged_item(it, req, now).created_at == it.created_at,
        merged_item(it, req, now).updated_at == now,
        req.name is None ==> merged_item(it, req, now).name == it.name,
        req.path is None ==> merged_item(it, req, now).path == it.path,
        req.args is None ==> merged_item(it, req, now).args == it.args,
        req.working_dir is None ==> merged_item(it, req, now).working_dir == it.working_dir,
        req.icon is None ==> merged_item(it, req, now).icon == it.icon,
        req.shortcut is None ==> merged_item(it, req, now).shortcut == it.shortcut,
        req.group_id is None ==> merged_item(it, req, now).group_id == it.group_id,
        req.order is None ==> merged_item(it, req, now).order == it.order,
        req.name matches Some(v) ==> merged_item(it, req, now).name == v,
        req.path matches Some(v) ==> merged_item(it, req, now).path == v,
        req.args matches Some(v) ==> merged_item(it, req, now).args == v,
        req.working_dir matches Some(v) ==> merged_item(it, req, now).working_dir == Some(v),
        req.icon matches Some(v) ==> merged_item(it, req, now).icon == Some(v),
        req.shortcut matches Some(v) ==> merged_item(it, req, now).shortcut == Some(v),
        req.group_id matches Some(v) ==> merged_item(it, req, now).group_id == Some(v),
        req.order matches Some(v) ==> merged_item(it, req, now).order == v,
{
}

/// Deleting an id that no item carries leaves the collection as it was.
pub proof fn lemma_delete_absent_is_identity(s: Seq<LaunchItem>, id: Seq<char>)
    requires
        !has_item_id(s, id),
    ensures
        items_without(s, id) == s,
    decreases s.len(),
{
    if s.len() > 0 {
        let d = s.drop_last();
        assert(s =~= d.push(s.last()));
        assert(!has_item_id(d, id)) by {
            if has_item_id(d, id) {
                let k = choose|k: int| 0 <= k < d.len() && #[trigger] d[k].id@ == id;
                assert(s[k] == d[k]);
            }
        }
        lemma_delete_absent_is_identity(d, id);
        d.lemma_filter_push(s.last(), id_is_not(id));
        assert(s[s.len() - 1].id@ != id);
    }
}

/// After a delete no item carries the id, so deleting it a second time
/// changes nothing.
pub proof fn lemma_delete_twice(s: Seq<LaunchItem>, id: Seq<char>)
    ensures
        !has_item_id(items_without(s, id), id),
        items_without(items_without(s, id), id) == items_without(s, id),
{
    broadcast use vstd::seq_lib::group_filter_ensures;

    let f = items_without(s, id);
    assert(!has_item_id(f, id)) by {
        if has_item_id(f, id) {
            let k = choose|k: int| 0 <= k < f.len() && #[trigger] f[k].id@ == id;
            assert(id_is_not(id)(f[k]));
        }
    }
    lemma_delete_absent_is_identity(f, id);
}

/// Starting from an empty collection, any run of creates leaves the created
/// items in creation order, each with its position as its order, and no two
/// of them with the same id.
pub proof fn lemma_create_sequence(states: Seq<Seq<LaunchItem>>)
    requires
        states.len() >= 1,
        states[0].len() == 0,
        forall|k: int| 0 <= k < states.len() - 1 ==> is_create_step(#[trigger] states[k], states[k + 1]),
    ensures
        states.last().len() == states.len() - 1,
        forall|k: int| 1 <= k < states.len() ==> #[trigger] states.last()[k - 1] == states[k].last(),
        orders_are_positions(states.last()),
        item_ids_unique(states.last()),
    decreases states.len(),
{
    if states.len() > 1 {
        let prev = states.drop_last();
        assert forall|k: int| 0 <= k < prev.len() - 1 implies is_create_step(#[trigger] prev[k], prev[k + 1]) by {
            assert(is_create_step(states[k], states[k + 1]));
        }
        lemma_create_sequence(prev);
        let before = prev.last();
        let after = states.last();
        assert(is_create_step(states[states.len() - 2], states[states.len() - 1]));
        assert(after =~= before.push(after.last()));
        assert forall|k: int| 1 <= k < states.len() implies #[trigger] after[k - 1] == states[k].last() by {
            if k < states.len() - 1 {
                assert(prev[k] == states[k]);
                assert(after[k - 1] == before[k - 1]);
            }
        }
        lemma_append_keeps_orders(before, after.last());
        assert forall|a: int, b: int| 0 <= a < after.len() && 0 <= b < after.len() && a != b
            implies #[trigger] after[a].id@ != #[trigger] after[b].id@ by {
            if a == after.len() - 1 {
                assert(after[b] == before[b]);
            } else if b == after.len() - 1 {
                assert(after[a] == before[a]);
            } else {
                assert(after[a] == before[a] && after[b] == before[b]);
            }
        }
    }
}

} // verus!
