use vstd::prelude::*;
use crate::items::lemma_filter_keeps_unique_ids;
use crate::items::{has_item_id, item_ids_unique};
use crate::models::{CreateGroupRequest, Group, LaunchItem, OpError, UpdateGroupRequest};
use crate::outside::{new_id, now_rfc3339};

verus! {

broadcast use vstd::seq_lib::group_seq_properties;

/// Some group of `s` carries the id `id`.
pub open spec fn has_group_id(s: Seq<Group>, id: Seq<char>) -> bool {
    exists|k: int| 0 <= k < s.len() && #[trigger] s[k].id@ == id
}

/// No two groups of `s` share an id.
pub open spec fn group_ids_unique(s: Seq<Group>) -> bool {
    forall|a: int, b: int|
        0 <= a < s.len() && 0 <= b < s.len() && a != b ==> #[trigger] s[a].id@ != #[trigger] s[b].id@
}

/// `k` is the first position of `s` whose group carries `id`.
pub open spec fn first_group_with_id(s: Seq<Group>, id: Seq<char>, k: int) -> bool {
    &&& 0 <= k < s.len()
    &&& s[k].id@ == id
    &&& forall|j: int| 0 <= j < k ==> #[trigger] s[j].id@ != id
}

/// The group that creating `req` under `id` at time `now` appends at `order`.
pub open spec fn new_group(req: CreateGroupRequest, id: String, now: String, order: i32) -> Group {
    Group {
        id: id,
        name: req.name,
        color: req.color,
        icon: req.icon,
        expanded: req.expanded,
        order: order,
        created_at: now,
        updated_at: now,
    }
}

/// `old` with every field that `req` supplies replaced, and stamped at `now`.
pub open spec fn merged_group(old: Group, req: UpdateGroupRequest, now: String) -> Group {
    Group {
        id: old.id,
        name: match req.name { Some(v) => v, None => old.name },
        color: match req.color { Some(v) => Some(v), None => old.color },
        icon: match req.icon { Some(v) => Some(v), None => old.icon },
        expanded: match req.expanded { Some(v) => v, None => old.expanded },
        order: match req.order { Some(v) => v, None => old.order },
        created_at: old.created_at,
        updated_at: now,
    }
}

/// The test that keeps a group whose id is not `id`.
pub open spec fn group_id_is_not(id: Seq<char>) -> spec_fn(Group) -> bool {
    |g: Group| g.id@ != id
}

/// The test that keeps an item that does not belong to the group `id`.
pub open spec fn outside_group(id: Seq<char>) -> spec_fn(LaunchItem) -> bool {
    |x: LaunchItem| !(x.group_id matches Some(g) && g@ == id)
}

/// `s` without the groups that carry `id`, the others in their order.
pub open spec fn groups_without(s: Seq<Group>, id: Seq<char>) -> Seq<Group> {
    s.filter(group_id_is_not(id))
}

/// `s` without the items that belong to the group `id`, the others in their order.
pub open spec fn items_outside_group(s: Seq<LaunchItem>, id: Seq<char>) -> Seq<LaunchItem> {
    s.filter(outside_group(id))
}

/// The first position of a group with id `id`, if there is one.
pub fn find_group(groups: &Vec<Group>, id: &String) -> (r: Option<usize>)
    ensures
        r.is_none() <==> !has_group_id(groups@, id@),
        r matches Some(k) ==> first_group_with_id(groups@, id@, k as int),
{
    let mut i: usize = 0;
    while i < groups.len()
        invariant
            i <= groups@.len(),
            forall|j: int| 0 <= j < i ==> #[trigger] groups@[j].id@ != id@,
        decreases groups@.len() - i,
    {
        if groups[i].id == *id {
            return Some(i);
        }
        i = i + 1;
    }
    None
}

/// Appending one group whose id is new keeps the ids distinct.
proof fn lemma_push_keeps_unique_group_ids(s: Seq<Group>, g: Group)
    requires
        group_ids_unique(s),
        !has_group_id(s, g.id@),
    ensures
        group_ids_unique(s.push(g)),
{
    let t = s.push(g);
    assert forall|a: int, b: int| 0 <= a < t.len() && 0 <= b < t.len() && a != b
        implies #[trigger] t[a].id@ != #[trigger] t[b].id@ by {
        if a == s.len() {
            assert(s[b] == t[b]);
        } else if b == s.len() {
            assert(s[a] == t[a]);
        } else {
            assert(s[a] == t[a] && s[b] == t[b]);
        }
    }
}

/// Appends the group that `request` describes under the id `id`, created and
/// updated at `now`, with its order the collection's former length. Refused,
/// with the collection unchanged, when `id` is already in use.
pub fn insert_group(groups: &mut Vec<Group>, request: CreateGroupRequest, id: String, now: String) -> (r:
    Result<Group, OpError>)
    requires
        old(groups)@.len() < i32::MAX,
    ensures
        r is Err <==> has_group_id(old(groups)@, id@),
        r matches Err(e) ==> e == OpError::DuplicateId(id) && final(groups)@ == old(groups)@,
        r matches Ok(g) ==> final(groups)@ == old(groups)@.push(
            new_group(request, id, now, old(groups)@.len() as i32),
        ) && g == final(groups)@.last(),
        group_ids_unique(old(groups)@) ==> group_ids_unique(final(groups)@),
{
    if find_group(groups, &id).is_some() {
        return Err(OpError::DuplicateId(id));
    }
    let order = groups.len() as i32;
    let group = Group {
        id: id,
        name: request.name,
        color: request.color,
        icon: request.icon,
        expanded: request.expanded,
        order: order,
        created_at: now.clone(),
        updated_at: now,
    };
    let created = group.copy();
    proof {
        if group_ids_unique(groups@) {
            lemma_push_keeps_unique_group_ids(groups@, group);
        }
    }
    groups.push(group);
    Ok(created)
}

/// Creates a group under a freshly drawn id, stamped with the current time
/// and appended at the end. Should the drawn id be in use already, the
/// collection is left as it was and `DuplicateId` comes back.
pub fn create_group(groups: &mut Vec<Group>, request: CreateGroupRequest) -> (r: Result<Group, OpError>)
    requires
        old(groups)@.len() < i32::MAX,
    ensures
        r matches Err(e) ==> e matches OpError::DuplicateId(id) && has_group_id(old(groups)@, id@),
        r is Err ==> final(groups)@ == old(groups)@,
        old(groups)@.len() == 0 ==> r is Ok,
        r matches Ok(g) ==> {
            &&& !has_group_id(old(groups)@, g.id@)
            &&& final(groups)@ == old(groups)@.push(
                new_group(request, g.id, g.created_at, old(groups)@.len() as i32),
            )
            &&& g == final(groups)@.last()
            &&& g.order == old(groups)@.len()
        },
        group_ids_unique(old(groups)@) ==> group_ids_unique(final(groups)@),
{
    let id = new_id();
    let now = now_rfc3339();
    insert_group(groups, request, id, now)
}

/// Applies the partial update `request` to the first group with its id,
/// stamping it at `now`; `NotFound`, with the collection unchanged, when no
/// group carries that id.
pub fn apply_group_update(groups: &mut Vec<Group>, request: UpdateGroupRequest, now: String) -> (r:
    Result<Group, OpError>)
    ensures
        r is Err <==> !has_group_id(old(groups)@, request.id@),
        r matches Err(e) ==> e == OpError::NotFound(request.id) && final(groups)@ == old(groups)@,
        r matches Ok(g) ==> exists|k: int|
            {
                &&& first_group_with_id(old(groups)@, request.id@, k)
                &&& final(groups)@ == old(groups)@.update(k, merged_group(old(groups)@[k], request, now))
                &&& g == final(groups)@[k]
            },
        group_ids_unique(old(groups)@) ==> group_ids_unique(final(groups)@),
{
    match find_group(groups, &request.id) {
        None => Err(OpError::NotFound(request.id)),
        Some(k) => {
            let ghost req = request;
            let old_group = groups.remove(k);
            let merged = Group {
                id: old_group.id,
                name: match request.name { Some(v) => v, None => old_group.name },
                color: match request.color { Some(v) => Some(v), None => old_group.color },
                icon: match request.icon { Some(v) => Some(v), None => old_group.icon },
                expanded: match request.expanded { Some(v) => v, None => old_group.expanded },
                order: match request.order { Some(v) => v, None => old_group.order },
                created_at: old_group.created_at,
                updated_at: now,
            };
            let updated = merged.copy();
            groups.insert(k, merged);
            proof {
                let o = old(groups)@;
                let s = final(groups)@;
                assert(s =~= o.update(k as int, merged_group(o[k as int], req, now)));
                assert(updated == s[k as int]);
                assert forall|a: int, b: int|
                    group_ids_unique(o) && 0 <= a < s.len() && 0 <= b < s.len() && a != b
                    implies #[trigger] s[a].id@ != #[trigger] s[b].id@ by {
                    assert(s[a].id == o[a].id && s[b].id == o[b].id);
                }
            }
            Ok(updated)
        },
    }
}

/// Applies the partial update `request`, stamping the group with the current
/// time; `NotFound`, with the collection unchanged, when no group carries its id.
pub fn update_group(groups: &mut Vec<Group>, request: UpdateGroupRequest) -> (r: Result<Group, OpError>)
    ensures
        r is Err <==> !has_group_id(old(groups)@, request.id@),
        r matches Err(e) ==> e == OpError::NotFound(request.id) && final(groups)@ == old(groups)@,
        r matches Ok(g) ==> exists|k: int|
            {
                &&& first_group_with_id(old(groups)@, request.id@, k)
                &&& final(groups)@ == old(groups)@.update(
                    k,
                    merged_group(old(groups)@[k], request, g.updated_at),
                )
                &&& g == final(groups)@[k]
            },
        group_ids_unique(old(groups)@) ==> group_ids_unique(final(groups)@),
{
    let now = now_rfc3339();
    apply_group_update(groups, request, now)
}

/// Removes every launch item that belongs to the group `id`.
pub fn remove_group_items(items: &mut Vec<LaunchItem>, id: &String)
    ensures
        final(items)@ == items_outside_group(old(items)@, id@),
        item_ids_unique(old(items)@) ==> item_ids_unique(final(items)@),
{
    let ghost orig = items@;
    let mut rest: Vec<LaunchItem> = Vec::new();
    std::mem::swap(items, &mut rest);
    let ghost n = orig.len();
    while rest.len() > 0
        invariant
            n == orig.len(),
            rest@.len() <= n,
            rest@ == orig.subrange(n - rest@.len(), n as int),
            items@ == orig.subrange(0, n - rest@.len()).filter(outside_group(id@)),
        decreases rest@.len(),
    {
        let ghost i = n - rest@.len();
        let it = rest.remove(0);
        assert(it == orig[i]);
        assert(orig.subrange(0, i + 1) =~= orig.subrange(0, i).push(it));
        proof {
            orig.subrange(0, i).lemma_filter_push(it, outside_group(id@));
        }
        let member = match &it.group_id {
            Some(g) => *g == *id,
            None => false,
        };
        assert(outside_group(id@)(it) == !member);
        if !member {
            items.push(it);
        }
        assert(rest@ =~= orig.subrange(i + 1, n as int));
    }
    assert(orig.subrange(0, n as int) =~= orig);
    proof {
        lemma_filter_keeps_unique_ids(orig, outside_group(id@));
    }
}

/// Removes every group that carries `id`; nothing changes when none does.
pub fn remove_group(groups: &mut Vec<Group>, id: &String)
    ensures
        final(groups)@ == groups_without(old(groups)@, id@),
        group_ids_unique(old(groups)@) ==> group_ids_unique(final(groups)@),
{
    let ghost orig = groups@;
    let mut rest: Vec<Group> = Vec::new();
    std::mem::swap(groups, &mut rest);
    let ghost n = orig.len();
    while rest.len() > 0
        invariant
            n == orig.len(),
            rest@.len() <= n,
            rest@ == orig.subrange(n - rest@.len(), n as int),
            groups@ == orig.subrange(0, n - rest@.len()).filter(group_id_is_not(id@)),
        decreases rest@.len(),
    {
        let ghost i = n - rest@.len();
        let g = rest.remove(0);
        assert(g == orig[i]);
        assert(orig.subrange(0, i + 1) =~= orig.subrange(0, i).push(g));
        proof {
            orig.subrange(0, i).lemma_filter_push(g, group_id_is_not(id@));
        }
        assert(group_id_is_not(id@)(g) == (g.id@ != id@));
        if !(g.id == *id) {
            groups.push(g);
        }
        assert(rest@ =~= orig.subrange(i + 1, n as int));
    }
    assert(orig.subrange(0, n as int) =~= orig);
    proof {
        lemma_filter_keeps_unique_group_ids(orig, id@);
    }
}

/// Dropping groups never makes two ids equal.
proof fn lemma_filter_keeps_unique_group_ids(s: Seq<Group>, id: Seq<char>)
    ensures
        group_ids_unique(s) ==> group_ids_unique(groups_without(s, id)),
    decreases s.len(),
{
    if s.len() > 0 && group_ids_unique(s) {
        let p = group_id_is_not(id);
        let d = s.drop_last();
        assert(group_ids_unique(d)) by {
            assert forall|a: int, b: int| 0 <= a < d.len() && 0 <= b < d.len() && a != b
                implies #[trigger] d[a].id@ != #[trigger] d[b].id@ by {
                assert(s[a].id@ != s[b].id@);
            }
        }
        lemma_filter_keeps_unique_group_ids(d, id);
        assert(s =~= d.push(s.last()));
        d.lemma_filter_push(s.last(), p);
        let g = d.filter(p);
        if p(s.last()) {
            assert(!has_group_id(g, s.last().id@)) by {
                if has_group_id(g, s.last().id@) {
                    let a = choose|a: int| 0 <= a < g.len() && #[trigger] g[a].id@ == s.last().id@;
                    assert(g.contains(g[a]));
                    d.lemma_filter_contains_rev(p, g[a]);
                    let j = choose|j: int| 0 <= j < d.len() && d[j] == g[a];
                    assert(s[j] == d[j]);
                    assert(s[j].id@ != s[s.len() - 1].id@);
                }
            }
            lemma_push_keeps_unique_group_ids(g, s.last());
        }
    }
}

/// Deletes the group `id` together with every launch item that belongs to it;
/// the other groups and items stay, in their order. Nothing changes when no
/// group carries `id` and no item belongs to it.
pub fn delete_group(groups: &mut Vec<Group>, items: &mut Vec<LaunchItem>, id: &String)
    ensures
        final(groups)@ == groups_without(old(groups)@, id@),
        final(items)@ == items_outside_group(old(items)@, id@),
        group_ids_unique(old(groups)@) ==> group_ids_unique(final(groups)@),
        item_ids_unique(old(items)@) ==> item_ids_unique(final(items)@),
{
    remove_group(groups, id);
    remove_group_items(items, id);
}

/// Deleting a group leaves no item that belongs to it and no group with its
/// id, and removes no item that does not belong to it.
pub proof fn lemma_cascade(groups: Seq<Group>, items: Seq<LaunchItem>, id: Seq<char>)
    ensures
        forall|k: int| 0 <= k < items_outside_group(items, id).len()
            ==> !(#[trigger] items_outside_group(items, id)[k].group_id matches Some(g) && g@ == id),
        forall|k: int| 0 <= k < items.len() && !(items[k].group_id matches Some(g) && g@ == id)
            ==> #[trigger] items_outside_group(items, id).contains(items[k]),
        !has_group_id(groups_without(groups, id), id),
{
    broadcast use vstd::seq_lib::group_filter_ensures;

    let f = items_outside_group(items, id);
    assert forall|k: int| 0 <= k < f.len()
        implies !(#[trigger] f[k].group_id matches Some(g) && g@ == id) by {
        assert(outside_group(id)(f[k]));
    }
    assert forall|k: int| 0 <= k < items.len() && !(items[k].group_id matches Some(g) && g@ == id)
        implies #[trigger] f.contains(items[k]) by {
        assert(outside_group(id)(items[k]));
    }
    let h = groups_without(groups, id);
    assert(!has_group_id(h, id)) by {
        if has_group_id(h, id) {
            let k = choose|k: int| 0 <= k < h.len() && #[trigger] h[k].id@ == id;
            assert(group_id_is_not(id)(h[k]));
        }
    }
}

/// Where ids are distinct, an item of the deleted group leaves no item with
/// its id behind.
pub proof fn lemma_cascade_removes_members(items: Seq<LaunchItem>, id: Seq<char>, k: int)
    requires
        item_ids_unique(items),
        0 <= k < items.len(),
        items[k].group_id matches Some(g) && g@ == id,
    ensures
        !has_item_id(items_outside_group(items, id), items[k].id@),
{
    broadcast use vstd::seq_lib::group_filter_ensures;

    let f = items_outside_group(items, id);
    if has_item_id(f, items[k].id@) {
        let j = choose|j: int| 0 <= j < f.len() && #[trigger] f[j].id@ == items[k].id@;
        assert(outside_group(id)(f[j]));
        assert(f.contains(f[j]));
        items.lemma_filter_contains_rev(outside_group(id), f[j]);
        let m = choose|m: int| 0 <= m < items.len() && items[m] == f[j];
        assert(items[m].id@ == items[k].id@);
    }
}

} // verus!
