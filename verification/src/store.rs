//! Model of the `todo_list` table.
//!
//! The table holds rows of identifier and text. The store assigns
//! identifiers itself: each insert takes the current next identifier and
//! bumps it, so an identifier, once assigned, is never handed out again,
//! even after the row is deleted. This module carries that behaviour as a
//! verified value type: inserts append a freshly numbered row, deletes
//! remove exactly the row with the given identifier, and a listing
//! reproduces the rows in storage order.

use vstd::prelude::*;

use crate::types::ToDoItem;
use crate::types::ToDoList;

verus! {

/// Whether some row of `s` carries the identifier `id`.
pub open spec fn contains_id(s: Seq<(i64, Seq<char>)>, id: i64) -> bool {
    exists|k: int| 0 <= k < s.len() && s[k].0 == id
}

/// The `todo_list` table: its rows in storage order, and the identifier
/// the next insert will be assigned.
pub struct TodoStore {
    items: Vec<ToDoItem>,
    next_id: i64,
}

impl View for TodoStore {
    type V = Seq<(i64, Seq<char>)>;

    closed spec fn view(&self) -> Seq<(i64, Seq<char>)> {
        self.items@.map_values(|it: ToDoItem| it@)
    }
}

impl TodoStore {
    /// The identifier the store will assign to the next inserted row.
    pub closed spec fn spec_next_id(&self) -> int {
        self.next_id as int
    }

    /// Well-formedness: rows carry pairwise distinct identifiers, all of
    /// them below the next identifier to be assigned.
    pub closed spec fn wf(&self) -> bool {
        &&& 1 <= self.next_id
        &&& forall|i: int, j: int| 0 <= i < j < self@.len() ==> self@[i].0 != self@[j].0
        &&& forall|i: int| 0 <= i < self@.len() ==> self@[i].0 < self.next_id
    }

    /// An empty table; the first insert will be assigned identifier 1.
    pub fn new() -> (s: TodoStore)
        ensures
            s.wf(),
            s@ == Seq::<(i64, Seq<char>)>::empty(),
            s.spec_next_id() == 1,
    {
        let s = TodoStore { items: Vec::new(), next_id: 1 };
        proof {
            assert(s@ =~= Seq::<(i64, Seq<char>)>::empty());
        }
        s
    }

    /// Appends a row holding `item` under a freshly assigned identifier:
    /// the identifier is the store's next one, no existing row carries it,
    /// and every existing row is kept unchanged.
    pub fn insert(&mut self, item: String) -> (id: i64)
        requires
            old(self).wf(),
            old(self).spec_next_id() < i64::MAX,
        ensures
            final(self).wf(),
            id == old(self).spec_next_id(),
            final(self).spec_next_id() == old(self).spec_next_id() + 1,
            !contains_id(old(self)@, id),
            final(self)@ == old(self)@.push((id, item@)),
    {
        let ghost pre = self@;
        let id = self.next_id;
        self.next_id = self.next_id + 1;
        self.items.push(ToDoItem { id, item });
        proof {
            let ghost post = self@;
            assert(pre == old(self)@);
            assert(post =~= pre.push((id, item@)));
            assert forall|k: int| 0 <= k < pre.len() implies pre[k].0 < id by {
                assert(old(self)@[k] == pre[k]);
            }
            assert(!contains_id(pre, id));
            assert forall|p: int, q: int| 0 <= p < q < post.len() implies post[p].0
                != post[q].0 by {
                if q < pre.len() {
                    assert(post[p] == pre[p] && post[q] == pre[q]);
                } else {
                    assert(post[q].0 == id && post[p].0 == pre[p].0);
                }
            }
            assert forall|p: int| 0 <= p < post.len() implies post[p].0 < self.next_id by {
                if p < pre.len() {
                    assert(post[p] == pre[p]);
                }
            }
        }
        id
    }

    /// Deletes the row with identifier `id`, if there is one, and reports
    /// how many rows were touched: one when the identifier existed — the
    /// listing then loses exactly that row — and zero when it did not, the
    /// table then left unchanged. A missing identifier is not an error.
    pub fn delete(&mut self, id: i64) -> (rows: usize)
        requires
            old(self).wf(),
        ensures
            final(self).wf(),
            final(self).spec_next_id() == old(self).spec_next_id(),
            contains_id(old(self)@, id) ==> rows == 1 && (exists|k: int|
                0 <= k < old(self)@.len() && old(self)@[k].0 == id && final(self)@ == old(
                    self,
                )@.remove(k)),
            !contains_id(old(self)@, id) ==> rows == 0 && final(self)@ == old(self)@,
    {
        let mut i: usize = 0;
        while i < self.items.len()
            invariant
                old(self).wf(),
                *self == *old(self),
                i <= self.items.len(),
                forall|k: int| 0 <= k < i ==> self@[k].0 != id,
            decreases self.items.len() - i,
        {
            if self.items[i].id == id {
                let ghost pre = self@;
                let ghost ki = i as int;
                self.items.remove(i);
                proof {
                    let post = self@;
                    assert(pre == old(self)@);
                    assert(pre[ki].0 == id);
                    assert(post =~= pre.remove(ki));
                    assert(contains_id(pre, id));
                    pre.remove_ensures(ki);
                    assert forall|p: int, q: int|
                        0 <= p < q < post.len() implies post[p].0 != post[q].0 by {
                        let p0 = if p < ki { p } else { p + 1 };
                        let q0 = if q < ki { q } else { q + 1 };
                        assert(post[p] == pre[p0] && post[q] == pre[q0]);
                        lemma_ids_unique(*old(self), p0, q0);
                    }
                    assert forall|p: int| 0 <= p < post.len() implies post[p].0
                        < self.next_id by {
                        let p0 = if p < ki { p } else { p + 1 };
                        assert(post[p] == pre[p0]);
                        lemma_ids_below_next(*old(self), p0);
                    }
                }
                return 1;
            }
            i = i + 1;
        }
        proof {
            assert(!contains_id(self@, id));
        }
        0
    }

    /// Lists every row in storage order, each reproduced exactly.
    pub fn list(&self) -> (r: ToDoList)
        ensures
            r@ == self@,
    {
        let mut items: Vec<ToDoItem> = Vec::new();
        let mut i: usize = 0;
        while i < self.items.len()
            invariant
                i <= self.items.len(),
                items@.len() == i,
                forall|k: int| 0 <= k < i ==> items@[k] == self.items@[k],
            decreases self.items.len() - i,
        {
            let entry = &self.items[i];
            items.push(ToDoItem { id: entry.id, item: entry.item.clone() });
            i = i + 1;
        }
        proof {
            assert(items@ =~= self.items@);
        }
        let r = ToDoList { items };
        proof {
            assert(r@ =~= self@);
        }
        r
    }
}

/// No two rows of a well-formed store share an identifier.
pub proof fn lemma_ids_unique(s: TodoStore, i: int, j: int)
    requires
        s.wf(),
        0 <= i < s@.len(),
        0 <= j < s@.len(),
        i != j,
    ensures
        s@[i].0 != s@[j].0,
{
}

/// Every identifier a well-formed store lists lies below the identifier the
/// next insert will be assigned.
pub proof fn lemma_ids_below_next(s: TodoStore, i: int)
    requires
        s.wf(),
        0 <= i < s@.len(),
    ensures
        s@[i].0 < s.spec_next_id(),
{
}

/// Two inserts never assign the same identifier. An insert returns the
/// store's next identifier and leaves a strictly larger one behind, and no
/// operation ever lowers it again; so when a later insert runs, its
/// assigned identifier exceeds every identifier assigned before.
pub proof fn lemma_assigned_ids_distinct(id1: int, next1: int, id2: int, next2: int)
    requires
        id1 < next1,
        next1 <= next2,
        id2 == next2,
    ensures
        id1 != id2,
{
}

/// Inserting a row and then listing shows every old row unchanged and
/// exactly one new row, holding the given text under an identifier that no
/// old row carries.
pub proof fn lemma_insert_then_list(
    pre: Seq<(i64, Seq<char>)>,
    post: Seq<(i64, Seq<char>)>,
    id: i64,
    text: Seq<char>,
)
    requires
        post == pre.push((id, text)),
        !contains_id(pre, id),
    ensures
        post.len() == pre.len() + 1,
        post[pre.len() as int] == (id, text),
        forall|k: int| 0 <= k < pre.len() ==> post[k] == pre[k],
        forall|k: int| 0 <= k < post.len() && post[k].0 == id ==> k == pre.len(),
{
    assert forall|k: int| 0 <= k < post.len() && post[k].0 == id implies k == pre.len() by {
        if k < pre.len() {
            assert(pre[k].0 == id);
            assert(contains_id(pre, id));
        }
    }
}

/// Deleting the row at position `k` — the one carrying `id` in a table of
/// pairwise distinct identifiers — leaves a listing one row shorter in
/// which `id` no longer occurs, the rows before `k` stand unmoved, and the
/// rows after `k` each move up one place.
pub proof fn lemma_delete_removes_exactly(
    pre: Seq<(i64, Seq<char>)>,
    post: Seq<(i64, Seq<char>)>,
    id: i64,
    k: int,
)
    requires
        forall|i: int, j: int| 0 <= i < j < pre.len() ==> pre[i].0 != pre[j].0,
        0 <= k < pre.len(),
        pre[k].0 == id,
        post == pre.remove(k),
    ensures
        post.len() == pre.len() - 1,
        !contains_id(post, id),
        forall|j: int| 0 <= j < k ==> post[j] == pre[j],
        forall|j: int| k <= j < post.len() ==> post[j] == pre[j + 1],
{
    assert forall|l: int| 0 <= l < post.len() implies post[l].0 != id by {
        if l < k {
            assert(post[l] == pre[l]);
        } else {
            assert(post[l] == pre[l + 1]);
        }
    }
}

} // verus!
