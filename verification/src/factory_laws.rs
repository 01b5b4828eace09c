//! Properties of the factory that span calls.

use vstd::prelude::*;
use crate::factory::{
    index_has, index_position, index_record, index_vaults, is_first_match, lemma_first_match_exists,
    lemma_first_match_unique, owners_distinct, page, total_vaults, LumenVaultFactory, OwnerIndex,
};

verus! {

/// Adding an entry adds its vaults to the total.
proof fn lemma_total_push(index: OwnerIndex, entry: (Seq<char>, Seq<String>))
    ensures
        total_vaults(index.push(entry)) == total_vaults(index) + entry.1.len(),
{
    assert(index.push(entry).drop_last() =~= index);
}

/// Appending one vault to one entry adds one to the total.
proof fn lemma_total_append_one(index: OwnerIndex, p: int, vault: String)
    requires
        0 <= p < index.len(),
    ensures
        total_vaults(index.update(p, (index[p].0, index[p].1.push(vault)))) == total_vaults(index) + 1,
    decreases index.len(),
{
    let updated = index.update(p, (index[p].0, index[p].1.push(vault)));
    if p == index.len() - 1 {
        assert(updated.drop_last() =~= index.drop_last());
    } else {
        let shorter = index.drop_last();
        assert(updated.drop_last() =~= shorter.update(p, (shorter[p].0, shorter[p].1.push(vault))));
        lemma_total_append_one(shorter, p, vault);
    }
}

/// The entry found for an owner that occurs in the index is its first
/// position.
proof fn lemma_position(index: OwnerIndex, owner: Seq<char>)
    requires
        index_has(index, owner),
    ensures
        is_first_match(index, owner, index_position(index, owner)),
{
    let i = choose|i: int| 0 <= i < index.len() && index[i].0 == owner;
    lemma_first_match_exists(index, owner, i);
}

/// A newly constructed factory is well formed.
pub proof fn lemma_constructor_establishes_wf(f: LumenVaultFactory)
    requires
        f.vault_count == Some(0u32),
        f.index() == Seq::<(Seq<char>, Seq<String>)>::empty(),
    ensures
        f.wf(),
{
}

/// Recording a deployment keeps the index at one entry per owner, and keeps
/// the count equal to the number of vaults listed.
pub proof fn lemma_record_preserves_wf(index: OwnerIndex, count: int, owner: Seq<char>, vault: String)
    requires
        owners_distinct(index),
        count == total_vaults(index),
    ensures
        owners_distinct(index_record(index, owner, vault)),
        count + 1 == total_vaults(index_record(index, owner, vault)),
{
    if index_has(index, owner) {
        let p = index_position(index, owner);
        lemma_position(index, owner);
        lemma_total_append_one(index, p, vault);
        assert(index_record(index, owner, vault) == index.update(p, (index[p].0, index[p].1.push(vault))));
    } else {
        lemma_total_push(index, (owner, seq![vault]));
        let new = index.push((owner, seq![vault]));
        assert forall|i: int, j: int| 0 <= i < new.len() && 0 <= j < new.len() && i != j implies new[i].0
            != new[j].0 by {
            if i == index.len() {
                assert(index[j].0 != owner);
            } else if j == index.len() {
                assert(index[i].0 != owner);
            }
        }
    }
}

/// Recording a vault for an owner appends it to that owner's vaults and
/// leaves every other owner's vaults as they were.
pub proof fn lemma_record_appends(index: OwnerIndex, owner: Seq<char>, vault: String, other: Seq<char>)
    requires
        other != owner,
    ensures
        index_vaults(index_record(index, owner, vault), owner) == index_vaults(index, owner).push(vault),
        index_vaults(index_record(index, owner, vault), other) == index_vaults(index, other),
{
    let new = index_record(index, owner, vault);
    if index_has(index, owner) {
        let p = index_position(index, owner);
        lemma_position(index, owner);
        assert(new[p].0 == owner);
        assert(index_has(new, owner));
        lemma_position(new, owner);
        lemma_first_match_unique(new, owner, p, index_position(new, owner));
        if index_has(index, other) {
            let q = index_position(index, other);
            lemma_position(index, other);
            assert(new[q].0 == other);
            assert(is_first_match(new, other, q));
            lemma_position(new, other);
            lemma_first_match_unique(new, other, q, index_position(new, other));
        } else {
            assert forall|i: int| 0 <= i < new.len() implies new[i].0 != other by {
                if i != p {
                    assert(new[i] == index[i]);
                }
            }
        }
    } else {
        let n = index.len() as int;
        assert(new[n].0 == owner);
        assert(is_first_match(new, owner, n));
        assert(index_has(new, owner));
        lemma_position(new, owner);
        lemma_first_match_unique(new, owner, n, index_position(new, owner));
        assert(index_vaults(index, owner) == Seq::<String>::empty());
        assert(seq![vault] =~= Seq::<String>::empty().push(vault));
        if index_has(index, other) {
            let q = index_position(index, other);
            lemma_position(index, other);
            assert(is_first_match(new, other, q));
            lemma_position(new, other);
            lemma_first_match_unique(new, other, q, index_position(new, other));
        } else {
            assert forall|i: int| 0 <= i < new.len() implies new[i].0 != other by {
                if i < n {
                    assert(new[i] == index[i]);
                }
            }
        }
    }
}

/// Pages cover a list without gaps or overlap: two consecutive pages make
/// up the page that spans both, and a page starting at zero that is as long
/// as the list is the whole list.
pub proof fn lemma_pages_concatenate(list: Seq<String>, start: int, first: int, second: int)
    requires
        start >= 0,
        first >= 0,
        second >= 0,
    ensures
        page(list, start, first) + page(list, start + first, second) == page(list, start, first + second),
        page(list, 0, list.len() as int) == list,
{
    assert(page(list, start, first) + page(list, start + first, second) =~= page(list, start, first + second));
    assert(page(list, 0, list.len() as int) =~= list);
}

/// A page starts at position `start` of the list and holds the next
/// `limit` vaults, or as many as remain.
pub proof fn lemma_page_shape(list: Seq<String>, start: int, limit: int)
    requires
        start >= 0,
        limit >= 0,
    ensures
        start >= list.len() ==> page(list, start, limit).len() == 0,
        start < list.len() && start + limit <= list.len() ==> page(list, start, limit).len() == limit,
        start < list.len() && start + limit > list.len() ==> page(list, start, limit).len() == list.len() - start,
        forall|i: int| 0 <= i < page(list, start, limit).len() ==> #[trigger] page(list, start, limit)[i] == list[start
            + i],
{
}

/// After a vault is recorded for an owner, the owner has an entry; an
/// index with no entries has none for anyone.
pub proof fn lemma_recorded_owner_has_entry(index: OwnerIndex, owner: Seq<char>, vault: String, other: Seq<char>)
    ensures
        index_has(index_record(index, owner, vault), owner),
        !index_has(Seq::<(Seq<char>, Seq<String>)>::empty(), other),
        index_vaults(Seq::<(Seq<char>, Seq<String>)>::empty(), other) == Seq::<String>::empty(),
{
    let new = index_record(index, owner, vault);
    if index_has(index, owner) {
        lemma_position(index, owner);
        let p = index_position(index, owner);
        assert(new[p].0 == owner);
    } else {
        assert(new[index.len() as int].0 == owner);
    }
}

} // verus!
