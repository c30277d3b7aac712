use vstd::prelude::*;
use crate::model::{ColumnWidths, Row};

verus! {

/// Narrowest size column.
pub const MIN_SIZE_WIDTH: usize = 4;

/// Narrowest owner-name column.
pub const MIN_GROUP_WIDTH: usize = 8;

/// Largest of `floor` and the lengths in `lens`.
pub open spec fn max_len(lens: Seq<nat>, floor: nat) -> nat
    decreases lens.len(),
{
    if lens.len() == 0 {
        floor
    } else {
        let m = max_len(lens.drop_last(), floor);
        if lens.last() > m { lens.last() } else { m }
    }
}

pub open spec fn size_lens(rows: Seq<Row>) -> Seq<nat> {
    rows.map_values(|r: Row| r.size_text@.len())
}

pub open spec fn user_lens(rows: Seq<Row>) -> Seq<nat> {
    rows.map_values(|r: Row| r.user@.len())
}

/// Width of the size column for `rows`: the longest size text, at least 4.
pub open spec fn size_width(rows: Seq<Row>) -> nat {
    max_len(size_lens(rows), MIN_SIZE_WIDTH as nat)
}

/// Width of the owner column for `rows`: the longest user name, at least 8.
pub open spec fn group_width(rows: Seq<Row>) -> nat {
    max_len(user_lens(rows), MIN_GROUP_WIDTH as nat)
}

/// `max_len` is the floor or one of the lengths, and bounds the floor and every length.
pub proof fn lemma_max_len(lens: Seq<nat>, floor: nat)
    ensures
        max_len(lens, floor) >= floor,
        forall|i: int| 0 <= i < lens.len() ==> lens[i] <= max_len(lens, floor),
        max_len(lens, floor) == floor || exists|i: int|
            0 <= i < lens.len() && lens[i] == max_len(lens, floor),
    decreases lens.len(),
{
    if lens.len() > 0 {
        let init = lens.drop_last();
        lemma_max_len(init, floor);
        let m = max_len(lens, floor);
        assert forall|i: int| 0 <= i < lens.len() implies lens[i] <= m by {
            if i < init.len() {
                assert(init[i] == lens[i]);
            }
        }
        if m != floor && m != lens.last() {
            let j = choose|j: int| 0 <= j < init.len() && init[j] == max_len(init, floor);
            assert(lens[j] == m);
        }
    }
}

/// Two length lists with the same members have the same `max_len`.
pub proof fn lemma_max_len_same_members(a: Seq<nat>, b: Seq<nat>, floor: nat)
    requires
        forall|x: nat| a.contains(x) <==> b.contains(x),
    ensures
        max_len(a, floor) == max_len(b, floor),
{
    lemma_max_len(a, floor);
    lemma_max_len(b, floor);
    let ma = max_len(a, floor);
    let mb = max_len(b, floor);
    if ma != floor {
        let i = choose|i: int| 0 <= i < a.len() && a[i] == ma;
        assert(a.contains(a[i]));
        assert(b.contains(ma));
    }
    if mb != floor {
        let i = choose|i: int| 0 <= i < b.len() && b[i] == mb;
        assert(b.contains(b[i]));
        assert(a.contains(mb));
    }
}

/// Computes the shared column widths over every row, before any is drawn.
pub fn column_widths(rows: &Vec<Row>) -> (r: ColumnWidths)
    ensures
        r.size as nat == size_width(rows@),
        r.group as nat == group_width(rows@),
{
    let mut size: usize = MIN_SIZE_WIDTH;
    let mut group: usize = MIN_GROUP_WIDTH;
    let mut i: usize = 0;
    while i < rows.len()
        invariant
            i <= rows@.len(),
            size as nat == max_len(size_lens(rows@.subrange(0, i as int)), MIN_SIZE_WIDTH as nat),
            group as nat == max_len(user_lens(rows@.subrange(0, i as int)), MIN_GROUP_WIDTH as nat),
        decreases rows.len() - i,
    {
        let ghost pre = rows@.subrange(0, i as int);
        let ghost next = rows@.subrange(0, i as int + 1);
        let s = rows[i].size_text.as_str().unicode_len();
        let u = rows[i].user.as_str().unicode_len();
        if s > size {
            size = s;
        }
        if u > group {
            group = u;
        }
        proof {
            assert(size_lens(next).drop_last() =~= size_lens(pre));
            assert(user_lens(next).drop_last() =~= user_lens(pre));
        }
        i = i + 1;
    }
    proof {
        assert(rows@.subrange(0, rows@.len() as int) =~= rows@);
    }
    ColumnWidths { size, group }
}

/// The widths are at least their floors, the size width is at least every size
/// text's length and the owner width at least every user name's length.
pub proof fn lemma_widths_bound(rows: Seq<Row>)
    ensures
        size_width(rows) >= 4,
        group_width(rows) >= 8,
        forall|i: int|
            0 <= i < rows.len() ==> rows[i].size_text@.len() <= max_len(
                size_lens(rows),
                MIN_SIZE_WIDTH as nat,
            ),
        forall|i: int|
            0 <= i < rows.len() ==> rows[i].user@.len() <= max_len(
                user_lens(rows),
                MIN_GROUP_WIDTH as nat,
            ),
{
    lemma_max_len(size_lens(rows), MIN_SIZE_WIDTH as nat);
    lemma_max_len(user_lens(rows), MIN_GROUP_WIDTH as nat);
    assert forall|i: int| 0 <= i < rows.len() implies rows[i].size_text@.len() <= max_len(
        size_lens(rows),
        MIN_SIZE_WIDTH as nat,
    ) by {
        assert(size_lens(rows)[i] == rows[i].size_text@.len());
    }
    assert forall|i: int| 0 <= i < rows.len() implies rows[i].user@.len() <= max_len(
        user_lens(rows),
        MIN_GROUP_WIDTH as nat,
    ) by {
        assert(user_lens(rows)[i] == rows[i].user@.len());
    }
}

/// A member of one of two permutations is a member of the other.
proof fn lemma_permutation_contains(a: Seq<Row>, b: Seq<Row>, x: Row)
    requires
        a.to_multiset() == b.to_multiset(),
        a.contains(x),
    ensures
        b.contains(x),
{
    a.to_multiset_ensures();
    b.to_multiset_ensures();
    assert(a.to_multiset().count(x) > 0);
    assert(b.to_multiset().count(x) > 0);
}

/// The widths do not depend on the order of the rows: any permutation of them
/// gives the same widths.
pub proof fn lemma_widths_order_independent(a: Seq<Row>, b: Seq<Row>)
    requires
        a.to_multiset() == b.to_multiset(),
    ensures
        size_width(a) == size_width(b),
        group_width(a) == group_width(b),
{
    assert forall|x: nat| size_lens(a).contains(x) implies size_lens(b).contains(x) by {
        let i = choose|i: int| 0 <= i < size_lens(a).len() && size_lens(a)[i] == x;
        lemma_permutation_contains(a, b, a[i]);
        let j = choose|j: int| 0 <= j < b.len() && b[j] == a[i];
        assert(size_lens(b)[j] == x);
    }
    assert forall|x: nat| size_lens(b).contains(x) implies size_lens(a).contains(x) by {
        let i = choose|i: int| 0 <= i < size_lens(b).len() && size_lens(b)[i] == x;
        lemma_permutation_contains(b, a, b[i]);
        let j = choose|j: int| 0 <= j < a.len() && a[j] == b[i];
        assert(size_lens(a)[j] == x);
    }
    assert forall|x: nat| user_lens(a).contains(x) implies user_lens(b).contains(x) by {
        let i = choose|i: int| 0 <= i < user_lens(a).len() && user_lens(a)[i] == x;
        lemma_permutation_contains(a, b, a[i]);
        let j = choose|j: int| 0 <= j < b.len() && b[j] == a[i];
        assert(user_lens(b)[j] == x);
    }
    assert forall|x: nat| user_lens(b).contains(x) implies user_lens(a).contains(x) by {
        let i = choose|i: int| 0 <= i < user_lens(b).len() && user_lens(b)[i] == x;
        lemma_permutation_contains(b, a, b[i]);
        let j = choose|j: int| 0 <= j < a.len() && a[j] == b[i];
        assert(user_lens(a)[j] == x);
    }
    lemma_max_len_same_members(size_lens(a), size_lens(b), MIN_SIZE_WIDTH as nat);
    lemma_max_len_same_members(user_lens(a), user_lens(b), MIN_GROUP_WIDTH as nat);
}

} // verus!
