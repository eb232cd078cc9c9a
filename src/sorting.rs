//! Stable ordering of rooms by the time of their latest message.

use vstd::prelude::*;
use std::cmp::Ordering;
use crate::room::RoomInfo;
use crate::types::{cmp_room, room_le};

verus! {

/// `x` placed into `s` after every room that may stand before it, searching
/// from the back; on a sorted `s` this keeps rooms with equal keys in
/// arrival order.
pub open spec fn insert_sorted(s: Seq<RoomInfo>, x: RoomInfo) -> Seq<RoomInfo>
    decreases s.len(),
{
    if s.len() == 0 {
        seq![x]
    } else if room_le(s.last(), x) {
        s.push(x)
    } else {
        insert_sorted(s.drop_last(), x).push(s.last())
    }
}

/// Rooms ordered by their latest message, oldest first, rooms without
/// messages before all others; equal keys keep their order.
pub open spec fn sort_rooms(s: Seq<RoomInfo>) -> Seq<RoomInfo>
    decreases s.len(),
{
    if s.len() == 0 {
        s
    } else {
        insert_sorted(sort_rooms(s.drop_last()), s.last())
    }
}

/// Every room of `s` may stand before the next one.
pub open spec fn rooms_sorted(s: Seq<RoomInfo>) -> bool {
    forall|i: int| 0 <= i < s.len() - 1 ==> room_le(#[trigger] s[i], s[i + 1])
}

proof fn lemma_insert_at(s: Seq<RoomInfo>, x: RoomInfo, j: int)
    requires
        0 <= j <= s.len(),
        j == 0 || room_le(s[j - 1], x),
        forall|k: int| j <= k < s.len() ==> !room_le(#[trigger] s[k], x),
    ensures
        insert_sorted(s, x) == s.subrange(0, j).push(x) + s.subrange(j, s.len() as int),
    decreases s.len(),
{
    if s.len() == j {
        if j == 0 {
            assert(s.subrange(0, 0).push(x) + s.subrange(0, 0) =~= seq![x]);
        } else {
            assert(s.subrange(0, j).push(x) + s.subrange(j, j) =~= s.push(x));
        }
    } else {
        assert(!room_le(s.last(), x));
        lemma_insert_at(s.drop_last(), x, j);
        let d = s.drop_last();
        assert(d.subrange(0, j) =~= s.subrange(0, j));
        assert(d.subrange(0, j).push(x) + d.subrange(j, d.len() as int) + seq![s.last()] =~= s.subrange(0, j).push(x)
            + s.subrange(j, s.len() as int));
    }
}

/// `room_le` is total: of two rooms one may stand before the other.
proof fn lemma_room_le_total(a: RoomInfo, b: RoomInfo)
    ensures
        room_le(a, b) || room_le(b, a),
{
}

proof fn lemma_insert_sorted_keeps(s: Seq<RoomInfo>, x: RoomInfo)
    requires
        rooms_sorted(s),
    ensures
        rooms_sorted(insert_sorted(s, x)),
        insert_sorted(s, x).len() == s.len() + 1,
        insert_sorted(s, x).to_multiset() == s.to_multiset().insert(x),
        s.len() > 0 ==> insert_sorted(s, x).last() == s.last() || insert_sorted(s, x).last() == x,
    decreases s.len(),
{
    broadcast use vstd::seq_lib::group_seq_properties;
    if s.len() == 0 {
        assert(seq![x] =~= Seq::<RoomInfo>::empty().push(x));
    } else if room_le(s.last(), x) {
        assert(rooms_sorted(s.push(x))) by {
            assert forall|i: int| 0 <= i < s.push(x).len() - 1 implies room_le(#[trigger] s.push(x)[i], s.push(x)[i + 1]) by {
                if i < s.len() - 1 {
                    assert(s.push(x)[i] == s[i]);
                }
            }
        }
    } else {
        let d = s.drop_last();
        assert(rooms_sorted(d));
        lemma_insert_sorted_keeps(d, x);
        let t = insert_sorted(d, x);
        lemma_room_le_total(s.last(), x);
        assert(s =~= d.push(s.last()));
        assert(rooms_sorted(t.push(s.last()))) by {
            if d.len() > 0 {
                assert(room_le(d.last(), s.last()));
                assert(t.last() == d.last() || t.last() == x);
            }
            assert forall|i: int| 0 <= i < t.push(s.last()).len() - 1 implies room_le(
                #[trigger] t.push(s.last())[i],
                t.push(s.last())[i + 1],
            ) by {
                if i < t.len() - 1 {
                    assert(t.push(s.last())[i] == t[i]);
                    assert(t.push(s.last())[i + 1] == t[i + 1]);
                }
            }
        }
    }
}

/// The ordering is sorted and holds exactly the rooms it was given.
pub proof fn lemma_sort_rooms(s: Seq<RoomInfo>)
    ensures
        rooms_sorted(sort_rooms(s)),
        sort_rooms(s).to_multiset() == s.to_multiset(),
    decreases s.len(),
{
    broadcast use vstd::seq_lib::group_seq_properties;
    if s.len() > 0 {
        lemma_sort_rooms(s.drop_last());
        lemma_insert_sorted_keeps(sort_rooms(s.drop_last()), s.last());
        assert(s =~= s.drop_last().push(s.last()));
    }
}

/// Insert `x` into `out` as `insert_sorted` does.
fn insert_room(out: &mut Vec<RoomInfo>, x: RoomInfo)
    ensures
        final(out)@ == insert_sorted(old(out)@, x),
{
    let mut j = out.len();
    while j > 0 && matches!(cmp_room(&out[j - 1], &x), Ordering::Greater)
        invariant
            j <= out.len(),
            forall|k: int| j <= k < out@.len() ==> !room_le(#[trigger] out@[k], x),
        decreases j,
    {
        j -= 1;
    }
    proof {
        lemma_insert_at(out@, x, j as int);
    }
    let ghost before = out@;
    out.insert(j, x);
    assert(out@ =~= before.subrange(0, j as int).push(x) + before.subrange(j as int, before.len() as int));
}

/// Order rooms by their latest message, oldest first; rooms without messages
/// come first, and rooms with equal keys keep their order.
pub fn sort_room_infos(rooms: Vec<RoomInfo>) -> (r: Vec<RoomInfo>)
    ensures
        r@ == sort_rooms(rooms@),
{
    let ghost orig = rooms@;
    let mut input = rooms;
    let mut out: Vec<RoomInfo> = Vec::new();
    let ghost mut i: int = 0;
    assert(orig.subrange(0, 0) =~= Seq::<RoomInfo>::empty());
    while input.len() > 0
        invariant
            0 <= i <= orig.len(),
            input@ == orig.subrange(i, orig.len() as int),
            out@ == sort_rooms(orig.subrange(0, i)),
        decreases input.len(),
    {
        let x = input.remove(0);
        insert_room(&mut out, x);
        proof {
            assert(orig.subrange(0, i + 1).drop_last() =~= orig.subrange(0, i));
            assert(orig.subrange(0, i + 1).last() == x);
            i = i + 1;
            assert(input@ =~= orig.subrange(i, orig.len() as int));
        }
    }
    assert(orig.subrange(0, i) =~= orig);
    out
}

} // verus!
