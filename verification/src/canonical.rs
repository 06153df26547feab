//! The canonical form of a header list: one header per name, in the order
//! of the names.
//!
//! Headers are a mapping from names to values, but they arrive as a list,
//! in whatever order the caller wrote them. The canonical form depends on
//! the mapping alone, so that what is derived from it, such as a cache
//! fingerprint, does not depend on the order of arrival.

use vstd::prelude::*;
use vstd::string::StringSliceAdditionalSpecFns;
use vstd::utf8::{encode_utf8, encode_utf8_decode_utf8};
use crate::headers::{distinct_names, value_of, HeaderSeq};

verus! {

/// Where one name stands relative to another.
#[derive(Debug, Clone, Copy, PartialEq, Eq, Structural)]
pub enum Rank {
    Before,
    Same,
    After,
}

/// Where one run of bytes stands relative to another, byte by byte from
/// the front; a run stands before every longer run that begins with it.
pub open spec fn rank_of(left: Seq<u8>, right: Seq<u8>) -> Rank
    decreases left.len(),
{
    if left.len() == 0 {
        if right.len() == 0 {
            Rank::Same
        } else {
            Rank::Before
        }
    } else if right.len() == 0 {
        Rank::After
    } else if left[0] < right[0] {
        Rank::Before
    } else if left[0] > right[0] {
        Rank::After
    } else {
        rank_of(left.drop_first(), right.drop_first())
    }
}

/// Where one name stands relative to another: as their UTF-8 encodings do.
pub open spec fn name_rank(left: Seq<char>, right: Seq<char>) -> Rank {
    rank_of(encode_utf8(left), encode_utf8(right))
}

/// A list whose names stand in strictly rising order.
pub open spec fn ordered(headers: HeaderSeq) -> bool {
    forall|i: int, j: int|
        0 <= i < j < headers.len() ==> name_rank(
            (#[trigger] headers[i]).0,
            (#[trigger] headers[j]).0,
        ) is Before
}

/// An ordered list with one more header put at its place; a header of the
/// same name gives way to it.
pub open spec fn placed(headers: HeaderSeq, header: (Seq<char>, Seq<char>)) -> HeaderSeq
    decreases headers.len(),
{
    if headers.len() == 0 {
        seq![header]
    } else {
        match name_rank(headers.last().0, header.0) {
            Rank::Before => headers.push(header),
            Rank::Same => headers.drop_last().push(header),
            Rank::After => placed(headers.drop_last(), header).push(headers.last()),
        }
    }
}

/// The canonical form of a list: its headers put at their places one after
/// the other, so that of several headers with one name the last stays.
pub open spec fn canonical(headers: HeaderSeq) -> HeaderSeq
    decreases headers.len(),
{
    if headers.len() == 0 {
        Seq::empty()
    } else {
        placed(canonical(headers.drop_last()), headers.last())
    }
}

/// Two lists that stand for the same mapping: they give every name the
/// same value, or both none.
pub open spec fn same_mapping(left: HeaderSeq, right: HeaderSeq) -> bool {
    forall|name: Seq<char>| #[trigger] value_of(left, name) == value_of(right, name)
}

/// Two runs of bytes rank the same exactly when they are equal.
pub proof fn lemma_rank_same(left: Seq<u8>, right: Seq<u8>)
    ensures
        rank_of(left, right) is Same <==> left == right,
    decreases left.len(),
{
    if left.len() > 0 && right.len() > 0 {
        lemma_rank_same(left.drop_first(), right.drop_first());
        if left[0] == right[0] && left.drop_first() == right.drop_first() {
            assert(left =~= seq![left[0]] + left.drop_first());
            assert(right =~= seq![right[0]] + right.drop_first());
        }
    } else if left.len() == 0 && right.len() == 0 {
        assert(left =~= right);
    }
}

/// Ranks mirror each other: one run stands before another exactly when the
/// other stands after it.
pub proof fn lemma_rank_mirrors(left: Seq<u8>, right: Seq<u8>)
    ensures
        rank_of(left, right) is Before <==> rank_of(right, left) is After,
        rank_of(left, right) is Same <==> rank_of(right, left) is Same,
    decreases left.len(),
{
    if left.len() > 0 && right.len() > 0 {
        lemma_rank_mirrors(left.drop_first(), right.drop_first());
    }
}

/// Standing before is transitive.
pub proof fn lemma_rank_transitive(first: Seq<u8>, second: Seq<u8>, third: Seq<u8>)
    requires
        rank_of(first, second) is Before,
        rank_of(second, third) is Before,
    ensures
        rank_of(first, third) is Before,
    decreases first.len(),
{
    if first.len() > 0 {
        if first[0] == second[0] && second[0] == third[0] {
            lemma_rank_transitive(first.drop_first(), second.drop_first(), third.drop_first());
        }
    }
}

/// Two names rank the same exactly when they are equal.
pub proof fn lemma_name_rank_same(left: Seq<char>, right: Seq<char>)
    ensures
        name_rank(left, right) is Same <==> left == right,
{
    lemma_rank_same(encode_utf8(left), encode_utf8(right));
    encode_utf8_decode_utf8(left);
    encode_utf8_decode_utf8(right);
}

/// Every header of a list with one more put at its place is that one or
/// comes from the list, and that one is among them.
pub proof fn lemma_placed_members(headers: HeaderSeq, header: (Seq<char>, Seq<char>))
    ensures
        placed(headers, header).contains(header),
        forall|i: int|
            0 <= i < placed(headers, header).len() ==> #[trigger] placed(headers, header)[i]
                == header || headers.contains(placed(headers, header)[i]),
    decreases headers.len(),
{
    let result = placed(headers, header);
    if headers.len() == 0 {
        assert(result[0] == header);
    } else {
        let earlier = headers.drop_last();
        match name_rank(headers.last().0, header.0) {
            Rank::Before => {
                assert(result[result.len() - 1] == header);
                assert forall|i: int| 0 <= i < result.len() implies #[trigger] result[i] == header
                    || headers.contains(result[i]) by {
                    if i < headers.len() {
                        assert(headers[i] == result[i]);
                    }
                }
            },
            Rank::Same => {
                assert(result[result.len() - 1] == header);
                assert forall|i: int| 0 <= i < result.len() implies #[trigger] result[i] == header
                    || headers.contains(result[i]) by {
                    if i < earlier.len() {
                        assert(headers[i] == result[i]);
                    }
                }
            },
            Rank::After => {
                lemma_placed_members(earlier, header);
                let inner = placed(earlier, header);
                let k = choose|k: int| 0 <= k < inner.len() && inner[k] == header;
                assert(result[k] == header);
                assert forall|i: int| 0 <= i < result.len() implies #[trigger] result[i] == header
                    || headers.contains(result[i]) by {
                    if i < inner.len() {
                        assert(result[i] == inner[i]);
                        if inner[i] != header {
                            let m = choose|m: int| 0 <= m < earlier.len() && earlier[m] == inner[i];
                            assert(headers[m] == result[i]);
                        }
                    } else {
                        assert(headers[headers.len() - 1] == result[i]);
                    }
                }
            },
        }
    }
}

/// Putting a header at its place keeps an ordered list ordered.
pub proof fn lemma_placed_ordered(headers: HeaderSeq, header: (Seq<char>, Seq<char>))
    requires
        ordered(headers),
    ensures
        ordered(placed(headers, header)),
    decreases headers.len(),
{
    let result = placed(headers, header);
    if headers.len() > 0 {
        let earlier = headers.drop_last();
        let last = headers.last();
        assert forall|i: int, j: int| 0 <= i < j < earlier.len() implies name_rank(
            (#[trigger] earlier[i]).0,
            (#[trigger] earlier[j]).0,
        ) is Before by {
            assert(earlier[i] == headers[i] && earlier[j] == headers[j]);
        }
        match name_rank(last.0, header.0) {
            Rank::Before => {
                assert forall|i: int, j: int| 0 <= i < j < result.len() implies name_rank(
                    (#[trigger] result[i]).0,
                    (#[trigger] result[j]).0,
                ) is Before by {
                    if j < headers.len() {
                        assert(result[i] == headers[i] && result[j] == headers[j]);
                    } else if i < headers.len() - 1 {
                        assert(result[i] == headers[i]);
                        assert(name_rank(headers[i].0, headers[headers.len() - 1].0) is Before);
                        lemma_rank_transitive(
                            encode_utf8(headers[i].0),
                            encode_utf8(last.0),
                            encode_utf8(header.0),
                        );
                    } else {
                        assert(result[i] == last);
                    }
                }
            },
            Rank::Same => {
                lemma_name_rank_same(last.0, header.0);
                assert forall|i: int, j: int| 0 <= i < j < result.len() implies name_rank(
                    (#[trigger] result[i]).0,
                    (#[trigger] result[j]).0,
                ) is Before by {
                    assert(result[i] == headers[i]);
                    if j < earlier.len() {
                        assert(result[j] == headers[j]);
                    } else {
                        assert(name_rank(headers[i].0, headers[headers.len() - 1].0) is Before);
                    }
                }
            },
            Rank::After => {
                lemma_placed_ordered(earlier, header);
                lemma_placed_members(earlier, header);
                lemma_rank_mirrors(encode_utf8(header.0), encode_utf8(last.0));
                let inner = placed(earlier, header);
                assert forall|i: int, j: int| 0 <= i < j < result.len() implies name_rank(
                    (#[trigger] result[i]).0,
                    (#[trigger] result[j]).0,
                ) is Before by {
                    assert(result[i] == inner[i]);
                    if j < inner.len() {
                        assert(result[j] == inner[j]);
                    } else {
                        assert(result[j] == last);
                        if inner[i] != header {
                            let m = choose|m: int| 0 <= m < earlier.len() && earlier[m] == inner[i];
                            assert(headers[m] == inner[i]);
                            assert(name_rank(headers[m].0, headers[headers.len() - 1].0) is Before);
                        }
                    }
                }
            },
        }
    }
}

/// Putting a header at its place gives its name its value and leaves every
/// other name the value it had.
pub proof fn lemma_placed_values(
    headers: HeaderSeq,
    header: (Seq<char>, Seq<char>),
    name: Seq<char>,
)
    ensures
        value_of(placed(headers, header), name) == if name == header.0 {
            Some(header.1)
        } else {
            value_of(headers, name)
        },
    decreases headers.len(),
{
    let result = placed(headers, header);
    if headers.len() == 0 {
        assert(result.drop_last() =~= headers);
    } else {
        let earlier = headers.drop_last();
        let last = headers.last();
        match name_rank(last.0, header.0) {
            Rank::Before => {
                assert(result.drop_last() =~= headers);
            },
            Rank::Same => {
                lemma_name_rank_same(last.0, header.0);
                assert(result.drop_last() =~= earlier);
            },
            Rank::After => {
                lemma_name_rank_same(last.0, header.0);
                lemma_placed_values(earlier, header, name);
                assert(result.drop_last() =~= placed(earlier, header));
                assert(result.last() == last);
            },
        }
    }
}

/// The canonical form of a list is ordered and stands for the same mapping
/// as the list.
pub proof fn lemma_canonical_is_faithful(headers: HeaderSeq)
    ensures
        ordered(canonical(headers)),
        same_mapping(canonical(headers), headers),
    decreases headers.len(),
{
    if headers.len() > 0 {
        let earlier = headers.drop_last();
        lemma_canonical_is_faithful(earlier);
        lemma_placed_ordered(canonical(earlier), headers.last());
        assert forall|name: Seq<char>| #[trigger]
            value_of(canonical(headers), name) == value_of(headers, name) by {
            lemma_placed_values(canonical(earlier), headers.last(), name);
            assert(value_of(canonical(earlier), name) == value_of(earlier, name));
        }
    }
}

/// A list gives a name a value exactly when it holds a header of that
/// name; in an ordered list that header is the only one.
pub proof fn lemma_value_found(headers: HeaderSeq, name: Seq<char>)
    ensures
        value_of(headers, name) is Some <==> exists|i: int|
            0 <= i < headers.len() && (#[trigger] headers[i]).0 == name,
    decreases headers.len(),
{
    if headers.len() > 0 {
        let earlier = headers.drop_last();
        lemma_value_found(earlier, name);
        if headers.last().0 == name {
            assert(headers[headers.len() - 1].0 == name);
        } else if value_of(earlier, name) is Some {
            let i = choose|i: int| 0 <= i < earlier.len() && (#[trigger] earlier[i]).0 == name;
            assert(headers[i].0 == name);
        } else {
            assert forall|i: int| 0 <= i < headers.len() implies (#[trigger] headers[i]).0
                != name by {
                if i < earlier.len() {
                    assert(earlier[i] == headers[i]);
                }
            }
        }
    }
}

/// Two ordered lists that stand for the same mapping are the same list.
pub proof fn lemma_ordered_is_unique(left: HeaderSeq, right: HeaderSeq)
    requires
        ordered(left),
        ordered(right),
        same_mapping(left, right),
    ensures
        left == right,
    decreases left.len(),
{
    if left.len() == 0 {
        if right.len() > 0 {
            assert(value_of(right, right.last().0) is Some);
            assert(value_of(left, right.last().0) is None);
        }
        assert(left =~= right);
    } else {
        let top = left.last();
        assert(value_of(left, top.0) == Some(top.1));
        assert(value_of(right, top.0) == Some(top.1));
        assert(right.len() > 0);
        let other = right.last();
        assert(value_of(right, other.0) == Some(other.1));
        assert(value_of(left, other.0) == Some(other.1));
        lemma_value_found(left, other.0);
        lemma_value_found(right, top.0);
        let i = choose|i: int| 0 <= i < left.len() && (#[trigger] left[i]).0 == other.0;
        let j = choose|j: int| 0 <= j < right.len() && (#[trigger] right[j]).0 == top.0;
        lemma_name_rank_same(top.0, other.0);
        lemma_rank_mirrors(encode_utf8(top.0), encode_utf8(other.0));
        if i < left.len() - 1 {
            assert(name_rank(left[i].0, left[left.len() - 1].0) is Before);
        }
        if j < right.len() - 1 {
            assert(name_rank(right[j].0, right[right.len() - 1].0) is Before);
        }
        assert(top.0 == other.0);
        assert(top == other);
        let shorter = left.drop_last();
        let other_shorter = right.drop_last();
        assert forall|a: int, b: int| 0 <= a < b < shorter.len() implies name_rank(
            (#[trigger] shorter[a]).0,
            (#[trigger] shorter[b]).0,
        ) is Before by {
            assert(shorter[a] == left[a] && shorter[b] == left[b]);
        }
        assert forall|a: int, b: int| 0 <= a < b < other_shorter.len() implies name_rank(
            (#[trigger] other_shorter[a]).0,
            (#[trigger] other_shorter[b]).0,
        ) is Before by {
            assert(other_shorter[a] == right[a] && other_shorter[b] == right[b]);
        }
        assert forall|name: Seq<char>| #[trigger]
            value_of(shorter, name) == value_of(other_shorter, name) by {
            if name == top.0 {
                lemma_value_found(shorter, name);
                lemma_value_found(other_shorter, name);
                if value_of(shorter, name) is Some {
                    let a = choose|a: int| 0 <= a < shorter.len() && (#[trigger] shorter[a]).0
                        == name;
                    assert(shorter[a] == left[a]);
                    assert(name_rank(left[a].0, left[left.len() - 1].0) is Before);
                    lemma_name_rank_same(left[a].0, top.0);
                }
                if value_of(other_shorter, name) is Some {
                    let b = choose|b: int|
                        0 <= b < other_shorter.len() && (#[trigger] other_shorter[b]).0 == name;
                    assert(other_shorter[b] == right[b]);
                    assert(name_rank(right[b].0, right[right.len() - 1].0) is Before);
                    lemma_name_rank_same(right[b].0, other.0);
                }
            } else {
                assert(value_of(left, name) == value_of(shorter, name));
                assert(value_of(right, name) == value_of(other_shorter, name));
                assert(value_of(left, name) == value_of(right, name));
            }
        }
        lemma_ordered_is_unique(shorter, other_shorter);
        assert(left =~= shorter.push(top));
        assert(right =~= other_shorter.push(other));
    }
}

/// The canonical form depends on the mapping alone: two lists that stand
/// for the same mapping, whatever the order of their headers, have the
/// same canonical form.
pub proof fn lemma_canonical_ignores_order(left: HeaderSeq, right: HeaderSeq)
    requires
        same_mapping(left, right),
    ensures
        canonical(left) == canonical(right),
{
    lemma_canonical_is_faithful(left);
    lemma_canonical_is_faithful(right);
    assert forall|name: Seq<char>| #[trigger]
        value_of(canonical(left), name) == value_of(canonical(right), name) by {
        assert(value_of(canonical(left), name) == value_of(left, name));
        assert(value_of(left, name) == value_of(right, name));
        assert(value_of(canonical(right), name) == value_of(right, name));
    }
    lemma_ordered_is_unique(canonical(left), canonical(right));
}

/// In a list that holds no name twice, a name has a value exactly when
/// the list holds the header made of the two.
pub proof fn lemma_value_is_membership(headers: HeaderSeq, name: Seq<char>, value: Seq<char>)
    requires
        distinct_names(headers),
    ensures
        value_of(headers, name) == Some(value) <==> headers.contains((name, value)),
    decreases headers.len(),
{
    if headers.len() > 0 {
        let earlier = headers.drop_last();
        let last = headers.last();
        assert forall|i: int, j: int| 0 <= i < j < earlier.len() implies (#[trigger] earlier[i]).0
            != (#[trigger] earlier[j]).0 by {
            assert(earlier[i] == headers[i] && earlier[j] == headers[j]);
        }
        lemma_value_is_membership(earlier, name, value);
        if headers.contains((name, value)) {
            let i = choose|i: int| 0 <= i < headers.len() && headers[i] == (name, value);
            if i < earlier.len() {
                assert(earlier[i] == (name, value));
                assert(headers[i].0 != headers[headers.len() - 1].0);
            }
        }
        if earlier.contains((name, value)) {
            let i = choose|i: int| 0 <= i < earlier.len() && earlier[i] == (name, value);
            assert(headers[i] == (name, value));
        }
        if last == (name, value) {
            assert(headers[headers.len() - 1] == (name, value));
        }
    }
}

/// The same headers in another order stand for the same mapping: two lists
/// that hold no name twice and hold the same headers give every name the
/// same value.
pub proof fn lemma_rearranged_is_same_mapping(left: HeaderSeq, right: HeaderSeq)
    requires
        distinct_names(left),
        distinct_names(right),
        forall|header: (Seq<char>, Seq<char>)|
            #[trigger] left.contains(header) <==> right.contains(header),
    ensures
        same_mapping(left, right),
{
    assert forall|name: Seq<char>| #[trigger] value_of(left, name) == value_of(right, name) by {
        match value_of(left, name) {
            Some(value) => {
                lemma_value_is_membership(left, name, value);
                assert(left.contains((name, value)));
                lemma_value_is_membership(right, name, value);
            },
            None => {
                match value_of(right, name) {
                    Some(value) => {
                        lemma_value_is_membership(right, name, value);
                        assert(right.contains((name, value)));
                        lemma_value_is_membership(left, name, value);
                    },
                    None => {},
                }
            },
        }
    }
}

/// Where one name stands relative to another.
pub fn rank_names(left: &str, right: &str) -> (rank: Rank)
    ensures
        rank == name_rank(left@, right@),
{
    let a = left.as_bytes();
    let b = right.as_bytes();
    let mut i: usize = 0;
    assert(a@.skip(0) =~= a@ && b@.skip(0) =~= b@);
    while i < a.len() && i < b.len()
        invariant
            i <= a.len(),
            i <= b.len(),
            a@ == encode_utf8(left@),
            b@ == encode_utf8(right@),
            rank_of(a@, b@) == rank_of(a@.skip(i as int), b@.skip(i as int)),
        decreases a.len() - i,
    {
        proof {
            assert(a@.skip(i as int).drop_first() =~= a@.skip(i + 1));
            assert(b@.skip(i as int).drop_first() =~= b@.skip(i + 1));
            assert(a@.skip(i as int)[0] == a@[i as int]);
            assert(b@.skip(i as int)[0] == b@[i as int]);
        }
        if a[i] < b[i] {
            return Rank::Before;
        }
        if a[i] > b[i] {
            return Rank::After;
        }
        i += 1;
    }
    if i == a.len() {
        if i == b.len() {
            Rank::Same
        } else {
            Rank::Before
        }
    } else {
        Rank::After
    }
}

/// Appends copies of the headers of a list from one place up to another.
fn append_copies(
    out: &mut Vec<(String, String)>,
    headers: &Vec<(String, String)>,
    from: usize,
    to: usize,
)
    requires
        from <= to <= headers.len(),
    ensures
        final(out).deep_view() == old(out).deep_view() + headers.deep_view().subrange(
            from as int,
            to as int,
        ),
{
    let mut i: usize = from;
    assert(out.deep_view() =~= old(out).deep_view() + headers.deep_view().subrange(
        from as int,
        from as int,
    ));
    while i < to
        invariant
            from <= i <= to,
            to <= headers.len(),
            out.deep_view() == old(out).deep_view() + headers.deep_view().subrange(
                from as int,
                i as int,
            ),
        decreases to - i,
    {
        let ghost before = out.deep_view();
        out.push((headers[i].0.clone(), headers[i].1.clone()));
        assert(out.deep_view() =~= before.push(headers.deep_view()[i as int]));
        assert(out.deep_view() =~= old(out).deep_view() + headers.deep_view().subrange(
            from as int,
            i + 1,
        ));
        i += 1;
    }
}

/// A copy of an ordered list with one more header put at its place.
pub fn place(headers: &Vec<(String, String)>, name: &String, value: &String) -> (result: Vec<
    (String, String),
>)
    ensures
        result.deep_view() == placed(headers.deep_view(), (name@, value@)),
{
    let ghost list = headers.deep_view();
    let ghost header = (name@, value@);
    let mut end: usize = headers.len();
    let mut keep: usize = headers.len();
    let mut settled = false;
    assert(list.take(end as int) =~= list);
    assert(placed(list, header) =~= placed(list.take(end as int), header) + list.skip(
        end as int,
    ));
    while end > 0 && !settled
        invariant
            keep <= end <= headers.len(),
            list == headers.deep_view(),
            header == (name@, value@),
            !settled ==> keep == end && placed(list, header) == placed(
                list.take(end as int),
                header,
            ) + list.skip(end as int),
            settled ==> placed(list, header) == list.take(keep as int).push(header) + list.skip(
                end as int,
            ),
        decreases end + if settled { 0int } else { 1int },
    {
        let ghost front = list.take(end as int);
        proof {
            assert(front.last() == list[end - 1]);
            assert(front.drop_last() =~= list.take(end - 1));
            assert(list[end - 1].0 == headers[end - 1].0@);
        }
        match rank_names(headers[end - 1].0.as_str(), name.as_str()) {
            Rank::After => {
                proof {
                    assert(placed(front, header) == placed(front.drop_last(), header).push(
                        front.last(),
                    ));
                    assert(placed(front.drop_last(), header).push(front.last()) + list.skip(
                        end as int,
                    ) =~= placed(list.take(end - 1), header) + list.skip(end - 1));
                }
                end -= 1;
                keep = end;
            },
            Rank::Same => {
                proof {
                    assert(placed(front, header) == front.drop_last().push(header));
                }
                keep = end - 1;
                settled = true;
            },
            Rank::Before => {
                proof {
                    assert(placed(front, header) == front.push(header));
                }
                settled = true;
            },
        }
    }
    proof {
        if !settled {
            assert(list.take(0) =~= Seq::empty());
            assert(placed(list.take(0), header) =~= seq![header]);
            assert(placed(list, header) =~= list.take(keep as int).push(header) + list.skip(
                end as int,
            ));
        }
    }
    let mut result: Vec<(String, String)> = Vec::new();
    assert(result.deep_view() =~= Seq::empty());
    append_copies(&mut result, headers, 0, keep);
    let ghost copied = result.deep_view();
    result.push((name.clone(), value.clone()));
    assert(result.deep_view() =~= copied.push(header));
    let ghost with_header = result.deep_view();
    append_copies(&mut result, headers, end, headers.len());
    proof {
        assert(list.subrange(0, keep as int) =~= list.take(keep as int));
        assert(list.subrange(end as int, list.len() as int) =~= list.skip(end as int));
        assert(result.deep_view() =~= placed(list, header));
    }
    result
}

/// Brings a header list into its canonical form: one header per name, the
/// last of each name, in the order of the names.
pub fn canonical_headers(headers: &Vec<(String, String)>) -> (result: Vec<(String, String)>)
    ensures
        result.deep_view() == canonical(headers.deep_view()),
{
    let mut result: Vec<(String, String)> = Vec::new();
    let mut i: usize = 0;
    assert(headers.deep_view().take(0) =~= Seq::empty());
    assert(result.deep_view() =~= Seq::empty());
    while i < headers.len()
        invariant
            i <= headers.len(),
            result.deep_view() == canonical(headers.deep_view().take(i as int)),
        decreases headers.len() - i,
    {
        proof {
            let after = headers.deep_view().take(i + 1);
            assert(after.drop_last() =~= headers.deep_view().take(i as int));
            assert(after.last() == (headers[i as int].0@, headers[i as int].1@));
        }
        result = place(&result, &headers[i].0, &headers[i].1);
        i += 1;
    }
    assert(headers.deep_view().take(i as int) =~= headers.deep_view());
    result
}

} // verus!
