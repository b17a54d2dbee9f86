//! The cursor-pagination query engine.
//!
//! Given a review collection, an optional filter, an ordering field and
//! direction, a skip count and a limit, it produces a bounded, ordered,
//! counted page. Sorting is stable: reviews with equal sort keys keep their
//! storage order (no secondary tiebreaker is added, a deliberate limitation
//! of this design).

use vstd::prelude::*;
use crate::order_datatypes::{OrderDirection, ReviewOrderField, ReviewOrderInput};
use crate::review::{Review, Uuid};
use crate::review_connection::ReviewConnection;

verus! {

broadcast use vstd::seq_lib::group_filter_ensures;

/// Equality predicate applied to reviews before sorting and counting.
#[derive(Copy, Clone, Eq, PartialEq, Structural, Debug)]
pub enum ReviewFilter {
    /// Keeps every review.
    All,
    /// Keeps the reviews about the given product variant.
    ByProductVariant(Uuid),
    /// Keeps the reviews about any variant of the given product.
    ByProduct(Uuid),
    /// Keeps the reviews written by the given user.
    ByUser(Uuid),
}

impl ReviewFilter {
    /// Whether the review `r` matches this filter.
    pub open spec fn spec_matches(self, r: Review) -> bool {
        match self {
            ReviewFilter::All => true,
            ReviewFilter::ByProductVariant(id) => r.product_variant._id == id,
            ReviewFilter::ByProduct(id) => r.product_variant.product_id == id,
            ReviewFilter::ByUser(id) => r.user._id == id,
        }
    }

    /// Whether the review `r` matches this filter.
    pub fn matches(&self, r: &Review) -> (b: bool)
        ensures
            b == self.spec_matches(*r),
    {
        match self {
            ReviewFilter::All => true,
            ReviewFilter::ByProductVariant(id) => r.product_variant._id == *id,
            ReviewFilter::ByProduct(id) => r.product_variant.product_id == *id,
            ReviewFilter::ByUser(id) => r.user._id == *id,
        }
    }
}

/// The sort key of a review under the given order field. The closed
/// mapping sends `CreatedAt` to the stored `last_updated_at` key.
pub open spec fn sort_key(r: Review, field: ReviewOrderField) -> int {
    match field {
        ReviewOrderField::Id => r._id.0 as int,
        ReviewOrderField::UserId => r.user._id.0 as int,
        ReviewOrderField::ProductVariant => r.product_variant._id.0 as int,
        ReviewOrderField::Rating => r.rating.spec_stars(),
        ReviewOrderField::CreatedAt => r.last_updated_at as int,
    }
}

/// Whether `a` may stand before `b` under the given field and direction.
pub open spec fn review_le(a: Review, b: Review, field: ReviewOrderField, dir: OrderDirection) -> bool {
    match dir {
        OrderDirection::Asc => sort_key(a, field) <= sort_key(b, field),
        OrderDirection::Desc => sort_key(b, field) <= sort_key(a, field),
    }
}

/// Whether `a`'s sort key does not exceed `b`'s under `field`.
fn key_le(a: &Review, b: &Review, field: ReviewOrderField) -> (r: bool)
    ensures
        r == (sort_key(*a, field) <= sort_key(*b, field)),
{
    match field {
        ReviewOrderField::Id => a._id.0 <= b._id.0,
        ReviewOrderField::UserId => a.user._id.0 <= b.user._id.0,
        ReviewOrderField::ProductVariant => a.product_variant._id.0 <= b.product_variant._id.0,
        ReviewOrderField::Rating => a.rating.stars() <= b.rating.stars(),
        ReviewOrderField::CreatedAt => a.last_updated_at <= b.last_updated_at,
    }
}

/// Whether `a` may stand before `b` under the given field and direction.
fn review_le_exec(a: &Review, b: &Review, field: ReviewOrderField, dir: OrderDirection) -> (r: bool)
    ensures
        r == review_le(*a, *b, field, dir),
{
    match dir {
        OrderDirection::Asc => key_le(a, b, field),
        OrderDirection::Desc => key_le(b, a, field),
    }
}

/// Stable insertion of `x` into `s`: `x` is placed after every leading
/// element whose key may stand before `x`'s, so elements with equal keys
/// keep their earlier position.
pub open spec fn insert_sorted(
    x: Review,
    s: Seq<Review>,
    field: ReviewOrderField,
    dir: OrderDirection,
) -> Seq<Review>
    decreases s.len(),
{
    if s.len() == 0 {
        seq![x]
    } else if review_le(s[0], x, field, dir) {
        seq![s[0]] + insert_sorted(x, s.drop_first(), field, dir)
    } else {
        seq![x] + s
    }
}

/// Stable insertion sort of `s` under the given field and direction: ties
/// are broken by the order of `s`.
pub open spec fn sort_reviews(
    s: Seq<Review>,
    field: ReviewOrderField,
    dir: OrderDirection,
) -> Seq<Review>
    decreases s.len(),
{
    if s.len() == 0 {
        Seq::empty()
    } else {
        insert_sorted(s.last(), sort_reviews(s.drop_last(), field, dir), field, dir)
    }
}

/// Stable insertion lands at the first position whose element may not
/// stand before `x`.
proof fn lemma_insert_sorted_at(
    x: Review,
    s: Seq<Review>,
    field: ReviewOrderField,
    dir: OrderDirection,
    j: int,
)
    requires
        0 <= j <= s.len(),
        forall|k: int| 0 <= k < j ==> review_le(s[k], x, field, dir),
        j < s.len() ==> !review_le(s[j], x, field, dir),
    ensures
        insert_sorted(x, s, field, dir) == s.insert(j, x),
    decreases s.len(),
{
    if s.len() == 0 {
        assert(insert_sorted(x, s, field, dir) =~= s.insert(0, x));
    } else if j == 0 {
        assert(insert_sorted(x, s, field, dir) =~= s.insert(0, x));
    } else {
        let rest = s.drop_first();
        assert(forall|k: int| 0 <= k < j - 1 ==> review_le(rest[k], x, field, dir));
        if j - 1 < rest.len() {
            assert(rest[j - 1] == s[j]);
        }
        lemma_insert_sorted_at(x, rest, field, dir, j - 1);
        assert(seq![s[0]] + rest.insert(j - 1, x) =~= s.insert(j, x));
    }
}

/// The first position in `v` whose element may not stand before `x`.
fn insertion_point(
    v: &Vec<Review>,
    x: &Review,
    field: ReviewOrderField,
    dir: OrderDirection,
) -> (j: usize)
    ensures
        j <= v@.len(),
        forall|k: int| 0 <= k < j ==> review_le(v@[k], *x, field, dir),
        j < v@.len() ==> !review_le(v@[j as int], *x, field, dir),
{
    let mut j: usize = 0;
    while j < v.len()
        invariant
            j <= v@.len(),
            forall|k: int| 0 <= k < j ==> review_le(v@[k], *x, field, dir),
        decreases v@.len() - j,
    {
        if !review_le_exec(&v[j], x, field, dir) {
            return j;
        }
        j += 1;
    }
    j
}

/// Sorts the reviews stably under the given field and direction.
fn sort_reviews_exec(input: &Vec<Review>, field: ReviewOrderField, dir: OrderDirection) -> (out:
    Vec<Review>)
    ensures
        out@ == sort_reviews(input@, field, dir),
{
    let mut out: Vec<Review> = Vec::new();
    let mut i: usize = 0;
    while i < input.len()
        invariant
            i <= input@.len(),
            out@ == sort_reviews(input@.subrange(0, i as int), field, dir),
        decreases input@.len() - i,
    {
        let x = input[i].clone();
        let ghost prev = out@;
        let j = insertion_point(&out, &x, field, dir);
        out.insert(j, x);
        proof {
            lemma_insert_sorted_at(x, prev, field, dir, j as int);
            let sub = input@.subrange(0, i + 1);
            assert(sub.drop_last() =~= input@.subrange(0, i as int));
            assert(sub.last() == input@[i as int]);
        }
        i += 1;
    }
    proof {
        assert(input@.subrange(0, input@.len() as int) =~= input@);
    }
    out
}

/// The reviews of `s` matching `filter`, in storage order.
pub open spec fn filtered_reviews(s: Seq<Review>, filter: ReviewFilter) -> Seq<Review> {
    s.filter(|r: Review| filter.spec_matches(r))
}

/// The order field in effect: absent parts default to ordering by id.
pub open spec fn effective_field(order_by: Option<ReviewOrderInput>) -> ReviewOrderField {
    match order_by {
        None => ReviewOrderField::Id,
        Some(o) => match o.field {
            None => ReviewOrderField::Id,
            Some(f) => f,
        },
    }
}

/// The order direction in effect: absent parts default to ascending.
pub open spec fn effective_direction(order_by: Option<ReviewOrderInput>) -> OrderDirection {
    match order_by {
        None => OrderDirection::Asc,
        Some(o) => match o.direction {
            None => OrderDirection::Asc,
            Some(d) => d,
        },
    }
}

/// The skip count in effect: absent means zero.
pub open spec fn skip_count(skip: Option<u64>) -> u64 {
    match skip {
        None => 0,
        Some(s) => s,
    }
}

/// First index of the page window over a result of length `len`.
pub open spec fn page_start(len: int, skip: u64) -> int {
    if skip as int <= len {
        skip as int
    } else {
        len
    }
}

/// One-past-last index of the page window: absent `first` means unbounded.
pub open spec fn page_end(len: int, start: int, first: Option<u32>) -> int {
    match first {
        None => len,
        Some(f) => if start + f as int <= len {
            start + f as int
        } else {
            len
        },
    }
}

/// Produces the bounded, ordered page of `reviews` under `filter`:
/// matching reviews are sorted stably by the effective order, `skip` of
/// them are skipped, at most `first` are returned, `total_count` counts
/// every match ignoring skip and limit, and `has_next_page` says whether
/// matches remain past the returned window.
pub fn paginate(
    reviews: &Vec<Review>,
    filter: ReviewFilter,
    order_by: Option<ReviewOrderInput>,
    skip: Option<u64>,
    first: Option<u32>,
) -> (page: ReviewConnection)
    ensures
        ({
            let filtered = filtered_reviews(reviews@, filter);
            let sorted = sort_reviews(filtered, effective_field(order_by), effective_direction(order_by));
            let start = page_start(sorted.len() as int, skip_count(skip));
            let end = page_end(sorted.len() as int, start, first);
            &&& page.nodes@ == sorted.subrange(start, end)
            &&& page.total_count == filtered.len()
            &&& page.has_next_page == (skip_count(skip) + page.nodes@.len() < filtered.len())
        }),
{
    let ghost pred = |r: Review| filter.spec_matches(r);
    let mut kept: Vec<Review> = Vec::new();
    let mut i: usize = 0;
    while i < reviews.len()
        invariant
            i <= reviews@.len(),
            kept@ == reviews@.subrange(0, i as int).filter(pred),
            pred == (|r: Review| filter.spec_matches(r)),
        decreases reviews@.len() - i,
    {
        proof {
            assert(reviews@.subrange(0, i + 1) =~= reviews@.subrange(0, i as int).push(
                reviews@[i as int],
            ));
            Seq::lemma_filter_push(reviews@.subrange(0, i as int), reviews@[i as int], pred);
        }
        if filter.matches(&reviews[i]) {
            kept.push(reviews[i].clone());
        }
        i += 1;
    }
    proof {
        assert(reviews@.subrange(0, reviews@.len() as int) =~= reviews@);
        Seq::lemma_filter_len(reviews@, pred);
    }
    let field = match &order_by {
        Some(o) => match o.field {
            Some(f) => f,
            None => ReviewOrderField::Id,
        },
        None => ReviewOrderField::Id,
    };
    let dir = match &order_by {
        Some(o) => match o.direction {
            Some(d) => d,
            None => OrderDirection::Asc,
        },
        None => OrderDirection::Asc,
    };
    let sorted = sort_reviews_exec(&kept, field, dir);
    let total_count: u64 = kept.len() as u64;
    let skip_value: u64 = match skip {
        Some(s) => s,
        None => 0,
    };
    let start: usize = if skip_value >= sorted.len() as u64 {
        sorted.len()
    } else {
        skip_value as usize
    };
    let end: usize = match first {
        None => sorted.len(),
        Some(f) => {
            let remaining = sorted.len() - start;
            if (f as usize) <= remaining {
                start + f as usize
            } else {
                sorted.len()
            }
        },
    };
    let mut nodes: Vec<Review> = Vec::new();
    let mut idx: usize = start;
    while idx < end
        invariant
            start <= idx <= end <= sorted@.len(),
            nodes@ == sorted@.subrange(start as int, idx as int),
        decreases end - idx,
    {
        proof {
            assert(sorted@.subrange(start as int, idx + 1) =~= sorted@.subrange(
                start as int,
                idx as int,
            ).push(sorted@[idx as int]));
        }
        nodes.push(sorted[idx].clone());
        idx += 1;
    }
    let returned: u64 = nodes.len() as u64;
    let has_next_page = skip_value + returned < total_count;
    ReviewConnection { nodes, has_next_page, total_count }
}

/// Every review of `s` may stand before each review after it.
pub open spec fn sorted_by_order(s: Seq<Review>, field: ReviewOrderField, dir: OrderDirection) -> bool {
    forall|i: int, j: int| 0 <= i < j < s.len() ==> review_le(s[i], s[j], field, dir)
}

/// Every element of a stable insertion is the inserted review or one of
/// `s`.
proof fn lemma_insert_sorted_membership(
    x: Review,
    s: Seq<Review>,
    field: ReviewOrderField,
    dir: OrderDirection,
)
    ensures
        forall|k: int|
            0 <= k < insert_sorted(x, s, field, dir).len() ==> insert_sorted(x, s, field, dir)[k]
                == x || s.contains(insert_sorted(x, s, field, dir)[k]),
    decreases s.len(),
{
    let r = insert_sorted(x, s, field, dir);
    if s.len() == 0 {
    } else if review_le(s[0], x, field, dir) {
        let rest = s.drop_first();
        let inner = insert_sorted(x, rest, field, dir);
        lemma_insert_sorted_membership(x, rest, field, dir);
        assert forall|k: int| 0 <= k < r.len() implies r[k] == x || s.contains(r[k]) by {
            if k == 0 {
                assert(r[0] == s[0]);
            } else {
                assert(r[k] == inner[k - 1]);
                if inner[k - 1] != x {
                    let m = choose|m: int| 0 <= m < rest.len() && rest[m] == inner[k - 1];
                    assert(s[m + 1] == inner[k - 1]);
                }
            }
        }
    } else {
        assert forall|k: int| 0 <= k < r.len() implies r[k] == x || s.contains(r[k]) by {
            if k > 0 {
                assert(r[k] == s[k - 1]);
            }
        }
    }
}

/// Stable insertion preserves sortedness.
proof fn lemma_insert_sorted_sorted(
    x: Review,
    s: Seq<Review>,
    field: ReviewOrderField,
    dir: OrderDirection,
)
    requires
        sorted_by_order(s, field, dir),
    ensures
        sorted_by_order(insert_sorted(x, s, field, dir), field, dir),
    decreases s.len(),
{
    let r = insert_sorted(x, s, field, dir);
    if s.len() == 0 {
    } else if review_le(s[0], x, field, dir) {
        let rest = s.drop_first();
        let inner = insert_sorted(x, rest, field, dir);
        assert(forall|i: int, j: int|
            0 <= i < j < rest.len() ==> review_le(rest[i], rest[j], field, dir)) by {
            assert(forall|i: int| 0 <= i < rest.len() ==> rest[i] == s[i + 1]);
        }
        lemma_insert_sorted_sorted(x, rest, field, dir);
        lemma_insert_sorted_membership(x, rest, field, dir);
        assert forall|i: int, j: int|
            0 <= i < j < r.len() implies review_le(r[i], r[j], field, dir) by {
            if i == 0 {
                assert(r[j] == inner[j - 1]);
                if inner[j - 1] == x {
                } else {
                    let m = choose|m: int| 0 <= m < rest.len() && rest[m] == inner[j - 1];
                    assert(s[m + 1] == inner[j - 1]);
                    assert(review_le(s[0], s[m + 1], field, dir));
                }
            } else {
                assert(r[i] == inner[i - 1]);
                assert(r[j] == inner[j - 1]);
            }
        }
    } else {
        assert forall|i: int, j: int|
            0 <= i < j < r.len() implies review_le(r[i], r[j], field, dir) by {
            if i == 0 {
                assert(r[j] == s[j - 1]);
                assert(review_le(x, s[0], field, dir));
                if j > 1 {
                    assert(review_le(s[0], s[j - 1], field, dir));
                }
            } else {
                assert(r[i] == s[i - 1]);
                assert(r[j] == s[j - 1]);
            }
        }
    }
}

/// A stable insertion holds the inserted review and everything of `s`.
proof fn lemma_insert_sorted_multiset(
    x: Review,
    s: Seq<Review>,
    field: ReviewOrderField,
    dir: OrderDirection,
)
    ensures
        insert_sorted(x, s, field, dir).to_multiset() == s.to_multiset().insert(x),
    decreases s.len(),
{
    broadcast use vstd::seq_lib::group_to_multiset_ensures;

    let r = insert_sorted(x, s, field, dir);
    if s.len() == 0 {
        assert(seq![x] =~= Seq::<Review>::empty().push(x));
        assert(r.to_multiset() =~= s.to_multiset().insert(x));
    } else if review_le(s[0], x, field, dir) {
        let rest = s.drop_first();
        let inner = insert_sorted(x, rest, field, dir);
        lemma_insert_sorted_multiset(x, rest, field, dir);
        vstd::seq_lib::lemma_multiset_commutative(seq![s[0]], inner);
        assert(s =~= seq![s[0]] + rest);
        vstd::seq_lib::lemma_multiset_commutative(seq![s[0]], rest);
        assert(r.to_multiset() =~= s.to_multiset().insert(x));
    } else {
        vstd::seq_lib::lemma_multiset_commutative(seq![x], s);
        assert(seq![x] =~= Seq::<Review>::empty().push(x));
        assert(r.to_multiset() =~= s.to_multiset().insert(x));
    }
}

/// Law: sorting orders the reviews. The page window of `paginate` is cut
/// from a sequence in which every review may stand before each review
/// after it under the effective field and direction.
pub proof fn lemma_sort_reviews_sorted(s: Seq<Review>, field: ReviewOrderField, dir: OrderDirection)
    ensures
        sorted_by_order(sort_reviews(s, field, dir), field, dir),
    decreases s.len(),
{
    if s.len() > 0 {
        lemma_sort_reviews_sorted(s.drop_last(), field, dir);
        lemma_insert_sorted_sorted(s.last(), sort_reviews(s.drop_last(), field, dir), field, dir);
    }
}

/// Law: sorting only rearranges. The sorted sequence holds exactly the
/// reviews of `s`, kept and lost none.
pub proof fn lemma_sort_reviews_permutes(
    s: Seq<Review>,
    field: ReviewOrderField,
    dir: OrderDirection,
)
    ensures
        sort_reviews(s, field, dir).to_multiset() == s.to_multiset(),
    decreases s.len(),
{
    broadcast use vstd::seq_lib::group_to_multiset_ensures;

    if s.len() > 0 {
        lemma_sort_reviews_permutes(s.drop_last(), field, dir);
        lemma_insert_sorted_multiset(
            s.last(),
            sort_reviews(s.drop_last(), field, dir),
            field,
            dir,
        );
        assert(s =~= s.drop_last().push(s.last()));
        assert(sort_reviews(s, field, dir).to_multiset() =~= s.to_multiset());
    }
}

/// The reviews of `s` whose sort key under `field` is exactly `k`, in the
/// order of `s`.
pub open spec fn key_filter(s: Seq<Review>, field: ReviewOrderField, k: int) -> Seq<Review> {
    s.filter(|r: Review| sort_key(r, field) == k)
}

/// Appending a review extends its key's filtered sequence at the back and
/// leaves every other key's untouched.
proof fn lemma_key_filter_push(s: Seq<Review>, field: ReviewOrderField, k: int, x: Review)
    ensures
        key_filter(s.push(x), field, k) == if sort_key(x, field) == k {
            key_filter(s, field, k).push(x)
        } else {
            key_filter(s, field, k)
        },
{
    reveal(Seq::filter);
    assert(s.push(x).drop_last() =~= s);
}

/// A sequence in which no review carries the key filters to nothing.
proof fn lemma_key_filter_none(s: Seq<Review>, field: ReviewOrderField, k: int)
    requires
        forall|i: int| 0 <= i < s.len() ==> sort_key(s[i], field) != k,
    ensures
        key_filter(s, field, k) == Seq::<Review>::empty(),
    decreases s.len(),
{
    reveal(Seq::filter);
    if s.len() > 0 {
        assert(forall|i: int|
            0 <= i < s.len() - 1 ==> sort_key(s.drop_last()[i], field) != k);
        lemma_key_filter_none(s.drop_last(), field, k);
        assert(sort_key(s.last(), field) != k);
    }
}

/// Filtering by key distributes over concatenation.
proof fn lemma_key_filter_add(a: Seq<Review>, b: Seq<Review>, field: ReviewOrderField, k: int)
    ensures
        key_filter(a + b, field, k) == key_filter(a, field, k) + key_filter(b, field, k),
    decreases b.len(),
{
    reveal(Seq::filter);
    if b.len() == 0 {
        assert(a + b =~= a);
        assert(key_filter(a, field, k) + key_filter(b, field, k) =~= key_filter(a, field, k));
    } else {
        assert((a + b).drop_last() =~= a + b.drop_last());
        assert((a + b).last() == b.last());
        lemma_key_filter_add(a, b.drop_last(), field, k);
        lemma_key_filter_push(a + b.drop_last(), field, k, b.last());
        assert(a + b =~= (a + b.drop_last()).push(b.last()));
        lemma_key_filter_push(b.drop_last(), field, k, b.last());
        if sort_key(b.last(), field) == k {
            assert(key_filter(a, field, k) + key_filter(b.drop_last(), field, k).push(b.last())
                =~= (key_filter(a, field, k) + key_filter(b.drop_last(), field, k)).push(
                b.last(),
            ));
        }
    }
}

/// A stable insertion into a sorted sequence extends the inserted review's
/// key at the back and leaves every other key's order untouched.
proof fn lemma_insert_sorted_stable(
    x: Review,
    t: Seq<Review>,
    field: ReviewOrderField,
    dir: OrderDirection,
    k: int,
)
    requires
        sorted_by_order(t, field, dir),
    ensures
        key_filter(insert_sorted(x, t, field, dir), field, k) == if sort_key(x, field) == k {
            key_filter(t, field, k).push(x)
        } else {
            key_filter(t, field, k)
        },
    decreases t.len(),
{
    reveal(Seq::filter);
    let r = insert_sorted(x, t, field, dir);
    if t.len() == 0 {
        assert(seq![x] =~= Seq::<Review>::empty().push(x));
        lemma_key_filter_push(Seq::<Review>::empty(), field, k, x);
        assert(key_filter(t, field, k) =~= Seq::<Review>::empty());
    } else if review_le(t[0], x, field, dir) {
        let rest = t.drop_first();
        let inner = insert_sorted(x, rest, field, dir);
        assert(forall|i: int, j: int|
            0 <= i < j < rest.len() ==> review_le(rest[i], rest[j], field, dir)) by {
            assert(forall|i: int| 0 <= i < rest.len() ==> rest[i] == t[i + 1]);
        }
        lemma_insert_sorted_stable(x, rest, field, dir, k);
        lemma_key_filter_add(seq![t[0]], inner, field, k);
        lemma_key_filter_add(seq![t[0]], rest, field, k);
        assert(t =~= seq![t[0]] + rest);
        if sort_key(x, field) == k {
            assert(seq![t[0]].filter(|r: Review| sort_key(r, field) == k) + key_filter(
                rest,
                field,
                k,
            ).push(x) =~= (seq![t[0]].filter(|r: Review| sort_key(r, field) == k) + key_filter(
                rest,
                field,
                k,
            )).push(x));
        }
    } else {
        // every review of `t` has a key strictly past `x`'s, so none
        // carries `x`'s key
        assert(r =~= seq![x] + t);
        lemma_key_filter_add(seq![x], t, field, k);
        assert(seq![x] =~= Seq::<Review>::empty().push(x));
        lemma_key_filter_push(Seq::<Review>::empty(), field, k, x);
        if sort_key(x, field) == k {
            assert forall|i: int| 0 <= i < t.len() implies sort_key(t[i], field) != k by {
                if i > 0 {
                    assert(review_le(t[0], t[i], field, dir));
                }
            }
            lemma_key_filter_none(t, field, k);
            assert(key_filter(seq![x], field, k) + key_filter(t, field, k) =~= key_filter(
                t,
                field,
                k,
            ).push(x));
        } else {
            assert(key_filter(seq![x], field, k) + key_filter(t, field, k) =~= key_filter(
                t,
                field,
                k,
            ));
        }
    }
}

/// Law: the sort is stable, adding no secondary tiebreaker. For every key
/// value, the reviews carrying that key stand in the sorted sequence in
/// exactly the order the input holds them: ties are broken by storage
/// order.
pub proof fn lemma_sort_reviews_stable(
    s: Seq<Review>,
    field: ReviewOrderField,
    dir: OrderDirection,
    k: int,
)
    ensures
        key_filter(sort_reviews(s, field, dir), field, k) == key_filter(s, field, k),
    decreases s.len(),
{
    if s.len() > 0 {
        let rest = s.drop_last();
        lemma_sort_reviews_stable(rest, field, dir, k);
        lemma_sort_reviews_sorted(rest, field, dir);
        lemma_insert_sorted_stable(s.last(), sort_reviews(rest, field, dir), field, dir, k);
        lemma_key_filter_push(rest, field, k, s.last());
        assert(s =~= rest.push(s.last()));
    }
}

} // verus!
