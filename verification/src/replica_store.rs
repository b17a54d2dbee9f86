//! The local replica of foreign entities.
//!
//! One table per entity kind holds minimal stub records keyed by UUID.
//! Stubs are immutable after creation and are only ever inserted if absent,
//! so ingesting the same creation event any number of times leaves exactly
//! one stub behind (see the idempotence lemmas at the bottom).

use vstd::prelude::*;
use crate::review::{Product, ProductVariant, User, Uuid};

verus! {

/// An entity carrying a stable UUID identifier.
pub trait Identified: Sized {
    /// The identifier of this entity.
    spec fn spec_id(self) -> Uuid;

    /// Returns the identifier of this entity.
    fn ident(&self) -> (r: Uuid)
        ensures
            r == self.spec_id(),
    ;
}

impl Identified for User {
    open spec fn spec_id(self) -> Uuid {
        self._id
    }

    fn ident(&self) -> (r: Uuid) {
        self._id
    }
}

impl Identified for Product {
    open spec fn spec_id(self) -> Uuid {
        self._id
    }

    fn ident(&self) -> (r: Uuid) {
        self._id
    }
}

impl Identified for ProductVariant {
    open spec fn spec_id(self) -> Uuid {
        self._id
    }

    fn ident(&self) -> (r: Uuid) {
        self._id
    }
}

/// The set of identifiers of the entities in `s`.
pub open spec fn id_set<T: Identified>(s: Seq<T>) -> Set<Uuid>
    decreases s.len(),
{
    if s.len() == 0 {
        Set::empty()
    } else {
        id_set(s.drop_last()).insert(s.last().spec_id())
    }
}

/// No two entities in `s` share an identifier.
pub open spec fn unique_ids<T: Identified>(s: Seq<T>) -> bool {
    forall|i: int, j: int|
        0 <= i < j < s.len() ==> s[i].spec_id() != s[j].spec_id()
}

/// How many entities in `s` carry the identifier `id`.
pub open spec fn count_with_id<T: Identified>(s: Seq<T>, id: Uuid) -> int
    decreases s.len(),
{
    if s.len() == 0 {
        0
    } else {
        count_with_id(s.drop_last(), id) + if s.last().spec_id() == id {
            1int
        } else {
            0int
        }
    }
}

/// `id_set` contains exactly the identifiers of the entities of `s`.
pub proof fn lemma_id_set_contains<T: Identified>(s: Seq<T>, id: Uuid)
    ensures
        id_set(s).contains(id) <==> exists|i: int|
            0 <= i < s.len() && s[i].spec_id() == id,
    decreases s.len(),
{
    if s.len() > 0 {
        lemma_id_set_contains(s.drop_last(), id);
        if s.last().spec_id() == id {
            assert(s[s.len() - 1].spec_id() == id);
        } else if exists|i: int| 0 <= i < s.len() - 1 && s.drop_last()[i].spec_id() == id {
            let i = choose|i: int| 0 <= i < s.len() - 1 && s.drop_last()[i].spec_id() == id;
            assert(s[i].spec_id() == id);
        } else if exists|i: int| 0 <= i < s.len() && s[i].spec_id() == id {
            let i = choose|i: int| 0 <= i < s.len() && s[i].spec_id() == id;
            if i < s.len() - 1 {
                assert(s.drop_last()[i].spec_id() == id);
            }
        }
    }
}

/// Appending an entity adds its identifier to the identifier set.
pub proof fn lemma_id_set_push<T: Identified>(s: Seq<T>, t: T)
    ensures
        id_set(s.push(t)) == id_set(s).insert(t.spec_id()),
{
    assert(s.push(t).drop_last() =~= s);
}

/// An entity set with unique identifiers holds exactly one entity per
/// identifier it contains.
pub proof fn lemma_exactly_one_stub<T: Identified>(s: Seq<T>, id: Uuid)
    requires
        unique_ids(s),
        id_set(s).contains(id),
    ensures
        count_with_id(s, id) == 1,
    decreases s.len(),
{
    lemma_id_set_contains(s, id);
    let i = choose|i: int| 0 <= i < s.len() && s[i].spec_id() == id;
    if s.last().spec_id() == id {
        lemma_count_absent(s.drop_last(), id);
    } else {
        assert(s.drop_last()[i].spec_id() == id);
        lemma_id_set_contains(s.drop_last(), id);
        lemma_exactly_one_stub(s.drop_last(), id);
    }
}

/// An identifier outside the identifier set is carried by no entity.
pub proof fn lemma_count_absent<T: Identified>(s: Seq<T>, id: Uuid)
    requires
        !(exists|i: int| 0 <= i < s.len() && s[i].spec_id() == id),
    ensures
        count_with_id(s, id) == 0,
    decreases s.len(),
{
    if s.len() > 0 {
        assert(forall|i: int|
            0 <= i < s.len() - 1 ==> s.drop_last()[i].spec_id() != id);
        lemma_count_absent(s.drop_last(), id);
        assert(s[s.len() - 1].spec_id() != id);
    }
}

/// Whether `v` holds an entity with identifier `id`.
fn contains_id<T: Identified>(v: &Vec<T>, id: Uuid) -> (r: bool)
    ensures
        r == id_set(v@).contains(id),
{
    proof {
        lemma_id_set_contains(v@, id);
    }
    let mut i: usize = 0;
    while i < v.len()
        invariant
            0 <= i <= v@.len(),
            forall|k: int| 0 <= k < i ==> v@[k].spec_id() != id,
        decreases v@.len() - i,
    {
        if v[i].ident() == id {
            proof {
                lemma_id_set_contains(v@, id);
                assert(v@[i as int].spec_id() == id);
                assert(exists|k: int| 0 <= k < v@.len() && v@[k].spec_id() == id);
            }
            return true;
        }
        i += 1;
    }
    false
}

/// Inserts `t` if no entity with its identifier is present; otherwise a
/// no-op (first writer wins, no overwrite).
pub open spec fn upserted<T: Identified>(s: Seq<T>, t: T) -> Seq<T> {
    if id_set(s).contains(t.spec_id()) {
        s
    } else {
        s.push(t)
    }
}

fn upsert_into<T: Identified>(v: &mut Vec<T>, t: T)
    ensures
        final(v)@ == upserted(old(v)@, t),
        id_set(final(v)@) == id_set(old(v)@).insert(t.spec_id()),
        unique_ids(old(v)@) ==> unique_ids(final(v)@),
{
    let ghost s = v@;
    let id = t.ident();
    if !contains_id(v, id) {
        v.push(t);
        proof {
            lemma_id_set_push(s, t);
            lemma_id_set_contains(s, t.spec_id());
            assert forall|i: int, j: int|
                unique_ids(s) && 0 <= i < j < v@.len() implies v@[i].spec_id()
                != v@[j].spec_id() by {
                if j == v@.len() - 1 {
                    assert(v@[i] == s[i]);
                }
            }
        }
    } else {
        proof {
            assert(id_set(s).insert(t.spec_id()) =~= id_set(s));
        }
    }
}

/// The local, eventually consistent replica of foreign-entity existence:
/// one stub table per entity kind.
pub struct ReplicaStore {
    /// Stubs of users known to exist upstream.
    pub users: Vec<User>,
    /// Stubs of products known to exist upstream.
    pub products: Vec<Product>,
    /// Stubs of product variants known to exist upstream.
    pub product_variants: Vec<ProductVariant>,
}

impl ReplicaStore {
    /// Each table holds at most one stub per identifier.
    pub open spec fn wf(self) -> bool {
        unique_ids(self.users@) && unique_ids(self.products@) && unique_ids(
            self.product_variants@,
        )
    }

    /// The identifiers of the users known to exist.
    pub open spec fn user_ids(self) -> Set<Uuid> {
        id_set(self.users@)
    }

    /// The identifiers of the products known to exist.
    pub open spec fn product_ids(self) -> Set<Uuid> {
        id_set(self.products@)
    }

    /// The identifiers of the product variants known to exist.
    pub open spec fn variant_ids(self) -> Set<Uuid> {
        id_set(self.product_variants@)
    }

    /// The stub stored for the product variant with identifier `id`.
    pub open spec fn variant_stub(self, id: Uuid) -> ProductVariant {
        self.product_variants@[choose|i: int|
            0 <= i < self.product_variants@.len() && self.product_variants@[i]._id == id]
    }

    /// Creates an empty replica store.
    pub fn new() -> (r: Self)
        ensures
            r.wf(),
            r.user_ids() == Set::<Uuid>::empty(),
            r.product_ids() == Set::<Uuid>::empty(),
            r.variant_ids() == Set::<Uuid>::empty(),
            r.users@.len() == 0,
            r.products@.len() == 0,
            r.product_variants@.len() == 0,
    {
        ReplicaStore { users: Vec::new(), products: Vec::new(), product_variants: Vec::new() }
    }

    /// Records that the user with identifier `id` exists upstream.
    /// Idempotent: if a stub with `id` is already present the call is a
    /// no-op.
    pub fn upsert_user(&mut self, id: Uuid)
        requires
            old(self).wf(),
        ensures
            final(self).wf(),
            final(self).users@ == upserted(old(self).users@, User { _id: id }),
            final(self).user_ids() == old(self).user_ids().insert(id),
            final(self).products@ == old(self).products@,
            final(self).product_variants@ == old(self).product_variants@,
    {
        upsert_into(&mut self.users, User { _id: id });
    }

    /// Records that the product with identifier `id` exists upstream.
    /// Idempotent: if a stub with `id` is already present the call is a
    /// no-op.
    pub fn upsert_product(&mut self, id: Uuid)
        requires
            old(self).wf(),
        ensures
            final(self).wf(),
            final(self).products@ == upserted(old(self).products@, Product { _id: id }),
            final(self).product_ids() == old(self).product_ids().insert(id),
            final(self).users@ == old(self).users@,
            final(self).product_variants@ == old(self).product_variants@,
    {
        upsert_into(&mut self.products, Product { _id: id });
    }

    /// Records that the product variant with identifier `id`, owned by
    /// product `product_id`, exists upstream. Idempotent: if a stub with
    /// `id` is already present the call is a no-op and the stored stub is
    /// not overwritten (first writer wins).
    pub fn upsert_product_variant(&mut self, id: Uuid, product_id: Uuid)
        requires
            old(self).wf(),
        ensures
            final(self).wf(),
            final(self).product_variants@ == upserted(
                old(self).product_variants@,
                ProductVariant { _id: id, product_id },
            ),
            final(self).variant_ids() == old(self).variant_ids().insert(id),
            final(self).users@ == old(self).users@,
            final(self).products@ == old(self).products@,
    {
        upsert_into(&mut self.product_variants, ProductVariant { _id: id, product_id });
    }

    /// Whether a user with identifier `id` is known to exist.
    pub fn exists_user(&self, id: Uuid) -> (r: bool)
        ensures
            r == self.user_ids().contains(id),
    {
        contains_id(&self.users, id)
    }

    /// Whether a product with identifier `id` is known to exist.
    pub fn exists_product(&self, id: Uuid) -> (r: bool)
        ensures
            r == self.product_ids().contains(id),
    {
        contains_id(&self.products, id)
    }

    /// Whether a product variant with identifier `id` is known to exist.
    pub fn exists_product_variant(&self, id: Uuid) -> (r: bool)
        ensures
            r == self.variant_ids().contains(id),
    {
        contains_id(&self.product_variants, id)
    }

    /// Returns the stub of the user with identifier `id`, if known.
    pub fn get_user(&self, id: Uuid) -> (r: Option<User>)
        ensures
            r == if self.user_ids().contains(id) {
                Some(User { _id: id })
            } else {
                None::<User>
            },
    {
        if self.exists_user(id) {
            Some(User { _id: id })
        } else {
            None
        }
    }

    /// Returns the stub of the product with identifier `id`, if known.
    pub fn get_product(&self, id: Uuid) -> (r: Option<Product>)
        ensures
            r == if self.product_ids().contains(id) {
                Some(Product { _id: id })
            } else {
                None::<Product>
            },
    {
        if self.exists_product(id) {
            Some(Product { _id: id })
        } else {
            None
        }
    }

    /// Returns the stored stub of the product variant with identifier
    /// `id`, if known.
    pub fn get_product_variant(&self, id: Uuid) -> (r: Option<ProductVariant>)
        requires
            self.wf(),
        ensures
            r == if self.variant_ids().contains(id) {
                Some(self.variant_stub(id))
            } else {
                None::<ProductVariant>
            },
            self.variant_ids().contains(id) ==> self.variant_stub(id)._id == id,
    {
        proof {
            lemma_id_set_contains(self.product_variants@, id);
        }
        let mut i: usize = 0;
        while i < self.product_variants.len()
            invariant
                self.wf(),
                0 <= i <= self.product_variants@.len(),
                forall|k: int| 0 <= k < i ==> self.product_variants@[k]._id != id,
            decreases self.product_variants@.len() - i,
        {
            if self.product_variants[i].ident() == id {
                proof {
                    lemma_id_set_contains(self.product_variants@, id);
                    assert(self.product_variants@[i as int].spec_id() == id);
                    assert(exists|k: int|
                        0 <= k < self.product_variants@.len()
                            && self.product_variants@[k].spec_id() == id);
                    let j = choose|k: int|
                        0 <= k < self.product_variants@.len() && self.product_variants@[k]._id
                            == id;
                    assert(self.product_variants@[j].spec_id() == id);
                    assert(j == i as int);
                }
                return Some(self.product_variants[i]);
            }
            i += 1;
        }
        None
    }
}

/// Law: upserting a stub is idempotent. Applying the same insert-if-absent
/// upsert any number of times (at least once) has the same effect on the
/// table as applying it once.
pub proof fn lemma_upsert_idempotent<T: Identified>(s: Seq<T>, t: T)
    ensures
        upserted(upserted(s, t), t) == upserted(s, t),
{
    if !id_set(s).contains(t.spec_id()) {
        lemma_id_set_push(s, t);
    }
}

/// Law: after a stub with identifier `id` has been upserted into a
/// well-formed table, exactly one stub with that identifier is present.
pub proof fn lemma_upsert_exactly_one<T: Identified>(s: Seq<T>, t: T)
    requires
        unique_ids(s),
    ensures
        count_with_id(upserted(s, t), t.spec_id()) == 1,
{
    if id_set(s).contains(t.spec_id()) {
        lemma_exactly_one_stub(s, t.spec_id());
    } else {
        lemma_id_set_push(s, t);
        lemma_id_set_contains(s, t.spec_id());
        assert forall|i: int, j: int|
            0 <= i < j < s.push(t).len() implies s.push(t)[i].spec_id() != s.push(
            t,
        )[j].spec_id() by {
            if j == s.len() {
                assert(s.push(t)[i] == s[i]);
            }
        }
        lemma_exactly_one_stub(s.push(t), t.spec_id());
    }
}

} // verus!
