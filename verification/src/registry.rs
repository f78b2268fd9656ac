//! A model of the documentation registry's schema store, against which the
//! behaviour of the emitted registration routine is stated: registering a
//! schema that is already present changes nothing, so forwarding every
//! payload type's registration is safe to do any number of times.

use vstd::prelude::*;

use crate::text::seq_views;

verus! {

/// One registration: the store unchanged when the schema reference is
/// already present, else the reference appended.
pub open spec fn spec_insert_schema(s: Seq<Seq<char>>, n: Seq<char>) -> Seq<Seq<char>> {
    if s.contains(n) {
        s
    } else {
        s.push(n)
    }
}

/// The store after forwarding one registration per name, in order.
pub open spec fn spec_register_seq(s: Seq<Seq<char>>, names: Seq<Seq<char>>) -> Seq<Seq<char>>
    decreases names.len(),
{
    if names.len() == 0 {
        s
    } else {
        spec_insert_schema(spec_register_seq(s, names.drop_last()), names.last())
    }
}

proof fn lemma_insert_keeps(s: Seq<Seq<char>>, n: Seq<char>, m: Seq<char>)
    requires
        s.contains(m),
    ensures
        spec_insert_schema(s, n).contains(m),
{
    if !s.contains(n) {
        let i = choose|i: int| 0 <= i < s.len() && s[i] == m;
        assert(s.push(n)[i] == m);
    }
}

proof fn lemma_register_seq_keeps(s: Seq<Seq<char>>, names: Seq<Seq<char>>, m: Seq<char>)
    requires
        s.contains(m),
    ensures
        spec_register_seq(s, names).contains(m),
    decreases names.len(),
{
    if names.len() > 0 {
        lemma_register_seq_keeps(s, names.drop_last(), m);
        lemma_insert_keeps(spec_register_seq(s, names.drop_last()), names.last(), m);
    }
}

proof fn lemma_register_seq_adds(s: Seq<Seq<char>>, names: Seq<Seq<char>>, k: int)
    requires
        0 <= k < names.len(),
    ensures
        spec_register_seq(s, names).contains(names[k]),
    decreases names.len(),
{
    let prev = spec_register_seq(s, names.drop_last());
    if k == names.len() - 1 {
        if !prev.contains(names.last()) {
            assert(prev.push(names.last())[prev.len() as int] == names.last());
        }
    } else {
        assert(names.drop_last()[k] == names[k]);
        lemma_register_seq_adds(s, names.drop_last(), k);
        lemma_insert_keeps(prev, names.last(), names[k]);
    }
}

proof fn lemma_register_seq_noop(s: Seq<Seq<char>>, names: Seq<Seq<char>>)
    requires
        forall|k: int| 0 <= k < names.len() ==> s.contains(#[trigger] names[k]),
    ensures
        spec_register_seq(s, names) == s,
    decreases names.len(),
{
    if names.len() > 0 {
        assert(forall|k: int|
            0 <= k < names.len() - 1 ==> #[trigger] names.drop_last()[k] == names[k]);
        lemma_register_seq_noop(s, names.drop_last());
        assert(names[names.len() - 1] == names.last());
    }
}

/// Registering the same names a second time leaves the store exactly as the
/// first registration left it: the emitted registration routine is safe to
/// invoke any number of times.
pub proof fn lemma_register_idempotent(s: Seq<Seq<char>>, names: Seq<Seq<char>>)
    ensures
        spec_register_seq(spec_register_seq(s, names), names) == spec_register_seq(s, names),
{
    let t = spec_register_seq(s, names);
    assert forall|k: int| 0 <= k < names.len() implies t.contains(#[trigger] names[k]) by {
        lemma_register_seq_adds(s, names, k);
    }
    lemma_register_seq_noop(t, names);
}

/// The registry's schema store: each registered schema reference once, in
/// first-registration order.
pub struct Registry {
    pub schemas: Vec<String>,
}

/// The registered schema references, in order.
pub open spec fn registered(r: Registry) -> Seq<Seq<char>> {
    seq_views(r.schemas@)
}

/// No schema reference is stored twice.
pub open spec fn registry_inv(r: Registry) -> bool {
    forall|i: int, j: int|
        0 <= i < j < registered(r).len() ==> registered(r)[i] != registered(r)[j]
}

impl Registry {
    /// An empty registry.
    pub fn new() -> (r: Registry)
        ensures
            registered(r) == Seq::<Seq<char>>::empty(),
            registry_inv(r),
    {
        let r = Registry { schemas: Vec::new() };
        proof {
            assert(registered(r) =~= Seq::<Seq<char>>::empty());
        }
        r
    }

    /// Whether a schema reference is already registered.
    pub fn contains_schema(&self, name: &String) -> (b: bool)
        ensures
            b == registered(*self).contains(name@),
    {
        let mut i: usize = 0;
        while i < self.schemas.len()
            invariant
                0 <= i <= self.schemas@.len(),
                forall|k: int| 0 <= k < i ==> registered(*self)[k] != name@,
            decreases self.schemas@.len() - i,
        {
            if self.schemas[i] == *name {
                proof {
                    assert(registered(*self)[i as int] == name@);
                }
                return true;
            }
            i += 1;
        }
        proof {
            if registered(*self).contains(name@) {
                let k = choose|k: int|
                    0 <= k < registered(*self).len() && registered(*self)[k] == name@;
                assert(registered(*self)[k] != name@);
            }
        }
        false
    }

    /// Forwards one schema registration: present references are left alone,
    /// new ones are appended.
    pub fn register_schema(&mut self, name: &String)
        requires
            registry_inv(*old(self)),
        ensures
            registered(*final(self)) == spec_insert_schema(registered(*old(self)), name@),
            registry_inv(*final(self)),
    {
        if !self.contains_schema(name) {
            let ghost prev = self.schemas@;
            self.schemas.push(name.clone());
            proof {
                crate::text::lemma_seq_views_push(prev, self.schemas@.last());
                assert(registered(*self) =~= seq_views(prev).push(name@));
                assert forall|i: int, j: int|
                    0 <= i < j < registered(*self).len() implies registered(*self)[i]
                    != registered(*self)[j] by {
                    if j == registered(*self).len() - 1 {
                        assert(!seq_views(prev).contains(name@));
                        assert(seq_views(prev)[i] == registered(*self)[i]);
                    }
                }
            }
        }
    }

    /// Forwards one schema registration per payload type, in declaration
    /// order, as the emitted registration routine does.
    #[verifier::loop_isolation(false)]
    pub fn register_all(&mut self, payload_types: &Vec<String>)
        requires
            registry_inv(*old(self)),
        ensures
            registered(*final(self)) == spec_register_seq(
                registered(*old(self)),
                seq_views(payload_types@),
            ),
            registry_inv(*final(self)),
    {
        let ghost names = seq_views(payload_types@);
        let mut i: usize = 0;
        while i < payload_types.len()
            invariant
                0 <= i <= payload_types@.len(),
                registered(*self) == spec_register_seq(
                    registered(*old(self)),
                    names.take(i as int),
                ),
                registry_inv(*self),
            decreases payload_types@.len() - i,
        {
            self.register_schema(&payload_types[i]);
            proof {
                assert(names.take(i + 1).drop_last() =~= names.take(i as int));
                assert(names.take(i + 1).last() == names[i as int]);
            }
            i += 1;
        }
        proof {
            assert(names.take(payload_types@.len() as int) =~= names);
        }
    }
}

} // verus!
