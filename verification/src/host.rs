//! The host's lists of numbers: ids of addresses and escrows, 32-bit numbers and
//! amounts travel in `soroban_sdk::Vec`, a handle to an immutable list that the
//! host keeps. Every call is charged to the host's budget; as with memory, that
//! there is enough of it is taken for granted.
use vstd::prelude::*;

use crate::store::Record;

verus! {

/// The host's environment handle.
#[verifier::external_type_specification]
#[verifier::external_body]
pub struct ExHostEnv(soroban_sdk::Env);

/// The host's list.
#[verifier::external_type_specification]
#[verifier::external_body]
#[verifier::reject_recursive_types(T)]
pub struct ExHostVec<T>(soroban_sdk::Vec<T>);

/// Calls `clone` of `soroban_sdk::Env`, which makes a second handle to the same
/// host. Nothing is read through the handle but lists, so nothing is claimed.
#[verifier::external_body]
pub(crate) fn host_clone(env: &soroban_sdk::Env) -> soroban_sdk::Env {
    env.clone()
}

/// What a host list of 64-bit ids holds, position by position. A position whose
/// value is no 64-bit number counts as `None`.
pub uninterp spec fn host_ids(v: soroban_sdk::Vec<u64>) -> Seq<Option<u64>>;

/// Calls `soroban_sdk::Vec::new`, which makes an empty list.
#[verifier::external_body]
fn ids_new(env: &soroban_sdk::Env) -> (v: soroban_sdk::Vec<u64>)
    ensures
        host_ids(v) == Seq::<Option<u64>>::empty(),
{
    soroban_sdk::Vec::new(env)
}

/// Calls `soroban_sdk::Vec::len`, which counts the positions.
#[verifier::external_body]
fn ids_len(v: &soroban_sdk::Vec<u64>) -> (n: u32)
    ensures
        n == host_ids(*v).len(),
{
    v.len()
}

/// Calls `soroban_sdk::Vec::get`, which gives the value at a position, and
/// nothing where there is no such position. A position whose value is no
/// 64-bit number is left out: the call would panic there.
#[verifier::external_body]
fn ids_get(v: &soroban_sdk::Vec<u64>, i: u32) -> (x: Option<u64>)
    requires
        i < host_ids(*v).len() ==> host_ids(*v)[i as int] is Some,
    ensures
        x == (if i < host_ids(*v).len() { host_ids(*v)[i as int] } else { None }),
{
    v.get(i)
}

/// Calls `soroban_sdk::Vec::push_back`, which makes the handle stand for the
/// list with one value more at its end. A list that is already as long as the
/// host can count is left out.
#[verifier::external_body]
fn ids_push_back(v: &mut soroban_sdk::Vec<u64>, x: u64)
    requires
        host_ids(*old(v)).len() < u32::MAX,
    ensures
        host_ids(*final(v)) == host_ids(*old(v)).push(Some(x)),
{
    v.push_back(x)
}

/// Calls `clone` of `soroban_sdk::Vec`, which makes a second handle to the same
/// list.
#[verifier::external_body]
fn ids_clone(v: &soroban_sdk::Vec<u64>) -> (r: soroban_sdk::Vec<u64>)
    ensures
        host_ids(r) == host_ids(*v),
{
    v.clone()
}

/// Calls `soroban_sdk::Vec::contains`, which says whether some position holds
/// the value.
#[verifier::external_body]
fn ids_contains(v: &soroban_sdk::Vec<u64>, x: u64) -> (r: bool)
    ensures
        r == host_ids(*v).contains(Some(x)),
{
    v.contains(x)
}

/// A list of ids: of addresses or of escrows.
#[derive(Debug, PartialEq)]
pub struct Ids {
    items: soroban_sdk::Vec<u64>,
}

impl View for Ids {
    type V = Seq<u64>;

    closed spec fn view(&self) -> Seq<u64> {
        Seq::new(host_ids(self.items).len(), |i: int| host_ids(self.items)[i]->Some_0)
    }
}

impl Ids {
    /// Every position holds a 64-bit number.
    #[verifier::type_invariant]
    spec fn inv(self) -> bool {
        forall|i: int|
            0 <= i < host_ids(self.items).len() ==> (#[trigger] host_ids(self.items)[i]) is Some
    }

    /// An empty list.
    pub fn new(host: &soroban_sdk::Env) -> (r: Ids)
        ensures
            r@ == Seq::<u64>::empty(),
    {
        Ids { items: ids_new(host) }
    }

    /// How many positions the list has.
    pub fn len(&self) -> (n: u32)
        ensures
            n == self@.len(),
    {
        ids_len(&self.items)
    }

    /// What stands at a position, if there is one.
    pub fn get(&self, i: u32) -> (x: Option<u64>)
        ensures
            x == (if i < self@.len() { Some(self@[i as int]) } else { None }),
    {
        proof {
            use_type_invariant(self);
        }
        ids_get(&self.items, i)
    }

    /// Puts a value at the end.
    pub fn push_back(&mut self, x: u64)
        requires
            old(self)@.len() < u32::MAX,
        ensures
            final(self)@ == old(self)@.push(x),
    {
        proof {
            use_type_invariant(&*self);
        }
        let mut items = ids_clone(&self.items);
        ids_push_back(&mut items, x);
        self.items = items;
        assert(self@ =~= old(self)@.push(x));
    }

    /// Whether some position holds the value.
    pub fn contains(&self, x: u64) -> (r: bool)
        ensures
            r == self@.contains(x),
    {
        proof {
            use_type_invariant(self);
            let h = host_ids(self.items);
            if h.contains(Some(x)) {
                let i = choose|i: int| 0 <= i < h.len() && h[i] == Some(x);
                assert(self@[i] == x);
            }
            if self@.contains(x) {
                let i = choose|i: int| 0 <= i < self@.len() && self@[i] == x;
                assert(h[i] is Some);
                assert(h[i] == Some(x));
            }
        }
        ids_contains(&self.items, x)
    }
}

impl Record for Ids {
    fn dup(&self) -> (r: Self) {
        proof {
            use_type_invariant(self);
        }
        let r = Ids { items: ids_clone(&self.items) };
        assert(r@ =~= self@);
        r
    }
}

/// What a host list of 32-bit numbers holds, position by position. A position whose
/// value is no 32-bit number counts as `None`.
pub uninterp spec fn host_weights(v: soroban_sdk::Vec<u32>) -> Seq<Option<u32>>;

/// Calls `soroban_sdk::Vec::new`, which makes an empty list.
#[verifier::external_body]
fn weights_new(env: &soroban_sdk::Env) -> (v: soroban_sdk::Vec<u32>)
    ensures
        host_weights(v) == Seq::<Option<u32>>::empty(),
{
    soroban_sdk::Vec::new(env)
}

/// Calls `soroban_sdk::Vec::len`, which counts the positions.
#[verifier::external_body]
fn weights_len(v: &soroban_sdk::Vec<u32>) -> (n: u32)
    ensures
        n == host_weights(*v).len(),
{
    v.len()
}

/// Calls `soroban_sdk::Vec::get`, which gives the value at a position, and
/// nothing where there is no such position. A position whose value is no
/// 32-bit number is left out: the call would panic there.
#[verifier::external_body]
fn weights_get(v: &soroban_sdk::Vec<u32>, i: u32) -> (x: Option<u32>)
    requires
        i < host_weights(*v).len() ==> host_weights(*v)[i as int] is Some,
    ensures
        x == (if i < host_weights(*v).len() { host_weights(*v)[i as int] } else { None }),
{
    v.get(i)
}

/// Calls `soroban_sdk::Vec::push_back`, which makes the handle stand for the
/// list with one value more at its end. A list that is already as long as the
/// host can count is left out.
#[verifier::external_body]
fn weights_push_back(v: &mut soroban_sdk::Vec<u32>, x: u32)
    requires
        host_weights(*old(v)).len() < u32::MAX,
    ensures
        host_weights(*final(v)) == host_weights(*old(v)).push(Some(x)),
{
    v.push_back(x)
}

/// Calls `clone` of `soroban_sdk::Vec`, which makes a second handle to the same
/// list.
#[verifier::external_body]
fn weights_clone(v: &soroban_sdk::Vec<u32>) -> (r: soroban_sdk::Vec<u32>)
    ensures
        host_weights(r) == host_weights(*v),
{
    v.clone()
}

/// A list of 32-bit numbers: approval weights or milestone ids.
pub struct Weights {
    items: soroban_sdk::Vec<u32>,
}

impl View for Weights {
    type V = Seq<u32>;

    closed spec fn view(&self) -> Seq<u32> {
        Seq::new(host_weights(self.items).len(), |i: int| host_weights(self.items)[i]->Some_0)
    }
}

impl Weights {
    /// Every position holds a 32-bit number.
    #[verifier::type_invariant]
    spec fn inv(self) -> bool {
        forall|i: int|
            0 <= i < host_weights(self.items).len() ==> (#[trigger] host_weights(self.items)[i]) is Some
    }

    /// An empty list.
    pub fn new(host: &soroban_sdk::Env) -> (r: Weights)
        ensures
            r@ == Seq::<u32>::empty(),
    {
        Weights { items: weights_new(host) }
    }

    /// How many positions the list has.
    pub fn len(&self) -> (n: u32)
        ensures
            n == self@.len(),
    {
        weights_len(&self.items)
    }

    /// What stands at a position, if there is one.
    pub fn get(&self, i: u32) -> (x: Option<u32>)
        ensures
            x == (if i < self@.len() { Some(self@[i as int]) } else { None }),
    {
        proof {
            use_type_invariant(self);
        }
        weights_get(&self.items, i)
    }

    /// Puts a value at the end.
    pub fn push_back(&mut self, x: u32)
        requires
            old(self)@.len() < u32::MAX,
        ensures
            final(self)@ == old(self)@.push(x),
    {
        proof {
            use_type_invariant(&*self);
        }
        let mut items = weights_clone(&self.items);
        weights_push_back(&mut items, x);
        self.items = items;
        assert(self@ =~= old(self)@.push(x));
    }
}

impl Record for Weights {
    fn dup(&self) -> (r: Self) {
        proof {
            use_type_invariant(self);
        }
        let r = Weights { items: weights_clone(&self.items) };
        assert(r@ =~= self@);
        r
    }
}

/// What a host list of 128-bit amounts holds, position by position. A position whose
/// value is no 128-bit number counts as `None`.
pub uninterp spec fn host_amounts(v: soroban_sdk::Vec<i128>) -> Seq<Option<i128>>;

/// Calls `soroban_sdk::Vec::new`, which makes an empty list.
#[verifier::external_body]
fn amounts_new(env: &soroban_sdk::Env) -> (v: soroban_sdk::Vec<i128>)
    ensures
        host_amounts(v) == Seq::<Option<i128>>::empty(),
{
    soroban_sdk::Vec::new(env)
}

/// Calls `soroban_sdk::Vec::len`, which counts the positions.
#[verifier::external_body]
fn amounts_len(v: &soroban_sdk::Vec<i128>) -> (n: u32)
    ensures
        n == host_amounts(*v).len(),
{
    v.len()
}

/// Calls `soroban_sdk::Vec::get`, which gives the value at a position, and
/// nothing where there is no such position. A position whose value is no
/// 128-bit number is left out: the call would panic there.
#[verifier::external_body]
fn amounts_get(v: &soroban_sdk::Vec<i128>, i: u32) -> (x: Option<i128>)
    requires
        i < host_amounts(*v).len() ==> host_amounts(*v)[i as int] is Some,
    ensures
        x == (if i < host_amounts(*v).len() { host_amounts(*v)[i as int] } else { None }),
{
    v.get(i)
}

/// Calls `soroban_sdk::Vec::push_back`, which makes the handle stand for the
/// list with one value more at its end. A list that is already as long as the
/// host can count is left out.
#[verifier::external_body]
fn amounts_push_back(v: &mut soroban_sdk::Vec<i128>, x: i128)
    requires
        host_amounts(*old(v)).len() < u32::MAX,
    ensures
        host_amounts(*final(v)) == host_amounts(*old(v)).push(Some(x)),
{
    v.push_back(x)
}

/// Calls `clone` of `soroban_sdk::Vec`, which makes a second handle to the same
/// list.
#[verifier::external_body]
fn amounts_clone(v: &soroban_sdk::Vec<i128>) -> (r: soroban_sdk::Vec<i128>)
    ensures
        host_amounts(r) == host_amounts(*v),
{
    v.clone()
}

/// A list of token amounts.
pub struct Amounts {
    items: soroban_sdk::Vec<i128>,
}

impl View for Amounts {
    type V = Seq<i128>;

    closed spec fn view(&self) -> Seq<i128> {
        Seq::new(host_amounts(self.items).len(), |i: int| host_amounts(self.items)[i]->Some_0)
    }
}

impl Amounts {
    /// Every position holds a 128-bit number.
    #[verifier::type_invariant]
    spec fn inv(self) -> bool {
        forall|i: int|
            0 <= i < host_amounts(self.items).len() ==> (#[trigger] host_amounts(self.items)[i]) is Some
    }

    /// An empty list.
    pub fn new(host: &soroban_sdk::Env) -> (r: Amounts)
        ensures
            r@ == Seq::<i128>::empty(),
    {
        Amounts { items: amounts_new(host) }
    }

    /// How many positions the list has.
    pub fn len(&self) -> (n: u32)
        ensures
            n == self@.len(),
    {
        amounts_len(&self.items)
    }

    /// What stands at a position, if there is one.
    pub fn get(&self, i: u32) -> (x: Option<i128>)
        ensures
            x == (if i < self@.len() { Some(self@[i as int]) } else { None }),
    {
        proof {
            use_type_invariant(self);
        }
        amounts_get(&self.items, i)
    }

    /// Puts a value at the end.
    pub fn push_back(&mut self, x: i128)
        requires
            old(self)@.len() < u32::MAX,
        ensures
            final(self)@ == old(self)@.push(x),
    {
        proof {
            use_type_invariant(&*self);
        }
        let mut items = amounts_clone(&self.items);
        amounts_push_back(&mut items, x);
        self.items = items;
        assert(self@ =~= old(self)@.push(x));
    }
}

} // verus!
