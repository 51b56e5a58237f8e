//! Cache keys and the keyers that derive them from requests.

use crate::message::{Request, RequestView};
use vstd::prelude::*;

verus! {

/// A cache key: the request attributes that select one cache slot, in
/// order. Two keys are the same slot when they hold the same attributes.
pub type CacheKey = Vec<Vec<u8>>;

/// The key that [`BasicKeyer`] derives.
pub type BasicKey = CacheKey;

/// The mathematical form of a cache key.
pub type KeyView = Seq<Seq<u8>>;

/// The mathematical form of a key held in a vector.
pub open spec fn key_view(key: Seq<Vec<u8>>) -> KeyView {
    Seq::new(key.len(), |i: int| key[i]@)
}

/// Derives the cache key of a request.
///
/// A keyer is a function of the request alone: `key_of` says which key each
/// request has, and `get_key` computes it.
pub trait Keyer {
    /// The key of a request.
    spec fn key_of(&self, request: RequestView) -> KeyView;

    /// Computes the key of a request.
    fn get_key(&self, request: &Request) -> (key: CacheKey)
        ensures
            key_view(key@) == self.key_of(request@),
    ;
}

/// The default keyer: requests are told apart by method and URI.
pub struct BasicKeyer;

/// The key of a request under [`BasicKeyer`]: its method, then its URI.
pub open spec fn basic_key(request: RequestView) -> KeyView {
    seq![request.method, request.uri]
}

impl Keyer for BasicKeyer {
    open spec fn key_of(&self, request: RequestView) -> KeyView {
        basic_key(request)
    }

    fn get_key(&self, request: &Request) -> (key: CacheKey) {
        let mut key: CacheKey = Vec::new();
        key.push(request.method.clone());
        key.push(request.uri.clone());
        assert(key_view(key@) =~= basic_key(request@));
        key
    }
}

/// The function can be called on every request.
pub open spec fn accepts_all<F: Fn(&Request) -> CacheKey>(f: F) -> bool {
    forall|request: Request| call_requires(f, (&request,))
}

/// The function keys by content: on requests that hold the same values it
/// gives keys that hold the same values.
pub open spec fn keys_by_content<F: Fn(&Request) -> CacheKey>(f: F) -> bool {
    forall|a: Request, b: Request, key_a: CacheKey, key_b: CacheKey|
        a@ == b@ && #[trigger] call_ensures(f, (&a,), key_a) && #[trigger] call_ensures(
            f,
            (&b,),
            key_b,
        ) ==> key_view(key_a@) == key_view(key_b@)
}

/// The key that a function gives a request: the key of some call of the
/// function on a request that holds these values. For a function that keys
/// by content, every such call gives this key.
pub open spec fn function_key<F: Fn(&Request) -> CacheKey>(f: F, request: RequestView) -> KeyView {
    let (r, k) = choose|r: Request, k: CacheKey|
        r@ == request && #[trigger] call_ensures(f, (&r,), k);
    key_view(k@)
}

/// A plain function, or a closure that captures nothing mutable, used as a
/// keyer.
pub struct FnKeyer<F: Fn(&Request) -> CacheKey> {
    f: F,
}

impl<F: Fn(&Request) -> CacheKey> FnKeyer<F> {
    #[verifier::type_invariant]
    spec fn sound(&self) -> bool {
        accepts_all(self.f) && keys_by_content(self.f)
    }

    /// The function that derives the keys.
    pub closed spec fn function(&self) -> F {
        self.f
    }

    /// Makes a keyer of a function. The function has to accept every
    /// request and to key by content.
    pub fn new(f: F) -> (keyer: Self)
        requires
            accepts_all(f),
            keys_by_content(f),
        ensures
            keyer.function() == f,
    {
        FnKeyer { f }
    }
}

impl<F: Fn(&Request) -> CacheKey> Keyer for FnKeyer<F> {
    open spec fn key_of(&self, request: RequestView) -> KeyView {
        function_key(self.function(), request)
    }

    fn get_key(&self, request: &Request) -> (key: CacheKey)
        ensures
            call_ensures(self.function(), (request,), key),
    {
        proof {
            use_type_invariant(self);
        }
        let key = (self.f)(request);
        proof {
            assert(call_ensures(self.f, (request,), key));
            let (r, k) = choose|r: Request, k: CacheKey|
                r@ == request@ && #[trigger] call_ensures(self.f, (&r,), k);
            assert(key_view(k@) == key_view(key@));
        }
        key
    }
}

/// Copies a key.
pub fn copy_key(key: &CacheKey) -> (copy: CacheKey)
    ensures
        key_view(copy@) == key_view(key@),
{
    let mut copy: CacheKey = Vec::new();
    let mut i: usize = 0;
    while i < key.len()
        invariant
            i <= key.len(),
            copy.len() == i,
            forall|j: int| 0 <= j < i ==> copy@[j]@ == key@[j]@,
        decreases key.len() - i,
    {
        copy.push(key[i].clone());
        i = i + 1;
    }
    assert(key_view(copy@) =~= key_view(key@));
    copy
}

} // verus!
