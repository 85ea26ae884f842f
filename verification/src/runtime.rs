//! The state that all endpoints of a host share: the hosted service, the
//! session factory, and the cache of the instances that serve the sessions.

use crate::contract::ServiceContract;
use crate::directory::{
    distinct_keys, inserted, lemma_inserted, lemma_position, lemma_single_key, lookup, Directory,
};
use crate::session::{share, DefaultSessionFactory, HostedService, SessionFactory, SessionId};
use std::borrow::Cow;
use std::rc::Rc;
use vstd::prelude::*;

verus! {

/// The id that is asked for, as text.
pub open spec fn asked(id: Option<&str>) -> Option<Seq<char>> {
    match id {
        Some(i) => Some(i@),
        None => None,
    }
}

/// The state that the endpoints of one host share.
pub struct HostRuntime<F: SessionFactory, H: HostedService<SessionInfo = F::SessionInfo>> {
    hosted: H,
    session_factory: F,
    sessions: Directory<Rc<H::ServiceInstance>>,
}

impl<F: SessionFactory, H: HostedService<SessionInfo = F::SessionInfo>> HostRuntime<F, H> {
    /// The hosted service.
    pub closed spec fn hosted(&self) -> H {
        self.hosted
    }

    /// The session factory.
    pub closed spec fn factory(&self) -> F {
        self.session_factory
    }

    /// The session cache: each cached session's id with the instance that
    /// serves it.
    pub closed spec fn cache(&self) -> Seq<(Seq<char>, Rc<H::ServiceInstance>)> {
        self.sessions@
    }

    /// The instance that the cache holds for `id`.
    pub open spec fn cached(&self, id: Seq<char>) -> Option<Rc<H::ServiceInstance>> {
        lookup(self.cache(), id)
    }

    /// Whether `after` is the runtime that `before` becomes when it is asked
    /// for the session `id` and gives the session `given` with `instance`.
    ///
    /// The hosted service and the factory stay. A session that is asked for
    /// by an id is given under that id. Where the cache holds it, its cached
    /// instance is given and the cache stays as it is. Otherwise the instance
    /// is one that the hosted service provides for the state that the
    /// factory finds for the id, or mints with the id where none is asked
    /// for, and it is put into the cache under the id. The ids of the cache
    /// stay distinct, and no other session's instance changes.
    pub open spec fn session_given(
        before: Self,
        after: Self,
        id: Option<Seq<char>>,
        given: Seq<char>,
        instance: Rc<H::ServiceInstance>,
    ) -> bool {
        &&& after.hosted() == before.hosted()
        &&& after.factory() == before.factory()
        &&& distinct_keys(after.cache())
        &&& id matches Some(i) ==> given == i
        &&& Self::hands_out(before.hosted(), *instance)
        &&& id is None ==> exists|info: Rc<F::SessionInfo>|
            #[trigger] before.factory().mints(given, info) && before.hosted().provides(
                info,
                *instance,
            )
        &&& id is Some && before.cached(given) is None ==> exists|info: Rc<F::SessionInfo>|
            #[trigger] before.factory().finds(given, info) && before.hosted().provides(
                info,
                *instance,
            )
        &&& after.cached(given) == Some(instance)
        &&& forall|k: Seq<char>| k != given ==> #[trigger] after.cached(k) == before.cached(k)
        &&& if id is Some && before.cached(given) is Some {
            before.cached(given) == Some(instance) && after.cache() == before.cache()
        } else {
            after.cache() == inserted(before.cache(), given, instance)
        }
    }

    /// Whether the hosted service hands `instance` out for some session.
    pub open spec fn hands_out(hosted: H, instance: H::ServiceInstance) -> bool {
        exists|info: Rc<F::SessionInfo>| #[trigger] hosted.provides(info, instance)
    }

    #[verifier::type_invariant]
    spec fn well_formed(&self) -> bool {
        forall|i: int|
            0 <= i < self.sessions@.len() ==> Self::hands_out(
                self.hosted,
                *(#[trigger] self.sessions@[i]).1,
            )
    }

    /// A runtime with no session yet.
    pub fn new(hosted: H, session_factory: F) -> (r: Self)
        ensures
            r.hosted() == hosted,
            r.factory() == session_factory,
            r.cache() == Seq::<(Seq<char>, Rc<H::ServiceInstance>)>::empty(),
    {
        HostRuntime { hosted, session_factory, sessions: Directory::new() }
    }

    /// The hosted service and the session factory, given back. The cache is
    /// dropped.
    pub fn into_parts(self) -> (r: (H, F))
        ensures
            r.0 == self.hosted(),
            r.1 == self.factory(),
    {
        (self.hosted, self.session_factory)
    }

    /// The contract that the hosted service implements.
    pub fn contract(&self) -> (r: &ServiceContract)
        ensures
            self.hosted().implements(*r),
    {
        self.hosted.contract()
    }

    /// The number of sessions in the cache. No two of them share an id, and
    /// each is served by an instance that the hosted service hands out.
    pub fn session_count(&self) -> (r: usize)
        ensures
            r == self.cache().len(),
            distinct_keys(self.cache()),
            forall|i: int|
                0 <= i < self.cache().len() ==> Self::hands_out(
                    self.hosted(),
                    *(#[trigger] self.cache()[i]).1,
                ),
    {
        proof {
            use_type_invariant(self);
        }
        self.sessions.len()
    }

    /// The session `id` with the instance that serves it. With `Some(id)` the
    /// cached instance is handed out where there is one, and the cache stays
    /// as it is; where there is none, the session's state comes from the
    /// factory, the instance from the hosted service, and the cache takes it
    /// in. With `None` the factory mints a new session, the hosted service
    /// gives its instance, and the cache holds it under the new id from then
    /// on. No other session of the cache is touched.
    pub fn get_session<'b>(&mut self, id: Option<&'b str>) -> (r: (
        Cow<'b, str>,
        Rc<H::ServiceInstance>,
    ))
        ensures
            Self::session_given(*old(self), *final(self), asked(id), r.0@, r.1),
    {
        proof {
            use_type_invariant(&*self);
            let before = self.sessions@;
            assert forall|key: Seq<char>, value: Rc<H::ServiceInstance>, k: Seq<char>|
                k != key implies #[trigger] lookup(inserted(before, key, value), k) == lookup(
                before,
                k,
            ) by {
                lemma_inserted(before, key, value, k);
            }
        }
        match id {
            Some(id) => {
                match self.sessions.get(id) {
                    Some(cached) => {
                        proof {
                            lemma_position(self.sessions@, id@, 0);
                        }
                        (Cow::Borrowed(id), share(cached))
                    },
                    None => {
                        let info = self.session_factory.get_session(id);
                        let ghost state = info;
                        let instance = Rc::new(self.hosted.get_session(info));
                        assert(self.session_factory.finds(id@, state) && self.hosted.provides(
                            state,
                            *instance,
                        ));
                        self.store(id, share(&instance));
                        (Cow::Borrowed(id), instance)
                    },
                }
            },
            None => {
                let (id, info) = self.session_factory.create_session();
                let ghost state = info;
                let instance = Rc::new(self.hosted.get_session(info));
                assert(self.session_factory.mints(id@, state) && self.hosted.provides(
                    state,
                    *instance,
                ));
                self.store(id.as_str(), share(&instance));
                let ghost given = id@;
                let r: (Cow<'b, str>, Rc<H::ServiceInstance>) = (Cow::Owned(id), instance);
                assert(r.0@ == given);
                assert(old(self).factory().mints(r.0@, state) && old(self).hosted().provides(
                    state,
                    *r.1,
                ));
                r
            },
        }
    }

    /// Puts `instance` into the cache under `id`.
    fn store(&mut self, id: &str, instance: Rc<H::ServiceInstance>)
        requires
            Self::hands_out(old(self).hosted, *instance),
        ensures
            final(self).hosted == old(self).hosted,
            final(self).session_factory == old(self).session_factory,
            distinct_keys(final(self).cache()),
            final(self).cache() == inserted(old(self).cache(), id@, instance),
            final(self).cached(id@) == Some(instance),
            forall|k: Seq<char>|
                k != id@ ==> #[trigger] final(self).cached(k) == old(self).cached(k),
    {
        proof {
            use_type_invariant(&*self);
        }
        let ghost before = self.sessions;
        let mut sessions: Directory<Rc<H::ServiceInstance>> = Directory::new();
        std::mem::swap(&mut self.sessions, &mut sessions);
        sessions.insert(id, instance);
        std::mem::swap(&mut self.sessions, &mut sessions);
        assert forall|k: Seq<char>| k != id@ implies #[trigger] lookup(self.sessions@, k)
            == lookup(before@, k) by {
            assert(self.sessions.value(k) == before.value(k));
        }
    }
}

/// Sessions are isolated from one another: when a session is put into the
/// cache, or put there anew, every other session keeps the instance that
/// serves it.
pub proof fn lemma_sessions_isolated<V>(
    cache: Seq<(Seq<char>, V)>,
    id: Seq<char>,
    instance: V,
    other: Seq<char>,
)
    requires
        other != id,
    ensures
        lookup(inserted(cache, id, instance), other) == lookup(cache, other),
        lookup(inserted(cache, id, instance), id) == Some(instance),
{
    lemma_inserted(cache, id, instance, other);
}

/// A host that mints every session under one id has at most one session in
/// its cache. So has every host with the default session factory, which
/// mints the empty id alone.
pub proof fn lemma_one_session<V>(cache: Seq<(Seq<char>, V)>)
    requires
        distinct_keys(cache),
        forall|i: int|
            0 <= i < cache.len() ==> exists|info: Rc<SessionId>|
                DefaultSessionFactory.mints(#[trigger] cache[i].0, info),
    ensures
        cache.len() <= 1,
{
    lemma_single_key(cache, Seq::<char>::empty());
}

} // verus!
