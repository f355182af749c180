//! The environments that this process has opened, by path: an environment
//! is opened once per path and shared after that; an environment that is
//! being closed cannot be opened again until it is closed.
use vstd::prelude::*;
use crate::env::Env;
use crate::error::Error;

verus! {

/// Where the environment of a path stands.
pub enum EnvState<E> {
    /// No environment of that path is open.
    Absent,
    /// The environment is open and can be shared.
    Open(E),
    /// The environment is being closed.
    Closing,
}

/// What the registry knows of a path: the environment, unless it is being
/// closed, and the signal raised once it is closed.
pub type RegistryMap<E, S> = Map<Seq<u8>, (Option<E>, S)>;

/// The state of a path in a registry.
pub open spec fn env_state<E, S>(m: RegistryMap<E, S>, path: Seq<u8>) -> EnvState<E> {
    if !m.dom().contains(path) {
        EnvState::Absent
    } else {
        match m[path].0 {
            Some(e) => EnvState::Open(e),
            None => EnvState::Closing,
        }
    }
}

struct EnvEntry<E, S> {
    path: Vec<u8>,
    env: Option<E>,
    signal: S,
}

/// The opened environments, each with the signal that its closing raises.
pub struct EnvRegistry<E, S> {
    entries: Vec<EnvEntry<E, S>>,
}

/// Whether two byte strings are equal.
fn bytes_equal(a: &[u8], b: &[u8]) -> (r: bool)
    ensures
        r == (a@ == b@),
{
    if a.len() != b.len() {
        return false;
    }
    let mut i: usize = 0;
    while i < a.len()
        invariant
            a@.len() == b@.len(),
            i <= a@.len(),
            forall|j: int| 0 <= j < i ==> a@[j] == b@[j],
        decreases a@.len() - i,
    {
        if a[i] != b[i] {
            return false;
        }
        i = i + 1;
    }
    proof {
        assert(a@ =~= b@);
    }
    true
}

impl<E, S> EnvRegistry<E, S> {
    spec fn has_path(&self, path: Seq<u8>) -> bool {
        exists|i: int| 0 <= i < self.entries@.len() && #[trigger] self.entries@[i].path@ == path
    }

    spec fn index_of(&self, path: Seq<u8>) -> int {
        choose|i: int| 0 <= i < self.entries@.len() && #[trigger] self.entries@[i].path@ == path
    }

    /// No path is registered twice.
    pub closed spec fn wf(&self) -> bool {
        forall|i: int, j: int|
            0 <= i < self.entries@.len() && 0 <= j < self.entries@.len() && i != j
                ==> #[trigger] self.entries@[i].path@ != #[trigger] self.entries@[j].path@
    }

    /// Each registered path with its environment, if it is not being closed,
    /// and its closing signal.
    pub closed spec fn view(&self) -> RegistryMap<E, S> {
        Map::new(
            |p: Seq<u8>| self.has_path(p),
            |p: Seq<u8>|
                {
                    let i = self.index_of(p);
                    (self.entries@[i].env, self.entries@[i].signal)
                },
        )
    }

    proof fn lemma_entry(&self, i: int)
        requires
            self.wf(),
            0 <= i < self.entries@.len(),
        ensures
            self.view().dom().contains(self.entries@[i].path@),
            self.view()[self.entries@[i].path@] == (self.entries@[i].env, self.entries@[i].signal),
    {
        let p = self.entries@[i].path@;
        assert(self.has_path(p));
        let j = self.index_of(p);
        assert(self.entries@[j].path@ == p);
    }

    /// An empty registry.
    pub fn new() -> (r: Self)
        ensures
            r.wf(),
            r.view() == RegistryMap::<E, S>::empty(),
    {
        let r = EnvRegistry { entries: Vec::new() };
        assert(r.view() =~= RegistryMap::<E, S>::empty());
        r
    }

    fn find(&self, path: &[u8]) -> (r: Option<usize>)
        requires
            self.wf(),
        ensures
            match r {
                Some(i) => i < self.entries@.len() && self.entries@[i as int].path@ == path@,
                None => !self.view().dom().contains(path@),
            },
    {
        let mut i: usize = 0;
        while i < self.entries.len()
            invariant
                i <= self.entries@.len(),
                forall|j: int| 0 <= j < i ==> self.entries@[j].path@ != path@,
            decreases self.entries@.len() - i,
        {
            if bytes_equal(self.entries[i].path.as_slice(), path) {
                return Some(i);
            }
            i = i + 1;
        }
        None
    }

    /// Where the environment of `path` stands when it is to be opened: the
    /// shared environment if it is open, `DatabaseClosing` if it is being
    /// closed, and nothing if it must be created.
    pub fn lookup_for_open(&self, path: &[u8]) -> (r: Result<Option<&E>, Error>)
        requires
            self.wf(),
        ensures
            match env_state(self.view(), path@) {
                EnvState::Absent => r matches Ok(None),
                EnvState::Open(e) => r matches Ok(Some(x)) && *x == e,
                EnvState::Closing => r matches Err(Error::DatabaseClosing),
            },
    {
        match self.find(path) {
            None => Ok(None),
            Some(i) => {
                proof {
                    self.lemma_entry(i as int);
                }
                match &self.entries[i].env {
                    Some(e) => Ok(Some(e)),
                    None => Err(Error::DatabaseClosing),
                }
            },
        }
    }

    /// The signal that the closing of the environment of `path` raises, if
    /// that path is registered.
    pub fn closing_signal(&self, path: &[u8]) -> (r: Option<&S>)
        requires
            self.wf(),
        ensures
            match r {
                Some(s) => self.view().dom().contains(path@) && *s == self.view()[path@].1,
                None => !self.view().dom().contains(path@),
            },
    {
        match self.find(path) {
            None => None,
            Some(i) => {
                proof {
                    self.lemma_entry(i as int);
                }
                Some(&self.entries[i].signal)
            },
        }
    }

    /// Registers a newly opened environment under a path that has none.
    pub fn register(&mut self, path: Vec<u8>, env: E, signal: S)
        requires
            old(self).wf(),
            !old(self).view().dom().contains(path@),
        ensures
            final(self).wf(),
            final(self).view() == old(self).view().insert(path@, (Some(env), signal)),
    {
        let ghost p = path@;
        let ghost old_self = *self;
        self.entries.push(EnvEntry { path, env: Some(env), signal });
        proof {
            let n = old_self.entries@.len();
            assert forall|i: int, j: int|
                0 <= i < self.entries@.len() && 0 <= j < self.entries@.len() && i != j
                implies #[trigger] self.entries@[i].path@ != #[trigger] self.entries@[j].path@ by {
                if i == n {
                    assert(old_self.entries@[j].path@ != p) by {
                        if old_self.entries@[j].path@ == p {
                            assert(old_self.has_path(p));
                        }
                    }
                } else if j == n {
                    assert(old_self.entries@[i].path@ != p) by {
                        if old_self.entries@[i].path@ == p {
                            assert(old_self.has_path(p));
                        }
                    }
                } else {
                    assert(self.entries@[i] == old_self.entries@[i]);
                    assert(self.entries@[j] == old_self.entries@[j]);
                }
            }
            let target = old_self.view().insert(p, (Some(env), signal));
            assert forall|q: Seq<u8>| #[trigger] self.view().dom().contains(q) <==> target.dom().contains(q) by {
                if self.has_path(q) {
                    let i = self.index_of(q);
                    if i < n {
                        assert(old_self.entries@[i].path@ == q);
                        assert(old_self.has_path(q));
                    }
                }
                if old_self.has_path(q) {
                    let i = old_self.index_of(q);
                    assert(self.entries@[i].path@ == q);
                }
                if q == p {
                    assert(self.entries@[n as int].path@ == q);
                }
            }
            assert forall|q: Seq<u8>| #[trigger] self.view().dom().contains(q) implies self.view()[q] == target[q] by {
                let i = self.index_of(q);
                self.lemma_entry(i);
                if i < n {
                    old_self.lemma_entry(i);
                    assert(self.entries@[i] == old_self.entries@[i]);
                }
            }
            assert(self.view() =~= target);
        }
    }
    /// Marks the environment of `path` as being closed and hands it out; the
    /// path keeps its closing signal. Nothing changes for a path that is not
    /// registered.
    pub fn take_env(&mut self, path: &[u8]) -> (r: Option<Option<E>>)
        requires
            old(self).wf(),
        ensures
            final(self).wf(),
            match r {
                Some(env) => old(self).view().dom().contains(path@)
                    && env == old(self).view()[path@].0
                    && final(self).view() == old(self).view().insert(path@, (None, old(self).view()[path@].1)),
                None => !old(self).view().dom().contains(path@)
                    && final(self).view() == old(self).view(),
            },
    {
        let ghost old_self = *self;
        match self.find(path) {
            None => None,
            Some(i) => {
                proof {
                    old_self.lemma_entry(i as int);
                }
                let entry = self.entries.remove(i);
                let EnvEntry { path: key, env, signal } = entry;
                self.entries.insert(i, EnvEntry { path: key, env: None, signal });
                proof {
                    let p = path@;
                    assert(self.entries@ == old_self.entries@.update(i as int, self.entries@[i as int]));
                    assert forall|a: int, b: int|
                        0 <= a < self.entries@.len() && 0 <= b < self.entries@.len() && a != b
                        implies #[trigger] self.entries@[a].path@ != #[trigger] self.entries@[b].path@ by {
                        assert(self.entries@[a].path@ == old_self.entries@[a].path@);
                        assert(self.entries@[b].path@ == old_self.entries@[b].path@);
                    }
                    let target = old_self.view().insert(p, (None, old_self.view()[p].1));
                    assert forall|q: Seq<u8>| #[trigger] self.view().dom().contains(q) <==> target.dom().contains(q) by {
                        if self.has_path(q) {
                            let k = self.index_of(q);
                            assert(old_self.entries@[k].path@ == q);
                            assert(old_self.has_path(q));
                        }
                        if old_self.has_path(q) {
                            let k = old_self.index_of(q);
                            assert(self.entries@[k].path@ == q);
                        }
                    }
                    assert forall|q: Seq<u8>| #[trigger] self.view().dom().contains(q) implies self.view()[q] == target[q] by {
                        let k = self.index_of(q);
                        self.lemma_entry(k);
                        old_self.lemma_entry(k);
                    }
                    assert(self.view() =~= target);
                }
                Some(env)
            },
        }
    }

    /// Removes `path` with its environment, if any, and its closing signal.
    pub fn remove(&mut self, path: &[u8]) -> (r: Option<(Option<E>, S)>)
        requires
            old(self).wf(),
        ensures
            final(self).wf(),
            final(self).view() == old(self).view().remove(path@),
            match r {
                Some(entry) => old(self).view().dom().contains(path@) && entry == old(self).view()[path@],
                None => !old(self).view().dom().contains(path@),
            },
    {
        let ghost old_self = *self;
        match self.find(path) {
            None => {
                proof {
                    assert(self.view() =~= old_self.view().remove(path@));
                }
                None
            },
            Some(i) => {
                proof {
                    old_self.lemma_entry(i as int);
                }
                let entry = self.entries.remove(i);
                let EnvEntry { path: key, env, signal } = entry;
                proof {
                    let p = path@;
                    let n = old_self.entries@.len();
                    assert(self.entries@ == old_self.entries@.remove(i as int));
                    assert forall|a: int| 0 <= a < self.entries@.len() implies #[trigger] self.entries@[a]
                        == old_self.entries@[if a < i { a } else { a + 1 }] by {}
                    assert forall|a: int, b: int|
                        0 <= a < self.entries@.len() && 0 <= b < self.entries@.len() && a != b
                        implies #[trigger] self.entries@[a].path@ != #[trigger] self.entries@[b].path@ by {
                        let a2 = if a < i { a } else { a + 1 };
                        let b2 = if b < i { b } else { b + 1 };
                        assert(self.entries@[a] == old_self.entries@[a2]);
                        assert(self.entries@[b] == old_self.entries@[b2]);
                    }
                    let target = old_self.view().remove(p);
                    assert forall|q: Seq<u8>| #[trigger] self.view().dom().contains(q) <==> target.dom().contains(q) by {
                        if self.has_path(q) {
                            let k = self.index_of(q);
                            let k2 = if k < i { k } else { k + 1 };
                            assert(self.entries@[k] == old_self.entries@[k2]);
                            assert(old_self.has_path(q));
                            assert(k2 != i);
                        }
                        if old_self.has_path(q) && q != p {
                            let k = old_self.index_of(q);
                            assert(k != i);
                            let k1 = if k < i { k } else { k - 1 };
                            assert(self.entries@[k1] == old_self.entries@[k]);
                            assert(self.has_path(q));
                        }
                    }
                    assert forall|q: Seq<u8>| #[trigger] self.view().dom().contains(q) implies self.view()[q] == target[q] by {
                        let k = self.index_of(q);
                        self.lemma_entry(k);
                        let k2 = if k < i { k } else { k + 1 };
                        assert(self.entries@[k] == old_self.entries@[k2]);
                        old_self.lemma_entry(k2);
                    }
                    assert(self.view() =~= target);
                }
                Some((env, signal))
            },
        }
    }
}

/// Two handles of the same environment: the same path and the same engine
/// handle.
pub open spec fn same_env<H>(a: Env<H>, b: Env<H>) -> bool {
    a.path_buf() == b.path_buf() && a.handle_spec() == b.handle_spec()
}

impl<H, S> EnvRegistry<Env<H>, S> {
    /// Opens the environment of `path`: shares the registered environment
    /// if it is open; refuses with `DatabaseClosing` if it is being closed;
    /// otherwise creates it with `create` and registers it, only if the
    /// creation succeeded, with the closing signal that came with it. The
    /// second part of the result hands `create` back unused where the path
    /// was registered: no environment is created then.
    pub fn open_or_create<F>(&mut self, path: Vec<u8>, create: F) -> (r: (
        Result<Env<H>, Error>,
        Option<F>,
    )) where
        F: FnOnce() -> Result<(Env<H>, S), Error>,
        requires
            old(self).wf(),
            call_requires(create, ()),
        ensures
            final(self).wf(),
            old(self).view().dom().contains(path@) ==> r.1 == Some(create),
            !old(self).view().dom().contains(path@) ==> r.1 is None,
            match env_state(old(self).view(), path@) {
                EnvState::Open(e) => r.0 matches Ok(x) && same_env(x, e) && final(self).view()
                    == old(self).view(),
                EnvState::Closing => r.0 matches Err(Error::DatabaseClosing) && final(self).view()
                    == old(self).view(),
                EnvState::Absent => exists|c: Result<(Env<H>, S), Error>|
                    #[trigger] call_ensures(create, (), c) && match c {
                        Ok((env, signal)) => r.0 matches Ok(x) && same_env(x, env)
                            && final(self).view() == old(self).view().insert(path@, (Some(env), signal)),
                        Err(e) => r.0 == Err::<Env<H>, Error>(e)
                            && final(self).view() == old(self).view(),
                    },
            },
    {
        match self.lookup_for_open(path.as_slice()) {
            Ok(Some(e)) => {
                return (Ok(e.clone()), Some(create));
            },
            Err(e) => {
                return (Err(e), Some(create));
            },
            Ok(None) => {},
        }
        let created = create();
        let ghost outcome = created;
        match created {
            Ok((env, signal)) => {
                let shared = env.clone();
                self.register(path, env, signal);
                assert(call_ensures(create, (), outcome));
                (Ok(shared), None)
            },
            Err(e) => {
                assert(call_ensures(create, (), outcome));
                (Err(e), None)
            },
        }
    }
}

/// The life of a path in the registry: once its environment is registered
/// it is open and shared; once it is taken for closing, opening the path
/// fails while its closing signal stays; once it is removed, the path can be
/// opened afresh. None of these steps touches another path. With the
/// contract of `open_or_create`, the first clause says that opening a path
/// again after it was opened hands out the same environment, leaves the
/// registry as it was, and hands the creation closure back unused.
pub proof fn lemma_registry_lifecycle<E, S>(
    m: RegistryMap<E, S>,
    path: Seq<u8>,
    other: Seq<u8>,
    env: E,
    signal: S,
)
    requires
        path != other,
    ensures
        env_state(m.insert(path, (Some(env), signal)), path) == EnvState::Open(env),
        m.dom().contains(path) ==> env_state(m.insert(path, (None, m[path].1)), path)
            == EnvState::<E>::Closing,
        m.dom().contains(path) ==> m.insert(path, (None, m[path].1))[path].1 == m[path].1,
        env_state(m.remove(path), path) == EnvState::<E>::Absent,
        env_state(m.insert(path, (Some(env), signal)), other) == env_state(m, other),
        m.dom().contains(path) ==> env_state(m.insert(path, (None, m[path].1)), other)
            == env_state(m, other),
        env_state(m.remove(path), other) == env_state(m, other),
{
}

/// A path leaves the registry only through `remove`. Registering a newly
/// opened environment under any path, which is all that `open_or_create` does
/// to the registry, and taking any path's environment for closing keep every
/// registered path registered; a path taken for closing keeps its closing
/// signal, so that asking for the signal or taking the path again still finds
/// it.
pub proof fn lemma_only_remove_unregisters<E, S>(
    m: RegistryMap<E, S>,
    registered: Seq<u8>,
    path: Seq<u8>,
    env: E,
    signal: S,
)
    requires
        m.dom().contains(registered),
    ensures
        m.insert(path, (Some(env), signal)).dom().contains(registered),
        m.dom().contains(path) ==> m.insert(path, (None, m[path].1)).dom().contains(registered),
        m.dom().contains(path) ==> m.insert(path, (None, m[path].1))[registered].1
            == m[registered].1,
        !m.remove(registered).dom().contains(registered),
{
}

} // verus!
