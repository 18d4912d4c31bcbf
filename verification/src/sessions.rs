//! Bookkeeping of the sessions tree: whether the sessions root directory
//! exists and, for each session directory under it, whether it is empty.
//! The host mirrors here every file-system action it performs for the
//! privacy engine, and the clearing laws are stated and proved over this
//! state.

use vstd::prelude::*;

verus! {

use crate::strutil;
use vstd::string::StringExecFns;

/// The map behind an association list of (directory name, is-empty) records;
/// a later record for the same name supersedes an earlier one.
pub open spec fn map_of(entries: Seq<(String, bool)>) -> Map<Seq<char>, bool>
    decreases entries.len(),
{
    if entries.len() == 0 {
        Map::empty()
    } else {
        map_of(entries.drop_last()).insert(entries.last().0@, entries.last().1)
    }
}

/// No two records of the list carry the same name.
pub open spec fn unique_keys(entries: Seq<(String, bool)>) -> bool {
    forall|i: int, j: int| 0 <= i < j < entries.len() ==> (#[trigger] entries[i]).0@ != (
    #[trigger] entries[j]).0@
}

/// A name is in the map exactly when some record of the list carries it.
proof fn lemma_map_of_domain(entries: Seq<(String, bool)>, k: Seq<char>)
    ensures
        map_of(entries).contains_key(k) <==> exists|i: int|
            0 <= i < entries.len() && (#[trigger] entries[i]).0@ == k,
    decreases entries.len(),
{
    if entries.len() > 0 {
        let pre = entries.drop_last();
        let last = entries.len() - 1;
        lemma_map_of_domain(pre, k);
        if entries.last().0@ == k {
            assert(entries[last].0@ == k);
        } else {
            if exists|i: int| 0 <= i < pre.len() && (#[trigger] pre[i]).0@ == k {
                let i = choose|i: int| 0 <= i < pre.len() && (#[trigger] pre[i]).0@ == k;
                assert(entries[i].0@ == k);
            }
            if exists|i: int| 0 <= i < entries.len() && (#[trigger] entries[i]).0@ == k {
                let i = choose|i: int| 0 <= i < entries.len() && (#[trigger] entries[i]).0@ == k;
                assert(i < last);
                assert(pre[i].0@ == k);
            }
        }
    }
}

/// With unique names, the map's value for a record's name is that record's.
proof fn lemma_map_of_value(entries: Seq<(String, bool)>, i: int)
    requires
        unique_keys(entries),
        0 <= i < entries.len(),
    ensures
        map_of(entries).contains_key(entries[i].0@),
        map_of(entries)[entries[i].0@] == entries[i].1,
    decreases entries.len(),
{
    let last = entries.len() - 1;
    if i < last {
        let pre = entries.drop_last();
        assert(unique_keys(pre)) by {
            assert forall|x: int, y: int| 0 <= x < y < pre.len() implies (#[trigger] pre[x]).0@ != (
            #[trigger] pre[y]).0@ by {
                assert(entries[x].0@ != entries[y].0@);
            }
        }
        lemma_map_of_value(pre, i);
        assert(entries[last].0@ != entries[i].0@);
        assert(pre[i] == entries[i]);
    }
}

/// Appending a record inserts its name into the map.
proof fn lemma_map_of_push(entries: Seq<(String, bool)>, e: (String, bool))
    ensures
        map_of(entries.push(e)) == map_of(entries).insert(e.0@, e.1),
{
    assert(entries.push(e).drop_last() =~= entries);
    assert(entries.push(e).last() == e);
}

/// Overwriting the record that carries a name updates only that name.
proof fn lemma_map_of_update(entries: Seq<(String, bool)>, i: int, v: (String, bool))
    requires
        unique_keys(entries),
        0 <= i < entries.len(),
        v.0@ == entries[i].0@,
    ensures
        map_of(entries.update(i, v)) == map_of(entries).insert(v.0@, v.1),
        unique_keys(entries.update(i, v)),
{
    let u = entries.update(i, v);
    assert(unique_keys(u)) by {
        assert forall|x: int, y: int| 0 <= x < y < u.len() implies (#[trigger] u[x]).0@ != (
        #[trigger] u[y]).0@ by {
            assert(entries[x].0@ != entries[y].0@);
        }
    }
    assert(map_of(u) =~= map_of(entries).insert(v.0@, v.1)) by {
        assert forall|k: Seq<char>| #[trigger]
            map_of(u).contains_key(k) || map_of(entries).insert(
                v.0@,
                v.1,
            ).contains_key(k) implies map_of(u).contains_key(k) && map_of(entries).insert(
            v.0@,
            v.1,
        ).contains_key(k) && map_of(u)[k] == map_of(entries).insert(v.0@, v.1)[k] by {
            lemma_map_of_domain(u, k);
            lemma_map_of_domain(entries, k);
            if k == v.0@ {
                lemma_map_of_value(u, i);
                assert(u[i] == v);
            } else {
                if map_of(u).contains_key(k) {
                    let j = choose|j: int| 0 <= j < u.len() && (#[trigger] u[j]).0@ == k;
                    assert(j != i);
                    assert(entries[j].0@ == k);
                    lemma_map_of_value(u, j);
                    lemma_map_of_value(entries, j);
                    assert(u[j] == entries[j]);
                } else {
                    if map_of(entries).contains_key(k) {
                        let j = choose|j: int|
                            0 <= j < entries.len() && (#[trigger] entries[j]).0@ == k;
                        assert(j != i);
                        assert(u[j].0@ == k);
                    }
                }
            }
        }
    }
}

/// The spec-level effect of clearing one session on (root exists, directory
/// map): the root exists afterwards and the named directory is present and
/// empty; everything else is untouched.
pub open spec fn clear_session_transition(m: Map<Seq<char>, bool>, name: Seq<char>) -> (
    bool,
    Map<Seq<char>, bool>,
) {
    (true, m.insert(name, true))
}

/// The spec-level effect of clearing all sessions: the root is gone and with
/// it every session directory.
pub open spec fn clear_all_transition() -> (bool, Map<Seq<char>, bool>) {
    (false, Map::<Seq<char>, bool>::empty())
}

/// The observable state of the sessions tree.
pub struct SessionsState {
    root_exists: bool,
    dirs: Vec<(String, bool)>,
}

impl SessionsState {
    /// Whether the sessions root directory exists.
    pub closed spec fn root_present(self) -> bool {
        self.root_exists
    }

    /// The session directories under the root, each mapped to whether it is
    /// empty.
    pub closed spec fn dirs_map(self) -> Map<Seq<char>, bool> {
        map_of(self.dirs@)
    }

    /// Internal consistency: names are unique, and without a root there are
    /// no session directories.
    pub closed spec fn wf(self) -> bool {
        unique_keys(self.dirs@) && (!self.root_exists ==> self.dirs@.len() == 0)
    }

    /// A session is active for `name` when its directory is present.
    pub open spec fn session_present(self, name: Seq<char>) -> bool {
        self.root_present() && self.dirs_map().contains_key(name)
    }

    /// The named session directory is present and empty.
    pub open spec fn session_cleared(self, name: Seq<char>) -> bool {
        self.session_present(name) && self.dirs_map()[name]
    }

    /// The state of a tree whose sessions root does not exist.
    pub fn new_absent() -> (r: Self)
        ensures
            r.wf(),
            !r.root_present(),
            r.dirs_map() == Map::<Seq<char>, bool>::empty(),
    {
        SessionsState { root_exists: false, dirs: Vec::new() }
    }

    /// Whether the sessions root directory exists.
    pub fn root_dir_present(&self) -> (r: bool)
        ensures
            r == self.root_present(),
    {
        self.root_exists
    }

    /// Whether the named session directory exists and, if so, whether it is
    /// empty.
    pub fn dir_status(&self, name: &str) -> (r: Option<bool>)
        requires
            self.wf(),
        ensures
            r is Some <==> self.dirs_map().contains_key(name@),
            r matches Some(e) ==> e == self.dirs_map()[name@],
    {
        let mut i: usize = 0;
        while i < self.dirs.len()
            invariant
                self.wf(),
                i <= self.dirs@.len(),
                forall|j: int| 0 <= j < i ==> (#[trigger] self.dirs@[j]).0@ != name@,
            decreases self.dirs@.len() - i,
        {
            if strutil::str_eq(self.dirs[i].0.as_str(), name) {
                proof {
                    lemma_map_of_value(self.dirs@, i as int);
                }
                return Some(self.dirs[i].1);
            }
            i = i + 1;
        }
        proof {
            lemma_map_of_domain(self.dirs@, name@);
        }
        None
    }

    /// Records that one session was cleared: the root exists and the named
    /// directory is present and empty; every other directory is untouched.
    pub fn record_clear_session(&mut self, name: &str)
        requires
            old(self).wf(),
        ensures
            final(self).wf(),
            (final(self).root_present(), final(self).dirs_map()) == clear_session_transition(
                old(self).dirs_map(),
                name@,
            ),
    {
        self.root_exists = true;
        let entry = (String::from_str(name), true);
        let mut i: usize = 0;
        while i < self.dirs.len()
            invariant
                self.root_exists,
                self.dirs@ == old(self).dirs@,
                unique_keys(self.dirs@),
                i <= self.dirs@.len(),
                forall|j: int| 0 <= j < i ==> (#[trigger] self.dirs@[j]).0@ != name@,
                entry.0@ == name@,
                entry.1 == true,
            decreases self.dirs@.len() - i,
        {
            if strutil::str_eq(self.dirs[i].0.as_str(), name) {
                proof {
                    lemma_map_of_update(self.dirs@, i as int, entry);
                }
                self.dirs[i] = entry;
                return ;
            }
            i = i + 1;
        }
        proof {
            lemma_map_of_domain(self.dirs@, name@);
            lemma_map_of_push(self.dirs@, entry);
            assert forall|x: int, y: int|
                0 <= x < y < self.dirs@.push(entry).len() implies (#[trigger] self.dirs@.push(
                entry,
            )[x]).0@ != (#[trigger] self.dirs@.push(entry)[y]).0@ by {
                if y < self.dirs@.len() {
                    assert(self.dirs@[x].0@ != self.dirs@[y].0@);
                } else {
                    assert(self.dirs@[x].0@ != name@);
                }
            }
        }
        self.dirs.push(entry);
    }

    /// Records that all sessions were cleared: the root is gone and with it
    /// every session directory.
    pub fn record_clear_all(&mut self)
        ensures
            final(self).wf(),
            (final(self).root_present(), final(self).dirs_map()) == clear_all_transition(),
    {
        self.root_exists = false;
        self.dirs = Vec::new();
    }
}

/// Law: a well-formed state whose sessions root is absent holds no session
/// directory at all.
pub proof fn lemma_no_root_no_dirs(s: SessionsState)
    requires
        s.wf(),
        !s.root_present(),
    ensures
        s.dirs_map() == Map::<Seq<char>, bool>::empty(),
        forall|name: Seq<char>| !s.session_present(name),
{
    assert(s.dirs_map() =~= Map::<Seq<char>, bool>::empty());
}

/// Law: clearing a session is idempotent. A second clear of the same name
/// leaves the state exactly as the first left it, and after either clear the
/// named directory is present and empty.
pub proof fn lemma_clear_session_idempotent(m: Map<Seq<char>, bool>, name: Seq<char>)
    ensures
        clear_session_transition(clear_session_transition(m, name).1, name)
            == clear_session_transition(m, name),
        clear_session_transition(m, name).0,
        clear_session_transition(m, name).1.contains_key(name),
        clear_session_transition(m, name).1[name] == true,
{
    assert(m.insert(name, true).insert(name, true) =~= m.insert(name, true));
}

/// Law: after clearing all sessions the root is absent and no session
/// directory remains; a subsequent clear of one session recreates exactly
/// that one directory, present and empty.
pub proof fn lemma_clear_all_then_clear_session(name: Seq<char>)
    ensures
        !clear_all_transition().0,
        clear_all_transition().1 == Map::<Seq<char>, bool>::empty(),
        clear_session_transition(clear_all_transition().1, name).0,
        clear_session_transition(clear_all_transition().1, name).1 == Map::<
            Seq<char>,
            bool,
        >::empty().insert(name, true),
        forall|other: Seq<char>|
            other != name ==> !clear_session_transition(
                clear_all_transition().1,
                name,
            ).1.contains_key(other),
{
}

} // verus!
