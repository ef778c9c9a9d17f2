//! Processes, handles, and the locator.
//!
//! A [`Process`] starts as a bare identity (id and resolved executable
//! name) produced by enumeration.  Opening it attaches the platform's
//! native reference together with the granted rights; closing detaches
//! them.  The platform calls themselves -- opening a native handle,
//! releasing it -- are the caller's: this module decides, for every state
//! and every platform outcome, what the next state and the result are.

use vstd::prelude::*;

use crate::errors::{CloseError, EnumError, FindError, OpenError};
use crate::rights::AccessRights;

verus! {

/// One running process: its identity, and, while open, the live reference
/// into it.
///
/// The identity part (`pid`, `name`) is set at enumeration time and never
/// changes afterwards.  `os_ref` is the platform's opaque reference as a
/// plain number; on platforms with no explicit handle concept it
/// degenerates to the numeric id itself.  `os_ref` and `rights` are
/// meaningful only while `is_open` holds.
#[derive(Debug, PartialEq, Eq)]
pub struct Process {
    /// The identifier the operating system assigned to the process.  It is
    /// unique at a point in time but may be reused after the process exits.
    pub pid: u32,
    /// The resolved executable name.
    pub name: String,
    /// The platform's reference to the process, as an opaque number.
    pub os_ref: u64,
    /// The rights granted when the handle was opened.
    pub rights: AccessRights,
    /// Whether a successful open has happened without a matching close.
    pub is_open: bool,
}

impl Process {
    /// The state a process has when enumeration discovers it: a bare
    /// identity, not yet opened.
    pub open spec fn discovered_spec(pid: u32, name: String) -> Process {
        Process {
            pid,
            name,
            os_ref: 0,
            rights: AccessRights { read: false, write: false },
            is_open: false,
        }
    }

    /// Make the identity record for a freshly enumerated process.
    pub fn discovered(pid: u32, name: String) -> (p: Process)
        ensures
            p == Process::discovered_spec(pid, name),
    {
        Process {
            pid,
            name,
            os_ref: 0,
            rights: AccessRights { read: false, write: false },
            is_open: false,
        }
    }
}

/// Opening and closing the live reference behind a process value.
///
/// The platform's own open call happens outside the crate; its outcome --
/// the native reference as a number, or the platform's refusal -- is handed
/// in as `os`.  Each method's behaviour is pinned, state and result both,
/// by a specification function of the trait.
pub trait OpenCloseProcess: Sized {
    /// Whether the value currently holds a live reference.
    spec fn opened(&self) -> bool;

    /// The state and result `open` must produce from this state, the
    /// requested rights, and the platform's outcome.
    spec fn open_spec(&self, read: bool, write: bool, os: Result<u64, OpenError>) -> (
        Self,
        Result<(), OpenError>,
    );

    /// The state and result `close` must produce from this state.
    spec fn close_spec(&self) -> (Self, Result<u64, CloseError>);

    /// Attach the platform's outcome for an open requested with the given
    /// rights.  Requesting neither right fails with `NoAccessRequested`
    /// whatever the platform said; a platform refusal is passed through;
    /// otherwise the value becomes open with exactly the requested rights.
    fn open(&mut self, read: bool, write: bool, os: Result<u64, OpenError>) -> (r: Result<
        (),
        OpenError,
    >)
        requires
            !old(self).opened(),
        ensures
            (*final(self), r) == old(self).open_spec(read, write, os),
    ;

    /// Detach the live reference.  On an open value it returns the native
    /// reference, which the caller must now release with the platform; on a
    /// closed value it is a well-defined error and changes nothing.
    fn close(&mut self) -> (r: Result<u64, CloseError>)
        ensures
            (*final(self), r) == old(self).close_spec(),
    ;
}

impl OpenCloseProcess for Process {
    open spec fn opened(&self) -> bool {
        self.is_open
    }

    open spec fn open_spec(&self, read: bool, write: bool, os: Result<u64, OpenError>) -> (
        Process,
        Result<(), OpenError>,
    ) {
        if !read && !write {
            (*self, Err(OpenError::NoAccessRequested))
        } else {
            match os {
                Ok(raw) => (
                    Process {
                        pid: self.pid,
                        name: self.name,
                        os_ref: raw,
                        rights: AccessRights { read, write },
                        is_open: true,
                    },
                    Ok(()),
                ),
                Err(e) => (*self, Err(e)),
            }
        }
    }

    open spec fn close_spec(&self) -> (Process, Result<u64, CloseError>) {
        if self.is_open {
            (
                Process {
                    pid: self.pid,
                    name: self.name,
                    os_ref: self.os_ref,
                    rights: self.rights,
                    is_open: false,
                },
                Ok(self.os_ref),
            )
        } else {
            (*self, Err(CloseError::AlreadyClosed))
        }
    }

    fn open(&mut self, read: bool, write: bool, os: Result<u64, OpenError>) -> (r: Result<
        (),
        OpenError,
    >) {
        if !read && !write {
            return Err(OpenError::NoAccessRequested);
        }
        match os {
            Ok(raw) => {
                self.os_ref = raw;
                self.rights = AccessRights { read, write };
                self.is_open = true;
                Ok(())
            },
            Err(e) => Err(e),
        }
    }

    fn close(&mut self) -> (r: Result<u64, CloseError>) {
        if self.is_open {
            self.is_open = false;
            Ok(self.os_ref)
        } else {
            Err(CloseError::AlreadyClosed)
        }
    }
}

/// Closing is idempotent in effect: after one close -- whatever state it
/// started from -- a second close leaves the state untouched and reports
/// `AlreadyClosed`, never anything undefined.
pub proof fn lemma_close_idempotent(p: Process)
    ensures
        ({
            let (p1, _) = p.close_spec();
            p1.close_spec() == (p1, Err::<u64, CloseError>(CloseError::AlreadyClosed))
        }),
{
}

/// A successful open grants exactly the requested rights, keeps the
/// identity, and records the platform's reference.
pub proof fn lemma_open_grants_requested(p: Process, read: bool, write: bool, raw: u64)
    requires
        read || write,
    ensures
        ({
            let (p1, r) = p.open_spec(read, write, Ok(raw));
            &&& r == Ok::<(), OpenError>(())
            &&& p1.opened()
            &&& p1.rights == (AccessRights { read, write })
            &&& p1.pid == p.pid
            &&& p1.name == p.name
            &&& p1.os_ref == raw
        }),
{
}

/// The first process in `ps` whose name is exactly `name`, or `NotFound`
/// when none matches.
pub open spec fn locate(ps: Seq<Process>, name: Seq<char>) -> Result<Process, FindError>
    decreases ps.len(),
{
    if ps.len() == 0 {
        Err(FindError::NotFound)
    } else if ps[0].name@ == name {
        Ok(ps[0])
    } else {
        locate(ps.drop_first(), name)
    }
}

proof fn lemma_locate_hit(ps: Seq<Process>, name: Seq<char>, i: int)
    requires
        0 <= i < ps.len(),
        ps[i].name@ == name,
        forall|j: int| 0 <= j < i ==> ps[j].name@ != name,
    ensures
        locate(ps, name) == Ok::<Process, FindError>(ps[i]),
    decreases i,
{
    if i > 0 {
        assert(ps[0].name@ != name);
        lemma_locate_hit(ps.drop_first(), name, i - 1);
        assert(ps.drop_first()[i - 1] == ps[i]);
    }
}

proof fn lemma_locate_miss(ps: Seq<Process>, name: Seq<char>)
    requires
        forall|j: int| 0 <= j < ps.len() ==> ps[j].name@ != name,
    ensures
        locate(ps, name) == Err::<Process, FindError>(FindError::NotFound),
    decreases ps.len(),
{
    if ps.len() > 0 {
        lemma_locate_miss(ps.drop_first(), name);
    }
}

/// The locator misses exactly when no listed process bears the name: it
/// reports `NotFound` if and only if every entry's name differs.
pub proof fn lemma_locate_not_found_iff(ps: Seq<Process>, name: Seq<char>)
    ensures
        locate(ps, name) == Err::<Process, FindError>(FindError::NotFound) <==> (forall|i: int|
            0 <= i < ps.len() ==> ps[i].name@ != name),
    decreases ps.len(),
{
    if ps.len() > 0 && ps[0].name@ != name {
        let rest = ps.drop_first();
        lemma_locate_not_found_iff(rest, name);
        assert(forall|j: int| 0 <= j < rest.len() ==> rest[j] == ps[j + 1]);
        if (forall|i: int| 0 <= i < ps.len() ==> ps[i].name@ != name) {
            assert(forall|j: int| 0 <= j < rest.len() ==> rest[j].name@ != name);
        }
        if (forall|j: int| 0 <= j < rest.len() ==> rest[j].name@ != name) {
            assert forall|i: int| 0 <= i < ps.len() implies ps[i].name@ != name by {
                if i > 0 {
                    assert(rest[i - 1].name@ != name);
                }
            }
        }
    }
}

/// What the locator returns is a listed process with the requested name,
/// and it is the first such entry in enumeration order.
pub proof fn lemma_locate_finds_first_match(ps: Seq<Process>, name: Seq<char>, p: Process)
    requires
        locate(ps, name) == Ok::<Process, FindError>(p),
    ensures
        exists|i: int|
            0 <= i < ps.len() && ps[i] == p && ps[i].name@ == name && (forall|j: int|
                0 <= j < i ==> ps[j].name@ != name),
    decreases ps.len(),
{
    if ps.len() > 0 {
        if ps[0].name@ == name {
            assert(ps[0] == p && ps[0].name@ == name && (forall|j: int|
                0 <= j < 0 ==> ps[j].name@ != name));
        } else {
            lemma_locate_finds_first_match(ps.drop_first(), name, p);
            let i0 = choose|i: int|
                0 <= i < ps.drop_first().len() && ps.drop_first()[i] == p && ps.drop_first()[
                    i
                ].name@ == name && (forall|j: int|
                    0 <= j < i ==> ps.drop_first()[j].name@ != name);
            assert(ps[i0 + 1] == ps.drop_first()[i0]);
            assert(forall|j: int| 1 <= j < i0 + 1 ==> ps[j] == ps.drop_first()[j - 1]);
            assert(0 <= i0 + 1 < ps.len() && ps[i0 + 1] == p && ps[i0 + 1].name@ == name && (
            forall|j: int| 0 <= j < i0 + 1 ==> ps[j].name@ != name));
        }
    }
}

/// Take the first process named `name` out of an already enumerated list,
/// or report `NotFound` when no entry's name is exactly equal.
pub fn find_among(name: &String, ps: Vec<Process>) -> (r: Result<Process, FindError>)
    ensures
        r == locate(ps@, name@),
{
    let n = ps.len();
    let mut hit: Option<usize> = None;
    let mut i: usize = 0;
    while i < n
        invariant
            n == ps@.len(),
            i <= n,
            match hit {
                None => forall|j: int| 0 <= j < i ==> ps@[j].name@ != name@,
                Some(k) => k < i && ps@[k as int].name@ == name@ && (forall|j: int|
                    0 <= j < k ==> ps@[j].name@ != name@),
            },
        decreases n - i,
    {
        if hit.is_none() && ps[i].name == *name {
            hit = Some(i);
        }
        i += 1;
    }
    match hit {
        Some(k) => {
            proof {
                lemma_locate_hit(ps@, name@, k as int);
            }
            let mut taken = ps;
            Ok(taken.remove(k))
        },
        None => {
            proof {
                lemma_locate_miss(ps@, name@);
            }
            Err(FindError::NotFound)
        },
    }
}

/// Search an enumeration outcome for the first process named `name`.
///
/// A failed enumeration is surfaced as its own error, never mistaken for an
/// absent process; a successful one yields the first match in listing
/// order, or `NotFound` when no entry's name is exactly equal.
pub fn find_process(name: &String, listing: Result<Vec<Process>, EnumError>) -> (r: Result<
    Process,
    FindError,
>)
    ensures
        match listing {
            Ok(ps) => r == locate(ps@, name@),
            Err(e) => r == Err::<Process, FindError>(FindError::Enumeration(e)),
        },
{
    match listing {
        Err(e) => Err(FindError::Enumeration(e)),
        Ok(ps) => find_among(name, ps),
    }
}

} // verus!
