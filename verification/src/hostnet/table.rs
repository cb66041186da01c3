//! The guest's socket table: guest file descriptors to host sockets.

use std::collections::HashMap;
use vstd::prelude::*;
use vstd::std_specs::hash::group_hash_axioms;

use super::errno::EMFILE;

verus! {

broadcast use group_hash_axioms;

/// The most sockets a guest may hold open at once.
pub const MAX_SOCKETS: usize = 1024;

/// The first descriptor handed out (0-2 are stdin/stdout/stderr).
pub const FIRST_FD: i32 = 3;

/// Guest descriptors and the sockets they name, plus the next descriptor
/// to hand out.
///
/// The table never holds more than [`MAX_SOCKETS`] sockets.
pub struct SocketTable<S> {
    sockets: HashMap<i32, S>,
    next_fd: i32,
}

impl<S> SocketTable<S> {
    #[verifier::type_invariant]
    closed spec fn within_limit(self) -> bool {
        self.sockets@.len() <= MAX_SOCKETS
    }

    /// The open descriptors and their sockets.
    pub closed spec fn sockets(self) -> Map<i32, S> {
        self.sockets@
    }

    /// The descriptor the next successful insert hands out.
    pub closed spec fn next_fd(self) -> i32 {
        self.next_fd
    }

    /// An empty table whose first descriptor is 3.
    pub fn new() -> (t: Self)
        ensures
            t.sockets() == Map::<i32, S>::empty(),
            t.next_fd() == FIRST_FD,
    {
        SocketTable { sockets: HashMap::new(), next_fd: FIRST_FD }
    }

    /// The number of open sockets.
    pub fn len(&self) -> (n: usize)
        ensures
            n == self.sockets().len(),
            n <= MAX_SOCKETS,
    {
        proof {
            use_type_invariant(self);
        }
        self.sockets.len()
    }

    /// Store a socket under the next descriptor.
    ///
    /// A full table refuses with `EMFILE` (the socket is dropped, which
    /// closes it) and is left unchanged; otherwise the socket is stored
    /// under the current next descriptor, which is returned, and the next
    /// descriptor advances by one, wrapping at `i32::MAX`.
    pub fn insert(&mut self, socket: S) -> (r: Result<i32, i32>)
        ensures
            old(self).sockets().len() >= MAX_SOCKETS ==> {
                &&& r == Err::<i32, i32>(EMFILE)
                &&& final(self).sockets() == old(self).sockets()
                &&& final(self).next_fd() == old(self).next_fd()
            },
            old(self).sockets().len() < MAX_SOCKETS ==> {
                &&& r == Ok::<i32, i32>(old(self).next_fd())
                &&& final(self).sockets() == old(self).sockets().insert(old(self).next_fd(), socket)
                &&& final(self).next_fd() == vstd::wrapping::i32_specs::wrapping_add(
                    old(self).next_fd(),
                    1,
                )
            },
    {
        proof {
            use_type_invariant(&*self);
        }
        if self.sockets.len() >= MAX_SOCKETS {
            return Err(EMFILE);
        }
        let fd = self.next_fd;
        let mut sockets = HashMap::new();
        std::mem::swap(&mut sockets, &mut self.sockets);
        sockets.insert(fd, socket);
        proof {
            assert(sockets@.dom() =~= old(self).sockets@.dom().insert(fd));
            vstd::set_lib::lemma_len_subset(old(self).sockets@.dom(), sockets@.dom());
        }
        self.sockets = sockets;
        self.next_fd = self.next_fd.wrapping_add(1);
        Ok(fd)
    }

    /// The socket under `fd`, if any.
    pub fn get(&self, fd: i32) -> (r: Option<&S>)
        ensures
            match r {
                Some(s) => self.sockets().contains_key(fd) && *s == self.sockets()[fd],
                None => !self.sockets().contains_key(fd),
            },
    {
        self.sockets.get(&fd)
    }

    /// Take the socket under `fd` out of the table, if any.
    pub fn remove(&mut self, fd: i32) -> (r: Option<S>)
        ensures
            final(self).sockets() == old(self).sockets().remove(fd),
            final(self).next_fd() == old(self).next_fd(),
            match r {
                Some(s) => old(self).sockets().contains_key(fd) && s == old(self).sockets()[fd],
                None => !old(self).sockets().contains_key(fd),
            },
    {
        proof {
            use_type_invariant(&*self);
        }
        let mut sockets = HashMap::new();
        std::mem::swap(&mut sockets, &mut self.sockets);
        let r = sockets.remove(&fd);
        proof {
            assert(sockets@.dom() =~= old(self).sockets@.dom().remove(fd));
            vstd::set_lib::lemma_len_subset(sockets@.dom(), old(self).sockets@.dom());
        }
        self.sockets = sockets;
        r
    }
}

impl<S> SocketTable<S> {
    /// `net_socket`/`net_accept` registration of a new host socket: the
    /// guest's new descriptor, or `-EMFILE` when the table is full (the
    /// socket is then dropped, which closes it).
    pub fn open(&mut self, socket: S) -> (r: i32)
        ensures
            old(self).sockets().len() >= MAX_SOCKETS ==> {
                &&& r == -EMFILE
                &&& final(self).sockets() == old(self).sockets()
                &&& final(self).next_fd() == old(self).next_fd()
            },
            old(self).sockets().len() < MAX_SOCKETS ==> {
                &&& r == old(self).next_fd()
                &&& final(self).sockets() == old(self).sockets().insert(old(self).next_fd(), socket)
                &&& final(self).next_fd() == vstd::wrapping::i32_specs::wrapping_add(
                    old(self).next_fd(),
                    1,
                )
            },
    {
        match self.insert(socket) {
            Ok(fd) => fd,
            Err(e) => -e,
        }
    }

    /// `net_close(fd)`: drop the descriptor's socket, if any (dropping
    /// closes it); always answers 0.
    pub fn close(&mut self, fd: i32) -> (r: i32)
        ensures
            r == 0,
            final(self).sockets() == old(self).sockets().remove(fd),
            final(self).next_fd() == old(self).next_fd(),
    {
        let _ = self.remove(fd);
        0
    }
}

/// Closing a freshly inserted descriptor restores the table's previous
/// contents.
pub proof fn lemma_insert_then_remove<S>(before: Map<i32, S>, fd: i32, socket: S)
    requires
        !before.contains_key(fd),
    ensures
        before.insert(fd, socket).remove(fd) == before,
        before.insert(fd, socket).contains_key(fd),
        before.insert(fd, socket)[fd] == socket,
{
    assert(before.insert(fd, socket).remove(fd) =~= before);
}

/// Closing a descriptor twice has the same effect as closing it once.
pub proof fn lemma_close_idempotent<S>(before: Map<i32, S>, fd: i32)
    ensures
        before.remove(fd).remove(fd) == before.remove(fd),
        !before.remove(fd).contains_key(fd),
{
    assert(before.remove(fd).remove(fd) =~= before.remove(fd));
}

} // verus!
