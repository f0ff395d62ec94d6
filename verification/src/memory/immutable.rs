//! The publication protocol of the immutable region.
//!
//! The region is split into two halves. Readers follow the pointer to the
//! live half, which is sealed read-only by the hardware; the other half is
//! the staging area of the next write. A write unseals the staging half,
//! fills it, seals it, publishes it as the live half, and unseals the half
//! that was live. The protocol never publishes a half that is not sealed.
//!
//! The sealing and unsealing are system calls made by the caller; the
//! protocol is told their outcome and decides what state follows.

use vstd::prelude::*;

verus! {

/// One half of the immutable region.
#[derive(Debug, Clone, Copy, PartialEq, Eq, Structural)]
pub enum Half {
    /// The first half, at offset 0.
    A,
    /// The second half, at half the region's size.
    B,
}

/// The half that is not `h`.
pub open spec fn other(h: Half) -> Half {
    match h {
        Half::A => Half::B,
        Half::B => Half::A,
    }
}

/// The publication state of the two halves.
#[derive(Debug)]
pub struct PingPong {
    live: Half,
    sealed_a: bool,
    sealed_b: bool,
    writing: bool,
}

impl PingPong {
    /// The half readers are directed to.
    pub closed spec fn spec_live(&self) -> Half {
        self.live
    }

    /// Whether half `h` is sealed read-only.
    pub closed spec fn is_sealed(&self, h: Half) -> bool {
        match h {
            Half::A => self.sealed_a,
            Half::B => self.sealed_b,
        }
    }

    /// Whether a write is under way.
    pub closed spec fn spec_writing(&self) -> bool {
        self.writing
    }

    /// The protocol's invariant: the live half is sealed, and while a write
    /// is under way the staging half is not.
    pub closed spec fn wf(&self) -> bool {
        &&& self.is_sealed(self.live)
        &&& self.writing ==> !self.is_sealed(other(self.live))
    }

    /// The state once half A has been sealed as the first live half; half B
    /// is writable.
    pub fn new() -> (r: Self)
        ensures
            r.wf(),
            r.spec_live() == Half::A,
            r.is_sealed(Half::A),
            !r.is_sealed(Half::B),
            !r.spec_writing(),
    {
        PingPong { live: Half::A, sealed_a: true, sealed_b: false, writing: false }
    }

    /// The half readers are directed to; it is always sealed.
    pub fn live(&self) -> (r: Half)
        requires
            self.wf(),
        ensures
            r == self.spec_live(),
            self.is_sealed(r),
    {
        self.live
    }

    /// Whether a write is under way.
    pub fn is_writing(&self) -> (r: bool)
        ensures
            r == self.spec_writing(),
    {
        self.writing
    }

    /// The half the next write goes to: the one that is not live.
    pub fn staging(&self) -> (r: Half)
        ensures
            r == other(self.spec_live()),
    {
        match self.live {
            Half::A => Half::B,
            Half::B => Half::A,
        }
    }

    fn set_sealed(&mut self, h: Half, sealed: bool)
        ensures
            final(self).is_sealed(h) == sealed,
            final(self).is_sealed(other(h)) == old(self).is_sealed(other(h)),
            final(self).spec_live() == old(self).spec_live(),
            final(self).spec_writing() == old(self).spec_writing(),
    {
        match h {
            Half::A => self.sealed_a = sealed,
            Half::B => self.sealed_b = sealed,
        }
    }

    /// Starts a write, told whether unsealing the staging half succeeded.
    /// On success the staging half is returned, writable; on failure
    /// nothing changes.
    pub fn begin_write(&mut self, unseal_ok: bool) -> (r: Result<Half, ()>)
        requires
            old(self).wf(),
            !old(self).spec_writing(),
        ensures
            final(self).wf(),
            final(self).spec_live() == old(self).spec_live(),
            unseal_ok ==> {
                &&& r == Ok::<Half, ()>(other(old(self).spec_live()))
                &&& final(self).spec_writing()
                &&& !final(self).is_sealed(other(old(self).spec_live()))
            },
            !unseal_ok ==> {
                &&& r == Err::<Half, ()>(())
                &&& final(self).spec_writing() == old(self).spec_writing()
                &&& final(self).is_sealed(Half::A) == old(self).is_sealed(Half::A)
                &&& final(self).is_sealed(Half::B) == old(self).is_sealed(Half::B)
            },
    {
        if !unseal_ok {
            return Err(());
        }
        let staging = self.staging();
        self.set_sealed(staging, false);
        self.writing = true;
        Ok(staging)
    }

    /// Finishes a write once the staging half is sealed: publishes it as the
    /// live half, then records whether unsealing the old live half
    /// succeeded. The new live half is sealed before it is published.
    pub fn commit(&mut self, unseal_old_ok: bool)
        requires
            old(self).wf(),
            old(self).spec_writing(),
        ensures
            final(self).wf(),
            final(self).spec_live() == other(old(self).spec_live()),
            final(self).is_sealed(final(self).spec_live()),
            final(self).is_sealed(old(self).spec_live()) == !unseal_old_ok,
            !final(self).spec_writing(),
    {
        let staging = self.staging();
        let old_live = self.live;
        self.set_sealed(staging, true);
        self.live = staging;
        self.set_sealed(old_live, !unseal_old_ok);
        self.writing = false;
    }
}

} // verus!
