use vstd::prelude::*;

verus! {

/// The low-level pointer hook registrations the platform currently holds:
/// the platform's side of the bridge, modeled so that installing,
/// uninstalling and dispatching can be followed end to end. The platform
/// issues handles in increasing order and never a null one, so the live
/// handles are nonzero, strictly increasing, and below the next handle to
/// be issued.
pub struct HookRegistry {
    /// Handles of the live registrations, oldest first.
    pub hooks: Vec<u64>,
    /// The handle the platform issues next.
    pub next_handle: u64,
}

impl HookRegistry {
    pub open spec fn wf(self) -> bool {
        &&& 0 < self.next_handle
        &&& forall|i: int, j: int|
            0 <= i < j < self.hooks@.len() ==> self.hooks@[i] < self.hooks@[j]
        &&& forall|i: int| 0 <= i < self.hooks@.len() ==> 0 < #[trigger] self.hooks@[i]
            < self.next_handle
    }

    /// No registration is live yet.
    pub fn new() -> (r: HookRegistry)
        ensures
            r.wf(),
            r.hooks@ == Seq::<u64>::empty(),
    {
        HookRegistry { hooks: Vec::new(), next_handle: 1 }
    }

    /// The platform grants a registration: the next handle is issued and
    /// the registration joins the chain, newest last.
    pub fn register(&mut self) -> (h: u64)
        requires
            old(self).wf(),
            old(self).next_handle < u64::MAX,
        ensures
            final(self).wf(),
            h == old(self).next_handle,
            h != 0,
            final(self).hooks@ == old(self).hooks@.push(h),
            final(self).next_handle == old(self).next_handle + 1,
    {
        let h = self.next_handle;
        self.hooks.push(h);
        self.next_handle = self.next_handle + 1;
        h
    }

    /// The platform deregisters the registration with this handle; it
    /// refuses when no such registration is live. Every other registration
    /// stays.
    pub fn deregister(&mut self, h: u64) -> (ok: bool)
        requires
            old(self).wf(),
        ensures
            final(self).wf(),
            ok == old(self).hooks@.contains(h),
            !ok ==> *final(self) == *old(self),
            ok ==> final(self).hooks@.len() == old(self).hooks@.len() - 1,
            ok ==> !final(self).hooks@.contains(h),
            forall|g: u64|
                g != h ==> final(self).hooks@.contains(g) == old(self).hooks@.contains(g),
            final(self).next_handle == old(self).next_handle,
    {
        let n = self.hooks.len();
        let mut i: usize = 0;
        while i < n
            invariant
                *self == *old(self),
                old(self).wf(),
                n == self.hooks@.len(),
                i <= n,
                forall|k: int| 0 <= k < i ==> self.hooks@[k] != h,
            decreases n - i,
        {
            if self.hooks[i] == h {
                self.hooks.remove(i);
                proof {
                    let pre = old(self).hooks@;
                    let post = self.hooks@;
                    assert(post =~= pre.subrange(0, i as int) + pre.subrange(
                        i + 1,
                        pre.len() as int,
                    ));
                    assert(pre.contains(h)) by {
                        assert(pre[i as int] == h);
                    }
                    assert forall|a: int, b: int| 0 <= a < b < post.len() implies post[a]
                        < post[b] by {
                        let a0: int = if a < i { a } else { a + 1 };
                        let b0: int = if b < i { b } else { b + 1 };
                        assert(post[a] == pre[a0] && post[b] == pre[b0]);
                    }
                    assert forall|k: int| 0 <= k < post.len() implies 0 < #[trigger] post[k]
                        < self.next_handle by {
                        let k0: int = if k < i { k } else { k + 1 };
                        assert(post[k] == pre[k0]);
                    }
                    assert(!post.contains(h)) by {
                        // handles are strictly increasing, so `h` stood at index `i` alone
                        assert forall|k: int| 0 <= k < post.len() implies post[k] != h by {
                            let k0: int = if k < i { k } else { k + 1 };
                            assert(post[k] == pre[k0]);
                            if k0 < i {
                                assert(pre[k0] < pre[i as int]);
                            } else {
                                assert(pre[i as int] < pre[k0]);
                            }
                        }
                    }
                    assert forall|g: u64| g != h implies post.contains(g) == pre.contains(
                        g,
                    ) by {
                        if pre.contains(g) {
                            let j = choose|j: int| 0 <= j < pre.len() && pre[j] == g;
                            let j1: int = if j < i { j } else { j - 1 };
                            assert(post[j1] == pre[j]);
                            assert(post.contains(g));
                        }
                        if post.contains(g) {
                            let j = choose|j: int| 0 <= j < post.len() && post[j] == g;
                            let j0: int = if j < i { j } else { j + 1 };
                            assert(pre[j0] == post[j]);
                            assert(pre.contains(g));
                        }
                    }
                }
                return true;
            }
            i = i + 1;
        }
        proof {
            assert(!old(self).hooks@.contains(h)) by {
                assert forall|k: int|
                    0 <= k < old(self).hooks@.len() implies old(self).hooks@[k] != h by {}
            }
        }
        false
    }
}

} // verus!
