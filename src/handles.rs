use vstd::prelude::*;

use crate::error::{ErrorCode, GatewayError, translate};

verus! {

/// The handles of one peripheral family that are currently open.
///
/// A handle is added when a backend's `init` hands it out and removed when
/// its `deinit` succeeds. A handle that was closed and one that was never
/// handed out are alike absent: the gateway rejects both the same way.
pub struct HandleTable {
    open: Vec<i32>,
}

/// What `init` returns for a backend's answer `answer`, given the open
/// handles: a fresh non-negative handle is accepted, one that is negative or
/// already open is an inconsistency, and a backend error is passed on.
pub open spec fn open_outcome(open: Set<i32>, answer: Result<i32, ErrorCode>) -> Result<
    i32,
    ErrorCode,
> {
    match answer {
        Ok(h) => if h >= 0 && !open.contains(h) {
            Ok(h)
        } else {
            Err(ErrorCode::Unexpected)
        },
        Err(e) => Err(e),
    }
}

impl View for HandleTable {
    type V = Set<i32>;

    closed spec fn view(&self) -> Set<i32> {
        Set::new(|h: i32| self.open@.contains(h))
    }
}

impl HandleTable {
    /// Each open handle is held once.
    pub closed spec fn wf(&self) -> bool {
        self.open@.no_duplicates()
    }

    /// A table with no open handle.
    pub fn new() -> (r: HandleTable)
        ensures
            r.wf(),
            r@ == Set::<i32>::empty(),
    {
        let r = HandleTable { open: Vec::new() };
        proof {
            assert(r@ =~= Set::<i32>::empty());
        }
        r
    }

    /// The position of `h` in the list of open handles, if it is there.
    fn find(&self, h: i32) -> (r: Option<usize>)
        ensures
            r matches Some(i) ==> i < self.open@.len() && self.open@[i as int] == h,
            r is None ==> !self.open@.contains(h),
    {
        let mut i: usize = 0;
        while i < self.open.len()
            invariant
                i <= self.open@.len(),
                forall|j: int| 0 <= j < i ==> self.open@[j] != h,
            decreases self.open@.len() - i,
        {
            if self.open[i] == h {
                return Some(i);
            }
            i = i + 1;
        }
        None
    }

    /// Whether `h` is open.
    pub fn is_open(&self, h: i32) -> (r: bool)
        ensures
            r == self@.contains(h),
    {
        self.find(h).is_some()
    }

    /// Records `h` as open.
    pub fn insert(&mut self, h: i32)
        requires
            old(self).wf(),
            !old(self)@.contains(h),
        ensures
            final(self).wf(),
            final(self)@ == old(self)@.insert(h),
    {
        self.open.push(h);
        proof {
            assert(self.open@ == old(self).open@.push(h));
            assert forall|x: i32| self.open@.contains(x) <==> old(self).open@.contains(x) || x == h by {
                if self.open@.contains(x) && x != h {
                    let k = choose|k: int| 0 <= k < self.open@.len() && self.open@[k] == x;
                    assert(old(self).open@[k] == x);
                }
                if old(self).open@.contains(x) {
                    let k = choose|k: int| 0 <= k < old(self).open@.len() && old(self).open@[k] == x;
                    assert(self.open@[k] == x);
                }
                if x == h {
                    assert(self.open@[self.open@.len() - 1] == h);
                }
            }
            assert(self@ =~= old(self)@.insert(h));
        }
    }

    /// Records `h` as no longer open.
    pub fn remove(&mut self, h: i32)
        requires
            old(self).wf(),
        ensures
            final(self).wf(),
            final(self)@ == old(self)@.remove(h),
    {
        match self.find(h) {
            Some(i) => {
                let ghost before = self.open@;
                self.open.remove(i);
                proof {
                    let after = self.open@;
                    assert(after == before.remove(i as int));
                    assert forall|x: i32| after.contains(x) <==> before.contains(x) && x != h by {
                        if after.contains(x) {
                            let k = choose|k: int| 0 <= k < after.len() && after[k] == x;
                            if k < i {
                                assert(before[k] == x);
                            } else {
                                assert(before[k + 1] == x);
                                assert(k + 1 != i);
                            }
                        }
                        if before.contains(x) && x != h {
                            let k = choose|k: int| 0 <= k < before.len() && before[k] == x;
                            assert(k != i);
                            if k < i {
                                assert(after[k] == x);
                            } else {
                                assert(after[k - 1] == x);
                            }
                        }
                    }
                    assert(self@ =~= old(self)@.remove(h));
                }
            },
            None => {
                proof {
                    assert(self@ =~= old(self)@.remove(h));
                }
            },
        }
    }

    /// Takes a backend's answer to `init`. The table changes only when the
    /// answer is a handle it can accept, and then gains exactly that handle.
    pub fn record_open(&mut self, answer: Result<i32, ErrorCode>) -> (r: Result<i32, ErrorCode>)
        requires
            old(self).wf(),
        ensures
            final(self).wf(),
            r == open_outcome(old(self)@, answer),
            r matches Ok(h) ==> final(self)@ == old(self)@.insert(h),
            r is Err ==> final(self)@ == old(self)@,
    {
        match answer {
            Ok(h) => {
                if h < 0 || self.is_open(h) {
                    Err(translate(GatewayError::Inconsistent))
                } else {
                    self.insert(h);
                    Ok(h)
                }
            },
            Err(e) => Err(e),
        }
    }

    /// Takes a backend's answer to `deinit` of `h`: on success `h` is closed,
    /// otherwise the table is kept and the error passed on.
    pub fn record_close(&mut self, h: i32, answer: Result<(), ErrorCode>) -> (r: Result<
        (),
        ErrorCode,
    >)
        requires
            old(self).wf(),
        ensures
            final(self).wf(),
            r == answer,
            r is Ok ==> final(self)@ == old(self)@.remove(h),
            r is Err ==> final(self)@ == old(self)@,
    {
        if answer.is_ok() {
            self.remove(h);
        }
        answer
    }
}

} // verus!
