//! The bounded leaderboard: a top-N ranking by points, kept sorted in
//! descending order and updated incrementally on every score change.

use vstd::prelude::*;

verus! {

/// Maximum number of leaderboard entries.
pub const LEADERBOARD_LIMIT: usize = 10;

/// Entries are sorted by points, highest first.
pub open spec fn sorted_desc(s: Seq<(u64, u32)>) -> bool {
    forall|i: int, j: int| 0 <= i < j < s.len() ==> #[trigger] s[i].1 >= #[trigger] s[j].1
}

/// No account appears twice.
pub open spec fn unique_accounts(s: Seq<(u64, u32)>) -> bool {
    forall|i: int, j: int| 0 <= i < j < s.len() ==> #[trigger] s[i].0 != #[trigger] s[j].0
}

/// Whether `a` has an entry.
pub open spec fn lb_contains(s: Seq<(u64, u32)>, a: u64) -> bool {
    exists|i: int| 0 <= i < s.len() && #[trigger] s[i].0 == a
}

/// Whether `a` has an entry with exactly `p` points.
pub open spec fn lb_has(s: Seq<(u64, u32)>, a: u64, p: u32) -> bool {
    exists|i: int| 0 <= i < s.len() && #[trigger] s[i] == (a, p)
}

/// How one call of [`Leaderboard::update`] relates the table before
/// (`pre`) and after (`post`) recording that `account` scores
/// `new_points`: an existing entry is re-scored; an absent account
/// enters only with positive points and only if the table is not full
/// or its points beat the current minimum, evicting the minimum from a
/// full table; every other account keeps its entry.
pub open spec fn lb_updated(
    pre: Seq<(u64, u32)>,
    post: Seq<(u64, u32)>,
    account: u64,
    new_points: u32,
) -> bool {
    &&& (lb_contains(pre, account) ==> post.len() == pre.len() && lb_has(post, account, new_points))
    &&& (!lb_contains(pre, account) && new_points > 0 && pre.len() < LEADERBOARD_LIMIT ==> post.len()
        == pre.len() + 1 && lb_has(post, account, new_points))
    &&& (!lb_contains(pre, account) && new_points > 0 && pre.len() == LEADERBOARD_LIMIT
        && new_points > pre.last().1 ==> post.len() == LEADERBOARD_LIMIT && lb_has(
        post,
        account,
        new_points,
    ) && !lb_contains(post, pre.last().0))
    &&& (!lb_contains(pre, account) && (new_points == 0 || (pre.len() == LEADERBOARD_LIMIT
        && new_points <= pre.last().1)) ==> post == pre)
    &&& forall|a2: u64, p2: u32|
        a2 != account && (pre.len() < LEADERBOARD_LIMIT || lb_contains(pre, account) || a2
            != pre.last().0) ==> (lb_has(post, a2, p2) == lb_has(pre, a2, p2))
}

/// Marks a leaderboard state, so that a contract quantifying over an
/// intermediate table gives the prover a handle on it.
pub open spec fn lb_snapshot(s: Seq<(u64, u32)>) -> bool {
    true
}

/// The bounded top-N ranking of accounts by points.
#[derive(Debug)]
pub struct Leaderboard {
    entries: Vec<(u64, u32)>,
}

impl View for Leaderboard {
    type V = Seq<(u64, u32)>;

    closed spec fn view(&self) -> Seq<(u64, u32)> {
        self.entries@
    }
}

impl Leaderboard {
    /// Well-formed: sorted descending, one entry per account, at most
    /// [`LEADERBOARD_LIMIT`] entries.
    pub open spec fn wf(self) -> bool {
        sorted_desc(self@) && unique_accounts(self@) && self@.len() <= LEADERBOARD_LIMIT
    }

    /// The empty leaderboard.
    pub fn new() -> (r: Self)
        ensures
            r.wf(),
            r@ == Seq::<(u64, u32)>::empty(),
    {
        Leaderboard { entries: Vec::new() }
    }

    /// Number of entries.
    pub fn len(&self) -> (n: usize)
        ensures
            n == self@.len(),
    {
        self.entries.len()
    }

    /// The entry at rank `i` (highest points first).
    pub fn entry(&self, i: usize) -> (r: (u64, u32))
        requires
            i < self@.len(),
        ensures
            r == self@[i as int],
    {
        self.entries[i]
    }

    /// Index of the entry of `a`, if any.
    fn find(&self, a: u64) -> (r: Option<usize>)
        ensures
            match r {
                Some(i) => i < self@.len() && self@[i as int].0 == a,
                None => !lb_contains(self@, a),
            },
    {
        let mut i: usize = 0;
        while i < self.entries.len()
            invariant
                i <= self@.len(),
                forall|j: int| 0 <= j < i ==> #[trigger] self@[j].0 != a,
            decreases self@.len() - i,
        {
            if self.entries[i].0 == a {
                return Some(i);
            }
            i = i + 1;
        }
        None
    }

    /// Inserts an entry for an absent account at its sorted position.
    fn insert_sorted(&mut self, a: u64, p: u32)
        requires
            old(self).wf(),
            !lb_contains(old(self)@, a),
            old(self)@.len() < LEADERBOARD_LIMIT,
        ensures
            final(self).wf(),
            final(self)@.len() == old(self)@.len() + 1,
            lb_has(final(self)@, a, p),
            forall|a2: u64, p2: u32|
                a2 != a ==> (lb_has(final(self)@, a2, p2) == lb_has(old(self)@, a2, p2)),
            forall|a2: u64|
                a2 != a ==> (lb_contains(final(self)@, a2) == lb_contains(old(self)@, a2)),
    {
        let ghost s0 = self@;
        let mut pos: usize = 0;
        while pos < self.entries.len() && self.entries[pos].1 >= p
            invariant
                self@ == s0,
                pos <= s0.len(),
                forall|j: int| 0 <= j < pos ==> #[trigger] s0[j].1 >= p,
            decreases s0.len() - pos,
        {
            pos = pos + 1;
        }
        // Every entry past `pos` scores strictly below `p`.
        proof {
            assert(sorted_desc(s0));
            assert forall|j: int| pos <= j < s0.len() implies #[trigger] s0[j].1 < p by {
                if pos < s0.len() {
                    assert(s0[pos as int].1 < p);
                    if j > pos {
                        assert(s0[pos as int].1 >= s0[j].1);
                    }
                }
            }
        }
        self.entries.insert(pos, (a, p));
        proof {
            let s1 = self@;
            assert(s1 == s0.insert(pos as int, (a, p)));
            assert forall|i: int, j: int| 0 <= i < j < s1.len() implies s1[i].1 >= s1[j].1 by {
                if j < pos {
                    assert(s1[i] == s0[i] && s1[j] == s0[j]);
                } else if i > pos {
                    assert(s1[i] == s0[i - 1] && s1[j] == s0[j - 1]);
                } else if i == pos {
                    assert(s1[i] == (a, p) && s1[j] == s0[j - 1]);
                } else if j == pos {
                    assert(s1[i] == s0[i] && s1[j] == (a, p));
                } else {
                    assert(s1[i] == s0[i] && s1[j] == s0[j - 1]);
                    assert(s0[i].1 >= s0[j - 1].1);
                }
            }
            assert forall|i: int, j: int| 0 <= i < j < s1.len() implies s1[i].0 != s1[j].0 by {
                if i == pos {
                    assert(s1[j] == s0[j - 1]);
                    assert(s0[j - 1].0 != a);
                } else if j == pos {
                    assert(s1[i] == s0[i]);
                    assert(s0[i].0 != a);
                } else {
                    let i0 = if i < pos {
                        i
                    } else {
                        i - 1
                    };
                    let j0 = if j < pos {
                        j
                    } else {
                        j - 1
                    };
                    assert(s1[i] == s0[i0] && s1[j] == s0[j0]);
                }
            }
            assert(lb_has(s1, a, p)) by {
                assert(s1[pos as int] == (a, p));
            }
            assert forall|a2: u64, p2: u32| a2 != a implies (lb_has(s1, a2, p2) == lb_has(
                s0,
                a2,
                p2,
            )) by {
                if lb_has(s0, a2, p2) {
                    let i = choose|i: int| 0 <= i < s0.len() && #[trigger] s0[i] == (a2, p2);
                    if i < pos {
                        assert(s1[i] == (a2, p2));
                    } else {
                        assert(s1[i + 1] == (a2, p2));
                    }
                    assert(lb_has(s1, a2, p2));
                }
                if lb_has(s1, a2, p2) {
                    let i = choose|i: int| 0 <= i < s1.len() && #[trigger] s1[i] == (a2, p2);
                    if i < pos {
                        assert(s0[i] == (a2, p2));
                    } else {
                        assert(i != pos);
                        assert(s0[i - 1] == (a2, p2));
                    }
                    assert(lb_has(s0, a2, p2));
                }
            }
            assert forall|a2: u64| a2 != a implies (lb_contains(s1, a2) == lb_contains(s0, a2)) by {
                if lb_contains(s0, a2) {
                    let i = choose|i: int| 0 <= i < s0.len() && #[trigger] s0[i].0 == a2;
                    if i < pos {
                        assert(s1[i].0 == a2);
                    } else {
                        assert(s1[i + 1].0 == a2);
                    }
                    assert(lb_contains(s1, a2));
                }
                if lb_contains(s1, a2) {
                    let i = choose|i: int| 0 <= i < s1.len() && #[trigger] s1[i].0 == a2;
                    if i < pos {
                        assert(s0[i].0 == a2);
                    } else {
                        assert(i != pos);
                        assert(s0[i - 1].0 == a2);
                    }
                    assert(lb_contains(s0, a2));
                }
            }
        }
    }

    /// Removes the entry at index `i`.
    fn remove_at(&mut self, i: usize)
        requires
            old(self).wf(),
            i < old(self)@.len(),
        ensures
            final(self).wf(),
            final(self)@.len() == old(self)@.len() - 1,
            !lb_contains(final(self)@, old(self)@[i as int].0),
            forall|a2: u64, p2: u32|
                a2 != old(self)@[i as int].0 ==> (lb_has(final(self)@, a2, p2) == lb_has(
                    old(self)@,
                    a2,
                    p2,
                )),
            forall|a2: u64|
                a2 != old(self)@[i as int].0 ==> (lb_contains(final(self)@, a2) == lb_contains(
                    old(self)@,
                    a2,
                )),
    {
        let ghost s0 = self@;
        let ghost a = s0[i as int].0;
        self.entries.remove(i);
        proof {
            let s1 = self@;
            assert(s1 == s0.remove(i as int));
            assert forall|k: int, l: int| 0 <= k < l < s1.len() implies s1[k].1 >= s1[l].1
                && s1[k].0 != s1[l].0 by {
                let k0 = if k < i {
                    k
                } else {
                    k + 1
                };
                let l0 = if l < i {
                    l
                } else {
                    l + 1
                };
                assert(s1[k] == s0[k0] && s1[l] == s0[l0]);
            }
            assert forall|k: int| 0 <= k < s1.len() implies #[trigger] s1[k].0 != a by {
                let k0 = if k < i {
                    k
                } else {
                    k + 1
                };
                assert(s1[k] == s0[k0]);
            }
            assert forall|a2: u64, p2: u32| a2 != a implies (lb_has(s1, a2, p2) == lb_has(
                s0,
                a2,
                p2,
            )) by {
                if lb_has(s0, a2, p2) {
                    let k = choose|k: int| 0 <= k < s0.len() && #[trigger] s0[k] == (a2, p2);
                    assert(k != i);
                    if k < i {
                        assert(s1[k] == (a2, p2));
                    } else {
                        assert(s1[k - 1] == (a2, p2));
                    }
                    assert(lb_has(s1, a2, p2));
                }
                if lb_has(s1, a2, p2) {
                    let k = choose|k: int| 0 <= k < s1.len() && #[trigger] s1[k] == (a2, p2);
                    let k0 = if k < i {
                        k
                    } else {
                        k + 1
                    };
                    assert(s0[k0] == (a2, p2));
                    assert(lb_has(s0, a2, p2));
                }
            }
            assert forall|a2: u64| a2 != a implies (lb_contains(s1, a2) == lb_contains(s0, a2)) by {
                if lb_contains(s0, a2) {
                    let k = choose|k: int| 0 <= k < s0.len() && #[trigger] s0[k].0 == a2;
                    assert(k != i);
                    if k < i {
                        assert(s1[k].0 == a2);
                    } else {
                        assert(s1[k - 1].0 == a2);
                    }
                    assert(lb_contains(s1, a2));
                }
                if lb_contains(s1, a2) {
                    let k = choose|k: int| 0 <= k < s1.len() && #[trigger] s1[k].0 == a2;
                    let k0 = if k < i {
                        k
                    } else {
                        k + 1
                    };
                    assert(s0[k0].0 == a2);
                    assert(lb_contains(s0, a2));
                }
            }
        }
    }

    /// Records that `account` now scores `new_points`.
    ///
    /// An existing entry is re-scored and re-ranked.  An absent account
    /// enters only with positive points and only if the table is not
    /// yet full or its points beat the current minimum, evicting the
    /// minimum when the table is full.  Otherwise nothing changes.
    pub fn update(&mut self, account: u64, new_points: u32)
        requires
            old(self).wf(),
        ensures
            final(self).wf(),
            lb_updated(old(self)@, final(self)@, account, new_points),
    {
        match self.find(account) {
            Some(i) => {
                proof {
                    assert(lb_contains(self@, account)) by {
                        assert(self@[i as int].0 == account);
                    }
                }
                self.remove_at(i);
                self.insert_sorted(account, new_points);
            },
            None => {
                if new_points > 0 {
                    if self.entries.len() < LEADERBOARD_LIMIT {
                        self.insert_sorted(account, new_points);
                    } else {
                        let last = self.entries[self.entries.len() - 1];
                        if new_points > last.1 {
                            proof {
                                if self@.last().0 == account {
                                    assert(lb_contains(self@, account));
                                }
                            }
                            self.remove_at(self.entries.len() - 1);
                            self.insert_sorted(account, new_points);
                        }
                    }
                }
            },
        }
    }
}

} // verus!
