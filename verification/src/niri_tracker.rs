//! Window de-duplication: the set of window ids the daemon has already
//! processed an "opened" notification for. An id is known exactly while the
//! window is believed to exist; a full resync replaces the whole set, and a
//! close notification removes exactly the closed id.

use vstd::prelude::*;

use crate::compositor::Window;

verus! {

/// The ids of `windows`, in order.
pub open spec fn spec_window_ids(windows: Seq<Window>) -> Seq<u64> {
    windows.map_values(|w: Window| w.id)
}

/// The known ids with every occurrence of `id` removed, order kept.
pub open spec fn spec_forget_id(ids: Seq<u64>, id: u64) -> Seq<u64> {
    ids.filter(|x: u64| x != id)
}

/// Tracks the known window ids.
pub struct NiriTracker {
    window_ids: Vec<u64>,
}

impl View for NiriTracker {
    type V = Seq<u64>;

    closed spec fn view(&self) -> Seq<u64> {
        self.window_ids@
    }
}

impl NiriTracker {
    /// A tracker that knows no window yet.
    pub fn new() -> (tracker: NiriTracker)
        ensures
            tracker@ == Seq::<u64>::empty(),
    {
        NiriTracker { window_ids: Vec::new() }
    }

    /// Whether `id` is already known.
    fn knows_id(&self, id: u64) -> (known: bool)
        ensures
            known == self@.contains(id),
    {
        let n = self.window_ids.len();
        let mut i: usize = 0;
        while i < n
            invariant
                i <= n,
                n == self@.len(),
                forall|j: int| 0 <= j < i ==> self@[j] != id,
            decreases n - i,
        {
            if self.window_ids[i] == id {
                return true;
            }
            i = i + 1;
        }
        false
    }

    /// Replaces the whole known-id set with the ids in `windows`: the
    /// recovery path after any missed-event gap. After a resync with an
    /// empty list, every previously known id is unknown again.
    pub fn update_windows(&mut self, windows: &Vec<Window>)
        ensures
            final(self)@ == spec_window_ids(windows@),
    {
        self.window_ids.clear();
        let n = windows.len();
        let mut i: usize = 0;
        while i < n
            invariant
                i <= n,
                n == windows@.len(),
                self@.len() == i,
                forall|j: int| 0 <= j < i ==> self@[j] == windows@[j].id,
            decreases n - i,
        {
            self.window_ids.push(windows[i].id);
            i = i + 1;
        }
        assert(self@ =~= spec_window_ids(windows@));
    }

    /// The de-duplication gate: records `window`'s id and reports true when
    /// the id was not yet known; reports false, with no change, when it was.
    /// True comes back exactly once per id until the id is forgotten by
    /// [`Self::unregister_window`] or dropped by a resync.
    pub fn register_window(&mut self, window: &Window) -> (fresh: bool)
        ensures
            fresh == !old(self)@.contains(window.id),
            fresh ==> final(self)@ == old(self)@.push(window.id),
            !fresh ==> *final(self) == *old(self),
            final(self)@.contains(window.id),
    {
        if !self.knows_id(window.id) {
            self.window_ids.push(window.id);
            assert(self@[self@.len() - 1] == window.id);
            true
        } else {
            false
        }
    }

    /// Forgets `id` on a close notification: every occurrence of exactly
    /// that id is removed and no other id is touched.
    pub fn unregister_window(&mut self, id: &u64)
        ensures
            final(self)@ == spec_forget_id(old(self)@, *id),
            !final(self)@.contains(*id),
    {
        let target: u64 = *id;
        let ghost orig: Seq<u64> = self.window_ids@;
        let n = self.window_ids.len();
        let mut kept: Vec<u64> = Vec::new();
        let mut i: usize = 0;
        proof {
            reveal(Seq::filter);
            assert(orig.take(0) =~= Seq::<u64>::empty());
        }
        while i < n
            invariant
                i <= n,
                n == orig.len(),
                self.window_ids@ == orig,
                kept@ == spec_forget_id(orig.take(i as int), target),
            decreases n - i,
        {
            let ghost prefix: Seq<u64> = orig.take(i as int);
            let value = self.window_ids[i];
            if value != target {
                kept.push(value);
            }
            proof {
                reveal(Seq::filter);
                assert(orig.take(i as int + 1).drop_last() =~= prefix);
                assert(orig.take(i as int + 1).last() == orig[i as int]);
            }
            i = i + 1;
        }
        self.window_ids = kept;
        proof {
            assert(orig.take(n as int) =~= orig);
            lemma_forget_removes_id(orig, target);
        }
    }
}

/// Law: forgetting an id removes it entirely — no occurrence of the id
/// survives in the known set.
pub proof fn lemma_forget_removes_id(ids: Seq<u64>, id: u64)
    ensures
        !spec_forget_id(ids, id).contains(id),
    decreases ids.len(),
{
    reveal(Seq::filter);
    if ids.len() > 0 {
        lemma_forget_removes_id(ids.drop_last(), id);
        let sub = spec_forget_id(ids.drop_last(), id);
        let result = spec_forget_id(ids, id);
        if result.contains(id) {
            let j = choose|j: int| 0 <= j < result.len() && result[j] == id;
            if ids.last() != id {
                if j < sub.len() {
                    assert(sub.contains(id));
                } else {
                    assert(result[j] == ids.last());
                }
            } else {
                assert(sub[j] == id);
                assert(sub.contains(id));
            }
        }
    }
}

/// Law: a resync alone decides which ids are known afterwards — an id is
/// known after it exactly when one of the listed windows carries it. In
/// particular, after a resync with an empty list every id is unknown again.
pub proof fn lemma_resync_decides_known_ids(windows: Seq<Window>, id: u64)
    ensures
        spec_window_ids(windows).contains(id) <==> (exists|i: int|
            0 <= i < windows.len() && windows[i].id == id),
{
    if spec_window_ids(windows).contains(id) {
        let j = choose|j: int|
            0 <= j < spec_window_ids(windows).len() && spec_window_ids(windows)[j] == id;
        assert(windows[j].id == id);
    }
    if exists|i: int| 0 <= i < windows.len() && windows[i].id == id {
        let j = choose|j: int| 0 <= j < windows.len() && windows[j].id == id;
        assert(spec_window_ids(windows)[j] == id);
    }
}

/// Law: the de-duplication gate reports a fresh id exactly once — after a
/// registration the id is known, so a second registration of the same id
/// reports stale; forgetting the id clears it, so a registration after that
/// reports fresh again.
pub proof fn lemma_register_reports_fresh_once(ids: Seq<u64>, id: u64)
    ensures
        ids.push(id).contains(id),
        !spec_forget_id(ids, id).contains(id),
{
    assert(ids.push(id)[ids.len() as int] == id);
    lemma_forget_removes_id(ids, id);
}

} // verus!
