use vstd::prelude::*;
use vstd::set_lib::{lemma_int_range, lemma_len_subset, set_int_range};

use crate::engine::{Size, ViewId, ViewNotFound};
use crate::image::{frame_len, is_blank, ImageInfo};
use crate::mouse::Point;

verus! {

/// Relies on rand::random: a value drawn from the thread-local generator;
/// nothing is known of which.
pub assume_specification<T>[ rand::random::<T> ]() -> (r: T)
    where
        rand::distributions::Standard: rand::distributions::Distribution<T>,
;

/// What a backend keeps for one view besides its native handle.
pub struct ViewRecord<H> {
    pub id: ViewId,
    pub handle: H,
    /// Last captured frame.
    pub last_frame: ImageInfo,
    /// Set while a navigation is in flight, so that its end is captured.
    pub was_loading: bool,
    /// Last known pointer position, replayed after every paint.
    pub pointer: Point,
}

/// A backend's views, each found by its id.
pub struct ViewTable<H> {
    views: Vec<ViewRecord<H>>,
}

/// Whether a view must be captured in a render pass: it asked for a paint,
/// or a load it was waiting for has finished.
pub open spec fn must_capture(needs_paint: bool, was_loading: bool, is_loading: bool) -> bool {
    needs_paint || (was_loading && !is_loading)
}

/// Decides whether a view must be captured in a render pass.
pub fn needs_capture(needs_paint: bool, was_loading: bool, is_loading: bool) -> (r: bool)
    ensures
        r == must_capture(needs_paint, was_loading, is_loading),
{
    needs_paint || (was_loading && !is_loading)
}

/// No id of `ids` below `n` is missing, so `n` cannot exceed their count.
proof fn lemma_no_room(ids: Seq<ViewId>, n: nat)
    requires
        forall|k: ViewId| k < n ==> #[trigger] ids.contains(k),
        n <= usize::MAX + 1,
    ensures
        n <= ids.len(),
{
    let s = ids.map_values(|v: ViewId| v as int);
    let r = set_int_range(0, n as int);
    lemma_int_range(0, n as int);
    assert forall|k: int| r.contains(k) implies s.to_set().contains(k) by {
        assert(ids.contains(k as ViewId));
        let j = choose|j: int| 0 <= j < ids.len() && ids[j] == k as ViewId;
        assert(s[j] == k);
    }
    s.lemma_cardinality_of_set();
    lemma_len_subset(r, s.to_set());
}

/// Appending a new id keeps ids distinct and adds it to their set.
pub proof fn lemma_push_id(before: Seq<ViewId>, id: ViewId)
    requires
        before.no_duplicates(),
        !before.contains(id),
    ensures
        before.push(id).no_duplicates(),
        before.push(id).to_set() == before.to_set().insert(id),
{
    let after = before.push(id);
    assert forall|a: int, b: int|
        0 <= a < after.len() && 0 <= b < after.len() && a != b implies after[a] != after[b] by {
        if a < before.len() && b < before.len() {
            assert(before[a] != before[b]);
        } else if a < before.len() {
            assert(before.contains(before[a]));
        } else if b < before.len() {
            assert(before.contains(before[b]));
        }
    }
    before.lemma_push_to_set_commute(id);
}

/// Removing the id at position `i` keeps ids distinct and takes exactly
/// that id out of their set.
pub proof fn lemma_remove_id(before: Seq<ViewId>, i: int)
    requires
        before.no_duplicates(),
        0 <= i < before.len(),
    ensures
        before.remove(i).no_duplicates(),
        before.remove(i).to_set() == before.to_set().remove(before[i]),
{
    let after = before.remove(i);
    assert forall|a: int, b: int|
        0 <= a < after.len() && 0 <= b < after.len() && a != b implies after[a] != after[b] by {
        let a0 = if a < i { a } else { a + 1 };
        let b0 = if b < i { b } else { b + 1 };
        assert(after[a] == before[a0]);
        assert(after[b] == before[b0]);
    }
    assert forall|x: ViewId| #[trigger]
        after.to_set().contains(x) <==> (before.to_set().contains(x) && x != before[i]) by {
        if before.to_set().contains(x) && x != before[i] {
            let k = choose|k: int| 0 <= k < before.len() && before[k] == x;
            let k2 = if k < i { k } else { k - 1 };
            assert(after[k2] == x);
        }
        if after.to_set().contains(x) {
            let k = choose|k: int| 0 <= k < after.len() && after[k] == x;
            let k0 = if k < i { k } else { k + 1 };
            assert(before[k0] == x);
            assert(k0 != i);
        }
    }
    assert(after.to_set() =~= before.to_set().remove(before[i]));
}

/// The entry, marked as loading if it has the given id.
pub open spec fn with_loading<H>(a: ViewRecord<H>, id: ViewId) -> ViewRecord<H> {
    ViewRecord {
        id: a.id,
        handle: a.handle,
        last_frame: a.last_frame,
        was_loading: a.was_loading || a.id == id,
        pointer: a.pointer,
    }
}

/// The entry, with the pointer at `p` if it has the given id.
pub open spec fn with_pointer<H>(a: ViewRecord<H>, id: ViewId, p: Point) -> ViewRecord<H> {
    ViewRecord {
        id: a.id,
        handle: a.handle,
        last_frame: a.last_frame,
        was_loading: a.was_loading,
        pointer: if a.id == id {
            p
        } else {
            a.pointer
        },
    }
}

impl<H> ViewTable<H> {
    /// The entries, in order of creation.
    pub closed spec fn entries(&self) -> Seq<ViewRecord<H>> {
        self.views@
    }

    /// The ids of the entries, in order of creation.
    pub open spec fn ids(&self) -> Seq<ViewId> {
        self.entries().map_values(|e: ViewRecord<H>| e.id)
    }

    /// No id is held twice.
    pub open spec fn wf(&self) -> bool {
        self.ids().no_duplicates()
    }

    /// An empty table.
    pub fn new() -> (r: Self)
        ensures
            r.entries() == Seq::<ViewRecord<H>>::empty(),
            r.wf(),
    {
        ViewTable { views: Vec::new() }
    }

    /// Number of views.
    pub fn len(&self) -> (r: usize)
        ensures
            r == self.entries().len(),
    {
        self.views.len()
    }

    /// Position of the view with the given id.
    pub fn position(&self, id: ViewId) -> (r: Option<usize>)
        ensures
            match r {
                Some(i) => i < self.entries().len() && self.entries()[i as int].id == id,
                None => !self.ids().contains(id),
            },
    {
        let mut i: usize = 0;
        while i < self.views.len()
            invariant
                i <= self.views@.len(),
                forall|k: int| 0 <= k < i ==> self.views@[k].id != id,
            decreases self.views@.len() - i,
        {
            if self.views[i].id == id {
                return Some(i);
            }
            i = i + 1;
        }
        proof {
            if self.ids().contains(id) {
                let k = choose|k: int| 0 <= k < self.ids().len() && self.ids()[k] == id;
                assert(self.views@[k].id == id);
            }
        }
        None
    }

    /// Whether the table holds a view with this id.
    pub fn contains(&self, id: ViewId) -> (r: bool)
        ensures
            r == self.ids().contains(id),
    {
        match self.position(id) {
            Some(i) => {
                assert(self.ids()[i as int] == id);
                true
            },
            None => false,
        }
    }

    /// An id no view holds: `draw` where it is free, else the least free id.
    pub fn fresh_id(&self, draw: ViewId) -> (r: ViewId)
        ensures
            !self.ids().contains(r),
            !self.ids().contains(draw) ==> r == draw,
            self.ids().contains(draw) ==> forall|k: ViewId| k < r ==> self.ids().contains(k),
    {
        if !self.contains(draw) {
            return draw;
        }
        let n = self.views.len();
        let mut k: usize = 0;
        loop
            invariant
                n == self.ids().len(),
                k <= n,
                self.ids().contains(draw),
                forall|j: ViewId| j < k ==> self.ids().contains(j),
            decreases n - k,
        {
            if !self.contains(k) {
                return k;
            }
            proof {
                assert forall|j: ViewId| j < k + 1 implies #[trigger] self.ids().contains(j) by {
                    if j < k {
                        assert(self.ids().contains(j));
                    }
                }
                lemma_no_room(self.ids(), (k + 1) as nat);
            }
            k = k + 1;
        }
    }

    /// Adds a view with a fresh id, a blank frame of the given size and a
    /// load in flight; returns the id.
    pub fn insert_with(&mut self, handle: H, size: Size, draw: ViewId) -> (id: ViewId)
        requires
            old(self).wf(),
            frame_len(size.width, size.height) <= usize::MAX,
        ensures
            final(self).wf(),
            !old(self).ids().contains(id),
            !old(self).ids().contains(draw) ==> id == draw,
            final(self).entries().len() == old(self).entries().len() + 1,
            final(self).entries().drop_last() == old(self).entries(),
            final(self).entries().last().id == id,
            final(self).entries().last().handle == handle,
            final(self).entries().last().was_loading,
            final(self).entries().last().pointer == (Point { x: 0, y: 0 }),
            is_blank(final(self).entries().last().last_frame@, size.width, size.height),
    {
        let id = self.fresh_id(draw);
        let entry = ViewRecord {
            id,
            handle,
            last_frame: ImageInfo::blank(size.width, size.height),
            was_loading: true,
            pointer: Point { x: 0, y: 0 },
        };
        let ghost before = self.views@;
        self.views.push(entry);
        proof {
            assert(self.views@.drop_last() =~= before);
            assert(self.ids() =~= old(self).ids().push(id));
            lemma_push_id(old(self).ids(), id);
        }
        id
    }

    /// Adds a view under an id drawn at random, or the least free id where
    /// the draw is taken.
    pub fn insert(&mut self, handle: H, size: Size) -> (id: ViewId)
        requires
            old(self).wf(),
            frame_len(size.width, size.height) <= usize::MAX,
        ensures
            final(self).wf(),
            !old(self).ids().contains(id),
            final(self).entries().len() == old(self).entries().len() + 1,
            final(self).entries().drop_last() == old(self).entries(),
            final(self).entries().last().id == id,
            final(self).entries().last().handle == handle,
            final(self).entries().last().was_loading,
            final(self).entries().last().pointer == (Point { x: 0, y: 0 }),
            is_blank(final(self).entries().last().last_frame@, size.width, size.height),
    {
        let draw: ViewId = rand::random::<ViewId>();
        self.insert_with(handle, size, draw)
    }

    /// Removes the view with the given id and hands back its entry.
    pub fn remove(&mut self, id: ViewId) -> (r: Result<ViewRecord<H>, ViewNotFound>)
        requires
            old(self).wf(),
        ensures
            final(self).wf(),
            match r {
                Ok(e) => {
                    &&& old(self).ids().contains(id)
                    &&& e.id == id
                    &&& exists|i: int|
                        0 <= i < old(self).entries().len() && old(self).entries()[i] == e
                            && final(self).entries() == old(self).entries().remove(i)
                },
                Err(err) => {
                    &&& !old(self).ids().contains(id)
                    &&& err.id == id
                    &&& final(self).entries() == old(self).entries()
                },
            },
            !final(self).ids().contains(id),
    {
        match self.position(id) {
            None => Err(ViewNotFound { id }),
            Some(i) => {
                let ghost before = self.views@;
                let e = self.views.remove(i);
                proof {
                    assert(old(self).ids()[i as int] == id);
                    assert(self.ids() =~= old(self).ids().remove(i as int));
                    lemma_remove_id(old(self).ids(), i as int);
                    assert(!self.ids().to_set().contains(id));
                }
                Ok(e)
            },
        }
    }

    /// The entry of the view with the given id.
    pub fn get(&self, id: ViewId) -> (r: Result<&ViewRecord<H>, ViewNotFound>)
        ensures
            match r {
                Ok(e) => exists|i: int|
                    0 <= i < self.entries().len() && self.entries()[i] == *e && e.id == id,
                Err(err) => !self.ids().contains(id) && err.id == id,
            },
    {
        match self.position(id) {
            Some(i) => Ok(&self.views[i]),
            None => Err(ViewNotFound { id }),
        }
    }

    /// The entry at a position.
    pub fn entry(&self, i: usize) -> (r: &ViewRecord<H>)
        requires
            i < self.entries().len(),
        ensures
            *r == self.entries()[i as int],
    {
        &self.views[i]
    }

    /// Stores a captured frame at a position and clears its loading flag.
    pub fn store_frame_at(&mut self, i: usize, frame: ImageInfo)
        requires
            i < old(self).entries().len(),
        ensures
            final(self).entries().len() == old(self).entries().len(),
            forall|k: int|
                0 <= k < old(self).entries().len() && k != i ==> final(self).entries()[k]
                    == old(self).entries()[k],
            final(self).entries()[i as int].id == old(self).entries()[i as int].id,
            final(self).entries()[i as int].handle == old(self).entries()[i as int].handle,
            final(self).entries()[i as int].pointer == old(self).entries()[i as int].pointer,
            final(self).entries()[i as int].last_frame == frame,
            !final(self).entries()[i as int].was_loading,
            final(self).ids() == old(self).ids(),
    {
        let ghost before = self.views@;
        let mut e = self.views.remove(i);
        e.last_frame = frame;
        e.was_loading = false;
        self.views.insert(i, e);
        assert(self.ids() =~= old(self).ids());
    }

    /// Marks the view with the given id as loading.
    pub fn mark_loading(&mut self, id: ViewId) -> (r: Result<(), ViewNotFound>)
        requires
            old(self).wf(),
        ensures
            final(self).ids() == old(self).ids(),
            r is Ok <==> old(self).ids().contains(id),
            final(self).entries() == old(self).entries().map_values(
                |a: ViewRecord<H>| with_loading(a, id),
            ),
    {
        match self.position(id) {
            None => {
                proof {
                    assert forall|k: int| 0 <= k < self.views@.len() implies #[trigger] self.views@[k]
                        == with_loading(self.views@[k], id) by {
                        assert(self.ids()[k] == self.views@[k].id);
                    }
                    assert(self.entries() =~= old(self).entries().map_values(
                        |a: ViewRecord<H>| with_loading(a, id),
                    ));
                }
                Err(ViewNotFound { id })
            },
            Some(i) => {
                let mut e = self.views.remove(i);
                e.was_loading = true;
                self.views.insert(i, e);
                proof {
                    assert(old(self).ids()[i as int] == id);
                    assert forall|k: int| 0 <= k < self.views@.len() implies #[trigger] self.views@[k]
                        == with_loading(old(self).entries()[k], id) by {
                        if k != i {
                            assert(old(self).ids()[k] != old(self).ids()[i as int]);
                        }
                    }
                    assert(self.entries() =~= old(self).entries().map_values(
                        |a: ViewRecord<H>| with_loading(a, id),
                    ));
                    assert(self.ids() =~= old(self).ids());
                }
                Ok(())
            },
        }
    }

    /// Records the pointer position of the view with the given id.
    pub fn set_pointer(&mut self, id: ViewId, p: Point) -> (r: Result<(), ViewNotFound>)
        requires
            old(self).wf(),
        ensures
            final(self).ids() == old(self).ids(),
            r is Ok <==> old(self).ids().contains(id),
            final(self).entries() == old(self).entries().map_values(
                |a: ViewRecord<H>| with_pointer(a, id, p),
            ),
    {
        match self.position(id) {
            None => {
                proof {
                    assert forall|k: int| 0 <= k < self.views@.len() implies #[trigger] self.views@[k]
                        == with_pointer(self.views@[k], id, p) by {
                        assert(self.ids()[k] == self.views@[k].id);
                    }
                    assert(self.entries() =~= old(self).entries().map_values(
                        |a: ViewRecord<H>| with_pointer(a, id, p),
                    ));
                }
                Err(ViewNotFound { id })
            },
            Some(i) => {
                let mut e = self.views.remove(i);
                e.pointer = p;
                self.views.insert(i, e);
                proof {
                    assert(old(self).ids()[i as int] == id);
                    assert forall|k: int| 0 <= k < self.views@.len() implies #[trigger] self.views@[k]
                        == with_pointer(old(self).entries()[k], id, p) by {
                        if k != i {
                            assert(old(self).ids()[k] != old(self).ids()[i as int]);
                        }
                    }
                    assert(self.entries() =~= old(self).entries().map_values(
                        |a: ViewRecord<H>| with_pointer(a, id, p),
                    ));
                    assert(self.ids() =~= old(self).ids());
                }
                Ok(())
            },
        }
    }
}

} // verus!
