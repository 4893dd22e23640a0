//! The authoritative registry of blocked grid cells and the reservation
//! protocol built on top of it.
//!
//! The occupancy map is the shared set of cells actors may not move into:
//! static scenery marked once at level start, plus the cells live actors
//! currently reserve. The reservation protocol arbitrates which actor may
//! claim which cell: a claim succeeds only on an unblocked cell, and a
//! release by the holding actor is the only way a reservation is undone.

use vstd::prelude::*;
use crate::grid::GridCell;

verus! {

/// The set of grid cells currently marked blocked. Pure set semantics: no
/// notification, no broadcast, idempotent marking.
pub struct OccupancyMap {
    cells: Vec<GridCell>,
}

impl View for OccupancyMap {
    type V = Set<GridCell>;

    /// The abstract set of blocked cells.
    closed spec fn view(&self) -> Set<GridCell> {
        Set::new(|c: GridCell| self.cells@.contains(c))
    }
}

impl OccupancyMap {
    /// The backing vector lists each blocked cell exactly once.
    pub closed spec fn wf(&self) -> bool {
        forall|i: int, j: int|
            0 <= i < j < self.cells@.len() ==> self.cells@[i] != self.cells@[j]
    }

    /// An empty map: no cell is blocked.
    pub fn new() -> (m: OccupancyMap)
        ensures
            m.wf(),
            m@ == Set::<GridCell>::empty(),
    {
        let m = OccupancyMap { cells: Vec::new() };
        proof {
            assert(m@ =~= Set::<GridCell>::empty());
        }
        m
    }

    /// Index of `cell` in the backing vector, if present.
    fn find(&self, cell: GridCell) -> (r: Option<usize>)
        ensures
            match r {
                Some(i) => i < self.cells@.len() && self.cells@[i as int] == cell,
                None => !self.cells@.contains(cell),
            },
    {
        let mut i: usize = 0;
        while i < self.cells.len()
            invariant
                i <= self.cells@.len(),
                forall|j: int| 0 <= j < i ==> self.cells@[j] != cell,
            decreases self.cells@.len() - i,
        {
            if self.cells[i] == cell {
                return Some(i);
            }
            i += 1;
        }
        None
    }

    /// Whether `cell` is currently blocked.
    pub fn is_blocked(&self, cell: GridCell) -> (b: bool)
        ensures
            b == self@.contains(cell),
    {
        self.find(cell).is_some()
    }

    /// The blocked cells, one each, for callers that must walk them.
    pub fn to_vec(&self) -> (r: Vec<GridCell>)
        ensures
            forall|c: GridCell| r@.contains(c) == self@.contains(c),
    {
        let mut r: Vec<GridCell> = Vec::new();
        let mut i: usize = 0;
        while i < self.cells.len()
            invariant
                i <= self.cells@.len(),
                r@ == self.cells@.take(i as int),
            decreases self.cells@.len() - i,
        {
            r.push(self.cells[i]);
            proof {
                assert(r@ =~= self.cells@.take(i as int + 1));
            }
            i += 1;
        }
        proof {
            assert(r@ =~= self.cells@);
        }
        r
    }

    /// Marks or unmarks `cell` as blocked. Idempotent: setting the state a
    /// cell already has changes nothing.
    pub fn set_blocked(&mut self, cell: GridCell, blocked: bool)
        requires
            old(self).wf(),
        ensures
            final(self).wf(),
            blocked ==> final(self)@ == old(self)@.insert(cell),
            !blocked ==> final(self)@ == old(self)@.remove(cell),
    {
        let found = self.find(cell);
        if blocked {
            match found {
                Some(i) => {
                    proof {
                        assert(self.cells@[i as int] == cell);
                        assert(self.cells@.contains(cell));
                        assert(self@ =~= old(self)@.insert(cell));
                    }
                },
                None => {
                    self.cells.push(cell);
                    proof {
                        let pre = old(self).cells@;
                        let post = self.cells@;
                        assert(post[pre.len() as int] == cell);
                        assert forall|c: GridCell| post.contains(c)
                            implies pre.contains(c) || c == cell by {
                            let k = choose|k: int| 0 <= k < post.len() && post[k] == c;
                            if k < pre.len() {
                                assert(pre[k] == c);
                            }
                        }
                        assert forall|c: GridCell| pre.contains(c) implies post.contains(c) by {
                            let k = choose|k: int| 0 <= k < pre.len() && pre[k] == c;
                            assert(post[k] == c);
                        }
                        assert(self@ =~= old(self)@.insert(cell));
                        assert forall|a: int, b: int| 0 <= a < b < post.len()
                            implies post[a] != post[b] by {
                            if b == pre.len() {
                                assert(post[a] == pre[a]);
                                assert(!pre.contains(cell));
                            }
                        }
                    }
                },
            }
        } else {
            match found {
                Some(i) => {
                    self.cells.remove(i);
                    proof {
                        let pre = old(self).cells@;
                        let post = self.cells@;
                        assert forall|c: GridCell| post.contains(c) implies pre.contains(c)
                            && c != cell by {
                            let k = choose|k: int| 0 <= k < post.len() && post[k] == c;
                            if k < i {
                                assert(pre[k] == c);
                            } else {
                                assert(pre[k + 1] == c);
                            }
                        }
                        assert forall|c: GridCell| pre.contains(c) && c != cell
                            implies post.contains(c) by {
                            let k = choose|k: int| 0 <= k < pre.len() && pre[k] == c;
                            if k < i {
                                assert(post[k] == c);
                            } else {
                                assert(pre[i as int] == cell);
                                assert(k != i);
                                assert(post[k - 1] == c);
                            }
                        }
                        assert(self@ =~= old(self)@.remove(cell));
                    }
                },
                None => {
                    proof {
                        assert(self@ =~= old(self)@.remove(cell));
                    }
                },
            }
        }
    }
}

/// An exclusive, actor-held claim on a cell.
#[derive(Clone, Copy, PartialEq, Eq, Structural, Debug)]
pub struct Reservation {
    pub actor: u64,
    pub cell: GridCell,
}

/// The abstract state of the reservation ledger: the blocked set and, for
/// each reserved cell, the one actor holding it.
pub struct ReservationModel {
    pub blocked: Set<GridCell>,
    pub holder: Map<GridCell, u64>,
}

/// A claim on `cell` is admissible exactly when the cell is not blocked.
pub open spec fn reserve_allowed(m: ReservationModel, cell: GridCell) -> bool {
    !m.blocked.contains(cell)
}

/// Effect of a successful claim: the cell becomes blocked and `actor`
/// becomes its holder.
pub open spec fn reserve_step(m: ReservationModel, actor: u64, cell: GridCell) -> ReservationModel {
    ReservationModel { blocked: m.blocked.insert(cell), holder: m.holder.insert(cell, actor) }
}

/// Effect of a release: only the holding actor's release unblocks the cell
/// and drops the claim; any other release changes nothing.
pub open spec fn release_step(m: ReservationModel, actor: u64, cell: GridCell) -> ReservationModel {
    if m.holder.contains_pair(cell, actor) {
        ReservationModel { blocked: m.blocked.remove(cell), holder: m.holder.remove(cell) }
    } else {
        m
    }
}

/// Reservation exclusivity: while an actor holds an unreleased claim on a
/// cell, that actor is recorded as the cell's only holder, and any further
/// claim on the cell — by any actor — is refused. Together with the
/// `request_reserve` contract, a refused claim also leaves the ledger
/// unchanged.
pub proof fn lemma_reservation_exclusive(
    m: ReservationModel,
    first: u64,
    second: u64,
    cell: GridCell,
)
    requires
        reserve_allowed(m, cell),
    ensures
        reserve_step(m, first, cell).holder.contains_pair(cell, first),
        !reserve_allowed(reserve_step(m, first, cell), cell),
{
}

/// Release idempotence: releasing a cell twice in succession has the same
/// effect as releasing it once, and releasing a cell the actor does not
/// hold changes nothing at all.
pub proof fn lemma_release_idempotent(m: ReservationModel, actor: u64, cell: GridCell)
    ensures
        release_step(release_step(m, actor, cell), actor, cell) == release_step(m, actor, cell),
        !m.holder.contains_pair(cell, actor) ==> release_step(m, actor, cell) == m,
{
}

/// The owner of the shared occupancy data: static obstacles plus the live
/// actors' reservations, with the protocol that arbitrates claims.
pub struct TileMapManager {
    occupied: OccupancyMap,
    reservations: Vec<Reservation>,
}

impl TileMapManager {
    /// Cells reserved by actors are listed once each, and every reserved
    /// cell is blocked.
    pub closed spec fn wf(&self) -> bool {
        &&& self.occupied.wf()
        &&& forall|i: int, j: int|
            0 <= i < j < self.reservations@.len()
                ==> self.reservations@[i].cell != self.reservations@[j].cell
        &&& forall|i: int|
            0 <= i < self.reservations@.len()
                ==> self.occupied@.contains(#[trigger] self.reservations@[i].cell)
    }

    /// The set of currently blocked cells.
    pub closed spec fn blocked(&self) -> Set<GridCell> {
        self.occupied@
    }

    /// Index of the reservation on `c`, if any.
    spec fn holder_index(&self, c: GridCell) -> int {
        choose|i: int| 0 <= i < self.reservations@.len() && self.reservations@[i].cell == c
    }

    /// The holder of each reserved cell.
    pub closed spec fn holder(&self) -> Map<GridCell, u64> {
        Map::new(
            |c: GridCell| exists|i: int|
                0 <= i < self.reservations@.len() && (#[trigger] self.reservations@[i]).cell == c,
            |c: GridCell| self.reservations@[self.holder_index(c)].actor,
        )
    }

    /// The abstract ledger state.
    pub open spec fn model(&self) -> ReservationModel {
        ReservationModel { blocked: self.blocked(), holder: self.holder() }
    }

    /// Every cell a live actor reserves stays in the blocked set while the
    /// reservation is held.
    pub proof fn lemma_reserved_cells_blocked(&self)
        requires
            self.wf(),
        ensures
            forall|c: GridCell|
                self.holder().dom().contains(c) ==> #[trigger] self.blocked().contains(c),
    {
        assert forall|c: GridCell| self.holder().dom().contains(c)
            implies #[trigger] self.blocked().contains(c) by {
            let i = choose|i: int|
                0 <= i < self.reservations@.len() && (#[trigger] self.reservations@[i]).cell == c;
            assert(self.occupied@.contains(self.reservations@[i].cell));
        }
    }

    /// A fresh ledger: nothing blocked, nothing held.
    pub fn new() -> (m: TileMapManager)
        ensures
            m.wf(),
            m.model().blocked == Set::<GridCell>::empty(),
            m.model().holder == Map::<GridCell, u64>::empty(),
    {
        let m = TileMapManager { occupied: OccupancyMap::new(), reservations: Vec::new() };
        proof {
            assert(m.model().holder =~= Map::<GridCell, u64>::empty());
        }
        m
    }

    /// Whether `cell` is currently blocked (a static obstacle or a live
    /// reservation).
    pub fn is_blocked(&self, cell: GridCell) -> (b: bool)
        ensures
            b == self.blocked().contains(cell),
    {
        self.occupied.is_blocked(cell)
    }

    /// The blocked cells, one each: what a mirror of the occupancy state
    /// (the engine's path grid) must mark solid.
    pub fn blocked_cells(&self) -> (r: Vec<GridCell>)
        ensures
            forall|c: GridCell| r@.contains(c) == self.blocked().contains(c),
    {
        self.occupied.to_vec()
    }

    /// Marks `cell` as a static obstacle: blocked for the lifetime of the
    /// level, held by no actor.
    pub fn mark_static(&mut self, cell: GridCell)
        requires
            old(self).wf(),
        ensures
            final(self).wf(),
            final(self).blocked() == old(self).blocked().insert(cell),
            final(self).holder() == old(self).holder(),
    {
        self.occupied.set_blocked(cell, true);
        proof {
            assert(self.holder() =~= old(self).holder());
        }
    }

    /// Marks every listed cell as a static obstacle: the tiles of the
    /// foreground scenery, blocked once at level start and never unmarked.
    #[verifier::loop_isolation(false)]
    pub fn update_pathfinding(&mut self, tiles: &Vec<GridCell>)
        requires
            old(self).wf(),
        ensures
            final(self).wf(),
            final(self).blocked() == old(self).blocked().union(tiles@.to_set()),
            final(self).holder() == old(self).holder(),
    {
        let mut i: usize = 0;
        while i < tiles.len()
            invariant
                i <= tiles@.len(),
                self.wf(),
                self.holder() == old(self).holder(),
                self.blocked() == old(self).blocked().union(tiles@.take(i as int).to_set()),
            decreases tiles@.len() - i,
        {
            let ghost pre = self.blocked();
            self.mark_static(tiles[i]);
            proof {
                let t = tiles@;
                let k = i as int;
                assert forall|c: GridCell| t.take(k + 1).to_set().contains(c)
                    implies t.take(k).to_set().contains(c) || c == t[k] by {
                    let j = choose|j: int| 0 <= j < t.take(k + 1).len() && #[trigger] t.take(k + 1)[j] == c;
                    if j < k {
                        assert(t.take(k)[j] == c);
                    }
                }
                assert forall|c: GridCell| t.take(k).to_set().contains(c)
                    implies t.take(k + 1).to_set().contains(c) by {
                    let j = choose|j: int| 0 <= j < t.take(k).len() && #[trigger] t.take(k)[j] == c;
                    assert(t.take(k + 1)[j] == c);
                }
                assert(t.take(k + 1)[k] == t[k]);
                assert(self.blocked()
                    =~= old(self).blocked().union(t.take(k + 1).to_set()));
            }
            i += 1;
        }
        proof {
            assert(tiles@.take(tiles@.len() as int) =~= tiles@);
        }
    }

    /// Index of the reservation held by `actor_id` on `cell`, if any.
    fn find_reservation(&self, actor_id: u64, cell: GridCell) -> (r: Option<usize>)
        ensures
            match r {
                Some(i) => i < self.reservations@.len()
                    && self.reservations@[i as int] == (Reservation { actor: actor_id, cell }),
                None => forall|j: int|
                    0 <= j < self.reservations@.len()
                        ==> self.reservations@[j] != (Reservation { actor: actor_id, cell }),
            },
    {
        let mut i: usize = 0;
        while i < self.reservations.len()
            invariant
                i <= self.reservations@.len(),
                forall|j: int|
                    0 <= j < i ==> self.reservations@[j] != (Reservation { actor: actor_id, cell }),
            decreases self.reservations@.len() - i,
        {
            let r = self.reservations[i];
            if r.actor == actor_id && r.cell == cell {
                return Some(i);
            }
            i += 1;
        }
        None
    }

    /// The handshake by which an actor claims a destination cell. Succeeds,
    /// blocks the cell and records the claim only when the cell is not
    /// already blocked; otherwise fails and changes nothing. This admission
    /// check is the sole arbiter of whether a move may begin.
    pub fn request_reserve(&mut self, actor_id: u64, cell: GridCell) -> (r: bool)
        requires
            old(self).wf(),
        ensures
            final(self).wf(),
            r == reserve_allowed(old(self).model(), cell),
            r ==> final(self).model() == reserve_step(old(self).model(), actor_id, cell),
            !r ==> final(self).model() == old(self).model(),
    {
        if self.occupied.is_blocked(cell) {
            return false;
        }
        proof {
            // An unblocked cell is reserved by nobody.
            assert(forall|i: int|
                0 <= i < self.reservations@.len()
                    ==> (#[trigger] self.reservations@[i]).cell != cell);
        }
        self.occupied.set_blocked(cell, true);
        self.reservations.push(Reservation { actor: actor_id, cell });
        proof {
            let pre = old(self).reservations@;
            let post = self.reservations@;
            assert(post[pre.len() as int] == (Reservation { actor: actor_id, cell }));
            assert forall|c: GridCell| #[trigger] self.holder().dom().contains(c)
                implies old(self).holder().insert(cell, actor_id).dom().contains(c)
                    && self.holder()[c] == old(self).holder().insert(cell, actor_id)[c] by {
                let k = choose|k: int| 0 <= k < post.len() && (#[trigger] post[k]).cell == c;
                let h = self.holder_index(c);
                assert(post[h].cell == c);
                if c == cell {
                    assert(h == pre.len());
                } else {
                    assert(k < pre.len());
                    assert(pre[h].cell == c);
                    assert(old(self).holder_index(c) == h);
                }
            }
            assert forall|c: GridCell|
                #[trigger] old(self).holder().insert(cell, actor_id).dom().contains(c)
                implies self.holder().dom().contains(c) by {
                if c != cell {
                    let k = choose|k: int| 0 <= k < pre.len() && (#[trigger] pre[k]).cell == c;
                    assert(post[k].cell == c);
                }
            }
            assert(self.holder() =~= old(self).holder().insert(cell, actor_id));
        }
        true
    }

    /// Releases the claim `actor_id` holds on `cell`, unblocking it.
    /// Idempotent: releasing a cell the actor does not hold (already
    /// released, or never claimed) is a silent no-op.
    pub fn release(&mut self, actor_id: u64, cell: GridCell)
        requires
            old(self).wf(),
        ensures
            final(self).wf(),
            final(self).model() == release_step(old(self).model(), actor_id, cell),
    {
        match self.find_reservation(actor_id, cell) {
            Some(i) => {
                proof {
                    assert(self.reservations@[i as int].cell == cell);
                    assert(self.holder_index(cell) == i as int);
                    assert(self.holder().contains_pair(cell, actor_id));
                }
                self.reservations.remove(i);
                self.occupied.set_blocked(cell, false);
                proof {
                    let pre = old(self).reservations@;
                    let post = self.reservations@;
                    assert forall|a: int, b: int| 0 <= a < b < post.len()
                        implies post[a].cell != post[b].cell by {
                        if b < i {
                        } else if a < i {
                            assert(post[b] == pre[b + 1]);
                        } else {
                            assert(post[a] == pre[a + 1]);
                            assert(post[b] == pre[b + 1]);
                        }
                    }
                    assert forall|c: GridCell| #[trigger] self.holder().dom().contains(c)
                        implies old(self).holder().remove(cell).dom().contains(c)
                            && self.holder()[c] == old(self).holder().remove(cell)[c] by {
                        let k = choose|k: int| 0 <= k < post.len() && (#[trigger] post[k]).cell == c;
                        let kp: int = if k < i { k } else { k + 1 };
                        assert(pre[kp] == post[k]);
                        assert(c != cell);
                        let h = self.holder_index(c);
                        assert(post[h].cell == c);
                        let hp: int = if h < i { h } else { h + 1 };
                        assert(pre[hp] == post[h]);
                        assert(old(self).holder_index(c) == hp);
                    }
                    assert forall|c: GridCell|
                        #[trigger] old(self).holder().remove(cell).dom().contains(c)
                        implies self.holder().dom().contains(c) by {
                        let k = choose|k: int| 0 <= k < pre.len() && (#[trigger] pre[k]).cell == c;
                        assert(c != cell);
                        assert(k != i);
                        if k < i {
                            assert(post[k].cell == c);
                        } else {
                            assert(post[k - 1] == pre[k]);
                        }
                    }
                    assert(self.holder() =~= old(self).holder().remove(cell));
                }
            },
            None => {
                proof {
                    // Nobody, or another actor, holds the cell: the ledger
                    // is untouched and the step is specified as a no-op.
                    if self.holder().contains_pair(cell, actor_id) {
                        let h = self.holder_index(cell);
                        assert(self.reservations@[h]
                            == (Reservation { actor: actor_id, cell }));
                    }
                }
            },
        }
    }
}

} // verus!

