//! Playlists: an ordered list of tracks, a current selection, and the set of
//! row indices the user has marked.
//!
//! The marked indices follow the tracks around: removing a track shifts the
//! marks above it down, reordering carries each mark to the track's new row.
//! The contracts state membership exactly, and that no row is marked twice.

use vstd::prelude::*;
use vstd::seq_lib::*;
use crate::engine::AudioCommand;
use crate::library::{opt_str_view, LibraryItem};

verus! {

/// Does the index list hold this value?
pub open spec fn marks_contain(s: Seq<usize>, v: int) -> bool {
    exists|k: int| 0 <= k < s.len() && s[k] == v
}

/// Where a mark lands when the row `idx` disappears: rows below stay, rows
/// above move down one.
pub open spec fn remove_shift(idx: int, v: int) -> int {
    if v < idx {
        v
    } else {
        v - 1
    }
}

/// Where the track at row `i` sits after the row at `cur` moves to `dest`.
pub open spec fn reorder_map(cur: int, dest: int, i: int) -> int {
    if i == cur {
        dest
    } else if (i < cur && i < dest) || (i > cur && i > dest) {
        i
    } else if i < cur && i >= dest {
        i + 1
    } else {
        i - 1
    }
}

/// Which old row sits at row `v` after the row at `cur` moves to `dest`:
/// the inverse of `reorder_map`.
pub open spec fn reorder_unmap(cur: int, dest: int, v: int) -> int {
    if v == dest {
        cur
    } else if (v < cur && v < dest) || (v > cur && v > dest) {
        v
    } else if v >= cur && v < dest {
        v + 1
    } else {
        v - 1
    }
}

/// The two reorder maps invert each other.
proof fn lemma_reorder_maps_invert(cur: int, dest: int, i: int)
    ensures
        reorder_unmap(cur, dest, reorder_map(cur, dest, i)) == i,
        reorder_map(cur, dest, reorder_unmap(cur, dest, i)) == i,
{
}

/// A playlist: its stored identifier, its name, its tracks in order, the
/// selected track, and the marked row indices.
#[derive(Debug)]
pub struct Playlist {
    pub id: Option<i64>,
    pub name: Option<String>,
    pub tracks: Vec<LibraryItem>,
    pub selected: Option<LibraryItem>,
    pub selected_indices: Vec<usize>,
}

impl Playlist {
    /// Validity: no row is marked twice.
    pub open spec fn wf(self) -> bool {
        self.selected_indices@.no_duplicates()
    }

    /// An empty, unnamed playlist.
    pub fn new() -> (r: Playlist)
        ensures
            r.id is None,
            r.name is None,
            r.tracks@.len() == 0,
            r.selected is None,
            r.selected_indices@.len() == 0,
            r.wf(),
    {
        Playlist {
            id: None,
            name: None,
            tracks: Vec::new(),
            selected: None,
            selected_indices: Vec::new(),
        }
    }

    pub fn set_name(&mut self, name: String)
        ensures
            *final(self) == (Playlist { name: Some(name), ..*old(self) }),
    {
        self.name = Some(name);
    }

    pub fn get_name(&self) -> (r: Option<String>)
        ensures
            opt_str_view(r) == opt_str_view(self.name),
    {
        match &self.name {
            Some(n) => Some(n.clone()),
            None => None,
        }
    }

    /// Append a track at the end.
    pub fn add(&mut self, track: LibraryItem)
        ensures
            final(self).tracks@ == old(self).tracks@.push(track),
            *final(self) == (Playlist { tracks: final(self).tracks, ..*old(self) }),
    {
        self.tracks.push(track);
    }

    /// Remove the track at a row.  The row's own mark goes with it, and
    /// every mark above moves down one row, so each mark stays on its
    /// track.
    pub fn remove(&mut self, idx: usize)
        requires
            idx < old(self).tracks@.len(),
            old(self).wf(),
        ensures
            final(self).tracks@ == old(self).tracks@.remove(idx as int),
            forall|v: int|
                #[trigger] marks_contain(final(self).selected_indices@, v) == ((v < idx
                    && marks_contain(old(self).selected_indices@, v)) || (v >= idx
                    && marks_contain(old(self).selected_indices@, v + 1))),
            final(self).wf(),
            final(self).id == old(self).id,
            final(self).name == old(self).name,
            final(self).selected == old(self).selected,
    {
        self.tracks.remove(idx);
        let marks = &self.selected_indices;
        let mut kept: Vec<usize> = Vec::new();
        let mut t: usize = 0;
        while t < marks.len()
            invariant
                t <= marks@.len(),
                marks@.no_duplicates(),
                forall|k: int|
                    0 <= k < t && marks@[k] != idx ==> marks_contain(
                        kept@,
                        remove_shift(idx as int, (#[trigger] marks@[k]) as int),
                    ),
                forall|m: int|
                    0 <= m < kept@.len() ==> exists|k: int|
                        0 <= k < t && marks@[k] != idx && (#[trigger] kept@[m]) as int
                            == remove_shift(idx as int, marks@[k] as int),
                kept@.no_duplicates(),
            decreases marks@.len() - t,
        {
            let s = marks[t];
            let ghost kept0 = kept@;
            if s != idx {
                let mapped: usize = if s < idx {
                    s
                } else {
                    s - 1
                };
                proof {
                    if marks_contain(kept@, mapped as int) {
                        let m = choose|m: int| 0 <= m < kept@.len() && kept@[m] == mapped;
                        let k = choose|k: int|
                            0 <= k < t && marks@[k] != idx && kept@[m] as int == remove_shift(
                                idx as int,
                                marks@[k] as int,
                            );
                        assert(marks@[k] == marks@[t as int]);
                        assert(false);
                    }
                }
                kept.push(mapped);
                proof {
                    assert(kept@ == kept0.push(mapped));
                    assert(kept@[kept0.len() as int] as int == remove_shift(
                        idx as int,
                        marks@[t as int] as int,
                    ));
                }
            }
            proof {
                assert forall|k: int| 0 <= k < t + 1 && marks@[k] != idx implies marks_contain(
                    kept@,
                    remove_shift(idx as int, (#[trigger] marks@[k]) as int),
                ) by {
                    if k < t {
                        let m = choose|m: int|
                            0 <= m < kept0.len() && kept0[m] as int == remove_shift(
                                idx as int,
                                marks@[k] as int,
                            );
                        assert(kept@[m] == kept0[m]);
                    } else {
                        assert(kept@[kept@.len() - 1] as int == remove_shift(
                            idx as int,
                            marks@[k] as int,
                        ));
                    }
                }
                assert forall|m: int| 0 <= m < kept@.len() implies exists|k: int|
                    0 <= k < t + 1 && marks@[k] != idx && (#[trigger] kept@[m]) as int
                        == remove_shift(idx as int, marks@[k] as int) by {
                    if m < kept0.len() {
                        let k = choose|k: int|
                            0 <= k < t && marks@[k] != idx && kept0[m] as int == remove_shift(
                                idx as int,
                                marks@[k] as int,
                            );
                        assert(kept@[m] == kept0[m]);
                        assert(0 <= k < t + 1 && marks@[k] != idx && kept@[m] as int
                            == remove_shift(idx as int, marks@[k] as int));
                    } else {
                        assert(0 <= t < t + 1 && marks@[t as int] != idx && kept@[m] as int
                            == remove_shift(idx as int, marks@[t as int] as int));
                    }
                }
            }
            t = t + 1;
        }
        self.selected_indices = kept;
        proof {
            let marks0 = old(self).selected_indices@;
            assert forall|v: int|
                #[trigger] marks_contain(self.selected_indices@, v) == ((v < idx && marks_contain(
                    marks0,
                    v,
                )) || (v >= idx && marks_contain(marks0, v + 1))) by {
                if marks_contain(self.selected_indices@, v) {
                    let m = choose|m: int|
                        0 <= m < self.selected_indices@.len() && self.selected_indices@[m] == v;
                    let k = choose|k: int|
                        0 <= k < marks0.len() && marks0[k] != idx
                            && self.selected_indices@[m] as int == remove_shift(
                            idx as int,
                            marks0[k] as int,
                        );
                    if marks0[k] < idx {
                        assert(marks0[k] == v);
                    } else {
                        assert(marks0[k] == v + 1);
                    }
                }
                if v < idx && marks_contain(marks0, v) {
                    let k = choose|k: int| 0 <= k < marks0.len() && marks0[k] == v;
                    assert(marks_contain(
                        self.selected_indices@,
                        remove_shift(idx as int, marks0[k] as int),
                    ));
                }
                if v >= idx && marks_contain(marks0, v + 1) {
                    let k = choose|k: int| 0 <= k < marks0.len() && marks0[k] == v + 1;
                    assert(marks_contain(
                        self.selected_indices@,
                        remove_shift(idx as int, marks0[k] as int),
                    ));
                }
            }
        }
    }

    /// Move the track at `current_pos` to `destination_pos`; rows between
    /// them shift by one, and every mark follows its track to its new row.
    pub fn reorder(&mut self, current_pos: usize, destination_pos: usize)
        requires
            current_pos < old(self).tracks@.len(),
            destination_pos < old(self).tracks@.len(),
            old(self).wf(),
        ensures
            final(self).tracks@ == old(self).tracks@.remove(current_pos as int).insert(
                destination_pos as int,
                old(self).tracks@[current_pos as int],
            ),
            forall|v: int|
                #[trigger] marks_contain(final(self).selected_indices@, v) == marks_contain(
                    old(self).selected_indices@,
                    reorder_unmap(current_pos as int, destination_pos as int, v),
                ),
            final(self).wf(),
            final(self).id == old(self).id,
            final(self).name == old(self).name,
            final(self).selected == old(self).selected,
    {
        let track = self.tracks.remove(current_pos);
        self.tracks.insert(destination_pos, track);
        let marks = &self.selected_indices;
        let mut moved: Vec<usize> = Vec::new();
        let mut t: usize = 0;
        while t < marks.len()
            invariant
                t <= marks@.len(),
                marks@.no_duplicates(),
                moved@.len() == t,
                forall|k: int|
                    0 <= k < t ==> (#[trigger] moved@[k]) as int == reorder_map(
                        current_pos as int,
                        destination_pos as int,
                        marks@[k] as int,
                    ),
                moved@.no_duplicates(),
            decreases marks@.len() - t,
        {
            let s = marks[t];
            let mapped: usize = if s == current_pos {
                destination_pos
            } else if (s < current_pos && s < destination_pos) || (s > current_pos && s
                > destination_pos) {
                s
            } else if s < current_pos && s >= destination_pos {
                s + 1
            } else {
                s - 1
            };
            proof {
                assert(mapped as int == reorder_map(
                    current_pos as int,
                    destination_pos as int,
                    marks@[t as int] as int,
                ));
                assert forall|k: int| 0 <= k < t implies moved@[k] != mapped by {
                    lemma_reorder_maps_invert(
                        current_pos as int,
                        destination_pos as int,
                        marks@[k] as int,
                    );
                    lemma_reorder_maps_invert(
                        current_pos as int,
                        destination_pos as int,
                        marks@[t as int] as int,
                    );
                }
            }
            moved.push(mapped);
            t = t + 1;
        }
        self.selected_indices = moved;
        proof {
            let marks0 = old(self).selected_indices@;
            let cur = current_pos as int;
            let dest = destination_pos as int;
            assert forall|v: int|
                #[trigger] marks_contain(self.selected_indices@, v) == marks_contain(
                    marks0,
                    reorder_unmap(cur, dest, v),
                ) by {
                if marks_contain(self.selected_indices@, v) {
                    let m = choose|m: int|
                        0 <= m < self.selected_indices@.len() && self.selected_indices@[m] == v;
                    lemma_reorder_maps_invert(cur, dest, marks0[m] as int);
                }
                if marks_contain(marks0, reorder_unmap(cur, dest, v)) {
                    let k = choose|k: int|
                        0 <= k < marks0.len() && marks0[k] as int == reorder_unmap(cur, dest, v);
                    lemma_reorder_maps_invert(cur, dest, v);
                    assert(self.selected_indices@[k] == v);
                }
            }
        }
    }

    /// Select the track at a row for playback: remember it and ask the
    /// engine to load its file.
    pub fn select(&mut self, idx: usize) -> (cmd: AudioCommand)
        requires
            idx < old(self).tracks@.len(),
        ensures
            final(self).selected matches Some(track) && track@ == old(self).tracks@[idx as int]@,
            cmd matches AudioCommand::LoadFile(p) && p@ == old(self).tracks@[idx as int].path@,
            final(self).tracks == old(self).tracks,
            final(self).id == old(self).id,
            final(self).name == old(self).name,
            final(self).selected_indices == old(self).selected_indices,
    {
        let track = self.tracks[idx].clone();
        let path = track.path();
        self.selected = Some(track);
        AudioCommand::LoadFile(path)
    }

    /// The first row holding a track equal to the given one.
    pub fn get_pos(&self, track: &LibraryItem) -> (r: Option<usize>)
        ensures
            match r {
                Some(i) => {
                    &&& i < self.tracks@.len()
                    &&& self.tracks@[i as int]@ == track@
                    &&& forall|j: int| 0 <= j < i ==> (#[trigger] self.tracks@[j])@ != track@
                },
                None => forall|j: int|
                    0 <= j < self.tracks@.len() ==> (#[trigger] self.tracks@[j])@ != track@,
            },
    {
        let mut i: usize = 0;
        while i < self.tracks.len()
            invariant
                i <= self.tracks@.len(),
                forall|j: int| 0 <= j < i ==> (#[trigger] self.tracks@[j])@ != track@,
            decreases self.tracks@.len() - i,
        {
            if self.tracks[i] == *track {
                return Some(i);
            }
            i = i + 1;
        }
        None
    }

    /// Mark every row.
    pub fn select_all(&mut self)
        ensures
            forall|v: int|
                #[trigger] marks_contain(final(self).selected_indices@, v) == (0 <= v < old(
                    self,
                ).tracks@.len()),
            final(self).wf(),
            *final(self) == (Playlist {
                selected_indices: final(self).selected_indices,
                ..*old(self)
            }),
    {
        let mut all: Vec<usize> = Vec::new();
        let mut i: usize = 0;
        while i < self.tracks.len()
            invariant
                i <= self.tracks@.len(),
                all@.len() == i,
                forall|k: int| 0 <= k < i ==> (#[trigger] all@[k]) as int == k,
            decreases self.tracks@.len() - i,
        {
            all.push(i);
            i = i + 1;
        }
        self.selected_indices = all;
        proof {
            assert forall|v: int|
                #[trigger] marks_contain(self.selected_indices@, v) == (0 <= v < old(
                    self,
                ).tracks@.len()) by {
                if 0 <= v < self.selected_indices@.len() {
                    assert(self.selected_indices@[v] == v);
                }
            }
        }
    }

    /// Clear every mark.
    pub fn clear_selection(&mut self)
        ensures
            final(self).selected_indices@.len() == 0,
            final(self).wf(),
            *final(self) == (Playlist {
                selected_indices: final(self).selected_indices,
                ..*old(self)
            }),
    {
        self.selected_indices = Vec::new();
    }

    /// Flip one row's mark: an unmarked row becomes marked, a marked one
    /// loses its mark.  Every other row keeps its state.
    pub fn toggle_selection(&mut self, idx: usize)
        requires
            old(self).wf(),
        ensures
            marks_contain(final(self).selected_indices@, idx as int) == !marks_contain(
                old(self).selected_indices@,
                idx as int,
            ),
            forall|v: int|
                v != idx ==> #[trigger] marks_contain(final(self).selected_indices@, v)
                    == marks_contain(old(self).selected_indices@, v),
            final(self).wf(),
            *final(self) == (Playlist {
                selected_indices: final(self).selected_indices,
                ..*old(self)
            }),
    {
        if self.contains_mark(idx) {
            let marks = &self.selected_indices;
            let mut kept: Vec<usize> = Vec::new();
            let mut t: usize = 0;
            while t < marks.len()
                invariant
                    t <= marks@.len(),
                    marks@.no_duplicates(),
                    forall|k: int|
                        0 <= k < t && marks@[k] != idx ==> marks_contain(
                            kept@,
                            (#[trigger] marks@[k]) as int,
                        ),
                    forall|m: int|
                        0 <= m < kept@.len() ==> (#[trigger] kept@[m]) != idx && marks_contain(
                            marks@.subrange(0, t as int),
                            kept@[m] as int,
                        ),
                    kept@.no_duplicates(),
                decreases marks@.len() - t,
            {
                let s = marks[t];
                let ghost kept0 = kept@;
                if s != idx {
                    proof {
                        if marks_contain(kept@, s as int) {
                            let m = choose|m: int| 0 <= m < kept@.len() && kept@[m] == s;
                            let pre = marks@.subrange(0, t as int);
                            let k = choose|k: int| 0 <= k < pre.len() && pre[k] == kept@[m];
                            assert(marks@[k] == marks@[t as int]);
                            assert(false);
                        }
                    }
                    kept.push(s);
                    proof {
                        assert(kept@ == kept0.push(s));
                        assert(kept@[kept0.len() as int] == marks@[t as int]);
                    }
                }
                proof {
                    assert forall|k: int| 0 <= k < t + 1 && marks@[k] != idx implies marks_contain(
                        kept@,
                        (#[trigger] marks@[k]) as int,
                    ) by {
                        if k < t {
                            let m = choose|m: int| 0 <= m < kept0.len() && kept0[m] == marks@[k];
                            assert(kept@[m] == kept0[m]);
                        } else {
                            assert(kept@[kept@.len() - 1] == marks@[k]);
                        }
                    }
                    assert forall|m: int| 0 <= m < kept@.len() implies (#[trigger] kept@[m]) != idx
                        && marks_contain(marks@.subrange(0, t + 1), kept@[m] as int) by {
                        if m < kept0.len() {
                            let pre = marks@.subrange(0, t as int);
                            let k = choose|k: int| 0 <= k < pre.len() && pre[k] == kept0[m];
                            assert(kept@[m] == kept0[m]);
                            assert(marks@.subrange(0, t + 1)[k] == kept@[m]);
                        } else {
                            assert(marks@.subrange(0, t + 1)[t as int] == kept@[m]);
                        }
                    }
                }
                t = t + 1;
            }
            proof {
                assert(marks@.subrange(0, marks@.len() as int) =~= marks@);
            }
            self.selected_indices = kept;
            proof {
                let marks0 = old(self).selected_indices@;
                if marks_contain(self.selected_indices@, idx as int) {
                    let m = choose|m: int|
                        0 <= m < self.selected_indices@.len() && self.selected_indices@[m] == idx;
                    assert(self.selected_indices@[m] != idx);
                }
                assert forall|v: int|
                    v != idx implies #[trigger] marks_contain(self.selected_indices@, v)
                    == marks_contain(marks0, v) by {
                    if marks_contain(self.selected_indices@, v) {
                        let m = choose|m: int|
                            0 <= m < self.selected_indices@.len() && self.selected_indices@[m]
                                == v;
                        assert(marks_contain(marks0, self.selected_indices@[m] as int));
                    }
                    if marks_contain(marks0, v) {
                        let k = choose|k: int| 0 <= k < marks0.len() && marks0[k] == v;
                        assert(marks_contain(self.selected_indices@, (marks0[k]) as int));
                    }
                }
            }
        } else {
            self.selected_indices.push(idx);
            proof {
                let marks0 = old(self).selected_indices@;
                assert(self.selected_indices@[marks0.len() as int] == idx);
                assert forall|v: int|
                    v != idx implies #[trigger] marks_contain(self.selected_indices@, v)
                    == marks_contain(marks0, v) by {
                    if marks_contain(self.selected_indices@, v) {
                        let m = choose|m: int|
                            0 <= m < self.selected_indices@.len() && self.selected_indices@[m]
                                == v;
                        assert(marks0[m] == v);
                    }
                    if marks_contain(marks0, v) {
                        let k = choose|k: int| 0 <= k < marks0.len() && marks0[k] == v;
                        assert(self.selected_indices@[k] == v);
                    }
                }
                assert(self.selected_indices@.no_duplicates()) by {
                    assert forall|i: int, j: int|
                        0 <= i < self.selected_indices@.len() && 0 <= j
                            < self.selected_indices@.len() && i != j implies self.selected_indices@[i]
                        != self.selected_indices@[j] by {
                        if i < marks0.len() && j < marks0.len() {
                            assert(marks0[i] != marks0[j]);
                        } else if i < marks0.len() {
                            assert(!marks_contain(marks0, idx as int));
                            assert(marks0[i] != idx);
                        } else if j < marks0.len() {
                            assert(!marks_contain(marks0, idx as int));
                            assert(marks0[j] != idx);
                        }
                    }
                }
            }
        }
    }

    /// Is this row marked?
    pub fn is_selected(&self, idx: usize) -> (r: bool)
        ensures
            r == marks_contain(self.selected_indices@, idx as int),
    {
        self.contains_mark(idx)
    }

    /// Linear scan of the marked rows.
    fn contains_mark(&self, idx: usize) -> (r: bool)
        ensures
            r == marks_contain(self.selected_indices@, idx as int),
    {
        let marks = &self.selected_indices;
        let mut t: usize = 0;
        while t < marks.len()
            invariant
                t <= marks@.len(),
                marks@ == self.selected_indices@,
                forall|k: int| 0 <= k < t ==> (#[trigger] marks@[k]) != idx,
            decreases marks@.len() - t,
        {
            if marks[t] == idx {
                proof {
                    assert(marks@[t as int] == idx);
                }
                return true;
            }
            t = t + 1;
        }
        false
    }
}

impl Default for Playlist {
    /// The empty playlist.
    fn default() -> (r: Playlist)
        ensures
            r.id is None,
            r.name is None,
            r.tracks@.len() == 0,
            r.selected is None,
            r.selected_indices@.len() == 0,
            r.wf(),
    {
        Playlist::new()
    }
}

} // verus!
