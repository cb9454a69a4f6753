//! Per-player unit selection and hotkey group tracking.

use vstd::prelude::*;

verus! {

/// Number of players tracked.
pub const MAX_PLAYERS: usize = 8;

/// Most units one selection holds.
pub const MAX_SELECTION: usize = 12;

/// Hotkey groups per player.
pub const HOTKEY_GROUPS: usize = 10;

/// The value of a [`SelectionState`]: each player's selection, and each
/// player's hotkey groups.
pub struct SelectionView {
    pub selections: Seq<Seq<u16>>,
    pub hotkeys: Seq<Seq<Seq<u16>>>,
}

/// Per-player unit selection and hotkey group tracking.
#[derive(Debug)]
pub struct SelectionState {
    selections: Vec<Vec<u16>>,
    hotkeys: Vec<Vec<Vec<u16>>>,
}

impl View for SelectionState {
    type V = SelectionView;

    closed spec fn view(&self) -> SelectionView {
        SelectionView {
            selections: self.selections@.map_values(|v: Vec<u16>| v@),
            hotkeys: self.hotkeys@.map_values(
                |g: Vec<Vec<u16>>| g@.map_values(|v: Vec<u16>| v@),
            ),
        }
    }
}

/// The shape every selection state keeps: 8 players, 10 hotkey groups each,
/// and no selection or group of more than 12 units.
pub open spec fn well_formed(v: SelectionView) -> bool {
    &&& v.selections.len() == 8
    &&& v.hotkeys.len() == 8
    &&& forall|p: int| 0 <= p < 8 ==> #[trigger] v.selections[p].len() <= 12
    &&& forall|p: int| 0 <= p < 8 ==> #[trigger] v.hotkeys[p].len() == 10
    &&& forall|p: int, g: int|
        0 <= p < 8 && 0 <= g < 10 ==> #[trigger] v.hotkeys[p][g].len() <= 12
}

/// `sel` after adding `tags` in order, each only if it is not selected yet
/// and the selection has room.
pub open spec fn add_tags(sel: Seq<u16>, tags: Seq<u16>) -> Seq<u16>
    decreases tags.len(),
{
    if tags.len() == 0 {
        sel
    } else {
        let t = tags[0];
        let next = if !sel.contains(t) && sel.len() < 12 {
            sel.push(t)
        } else {
            sel
        };
        add_tags(next, tags.drop_first())
    }
}

/// `sel` without the tags that occur in `tags`, in the same order.
pub open spec fn remove_tags(sel: Seq<u16>, tags: Seq<u16>) -> Seq<u16>
    decreases sel.len(),
{
    if sel.len() == 0 {
        sel
    } else if tags.contains(sel.last()) {
        remove_tags(sel.drop_last(), tags)
    } else {
        remove_tags(sel.drop_last(), tags).push(sel.last())
    }
}

/// The first 12 of `tags`, or all of them if there are fewer.
pub open spec fn capped_tags(tags: Seq<u16>) -> Seq<u16> {
    if tags.len() <= 12 {
        tags
    } else {
        tags.take(12)
    }
}

/// The selection of a player, or nothing for a player out of range.
pub open spec fn selection_of(v: SelectionView, player: u8) -> Seq<u16> {
    if player < 8 {
        v.selections[player as int]
    } else {
        Seq::empty()
    }
}

/// The state after `assign_hotkey`.
pub open spec fn assigned(v: SelectionView, player: u8, group: u8) -> SelectionView {
    if player < 8 && group < 10 {
        SelectionView {
            selections: v.selections,
            hotkeys: v.hotkeys.update(
                player as int,
                v.hotkeys[player as int].update(group as int, v.selections[player as int]),
            ),
        }
    } else {
        v
    }
}

/// The state after `recall_hotkey`.
pub open spec fn recalled(v: SelectionView, player: u8, group: u8) -> SelectionView {
    if player < 8 && group < 10 {
        SelectionView {
            selections: v.selections.update(player as int, v.hotkeys[player as int][group as int]),
            hotkeys: v.hotkeys,
        }
    } else {
        v
    }
}

/// Removing tags keeps the order and only drops tags: the result is no longer.
proof fn lemma_remove_tags_len(sel: Seq<u16>, tags: Seq<u16>)
    ensures
        remove_tags(sel, tags).len() <= sel.len(),
    decreases sel.len(),
{
    if sel.len() > 0 {
        lemma_remove_tags_len(sel.drop_last(), tags);
    }
}

/// Adding tags never grows a selection past 12.
proof fn lemma_add_tags_len(sel: Seq<u16>, tags: Seq<u16>)
    requires
        sel.len() <= 12,
    ensures
        add_tags(sel, tags).len() <= 12,
    decreases tags.len(),
{
    if tags.len() > 0 {
        let t = tags[0];
        let next = if !sel.contains(t) && sel.len() < 12 {
            sel.push(t)
        } else {
            sel
        };
        lemma_add_tags_len(next, tags.drop_first());
    }
}

/// A full selection of 12 or more units takes no more tags.
proof fn lemma_add_tags_full(sel: Seq<u16>, tags: Seq<u16>)
    requires
        sel.len() >= 12,
    ensures
        add_tags(sel, tags) == sel,
    decreases tags.len(),
{
    if tags.len() > 0 {
        lemma_add_tags_full(sel, tags.drop_first());
    }
}

/// A selection holds at most 12 units: setting it keeps the first 12 tags
/// given (all of them when there are fewer); adding to a selection of 12
/// changes nothing; adding a tag not yet selected to a smaller selection
/// appends it; removing tags keeps exactly the selected tags not removed, in
/// their order.
pub proof fn lemma_selection_limits(sel: Seq<u16>, tags: Seq<u16>, t: u16)
    ensures
        tags.len() <= 12 ==> capped_tags(tags) == tags,
        tags.len() > 12 ==> capped_tags(tags) == tags.subrange(0, 12),
        sel.len() >= 12 ==> add_tags(sel, tags) == sel,
        sel.len() < 12 && !sel.contains(t) ==> add_tags(sel, seq![t]) == sel.push(t),
        sel.contains(t) ==> add_tags(sel, seq![t]) == sel,
        remove_tags(sel, tags) == sel.filter(|x: u16| !tags.contains(x)),
{
    if sel.len() >= 12 {
        lemma_add_tags_full(sel, tags);
    }
    let one = seq![t];
    let next = if !sel.contains(t) && sel.len() < 12 {
        sel.push(t)
    } else {
        sel
    };
    assert(one[0] == t);
    assert(one.drop_first() =~= Seq::<u16>::empty());
    assert(add_tags(sel, one) == add_tags(next, one.drop_first()));
    assert(add_tags(next, Seq::<u16>::empty()) == next);
    lemma_remove_tags_filter(sel, tags);
}

proof fn lemma_remove_tags_filter(sel: Seq<u16>, tags: Seq<u16>)
    ensures
        remove_tags(sel, tags) == sel.filter(|x: u16| !tags.contains(x)),
    decreases sel.len(),
{
    reveal(Seq::filter);
    if sel.len() > 0 {
        lemma_remove_tags_filter(sel.drop_last(), tags);
    }
}

/// Recalling a hotkey group right after assigning it restores the selection
/// that was assigned, and leaves every other player's selection as it was.
pub proof fn lemma_recall_after_assign(v: SelectionView, player: u8, group: u8)
    requires
        well_formed(v),
    ensures
        recalled(assigned(v, player, group), player, group).selections == v.selections,
{
    if player < 8 && group < 10 {
        let a = assigned(v, player, group);
        assert(a.hotkeys[player as int][group as int] == v.selections[player as int]);
        assert(recalled(a, player, group).selections =~= v.selections);
    }
}

/// Adding a tag that is already selected changes nothing, and no tag is ever
/// added twice by `add_tags`.
pub proof fn lemma_add_tags_no_new_duplicates(sel: Seq<u16>, tags: Seq<u16>)
    requires
        sel.no_duplicates(),
    ensures
        add_tags(sel, tags).no_duplicates(),
    decreases tags.len(),
{
    if tags.len() > 0 {
        let t = tags[0];
        let next = if !sel.contains(t) && sel.len() < 12 {
            sel.push(t)
        } else {
            sel
        };
        if !sel.contains(t) && sel.len() < 12 {
            assert forall|i: int, j: int|
                0 <= i < next.len() && 0 <= j < next.len() && i != j implies next[i]
                != next[j] by {
                if i == sel.len() {
                    assert(sel[j] == next[j]);
                } else if j == sel.len() {
                    assert(sel[i] == next[i]);
                }
            }
        }
        lemma_add_tags_no_new_duplicates(next, tags.drop_first());
    }
}

/// A copy of a list of tags.
fn copy_tags(v: &Vec<u16>) -> (r: Vec<u16>)
    ensures
        r@ == v@,
{
    let mut r: Vec<u16> = Vec::new();
    let mut i: usize = 0;
    while i < v.len()
        invariant
            i <= v@.len(),
            r@ == v@.take(i as int),
        decreases v@.len() - i,
    {
        r.push(v[i]);
        i = i + 1;
        assert(r@ =~= v@.take(i as int));
    }
    assert(v@.take(i as int) =~= v@);
    r
}

/// A copy of a list of tag lists.
fn copy_groups(v: &Vec<Vec<u16>>) -> (r: Vec<Vec<u16>>)
    ensures
        r@.map_values(|x: Vec<u16>| x@) == v@.map_values(|x: Vec<u16>| x@),
{
    let mut r: Vec<Vec<u16>> = Vec::new();
    let mut i: usize = 0;
    while i < v.len()
        invariant
            i <= v@.len(),
            r@.len() == i,
            forall|k: int| 0 <= k < i ==> #[trigger] r@[k]@ == v@[k]@,
        decreases v@.len() - i,
    {
        r.push(copy_tags(&v[i]));
        i = i + 1;
    }
    assert(r@.map_values(|x: Vec<u16>| x@) =~= v@.map_values(|x: Vec<u16>| x@));
    r
}

/// What the shape of a state tells of its vectors.
proof fn lemma_shape(s: SelectionState)
    requires
        well_formed(s@),
    ensures
        s.selections@.len() == 8,
        s.hotkeys@.len() == 8,
        forall|p: int| 0 <= p < 8 ==> (#[trigger] s.selections@[p])@.len() <= 12,
        forall|p: int| 0 <= p < 8 ==> (#[trigger] s.hotkeys@[p])@.len() == 10,
        forall|p: int, g: int|
            0 <= p < 8 && 0 <= g < 10 ==> (#[trigger] s.hotkeys@[p]@[g])@.len() <= 12,
{
    assert forall|p: int| 0 <= p < 8 implies (#[trigger] s.selections@[p])@.len() <= 12 by {
        assert(s@.selections[p].len() <= 12);
    }
    assert forall|p: int| 0 <= p < 8 implies (#[trigger] s.hotkeys@[p])@.len() == 10 by {
        assert(s@.hotkeys[p].len() == 10);
    }
    assert forall|p: int, g: int| 0 <= p < 8 && 0 <= g < 10 implies (#[trigger] s.hotkeys@[p]@[
        g
    ])@.len() <= 12 by {
        assert(s@.hotkeys[p].len() == 10);
        assert(s@.hotkeys[p][g].len() <= 12);
    }
}

/// The selections of a state with one player's selection replaced by a list
/// of at most 12 tags keep the shape.
proof fn lemma_replace_selection(v: SelectionView, p: int, sel: Seq<u16>)
    requires
        well_formed(v),
        0 <= p < 8,
        sel.len() <= 12,
    ensures
        well_formed(SelectionView { selections: v.selections.update(p, sel), hotkeys: v.hotkeys }),
{
    let w = SelectionView { selections: v.selections.update(p, sel), hotkeys: v.hotkeys };
    assert forall|q: int| 0 <= q < 8 implies #[trigger] w.selections[q].len() <= 12 by {
        if q != p {
            assert(w.selections[q] == v.selections[q]);
        }
    }
}

impl SelectionState {
    #[verifier::type_invariant]
    closed spec fn inv(self) -> bool {
        well_formed(self@)
    }

    /// An empty state: no selections, no hotkey groups.
    fn empty() -> (s: SelectionState)
        ensures
            s@.selections == Seq::new(8, |p: int| Seq::<u16>::empty()),
            s@.hotkeys == Seq::new(8, |p: int| Seq::new(10, |g: int| Seq::<u16>::empty())),
    {
        let mut selections: Vec<Vec<u16>> = Vec::new();
        let mut hotkeys: Vec<Vec<Vec<u16>>> = Vec::new();
        let mut p: usize = 0;
        while p < MAX_PLAYERS
            invariant
                p <= 8,
                selections@.len() == p,
                hotkeys@.len() == p,
                forall|i: int| 0 <= i < p ==> #[trigger] selections@[i]@ == Seq::<u16>::empty(),
                forall|i: int|
                    0 <= i < p ==> (#[trigger] hotkeys@[i])@.map_values(|v: Vec<u16>| v@)
                        == Seq::new(10, |g: int| Seq::<u16>::empty()),
            decreases 8 - p,
        {
            let mut groups: Vec<Vec<u16>> = Vec::new();
            let mut g: usize = 0;
            while g < HOTKEY_GROUPS
                invariant
                    g <= 10,
                    groups@.len() == g,
                    forall|i: int| 0 <= i < g ==> #[trigger] groups@[i]@ == Seq::<u16>::empty(),
                decreases 10 - g,
            {
                let e: Vec<u16> = Vec::new();
                groups.push(e);
                g = g + 1;
            }
            assert(groups@.map_values(|v: Vec<u16>| v@) =~= Seq::new(
                10,
                |g: int| Seq::<u16>::empty(),
            ));
            let e: Vec<u16> = Vec::new();
            selections.push(e);
            hotkeys.push(groups);
            p = p + 1;
        }
        let ghost sv = selections@.map_values(|v: Vec<u16>| v@);
        let ghost hv = hotkeys@.map_values(
            |g: Vec<Vec<u16>>| g@.map_values(|v: Vec<u16>| v@),
        );
        assert(sv =~= Seq::new(8, |p: int| Seq::<u16>::empty()));
        assert(hv =~= Seq::new(8, |p: int| Seq::new(10, |g: int| Seq::<u16>::empty())));
        assert(well_formed(SelectionView { selections: sv, hotkeys: hv }));
        SelectionState { selections, hotkeys }
    }

    /// Replace a player's selection with the first 12 of `tags`. A player out
    /// of range is ignored.
    pub fn set_selection(&mut self, player: u8, tags: &[u16])
        ensures
            well_formed(old(self)@),
            well_formed(final(self)@),
            player < 8 ==> final(self)@.selections == old(self)@.selections.update(
                player as int,
                capped_tags(tags@),
            ),
            player >= 8 ==> final(self)@.selections == old(self)@.selections,
            final(self)@.hotkeys == old(self)@.hotkeys,
    {
        proof {
            use_type_invariant(&*self);
            lemma_shape(*self);
        }
        let p = player as usize;
        if p < MAX_PLAYERS {
            let n = if tags.len() < MAX_SELECTION {
                tags.len()
            } else {
                MAX_SELECTION
            };
            let mut sel: Vec<u16> = Vec::new();
            let mut i: usize = 0;
            while i < n
                invariant
                    n <= tags@.len(),
                    i <= n,
                    sel@ == tags@.take(i as int),
                decreases n - i,
            {
                sel.push(tags[i]);
                i = i + 1;
                assert(sel@ =~= tags@.take(i as int));
            }
            assert(sel@ =~= capped_tags(tags@));
            let mut sels = copy_groups(&self.selections);
            sels.set(p, sel);
            proof {
                assert(sels@.map_values(|x: Vec<u16>| x@) =~= old(self)@.selections.update(
                    player as int,
                    capped_tags(tags@),
                ));
                lemma_replace_selection(old(self)@, player as int, capped_tags(tags@));
            }
            self.selections = sels;
        }
    }

    /// Add `tags` to a player's selection in order, skipping tags already
    /// selected and stopping growth at 12. A player out of range is ignored.
    pub fn add_to_selection(&mut self, player: u8, tags: &[u16])
        ensures
            well_formed(old(self)@),
            well_formed(final(self)@),
            player < 8 ==> final(self)@.selections == old(self)@.selections.update(
                player as int,
                add_tags(old(self)@.selections[player as int], tags@),
            ),
            player >= 8 ==> final(self)@.selections == old(self)@.selections,
            final(self)@.hotkeys == old(self)@.hotkeys,
    {
        proof {
            use_type_invariant(&*self);
            lemma_shape(*self);
        }
        let p = player as usize;
        if p < MAX_PLAYERS {
            let mut sel = copy_tags(&self.selections[p]);
            let ghost start = sel@;
            assert(start == old(self)@.selections[player as int]);
            assert(tags@.skip(0) =~= tags@);
            let mut i: usize = 0;
            while i < tags.len()
                invariant
                    i <= tags@.len(),
                    sel@.len() <= 12,
                    add_tags(start, tags@) == add_tags(sel@, tags@.skip(i as int)),
                decreases tags@.len() - i,
            {
                let t = tags[i];
                assert(tags@.skip(i as int).drop_first() =~= tags@.skip(i + 1));
                let mut found = false;
                let mut k: usize = 0;
                while k < sel.len()
                    invariant
                        k <= sel@.len(),
                        found == (exists|j: int| 0 <= j < k && sel@[j] == t),
                    decreases sel@.len() - k,
                {
                    if sel[k] == t {
                        found = true;
                    }
                    k = k + 1;
                }
                assert(found == sel@.contains(t));
                if !found && sel.len() < MAX_SELECTION {
                    sel.push(t);
                }
                i = i + 1;
            }
            assert(tags@.skip(i as int).len() == 0);
            proof {
                lemma_add_tags_len(start, tags@);
            }
            let mut sels = copy_groups(&self.selections);
            sels.set(p, sel);
            proof {
                assert(sels@.map_values(|x: Vec<u16>| x@) =~= old(self)@.selections.update(
                    player as int,
                    add_tags(start, tags@),
                ));
                lemma_replace_selection(old(self)@, player as int, add_tags(start, tags@));
            }
            self.selections = sels;
        }
    }

    /// Drop `tags` from a player's selection, keeping the order of the rest.
    /// A player out of range is ignored.
    pub fn remove_from_selection(&mut self, player: u8, tags: &[u16])
        ensures
            well_formed(old(self)@),
            well_formed(final(self)@),
            player < 8 ==> final(self)@.selections == old(self)@.selections.update(
                player as int,
                remove_tags(old(self)@.selections[player as int], tags@),
            ),
            player >= 8 ==> final(self)@.selections == old(self)@.selections,
            final(self)@.hotkeys == old(self)@.hotkeys,
    {
        proof {
            use_type_invariant(&*self);
            lemma_shape(*self);
        }
        let p = player as usize;
        if p < MAX_PLAYERS {
            let old_sel = copy_tags(&self.selections[p]);
            assert(old_sel@ == old(self)@.selections[player as int]);
            let mut sel: Vec<u16> = Vec::new();
            let mut i: usize = 0;
            while i < old_sel.len()
                invariant
                    i <= old_sel@.len(),
                    sel@ == remove_tags(old_sel@.take(i as int), tags@),
                decreases old_sel@.len() - i,
            {
                let t = old_sel[i];
                assert(old_sel@.take(i + 1).drop_last() =~= old_sel@.take(i as int));
                let mut found = false;
                let mut k: usize = 0;
                while k < tags.len()
                    invariant
                        k <= tags@.len(),
                        found == (exists|j: int| 0 <= j < k && tags@[j] == t),
                    decreases tags@.len() - k,
                {
                    if tags[k] == t {
                        found = true;
                    }
                    k = k + 1;
                }
                assert(found == tags@.contains(t));
                if !found {
                    sel.push(t);
                }
                i = i + 1;
            }
            assert(old_sel@.take(i as int) =~= old_sel@);
            proof {
                lemma_remove_tags_len(old_sel@, tags@);
            }
            let mut sels = copy_groups(&self.selections);
            sels.set(p, sel);
            proof {
                assert(sels@.map_values(|x: Vec<u16>| x@) =~= old(self)@.selections.update(
                    player as int,
                    remove_tags(old_sel@, tags@),
                ));
                lemma_replace_selection(old(self)@, player as int, remove_tags(old_sel@, tags@));
            }
            self.selections = sels;
        }
    }

    /// Store a player's current selection in one of their hotkey groups.
    /// Out-of-range players and groups are ignored.
    pub fn assign_hotkey(&mut self, player: u8, group: u8)
        ensures
            well_formed(old(self)@),
            well_formed(final(self)@),
            final(self)@ == assigned(old(self)@, player, group),
    {
        proof {
            use_type_invariant(&*self);
            lemma_shape(*self);
        }
        let p = player as usize;
        let g = group as usize;
        if p < MAX_PLAYERS && g < HOTKEY_GROUPS {
            let tags = copy_tags(&self.selections[p]);
            let mut groups = copy_groups(&self.hotkeys[p]);
            assert(self.hotkeys@[p as int]@.len() == 10);
            assert(groups@.len() == groups@.map_values(|x: Vec<u16>| x@).len());
            assert(self.hotkeys@[p as int]@.len() == self.hotkeys@[p as int]@.map_values(
                |x: Vec<u16>| x@,
            ).len());
            groups.set(g, tags);
            let mut all: Vec<Vec<Vec<u16>>> = Vec::new();
            let mut q: usize = 0;
            while q < MAX_PLAYERS
                invariant
                    q <= 8,
                    p < 8,
                    self.hotkeys@.len() == 8,
                    all@.len() == q,
                    forall|k: int|
                        0 <= k < q ==> (#[trigger] all@[k])@.map_values(|x: Vec<u16>| x@) == (
                        if k == p {
                            groups@
                        } else {
                            self.hotkeys@[k]@
                        }).map_values(|x: Vec<u16>| x@),
                decreases 8 - q,
            {
                if q == p {
                    all.push(copy_groups(&groups));
                } else {
                    all.push(copy_groups(&self.hotkeys[q]));
                }
                q = q + 1;
            }
            proof {
                let w = assigned(old(self)@, player, group);
                assert(groups@.map_values(|x: Vec<u16>| x@) =~= old(self)@.hotkeys[p as int].update(
                    g as int,
                    old(self)@.selections[p as int],
                ));
                assert(all@.map_values(|a: Vec<Vec<u16>>| a@.map_values(|x: Vec<u16>| x@))
                    =~= w.hotkeys);
                assert forall|r: int, h: int|
                    0 <= r < 8 && 0 <= h < 10 implies #[trigger] w.hotkeys[r][h].len() <= 12 by {
                    if r == p && h == g {
                        assert(w.hotkeys[r][h] == old(self)@.selections[p as int]);
                    } else {
                        assert(w.hotkeys[r][h] == old(self)@.hotkeys[r][h]);
                    }
                }
                assert(well_formed(w));
            }
            self.hotkeys = all;
        }
    }

    /// Make one of a player's hotkey groups their current selection.
    /// Out-of-range players and groups are ignored.
    pub fn recall_hotkey(&mut self, player: u8, group: u8)
        ensures
            well_formed(old(self)@),
            well_formed(final(self)@),
            final(self)@ == recalled(old(self)@, player, group),
    {
        proof {
            use_type_invariant(&*self);
            lemma_shape(*self);
        }
        let p = player as usize;
        let g = group as usize;
        if p < MAX_PLAYERS && g < HOTKEY_GROUPS {
            let tags = copy_tags(&self.hotkeys[p][g]);
            let mut sels = copy_groups(&self.selections);
            sels.set(p, tags);
            proof {
                assert(tags@ == old(self)@.hotkeys[p as int][g as int]);
                assert(sels@.map_values(|x: Vec<u16>| x@) =~= old(self)@.selections.update(
                    player as int,
                    tags@,
                ));
                lemma_replace_selection(old(self)@, player as int, tags@);
            }
            self.selections = sels;
        }
    }

    /// A player's selected unit tags; empty for a player out of range.
    pub fn selected_tags(&self, player: u8) -> (r: &[u16])
        ensures
            well_formed(self@),
            r@ == selection_of(self@, player),
            r@.len() <= 12,
    {
        proof {
            use_type_invariant(self);
            lemma_shape(*self);
        }
        let p = player as usize;
        if p < MAX_PLAYERS {
            self.selections[p].as_slice()
        } else {
            &[]
        }
    }
}

impl Clone for SelectionState {
    fn clone(&self) -> (s: SelectionState)
        ensures
            well_formed(self@),
            s@ == self@,
    {
        proof {
            use_type_invariant(self);
            lemma_shape(*self);
        }
        let selections = copy_groups(&self.selections);
        let mut hotkeys: Vec<Vec<Vec<u16>>> = Vec::new();
        let mut q: usize = 0;
        while q < self.hotkeys.len()
            invariant
                q <= self.hotkeys@.len(),
                hotkeys@.len() == q,
                forall|k: int|
                    0 <= k < q ==> (#[trigger] hotkeys@[k])@.map_values(|x: Vec<u16>| x@)
                        == self.hotkeys@[k]@.map_values(|x: Vec<u16>| x@),
            decreases self.hotkeys@.len() - q,
        {
            hotkeys.push(copy_groups(&self.hotkeys[q]));
            q = q + 1;
        }
        proof {
            assert(hotkeys@.map_values(|a: Vec<Vec<u16>>| a@.map_values(|x: Vec<u16>| x@))
                =~= self@.hotkeys);
        }
        SelectionState { selections, hotkeys }
    }
}

impl Default for SelectionState {
    fn default() -> (s: SelectionState)
        ensures
            s@.selections == Seq::new(8, |p: int| Seq::<u16>::empty()),
            s@.hotkeys == Seq::new(8, |p: int| Seq::new(10, |g: int| Seq::<u16>::empty())),
    {
        SelectionState::empty()
    }
}

} // verus!
