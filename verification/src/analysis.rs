//! Build orders and action counts drawn from a replay's command stream.

use vstd::prelude::*;
use crate::command::{
    Command, CommandView, GameCommand, GameCommandView, HotkeyAction, lemma_meaningful_exactly,
    not_an_action, view_commands,
};

verus! {

/// The type of build order action.
#[derive(Debug, Clone, Copy, PartialEq, Eq, Structural)]
pub enum BuildAction {
    /// Build a structure (unit_type).
    Build(u16),
    /// Train a unit (unit_type).
    Train(u16),
    /// Morph a unit — e.g. Zergling→Lurker (unit_type of the result).
    UnitMorph(u16),
    /// Morph a building — e.g. Lair, Hive, Greater Spire (unit_type of result).
    BuildingMorph(u16),
    /// Research a technology (tech_type).
    Research(u8),
    /// Start an upgrade (upgrade_type).
    Upgrade(u8),
    /// Train interceptor or scarab.
    TrainFighter,
}

/// A build order entry: a production or tech action by a player at a game frame.
#[derive(Debug, Clone, Copy)]
pub struct BuildOrderEntry {
    pub frame: u32,
    pub player_id: u8,
    pub action: BuildAction,
}

/// The build action of a build order command.
pub open spec fn build_action_of(c: CommandView) -> BuildAction {
    match c {
        CommandView::Build { unit_type, .. } => BuildAction::Build(unit_type),
        CommandView::Train { unit_type } => BuildAction::Train(unit_type),
        CommandView::UnitMorph { unit_type } => BuildAction::UnitMorph(unit_type),
        CommandView::BuildingMorph { unit_type } => BuildAction::BuildingMorph(unit_type),
        CommandView::Research { tech_type } => BuildAction::Research(tech_type),
        CommandView::Upgrade { upgrade_type } => BuildAction::Upgrade(upgrade_type),
        _ => BuildAction::TrainFighter,
    }
}

/// The entry that a build order command gives.
pub open spec fn entry_of(c: GameCommandView) -> BuildOrderEntry {
    BuildOrderEntry { frame: c.frame, player_id: c.player_id, action: build_action_of(c.command) }
}

/// The build order of a command stream: one entry per build order command, in
/// stream order.
pub open spec fn build_order_of(cmds: Seq<GameCommandView>) -> Seq<BuildOrderEntry>
    decreases cmds.len(),
{
    if cmds.len() == 0 {
        Seq::empty()
    } else if cmds.last().command.is_build_order() {
        build_order_of(cmds.drop_last()).push(entry_of(cmds.last()))
    } else {
        build_order_of(cmds.drop_last())
    }
}

/// Whether the commands' frames never go down.
pub open spec fn frames_sorted(cmds: Seq<GameCommandView>) -> bool {
    forall|i: int, j: int| 0 <= i <= j < cmds.len() ==> cmds[i].frame <= cmds[j].frame
}

/// Whether the entries' frames never go down.
pub open spec fn entries_sorted(bo: Seq<BuildOrderEntry>) -> bool {
    forall|i: int, j: int| 0 <= i <= j < bo.len() ==> bo[i].frame <= bo[j].frame
}

/// Each build order entry comes from a command of the stream, and the build
/// order is no longer than the stream.
pub proof fn lemma_build_order_from_stream(cmds: Seq<GameCommandView>)
    ensures
        build_order_of(cmds).len() <= cmds.len(),
        forall|k: int|
            0 <= k < build_order_of(cmds).len() ==> exists|i: int|
                0 <= i < cmds.len() && cmds[i].command.is_build_order() && #[trigger] build_order_of(
                    cmds,
                )[k] == entry_of(cmds[i]),
    decreases cmds.len(),
{
    if cmds.len() > 0 {
        let rest = cmds.drop_last();
        lemma_build_order_from_stream(rest);
        assert forall|k: int| 0 <= k < build_order_of(cmds).len() implies exists|i: int|
            0 <= i < cmds.len() && cmds[i].command.is_build_order() && #[trigger] build_order_of(
                cmds,
            )[k] == entry_of(cmds[i]) by {
            if k < build_order_of(rest).len() {
                let i = choose|i: int|
                    0 <= i < rest.len() && rest[i].command.is_build_order() && #[trigger] build_order_of(
                        rest,
                    )[k] == entry_of(rest[i]);
                assert(cmds[i] == rest[i]);
            } else {
                assert(cmds[cmds.len() - 1] == cmds.last());
            }
        }
    }
}

/// A command stream in frame order gives a build order in frame order.
pub proof fn lemma_build_order_sorted(cmds: Seq<GameCommandView>)
    requires
        frames_sorted(cmds),
    ensures
        entries_sorted(build_order_of(cmds)),
    decreases cmds.len(),
{
    if cmds.len() > 0 {
        let rest = cmds.drop_last();
        assert(frames_sorted(rest));
        lemma_build_order_sorted(rest);
        lemma_build_order_from_stream(rest);
        let bo = build_order_of(cmds);
        if cmds.last().command.is_build_order() {
            assert forall|i: int, j: int| 0 <= i <= j < bo.len() implies bo[i].frame
                <= bo[j].frame by {
                if j == bo.len() - 1 && i < j {
                    let n = choose|n: int|
                        0 <= n < rest.len() && rest[n].command.is_build_order()
                            && #[trigger] build_order_of(rest)[i] == entry_of(rest[n]);
                    assert(cmds[n] == rest[n]);
                    assert(cmds[n].frame <= cmds[cmds.len() - 1].frame);
                }
            }
        }
    }
}

/// The build action of a build order command.
fn build_action(c: &Command) -> (a: BuildAction)
    requires
        c@.is_build_order(),
    ensures
        a == build_action_of(c@),
{
    match c {
        Command::Build { unit_type, .. } => BuildAction::Build(*unit_type),
        Command::Train { unit_type } => BuildAction::Train(*unit_type),
        Command::UnitMorph { unit_type } => BuildAction::UnitMorph(*unit_type),
        Command::BuildingMorph { unit_type } => BuildAction::BuildingMorph(*unit_type),
        Command::Research { tech_type } => BuildAction::Research(*tech_type),
        Command::Upgrade { upgrade_type } => BuildAction::Upgrade(*upgrade_type),
        _ => BuildAction::TrainFighter,
    }
}

/// Extract the build order from the command stream.
pub fn extract_build_order(commands: &[GameCommand]) -> (bo: Vec<BuildOrderEntry>)
    ensures
        bo@ == build_order_of(view_commands(commands@)),
{
    let mut bo: Vec<BuildOrderEntry> = Vec::new();
    let mut i: usize = 0;
    while i < commands.len()
        invariant
            i <= commands@.len(),
            bo@ == build_order_of(view_commands(commands@.take(i as int))),
        decreases commands@.len() - i,
    {
        let c = &commands[i];
        assert(view_commands(commands@.take(i + 1)).drop_last() =~= view_commands(
            commands@.take(i as int),
        ));
        assert(view_commands(commands@.take(i + 1)).last() == c@);
        if c.command.is_build_order_action() {
            let action = build_action(&c.command);
            bo.push(BuildOrderEntry { frame: c.frame, player_id: c.player_id, action });
        }
        i = i + 1;
    }
    assert(commands@.take(i as int) =~= commands@);
    bo
}

/// Whether a command of `pid` inside the frames `lo <= frame < hi` counts:
/// as an effective action if `effective`, else as a meaningful one.
pub open spec fn counts(c: GameCommandView, pid: u8, lo: int, hi: int, effective: bool) -> bool {
    &&& c.player_id == pid
    &&& lo <= c.frame < hi
    &&& if effective {
        c.command.is_effective()
    } else {
        c.command.is_meaningful()
    }
}

/// The number of commands that count (see `counts`).
pub open spec fn count_actions(
    cmds: Seq<GameCommandView>,
    pid: u8,
    lo: int,
    hi: int,
    effective: bool,
) -> nat
    decreases cmds.len(),
{
    if cmds.len() == 0 {
        0
    } else {
        count_actions(cmds.drop_last(), pid, lo, hi, effective) + if counts(
            cmds.last(),
            pid,
            lo,
            hi,
            effective,
        ) {
            1nat
        } else {
            0nat
        }
    }
}

/// Effective actions are never more than meaningful ones, in any window.
pub proof fn lemma_effective_at_most_meaningful(
    cmds: Seq<GameCommandView>,
    pid: u8,
    lo: int,
    hi: int,
)
    ensures
        count_actions(cmds, pid, lo, hi, true) <= count_actions(cmds, pid, lo, hi, false),
        count_actions(cmds, pid, lo, hi, false) <= cmds.len(),
    decreases cmds.len(),
{
    if cmds.len() > 0 {
        lemma_effective_at_most_meaningful(cmds.drop_last(), pid, lo, hi);
    }
}

/// One more command of `pid` inside the window adds one to the meaningful
/// count exactly when it is an action that APM counts, and one to the
/// effective count exactly when it is also not a hotkey recall; a command of
/// another player, or outside the window, changes neither count.
pub proof fn lemma_count_one_more(
    cmds: Seq<GameCommandView>,
    c: GameCommandView,
    pid: u8,
    lo: int,
    hi: int,
)
    ensures
        c.player_id == pid && lo <= c.frame < hi ==> count_actions(cmds.push(c), pid, lo, hi, false)
            == count_actions(cmds, pid, lo, hi, false) + if not_an_action(c.command) {
            0int
        } else {
            1int
        },
        c.player_id == pid && lo <= c.frame < hi ==> count_actions(cmds.push(c), pid, lo, hi, true)
            == count_actions(cmds, pid, lo, hi, true) + if not_an_action(c.command) || (
        c.command matches CommandView::Hotkey { action, .. } && action == HotkeyAction::Select) {
            0int
        } else {
            1int
        },
        c.player_id != pid || !(lo <= c.frame < hi) ==> count_actions(
            cmds.push(c),
            pid,
            lo,
            hi,
            false,
        ) == count_actions(cmds, pid, lo, hi, false) && count_actions(cmds.push(c), pid, lo, hi, true)
            == count_actions(cmds, pid, lo, hi, true),
{
    assert(cmds.push(c).drop_last() =~= cmds);
    lemma_meaningful_exactly(c.command);
}

/// Whether some command was issued by player `p`.
pub open spec fn has_player(cmds: Seq<GameCommandView>, p: int) -> bool {
    exists|i: int| 0 <= i < cmds.len() && cmds[i].player_id == p
}

/// The players from `p` on that issued a command, in increasing order.
pub open spec fn players_from(cmds: Seq<GameCommandView>, p: int) -> Seq<u8>
    decreases 256 - p,
{
    if p >= 256 || p < 0 {
        Seq::empty()
    } else if has_player(cmds, p) {
        seq![p as u8] + players_from(cmds, p + 1)
    } else {
        players_from(cmds, p + 1)
    }
}

/// The players that issued a command, in increasing order, each once.
pub open spec fn players_of(cmds: Seq<GameCommandView>) -> Seq<u8> {
    players_from(cmds, 0)
}

/// The players of a stream come in strictly increasing order.
pub proof fn lemma_players_increasing(cmds: Seq<GameCommandView>, p: int)
    requires
        0 <= p,
    ensures
        forall|i: int| 0 <= i < players_from(cmds, p).len() ==> p <= #[trigger] players_from(
            cmds,
            p,
        )[i] < 256,
        forall|i: int, j: int|
            0 <= i < j < players_from(cmds, p).len() ==> players_from(cmds, p)[i] < players_from(
                cmds,
                p,
            )[j],
    decreases 256 - p,
{
    if p < 256 {
        lemma_players_increasing(cmds, p + 1);
        let rest = players_from(cmds, p + 1);
        let all = players_from(cmds, p);
        if has_player(cmds, p) {
            assert(all == seq![p as u8] + rest);
            assert forall|i: int| 0 <= i < all.len() implies p <= #[trigger] all[i] < 256 by {
                if i > 0 {
                    assert(all[i] == rest[i - 1]);
                }
            }
            assert forall|i: int, j: int| 0 <= i < j < all.len() implies all[i] < all[j] by {
                assert(all[j] == rest[j - 1]);
                if i > 0 {
                    assert(all[i] == rest[i - 1]);
                }
            }
        }
    }
}

/// A player's action counts over a whole game.
#[derive(Debug, Clone, Copy)]
pub struct PlayerActionCounts {
    pub player_id: u8,
    /// Meaningful actions (for APM).
    pub meaningful: usize,
    /// Effective actions (for EAPM).
    pub effective: usize,
}

/// A player's action counts in the window that ends at `frame`.
#[derive(Debug, Clone, Copy)]
pub struct WindowActionCounts {
    pub frame: u32,
    pub player_id: u8,
    pub meaningful: usize,
    pub effective: usize,
}

/// One past the last frame a `u32` can hold: a window that takes in every frame.
pub open spec fn all_frames() -> int {
    0x1_0000_0000
}

/// Count the actions of `pid` inside `lo <= frame < hi`.
fn count_in_window(
    commands: &[GameCommand],
    pid: u8,
    lo: u64,
    hi: u64,
    effective: bool,
) -> (n: usize)
    ensures
        n == count_actions(view_commands(commands@), pid, lo as int, hi as int, effective),
{
    let mut n: usize = 0;
    let mut i: usize = 0;
    while i < commands.len()
        invariant
            i <= commands@.len(),
            n == count_actions(
                view_commands(commands@.take(i as int)),
                pid,
                lo as int,
                hi as int,
                effective,
            ),
            n <= i,
        decreases commands@.len() - i,
    {
        let c = &commands[i];
        assert(view_commands(commands@.take(i + 1)).drop_last() =~= view_commands(
            commands@.take(i as int),
        ));
        assert(view_commands(commands@.take(i + 1)).last() == c@);
        let kind = if effective {
            c.command.is_effective_action()
        } else {
            c.command.is_meaningful_action()
        };
        if c.player_id == pid && lo <= c.frame as u64 && (c.frame as u64) < hi && kind {
            n = n + 1;
        }
        i = i + 1;
    }
    assert(commands@.take(i as int) =~= commands@);
    n
}

/// The players that issued a command, in increasing order.
fn players_present(commands: &[GameCommand]) -> (ids: Vec<u8>)
    ensures
        ids@ == players_of(view_commands(commands@)),
{
    let ghost cmds = view_commands(commands@);
    let mut seen = [false; 256];
    let mut i: usize = 0;
    while i < commands.len()
        invariant
            i <= commands@.len(),
            cmds == view_commands(commands@),
            forall|p: int|
                0 <= p < 256 ==> #[trigger] seen[p] == exists|k: int|
                    0 <= k < i && cmds[k].player_id == p,
        decreases commands@.len() - i,
    {
        let pid = commands[i].player_id;
        assert(cmds[i as int].player_id == pid);
        seen[pid as usize] = true;
        i = i + 1;
        assert forall|p: int| 0 <= p < 256 implies #[trigger] seen[p] == exists|k: int|
            0 <= k < i && cmds[k].player_id == p by {
            if p == pid {
                assert(cmds[i - 1].player_id == p);
            }
        }
    }
    let mut ids: Vec<u8> = Vec::new();
    let mut p: usize = 256;
    let mut out_rev: Vec<u8> = Vec::new();
    // Walk down from 255 so that each step prepends to the known suffix.
    let ghost mut suffix: Seq<u8> = Seq::empty();
    while p > 0
        invariant
            p <= 256,
            cmds == view_commands(commands@),
            forall|q: int| 0 <= q < 256 ==> #[trigger] seen[q] == has_player(cmds, q),
            out_rev@ == suffix.reverse(),
            suffix == players_from(cmds, p as int),
        decreases p,
    {
        p = p - 1;
        if seen[p] {
            out_rev.push(p as u8);
            proof {
                suffix = seq![p as u8] + suffix;
                assert(out_rev@ =~= suffix.reverse());
            }
        }
    }
    let mut k: usize = out_rev.len();
    while k > 0
        invariant
            k <= out_rev@.len(),
            ids@ == out_rev@.subrange(k as int, out_rev@.len() as int).reverse(),
        decreases k,
    {
        k = k - 1;
        ids.push(out_rev[k]);
        assert(ids@ =~= out_rev@.subrange(k as int, out_rev@.len() as int).reverse());
    }
    assert(out_rev@.subrange(0, out_rev@.len() as int) =~= out_rev@);
    assert(suffix.reverse().reverse() =~= suffix);
    ids
}

/// Each player's meaningful and effective action counts over the whole game,
/// players in increasing order, each once.
pub fn player_action_counts(commands: &[GameCommand]) -> (r: Vec<PlayerActionCounts>)
    ensures
        r@.len() == players_of(view_commands(commands@)).len(),
        forall|i: int|
            0 <= i < r@.len() ==> #[trigger] r@[i] == player_counts(
                view_commands(commands@),
                players_of(view_commands(commands@))[i],
            ),
        forall|i: int| 0 <= i < r@.len() ==> #[trigger] r@[i].effective <= r@[i].meaningful,
{
    let ids = players_present(commands);
    let mut out: Vec<PlayerActionCounts> = Vec::new();
    let mut i: usize = 0;
    while i < ids.len()
        invariant
            i <= ids@.len(),
            ids@ == players_of(view_commands(commands@)),
            out@.len() == i,
            forall|k: int|
                0 <= k < i ==> #[trigger] out@[k] == player_counts(view_commands(commands@), ids@[k]),
            forall|k: int| 0 <= k < i ==> #[trigger] out@[k].effective <= out@[k].meaningful,
        decreases ids@.len() - i,
    {
        let pid = ids[i];
        let meaningful = count_in_window(commands, pid, 0, 0x1_0000_0000, false);
        let effective = count_in_window(commands, pid, 0, 0x1_0000_0000, true);
        proof {
            lemma_effective_at_most_meaningful(view_commands(commands@), pid, 0, all_frames());
        }
        out.push(PlayerActionCounts { player_id: pid, meaningful, effective });
        i = i + 1;
    }
    out
}

/// A player's counts over the whole game.
pub open spec fn player_counts(cmds: Seq<GameCommandView>, pid: u8) -> PlayerActionCounts {
    PlayerActionCounts {
        player_id: pid,
        meaningful: count_actions(cmds, pid, 0, all_frames(), false) as usize,
        effective: count_actions(cmds, pid, 0, all_frames(), true) as usize,
    }
}

/// The first frame of the window of `window` frames that ends at `frame`.
pub open spec fn window_start(frame: int, window: int) -> int {
    if frame >= window {
        frame - window
    } else {
        0
    }
}

/// The sample for player `pid` at `frame`.
pub open spec fn window_sample(
    cmds: Seq<GameCommandView>,
    pid: u8,
    frame: u32,
    window: u32,
) -> WindowActionCounts {
    WindowActionCounts {
        frame,
        player_id: pid,
        meaningful: count_actions(
            cmds,
            pid,
            window_start(frame as int, window as int),
            frame as int,
            false,
        ) as usize,
        effective: count_actions(
            cmds,
            pid,
            window_start(frame as int, window as int),
            frame as int,
            true,
        ) as usize,
    }
}

/// The samples at `frame` and at every `step` frames after it up to `total`:
/// at each sampled frame, one per player in increasing order.
pub open spec fn window_samples_from(
    cmds: Seq<GameCommandView>,
    total: u32,
    window: u32,
    step: u32,
    frame: int,
) -> Seq<WindowActionCounts>
    decreases total - frame,
{
    if frame > total || step == 0 || frame < 0 {
        Seq::empty()
    } else {
        let here = players_of(cmds).map_values(
            |pid: u8| window_sample(cmds, pid, frame as u32, window),
        );
        if frame + step > total {
            here
        } else {
            here + window_samples_from(cmds, total, window, step, frame + step)
        }
    }
}

/// Whether the sampling loop stays inside `u32`: the frame after the last
/// sampled one is still a `u32`.
pub open spec fn sampling_fits(total: u32, step: u32) -> bool {
    step == 0 || (total / step) * step + step <= u32::MAX
}

/// Action counts of each player in sliding windows of `window_frames` frames,
/// sampled every `step_frames` frames from frame 0 to `total_frames`; empty
/// when any of the three is zero.
pub fn windowed_action_counts(
    commands: &[GameCommand],
    total_frames: u32,
    window_frames: u32,
    step_frames: u32,
) -> (r: Vec<WindowActionCounts>)
    requires
        sampling_fits(total_frames, step_frames),
    ensures
        total_frames == 0 || step_frames == 0 || window_frames == 0 ==> r@.len() == 0,
        !(total_frames == 0 || step_frames == 0 || window_frames == 0) ==> r@
            == window_samples_from(
            view_commands(commands@),
            total_frames,
            window_frames,
            step_frames,
            0,
        ),
{
    let mut samples: Vec<WindowActionCounts> = Vec::new();
    if total_frames == 0 || step_frames == 0 || window_frames == 0 {
        return samples;
    }
    let ghost cmds = view_commands(commands@);
    let ids = players_present(commands);
    let mut frame: u32 = 0;
    let ghost mut k: int = 0;
    while frame <= total_frames
        invariant
            cmds == view_commands(commands@),
            ids@ == players_of(cmds),
            step_frames > 0,
            sampling_fits(total_frames, step_frames),
            frame == k * step_frames,
            0 <= k,
            frame <= total_frames ==> k <= total_frames / step_frames,
            k > total_frames / step_frames ==> frame > total_frames,
            window_samples_from(cmds, total_frames, window_frames, step_frames, 0) == samples@
                + window_samples_from(cmds, total_frames, window_frames, step_frames, frame as int),
        decreases total_frames / step_frames + 1 - k,
    {
        let lo: u32 = if frame >= window_frames {
            frame - window_frames
        } else {
            0
        };
        let ghost before = samples@;
        let mut j: usize = 0;
        while j < ids.len()
            invariant
                cmds == view_commands(commands@),
                j <= ids@.len(),
                samples@ == before + ids@.take(j as int).map_values(
                    |pid: u8| window_sample(cmds, pid, frame, window_frames),
                ),
                lo == window_start(frame as int, window_frames as int),
            decreases ids@.len() - j,
        {
            let pid = ids[j];
            let meaningful = count_in_window(commands, pid, lo as u64, frame as u64, false);
            let effective = count_in_window(commands, pid, lo as u64, frame as u64, true);
            samples.push(WindowActionCounts { frame, player_id: pid, meaningful, effective });
            j = j + 1;
            assert(samples@ =~= before + ids@.take(j as int).map_values(
                |pid: u8| window_sample(cmds, pid, frame, window_frames),
            ));
        }
        assert(ids@.take(j as int) =~= ids@);
        assert(samples@ + window_samples_from(
            cmds,
            total_frames,
            window_frames,
            step_frames,
            frame + step_frames,
        ) =~= before + window_samples_from(
            cmds,
            total_frames,
            window_frames,
            step_frames,
            frame as int,
        ));
        assert(k <= total_frames / step_frames);
        assert(k * step_frames + step_frames <= (total_frames / step_frames) * step_frames
            + step_frames) by (nonlinear_arith)
            requires
                k <= total_frames / step_frames,
                step_frames > 0,
        ;
        assert((k + 1) * step_frames == k * step_frames + step_frames) by (nonlinear_arith);
        proof {
            if k + 1 <= total_frames / step_frames {
            } else {
                assert((total_frames / step_frames + 1) * step_frames > total_frames)
                    by (nonlinear_arith)
                    requires
                        step_frames > 0,
                ;
                assert((k + 1) * step_frames >= (total_frames / step_frames + 1) * step_frames)
                    by (nonlinear_arith)
                    requires
                        k + 1 >= total_frames / step_frames + 1,
                        step_frames > 0,
                ;
            }
        }
        frame = frame + step_frames;
        proof {
            k = k + 1;
        }
    }
    assert(samples@ + Seq::<WindowActionCounts>::empty() =~= samples@);
    samples
}

} // verus!
