//! The whole-number parts of player skill estimation: skill tiers, hotkey
//! counts and the frame of a player's first production action.

use vstd::prelude::*;
use crate::command::{Command, CommandView, GameCommand, GameCommandView, HotkeyAction, view_commands};

verus! {

/// Rough skill tier buckets.
#[derive(Debug, Clone, Copy, PartialEq, Eq, Structural, Hash)]
pub enum SkillTier {
    Beginner,
    Intermediate,
    Advanced,
    Expert,
    Professional,
}

/// The display name of a skill tier.
pub open spec fn tier_name(t: SkillTier) -> Seq<char> {
    match t {
        SkillTier::Beginner => "Beginner"@,
        SkillTier::Intermediate => "Intermediate"@,
        SkillTier::Advanced => "Advanced"@,
        SkillTier::Expert => "Expert"@,
        SkillTier::Professional => "Professional"@,
    }
}

impl SkillTier {
    /// The display name (e.g. "Expert").
    pub fn name(self) -> (s: &'static str)
        ensures
            s@ == tier_name(self),
    {
        match self {
            SkillTier::Beginner => "Beginner",
            SkillTier::Intermediate => "Intermediate",
            SkillTier::Advanced => "Advanced",
            SkillTier::Expert => "Expert",
            SkillTier::Professional => "Professional",
        }
    }
}

/// Whether a command is a hotkey command of player `pid` with the given action.
pub open spec fn is_hotkey_of(c: GameCommandView, pid: u8, action: HotkeyAction) -> bool {
    c.player_id == pid && (c.command matches CommandView::Hotkey { action: a, .. } && a == action)
}

/// The number of hotkey commands of player `pid` with the given action.
pub open spec fn hotkey_count(cmds: Seq<GameCommandView>, pid: u8, action: HotkeyAction) -> nat
    decreases cmds.len(),
{
    if cmds.len() == 0 {
        0
    } else {
        hotkey_count(cmds.drop_last(), pid, action) + if is_hotkey_of(cmds.last(), pid, action) {
            1nat
        } else {
            0nat
        }
    }
}

/// There are never more hotkey commands than commands.
proof fn lemma_hotkey_count_bound(cmds: Seq<GameCommandView>, pid: u8, action: HotkeyAction)
    ensures
        hotkey_count(cmds, pid, action) <= cmds.len(),
    decreases cmds.len(),
{
    if cmds.len() > 0 {
        lemma_hotkey_count_bound(cmds.drop_last(), pid, action);
    }
}

/// Count a player's hotkey assigns and recalls: `(assigns, recalls)`.
pub fn count_hotkeys(commands: &[GameCommand], player_id: u8) -> (r: (u32, u32))
    requires
        commands@.len() <= u32::MAX,
    ensures
        r.0 == hotkey_count(view_commands(commands@), player_id, HotkeyAction::Assign),
        r.1 == hotkey_count(view_commands(commands@), player_id, HotkeyAction::Select),
{
    let mut assigns: u32 = 0;
    let mut recalls: u32 = 0;
    let mut i: usize = 0;
    while i < commands.len()
        invariant
            i <= commands@.len(),
            commands@.len() <= u32::MAX,
            assigns == hotkey_count(
                view_commands(commands@.take(i as int)),
                player_id,
                HotkeyAction::Assign,
            ),
            recalls == hotkey_count(
                view_commands(commands@.take(i as int)),
                player_id,
                HotkeyAction::Select,
            ),
        decreases commands@.len() - i,
    {
        let c = &commands[i];
        let ghost prefix = view_commands(commands@.take(i as int));
        assert(view_commands(commands@.take(i + 1)).drop_last() =~= prefix);
        assert(view_commands(commands@.take(i + 1)).last() == c@);
        proof {
            lemma_hotkey_count_bound(prefix, player_id, HotkeyAction::Assign);
            lemma_hotkey_count_bound(prefix, player_id, HotkeyAction::Select);
        }
        if c.player_id == player_id {
            if let Command::Hotkey { action, .. } = &c.command {
                match action {
                    HotkeyAction::Assign => assigns = assigns + 1,
                    HotkeyAction::Select => recalls = recalls + 1,
                }
            }
        }
        i = i + 1;
    }
    assert(commands@.take(i as int) =~= commands@);
    (assigns, recalls)
}

/// The frame of player `pid`'s first build order action, if any.
pub open spec fn first_build_frame(cmds: Seq<GameCommandView>, pid: u8) -> Option<u32>
    decreases cmds.len(),
{
    if cmds.len() == 0 {
        None
    } else if cmds[0].player_id == pid && cmds[0].command.is_build_order() {
        Some(cmds[0].frame)
    } else {
        first_build_frame(cmds.drop_first(), pid)
    }
}

/// The frame of a player's first production or tech action (lower means a
/// faster opening), if they made one.
pub fn first_action_frame(commands: &[GameCommand], player_id: u8) -> (r: Option<u32>)
    ensures
        r == first_build_frame(view_commands(commands@), player_id),
{
    let mut i: usize = 0;
    assert(view_commands(commands@).skip(0) =~= view_commands(commands@));
    while i < commands.len()
        invariant
            i <= commands@.len(),
            first_build_frame(view_commands(commands@), player_id) == first_build_frame(
                view_commands(commands@).skip(i as int),
                player_id,
            ),
        decreases commands@.len() - i,
    {
        let c = &commands[i];
        let ghost rest = view_commands(commands@).skip(i as int);
        assert(rest[0] == c@);
        assert(rest.drop_first() =~= view_commands(commands@).skip(i + 1));
        if c.player_id == player_id && c.command.is_build_order_action() {
            return Some(c.frame);
        }
        i = i + 1;
    }
    None
}

} // verus!
