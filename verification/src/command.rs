//! Decoding of the replay command stream (section 2 of a replay).

use vstd::prelude::*;
use crate::bytes::{le16, le16_at, le32_at, read_u16_le, read_u32_le};
use crate::text::{lossy_utf8, utf8_lossy_string};

verus! {

/// A single command issued by a player at a specific game frame.
#[derive(Debug, Clone)]
pub struct GameCommand {
    pub frame: u32,
    pub player_id: u8,
    pub command: Command,
}

/// Decoded command types.
///
/// Only gameplay-relevant commands are fully decoded. UI-only commands
/// (lobby, voice, sync) are captured as `Other` with their type ID.
#[derive(Debug, Clone)]
pub enum Command {
    Select { unit_tags: Vec<u16> },
    SelectAdd { unit_tags: Vec<u16> },
    SelectRemove { unit_tags: Vec<u16> },
    Build { order: u8, x: u16, y: u16, unit_type: u16 },
    RightClick { x: u16, y: u16, target_tag: u16, unit_type: u16, queued: bool },
    TargetedOrder { x: u16, y: u16, target_tag: u16, unit_type: u16, order: u8, queued: bool },
    Hotkey { action: HotkeyAction, group: u8 },
    Train { unit_type: u16 },
    CancelTrain { unit_tag: u16 },
    UnitMorph { unit_type: u16 },
    BuildingMorph { unit_type: u16 },
    Research { tech_type: u8 },
    CancelResearch,
    Upgrade { upgrade_type: u8 },
    CancelUpgrade,
    Stop { queued: bool },
    HoldPosition { queued: bool },
    Siege { queued: bool },
    Unsiege { queued: bool },
    Cloak { queued: bool },
    Decloak { queued: bool },
    Burrow { queued: bool },
    Unburrow { queued: bool },
    ReturnCargo { queued: bool },
    UnloadAll { queued: bool },
    Unload { unit_tag: u16 },
    LiftOff { x: u16, y: u16 },
    MergeArchon,
    MergeDarkArchon,
    TrainFighter,
    Stim,
    CancelBuild,
    CancelMorph,
    CancelAddon,
    CancelNuke,
    MinimapPing { x: u16, y: u16 },
    Chat { sender_slot: u8, message: String },
    LeaveGame { reason: u8 },
    KeepAlive,
    /// Latency, sync, lobby, voice, and other non-gameplay commands.
    Other { type_id: u8 },
}

/// Hotkey assign vs recall.
#[derive(Debug, Clone, Copy, PartialEq, Eq, Structural)]
pub enum HotkeyAction {
    Assign,
    Select,
}

/// The mathematical value of a [`Command`]: unit tags and chat text as sequences.
pub enum CommandView {
    Select { unit_tags: Seq<u16> },
    SelectAdd { unit_tags: Seq<u16> },
    SelectRemove { unit_tags: Seq<u16> },
    Build { order: u8, x: u16, y: u16, unit_type: u16 },
    RightClick { x: u16, y: u16, target_tag: u16, unit_type: u16, queued: bool },
    TargetedOrder { x: u16, y: u16, target_tag: u16, unit_type: u16, order: u8, queued: bool },
    Hotkey { action: HotkeyAction, group: u8 },
    Train { unit_type: u16 },
    CancelTrain { unit_tag: u16 },
    UnitMorph { unit_type: u16 },
    BuildingMorph { unit_type: u16 },
    Research { tech_type: u8 },
    CancelResearch,
    Upgrade { upgrade_type: u8 },
    CancelUpgrade,
    Stop { queued: bool },
    HoldPosition { queued: bool },
    Siege { queued: bool },
    Unsiege { queued: bool },
    Cloak { queued: bool },
    Decloak { queued: bool },
    Burrow { queued: bool },
    Unburrow { queued: bool },
    ReturnCargo { queued: bool },
    UnloadAll { queued: bool },
    Unload { unit_tag: u16 },
    LiftOff { x: u16, y: u16 },
    MergeArchon,
    MergeDarkArchon,
    TrainFighter,
    Stim,
    CancelBuild,
    CancelMorph,
    CancelAddon,
    CancelNuke,
    MinimapPing { x: u16, y: u16 },
    Chat { sender_slot: u8, message: Seq<char> },
    LeaveGame { reason: u8 },
    KeepAlive,
    Other { type_id: u8 },
}

/// The mathematical value of a [`GameCommand`].
pub struct GameCommandView {
    pub frame: u32,
    pub player_id: u8,
    pub command: CommandView,
}

impl View for Command {
    type V = CommandView;

    open spec fn view(&self) -> CommandView {
        match self {
            Command::Select { unit_tags } => CommandView::Select { unit_tags: unit_tags@ },
            Command::SelectAdd { unit_tags } => CommandView::SelectAdd { unit_tags: unit_tags@ },
            Command::SelectRemove { unit_tags } => CommandView::SelectRemove { unit_tags: unit_tags@ },
            Command::Build { order, x, y, unit_type } => CommandView::Build {
                order: *order,
                x: *x,
                y: *y,
                unit_type: *unit_type,
            },
            Command::RightClick { x, y, target_tag, unit_type, queued } => CommandView::RightClick {
                x: *x,
                y: *y,
                target_tag: *target_tag,
                unit_type: *unit_type,
                queued: *queued,
            },
            Command::TargetedOrder { x, y, target_tag, unit_type, order, queued } =>
                CommandView::TargetedOrder {
                x: *x,
                y: *y,
                target_tag: *target_tag,
                unit_type: *unit_type,
                order: *order,
                queued: *queued,
            },
            Command::Hotkey { action, group } => CommandView::Hotkey { action: *action, group: *group },
            Command::Train { unit_type } => CommandView::Train { unit_type: *unit_type },
            Command::CancelTrain { unit_tag } => CommandView::CancelTrain { unit_tag: *unit_tag },
            Command::UnitMorph { unit_type } => CommandView::UnitMorph { unit_type: *unit_type },
            Command::BuildingMorph { unit_type } => CommandView::BuildingMorph { unit_type: *unit_type },
            Command::Research { tech_type } => CommandView::Research { tech_type: *tech_type },
            Command::CancelResearch => CommandView::CancelResearch,
            Command::Upgrade { upgrade_type } => CommandView::Upgrade { upgrade_type: *upgrade_type },
            Command::CancelUpgrade => CommandView::CancelUpgrade,
            Command::Stop { queued } => CommandView::Stop { queued: *queued },
            Command::HoldPosition { queued } => CommandView::HoldPosition { queued: *queued },
            Command::Siege { queued } => CommandView::Siege { queued: *queued },
            Command::Unsiege { queued } => CommandView::Unsiege { queued: *queued },
            Command::Cloak { queued } => CommandView::Cloak { queued: *queued },
            Command::Decloak { queued } => CommandView::Decloak { queued: *queued },
            Command::Burrow { queued } => CommandView::Burrow { queued: *queued },
            Command::Unburrow { queued } => CommandView::Unburrow { queued: *queued },
            Command::ReturnCargo { queued } => CommandView::ReturnCargo { queued: *queued },
            Command::UnloadAll { queued } => CommandView::UnloadAll { queued: *queued },
            Command::Unload { unit_tag } => CommandView::Unload { unit_tag: *unit_tag },
            Command::LiftOff { x, y } => CommandView::LiftOff { x: *x, y: *y },
            Command::MergeArchon => CommandView::MergeArchon,
            Command::MergeDarkArchon => CommandView::MergeDarkArchon,
            Command::TrainFighter => CommandView::TrainFighter,
            Command::Stim => CommandView::Stim,
            Command::CancelBuild => CommandView::CancelBuild,
            Command::CancelMorph => CommandView::CancelMorph,
            Command::CancelAddon => CommandView::CancelAddon,
            Command::CancelNuke => CommandView::CancelNuke,
            Command::MinimapPing { x, y } => CommandView::MinimapPing { x: *x, y: *y },
            Command::Chat { sender_slot, message } => CommandView::Chat {
                sender_slot: *sender_slot,
                message: message@,
            },
            Command::LeaveGame { reason } => CommandView::LeaveGame { reason: *reason },
            Command::KeepAlive => CommandView::KeepAlive,
            Command::Other { type_id } => CommandView::Other { type_id: *type_id },
        }
    }
}

impl View for GameCommand {
    type V = GameCommandView;

    open spec fn view(&self) -> GameCommandView {
        GameCommandView { frame: self.frame, player_id: self.player_id, command: self.command@ }
    }
}

/// The views of a sequence of game commands.
pub open spec fn view_commands(cmds: Seq<GameCommand>) -> Seq<GameCommandView> {
    cmds.map_values(|c: GameCommand| c@)
}

impl CommandView {
    /// A meaningful player action for APM counting: everything but keepalive,
    /// selections, chat, leave, minimap pings and non-gameplay commands.
    pub open spec fn is_meaningful(self) -> bool {
        !(self is KeepAlive || self is Other || self is Select || self is SelectAdd
            || self is SelectRemove || self is Chat || self is LeaveGame || self is MinimapPing)
    }

    /// An effective action for EAPM: meaningful, and not a hotkey recall.
    pub open spec fn is_effective(self) -> bool {
        self.is_meaningful() && !(self matches CommandView::Hotkey { action, .. } && action
            == HotkeyAction::Select)
    }

    /// An action that affects the build order (structure, unit, tech, upgrade).
    pub open spec fn is_build_order(self) -> bool {
        self is Build || self is Train || self is UnitMorph || self is BuildingMorph
            || self is Research || self is Upgrade || self is TrainFighter
    }
}

impl Command {
    /// Whether this command represents a meaningful player action for APM counting.
    /// Excludes keepalive, selections, hotkey recalls, and non-gameplay commands.
    pub fn is_meaningful_action(&self) -> (r: bool)
        ensures
            r == self@.is_meaningful(),
    {
        match self {
            Command::KeepAlive
            | Command::Other { .. }
            | Command::Select { .. }
            | Command::SelectAdd { .. }
            | Command::SelectRemove { .. }
            | Command::Chat { .. }
            | Command::LeaveGame { .. }
            | Command::MinimapPing { .. } => false,
            _ => true,
        }
    }

    /// Whether this command represents an "effective" action for EAPM.
    /// Stricter than meaningful: also excludes hotkey recalls.
    pub fn is_effective_action(&self) -> (r: bool)
        ensures
            r == self@.is_effective(),
            r ==> self@.is_meaningful(),
    {
        if !self.is_meaningful_action() {
            return false;
        }
        if let Command::Hotkey { action, .. } = self {
            return *action == HotkeyAction::Assign;
        }
        true
    }

    /// Whether this command affects the build order (structure, unit, tech, upgrade).
    pub fn is_build_order_action(&self) -> (r: bool)
        ensures
            r == self@.is_build_order(),
            r ==> self@.is_meaningful(),
    {
        match self {
            Command::Build { .. }
            | Command::Train { .. }
            | Command::UnitMorph { .. }
            | Command::BuildingMorph { .. }
            | Command::Research { .. }
            | Command::Upgrade { .. }
            | Command::TrainFighter => true,
            _ => false,
        }
    }
}

/// Every effective action is a meaningful action: EAPM never exceeds APM.
pub proof fn lemma_effective_is_meaningful(c: CommandView)
    ensures
        c.is_effective() ==> c.is_meaningful(),
{
}

/// The commands that APM does not count: keepalives, non-gameplay commands,
/// selections, chat, leaving, and minimap pings.
pub open spec fn not_an_action(c: CommandView) -> bool {
    ||| c is KeepAlive
    ||| c is Other
    ||| c is Select
    ||| c is SelectAdd
    ||| c is SelectRemove
    ||| c is Chat
    ||| c is LeaveGame
    ||| c is MinimapPing
}

/// A command is meaningful exactly when it is not one of the commands that APM
/// leaves out; orders, right-clicks, builds, training, hotkeys, research and
/// upgrades all count. It is effective exactly when it is meaningful and not a
/// hotkey recall.
pub proof fn lemma_meaningful_exactly(c: CommandView)
    ensures
        c.is_meaningful() <==> !not_an_action(c),
        c is RightClick || c is TargetedOrder || c is Build || c is Train || c is Hotkey
            || c is Research || c is Upgrade || c is Stop || c is UnitMorph
            || c is BuildingMorph ==> c.is_meaningful(),
        c.is_effective() <==> !not_an_action(c) && !(c matches CommandView::Hotkey { action, .. }
            && action == HotkeyAction::Select),
        c is RightClick || c is TargetedOrder || c is Build || c is Train ==> c.is_effective(),
{
}

/// The build order takes the commands that start a structure, a unit, a
/// morph, a research, an upgrade or an interceptor or scarab, and nothing else:
/// no order, right-click, selection, hotkey or cancel.
pub proof fn lemma_build_order_exactly(c: CommandView)
    ensures
        c.is_build_order() <==> (c is Build || c is Train || c is UnitMorph || c is BuildingMorph
            || c is Research || c is Upgrade || c is TrainFighter),
        c is RightClick || c is TargetedOrder || c is Hotkey || c is Select || c is CancelTrain
            || c is CancelResearch || c is CancelUpgrade || c is CancelBuild || c is CancelMorph
            ==> !c.is_build_order(),
{
}

/// Every build order action is a meaningful action.
pub proof fn lemma_build_order_is_meaningful(c: CommandView)
    ensures
        c.is_build_order() ==> c.is_meaningful(),
{
}

} // verus!

verus! {

/// The command that an unknown or undecodable type id stands for, consuming nothing.
pub open spec fn unknown(t: u8) -> (CommandView, nat) {
    (CommandView::Other { type_id: t }, 0)
}

/// The smaller of `a` and `b`.
pub open spec fn min_nat(a: nat, b: nat) -> nat {
    if a <= b { a } else { b }
}

/// Unit tags of a pre-1.21 selection: `count` little-endian `u16` values after the count byte.
pub open spec fn select_tags(d: Seq<u8>, count: nat) -> Seq<u16> {
    Seq::new(count, |i: int| le16_at(d, 1 + 2 * i))
}

/// Unit tags of a 1.21+ selection: the first `u16` of each 4-byte entry after the count byte.
pub open spec fn select_tags_121(d: Seq<u8>, count: nat) -> Seq<u16> {
    Seq::new(count, |i: int| le16_at(d, 1 + 4 * i))
}

/// The selection command of the same variant as `template`, holding `tags`.
pub open spec fn with_tags(template: CommandView, tags: Seq<u16>) -> CommandView {
    match template {
        CommandView::SelectAdd { .. } => CommandView::SelectAdd { unit_tags: tags },
        CommandView::SelectRemove { .. } => CommandView::SelectRemove { unit_tags: tags },
        _ => CommandView::Select { unit_tags: tags },
    }
}

/// A pre-1.21 selection payload: `[u8 count] [u16 tag * count]`. A truncated
/// payload consumes what is left and yields an empty plain `Select`.
pub open spec fn spec_select(d: Seq<u8>, template: CommandView) -> (CommandView, nat) {
    if d.len() == 0 {
        (CommandView::Select { unit_tags: seq![] }, 0)
    } else if d.len() < 1 + 2 * (d[0] as nat) {
        (CommandView::Select { unit_tags: seq![] }, d.len())
    } else {
        (with_tags(template, select_tags(d, d[0] as nat)), 1 + 2 * (d[0] as nat))
    }
}

/// A 1.21+ selection payload: `[u8 count] [(u16 tag, u16 unknown) * count]`. A
/// truncated payload consumes what is left and yields an empty selection of the
/// template's variant.
pub open spec fn spec_select_121(d: Seq<u8>, template: CommandView) -> (CommandView, nat) {
    if d.len() == 0 {
        (with_tags(template, seq![]), 0)
    } else if d.len() < 1 + 4 * (d[0] as nat) {
        (with_tags(template, seq![]), d.len())
    } else {
        (with_tags(template, select_tags_121(d, d[0] as nat)), 1 + 4 * (d[0] as nat))
    }
}

/// The text of a chat payload: the 80 bytes after the sender slot, cut at the
/// first zero byte, decoded lossily as UTF-8.
pub open spec fn chat_text(d: Seq<u8>) -> Seq<char> {
    let msg = d.subrange(1, 81);
    lossy_utf8(msg.take(crate::bytes::nul_index(msg)))
}

/// The command of type `t` decoded from payload `d`, and how many payload bytes it uses.
pub open spec fn spec_parse_single(t: u8, d: Seq<u8>) -> (CommandView, nat) {
    match t {
        0x05 => (CommandView::KeepAlive, 0),
        0x08 => unknown(t),
        0x09 => spec_select(d, CommandView::Select { unit_tags: seq![] }),
        0x0A => spec_select(d, CommandView::SelectAdd { unit_tags: seq![] }),
        0x0B => spec_select(d, CommandView::SelectRemove { unit_tags: seq![] }),
        0x0C => if d.len() >= 7 { (CommandView::Build { order: d[0], x: le16_at(d, 1), y: le16_at(d, 3), unit_type: le16_at(d, 5) }, 7) } else { unknown(t) },
        0x0D => (CommandView::Other { type_id: t }, min_nat(2, d.len())),
        0x0E => (CommandView::Other { type_id: t }, min_nat(4, d.len())),
        0x0F => (CommandView::Other { type_id: t }, min_nat(1, d.len())),
        0x10 => unknown(t),
        0x11 => unknown(t),
        0x12 => (CommandView::Other { type_id: t }, min_nat(4, d.len())),
        0x13 => if d.len() >= 2 { (CommandView::Hotkey { action: if d[0] == 0 { HotkeyAction::Assign } else { HotkeyAction::Select }, group: d[1] }, 2) } else { unknown(t) },
        0x14 => if d.len() >= 9 { (CommandView::RightClick { x: le16_at(d, 0), y: le16_at(d, 2), target_tag: le16_at(d, 4), unit_type: le16_at(d, 6), queued: d[8] != 0 }, 9) } else { unknown(t) },
        0x15 => if d.len() >= 10 { (CommandView::TargetedOrder { x: le16_at(d, 0), y: le16_at(d, 2), target_tag: le16_at(d, 4), unit_type: le16_at(d, 6), order: d[8], queued: d[9] != 0 }, 10) } else { unknown(t) },
        0x18 => (CommandView::CancelBuild, 0),
        0x19 => (CommandView::CancelMorph, 0),
        0x1A => if d.len() >= 1 { (CommandView::Stop { queued: d[0] != 0 }, 1) } else { unknown(t) },
        0x1B => unknown(t),
        0x1C => unknown(t),
        0x1D => unknown(t),
        0x1E => if d.len() >= 1 { (CommandView::ReturnCargo { queued: d[0] != 0 }, 1) } else { unknown(t) },
        0x1F => if d.len() >= 2 { (CommandView::Train { unit_type: le16_at(d, 0) }, 2) } else { unknown(t) },
        0x20 => if d.len() >= 2 { (CommandView::CancelTrain { unit_tag: le16_at(d, 0) }, 2) } else { unknown(t) },
        0x21 => if d.len() >= 1 { (CommandView::Cloak { queued: d[0] != 0 }, 1) } else { unknown(t) },
        0x22 => if d.len() >= 1 { (CommandView::Decloak { queued: d[0] != 0 }, 1) } else { unknown(t) },
        0x23 => if d.len() >= 2 { (CommandView::UnitMorph { unit_type: le16_at(d, 0) }, 2) } else { unknown(t) },
        0x25 => if d.len() >= 1 { (CommandView::Unsiege { queued: d[0] != 0 }, 1) } else { unknown(t) },
        0x26 => if d.len() >= 1 { (CommandView::Siege { queued: d[0] != 0 }, 1) } else { unknown(t) },
        0x27 => (CommandView::TrainFighter, 0),
        0x28 => if d.len() >= 1 { (CommandView::UnloadAll { queued: d[0] != 0 }, 1) } else { unknown(t) },
        0x29 => if d.len() >= 2 { (CommandView::Unload { unit_tag: le16_at(d, 0) }, 2) } else { unknown(t) },
        0x2A => (CommandView::MergeArchon, 0),
        0x2B => if d.len() >= 1 { (CommandView::HoldPosition { queued: d[0] != 0 }, 1) } else { unknown(t) },
        0x2C => if d.len() >= 1 { (CommandView::Burrow { queued: d[0] != 0 }, 1) } else { unknown(t) },
        0x2D => if d.len() >= 1 { (CommandView::Unburrow { queued: d[0] != 0 }, 1) } else { unknown(t) },
        0x2E => (CommandView::CancelNuke, 0),
        0x2F => if d.len() >= 4 { (CommandView::LiftOff { x: le16_at(d, 0), y: le16_at(d, 2) }, 4) } else { unknown(t) },
        0x30 => if d.len() >= 1 { (CommandView::Research { tech_type: d[0] }, 1) } else { unknown(t) },
        0x31 => (CommandView::CancelResearch, 0),
        0x32 => if d.len() >= 1 { (CommandView::Upgrade { upgrade_type: d[0] }, 1) } else { unknown(t) },
        0x33 => (CommandView::CancelUpgrade, 0),
        0x34 => (CommandView::CancelAddon, 0),
        0x35 => if d.len() >= 2 { (CommandView::BuildingMorph { unit_type: le16_at(d, 0) }, 2) } else { unknown(t) },
        0x36 => (CommandView::Stim, 0),
        0x37 => (CommandView::Other { type_id: t }, min_nat(6, d.len())),
        0x38 | 0x39 => unknown(t),
        0x3A | 0x3B => (CommandView::Other { type_id: t }, min_nat(1, d.len())),
        0x3C => unknown(t),
        0x3D => (CommandView::Other { type_id: t }, min_nat(1, d.len())),
        0x3E => (CommandView::Other { type_id: t }, min_nat(5, d.len())),
        0x3F => (CommandView::Other { type_id: t }, min_nat(7, d.len())),
        0x40 => (CommandView::Other { type_id: t }, min_nat(17, d.len())),
        0x41 => (CommandView::Other { type_id: t }, min_nat(2, d.len())),
        0x42 | 0x43 => (CommandView::Other { type_id: t }, min_nat(1, d.len())),
        0x44 => (CommandView::Other { type_id: t }, min_nat(2, d.len())),
        0x45 => (CommandView::Other { type_id: t }, min_nat(2, d.len())),
        0x48 => (CommandView::Other { type_id: t }, min_nat(12, d.len())),
        0x54 => unknown(t),
        0x55 => (CommandView::Other { type_id: t }, min_nat(1, d.len())),
        0x56 => (CommandView::Other { type_id: t }, min_nat(9, d.len())),
        0x57 => if d.len() >= 1 { (CommandView::LeaveGame { reason: d[0] }, 1) } else { unknown(t) },
        0x58 => if d.len() >= 4 { (CommandView::MinimapPing { x: le16_at(d, 0), y: le16_at(d, 2) }, 4) } else { unknown(t) },
        0x5A => (CommandView::MergeDarkArchon, 0),
        0x5B => unknown(t),
        0x5C => if d.len() >= 81 { (CommandView::Chat { sender_slot: d[0], message: chat_text(d) }, 81) } else { unknown(t) },
        0x60 => if d.len() >= 11 { (CommandView::RightClick { x: le16_at(d, 0), y: le16_at(d, 2), target_tag: le16_at(d, 4), unit_type: le16_at(d, 8), queued: d[10] != 0 }, 11) } else { unknown(t) },
        0x61 => if d.len() >= 12 { (CommandView::TargetedOrder { x: le16_at(d, 0), y: le16_at(d, 2), target_tag: le16_at(d, 4), unit_type: le16_at(d, 8), order: d[10], queued: d[11] != 0 }, 12) } else { unknown(t) },
        0x62 => if d.len() >= 4 { (CommandView::Unload { unit_tag: le16_at(d, 0) }, 4) } else { unknown(t) },
        0x63 => spec_select_121(d, CommandView::Select { unit_tags: seq![] }),
        0x64 => spec_select_121(d, CommandView::SelectAdd { unit_tags: seq![] }),
        0x65 => spec_select_121(d, CommandView::SelectRemove { unit_tags: seq![] }),
        _ => unknown(t),
    }
}

} // verus!

verus! {

/// The selection command of the same variant as `template`, holding `tags`.
fn select_with_tags(template: Command, tags: Vec<u16>) -> (c: Command)
    ensures
        c@ == with_tags(template@, tags@),
{
    match template {
        Command::SelectAdd { .. } => Command::SelectAdd { unit_tags: tags },
        Command::SelectRemove { .. } => Command::SelectRemove { unit_tags: tags },
        _ => Command::Select { unit_tags: tags },
    }
}

/// Parse a pre-1.21 Select/SelectAdd/SelectRemove command.
/// Format: `[u8 count] [u16 unit_tag * count]`.
fn parse_select(data: &[u8], template: Command) -> (r: (Command, usize))
    ensures
        r.0@ == spec_select(data@, template@).0,
        r.1 as nat == spec_select(data@, template@).1,
{
    if data.len() == 0 {
        return (Command::Select { unit_tags: Vec::new() }, 0);
    }
    let count = data[0] as usize;
    let needed = 1 + count * 2;
    if data.len() < needed {
        return (Command::Select { unit_tags: Vec::new() }, data.len());
    }
    let mut tags: Vec<u16> = Vec::with_capacity(count);
    let mut i: usize = 0;
    while i < count
        invariant
            count == data@[0] as nat,
            needed == 1 + 2 * count,
            needed <= data@.len(),
            i <= count,
            tags@.len() == i,
            forall|j: int| 0 <= j < i ==> tags@[j] == le16_at(data@, 1 + 2 * j),
        decreases count - i,
    {
        let off = 1 + i * 2;
        tags.push(read_u16_le(data, off));
        i = i + 1;
    }
    proof {
        assert(tags@ =~= select_tags(data@, count as nat));
    }
    (select_with_tags(template, tags), needed)
}

/// Parse a 1.21+ Select command with 4-byte unit tags.
/// Format: `[u8 count] [(u16 tag + u16 unknown) * count]`.
fn parse_select_121(data: &[u8], template: Command) -> (r: (Command, usize))
    ensures
        r.0@ == spec_select_121(data@, template@).0,
        r.1 as nat == spec_select_121(data@, template@).1,
{
    if data.len() == 0 {
        return (select_with_tags(template, Vec::new()), 0);
    }
    let count = data[0] as usize;
    let needed = 1 + count * 4;
    if data.len() < needed {
        return (select_with_tags(template, Vec::new()), data.len());
    }
    let mut tags: Vec<u16> = Vec::with_capacity(count);
    let mut i: usize = 0;
    while i < count
        invariant
            count == data@[0] as nat,
            needed == 1 + 4 * count,
            needed <= data@.len(),
            i <= count,
            tags@.len() == i,
            forall|j: int| 0 <= j < i ==> tags@[j] == le16_at(data@, 1 + 4 * j),
        decreases count - i,
    {
        let off = 1 + i * 4;
        tags.push(read_u16_le(data, off));
        i = i + 1;
    }
    proof {
        assert(tags@ =~= select_tags_121(data@, count as nat));
    }
    (select_with_tags(template, tags), needed)
}

/// Parse a chat command: `[u8 sender_slot] [80 bytes of zero-terminated text]`.
fn parse_chat(data: &[u8]) -> (r: (Command, usize))
    requires
        data@.len() >= 81,
    ensures
        r.0@ == (CommandView::Chat { sender_slot: data@[0], message: chat_text(data@) }),
        r.1 == 81,
{
    let ghost msg = data@.subrange(1, 81);
    let mut end: usize = 0;
    while end < 80 && data[1 + end] != 0
        invariant
            data@.len() >= 81,
            msg == data@.subrange(1, 81),
            end <= 80,
            crate::bytes::nul_index_from(msg, end as int) == crate::bytes::nul_index(msg),
        decreases 80 - end,
    {
        end = end + 1;
    }
    let text = &data[1..1 + end];
    proof {
        assert(msg.take(end as int) =~= text@);
    }
    let message = utf8_lossy_string(text);
    (Command::Chat { sender_slot: data[0], message }, 81)
}

} // verus!

verus! {

/// `n`, or `avail` if that is smaller.
fn capped(n: usize, avail: usize) -> (r: usize)
    ensures
        r as nat == min_nat(n as nat, avail as nat),
{
    if n <= avail { n } else { avail }
}

/// Parse a single command given its type_id and the remaining payload bytes.
/// Returns the command and the number of payload bytes consumed.
fn parse_single_command(type_id: u8, data: &[u8]) -> (r: (Command, usize))
    ensures
        r.0@ == spec_parse_single(type_id, data@).0,
        r.1 as nat == spec_parse_single(type_id, data@).1,
{
    match type_id {
        0x05 => (Command::KeepAlive, 0),
        0x08 => (Command::Other { type_id }, 0),
        0x09 => parse_select(data, Command::Select { unit_tags: Vec::new() }),
        0x0A => parse_select(data, Command::SelectAdd { unit_tags: Vec::new() }),
        0x0B => parse_select(data, Command::SelectRemove { unit_tags: Vec::new() }),
        0x0C if data.len() >= 7 => (Command::Build { order: data[0], x: read_u16_le(data, 1), y: read_u16_le(data, 3), unit_type: read_u16_le(data, 5) }, 7),
        0x0D => (Command::Other { type_id }, capped(2, data.len())),
        0x0E => (Command::Other { type_id }, capped(4, data.len())),
        0x0F => (Command::Other { type_id }, capped(1, data.len())),
        0x10 => (Command::Other { type_id }, 0),
        0x11 => (Command::Other { type_id }, 0),
        0x12 => (Command::Other { type_id }, capped(4, data.len())),
        0x13 if data.len() >= 2 => (Command::Hotkey { action: if data[0] == 0 { HotkeyAction::Assign } else { HotkeyAction::Select }, group: data[1] }, 2),
        0x14 if data.len() >= 9 => (Command::RightClick { x: read_u16_le(data, 0), y: read_u16_le(data, 2), target_tag: read_u16_le(data, 4), unit_type: read_u16_le(data, 6), queued: data[8] != 0 }, 9),
        0x15 if data.len() >= 10 => (Command::TargetedOrder { x: read_u16_le(data, 0), y: read_u16_le(data, 2), target_tag: read_u16_le(data, 4), unit_type: read_u16_le(data, 6), order: data[8], queued: data[9] != 0 }, 10),
        0x18 => (Command::CancelBuild, 0),
        0x19 => (Command::CancelMorph, 0),
        0x1A if data.len() >= 1 => (Command::Stop { queued: data[0] != 0 }, 1),
        0x1B => (Command::Other { type_id }, 0),
        0x1C => (Command::Other { type_id }, 0),
        0x1D => (Command::Other { type_id }, 0),
        0x1E if data.len() >= 1 => (Command::ReturnCargo { queued: data[0] != 0 }, 1),
        0x1F if data.len() >= 2 => (Command::Train { unit_type: read_u16_le(data, 0) }, 2),
        0x20 if data.len() >= 2 => (Command::CancelTrain { unit_tag: read_u16_le(data, 0) }, 2),
        0x21 if data.len() >= 1 => (Command::Cloak { queued: data[0] != 0 }, 1),
        0x22 if data.len() >= 1 => (Command::Decloak { queued: data[0] != 0 }, 1),
        0x23 if data.len() >= 2 => (Command::UnitMorph { unit_type: read_u16_le(data, 0) }, 2),
        0x25 if data.len() >= 1 => (Command::Unsiege { queued: data[0] != 0 }, 1),
        0x26 if data.len() >= 1 => (Command::Siege { queued: data[0] != 0 }, 1),
        0x27 => (Command::TrainFighter, 0),
        0x28 if data.len() >= 1 => (Command::UnloadAll { queued: data[0] != 0 }, 1),
        0x29 if data.len() >= 2 => (Command::Unload { unit_tag: read_u16_le(data, 0) }, 2),
        0x2A => (Command::MergeArchon, 0),
        0x2B if data.len() >= 1 => (Command::HoldPosition { queued: data[0] != 0 }, 1),
        0x2C if data.len() >= 1 => (Command::Burrow { queued: data[0] != 0 }, 1),
        0x2D if data.len() >= 1 => (Command::Unburrow { queued: data[0] != 0 }, 1),
        0x2E => (Command::CancelNuke, 0),
        0x2F if data.len() >= 4 => (Command::LiftOff { x: read_u16_le(data, 0), y: read_u16_le(data, 2) }, 4),
        0x30 if data.len() >= 1 => (Command::Research { tech_type: data[0] }, 1),
        0x31 => (Command::CancelResearch, 0),
        0x32 if data.len() >= 1 => (Command::Upgrade { upgrade_type: data[0] }, 1),
        0x33 => (Command::CancelUpgrade, 0),
        0x34 => (Command::CancelAddon, 0),
        0x35 if data.len() >= 2 => (Command::BuildingMorph { unit_type: read_u16_le(data, 0) }, 2),
        0x36 => (Command::Stim, 0),
        0x37 => (Command::Other { type_id }, capped(6, data.len())),
        0x38 | 0x39 => (Command::Other { type_id }, 0),
        0x3A | 0x3B => (Command::Other { type_id }, capped(1, data.len())),
        0x3C => (Command::Other { type_id }, 0),
        0x3D => (Command::Other { type_id }, capped(1, data.len())),
        0x3E => (Command::Other { type_id }, capped(5, data.len())),
        0x3F => (Command::Other { type_id }, capped(7, data.len())),
        0x40 => (Command::Other { type_id }, capped(17, data.len())),
        0x41 => (Command::Other { type_id }, capped(2, data.len())),
        0x42 | 0x43 => (Command::Other { type_id }, capped(1, data.len())),
        0x44 => (Command::Other { type_id }, capped(2, data.len())),
        0x45 => (Command::Other { type_id }, capped(2, data.len())),
        0x48 => (Command::Other { type_id }, capped(12, data.len())),
        0x54 => (Command::Other { type_id }, 0),
        0x55 => (Command::Other { type_id }, capped(1, data.len())),
        0x56 => (Command::Other { type_id }, capped(9, data.len())),
        0x57 if data.len() >= 1 => (Command::LeaveGame { reason: data[0] }, 1),
        0x58 if data.len() >= 4 => (Command::MinimapPing { x: read_u16_le(data, 0), y: read_u16_le(data, 2) }, 4),
        0x5A => (Command::MergeDarkArchon, 0),
        0x5B => (Command::Other { type_id }, 0),
        0x5C if data.len() >= 81 => parse_chat(data),
        0x60 if data.len() >= 11 => (Command::RightClick { x: read_u16_le(data, 0), y: read_u16_le(data, 2), target_tag: read_u16_le(data, 4), unit_type: read_u16_le(data, 8), queued: data[10] != 0 }, 11),
        0x61 if data.len() >= 12 => (Command::TargetedOrder { x: read_u16_le(data, 0), y: read_u16_le(data, 2), target_tag: read_u16_le(data, 4), unit_type: read_u16_le(data, 8), order: data[10], queued: data[11] != 0 }, 12),
        0x62 if data.len() >= 4 => (Command::Unload { unit_tag: read_u16_le(data, 0) }, 4),
        0x63 => parse_select_121(data, Command::Select { unit_tags: Vec::new() }),
        0x64 => parse_select_121(data, Command::SelectAdd { unit_tags: Vec::new() }),
        0x65 => parse_select_121(data, Command::SelectRemove { unit_tags: Vec::new() }),
        _ => (Command::Other { type_id }, 0),
    }
}

} // verus!

verus! {

/// A command never uses more payload bytes than it is given.
pub proof fn lemma_single_within_payload(t: u8, d: Seq<u8>)
    ensures
        spec_parse_single(t, d).1 <= d.len(),
{
}

/// The byte layout of the gameplay commands, read off the payload `d` that
/// follows the type byte `t`: each `u16` field is little-endian (low byte
/// first), and each command uses exactly its fixed payload length. A payload
/// shorter than that yields `Other` with the type id and uses nothing.
pub proof fn lemma_command_layouts(t: u8, d: Seq<u8>)
    ensures
        t == 0x0C && d.len() >= 7 ==> spec_parse_single(t, d) == (CommandView::Build {
            order: d[0],
            x: (d[1] + 256 * d[2]) as u16,
            y: (d[3] + 256 * d[4]) as u16,
            unit_type: (d[5] + 256 * d[6]) as u16,
        }, 7nat),
        t == 0x13 && d.len() >= 2 ==> spec_parse_single(t, d) == (CommandView::Hotkey {
            action: if d[0] == 0 { HotkeyAction::Assign } else { HotkeyAction::Select },
            group: d[1],
        }, 2nat),
        t == 0x14 && d.len() >= 9 ==> spec_parse_single(t, d) == (CommandView::RightClick {
            x: (d[0] + 256 * d[1]) as u16,
            y: (d[2] + 256 * d[3]) as u16,
            target_tag: (d[4] + 256 * d[5]) as u16,
            unit_type: (d[6] + 256 * d[7]) as u16,
            queued: d[8] != 0,
        }, 9nat),
        t == 0x15 && d.len() >= 10 ==> spec_parse_single(t, d) == (CommandView::TargetedOrder {
            x: (d[0] + 256 * d[1]) as u16,
            y: (d[2] + 256 * d[3]) as u16,
            target_tag: (d[4] + 256 * d[5]) as u16,
            unit_type: (d[6] + 256 * d[7]) as u16,
            order: d[8],
            queued: d[9] != 0,
        }, 10nat),
        t == 0x60 && d.len() >= 11 ==> spec_parse_single(t, d) == (CommandView::RightClick {
            x: (d[0] + 256 * d[1]) as u16,
            y: (d[2] + 256 * d[3]) as u16,
            target_tag: (d[4] + 256 * d[5]) as u16,
            unit_type: (d[8] + 256 * d[9]) as u16,
            queued: d[10] != 0,
        }, 11nat),
        t == 0x61 && d.len() >= 12 ==> spec_parse_single(t, d) == (CommandView::TargetedOrder {
            x: (d[0] + 256 * d[1]) as u16,
            y: (d[2] + 256 * d[3]) as u16,
            target_tag: (d[4] + 256 * d[5]) as u16,
            unit_type: (d[8] + 256 * d[9]) as u16,
            order: d[10],
            queued: d[11] != 0,
        }, 12nat),
        t == 0x1F && d.len() >= 2 ==> spec_parse_single(t, d) == (CommandView::Train {
            unit_type: (d[0] + 256 * d[1]) as u16,
        }, 2nat),
        t == 0x20 && d.len() >= 2 ==> spec_parse_single(t, d) == (CommandView::CancelTrain {
            unit_tag: (d[0] + 256 * d[1]) as u16,
        }, 2nat),
        t == 0x23 && d.len() >= 2 ==> spec_parse_single(t, d) == (CommandView::UnitMorph {
            unit_type: (d[0] + 256 * d[1]) as u16,
        }, 2nat),
        t == 0x35 && d.len() >= 2 ==> spec_parse_single(t, d) == (CommandView::BuildingMorph {
            unit_type: (d[0] + 256 * d[1]) as u16,
        }, 2nat),
        t == 0x29 && d.len() >= 2 ==> spec_parse_single(t, d) == (CommandView::Unload {
            unit_tag: (d[0] + 256 * d[1]) as u16,
        }, 2nat),
        t == 0x62 && d.len() >= 4 ==> spec_parse_single(t, d) == (CommandView::Unload {
            unit_tag: (d[0] + 256 * d[1]) as u16,
        }, 4nat),
        t == 0x2F && d.len() >= 4 ==> spec_parse_single(t, d) == (CommandView::LiftOff {
            x: (d[0] + 256 * d[1]) as u16,
            y: (d[2] + 256 * d[3]) as u16,
        }, 4nat),
        t == 0x58 && d.len() >= 4 ==> spec_parse_single(t, d) == (CommandView::MinimapPing {
            x: (d[0] + 256 * d[1]) as u16,
            y: (d[2] + 256 * d[3]) as u16,
        }, 4nat),
        t == 0x30 && d.len() >= 1 ==> spec_parse_single(t, d) == (CommandView::Research {
            tech_type: d[0],
        }, 1nat),
        t == 0x32 && d.len() >= 1 ==> spec_parse_single(t, d) == (CommandView::Upgrade {
            upgrade_type: d[0],
        }, 1nat),
        t == 0x57 && d.len() >= 1 ==> spec_parse_single(t, d) == (CommandView::LeaveGame {
            reason: d[0],
        }, 1nat),
        t == 0x1A && d.len() >= 1 ==> spec_parse_single(t, d) == (CommandView::Stop {
            queued: d[0] != 0,
        }, 1nat),
        t == 0x05 ==> spec_parse_single(t, d) == (CommandView::KeepAlive, 0nat),
        (t == 0x0C && d.len() < 7) || (t == 0x14 && d.len() < 9) || (t == 0x15 && d.len() < 10)
            || (t == 0x60 && d.len() < 11) || (t == 0x61 && d.len() < 12) || (t == 0x1F
            && d.len() < 2) || (t == 0x35 && d.len() < 2) ==> spec_parse_single(t, d) == (
        CommandView::Other { type_id: t }, 0nat),
{
}

/// The byte layout of the selection commands: a count byte `n`, then `n`
/// little-endian unit tags of 2 bytes each (types 0x09 to 0x0B: select, add,
/// remove) or `n` entries of 4 bytes whose first 2 are the tag (1.21 types
/// 0x63 to 0x65). The command uses the count byte and the entries; an older
/// selection too short for its entries is an empty plain selection that uses
/// the whole payload.
pub proof fn lemma_selection_layouts(t: u8, d: Seq<u8>)
    ensures
        t == 0x09 && d.len() >= 1 && d.len() >= 1 + 2 * d[0] ==> spec_parse_single(t, d) == (
            CommandView::Select {
                unit_tags: Seq::new(
                    d[0] as nat,
                    |i: int| (d[1 + 2 * i] + 256 * d[2 + 2 * i]) as u16,
                ),
            },
            (1 + 2 * d[0]) as nat,
        ),
        t == 0x0A && d.len() >= 1 && d.len() >= 1 + 2 * d[0] ==> spec_parse_single(t, d) == (
            CommandView::SelectAdd {
                unit_tags: Seq::new(
                    d[0] as nat,
                    |i: int| (d[1 + 2 * i] + 256 * d[2 + 2 * i]) as u16,
                ),
            },
            (1 + 2 * d[0]) as nat,
        ),
        t == 0x0B && d.len() >= 1 && d.len() >= 1 + 2 * d[0] ==> spec_parse_single(t, d) == (
            CommandView::SelectRemove {
                unit_tags: Seq::new(
                    d[0] as nat,
                    |i: int| (d[1 + 2 * i] + 256 * d[2 + 2 * i]) as u16,
                ),
            },
            (1 + 2 * d[0]) as nat,
        ),
        t == 0x63 && d.len() >= 1 && d.len() >= 1 + 4 * d[0] ==> spec_parse_single(t, d) == (
            CommandView::Select {
                unit_tags: Seq::new(
                    d[0] as nat,
                    |i: int| (d[1 + 4 * i] + 256 * d[2 + 4 * i]) as u16,
                ),
            },
            (1 + 4 * d[0]) as nat,
        ),
        t == 0x64 && d.len() >= 1 && d.len() >= 1 + 4 * d[0] ==> spec_parse_single(t, d) == (
            CommandView::SelectAdd {
                unit_tags: Seq::new(
                    d[0] as nat,
                    |i: int| (d[1 + 4 * i] + 256 * d[2 + 4 * i]) as u16,
                ),
            },
            (1 + 4 * d[0]) as nat,
        ),
        t == 0x65 && d.len() >= 1 && d.len() >= 1 + 4 * d[0] ==> spec_parse_single(t, d) == (
            CommandView::SelectRemove {
                unit_tags: Seq::new(
                    d[0] as nat,
                    |i: int| (d[1 + 4 * i] + 256 * d[2 + 4 * i]) as u16,
                ),
            },
            (1 + 4 * d[0]) as nat,
        ),
        (t == 0x09 || t == 0x0A || t == 0x0B) && d.len() >= 1 && d.len() < 1 + 2 * d[0]
            ==> spec_parse_single(t, d) == (CommandView::Select { unit_tags: seq![] }, d.len()),
{
    if d.len() >= 1 {
        let n = d[0] as nat;
        assert(select_tags(d, n) =~= Seq::new(
            n,
            |i: int| (d[1 + 2 * i] + 256 * d[2 + 2 * i]) as u16,
        ));
        assert(select_tags_121(d, n) =~= Seq::new(
            n,
            |i: int| (d[1 + 4 * i] + 256 * d[2 + 4 * i]) as u16,
        ));
    }
}

/// A block that holds a single command, `[u32 frame] [u8 size] [u8 player]
/// [u8 type] [payload]`, whose payload the command uses up, parses to exactly
/// that command, stamped with the block's frame and player.
pub proof fn lemma_single_command_block(frame: Seq<u8>, player: u8, t: u8, d: Seq<u8>)
    requires
        frame.len() == 4,
        d.len() + 2 < 256,
        spec_parse_single(t, d).1 == d.len(),
    ensures
        spec_parse_commands(frame + seq![(d.len() + 2) as u8, player, t] + d) == seq![
            GameCommandView {
                frame: (frame[0] + 256 * frame[1] + 65536 * frame[2] + 16777216 * frame[3]) as u32,
                player_id: player,
                command: spec_parse_single(t, d).0,
            },
        ],
{
    let data = frame + seq![(d.len() + 2) as u8, player, t] + d;
    let len = data.len() as int;
    assert(data[4] == (d.len() + 2) as u8);
    assert(data[5] == player && data[6] == t);
    assert(data[0] == frame[0] && data[1] == frame[1] && data[2] == frame[2] && data[3] == frame[3]);
    assert(data.subrange(7, len) =~= d);
    let f = le32_at(data, 0);
    let n = spec_parse_single(t, d).1 as int;
    assert(spec_block_commands(data, f, 7 + n, len) =~= Seq::<GameCommandView>::empty());
    assert(spec_block_commands(data, f, 5, len) =~= seq![
        GameCommandView { frame: f, player_id: player, command: spec_parse_single(t, d).0 },
    ]);
    assert(spec_commands_from(data, len) =~= Seq::<GameCommandView>::empty());
}

/// The commands of one block: from `pos` to the block end `end`, each command is
/// `[u8 player_id] [u8 type_id] [payload]`, its payload running to the block end.
pub open spec fn spec_block_commands(data: Seq<u8>, frame: u32, pos: int, end: int) -> Seq<
    GameCommandView,
>
    decreases end - pos,
{
    if 0 <= pos && pos + 2 <= end && end <= data.len() {
        let t = data[pos + 1];
        let (c, n) = spec_parse_single(t, data.subrange(pos + 2, end));
        seq![GameCommandView { frame, player_id: data[pos], command: c }] + spec_block_commands(
            data,
            frame,
            pos + 2 + n,
            end,
        )
    } else {
        seq![]
    }
}

/// The commands of the stream from `pos` on: blocks `[u32 frame] [u8 size] [size bytes]`,
/// stopping at the first incomplete block header or block.
pub open spec fn spec_commands_from(data: Seq<u8>, pos: int) -> Seq<GameCommandView>
    decreases data.len() - pos,
{
    if 0 <= pos && pos + 5 <= data.len() {
        let frame = le32_at(data, pos);
        let end = pos + 5 + data[pos + 4];
        if end > data.len() {
            seq![]
        } else {
            spec_block_commands(data, frame, pos + 5, end) + spec_commands_from(data, end)
        }
    } else {
        seq![]
    }
}

/// The commands that a section 2 command stream holds.
pub open spec fn spec_parse_commands(data: Seq<u8>) -> Seq<GameCommandView> {
    spec_commands_from(data, 0)
}

/// Parse the command stream from decompressed section 2 data.
///
/// The stream is a sequence of blocks:
///   `[u32 frame] [u8 block_size] [block_size bytes of commands]`
///
/// Each block contains one or more commands:
///   `[u8 player_id] [u8 command_type] [payload...]`
pub fn parse_commands(data: &[u8]) -> (commands: Vec<GameCommand>)
    ensures
        view_commands(commands@) == spec_parse_commands(data@),
{
    let mut commands: Vec<GameCommand> = Vec::new();
    let mut pos: usize = 0;
    proof {
        assert(view_commands(commands@) =~= seq![]);
    }
    while pos <= data.len() && data.len() - pos >= 5
        invariant_except_break
            pos <= data@.len(),
            view_commands(commands@) + spec_commands_from(data@, pos as int)
                =~= spec_parse_commands(data@),
        ensures
            view_commands(commands@) =~= spec_parse_commands(data@),
        decreases data@.len() - pos,
    {
        let frame = read_u32_le(data, pos);
        let block_size = data[pos + 4] as usize;
        pos = pos + 5;
        if block_size > data.len() - pos {
            proof {
                assert(spec_commands_from(data@, pos - 5) =~= seq![]);
                assert(view_commands(commands@) + spec_commands_from(data@, pos - 5)
                    =~= view_commands(commands@));
            }
            break;
        }
        let block_end = pos + block_size;
        let ghost rest = spec_commands_from(data@, block_end as int);
        let mut bpos = pos;
        while block_end - bpos >= 2
            invariant
                pos <= bpos <= block_end <= data@.len(),
                rest == spec_commands_from(data@, block_end as int),
                view_commands(commands@) + spec_block_commands(
                    data@,
                    frame,
                    bpos as int,
                    block_end as int,
                ) + rest =~= spec_parse_commands(data@),
            decreases block_end - bpos,
        {
            let player_id = data[bpos];
            let type_id = data[bpos + 1];
            bpos = bpos + 2;
            let payload = &data[bpos..block_end];
            let (command, consumed) = parse_single_command(type_id, payload);
            proof {
                lemma_single_within_payload(type_id, payload@);
            }
            let ghost before = view_commands(commands@);
            let ghost item = GameCommandView { frame, player_id, command: command@ };
            commands.push(GameCommand { frame, player_id, command });
            proof {
                assert(view_commands(commands@) =~= before.push(item));
            }
            bpos = bpos + consumed;
        }
        proof {
            assert(spec_block_commands(data@, frame, bpos as int, block_end as int) =~= seq![]);
        }
        pos = block_end;
        proof {
            if !(pos <= data.len() && data.len() - pos >= 5) {
                assert(spec_commands_from(data@, pos as int) =~= seq![]);
            }
        }
    }
    commands
}


/// Whether `s` is made of complete blocks only: each a `u32` frame, a `u8`
/// size `n`, and exactly `n` bytes of commands.
pub open spec fn whole_blocks(s: Seq<u8>) -> bool
    decreases s.len(),
{
    if s.len() == 0 {
        true
    } else {
        s.len() >= 5 && 5 + s[4] <= s.len() && whole_blocks(s.skip(5 + s[4]))
    }
}

/// Whether `t` is a truncated block: too short for a block header, or for the
/// block its header announces.
pub open spec fn truncated_block(t: Seq<u8>) -> bool {
    t.len() < 5 || t.len() < 5 + t[4]
}

/// The commands of a block depend only on the block's own bytes.
proof fn lemma_block_local(x: Seq<u8>, y: Seq<u8>, frame: u32, px: int, py: int, len: int)
    requires
        0 <= px,
        0 <= py,
        0 <= len,
        px + len <= x.len(),
        py + len <= y.len(),
        x.subrange(px, px + len) == y.subrange(py, py + len),
    ensures
        spec_block_commands(x, frame, px, px + len) == spec_block_commands(y, frame, py, py + len),
    decreases len,
{
    if len >= 2 {
        assert(x[px] == x.subrange(px, px + len)[0]);
        assert(y[py] == y.subrange(py, py + len)[0]);
        assert(x[px + 1] == x.subrange(px, px + len)[1]);
        assert(y[py + 1] == y.subrange(py, py + len)[1]);
        assert(x.subrange(px + 2, px + len) =~= x.subrange(px, px + len).subrange(2, len));
        assert(y.subrange(py + 2, py + len) =~= y.subrange(py, py + len).subrange(2, len));
        let t = x[px + 1];
        let n = spec_parse_single(t, x.subrange(px + 2, px + len)).1 as int;
        lemma_single_within_payload(t, x.subrange(px + 2, px + len));
        assert(x.subrange(px + 2 + n, px + len) =~= x.subrange(px, px + len).subrange(
            2 + n,
            len,
        ));
        assert(y.subrange(py + 2 + n, py + len) =~= y.subrange(py, py + len).subrange(
            2 + n,
            len,
        ));
        lemma_block_local(x, y, frame, px + 2 + n, py + 2 + n, len - 2 - n);
    }
}

/// The commands of a stream from a position depend only on the bytes from there on.
proof fn lemma_stream_local(x: Seq<u8>, y: Seq<u8>, px: int, py: int)
    requires
        0 <= px <= x.len(),
        0 <= py <= y.len(),
        x.skip(px) == y.skip(py),
    ensures
        spec_commands_from(x, px) == spec_commands_from(y, py),
    decreases x.len() - px,
{
    assert(x.len() - px == y.len() - py) by {
        assert(x.skip(px).len() == x.len() - px);
        assert(y.skip(py).len() == y.len() - py);
        assert(x.skip(px).len() == y.skip(py).len());
    }
    if px + 5 <= x.len() {
        assert(x[px + 4] == x.skip(px)[4]);
        assert(y[py + 4] == y.skip(py)[4]);
        assert(x.subrange(px, px + 4) =~= x.skip(px).subrange(0, 4));
        assert(y.subrange(py, py + 4) =~= y.skip(py).subrange(0, 4));
        assert(x[px] == x.skip(px)[0] && y[py] == y.skip(py)[0]);
        assert(x[px + 1] == x.skip(px)[1] && y[py + 1] == y.skip(py)[1]);
        assert(x[px + 2] == x.skip(px)[2] && y[py + 2] == y.skip(py)[2]);
        assert(x[px + 3] == x.skip(px)[3] && y[py + 3] == y.skip(py)[3]);
        let n = x[px + 4] as int;
        if px + 5 + n <= x.len() {
            assert(x.subrange(px + 5, px + 5 + n) =~= x.skip(px).subrange(5, 5 + n));
            assert(y.subrange(py + 5, py + 5 + n) =~= y.skip(py).subrange(5, 5 + n));
            lemma_block_local(x, y, le32_at(x, px), px + 5, py + 5, n);
            assert(x.skip(px + 5 + n) =~= x.skip(px).skip(5 + n));
            assert(y.skip(py + 5 + n) =~= y.skip(py).skip(5 + n));
            lemma_stream_local(x, y, px + 5 + n, py + 5 + n);
        }
    }
}

/// Parsing whole blocks followed by `b` from `pos` gives the commands of the
/// blocks, then those of `b`.
proof fn lemma_concat_from(a: Seq<u8>, b: Seq<u8>, pos: int)
    requires
        0 <= pos <= a.len(),
        whole_blocks(a.skip(pos)),
    ensures
        spec_commands_from(a + b, pos) == spec_commands_from(a, pos) + spec_parse_commands(b),
    decreases a.len() - pos,
{
    let ab = a + b;
    if pos == a.len() {
        assert(ab.skip(pos) =~= b.skip(0));
        lemma_stream_local(ab, b, pos, 0);
        assert(spec_commands_from(a, pos) =~= Seq::<GameCommandView>::empty());
        assert(spec_commands_from(a, pos) + spec_parse_commands(b) =~= spec_parse_commands(b));
    } else {
        let s = a.skip(pos);
        assert(s[4] == a[pos + 4]);
        let n = a[pos + 4] as int;
        let end = pos + 5 + n;
        assert(ab[pos + 4] == a[pos + 4]);
        assert(ab[pos] == a[pos] && ab[pos + 1] == a[pos + 1]);
        assert(ab[pos + 2] == a[pos + 2] && ab[pos + 3] == a[pos + 3]);
        assert(ab.subrange(pos + 5, end) =~= a.subrange(pos + 5, end));
        lemma_block_local(ab, a, le32_at(a, pos), pos + 5, pos + 5, n);
        assert(a.skip(end) =~= s.skip(5 + n));
        lemma_concat_from(a, b, end);
        assert(spec_commands_from(ab, pos) == spec_block_commands(ab, le32_at(a, pos), pos + 5, end)
            + spec_commands_from(ab, end));
        assert(spec_commands_from(a, pos) == spec_block_commands(a, le32_at(a, pos), pos + 5, end)
            + spec_commands_from(a, end));
        assert(spec_commands_from(ab, pos) =~= spec_commands_from(a, pos) + spec_parse_commands(
            b,
        ));
    }
}

/// Parsing a stream of whole blocks followed by more bytes gives the commands
/// of the blocks followed by the commands of the rest; a truncated block at the
/// end adds nothing; the empty stream holds no commands.
pub proof fn lemma_parse_concat(a: Seq<u8>, b: Seq<u8>, t: Seq<u8>)
    requires
        whole_blocks(a),
    ensures
        spec_parse_commands(a + b) == spec_parse_commands(a) + spec_parse_commands(b),
        truncated_block(t) ==> spec_parse_commands(a + t) == spec_parse_commands(a),
        spec_parse_commands(Seq::empty()) == Seq::<GameCommandView>::empty(),
{
    assert(a.skip(0) =~= a);
    lemma_concat_from(a, b, 0);
    lemma_concat_from(a, t, 0);
    if truncated_block(t) {
        assert(spec_parse_commands(t) =~= Seq::<GameCommandView>::empty());
        assert(spec_parse_commands(a) + spec_parse_commands(t) =~= spec_parse_commands(a));
    }
}

/// Every command of a block carries the block's frame.
proof fn lemma_block_frames(data: Seq<u8>, frame: u32, pos: int, end: int)
    ensures
        forall|i: int|
            0 <= i < spec_block_commands(data, frame, pos, end).len() ==> (
            #[trigger] spec_block_commands(data, frame, pos, end)[i]).frame == frame,
    decreases end - pos,
{
    if 0 <= pos && pos + 2 <= end && end <= data.len() {
        let t = data[pos + 1];
        let n = spec_parse_single(t, data.subrange(pos + 2, end)).1 as int;
        lemma_block_frames(data, frame, pos + 2 + n, end);
        let rest = spec_block_commands(data, frame, pos + 2 + n, end);
        assert forall|i: int|
            0 <= i < spec_block_commands(data, frame, pos, end).len() implies (
            #[trigger] spec_block_commands(data, frame, pos, end)[i]).frame == frame by {
            if i > 0 {
                assert(spec_block_commands(data, frame, pos, end)[i] == rest[i - 1]);
            }
        }
    }
}

/// Every command parsed from a single complete block carries that block's frame.
pub proof fn lemma_block_commands_share_frame(blk: Seq<u8>)
    requires
        blk.len() >= 5,
        blk.len() == 5 + blk[4],
    ensures
        forall|i: int|
            0 <= i < spec_parse_commands(blk).len() ==> (#[trigger] spec_parse_commands(blk)[i]).frame
                == le32_at(blk, 0),
{
    lemma_block_frames(blk, le32_at(blk, 0), 5, blk.len() as int);
    assert(spec_commands_from(blk, blk.len() as int) =~= Seq::<GameCommandView>::empty());
    assert(spec_parse_commands(blk) =~= spec_block_commands(blk, le32_at(blk, 0), 5, blk.len() as int));
}

} // verus!
