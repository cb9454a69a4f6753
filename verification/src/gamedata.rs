//! Names and properties of unit, tech and upgrade types by id.

use vstd::prelude::*;

verus! {

/// The name of a unit type by its id.
pub open spec fn unit_name_text(id: u16) -> Seq<char> {
    match id {
        0 => "Marine"@,
        1 => "Ghost"@,
        2 => "Vulture"@,
        3 => "Goliath"@,
        5 => "Siege Tank"@,
        7 => "SCV"@,
        8 => "Wraith"@,
        9 => "Science Vessel"@,
        10 => "Gui Montag"@,
        11 => "Dropship"@,
        12 => "Battlecruiser"@,
        13 => "Spider Mine"@,
        14 => "Nuclear Missile"@,
        15 => "Civilian"@,
        16 => "Sarah Kerrigan"@,
        19 => "Jim Raynor (Vulture)"@,
        20 => "Jim Raynor (Marine)"@,
        21 => "Tom Kazansky"@,
        22 => "Magellan"@,
        23 => "Edmund Duke (Tank)"@,
        25 => "Edmund Duke (Siege)"@,
        27 => "Arcturus Mengsk"@,
        28 => "Hyperion"@,
        29 => "Norad II"@,
        30 => "Siege Tank (Siege)"@,
        32 => "Firebat"@,
        34 => "Medic"@,
        35 => "Larva"@,
        36 => "Egg"@,
        37 => "Zergling"@,
        38 => "Hydralisk"@,
        39 => "Ultralisk"@,
        40 => "Broodling"@,
        41 => "Drone"@,
        42 => "Overlord"@,
        43 => "Mutalisk"@,
        44 => "Guardian"@,
        45 => "Queen"@,
        46 => "Defiler"@,
        47 => "Scourge"@,
        48 => "Torrasque"@,
        49 => "Matriarch"@,
        50 => "Infested Terran"@,
        51 => "Infested Kerrigan"@,
        52 => "Unclean One"@,
        53 => "Hunter Killer"@,
        54 => "Devouring One"@,
        55 => "Kukulza (Mutalisk)"@,
        56 => "Kukulza (Guardian)"@,
        57 => "Yggdrasill"@,
        58 => "Valkyrie"@,
        59 => "Cocoon"@,
        60 => "Corsair"@,
        61 => "Dark Templar"@,
        62 => "Devourer"@,
        63 => "Dark Archon"@,
        64 => "Probe"@,
        65 => "Zealot"@,
        66 => "Dragoon"@,
        67 => "High Templar"@,
        68 => "Archon"@,
        69 => "Shuttle"@,
        70 => "Scout"@,
        71 => "Arbiter"@,
        72 => "Carrier"@,
        73 => "Interceptor"@,
        74 => "Dark Templar (Hero)"@,
        75 => "Zeratul"@,
        76 => "Tassadar/Zeratul"@,
        77 => "Fenix (Zealot)"@,
        78 => "Fenix (Dragoon)"@,
        79 => "Tassadar"@,
        80 => "Mojo"@,
        81 => "Warbringer"@,
        82 => "Gantrithor"@,
        83 => "Reaver"@,
        84 => "Observer"@,
        85 => "Scarab"@,
        86 => "Danimoth"@,
        87 => "Aldaris"@,
        88 => "Artanis"@,
        97 => "Lurker Egg"@,
        98 => "Raszagal"@,
        99 => "Samir Duran"@,
        100 => "Alexei Stukov"@,
        102 => "Gerard DuGalle"@,
        103 => "Lurker"@,
        104 => "Infested Duran"@,
        106 => "Command Center"@,
        107 => "Comsat Station"@,
        108 => "Nuclear Silo"@,
        109 => "Supply Depot"@,
        110 => "Refinery"@,
        111 => "Barracks"@,
        112 => "Academy"@,
        113 => "Factory"@,
        114 => "Starport"@,
        115 => "Control Tower"@,
        116 => "Science Facility"@,
        117 => "Covert Ops"@,
        118 => "Physics Lab"@,
        120 => "Machine Shop"@,
        122 => "Engineering Bay"@,
        123 => "Armory"@,
        124 => "Missile Turret"@,
        125 => "Bunker"@,
        130 => "Infested Command Center"@,
        131 => "Hatchery"@,
        132 => "Lair"@,
        133 => "Hive"@,
        134 => "Nydus Canal"@,
        135 => "Hydralisk Den"@,
        136 => "Defiler Mound"@,
        137 => "Greater Spire"@,
        138 => "Queen's Nest"@,
        139 => "Evolution Chamber"@,
        140 => "Ultralisk Cavern"@,
        141 => "Spire"@,
        142 => "Spawning Pool"@,
        143 => "Creep Colony"@,
        144 => "Spore Colony"@,
        146 => "Sunken Colony"@,
        149 => "Extractor"@,
        154 => "Nexus"@,
        155 => "Robotics Facility"@,
        156 => "Pylon"@,
        157 => "Assimilator"@,
        159 => "Observatory"@,
        160 => "Gateway"@,
        162 => "Photon Cannon"@,
        163 => "Citadel of Adun"@,
        164 => "Cybernetics Core"@,
        165 => "Templar Archives"@,
        166 => "Forge"@,
        167 => "Stargate"@,
        169 => "Fleet Beacon"@,
        170 => "Arbiter Tribunal"@,
        171 => "Robotics Support Bay"@,
        172 => "Shield Battery"@,
        _ => "Unknown Unit"@,
    }
}

/// Look up the name of a unit type by its ID.
pub fn unit_name(id: u16) -> (s: &'static str)
    ensures
        s@ == unit_name_text(id),
{
    match id {
        0 => "Marine",
        1 => "Ghost",
        2 => "Vulture",
        3 => "Goliath",
        5 => "Siege Tank",
        7 => "SCV",
        8 => "Wraith",
        9 => "Science Vessel",
        10 => "Gui Montag",
        11 => "Dropship",
        12 => "Battlecruiser",
        13 => "Spider Mine",
        14 => "Nuclear Missile",
        15 => "Civilian",
        16 => "Sarah Kerrigan",
        19 => "Jim Raynor (Vulture)",
        20 => "Jim Raynor (Marine)",
        21 => "Tom Kazansky",
        22 => "Magellan",
        23 => "Edmund Duke (Tank)",
        25 => "Edmund Duke (Siege)",
        27 => "Arcturus Mengsk",
        28 => "Hyperion",
        29 => "Norad II",
        30 => "Siege Tank (Siege)",
        32 => "Firebat",
        34 => "Medic",
        35 => "Larva",
        36 => "Egg",
        37 => "Zergling",
        38 => "Hydralisk",
        39 => "Ultralisk",
        40 => "Broodling",
        41 => "Drone",
        42 => "Overlord",
        43 => "Mutalisk",
        44 => "Guardian",
        45 => "Queen",
        46 => "Defiler",
        47 => "Scourge",
        48 => "Torrasque",
        49 => "Matriarch",
        50 => "Infested Terran",
        51 => "Infested Kerrigan",
        52 => "Unclean One",
        53 => "Hunter Killer",
        54 => "Devouring One",
        55 => "Kukulza (Mutalisk)",
        56 => "Kukulza (Guardian)",
        57 => "Yggdrasill",
        58 => "Valkyrie",
        59 => "Cocoon",
        60 => "Corsair",
        61 => "Dark Templar",
        62 => "Devourer",
        63 => "Dark Archon",
        64 => "Probe",
        65 => "Zealot",
        66 => "Dragoon",
        67 => "High Templar",
        68 => "Archon",
        69 => "Shuttle",
        70 => "Scout",
        71 => "Arbiter",
        72 => "Carrier",
        73 => "Interceptor",
        74 => "Dark Templar (Hero)",
        75 => "Zeratul",
        76 => "Tassadar/Zeratul",
        77 => "Fenix (Zealot)",
        78 => "Fenix (Dragoon)",
        79 => "Tassadar",
        80 => "Mojo",
        81 => "Warbringer",
        82 => "Gantrithor",
        83 => "Reaver",
        84 => "Observer",
        85 => "Scarab",
        86 => "Danimoth",
        87 => "Aldaris",
        88 => "Artanis",
        97 => "Lurker Egg",
        98 => "Raszagal",
        99 => "Samir Duran",
        100 => "Alexei Stukov",
        102 => "Gerard DuGalle",
        103 => "Lurker",
        104 => "Infested Duran",
        106 => "Command Center",
        107 => "Comsat Station",
        108 => "Nuclear Silo",
        109 => "Supply Depot",
        110 => "Refinery",
        111 => "Barracks",
        112 => "Academy",
        113 => "Factory",
        114 => "Starport",
        115 => "Control Tower",
        116 => "Science Facility",
        117 => "Covert Ops",
        118 => "Physics Lab",
        120 => "Machine Shop",
        122 => "Engineering Bay",
        123 => "Armory",
        124 => "Missile Turret",
        125 => "Bunker",
        130 => "Infested Command Center",
        131 => "Hatchery",
        132 => "Lair",
        133 => "Hive",
        134 => "Nydus Canal",
        135 => "Hydralisk Den",
        136 => "Defiler Mound",
        137 => "Greater Spire",
        138 => "Queen's Nest",
        139 => "Evolution Chamber",
        140 => "Ultralisk Cavern",
        141 => "Spire",
        142 => "Spawning Pool",
        143 => "Creep Colony",
        144 => "Spore Colony",
        146 => "Sunken Colony",
        149 => "Extractor",
        154 => "Nexus",
        155 => "Robotics Facility",
        156 => "Pylon",
        157 => "Assimilator",
        159 => "Observatory",
        160 => "Gateway",
        162 => "Photon Cannon",
        163 => "Citadel of Adun",
        164 => "Cybernetics Core",
        165 => "Templar Archives",
        166 => "Forge",
        167 => "Stargate",
        169 => "Fleet Beacon",
        170 => "Arbiter Tribunal",
        171 => "Robotics Support Bay",
        172 => "Shield Battery",
        _ => "Unknown Unit",
    }
}

/// The name of a tech type by its id.
pub open spec fn tech_name_text(id: u8) -> Seq<char> {
    match id {
        0 => "Stim Packs"@,
        1 => "Lockdown"@,
        2 => "EMP Shockwave"@,
        3 => "Spider Mines"@,
        4 => "Scanner Sweep"@,
        5 => "Tank Siege Mode"@,
        6 => "Defensive Matrix"@,
        7 => "Irradiate"@,
        8 => "Yamato Gun"@,
        9 => "Cloaking Field"@,
        10 => "Personnel Cloaking"@,
        11 => "Burrowing"@,
        12 => "Infestation"@,
        13 => "Spawn Broodlings"@,
        14 => "Dark Swarm"@,
        15 => "Plague"@,
        16 => "Consume"@,
        17 => "Ensnare"@,
        18 => "Parasite"@,
        19 => "Psionic Storm"@,
        20 => "Hallucination"@,
        21 => "Recall"@,
        22 => "Stasis Field"@,
        23 => "Archon Warp"@,
        24 => "Restoration"@,
        25 => "Disruption Web"@,
        27 => "Mind Control"@,
        28 => "Dark Archon Meld"@,
        29 => "Feedback"@,
        30 => "Optical Flare"@,
        31 => "Maelstrom"@,
        32 => "Lurker Aspect"@,
        34 => "Healing"@,
        45 => "Nuclear Strike"@,
        _ => "Unknown Tech"@,
    }
}

/// Look up the name of a tech type by its ID.
pub fn tech_name(id: u8) -> (s: &'static str)
    ensures
        s@ == tech_name_text(id),
{
    match id {
        0 => "Stim Packs",
        1 => "Lockdown",
        2 => "EMP Shockwave",
        3 => "Spider Mines",
        4 => "Scanner Sweep",
        5 => "Tank Siege Mode",
        6 => "Defensive Matrix",
        7 => "Irradiate",
        8 => "Yamato Gun",
        9 => "Cloaking Field",
        10 => "Personnel Cloaking",
        11 => "Burrowing",
        12 => "Infestation",
        13 => "Spawn Broodlings",
        14 => "Dark Swarm",
        15 => "Plague",
        16 => "Consume",
        17 => "Ensnare",
        18 => "Parasite",
        19 => "Psionic Storm",
        20 => "Hallucination",
        21 => "Recall",
        22 => "Stasis Field",
        23 => "Archon Warp",
        24 => "Restoration",
        25 => "Disruption Web",
        27 => "Mind Control",
        28 => "Dark Archon Meld",
        29 => "Feedback",
        30 => "Optical Flare",
        31 => "Maelstrom",
        32 => "Lurker Aspect",
        34 => "Healing",
        45 => "Nuclear Strike",
        _ => "Unknown Tech",
    }
}

/// The name of a upgrade type by its id.
pub open spec fn upgrade_name_text(id: u8) -> Seq<char> {
    match id {
        0 => "Infantry Armor"@,
        1 => "Vehicle Plating"@,
        2 => "Ship Plating"@,
        3 => "Zerg Carapace"@,
        4 => "Zerg Flyer Carapace"@,
        5 => "Protoss Ground Armor"@,
        6 => "Protoss Air Armor"@,
        7 => "Infantry Weapons"@,
        8 => "Vehicle Weapons"@,
        9 => "Ship Weapons"@,
        10 => "Zerg Melee Attacks"@,
        11 => "Zerg Missile Attacks"@,
        12 => "Zerg Flyer Attacks"@,
        13 => "Protoss Ground Weapons"@,
        14 => "Protoss Air Weapons"@,
        15 => "Protoss Plasma Shields"@,
        16 => "U-238 Shells"@,
        17 => "Ion Thrusters"@,
        19 => "Titan Reactor"@,
        20 => "Ocular Implants"@,
        21 => "Moebius Reactor"@,
        22 => "Apollo Reactor"@,
        23 => "Colossus Reactor"@,
        24 => "Ventral Sacs"@,
        25 => "Antennae"@,
        26 => "Pneumatized Carapace"@,
        27 => "Metabolic Boost"@,
        28 => "Adrenal Glands"@,
        29 => "Muscular Augments"@,
        30 => "Grooved Spines"@,
        31 => "Gamete Meiosis"@,
        32 => "Metasynaptic Node"@,
        33 => "Singularity Charge"@,
        34 => "Leg Enhancements"@,
        35 => "Scarab Damage"@,
        36 => "Reaver Capacity"@,
        37 => "Gravitic Drive"@,
        38 => "Sensor Array"@,
        39 => "Gravitic Boosters"@,
        40 => "Khaydarin Amulet"@,
        41 => "Apial Sensors"@,
        42 => "Gravitic Thrusters"@,
        43 => "Carrier Capacity"@,
        44 => "Khaydarin Core"@,
        47 => "Argus Jewel"@,
        49 => "Argus Talisman"@,
        51 => "Caduceus Reactor"@,
        52 => "Chitinous Plating"@,
        53 => "Anabolic Synthesis"@,
        54 => "Charon Boosters"@,
        _ => "Unknown Upgrade"@,
    }
}

/// Look up the name of a upgrade type by its ID.
pub fn upgrade_name(id: u8) -> (s: &'static str)
    ensures
        s@ == upgrade_name_text(id),
{
    match id {
        0 => "Infantry Armor",
        1 => "Vehicle Plating",
        2 => "Ship Plating",
        3 => "Zerg Carapace",
        4 => "Zerg Flyer Carapace",
        5 => "Protoss Ground Armor",
        6 => "Protoss Air Armor",
        7 => "Infantry Weapons",
        8 => "Vehicle Weapons",
        9 => "Ship Weapons",
        10 => "Zerg Melee Attacks",
        11 => "Zerg Missile Attacks",
        12 => "Zerg Flyer Attacks",
        13 => "Protoss Ground Weapons",
        14 => "Protoss Air Weapons",
        15 => "Protoss Plasma Shields",
        16 => "U-238 Shells",
        17 => "Ion Thrusters",
        19 => "Titan Reactor",
        20 => "Ocular Implants",
        21 => "Moebius Reactor",
        22 => "Apollo Reactor",
        23 => "Colossus Reactor",
        24 => "Ventral Sacs",
        25 => "Antennae",
        26 => "Pneumatized Carapace",
        27 => "Metabolic Boost",
        28 => "Adrenal Glands",
        29 => "Muscular Augments",
        30 => "Grooved Spines",
        31 => "Gamete Meiosis",
        32 => "Metasynaptic Node",
        33 => "Singularity Charge",
        34 => "Leg Enhancements",
        35 => "Scarab Damage",
        36 => "Reaver Capacity",
        37 => "Gravitic Drive",
        38 => "Sensor Array",
        39 => "Gravitic Boosters",
        40 => "Khaydarin Amulet",
        41 => "Apial Sensors",
        42 => "Gravitic Thrusters",
        43 => "Carrier Capacity",
        44 => "Khaydarin Core",
        47 => "Argus Jewel",
        49 => "Argus Talisman",
        51 => "Caduceus Reactor",
        52 => "Chitinous Plating",
        53 => "Anabolic Synthesis",
        54 => "Charon Boosters",
        _ => "Unknown Upgrade",
    }
}

/// The unit type names by id, entry by entry, as the game data tables give them;
/// every other id is "Unknown Unit".
pub proof fn lemma_unit_name_table(id: u16)
    ensures
        unit_name_text(0) == "Marine"@,
        unit_name_text(1) == "Ghost"@,
        unit_name_text(2) == "Vulture"@,
        unit_name_text(3) == "Goliath"@,
        unit_name_text(5) == "Siege Tank"@,
        unit_name_text(7) == "SCV"@,
        unit_name_text(8) == "Wraith"@,
        unit_name_text(9) == "Science Vessel"@,
        unit_name_text(11) == "Dropship"@,
        unit_name_text(12) == "Battlecruiser"@,
        unit_name_text(13) == "Spider Mine"@,
        unit_name_text(14) == "Nuclear Missile"@,
        unit_name_text(15) == "Civilian"@,
        unit_name_text(30) == "Siege Tank (Siege)"@,
        unit_name_text(32) == "Firebat"@,
        unit_name_text(34) == "Medic"@,
        unit_name_text(58) == "Valkyrie"@,
        unit_name_text(35) == "Larva"@,
        unit_name_text(36) == "Egg"@,
        unit_name_text(37) == "Zergling"@,
        unit_name_text(38) == "Hydralisk"@,
        unit_name_text(39) == "Ultralisk"@,
        unit_name_text(40) == "Broodling"@,
        unit_name_text(41) == "Drone"@,
        unit_name_text(42) == "Overlord"@,
        unit_name_text(43) == "Mutalisk"@,
        unit_name_text(44) == "Guardian"@,
        unit_name_text(45) == "Queen"@,
        unit_name_text(46) == "Defiler"@,
        unit_name_text(47) == "Scourge"@,
        unit_name_text(50) == "Infested Terran"@,
        unit_name_text(59) == "Cocoon"@,
        unit_name_text(62) == "Devourer"@,
        unit_name_text(97) == "Lurker Egg"@,
        unit_name_text(103) == "Lurker"@,
        unit_name_text(60) == "Corsair"@,
        unit_name_text(61) == "Dark Templar"@,
        unit_name_text(63) == "Dark Archon"@,
        unit_name_text(64) == "Probe"@,
        unit_name_text(65) == "Zealot"@,
        unit_name_text(66) == "Dragoon"@,
        unit_name_text(67) == "High Templar"@,
        unit_name_text(68) == "Archon"@,
        unit_name_text(69) == "Shuttle"@,
        unit_name_text(70) == "Scout"@,
        unit_name_text(71) == "Arbiter"@,
        unit_name_text(72) == "Carrier"@,
        unit_name_text(73) == "Interceptor"@,
        unit_name_text(83) == "Reaver"@,
        unit_name_text(84) == "Observer"@,
        unit_name_text(85) == "Scarab"@,
        unit_name_text(106) == "Command Center"@,
        unit_name_text(107) == "Comsat Station"@,
        unit_name_text(108) == "Nuclear Silo"@,
        unit_name_text(109) == "Supply Depot"@,
        unit_name_text(110) == "Refinery"@,
        unit_name_text(111) == "Barracks"@,
        unit_name_text(112) == "Academy"@,
        unit_name_text(113) == "Factory"@,
        unit_name_text(114) == "Starport"@,
        unit_name_text(115) == "Control Tower"@,
        unit_name_text(116) == "Science Facility"@,
        unit_name_text(117) == "Covert Ops"@,
        unit_name_text(118) == "Physics Lab"@,
        unit_name_text(120) == "Machine Shop"@,
        unit_name_text(122) == "Engineering Bay"@,
        unit_name_text(123) == "Armory"@,
        unit_name_text(124) == "Missile Turret"@,
        unit_name_text(125) == "Bunker"@,
        unit_name_text(130) == "Infested Command Center"@,
        unit_name_text(131) == "Hatchery"@,
        unit_name_text(132) == "Lair"@,
        unit_name_text(133) == "Hive"@,
        unit_name_text(134) == "Nydus Canal"@,
        unit_name_text(135) == "Hydralisk Den"@,
        unit_name_text(136) == "Defiler Mound"@,
        unit_name_text(137) == "Greater Spire"@,
        unit_name_text(138) == "Queen's Nest"@,
        unit_name_text(139) == "Evolution Chamber"@,
        unit_name_text(140) == "Ultralisk Cavern"@,
        unit_name_text(141) == "Spire"@,
        unit_name_text(142) == "Spawning Pool"@,
        unit_name_text(143) == "Creep Colony"@,
        unit_name_text(144) == "Spore Colony"@,
        unit_name_text(146) == "Sunken Colony"@,
        unit_name_text(149) == "Extractor"@,
        unit_name_text(154) == "Nexus"@,
        unit_name_text(155) == "Robotics Facility"@,
        unit_name_text(156) == "Pylon"@,
        unit_name_text(157) == "Assimilator"@,
        unit_name_text(159) == "Observatory"@,
        unit_name_text(160) == "Gateway"@,
        unit_name_text(162) == "Photon Cannon"@,
        unit_name_text(163) == "Citadel of Adun"@,
        unit_name_text(164) == "Cybernetics Core"@,
        unit_name_text(165) == "Templar Archives"@,
        unit_name_text(166) == "Forge"@,
        unit_name_text(167) == "Stargate"@,
        unit_name_text(169) == "Fleet Beacon"@,
        unit_name_text(170) == "Arbiter Tribunal"@,
        unit_name_text(171) == "Robotics Support Bay"@,
        unit_name_text(172) == "Shield Battery"@,
        unit_name_text(10) == "Gui Montag"@,
        unit_name_text(16) == "Sarah Kerrigan"@,
        unit_name_text(19) == "Jim Raynor (Vulture)"@,
        unit_name_text(20) == "Jim Raynor (Marine)"@,
        unit_name_text(21) == "Tom Kazansky"@,
        unit_name_text(22) == "Magellan"@,
        unit_name_text(23) == "Edmund Duke (Tank)"@,
        unit_name_text(25) == "Edmund Duke (Siege)"@,
        unit_name_text(27) == "Arcturus Mengsk"@,
        unit_name_text(28) == "Hyperion"@,
        unit_name_text(29) == "Norad II"@,
        unit_name_text(48) == "Torrasque"@,
        unit_name_text(49) == "Matriarch"@,
        unit_name_text(51) == "Infested Kerrigan"@,
        unit_name_text(52) == "Unclean One"@,
        unit_name_text(53) == "Hunter Killer"@,
        unit_name_text(54) == "Devouring One"@,
        unit_name_text(55) == "Kukulza (Mutalisk)"@,
        unit_name_text(56) == "Kukulza (Guardian)"@,
        unit_name_text(57) == "Yggdrasill"@,
        unit_name_text(74) == "Dark Templar (Hero)"@,
        unit_name_text(75) == "Zeratul"@,
        unit_name_text(76) == "Tassadar/Zeratul"@,
        unit_name_text(77) == "Fenix (Zealot)"@,
        unit_name_text(78) == "Fenix (Dragoon)"@,
        unit_name_text(79) == "Tassadar"@,
        unit_name_text(80) == "Mojo"@,
        unit_name_text(81) == "Warbringer"@,
        unit_name_text(82) == "Gantrithor"@,
        unit_name_text(86) == "Danimoth"@,
        unit_name_text(87) == "Aldaris"@,
        unit_name_text(88) == "Artanis"@,
        unit_name_text(98) == "Raszagal"@,
        unit_name_text(99) == "Samir Duran"@,
        unit_name_text(100) == "Alexei Stukov"@,
        unit_name_text(102) == "Gerard DuGalle"@,
        unit_name_text(104) == "Infested Duran"@,
        !(id == 0 || id == 1 || id == 2 || id == 3 || id == 5 || id == 7 || id == 8 ||
            id == 9 || id == 11 || id == 12 || id == 13 || id == 14 || id == 15 || id == 30 ||
            id == 32 || id == 34 || id == 58 || id == 35 || id == 36 || id == 37 || id == 38 ||
            id == 39 || id == 40 || id == 41 || id == 42 || id == 43 || id == 44 || id == 45 ||
            id == 46 || id == 47 || id == 50 || id == 59 || id == 62 || id == 97 ||
            id == 103 || id == 60 || id == 61 || id == 63 || id == 64 || id == 65 ||
            id == 66 || id == 67 || id == 68 || id == 69 || id == 70 || id == 71 || id == 72 ||
            id == 73 || id == 83 || id == 84 || id == 85 || id == 106 || id == 107 ||
            id == 108 || id == 109 || id == 110 || id == 111 || id == 112 || id == 113 ||
            id == 114 || id == 115 || id == 116 || id == 117 || id == 118 || id == 120 ||
            id == 122 || id == 123 || id == 124 || id == 125 || id == 130 || id == 131 ||
            id == 132 || id == 133 || id == 134 || id == 135 || id == 136 || id == 137 ||
            id == 138 || id == 139 || id == 140 || id == 141 || id == 142 || id == 143 ||
            id == 144 || id == 146 || id == 149 || id == 154 || id == 155 || id == 156 ||
            id == 157 || id == 159 || id == 160 || id == 162 || id == 163 || id == 164 ||
            id == 165 || id == 166 || id == 167 || id == 169 || id == 170 || id == 171 ||
            id == 172 || id == 10 || id == 16 || id == 19 || id == 20 || id == 21 ||
            id == 22 || id == 23 || id == 25 || id == 27 || id == 28 || id == 29 || id == 48 ||
            id == 49 || id == 51 || id == 52 || id == 53 || id == 54 || id == 55 || id == 56 ||
            id == 57 || id == 74 || id == 75 || id == 76 || id == 77 || id == 78 || id == 79 ||
            id == 80 || id == 81 || id == 82 || id == 86 || id == 87 || id == 88 || id == 98 ||
            id == 99 || id == 100 || id == 102 || id == 104)
            ==> unit_name_text(id) == "Unknown Unit"@,
{
}

/// The tech type names by id, entry by entry, as the game data tables give them;
/// every other id is "Unknown Tech".
pub proof fn lemma_tech_name_table(id: u8)
    ensures
        tech_name_text(0) == "Stim Packs"@,
        tech_name_text(1) == "Lockdown"@,
        tech_name_text(2) == "EMP Shockwave"@,
        tech_name_text(3) == "Spider Mines"@,
        tech_name_text(4) == "Scanner Sweep"@,
        tech_name_text(5) == "Tank Siege Mode"@,
        tech_name_text(6) == "Defensive Matrix"@,
        tech_name_text(7) == "Irradiate"@,
        tech_name_text(8) == "Yamato Gun"@,
        tech_name_text(9) == "Cloaking Field"@,
        tech_name_text(10) == "Personnel Cloaking"@,
        tech_name_text(11) == "Burrowing"@,
        tech_name_text(12) == "Infestation"@,
        tech_name_text(13) == "Spawn Broodlings"@,
        tech_name_text(14) == "Dark Swarm"@,
        tech_name_text(15) == "Plague"@,
        tech_name_text(16) == "Consume"@,
        tech_name_text(17) == "Ensnare"@,
        tech_name_text(18) == "Parasite"@,
        tech_name_text(19) == "Psionic Storm"@,
        tech_name_text(20) == "Hallucination"@,
        tech_name_text(21) == "Recall"@,
        tech_name_text(22) == "Stasis Field"@,
        tech_name_text(23) == "Archon Warp"@,
        tech_name_text(24) == "Restoration"@,
        tech_name_text(25) == "Disruption Web"@,
        tech_name_text(27) == "Mind Control"@,
        tech_name_text(28) == "Dark Archon Meld"@,
        tech_name_text(29) == "Feedback"@,
        tech_name_text(30) == "Optical Flare"@,
        tech_name_text(31) == "Maelstrom"@,
        tech_name_text(32) == "Lurker Aspect"@,
        tech_name_text(34) == "Healing"@,
        tech_name_text(45) == "Nuclear Strike"@,
        !(id == 0 || id == 1 || id == 2 || id == 3 || id == 4 || id == 5 || id == 6 ||
            id == 7 || id == 8 || id == 9 || id == 10 || id == 11 || id == 12 || id == 13 ||
            id == 14 || id == 15 || id == 16 || id == 17 || id == 18 || id == 19 || id == 20 ||
            id == 21 || id == 22 || id == 23 || id == 24 || id == 25 || id == 27 || id == 28 ||
            id == 29 || id == 30 || id == 31 || id == 32 || id == 34 || id == 45)
            ==> tech_name_text(id) == "Unknown Tech"@,
{
}

/// The upgrade type names by id, entry by entry, as the game data tables give them;
/// every other id is "Unknown Upgrade".
pub proof fn lemma_upgrade_name_table(id: u8)
    ensures
        upgrade_name_text(0) == "Infantry Armor"@,
        upgrade_name_text(1) == "Vehicle Plating"@,
        upgrade_name_text(2) == "Ship Plating"@,
        upgrade_name_text(3) == "Zerg Carapace"@,
        upgrade_name_text(4) == "Zerg Flyer Carapace"@,
        upgrade_name_text(5) == "Protoss Ground Armor"@,
        upgrade_name_text(6) == "Protoss Air Armor"@,
        upgrade_name_text(7) == "Infantry Weapons"@,
        upgrade_name_text(8) == "Vehicle Weapons"@,
        upgrade_name_text(9) == "Ship Weapons"@,
        upgrade_name_text(10) == "Zerg Melee Attacks"@,
        upgrade_name_text(11) == "Zerg Missile Attacks"@,
        upgrade_name_text(12) == "Zerg Flyer Attacks"@,
        upgrade_name_text(13) == "Protoss Ground Weapons"@,
        upgrade_name_text(14) == "Protoss Air Weapons"@,
        upgrade_name_text(15) == "Protoss Plasma Shields"@,
        upgrade_name_text(16) == "U-238 Shells"@,
        upgrade_name_text(17) == "Ion Thrusters"@,
        upgrade_name_text(19) == "Titan Reactor"@,
        upgrade_name_text(20) == "Ocular Implants"@,
        upgrade_name_text(21) == "Moebius Reactor"@,
        upgrade_name_text(22) == "Apollo Reactor"@,
        upgrade_name_text(23) == "Colossus Reactor"@,
        upgrade_name_text(24) == "Ventral Sacs"@,
        upgrade_name_text(25) == "Antennae"@,
        upgrade_name_text(26) == "Pneumatized Carapace"@,
        upgrade_name_text(27) == "Metabolic Boost"@,
        upgrade_name_text(28) == "Adrenal Glands"@,
        upgrade_name_text(29) == "Muscular Augments"@,
        upgrade_name_text(30) == "Grooved Spines"@,
        upgrade_name_text(31) == "Gamete Meiosis"@,
        upgrade_name_text(32) == "Metasynaptic Node"@,
        upgrade_name_text(33) == "Singularity Charge"@,
        upgrade_name_text(34) == "Leg Enhancements"@,
        upgrade_name_text(35) == "Scarab Damage"@,
        upgrade_name_text(36) == "Reaver Capacity"@,
        upgrade_name_text(37) == "Gravitic Drive"@,
        upgrade_name_text(38) == "Sensor Array"@,
        upgrade_name_text(39) == "Gravitic Boosters"@,
        upgrade_name_text(40) == "Khaydarin Amulet"@,
        upgrade_name_text(41) == "Apial Sensors"@,
        upgrade_name_text(42) == "Gravitic Thrusters"@,
        upgrade_name_text(43) == "Carrier Capacity"@,
        upgrade_name_text(44) == "Khaydarin Core"@,
        upgrade_name_text(47) == "Argus Jewel"@,
        upgrade_name_text(49) == "Argus Talisman"@,
        upgrade_name_text(51) == "Caduceus Reactor"@,
        upgrade_name_text(52) == "Chitinous Plating"@,
        upgrade_name_text(53) == "Anabolic Synthesis"@,
        upgrade_name_text(54) == "Charon Boosters"@,
        !(id == 0 || id == 1 || id == 2 || id == 3 || id == 4 || id == 5 || id == 6 ||
            id == 7 || id == 8 || id == 9 || id == 10 || id == 11 || id == 12 || id == 13 ||
            id == 14 || id == 15 || id == 16 || id == 17 || id == 19 || id == 20 || id == 21 ||
            id == 22 || id == 23 || id == 24 || id == 25 || id == 26 || id == 27 || id == 28 ||
            id == 29 || id == 30 || id == 31 || id == 32 || id == 33 || id == 34 || id == 35 ||
            id == 36 || id == 37 || id == 38 || id == 39 || id == 40 || id == 41 || id == 42 ||
            id == 43 || id == 44 || id == 47 || id == 49 || id == 51 || id == 52 || id == 53 ||
            id == 54)
            ==> upgrade_name_text(id) == "Unknown Upgrade"@,
{
}

/// The race of a unit type, for the unit and building ids of each race.
pub open spec fn unit_race_text(id: u16) -> Option<Seq<char>> {
    if (id <= 15) || (30 <= id <= 34) || id == 58 || (106 <= id <= 125) {
        Some("Terran"@)
    } else if (35 <= id <= 57) || id == 59 || id == 62 || id == 97 || id == 103 || (130 <= id
        <= 146) || id == 149 {
        Some("Zerg"@)
    } else if (60 <= id <= 61) || (63 <= id <= 73) || (83 <= id <= 85) || (154 <= id <= 172) {
        Some("Protoss"@)
    } else {
        None
    }
}

/// Whether a unit type is a building.
pub open spec fn is_building_id(id: u16) -> bool {
    (106 <= id <= 125) || (130 <= id <= 146) || id == 149 || (154 <= id <= 172)
}

/// Determine which race a unit type belongs to.
pub fn unit_race(id: u16) -> (r: Option<&'static str>)
    ensures
        match unit_race_text(id) {
            Some(t) => r matches Some(s) && s@ == t,
            None => r is None,
        },
{
    if id <= 15 || (30 <= id && id <= 34) || id == 58 || (106 <= id && id <= 125) {
        Some("Terran")
    } else if (35 <= id && id <= 57) || id == 59 || id == 62 || id == 97 || id == 103 || (130
        <= id && id <= 146) || id == 149 {
        Some("Zerg")
    } else if (60 <= id && id <= 61) || (63 <= id && id <= 73) || (83 <= id && id <= 85) || (154
        <= id && id <= 172) {
        Some("Protoss")
    } else {
        None
    }
}

/// Whether a unit type is a building.
pub fn is_building(id: u16) -> (b: bool)
    ensures
        b == is_building_id(id),
{
    (106 <= id && id <= 125) || (130 <= id && id <= 146) || id == 149 || (154 <= id && id <= 172)
}

/// Every building belongs to a race.
pub proof fn lemma_building_has_race(id: u16)
    requires
        is_building_id(id),
    ensures
        unit_race_text(id) is Some,
{
}

} // verus!

verus! {

/// A number that tells the unit type names apart: built from the name's
/// length and its first, third and second-to-last characters.
spec fn unit_name_key(s: Seq<char>) -> int {
    s.len() + 256 * (s[0] as int) + 65536 * (s[2] as int) + 16777216 * (s[s.len() - 2] as int)
}

/// The unit type id whose name has the key `k`, or -1 if there is none.
spec fn unit_id_of_key(k: int) -> int {
    if k == 1852984582 {
        0
    } else if k == 1936672517 {
        1
    } else if k == 1919702535 {
        2
    } else if k == 1953253127 {
        3
    } else if k == 1852134154 {
        5
    } else if k == 1129730819 {
        7
    } else if k == 1952536326 {
        8
    } else if k == 1701401358 {
        9
    } else if k == 1768899592 {
        11
    } else if k == 1702117901 {
        12
    } else if k == 1852396299 {
        13
    } else if k == 1818447375 {
        14
    } else if k == 1635140360 {
        15
    } else if k == 1701139218 {
        30
    } else if k == 1634878983 {
        32
    } else if k == 1768180997 {
        34
    } else if k == 1768707592 {
        58
    } else if k == 1987202053 {
        35
    } else if k == 1734821123 {
        36
    } else if k == 1852987912 {
        37
    } else if k == 1935951881 {
        38
    } else if k == 1937003785 {
        39
    } else if k == 1852785161 {
        40
    } else if k == 1852785669 {
        41
    } else if k == 1919241992 {
        42
    } else if k == 1937001736 {
        43
    } else if k == 1633765128 {
        44
    } else if k == 1701138693 {
        45
    } else if k == 1701200903 {
        46
    } else if k == 1735348999 {
        47
    } else if k == 1634093327 {
        50
    } else if k == 1868776198 {
        59
    } else if k == 1702249480 {
        62
    } else if k == 1735543818 {
        97
    } else if k == 1701989382 {
        103
    } else if k == 1769095943 {
        60
    } else if k == 1634878476 {
        61
    } else if k == 1869759499 {
        63
    } else if k == 1651462149 {
        64
    } else if k == 1868651014 {
        65
    } else if k == 1868645383 {
        66
    } else if k == 1634158604 {
        67
    } else if k == 1868775686 {
        68
    } else if k == 1819628295 {
        69
    } else if k == 1970230021 {
        70
    } else if k == 1700937991 {
        71
    } else if k == 1701987079 {
        72
    } else if k == 1869891851 {
        73
    } else if k == 1700876806 {
        83
    } else if k == 1702055688 {
        84
    } else if k == 1633768198 {
        85
    } else if k == 1701659406 {
        106
    } else if k == 1869431566 {
        107
    } else if k == 1818447372 {
        108
    } else if k == 1869632268 {
        109
    } else if k == 1919308296 {
        110
    } else if k == 1802650120 {
        111
    } else if k == 1835090183 {
        112
    } else if k == 1919108615 {
        113
    } else if k == 1918980872 {
        114
    } else if k == 1701724941 {
        115
    } else if k == 1953059600 {
        116
    } else if k == 1886798602 {
        117
    } else if k == 1635340299 {
        118
    } else if k == 1868778764 {
        120
    } else if k == 1634157839 {
        122
    } else if k == 1919762694 {
        123
    } else if k == 1702055182 {
        124
    } else if k == 1701724678 {
        125
    } else if k == 1701202199 {
        130
    } else if k == 1920223240 {
        131
    } else if k == 1768508420 {
        132
    } else if k == 1987463172 {
        133
    } else if k == 1633963531 {
        134
    } else if k == 1701070861 {
        135
    } else if k == 1852195853 {
        136
    } else if k == 1919239949 {
        137
    } else if k == 1936019724 {
        138
    } else if k == 1701790993 {
        139
    } else if k == 1920226576 {
        140
    } else if k == 1919505157 {
        141
    } else if k == 1868649229 {
        142
    } else if k == 1852130060 {
        143
    } else if k == 1852789516 {
        144
    } else if k == 1852723981 {
        146
    } else if k == 1869890825 {
        149
    } else if k == 1970818565 {
        154
    } else if k == 1952600593 {
        155
    } else if k == 1869369349 {
        156
    } else if k == 1869824267 {
        157
    } else if k == 1920159499 {
        159
    } else if k == 1635010311 {
        160
    } else if k == 1869565965 {
        162
    } else if k == 1970553615 {
        163
    } else if k == 1919042320 {
        164
    } else if k == 1701663760 {
        165
    } else if k == 1735542277 {
        166
    } else if k == 1952535304 {
        167
    } else if k == 1868908044 {
        169
    } else if k == 1633829136 {
        170
    } else if k == 1633833492 {
        171
    } else if k == 1919505166 {
        172
    } else if k == 1634289418 {
        10
    } else if k == 1634882318 {
        16
    } else if k == 1701661204 {
        19
    } else if k == 1701661203 {
        20
    } else if k == 1802327052 {
        21
    } else if k == 1634159880 {
        22
    } else if k == 1802323218 {
        23
    } else if k == 1701659923 {
        25
    } else if k == 1935884559 {
        27
    } else if k == 1869629448 {
        28
    } else if k == 1232227848 {
        29
    } else if k == 1970426889 {
        48
    } else if k == 1668566281 {
        49
    } else if k == 1634093329 {
        51
    } else if k == 1852003595 {
        52
    } else if k == 1701726221 {
        53
    } else if k == 1853244429 {
        54
    } else if k == 1802193682 {
        55
    } else if k == 1852525330 {
        56
    } else if k == 1818712330 {
        57
    } else if k == 1869759507 {
        74
    } else if k == 1970428423 {
        75
    } else if k == 1970492432 {
        76
    } else if k == 1953383950 {
        77
    } else if k == 1852720655 {
        78
    } else if k == 1634948104 {
        79
    } else if k == 1785351428 {
        80
    } else if k == 1701992202 {
        81
    } else if k == 1869498122 {
        82
    } else if k == 1953383432 {
        86
    } else if k == 1768177927 {
        87
    } else if k == 1769226503 {
        88
    } else if k == 1634947592 {
        98
    } else if k == 1634554635 {
        99
    } else if k == 1868906765 {
        100
    } else if k == 1819428622 {
        102
    } else if k == 1634093326 {
        104
    } else {
        -1
    }
}

/// A known unit type name gives back its id through its key.
proof fn lemma_unit_name_key(id: u16)
    requires
        unit_name_text(id) != "Unknown Unit"@,
    ensures
        unit_id_of_key(unit_name_key(unit_name_text(id))) == id,
{
    if id == 0 {
        reveal_strlit("Marine");
    } else if id == 1 {
        reveal_strlit("Ghost");
    } else if id == 2 {
        reveal_strlit("Vulture");
    } else if id == 3 {
        reveal_strlit("Goliath");
    } else if id == 5 {
        reveal_strlit("Siege Tank");
    } else if id == 7 {
        reveal_strlit("SCV");
    } else if id == 8 {
        reveal_strlit("Wraith");
    } else if id == 9 {
        reveal_strlit("Science Vessel");
    } else if id == 11 {
        reveal_strlit("Dropship");
    } else if id == 12 {
        reveal_strlit("Battlecruiser");
    } else if id == 13 {
        reveal_strlit("Spider Mine");
    } else if id == 14 {
        reveal_strlit("Nuclear Missile");
    } else if id == 15 {
        reveal_strlit("Civilian");
    } else if id == 30 {
        reveal_strlit("Siege Tank (Siege)");
    } else if id == 32 {
        reveal_strlit("Firebat");
    } else if id == 34 {
        reveal_strlit("Medic");
    } else if id == 58 {
        reveal_strlit("Valkyrie");
    } else if id == 35 {
        reveal_strlit("Larva");
    } else if id == 36 {
        reveal_strlit("Egg");
    } else if id == 37 {
        reveal_strlit("Zergling");
    } else if id == 38 {
        reveal_strlit("Hydralisk");
    } else if id == 39 {
        reveal_strlit("Ultralisk");
    } else if id == 40 {
        reveal_strlit("Broodling");
    } else if id == 41 {
        reveal_strlit("Drone");
    } else if id == 42 {
        reveal_strlit("Overlord");
    } else if id == 43 {
        reveal_strlit("Mutalisk");
    } else if id == 44 {
        reveal_strlit("Guardian");
    } else if id == 45 {
        reveal_strlit("Queen");
    } else if id == 46 {
        reveal_strlit("Defiler");
    } else if id == 47 {
        reveal_strlit("Scourge");
    } else if id == 50 {
        reveal_strlit("Infested Terran");
    } else if id == 59 {
        reveal_strlit("Cocoon");
    } else if id == 62 {
        reveal_strlit("Devourer");
    } else if id == 97 {
        reveal_strlit("Lurker Egg");
    } else if id == 103 {
        reveal_strlit("Lurker");
    } else if id == 60 {
        reveal_strlit("Corsair");
    } else if id == 61 {
        reveal_strlit("Dark Templar");
    } else if id == 63 {
        reveal_strlit("Dark Archon");
    } else if id == 64 {
        reveal_strlit("Probe");
    } else if id == 65 {
        reveal_strlit("Zealot");
    } else if id == 66 {
        reveal_strlit("Dragoon");
    } else if id == 67 {
        reveal_strlit("High Templar");
    } else if id == 68 {
        reveal_strlit("Archon");
    } else if id == 69 {
        reveal_strlit("Shuttle");
    } else if id == 70 {
        reveal_strlit("Scout");
    } else if id == 71 {
        reveal_strlit("Arbiter");
    } else if id == 72 {
        reveal_strlit("Carrier");
    } else if id == 73 {
        reveal_strlit("Interceptor");
    } else if id == 83 {
        reveal_strlit("Reaver");
    } else if id == 84 {
        reveal_strlit("Observer");
    } else if id == 85 {
        reveal_strlit("Scarab");
    } else if id == 106 {
        reveal_strlit("Command Center");
    } else if id == 107 {
        reveal_strlit("Comsat Station");
    } else if id == 108 {
        reveal_strlit("Nuclear Silo");
    } else if id == 109 {
        reveal_strlit("Supply Depot");
    } else if id == 110 {
        reveal_strlit("Refinery");
    } else if id == 111 {
        reveal_strlit("Barracks");
    } else if id == 112 {
        reveal_strlit("Academy");
    } else if id == 113 {
        reveal_strlit("Factory");
    } else if id == 114 {
        reveal_strlit("Starport");
    } else if id == 115 {
        reveal_strlit("Control Tower");
    } else if id == 116 {
        reveal_strlit("Science Facility");
    } else if id == 117 {
        reveal_strlit("Covert Ops");
    } else if id == 118 {
        reveal_strlit("Physics Lab");
    } else if id == 120 {
        reveal_strlit("Machine Shop");
    } else if id == 122 {
        reveal_strlit("Engineering Bay");
    } else if id == 123 {
        reveal_strlit("Armory");
    } else if id == 124 {
        reveal_strlit("Missile Turret");
    } else if id == 125 {
        reveal_strlit("Bunker");
    } else if id == 130 {
        reveal_strlit("Infested Command Center");
    } else if id == 131 {
        reveal_strlit("Hatchery");
    } else if id == 132 {
        reveal_strlit("Lair");
    } else if id == 133 {
        reveal_strlit("Hive");
    } else if id == 134 {
        reveal_strlit("Nydus Canal");
    } else if id == 135 {
        reveal_strlit("Hydralisk Den");
    } else if id == 136 {
        reveal_strlit("Defiler Mound");
    } else if id == 137 {
        reveal_strlit("Greater Spire");
    } else if id == 138 {
        reveal_strlit("Queen's Nest");
    } else if id == 139 {
        reveal_strlit("Evolution Chamber");
    } else if id == 140 {
        reveal_strlit("Ultralisk Cavern");
    } else if id == 141 {
        reveal_strlit("Spire");
    } else if id == 142 {
        reveal_strlit("Spawning Pool");
    } else if id == 143 {
        reveal_strlit("Creep Colony");
    } else if id == 144 {
        reveal_strlit("Spore Colony");
    } else if id == 146 {
        reveal_strlit("Sunken Colony");
    } else if id == 149 {
        reveal_strlit("Extractor");
    } else if id == 154 {
        reveal_strlit("Nexus");
    } else if id == 155 {
        reveal_strlit("Robotics Facility");
    } else if id == 156 {
        reveal_strlit("Pylon");
    } else if id == 157 {
        reveal_strlit("Assimilator");
    } else if id == 159 {
        reveal_strlit("Observatory");
    } else if id == 160 {
        reveal_strlit("Gateway");
    } else if id == 162 {
        reveal_strlit("Photon Cannon");
    } else if id == 163 {
        reveal_strlit("Citadel of Adun");
    } else if id == 164 {
        reveal_strlit("Cybernetics Core");
    } else if id == 165 {
        reveal_strlit("Templar Archives");
    } else if id == 166 {
        reveal_strlit("Forge");
    } else if id == 167 {
        reveal_strlit("Stargate");
    } else if id == 169 {
        reveal_strlit("Fleet Beacon");
    } else if id == 170 {
        reveal_strlit("Arbiter Tribunal");
    } else if id == 171 {
        reveal_strlit("Robotics Support Bay");
    } else if id == 172 {
        reveal_strlit("Shield Battery");
    } else if id == 10 {
        reveal_strlit("Gui Montag");
    } else if id == 16 {
        reveal_strlit("Sarah Kerrigan");
    } else if id == 19 {
        reveal_strlit("Jim Raynor (Vulture)");
    } else if id == 20 {
        reveal_strlit("Jim Raynor (Marine)");
    } else if id == 21 {
        reveal_strlit("Tom Kazansky");
    } else if id == 22 {
        reveal_strlit("Magellan");
    } else if id == 23 {
        reveal_strlit("Edmund Duke (Tank)");
    } else if id == 25 {
        reveal_strlit("Edmund Duke (Siege)");
    } else if id == 27 {
        reveal_strlit("Arcturus Mengsk");
    } else if id == 28 {
        reveal_strlit("Hyperion");
    } else if id == 29 {
        reveal_strlit("Norad II");
    } else if id == 48 {
        reveal_strlit("Torrasque");
    } else if id == 49 {
        reveal_strlit("Matriarch");
    } else if id == 51 {
        reveal_strlit("Infested Kerrigan");
    } else if id == 52 {
        reveal_strlit("Unclean One");
    } else if id == 53 {
        reveal_strlit("Hunter Killer");
    } else if id == 54 {
        reveal_strlit("Devouring One");
    } else if id == 55 {
        reveal_strlit("Kukulza (Mutalisk)");
    } else if id == 56 {
        reveal_strlit("Kukulza (Guardian)");
    } else if id == 57 {
        reveal_strlit("Yggdrasill");
    } else if id == 74 {
        reveal_strlit("Dark Templar (Hero)");
    } else if id == 75 {
        reveal_strlit("Zeratul");
    } else if id == 76 {
        reveal_strlit("Tassadar/Zeratul");
    } else if id == 77 {
        reveal_strlit("Fenix (Zealot)");
    } else if id == 78 {
        reveal_strlit("Fenix (Dragoon)");
    } else if id == 79 {
        reveal_strlit("Tassadar");
    } else if id == 80 {
        reveal_strlit("Mojo");
    } else if id == 81 {
        reveal_strlit("Warbringer");
    } else if id == 82 {
        reveal_strlit("Gantrithor");
    } else if id == 86 {
        reveal_strlit("Danimoth");
    } else if id == 87 {
        reveal_strlit("Aldaris");
    } else if id == 88 {
        reveal_strlit("Artanis");
    } else if id == 98 {
        reveal_strlit("Raszagal");
    } else if id == 99 {
        reveal_strlit("Samir Duran");
    } else if id == 100 {
        reveal_strlit("Alexei Stukov");
    } else if id == 102 {
        reveal_strlit("Gerard DuGalle");
    } else if id == 104 {
        reveal_strlit("Infested Duran");
    }
}

/// Different unit type ids that both have a known name have different names.
pub proof fn lemma_unit_names_distinct(a: u16, b: u16)
    requires
        a != b,
        unit_name_text(a) != "Unknown Unit"@,
        unit_name_text(b) != "Unknown Unit"@,
    ensures
        unit_name_text(a) != unit_name_text(b),
{
    lemma_unit_name_key(a);
    lemma_unit_name_key(b);
}

/// A number that tells the tech type names apart: built from the name's
/// length and its first two characters.
spec fn tech_name_key(s: Seq<char>) -> int {
    s.len() + 256 * (s[0] as int) + 65536 * (s[1] as int)
}

/// The tech type id whose name has the key `k`, or -1 if there is none.
spec fn tech_id_of_key(k: int) -> int {
    if k == 7623434 {
        0
    } else if k == 7293960 {
        1
    } else if k == 5063949 {
        2
    } else if k == 7361292 {
        3
    } else if k == 6509325 {
        4
    } else if k == 6378511 {
        5
    } else if k == 6636560 {
        6
    } else if k == 7489801 {
        7
    } else if k == 6379786 {
        8
    } else if k == 7095054 {
        9
    } else if k == 6639634 {
        10
    } else if k == 7684617 {
        11
    } else if k == 7227659 {
        12
    } else if k == 7361296 {
        13
    } else if k == 6374410 {
        14
    } else if k == 7098374 {
        15
    } else if k == 7291655 {
        16
    } else if k == 7226631 {
        17
    } else if k == 6377480 {
        18
    } else if k == 7557133 {
        19
    } else if k == 6375437 {
        20
    } else if k == 6640134 {
        21
    } else if k == 7623436 {
        22
    } else if k == 7487755 {
        23
    } else if k == 6640139 {
        24
    } else if k == 6898702 {
        25
    } else if k == 6901004 {
        27
    } else if k == 6374416 {
        28
    } else if k == 6637064 {
        29
    } else if k == 7360269 {
        30
    } else if k == 6376713 {
        31
    } else if k == 7687181 {
        32
    } else if k == 6637575 {
        34
    } else if k == 7687694 {
        45
    } else {
        -1
    }
}

/// A known tech type name gives back its id through its key.
proof fn lemma_tech_name_key(id: u8)
    requires
        tech_name_text(id) != "Unknown Tech"@,
    ensures
        tech_id_of_key(tech_name_key(tech_name_text(id))) == id,
{
    if id == 0 {
        reveal_strlit("Stim Packs");
    } else if id == 1 {
        reveal_strlit("Lockdown");
    } else if id == 2 {
        reveal_strlit("EMP Shockwave");
    } else if id == 3 {
        reveal_strlit("Spider Mines");
    } else if id == 4 {
        reveal_strlit("Scanner Sweep");
    } else if id == 5 {
        reveal_strlit("Tank Siege Mode");
    } else if id == 6 {
        reveal_strlit("Defensive Matrix");
    } else if id == 7 {
        reveal_strlit("Irradiate");
    } else if id == 8 {
        reveal_strlit("Yamato Gun");
    } else if id == 9 {
        reveal_strlit("Cloaking Field");
    } else if id == 10 {
        reveal_strlit("Personnel Cloaking");
    } else if id == 11 {
        reveal_strlit("Burrowing");
    } else if id == 12 {
        reveal_strlit("Infestation");
    } else if id == 13 {
        reveal_strlit("Spawn Broodlings");
    } else if id == 14 {
        reveal_strlit("Dark Swarm");
    } else if id == 15 {
        reveal_strlit("Plague");
    } else if id == 16 {
        reveal_strlit("Consume");
    } else if id == 17 {
        reveal_strlit("Ensnare");
    } else if id == 18 {
        reveal_strlit("Parasite");
    } else if id == 19 {
        reveal_strlit("Psionic Storm");
    } else if id == 20 {
        reveal_strlit("Hallucination");
    } else if id == 21 {
        reveal_strlit("Recall");
    } else if id == 22 {
        reveal_strlit("Stasis Field");
    } else if id == 23 {
        reveal_strlit("Archon Warp");
    } else if id == 24 {
        reveal_strlit("Restoration");
    } else if id == 25 {
        reveal_strlit("Disruption Web");
    } else if id == 27 {
        reveal_strlit("Mind Control");
    } else if id == 28 {
        reveal_strlit("Dark Archon Meld");
    } else if id == 29 {
        reveal_strlit("Feedback");
    } else if id == 30 {
        reveal_strlit("Optical Flare");
    } else if id == 31 {
        reveal_strlit("Maelstrom");
    } else if id == 32 {
        reveal_strlit("Lurker Aspect");
    } else if id == 34 {
        reveal_strlit("Healing");
    } else if id == 45 {
        reveal_strlit("Nuclear Strike");
    }
}

/// Different tech type ids that both have a known name have different names.
pub proof fn lemma_tech_names_distinct(a: u8, b: u8)
    requires
        a != b,
        tech_name_text(a) != "Unknown Tech"@,
        tech_name_text(b) != "Unknown Tech"@,
    ensures
        tech_name_text(a) != tech_name_text(b),
{
    lemma_tech_name_key(a);
    lemma_tech_name_key(b);
}

/// A number that tells the upgrade type names apart: built from the name's
/// length, its sixth character and its third-to-last one.
spec fn upgrade_name_key(s: Seq<char>) -> int {
    s.len() + 256 * (s[5] as int) + 65536 * (s[s.len() - 3] as int)
}

/// The upgrade type id whose name has the key `k`, or -1 if there is none.
spec fn upgrade_id_of_key(k: int) -> int {
    if k == 7173134 {
        0
    } else if k == 6908943 {
        1
    } else if k == 6901772 {
        2
    } else if k == 6374157 {
        3
    } else if k == 6374931 {
        4
    } else if k == 7172884 {
        5
    } else if k == 7172881 {
        6
    } else if k == 7304208 {
        7
    } else if k == 7302159 {
        8
    } else if k == 7296780 {
        9
    } else if k == 6507794 {
        10
    } else if k == 6507796 {
        11
    } else if k == 6506002 {
        12
    } else if k == 7303958 {
        13
    } else if k == 7303955 {
        14
    } else if k == 7107350 {
        15
    } else if k == 7086092 {
        16
    } else if k == 6645773 {
        17
    } else if k == 7610381 {
        19
    } else if k == 7238159 {
        20
    } else if k == 7632143 {
        21
    } else if k == 7630606 {
        22
    } else if k == 7631632 {
        23
    } else if k == 6381836 {
        24
    } else if k == 7237128 {
        25
    } else if k == 6381844 {
        26
    } else if k == 7302927 {
        27
    } else if k == 7233806 {
        28
    } else if k == 7236625 {
        29
    } else if k == 7234830 {
        30
    } else if k == 7562510 {
        31
    } else if k == 7305489 {
        32
    } else if k == 7498770 {
        33
    } else if k == 7237136 {
        34
    } else if k == 6382093 {
        35
    } else if k == 6910479 {
        36
    } else if k == 6910990 {
        37
    } else if k == 7500300 {
        38
    } else if k == 6648849 {
        39
    } else if k == 7102736 {
        40
    } else if k == 7282701 {
        41
    } else if k == 6648850 {
        42
    } else if k == 6907152 {
        43
    } else if k == 7299342 {
        44
    } else if k == 7806987 {
        47
    } else if k == 7151630 {
        49
    } else if k == 7628048 {
        51
    } else if k == 6909457 {
        52
    } else if k == 7564306 {
        53
    } else if k == 6647311 {
        54
    } else {
        -1
    }
}

/// A known upgrade type name gives back its id through its key.
proof fn lemma_upgrade_name_key(id: u8)
    requires
        upgrade_name_text(id) != "Unknown Upgrade"@,
    ensures
        upgrade_id_of_key(upgrade_name_key(upgrade_name_text(id))) == id,
{
    if id == 0 {
        reveal_strlit("Infantry Armor");
    } else if id == 1 {
        reveal_strlit("Vehicle Plating");
    } else if id == 2 {
        reveal_strlit("Ship Plating");
    } else if id == 3 {
        reveal_strlit("Zerg Carapace");
    } else if id == 4 {
        reveal_strlit("Zerg Flyer Carapace");
    } else if id == 5 {
        reveal_strlit("Protoss Ground Armor");
    } else if id == 6 {
        reveal_strlit("Protoss Air Armor");
    } else if id == 7 {
        reveal_strlit("Infantry Weapons");
    } else if id == 8 {
        reveal_strlit("Vehicle Weapons");
    } else if id == 9 {
        reveal_strlit("Ship Weapons");
    } else if id == 10 {
        reveal_strlit("Zerg Melee Attacks");
    } else if id == 11 {
        reveal_strlit("Zerg Missile Attacks");
    } else if id == 12 {
        reveal_strlit("Zerg Flyer Attacks");
    } else if id == 13 {
        reveal_strlit("Protoss Ground Weapons");
    } else if id == 14 {
        reveal_strlit("Protoss Air Weapons");
    } else if id == 15 {
        reveal_strlit("Protoss Plasma Shields");
    } else if id == 16 {
        reveal_strlit("U-238 Shells");
    } else if id == 17 {
        reveal_strlit("Ion Thrusters");
    } else if id == 19 {
        reveal_strlit("Titan Reactor");
    } else if id == 20 {
        reveal_strlit("Ocular Implants");
    } else if id == 21 {
        reveal_strlit("Moebius Reactor");
    } else if id == 22 {
        reveal_strlit("Apollo Reactor");
    } else if id == 23 {
        reveal_strlit("Colossus Reactor");
    } else if id == 24 {
        reveal_strlit("Ventral Sacs");
    } else if id == 25 {
        reveal_strlit("Antennae");
    } else if id == 26 {
        reveal_strlit("Pneumatized Carapace");
    } else if id == 27 {
        reveal_strlit("Metabolic Boost");
    } else if id == 28 {
        reveal_strlit("Adrenal Glands");
    } else if id == 29 {
        reveal_strlit("Muscular Augments");
    } else if id == 30 {
        reveal_strlit("Grooved Spines");
    } else if id == 31 {
        reveal_strlit("Gamete Meiosis");
    } else if id == 32 {
        reveal_strlit("Metasynaptic Node");
    } else if id == 33 {
        reveal_strlit("Singularity Charge");
    } else if id == 34 {
        reveal_strlit("Leg Enhancements");
    } else if id == 35 {
        reveal_strlit("Scarab Damage");
    } else if id == 36 {
        reveal_strlit("Reaver Capacity");
    } else if id == 37 {
        reveal_strlit("Gravitic Drive");
    } else if id == 38 {
        reveal_strlit("Sensor Array");
    } else if id == 39 {
        reveal_strlit("Gravitic Boosters");
    } else if id == 40 {
        reveal_strlit("Khaydarin Amulet");
    } else if id == 41 {
        reveal_strlit("Apial Sensors");
    } else if id == 42 {
        reveal_strlit("Gravitic Thrusters");
    } else if id == 43 {
        reveal_strlit("Carrier Capacity");
    } else if id == 44 {
        reveal_strlit("Khaydarin Core");
    } else if id == 47 {
        reveal_strlit("Argus Jewel");
    } else if id == 49 {
        reveal_strlit("Argus Talisman");
    } else if id == 51 {
        reveal_strlit("Caduceus Reactor");
    } else if id == 52 {
        reveal_strlit("Chitinous Plating");
    } else if id == 53 {
        reveal_strlit("Anabolic Synthesis");
    } else if id == 54 {
        reveal_strlit("Charon Boosters");
    }
}

/// Different upgrade type ids that both have a known name have different names.
pub proof fn lemma_upgrade_names_distinct(a: u8, b: u8)
    requires
        a != b,
        upgrade_name_text(a) != "Unknown Upgrade"@,
        upgrade_name_text(b) != "Unknown Upgrade"@,
    ensures
        upgrade_name_text(a) != upgrade_name_text(b),
{
    lemma_upgrade_name_key(a);
    lemma_upgrade_name_key(b);
}

} // verus!
