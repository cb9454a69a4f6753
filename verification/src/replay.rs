//! Reading a whole replay: the sections in order, the command stream, and the
//! build order drawn from it.

use vstd::prelude::*;
use crate::analysis::{BuildOrderEntry, build_order_of, extract_build_order};
use crate::command::{GameCommand, GameCommandView, parse_commands, spec_parse_commands, view_commands};
use crate::error::{ReplayError, ReplayErrorView};
use crate::format::{Format, MAGIC_LEGACY, MAGIC_MODERN, detect, spec_detect};
use crate::section::{decompress_section, spec_decompress_section};

verus! {

/// A parsed replay. The header section (section 1) and the extended player
/// names (section 4) are kept as their decompressed bytes.
#[derive(Debug, Clone)]
pub struct Replay {
    /// Decompressed bytes of the header section.
    pub header_section: Vec<u8>,
    /// Decompressed bytes of the extended player names, where the replay has them.
    pub extended_names: Option<Vec<u8>>,
    pub commands: Vec<GameCommand>,
    pub build_order: Vec<BuildOrderEntry>,
}

/// The value of a [`Replay`].
pub struct ReplayView {
    pub header_section: Seq<u8>,
    pub extended_names: Option<Seq<u8>>,
    pub commands: Seq<GameCommandView>,
    pub build_order: Seq<BuildOrderEntry>,
}

impl View for Replay {
    type V = ReplayView;

    open spec fn view(&self) -> ReplayView {
        ReplayView {
            header_section: self.header_section@,
            extended_names: match self.extended_names {
                Some(v) => Some(v@),
                None => None,
            },
            commands: view_commands(self.commands@),
            build_order: self.build_order@,
        }
    }
}

/// The check of section 0: at least 4 bytes, starting with `seRS` or `reRS`.
pub open spec fn spec_magic(section0: Seq<u8>) -> Result<(), ReplayErrorView> {
    if section0.len() < 4 {
        Err(ReplayErrorView::TooShort { expected: 4, actual: section0.len() as usize })
    } else if section0.take(4) == MAGIC_MODERN@ || section0.take(4) == MAGIC_LEGACY@ {
        Ok(())
    } else {
        Err(ReplayErrorView::InvalidMagic([section0[0], section0[1], section0[2], section0[3]]))
    }
}

/// Section 0 passes the magic check exactly when it starts with the bytes of
/// `seRS` (0x73 0x65 0x52 0x53) or of `reRS` (0x72 0x65 0x52 0x53); a shorter
/// one is too short, and any other start is reported with its four bytes.
pub proof fn lemma_magic_bytes(section0: Seq<u8>)
    ensures
        spec_magic(section0) is Ok <==> section0.len() >= 4 && (section0[0] == 0x73 || section0[0]
            == 0x72) && section0[1] == 0x65 && section0[2] == 0x52 && section0[3] == 0x53,
        section0.len() < 4 ==> spec_magic(section0) == Err::<(), ReplayErrorView>(
            ReplayErrorView::TooShort { expected: 4, actual: section0.len() as usize },
        ),
{
    if section0.len() >= 4 {
        let h = section0.take(4);
        assert(h[0] == section0[0] && h[1] == section0[1] && h[2] == section0[2] && h[3]
            == section0[3]);
        assert(MAGIC_MODERN@ =~= seq![0x73u8, 0x65u8, 0x52u8, 0x53u8]);
        assert(MAGIC_LEGACY@ =~= seq![0x72u8, 0x65u8, 0x52u8, 0x53u8]);
        if (section0[0] == 0x73 || section0[0] == 0x72) && section0[1] == 0x65 && section0[2]
            == 0x52 && section0[3] == 0x53 {
            if section0[0] == 0x73 {
                assert(h =~= MAGIC_MODERN@);
            } else {
                assert(h =~= MAGIC_LEGACY@);
            }
        }
    }
}

/// Where reading goes on after a 1.21+ size marker at `offset`, or the error
/// of reading it; other formats have no marker.
pub open spec fn after_marker(data: Seq<u8>, offset: usize, fmt: Format) -> Result<usize, ReplayErrorView> {
    if fmt == Format::Modern121 {
        match spec_decompress_section(data, offset, fmt) {
            Ok((_, n)) => Ok((offset + n) as usize),
            Err(e) => Err(e),
        }
    } else {
        Ok(offset)
    }
}

/// The extended player names section at `offset`, if one is there and reads.
pub open spec fn names_at(data: Seq<u8>, offset: usize, fmt: Format) -> Option<Seq<u8>> {
    if offset < data.len() {
        match spec_decompress_section(data, offset, fmt) {
            Ok((b, _)) => Some(b),
            Err(_) => None,
        }
    } else {
        None
    }
}

/// The replay in sections 2 (commands), 3 (map data, skipped) and 4 (extended
/// names) from `offset` on, with the header already read.
pub open spec fn spec_after_header(
    data: Seq<u8>,
    offset: usize,
    fmt: Format,
    header: Seq<u8>,
) -> Result<ReplayView, ReplayErrorView> {
    match spec_decompress_section(data, offset, fmt) {
        Err(e) => Err(e),
        Ok((s2, n2)) => match after_marker(data, (offset + n2) as usize, fmt) {
            Err(e) => Err(e),
            Ok(o3) => match spec_decompress_section(data, o3, fmt) {
                Err(e) => Err(e),
                Ok((_, n3)) => match after_marker(data, (o3 + n3) as usize, fmt) {
                    Err(e) => Err(e),
                    Ok(o4) => {
                        let commands = spec_parse_commands(s2);
                        Ok(
                            ReplayView {
                                header_section: header,
                                extended_names: names_at(data, o4, fmt),
                                commands,
                                build_order: build_order_of(commands),
                            },
                        )
                    },
                },
            },
        },
    }
}

/// A whole replay file.
pub open spec fn spec_parse(data: Seq<u8>) -> Result<ReplayView, ReplayErrorView> {
    if data.len() < 30 {
        Err(ReplayErrorView::TooShort { expected: 30, actual: data.len() as usize })
    } else {
        let fmt = spec_detect(data);
        if fmt == Format::Legacy {
            Err(ReplayErrorView::LegacyFormat)
        } else {
            match spec_decompress_section(data, 0, fmt) {
                Err(e) => Err(e),
                Ok((s0, n0)) => match spec_magic(s0) {
                    Err(e) => Err(e),
                    Ok(_) => {
                        let o1 = if fmt == Format::Modern121 {
                            (n0 + 4) as usize
                        } else {
                            n0
                        };
                        match spec_decompress_section(data, o1, fmt) {
                            Err(e) => Err(e),
                            Ok((s1, n1)) => match after_marker(data, (o1 + n1) as usize, fmt) {
                                Err(e) => Err(e),
                                Ok(o2) => spec_after_header(data, o2, fmt, s1),
                            },
                        }
                    },
                }
            }
        }
    }
}

/// Check the magic bytes of section 0.
fn validate_magic(section0: &[u8]) -> (r: Result<(), ReplayError>)
    ensures
        match spec_magic(section0@) {
            Ok(_) => r is Ok,
            Err(e) => r matches Err(x) && x@ == e,
        },
{
    if section0.len() < 4 {
        return Err(ReplayError::TooShort { expected: 4, actual: section0.len() });
    }
    let magic: [u8; 4] = [section0[0], section0[1], section0[2], section0[3]];
    let modern = magic[0] == MAGIC_MODERN[0] && magic[1] == MAGIC_MODERN[1] && magic[2]
        == MAGIC_MODERN[2] && magic[3] == MAGIC_MODERN[3];
    let legacy = magic[0] == MAGIC_LEGACY[0] && magic[1] == MAGIC_LEGACY[1] && magic[2]
        == MAGIC_LEGACY[2] && magic[3] == MAGIC_LEGACY[3];
    proof {
        assert(modern <==> section0@.take(4) =~= MAGIC_MODERN@);
        assert(legacy <==> section0@.take(4) =~= MAGIC_LEGACY@);
    }
    if !modern && !legacy {
        return Err(ReplayError::InvalidMagic(magic));
    }
    Ok(())
}

/// Skip a 1.21+ size-marker section (a mini section of 4 bytes); returns the
/// number of bytes it spans.
fn skip_size_marker(data: &[u8], offset: usize, fmt: Format) -> (r: Result<usize, ReplayError>)
    ensures
        match spec_decompress_section(data@, offset, fmt) {
            Ok((_, n)) => r == Ok::<usize, ReplayError>(n) && offset + n <= data@.len(),
            Err(e) => r matches Err(x) && x@ == e,
        },
{
    match decompress_section(data, offset, fmt) {
        Ok((_marker, consumed)) => Ok(consumed),
        Err(e) => Err(e),
    }
}

/// Sections 2 to 4 of a replay, from `offset` on.
fn parse_after_header(data: &[u8], offset: usize, fmt: Format, header: Vec<u8>) -> (r: Result<
    Replay,
    ReplayError,
>)
    requires
        offset <= data@.len(),
        data@.len() + 8 <= usize::MAX,
    ensures
        match spec_after_header(data@, offset, fmt, header@) {
            Ok(v) => r matches Ok(x) && x@ == v,
            Err(e) => r matches Err(x) && x@ == e,
        },
{
    let (section2, consumed2) = match decompress_section(data, offset, fmt) {
        Ok(v) => v,
        Err(e) => return Err(e),
    };
    let commands = parse_commands(section2.as_slice());
    let mut off = offset + consumed2;
    if fmt == Format::Modern121 {
        match skip_size_marker(data, off, fmt) {
            Ok(n) => off = off + n,
            Err(e) => return Err(e),
        }
    }
    let consumed3 = match decompress_section(data, off, fmt) {
        Ok((_section3, n)) => n,
        Err(e) => return Err(e),
    };
    off = off + consumed3;
    if fmt == Format::Modern121 {
        match skip_size_marker(data, off, fmt) {
            Ok(n) => off = off + n,
            Err(e) => return Err(e),
        }
    }
    let extended_names = if off < data.len() {
        match decompress_section(data, off, fmt) {
            Ok((section4, _)) => Some(section4),
            Err(_) => None,
        }
    } else {
        None
    };
    let build_order = extract_build_order(commands.as_slice());
    Ok(Replay { header_section: header, extended_names, commands, build_order })
}

/// Parse a replay from raw `.rep` file bytes. Modern replays (1.18+, zlib
/// compressed) are read; older ones are refused.
pub fn parse(data: &[u8]) -> (r: Result<Replay, ReplayError>)
    requires
        data@.len() <= isize::MAX,
    ensures
        match spec_parse(data@) {
            Ok(v) => r matches Ok(x) && x@ == v,
            Err(e) => r matches Err(x) && x@ == e,
        },
{
    if data.len() < 30 {
        return Err(ReplayError::TooShort { expected: 30, actual: data.len() });
    }
    let fmt = detect(data);
    if fmt == Format::Legacy {
        return Err(ReplayError::LegacyFormat);
    }
    let (section0, consumed0) = match decompress_section(data, 0, fmt) {
        Ok(v) => v,
        Err(e) => return Err(e),
    };
    match validate_magic(section0.as_slice()) {
        Ok(()) => {},
        Err(e) => return Err(e),
    }
    let mut offset = consumed0;
    // 1.21+ puts a 4-byte encoded length after section 0.
    if fmt == Format::Modern121 {
        offset = offset + 4;
    }
    let (section1, consumed1) = match decompress_section(data, offset, fmt) {
        Ok(v) => v,
        Err(e) => return Err(e),
    };
    offset = offset + consumed1;
    if fmt == Format::Modern121 {
        match skip_size_marker(data, offset, fmt) {
            Ok(n) => offset = offset + n,
            Err(e) => return Err(e),
        }
    }
    parse_after_header(data, offset, fmt, section1)
}

} // verus!
