//! Error types of the replay reader and of the game-data readers.

use vstd::prelude::*;

verus! {

/// Errors produced while reading a replay.
#[derive(Debug)]
pub enum ReplayError {
    TooShort { expected: usize, actual: usize },
    InvalidMagic([u8; 4]),
    Decompression(String),
    LegacyFormat,
    InvalidSection { index: usize, reason: String },
    InvalidHeader(String),
}

/// Errors produced while reading game data files (MPQ, DAT, GRP, TBL, tilesets).
#[derive(Debug)]
pub enum EngineError {
    DatTooShort { file: &'static str, expected: usize, actual: usize },
    InvalidGrp(String),
    InvalidTbl(String),
    MpqInvalidHeader(String),
    MpqFileNotFound { name: String },
    MpqDecompression(String),
    TilesetDataTooShort { file: &'static str, expected: usize, actual: usize },
    MegatileLookupOutOfBounds { index: usize, vf4_len: usize },
}

} // verus!

verus! {

/// The mathematical value of a [`ReplayError`]: messages as character sequences.
pub enum ReplayErrorView {
    TooShort { expected: usize, actual: usize },
    InvalidMagic([u8; 4]),
    Decompression(Seq<char>),
    LegacyFormat,
    InvalidSection { index: usize, reason: Seq<char> },
    InvalidHeader(Seq<char>),
}

impl View for ReplayError {
    type V = ReplayErrorView;

    open spec fn view(&self) -> ReplayErrorView {
        match self {
            ReplayError::TooShort { expected, actual } => ReplayErrorView::TooShort {
                expected: *expected,
                actual: *actual,
            },
            ReplayError::InvalidMagic(m) => ReplayErrorView::InvalidMagic(*m),
            ReplayError::Decompression(m) => ReplayErrorView::Decompression(m@),
            ReplayError::LegacyFormat => ReplayErrorView::LegacyFormat,
            ReplayError::InvalidSection { index, reason } => ReplayErrorView::InvalidSection {
                index: *index,
                reason: reason@,
            },
            ReplayError::InvalidHeader(m) => ReplayErrorView::InvalidHeader(m@),
        }
    }
}

/// The mathematical value of an [`EngineError`]: names and messages as character sequences.
pub enum EngineErrorView {
    DatTooShort { file: Seq<char>, expected: usize, actual: usize },
    InvalidGrp(Seq<char>),
    InvalidTbl(Seq<char>),
    MpqInvalidHeader(Seq<char>),
    MpqFileNotFound { name: Seq<char> },
    MpqDecompression(Seq<char>),
    TilesetDataTooShort { file: Seq<char>, expected: usize, actual: usize },
    MegatileLookupOutOfBounds { index: usize, vf4_len: usize },
}

impl View for EngineError {
    type V = EngineErrorView;

    open spec fn view(&self) -> EngineErrorView {
        match self {
            EngineError::DatTooShort { file, expected, actual } => EngineErrorView::DatTooShort {
                file: file@,
                expected: *expected,
                actual: *actual,
            },
            EngineError::InvalidGrp(m) => EngineErrorView::InvalidGrp(m@),
            EngineError::InvalidTbl(m) => EngineErrorView::InvalidTbl(m@),
            EngineError::MpqInvalidHeader(m) => EngineErrorView::MpqInvalidHeader(m@),
            EngineError::MpqFileNotFound { name } => EngineErrorView::MpqFileNotFound {
                name: name@,
            },
            EngineError::MpqDecompression(m) => EngineErrorView::MpqDecompression(m@),
            EngineError::TilesetDataTooShort { file, expected, actual } =>
                EngineErrorView::TilesetDataTooShort {
                file: file@,
                expected: *expected,
                actual: *actual,
            },
            EngineError::MegatileLookupOutOfBounds { index, vf4_len } =>
                EngineErrorView::MegatileLookupOutOfBounds { index: *index, vf4_len: *vf4_len },
        }
    }
}

} // verus!
