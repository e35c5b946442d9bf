//! The registry of supported game builds: identity, language, expected ROM
//! checksum and save variant for each, as plain data.
//!
//! New builds are added by data, not by new engine code: the engine only
//! ever consults a `GameDesc` through its methods.

use vstd::prelude::*;

verus! {

/// The game family a build belongs to.
#[derive(Clone, Copy, Debug, PartialEq, Eq)]
pub enum Family {
    Exe3,
    Bn3,
}

/// The localized language of a build.
#[derive(Clone, Copy, Debug, PartialEq, Eq)]
pub enum Language {
    JaJp,
    EnUs,
}

/// Which save variant a build uses.
#[derive(Clone, Copy, Debug, PartialEq, Eq)]
pub enum Variant {
    White,
    Blue,
}

/// What a parsed save file reports about itself.
#[derive(Clone, Copy, Debug, PartialEq, Eq)]
pub struct SaveGameInfo {
    pub variant: Variant,
}

/// A save: what the external save parser reports plus the raw working-RAM
/// bytes it was built from.
pub struct Save {
    pub game_info: SaveGameInfo,
    pub wram: Vec<u8>,
}

/// A save is not compatible with the selected build.
#[derive(Clone, Copy, Debug, PartialEq, Eq)]
pub struct IncompatibleSave {
    pub got: SaveGameInfo,
}

/// One supported build, fully described by data.
#[derive(Clone, Copy, Debug, PartialEq, Eq)]
pub struct GameDesc {
    pub rom_code: [u8; 4],
    pub revision: u8,
    pub family: Family,
    pub variant_index: u8,
    pub language: Language,
    pub crc32: u32,
    pub save_variant: Variant,
}

impl GameDesc {
    /// The four-byte ROM code and revision that identify the build.
    pub fn rom_code_and_revision(&self) -> (r: ([u8; 4], u8))
        ensures
            r.0@ == self.rom_code@,
            r.1 == self.revision,
    {
        (self.rom_code, self.revision)
    }

    /// The family and the variant index within it.
    pub fn family_and_variant(&self) -> (r: (Family, u8))
        ensures
            r == (self.family, self.variant_index),
    {
        (self.family, self.variant_index)
    }

    /// The build's localized language.
    pub fn language(&self) -> (r: Language)
        ensures
            r == self.language,
    {
        self.language
    }

    /// The CRC-32 an unpatched ROM of this build must have.
    pub fn expected_crc32(&self) -> (r: u32)
        ensures
            r == self.crc32,
    {
        self.crc32
    }

    /// The match types the build offers, every build the same two.
    pub fn match_types(&self) -> (r: Vec<usize>)
        ensures
            r@ == seq![4usize, 1usize],
    {
        let mut v: Vec<usize> = Vec::new();
        v.push(4);
        v.push(1);
        assert(v@ =~= seq![4usize, 1usize]);
        v
    }

    /// Wrap working-RAM bytes as this build's save.  The byte-level layout
    /// is the external save parser's concern; the build decides only the
    /// variant the save is stamped with.
    pub fn save_from_wram(&self, data: &Vec<u8>) -> (r: Save)
        ensures
            r.game_info == (SaveGameInfo { variant: self.save_variant }),
            r.wram@ == data@,
    {
        Save { game_info: SaveGameInfo { variant: self.save_variant }, wram: data.clone() }
    }

    /// Accept an externally parsed save only when it belongs to this
    /// build's variant: `Ok` exactly when the variants match, the reported
    /// info in the error otherwise.
    pub fn parse_save(&self, save: &Save) -> (r: Result<(), IncompatibleSave>)
        ensures
            r is Ok <==> save.game_info == (SaveGameInfo { variant: self.save_variant }),
            r matches Err(e) ==> e.got == save.game_info,
    {
        if matches!(
            (save.game_info.variant, self.save_variant),
            (Variant::White, Variant::White) | (Variant::Blue, Variant::Blue)
        ) {
            Ok(())
        } else {
            Err(IncompatibleSave { got: save.game_info })
        }
    }
}

/// The Japanese white build.
pub fn exe3w() -> (r: GameDesc)
    ensures
        r == (GameDesc {
            rom_code: [0x41u8, 0x36u8, 0x42u8, 0x4Au8],
            revision: 0x01,
            family: Family::Exe3,
            variant_index: 0,
            language: Language::JaJp,
            crc32: 0xe48e6bc9,
            save_variant: Variant::White,
        }),
{
    GameDesc {
        rom_code: [0x41u8, 0x36u8, 0x42u8, 0x4Au8],
        revision: 0x01,
        family: Family::Exe3,
        variant_index: 0,
        language: Language::JaJp,
        crc32: 0xe48e6bc9,
        save_variant: Variant::White,
    }
}

/// The Japanese black build.
pub fn exe3b() -> (r: GameDesc)
    ensures
        r == (GameDesc {
            rom_code: [0x41u8, 0x33u8, 0x58u8, 0x4Au8],
            revision: 0x01,
            family: Family::Exe3,
            variant_index: 1,
            language: Language::JaJp,
            crc32: 0xfd57493b,
            save_variant: Variant::Blue,
        }),
{
    GameDesc {
        rom_code: [0x41u8, 0x33u8, 0x58u8, 0x4Au8],
        revision: 0x01,
        family: Family::Exe3,
        variant_index: 1,
        language: Language::JaJp,
        crc32: 0xfd57493b,
        save_variant: Variant::Blue,
    }
}

/// The US white build.
pub fn bn3w() -> (r: GameDesc)
    ensures
        r == (GameDesc {
            rom_code: [0x41u8, 0x36u8, 0x42u8, 0x45u8],
            revision: 0x00,
            family: Family::Bn3,
            variant_index: 0,
            language: Language::EnUs,
            crc32: 0x0be4410a,
            save_variant: Variant::White,
        }),
{
    GameDesc {
        rom_code: [0x41u8, 0x36u8, 0x42u8, 0x45u8],
        revision: 0x00,
        family: Family::Bn3,
        variant_index: 0,
        language: Language::EnUs,
        crc32: 0x0be4410a,
        save_variant: Variant::White,
    }
}

/// The US blue build.
pub fn bn3b() -> (r: GameDesc)
    ensures
        r == (GameDesc {
            rom_code: [0x41u8, 0x33u8, 0x58u8, 0x45u8],
            revision: 0x00,
            family: Family::Bn3,
            variant_index: 1,
            language: Language::EnUs,
            crc32: 0xc0c780f9,
            save_variant: Variant::Blue,
        }),
{
    GameDesc {
        rom_code: [0x41u8, 0x33u8, 0x58u8, 0x45u8],
        revision: 0x00,
        family: Family::Bn3,
        variant_index: 1,
        language: Language::EnUs,
        crc32: 0xc0c780f9,
        save_variant: Variant::Blue,
    }
}

/// Which registered build a (family, variant) pair names, if any.
pub open spec fn spec_find_by_family_and_variant(family: Family, variant: u8) -> Option<GameDesc> {
    if family is Exe3 && variant == 0 {
        Some(
            GameDesc {
                rom_code: [0x41u8, 0x36u8, 0x42u8, 0x4Au8],
                revision: 0x01,
                family: Family::Exe3,
                variant_index: 0,
                language: Language::JaJp,
                crc32: 0xe48e6bc9,
                save_variant: Variant::White,
            },
        )
    } else if family is Exe3 && variant == 1 {
        Some(
            GameDesc {
                rom_code: [0x41u8, 0x33u8, 0x58u8, 0x4Au8],
                revision: 0x01,
                family: Family::Exe3,
                variant_index: 1,
                language: Language::JaJp,
                crc32: 0xfd57493b,
                save_variant: Variant::Blue,
            },
        )
    } else if family is Bn3 && variant == 0 {
        Some(
            GameDesc {
                rom_code: [0x41u8, 0x36u8, 0x42u8, 0x45u8],
                revision: 0x00,
                family: Family::Bn3,
                variant_index: 0,
                language: Language::EnUs,
                crc32: 0x0be4410a,
                save_variant: Variant::White,
            },
        )
    } else if family is Bn3 && variant == 1 {
        Some(
            GameDesc {
                rom_code: [0x41u8, 0x33u8, 0x58u8, 0x45u8],
                revision: 0x00,
                family: Family::Bn3,
                variant_index: 1,
                language: Language::EnUs,
                crc32: 0xc0c780f9,
                save_variant: Variant::Blue,
            },
        )
    } else {
        None
    }
}

/// Look a build up by family and variant index.
pub fn find_by_family_and_variant(family: Family, variant: u8) -> (r: Option<GameDesc>)
    ensures
        r == spec_find_by_family_and_variant(family, variant),
{
    match (family, variant) {
        (Family::Exe3, 0) => Some(exe3w()),
        (Family::Exe3, 1) => Some(exe3b()),
        (Family::Bn3, 0) => Some(bn3w()),
        (Family::Bn3, 1) => Some(bn3b()),
        _ => None,
    }
}

} // verus!
