//! The closed set of supported console platforms and the extension
//! table that maps a file extension to one of them.

use vstd::prelude::*;

use crate::text::{lower_seq, str_eq, to_lower};

verus! {

/// A console/platform identity. Closed set; values are produced only
/// by classification and never change afterwards.
#[derive(Copy, Clone, Debug, PartialEq, Eq, Structural)]
pub enum Console {
    NES,
    SNES,
    VirtualBoy,
    N64,
    GameCube,
    Wii,
    Switch,
    Gameboy,
    GameboyColor,
    GameboyAdvance,
    NDS,
    DS3,
    Playstation2,
    Playstation3,
    PSP,
    PlaystationVita,
    Dreamcast,
    Genesis,
    GameGear,
    NeoGeo,
    WonderSwan,
    WonderSwanColor,
    Xbox,
}

/// The extension table: which console a lowercased file extension
/// names. Unmapped extensions yield `None`, which is not an error.
pub open spec fn ext_console_lower(e: Seq<char>) -> Option<Console> {
    if e == "gb"@ {
        Some(Console::Gameboy)
    } else if e == "gbc"@ {
        Some(Console::GameboyColor)
    } else if e == "gba"@ {
        Some(Console::GameboyAdvance)
    } else if e == "cdi"@ || e == "gdi"@ {
        Some(Console::Dreamcast)
    } else if e == "nes"@ || e == "nez"@ || e == "unf"@ || e == "unif"@ {
        Some(Console::NES)
    } else if e == "sfc"@ || e == "smc"@ {
        Some(Console::SNES)
    } else if e == "gen"@ || e == "md"@ || e == "smd"@ {
        Some(Console::Genesis)
    } else if e == "gg"@ {
        Some(Console::GameGear)
    } else if e == "n64"@ || e == "v64"@ || e == "z64"@ {
        Some(Console::N64)
    } else if e == "gcm"@ || e == "gcz"@ {
        Some(Console::GameCube)
    } else if e == "xiso"@ {
        Some(Console::Xbox)
    } else if e == "nds"@ || e == "dsi"@ {
        Some(Console::NDS)
    } else if e == "wad"@ || e == "wbfs"@ {
        Some(Console::Wii)
    } else if e == "3ds"@ || e == "cia"@ {
        Some(Console::DS3)
    } else if e == "nsp"@ || e == "xci"@ {
        Some(Console::Switch)
    } else if e == "ngp"@ || e == "ngc"@ {
        Some(Console::NeoGeo)
    } else if e == "vpk"@ {
        Some(Console::PlaystationVita)
    } else if e == "vb"@ {
        Some(Console::VirtualBoy)
    } else if e == "ws"@ {
        Some(Console::WonderSwan)
    } else if e == "wsc"@ {
        Some(Console::WonderSwanColor)
    } else {
        None
    }
}

/// The table lookup on an extension as written in a file name:
/// case-insensitive exact match.
pub open spec fn ext_console(e: Seq<char>) -> Option<Console> {
    ext_console_lower(lower_seq(e))
}

/// Looks a file extension up in the table, case-insensitively.
/// Returns `None` for every unmapped extension.
pub fn get_console_id_by_ext(ext: &str) -> (r: Option<Console>)
    ensures
        r == ext_console(ext@),
{
    let low = to_lower(ext);
    let e = low.as_str();
    if str_eq(e, "gb") {
        Some(Console::Gameboy)
    } else if str_eq(e, "gbc") {
        Some(Console::GameboyColor)
    } else if str_eq(e, "gba") {
        Some(Console::GameboyAdvance)
    } else if str_eq(e, "cdi") || str_eq(e, "gdi") {
        Some(Console::Dreamcast)
    } else if str_eq(e, "nes") || str_eq(e, "nez") || str_eq(e, "unf") || str_eq(e, "unif") {
        Some(Console::NES)
    } else if str_eq(e, "sfc") || str_eq(e, "smc") {
        Some(Console::SNES)
    } else if str_eq(e, "gen") || str_eq(e, "md") || str_eq(e, "smd") {
        Some(Console::Genesis)
    } else if str_eq(e, "gg") {
        Some(Console::GameGear)
    } else if str_eq(e, "n64") || str_eq(e, "v64") || str_eq(e, "z64") {
        Some(Console::N64)
    } else if str_eq(e, "gcm") || str_eq(e, "gcz") {
        Some(Console::GameCube)
    } else if str_eq(e, "xiso") {
        Some(Console::Xbox)
    } else if str_eq(e, "nds") || str_eq(e, "dsi") {
        Some(Console::NDS)
    } else if str_eq(e, "wad") || str_eq(e, "wbfs") {
        Some(Console::Wii)
    } else if str_eq(e, "3ds") || str_eq(e, "cia") {
        Some(Console::DS3)
    } else if str_eq(e, "nsp") || str_eq(e, "xci") {
        Some(Console::Switch)
    } else if str_eq(e, "ngp") || str_eq(e, "ngc") {
        Some(Console::NeoGeo)
    } else if str_eq(e, "vpk") {
        Some(Console::PlaystationVita)
    } else if str_eq(e, "vb") {
        Some(Console::VirtualBoy)
    } else if str_eq(e, "ws") {
        Some(Console::WonderSwan)
    } else if str_eq(e, "wsc") {
        Some(Console::WonderSwanColor)
    } else {
        None
    }
}

/// The folder label used when ROMs are sorted by console.
pub open spec fn console_label(c: Console) -> Seq<char> {
    match c {
        Console::NES => "NES"@,
        Console::SNES => "SNES"@,
        Console::VirtualBoy => "VirtualBoy"@,
        Console::N64 => "N64"@,
        Console::GameCube => "GameCube"@,
        Console::Wii => "Wii"@,
        Console::Switch => "Switch"@,
        Console::Gameboy => "Gameboy"@,
        Console::GameboyColor => "GameboyColor"@,
        Console::GameboyAdvance => "GameboyAdvance"@,
        Console::NDS => "NDS"@,
        Console::DS3 => "DS3"@,
        Console::Playstation2 => "Playstation2"@,
        Console::Playstation3 => "Playstation3"@,
        Console::PSP => "PSP"@,
        Console::PlaystationVita => "PlaystationVita"@,
        Console::Dreamcast => "Dreamcast"@,
        Console::Genesis => "Genesis"@,
        Console::GameGear => "GameGear"@,
        Console::NeoGeo => "NeoGeo"@,
        Console::WonderSwan => "WonderSwan"@,
        Console::WonderSwanColor => "WonderSwanColor"@,
        Console::Xbox => "Xbox"@,
    }
}

impl Console {
    /// The name of this console, as used for folder naming and reports.
    pub fn name(&self) -> (r: String)
        ensures
            r@ == console_label(*self),
    {
        match self {
            Console::NES => String::from_str("NES"),
            Console::SNES => String::from_str("SNES"),
            Console::VirtualBoy => String::from_str("VirtualBoy"),
            Console::N64 => String::from_str("N64"),
            Console::GameCube => String::from_str("GameCube"),
            Console::Wii => String::from_str("Wii"),
            Console::Switch => String::from_str("Switch"),
            Console::Gameboy => String::from_str("Gameboy"),
            Console::GameboyColor => String::from_str("GameboyColor"),
            Console::GameboyAdvance => String::from_str("GameboyAdvance"),
            Console::NDS => String::from_str("NDS"),
            Console::DS3 => String::from_str("DS3"),
            Console::Playstation2 => String::from_str("Playstation2"),
            Console::Playstation3 => String::from_str("Playstation3"),
            Console::PSP => String::from_str("PSP"),
            Console::PlaystationVita => String::from_str("PlaystationVita"),
            Console::Dreamcast => String::from_str("Dreamcast"),
            Console::Genesis => String::from_str("Genesis"),
            Console::GameGear => String::from_str("GameGear"),
            Console::NeoGeo => String::from_str("NeoGeo"),
            Console::WonderSwan => String::from_str("WonderSwan"),
            Console::WonderSwanColor => String::from_str("WonderSwanColor"),
            Console::Xbox => String::from_str("Xbox"),
        }
    }
}

} // verus!
