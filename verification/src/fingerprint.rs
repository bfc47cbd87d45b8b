//! Binary fingerprint matching for optical-disc images: fixed byte
//! patterns at known offsets identify the platform when the file
//! extension alone cannot.

use vstd::prelude::*;

use crate::console::Console;

verus! {

/// A disc image shorter than this cannot be fingerprinted: the known
/// signature offsets would fall out of bounds.
pub const ISO_MIN_SIZE: u64 = 0xF000;

/// How many leading bytes of a disc image the fingerprint tests read.
pub const ISO_BUFFER_LEN: usize = 0xF000;

pub const ISO_GAMECUBE_OFFSET: usize = 0x1C;
pub const ISO_WII_OFFSET: usize = 0x18;
pub const ISO_PS2_USA_JPN_OFFSET: usize = 0x42F;
pub const ISO_PS2_EUR_OFFSET: usize = 0xA97;
pub const ISO_PSP_OFFSET: usize = 0x8000;

pub const ISO_GAMECUBE_FINGERPRINT: [u8; 4] = [0xC2, 0x33, 0x9F, 0x3D];

pub const ISO_WII_FINGERPRINT: [u8; 4] = [0x5D, 0x1C, 0x9E, 0xA3];

pub const ISO_PS2_USA_FINGERPRINT: [u8; 27] = [
    0x06, 0x01, 0x00, 0x00, 0x03, 0x03, 0x02, 0x02, 0x02, 0x0D, 0x0D, 0x0C, 0x0C, 0x0E, 0x0E, 0x0E,
    0x09, 0x08, 0x08, 0x08, 0x08, 0x09, 0x0E, 0x0D, 0x00, 0x06, 0x05,
];

pub const ISO_PS2_JPN_FINGERPRINT: [u8; 27] = [
    0x0E, 0x09, 0x08, 0x08, 0x0B, 0x0B, 0x0A, 0x0A, 0x0A, 0x05, 0x05, 0x04, 0x04, 0x06, 0x06, 0x06,
    0x01, 0x00, 0x00, 0x00, 0x00, 0x01, 0x06, 0x05, 0x08, 0x0E, 0x0D,
];

pub const ISO_PS2_EUR_FINGERPRINT: [u8; 67] = [
    0x0E, 0x09, 0x09, 0x0E, 0x0E, 0x0E, 0x0E, 0x0E, 0x0F, 0x0F, 0x0F, 0x0F, 0x0F, 0x0F, 0x0F, 0x0F,
    0x0F, 0x0F, 0x0F, 0x0E, 0x09, 0x05, 0x02, 0x00, 0x02, 0x02, 0x02, 0x02, 0x02, 0x02, 0x02, 0x06,
    0x0F, 0x0D, 0x0D, 0x0D, 0x0D, 0x0D, 0x0D, 0x0D, 0x0D, 0x0D, 0x0D, 0x0D, 0x0D, 0x0D, 0x04, 0x06,
    0x06, 0x06, 0x06, 0x06, 0x06, 0x06, 0x06, 0x06, 0x06, 0x06, 0x06, 0x06, 0x06, 0x04, 0x05, 0x0B,
    0x08, 0x0E, 0x0D,
];

pub const ISO_PSP_FINGERPRINT: [u8; 16] = [
    0x01, 0x43, 0x44, 0x30, 0x30, 0x31, 0x01, 0x00, 0x50, 0x53, 0x50, 0x20, 0x47, 0x41, 0x4D, 0x45,
];

/// A fingerprint matches when the buffer holds exactly the pattern
/// bytes starting at the given offset.
pub open spec fn fingerprint_match(buf: Seq<u8>, offset: int, fp: Seq<u8>) -> bool {
    &&& 0 <= offset
    &&& offset + fp.len() <= buf.len()
    &&& buf.subrange(offset, offset + fp.len() as int) == fp
}

/// Reports whether `buff[offset .. offset + fingerprint.len()]` equals
/// `fingerprint`. A buffer too short for the window is a caller error,
/// not a reported mismatch.
pub fn is_fingerprint_match(buff: &[u8], offset: usize, fingerprint: &[u8]) -> (r: bool)
    requires
        offset + fingerprint@.len() <= buff@.len(),
    ensures
        r == fingerprint_match(buff@, offset as int, fingerprint@),
{
    let n = fingerprint.len();
    let m = buff.len();
    let mut i: usize = 0;
    while i < n
        invariant
            n == fingerprint@.len(),
            m == buff@.len(),
            offset + n <= m,
            0 <= i <= n,
            forall|j: int| 0 <= j < i ==> buff@[offset + j] == fingerprint@[j],
        decreases n - i,
    {
        if buff[offset + i] != fingerprint[i] {
            assert(buff@.subrange(offset as int, offset + n as int)[i as int] != fingerprint@[i as int]);
            return false;
        }
        i += 1;
    }
    assert(buff@.subrange(offset as int, offset + n as int) =~= fingerprint@);
    true
}

/// A masked fingerprint matches when the low nibble of every buffer
/// byte in the window equals the pattern byte; the high nibble is a
/// wildcard.
pub open spec fn masked_fingerprint_match(buf: Seq<u8>, offset: int, fp: Seq<u8>) -> bool {
    &&& 0 <= offset
    &&& offset + fp.len() <= buf.len()
    &&& forall|j: int| 0 <= j < fp.len() ==> (buf[offset + j] & 0x0F) == fp[j]
}

/// Reports whether the buffer matches the pattern at the offset once
/// the high nibble of each buffer byte is masked off.
pub fn is_masked_fingerprint_match(buff: &[u8], offset: usize, fingerprint: &[u8]) -> (r: bool)
    requires
        offset + fingerprint@.len() <= buff@.len(),
    ensures
        r == masked_fingerprint_match(buff@, offset as int, fingerprint@),
{
    let n = fingerprint.len();
    let m = buff.len();
    let mut i: usize = 0;
    while i < n
        invariant
            n == fingerprint@.len(),
            m == buff@.len(),
            offset + n <= m,
            0 <= i <= n,
            forall|j: int| 0 <= j < i ==> (buff@[offset + j] & 0x0F) == fingerprint@[j],
        decreases n - i,
    {
        if (buff[offset + i] & 0x0F) != fingerprint[i] {
            return false;
        }
        i += 1;
    }
    true
}

/// The composite PlayStation 2 signature: one of three masked nibble
/// patterns at the two descriptor offsets.
pub open spec fn ps2_fingerprint(buf: Seq<u8>) -> bool {
    ||| masked_fingerprint_match(buf, ISO_PS2_USA_JPN_OFFSET as int, ISO_PS2_USA_FINGERPRINT@)
    ||| masked_fingerprint_match(buf, ISO_PS2_USA_JPN_OFFSET as int, ISO_PS2_JPN_FINGERPRINT@)
    ||| masked_fingerprint_match(buf, ISO_PS2_EUR_OFFSET as int, ISO_PS2_EUR_FINGERPRINT@)
}

/// Tests the three masked PlayStation 2 patterns.
pub fn is_ps2_game(buf: &[u8]) -> (r: bool)
    requires
        buf@.len() >= ISO_PS2_EUR_OFFSET + ISO_PS2_EUR_FINGERPRINT@.len(),
    ensures
        r == ps2_fingerprint(buf@),
{
    is_masked_fingerprint_match(buf, ISO_PS2_USA_JPN_OFFSET, &ISO_PS2_USA_FINGERPRINT)
        || is_masked_fingerprint_match(buf, ISO_PS2_USA_JPN_OFFSET, &ISO_PS2_JPN_FINGERPRINT)
        || is_masked_fingerprint_match(buf, ISO_PS2_EUR_OFFSET, &ISO_PS2_EUR_FINGERPRINT)
}

/// Which console the leading bytes of a disc image identify. The
/// signatures are tested in a fixed priority order; the first match
/// wins and no match means the image stays unknown.
pub open spec fn fingerprint_console(buf: Seq<u8>) -> Option<Console> {
    if fingerprint_match(buf, ISO_WII_OFFSET as int, ISO_WII_FINGERPRINT@) {
        Some(Console::Wii)
    } else if fingerprint_match(buf, ISO_GAMECUBE_OFFSET as int, ISO_GAMECUBE_FINGERPRINT@) {
        Some(Console::GameCube)
    } else if ps2_fingerprint(buf) {
        Some(Console::Playstation2)
    } else if fingerprint_match(buf, ISO_PSP_OFFSET as int, ISO_PSP_FINGERPRINT@) {
        Some(Console::PSP)
    } else {
        None
    }
}

/// Tests each known binary signature, in priority order, against the
/// leading bytes of a disc image.
pub fn try_fingerprint_iso(contents: &[u8]) -> (r: Option<Console>)
    requires
        contents@.len() >= ISO_BUFFER_LEN,
    ensures
        r == fingerprint_console(contents@),
{
    if is_fingerprint_match(contents, ISO_WII_OFFSET, &ISO_WII_FINGERPRINT) {
        return Some(Console::Wii);
    }
    if is_fingerprint_match(contents, ISO_GAMECUBE_OFFSET, &ISO_GAMECUBE_FINGERPRINT) {
        return Some(Console::GameCube);
    }
    if is_ps2_game(contents) {
        return Some(Console::Playstation2);
    }
    if is_fingerprint_match(contents, ISO_PSP_OFFSET, &ISO_PSP_FINGERPRINT) {
        return Some(Console::PSP);
    }
    None
}

/// Fingerprinting is order-sensitive: a buffer that carries the
/// GameCube signature is classified as GameCube whatever the later
/// patterns in the priority order would say of it.
pub proof fn lemma_fingerprint_order_specific_wins(buf: Seq<u8>)
    requires
        fingerprint_match(buf, ISO_GAMECUBE_OFFSET as int, ISO_GAMECUBE_FINGERPRINT@),
        !fingerprint_match(buf, ISO_WII_OFFSET as int, ISO_WII_FINGERPRINT@),
    ensures
        fingerprint_console(buf) == Some(Console::GameCube),
{
}

/// Masked matching suffices for PlayStation 2: a buffer whose high
/// nibbles are arbitrary classifies as PlayStation 2 as long as its
/// low nibbles carry one of the PlayStation 2 patterns and no
/// earlier signature in the priority order matches.
pub proof fn lemma_masked_match_classifies_ps2(buf: Seq<u8>)
    requires
        ps2_fingerprint(buf),
        !fingerprint_match(buf, ISO_WII_OFFSET as int, ISO_WII_FINGERPRINT@),
        !fingerprint_match(buf, ISO_GAMECUBE_OFFSET as int, ISO_GAMECUBE_FINGERPRINT@),
    ensures
        fingerprint_console(buf) == Some(Console::Playstation2),
{
}

} // verus!
