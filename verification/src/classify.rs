//! The console classifier. It works on a `FileInfo` value describing
//! what was observed about one candidate path: the path text, whether
//! it is a directory, which required layout files a directory holds,
//! and a file's size and leading bytes. Reading those observations
//! from disk is the caller's business; every decision made from them
//! is verified here.

use vstd::prelude::*;

use crate::console::{ext_console, get_console_id_by_ext, Console};
use crate::fingerprint::{
    fingerprint_console, try_fingerprint_iso, ISO_BUFFER_LEN, ISO_MIN_SIZE,
};
use crate::paths::{extension, extension_of};
use crate::text::{lower_seq, str_eq, to_lower};

verus! {

/// What is known about one candidate path before classification.
pub struct FileInfo {
    /// The path, as text.
    pub path: String,
    /// Whether the path names a directory.
    pub is_dir: bool,
    /// For a directory: those of the required disc-folder layout files
    /// (see [`ps3_layout_files`]) that exist beneath it.
    pub layout_present: Vec<String>,
    /// For a regular file: its byte length.
    pub size: u64,
    /// For a regular file: its first [`ISO_BUFFER_LEN`] bytes, or
    /// `None` when the file could not be read that far.
    pub header: Option<Vec<u8>>,
}

/// The mathematical image of a `FileInfo`.
pub ghost struct FileInfoView {
    pub path: Seq<char>,
    pub is_dir: bool,
    pub layout_present: Seq<Seq<char>>,
    pub size: u64,
    pub header: Option<Seq<u8>>,
}

impl View for FileInfo {
    type V = FileInfoView;

    open spec fn view(&self) -> FileInfoView {
        FileInfoView {
            path: self.path@,
            is_dir: self.is_dir,
            layout_present: Seq::new(self.layout_present@.len(), |i: int| self.layout_present@[i]@),
            size: self.size,
            header: match self.header {
                Some(h) => Some(h@),
                None => None,
            },
        }
    }
}

/// The fixed relative file names whose joint presence marks a
/// directory as a PlayStation 3 disc-folder title.
pub open spec fn ps3_layout() -> Seq<Seq<char>> {
    seq!["PS3_DISC.SFB"@, "PS3_GAME/ICON0.PNG"@, "PS3_GAME/PARAM.SFO"@, "PS3_GAME/PS3LOGO.DAT"@]
}

/// The required disc-folder layout, as a list of relative file names
/// for the caller to probe.
pub fn ps3_layout_files() -> (v: Vec<String>)
    ensures
        Seq::new(v@.len(), |i: int| v@[i]@) == ps3_layout(),
{
    let mut v: Vec<String> = Vec::new();
    v.push(String::from_str("PS3_DISC.SFB"));
    v.push(String::from_str("PS3_GAME/ICON0.PNG"));
    v.push(String::from_str("PS3_GAME/PARAM.SFO"));
    v.push(String::from_str("PS3_GAME/PS3LOGO.DAT"));
    proof {
        assert(Seq::new(v@.len(), |i: int| v@[i]@) =~= ps3_layout());
    }
    v
}

/// A directory is a disc-folder title exactly when every required
/// layout file is present.
pub open spec fn dir_is_ps3(present: Seq<Seq<char>>) -> bool {
    forall|i: int| 0 <= i < ps3_layout().len() ==> #[trigger] present.contains(ps3_layout()[i])
}

fn contains_str(v: &Vec<String>, s: &str) -> (r: bool)
    ensures
        r == exists|i: int| 0 <= i < v@.len() && #[trigger] v@[i]@ == s@,
{
    let n = v.len();
    let mut i: usize = 0;
    while i < n
        invariant
            n == v@.len(),
            0 <= i <= n,
            forall|j: int| 0 <= j < i ==> #[trigger] v@[j]@ != s@,
        decreases n - i,
    {
        if str_eq(v[i].as_str(), s) {
            return true;
        }
        i += 1;
    }
    false
}

/// Classification of a directory: a known disc-folder layout names its
/// platform; anything else stays unknown.
pub open spec fn dir_console(i: FileInfoView) -> Option<Console> {
    if i.is_dir && dir_is_ps3(i.layout_present) {
        Some(Console::Playstation3)
    } else {
        None
    }
}

/// Classifies a directory by its layout: a directory holding all
/// required disc-folder files is a PlayStation 3 title. Never
/// attempted on regular files.
pub fn check_dir_level_rom(info: &FileInfo) -> (r: Option<Console>)
    ensures
        r == dir_console(info@),
{
    if !info.is_dir {
        return None;
    }
    let required = ps3_layout_files();
    let n = required.len();
    let mut i: usize = 0;
    while i < n
        invariant
            n == 4,
            Seq::new(required@.len(), |k: int| required@[k]@) == ps3_layout(),
            required@.len() == 4,
            0 <= i <= n,
            forall|k: int| 0 <= k < i ==> info@.layout_present.contains(#[trigger] ps3_layout()[k]),
        decreases n - i,
    {
        assert(required@[i as int]@ == ps3_layout()[i as int]);
        if !contains_str(&info.layout_present, required[i].as_str()) {
            assert(!info@.layout_present.contains(ps3_layout()[i as int])) by {
                assert(forall|k: int|
                    0 <= k < info@.layout_present.len()
                        ==> #[trigger] info@.layout_present[k]
                        == info.layout_present@[k]@);
            }
            return None;
        }
        assert(info@.layout_present.contains(ps3_layout()[i as int])) by {
            let w = choose|k: int|
                0 <= k < info.layout_present@.len() && #[trigger] info.layout_present@[k]@
                    == required@[i as int]@;
            assert(info@.layout_present[w] == ps3_layout()[i as int]);
        }
        i += 1;
    }
    Some(Console::Playstation3)
}

/// Classification of a disc image from its size and leading bytes: a
/// file shorter than the minimum fingerprint region, or one whose
/// leading bytes could not be read in full, stays unknown.
pub open spec fn iso_console(size: u64, header: Option<Seq<u8>>) -> Option<Console> {
    if size < ISO_MIN_SIZE {
        None
    } else {
        match header {
            Some(h) => if h.len() >= ISO_BUFFER_LEN {
                fingerprint_console(h)
            } else {
                None
            },
            None => None,
        }
    }
}

/// What the classifier decides for a candidate path, first success
/// winning: directory layout, then the extension table, then binary
/// fingerprints for generic disc images. `None` means "unknown":
/// advisory, never an error.
pub open spec fn classified_console(i: FileInfoView) -> Option<Console> {
    if i.is_dir {
        dir_console(i)
    } else {
        match extension_of(i.path) {
            Some(e) => match ext_console(e) {
                Some(c) => Some(c),
                None => if lower_seq(e) == "iso"@ {
                    iso_console(i.size, i.header)
                } else {
                    None
                },
            },
            None => None,
        }
    }
}

/// Determines the console a candidate path belongs to: a directory by
/// its layout, a file by its extension, and a generic disc image by
/// the binary fingerprints in its leading bytes.
pub fn get_console_id(info: &FileInfo) -> (r: Option<Console>)
    ensures
        r == classified_console(info@),
{
    if info.is_dir {
        return check_dir_level_rom(info);
    }
    match extension(info.path.as_str()) {
        Some(e) => {
            match get_console_id_by_ext(e.as_str()) {
                Some(c) => Some(c),
                None => {
                    let low = to_lower(e.as_str());
                    if str_eq(low.as_str(), "iso") {
                        if info.size < ISO_MIN_SIZE {
                            None
                        } else {
                            match &info.header {
                                Some(h) => {
                                    if h.len() >= ISO_BUFFER_LEN {
                                        try_fingerprint_iso(h.as_slice())
                                    } else {
                                        None
                                    }
                                },
                                None => None,
                            }
                        }
                    } else {
                        None
                    }
                },
            }
        },
        None => None,
    }
}

/// A file whose extension the table maps is classified by the table
/// alone: the result names the mapped platform and is stated without
/// regard to the file's size or content, so no content is consulted.
pub proof fn lemma_known_extension_skips_content(i: FileInfoView, j: FileInfoView, e: Seq<char>)
    requires
        !i.is_dir,
        extension_of(i.path) == Some(e),
        ext_console(e) is Some,
        !j.is_dir,
        j.path == i.path,
    ensures
        classified_console(i) == ext_console(e),
        classified_console(j) == classified_console(i),
{
}

/// A file shorter than the minimum fingerprint region is never
/// fingerprinted: unless its extension alone names a platform, it
/// stays unknown, whatever bytes were read from it.
pub proof fn lemma_short_file_stays_unknown(i: FileInfoView)
    requires
        !i.is_dir,
        i.size < ISO_MIN_SIZE,
        match extension_of(i.path) {
            Some(e) => ext_console(e) is None,
            None => true,
        },
    ensures
        classified_console(i) is None,
{
}

} // verus!
