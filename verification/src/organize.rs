//! The organizer's decisions: which folder a classified ROM is filed
//! under, and the full destination path it moves to. Enumerating the
//! source directory and moving files is the caller's business; the
//! naming rules live here.

use vstd::prelude::*;

use crate::console::console_label;
use crate::paths::{base_name_of, extension, extension_of, file_name_of};
use crate::verify::{Rom, RomView};

verus! {

/// How ROMs are sorted into folders.
#[derive(Debug, Clone, Copy, PartialEq, Eq, Structural)]
pub enum SortMethod {
    /// One folder per console.
    Console,
    /// One folder per file extension; directory-level titles have no
    /// extension and are skipped.
    FileExtension,
}

/// The folder a ROM is filed under: the console's name, or the file's
/// extension. `None` means the ROM is skipped: a directory-level
/// title, or a file without an extension, has no extension folder.
pub open spec fn folder_label_of(r: RomView, m: SortMethod) -> Option<Seq<char>> {
    match m {
        SortMethod::Console => Some(console_label(r.console)),
        SortMethod::FileExtension => if r.dir {
            None
        } else {
            extension_of(r.path)
        },
    }
}

/// Joining of two path fragments with a separator; an empty left side
/// or one already ending in a separator takes the right side as is.
pub open spec fn dir_join(a: Seq<char>, b: Seq<char>) -> Seq<char> {
    if a.len() == 0 {
        b
    } else if a.last() == '/' {
        a + b
    } else {
        a + seq!['/'] + b
    }
}

/// Joins a directory path and a relative name.
pub fn join_path(a: &str, b: &str) -> (r: String)
    ensures
        r@ == dir_join(a@, b@),
{
    let n = a.unicode_len();
    if n == 0 {
        return String::from_str(b);
    }
    let mut out = String::from_str(a);
    if a.get_char(n - 1) != '/' {
        out.append("/");
        proof {
            reveal_strlit("/");
            assert(out@ =~= a@ + seq!['/']);
        }
    }
    out.append(b);
    proof {
        if a@.last() != '/' {
            assert(out@ =~= a@ + seq!['/'] + b@);
        }
    }
    out
}

/// Where a ROM is filed: the target directory, then its folder label,
/// then its own file name. `None` means the organizer skips it.
pub open spec fn organize_destination_spec(
    r: RomView,
    m: SortMethod,
    target: Seq<char>,
) -> Option<Seq<char>> {
    match folder_label_of(r, m) {
        Some(folder) => Some(dir_join(dir_join(target, folder), base_name_of(r.path))),
        None => None,
    }
}

/// Computes the destination path a ROM is moved to when organized
/// into the target directory, or `None` when it is skipped.
pub fn organize_destination(rom: &Rom, method: SortMethod, target: &str) -> (r: Option<String>)
    ensures
        match r {
            Some(p) => organize_destination_spec(rom@, method, target@) == Some(p@),
            None => organize_destination_spec(rom@, method, target@) is None,
        },
{
    let folder: Option<String> = match method {
        SortMethod::Console => Some(rom.console_id().name()),
        SortMethod::FileExtension => {
            if rom.is_dir() {
                None
            } else {
                extension(rom.path())
            }
        },
    };
    match folder {
        Some(f) => {
            let dir = join_path(target, f.as_str());
            let name = file_name_of(rom.path());
            Some(join_path(dir.as_str(), name.as_str()))
        },
        None => None,
    }
}

} // verus!
