//! The verifier and the identifier. A candidate file is verified
//! against a loaded catalog by its name, size and digest; it is
//! identified by searching the catalog for its digest alone. Both
//! work on plain observed values: the caller reads the file and
//! computes its digest (see [`crate::digest`]), and every decision
//! made from those values is verified here.

use vstd::prelude::*;

use crate::catalog::{DatFile, GameView};
use crate::classify::{classified_console, get_console_id, FileInfo};
use crate::console::Console;
use crate::paths::{base_name_of, file_name_of};
use crate::text::{lower_seq, str_eq, str_eq_ignore_case};

verus! {

/// Why a file failed verification. Each mismatch reports both the
/// expected (catalog) and the actual (file) value.
#[derive(Debug, Clone)]
pub enum VerifyError {
    /// The file's name does not appear in the catalog.
    NotInCatalog,
    /// The byte lengths differ.
    SizeMismatch { expected: u64, actual: u64 },
    /// The digests differ (compared case-insensitively).
    DigestMismatch { expected: String, actual: String },
}

pub ghost enum VerifyErrorView {
    NotInCatalog,
    SizeMismatch { expected: u64, actual: u64 },
    DigestMismatch { expected: Seq<char>, actual: Seq<char> },
}

impl View for VerifyError {
    type V = VerifyErrorView;

    open spec fn view(&self) -> VerifyErrorView {
        match self {
            VerifyError::NotInCatalog => VerifyErrorView::NotInCatalog,
            VerifyError::SizeMismatch { expected, actual } => VerifyErrorView::SizeMismatch {
                expected: *expected,
                actual: *actual,
            },
            VerifyError::DigestMismatch { expected, actual } => VerifyErrorView::DigestMismatch {
                expected: expected@,
                actual: actual@,
            },
        }
    }
}

/// Digest equality: hex digests compare case-insensitively.
pub open spec fn digest_eq(a: Seq<char>, b: Seq<char>) -> bool {
    lower_seq(a) == lower_seq(b)
}

/// Index of the first catalog entry named `name`, searching from `i`.
pub open spec fn find_by_name_from(games: Seq<GameView>, name: Seq<char>, i: int) -> Option<int>
    decreases games.len() - i,
{
    if !(0 <= i < games.len()) {
        None
    } else if games[i].rom.name == name {
        Some(i)
    } else {
        find_by_name_from(games, name, i + 1)
    }
}

/// Index of the first catalog entry named `name`.
pub open spec fn find_by_name(games: Seq<GameView>, name: Seq<char>) -> Option<int> {
    find_by_name_from(games, name, 0)
}

/// What verification decides for a file with the given base name,
/// size and digest, against the given catalog entries: the entry is
/// located by name, then the size, then the digest must agree; the
/// first disagreement is the reported failure.
pub open spec fn verify_outcome(
    name: Seq<char>,
    size: u64,
    digest: Seq<char>,
    games: Seq<GameView>,
) -> Result<(), VerifyErrorView> {
    match find_by_name(games, name) {
        None => Err(VerifyErrorView::NotInCatalog),
        Some(i) => {
            let e = games[i].rom;
            if e.size != size {
                Err(VerifyErrorView::SizeMismatch { expected: e.size, actual: size })
            } else if !digest_eq(digest, e.sha1) {
                Err(VerifyErrorView::DigestMismatch { expected: e.sha1, actual: digest })
            } else {
                Ok(())
            }
        },
    }
}

/// Verifies one file against a loaded catalog. The file is located by
/// the base name of `file_path`; its observed byte length and hex
/// digest are compared to the entry's expected values. An absent
/// entry, or the first mismatch, is the reported failure.
pub fn verify(file_path: &str, file_size: u64, digest: &str, dat: &DatFile) -> (r: Result<
    (),
    VerifyError,
>)
    ensures
        match r {
            Ok(u) => verify_outcome(base_name_of(file_path@), file_size, digest@, dat@.games)
                == Ok::<(), VerifyErrorView>(()),
            Err(e) => verify_outcome(base_name_of(file_path@), file_size, digest@, dat@.games)
                == Err::<(), VerifyErrorView>(e@),
        },
{
    let name = file_name_of(file_path);
    let n = dat.games.len();
    let mut i: usize = 0;
    let ghost games = dat@.games;
    while i < n
        invariant
            n == dat.games@.len(),
            games == dat@.games,
            games.len() == n,
            0 <= i <= n,
            name@ == base_name_of(file_path@),
            find_by_name(games, name@) == find_by_name_from(games, name@, i as int),
        decreases n - i,
    {
        if str_eq(dat.games[i].rom.name.as_str(), name.as_str()) {
            assert(games[i as int].rom.name == name@);
            let entry = &dat.games[i].rom;
            if entry.size != file_size {
                return Err(VerifyError::SizeMismatch {
                    expected: entry.size,
                    actual: file_size,
                });
            }
            if !str_eq_ignore_case(digest, entry.sha1.as_str()) {
                return Err(VerifyError::DigestMismatch {
                    expected: entry.sha1.clone(),
                    actual: digest.to_owned(),
                });
            }
            return Ok(());
        }
        assert(games[i as int].rom.name != name@);
        i += 1;
    }
    Err(VerifyError::NotInCatalog)
}

/// Index of the first catalog entry whose digest matches, searching
/// from `i`.
pub open spec fn find_by_digest_from(games: Seq<GameView>, digest: Seq<char>, i: int) -> Option<
    int,
>
    decreases games.len() - i,
{
    if !(0 <= i < games.len()) {
        None
    } else if digest_eq(games[i].rom.sha1, digest) {
        Some(i)
    } else {
        find_by_digest_from(games, digest, i + 1)
    }
}

/// What identification decides: the canonical name of the first entry
/// in document order whose digest matches, the file's own name
/// ignored; no match across the whole catalog is "not found".
pub open spec fn identify_outcome(digest: Seq<char>, games: Seq<GameView>) -> Option<Seq<char>> {
    match find_by_digest_from(games, digest, 0) {
        Some(i) => Some(games[i].rom.name),
        None => None,
    }
}

/// Identifies a file by its digest alone: a linear scan of the
/// catalog returns the first entry with that digest, whatever the
/// file is currently called. `None` is a reported "not found", not an
/// error.
pub fn identify(digest: &str, dat: &DatFile) -> (r: Option<String>)
    ensures
        match r {
            Some(nm) => identify_outcome(digest@, dat@.games) == Some(nm@),
            None => identify_outcome(digest@, dat@.games) is None,
        },
{
    let n = dat.games.len();
    let mut i: usize = 0;
    let ghost games = dat@.games;
    while i < n
        invariant
            n == dat.games@.len(),
            games == dat@.games,
            games.len() == n,
            0 <= i <= n,
            find_by_digest_from(games, digest@, 0) == find_by_digest_from(
                games,
                digest@,
                i as int,
            ),
        decreases n - i,
    {
        if str_eq_ignore_case(dat.games[i].rom.sha1.as_str(), digest) {
            assert(digest_eq(games[i as int].rom.sha1, digest@));
            return Some(dat.games[i].rom.name.clone());
        }
        assert(!digest_eq(games[i as int].rom.sha1, digest@));
        i += 1;
    }
    None
}

/// The verification state of a ROM: freshly constructed it is
/// unverified; a verify call leaves it verified or failed, never
/// unverified.
#[derive(Debug, Clone)]
pub enum GameStatus {
    Verified,
    Unverified,
    Failed(VerifyError),
}

pub ghost enum GameStatusView {
    Verified,
    Unverified,
    Failed(VerifyErrorView),
}

impl View for GameStatus {
    type V = GameStatusView;

    open spec fn view(&self) -> GameStatusView {
        match self {
            GameStatus::Verified => GameStatusView::Verified,
            GameStatus::Unverified => GameStatusView::Unverified,
            GameStatus::Failed(e) => GameStatusView::Failed(e@),
        }
    }
}

/// The error of constructing a ROM from a path no classifier rule
/// recognizes.
#[derive(Debug, Clone, Copy, PartialEq, Eq, Structural)]
pub struct Unclassifiable;

/// A classified ROM: its path, its platform, and its verification
/// state.
pub struct Rom {
    path: String,
    dir: bool,
    status: GameStatus,
    console: Console,
}

pub ghost struct RomView {
    pub path: Seq<char>,
    pub dir: bool,
    pub status: GameStatusView,
    pub console: Console,
}

impl View for Rom {
    type V = RomView;

    closed spec fn view(&self) -> RomView {
        RomView { path: self.path@, dir: self.dir, status: self.status@, console: self.console }
    }
}

/// The status a verify call leaves behind: verified on success,
/// failed with the reported reason otherwise.
pub open spec fn after_verify_status(
    path: Seq<char>,
    size: u64,
    digest: Seq<char>,
    games: Seq<GameView>,
) -> GameStatusView {
    match verify_outcome(base_name_of(path), size, digest, games) {
        Ok(u) => GameStatusView::Verified,
        Err(e) => GameStatusView::Failed(e),
    }
}

/// A ROM after one verify call: same path and platform; the status is
/// what the outcome dictates, whatever it was before.
pub open spec fn rom_after_verify(
    r: RomView,
    size: u64,
    digest: Seq<char>,
    games: Seq<GameView>,
) -> RomView {
    RomView {
        path: r.path,
        dir: r.dir,
        console: r.console,
        status: after_verify_status(r.path, size, digest, games),
    }
}

/// Verification is idempotent: with the file unchanged and the same
/// catalog, a second verify call reports the same outcome and leaves
/// the ROM exactly where the first call put it.
pub proof fn lemma_verify_idempotent(r: RomView, size: u64, digest: Seq<char>, games: Seq<GameView>)
    ensures
        rom_after_verify(rom_after_verify(r, size, digest, games), size, digest, games)
            == rom_after_verify(r, size, digest, games),
{
}

impl Rom {
    /// Constructs a ROM from what was observed about a path. A path
    /// the classifier cannot place yields an error: no ROM value
    /// exists for an unclassifiable path. A fresh ROM is unverified.
    pub fn new(info: &FileInfo) -> (r: Result<Rom, Unclassifiable>)
        ensures
            match r {
                Ok(rom) => classified_console(info@) == Some(rom@.console) && rom@.path
                    == info@.path && rom@.dir == info@.is_dir && rom@.status is Unverified,
                Err(_) => classified_console(info@) is None,
            },
    {
        match get_console_id(info) {
            Some(c) => Ok(
                Rom {
                    path: info.path.clone(),
                    dir: info.is_dir,
                    status: GameStatus::Unverified,
                    console: c,
                },
            ),
            None => Err(Unclassifiable),
        }
    }

    /// Verifies this ROM against a loaded catalog, given its observed
    /// byte length and hex digest. Success leaves it verified;
    /// failure leaves it failed with the reason; it never stays
    /// unverified.
    pub fn verify(&mut self, file_size: u64, digest: &str, dat: &DatFile)
        ensures
            final(self)@ == rom_after_verify(old(self)@, file_size, digest@, dat@.games),
    {
        match verify(self.path.as_str(), file_size, digest, dat) {
            Ok(u) => {
                self.status = GameStatus::Verified;
            },
            Err(e) => {
                self.status = GameStatus::Failed(e);
            },
        }
    }

    /// The path this ROM was constructed from.
    pub fn path(&self) -> (r: &str)
        ensures
            r@ == self@.path,
    {
        self.path.as_str()
    }

    /// The platform the classifier assigned.
    pub fn console_id(&self) -> (r: Console)
        ensures
            r == self@.console,
    {
        self.console
    }

    /// Whether this ROM is a directory-level title.
    pub fn is_dir(&self) -> (r: bool)
        ensures
            r == self@.dir,
    {
        self.dir
    }

    /// The current verification state.
    pub fn status(&self) -> (r: &GameStatus)
        ensures
            r@ == self@.status,
    {
        &self.status
    }
}

} // verus!
