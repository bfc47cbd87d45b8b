//! The reference catalog model: a catalog document lists title
//! records, each carrying a canonical file name, a byte size and a
//! SHA-1 digest. Loading parses the whole document; a malformed
//! document, or any record missing one of the three required fields,
//! fails the load entirely and returns no entries.

use vstd::prelude::*;

use crate::text::{chars_of, parse_u64, parse_u64_spec, str_eq};
use crate::xml::{
    attrs_view, comment_starts, is_comment_start, name_end, p_attrs, p_comment, p_gt, p_pi,
    p_skip_element, p_text, parse_attrs, parse_text, scan_name, skip_comment, skip_element,
    skip_pi, skip_to_gt, skip_ws, string_of_range, ws,
};

verus! {

/// One title record: the canonical file name, the expected byte size,
/// and the expected SHA-1 digest in hex.
#[derive(Debug, Clone)]
pub struct Entry {
    pub name: String,
    pub size: u64,
    pub sha1: String,
}

pub ghost struct EntryView {
    pub name: Seq<char>,
    pub size: u64,
    pub sha1: Seq<char>,
}

impl View for Entry {
    type V = EntryView;

    open spec fn view(&self) -> EntryView {
        EntryView { name: self.name@, size: self.size, sha1: self.sha1@ }
    }
}

/// The category text of a title record.
#[derive(Debug, Clone)]
pub struct Category {
    pub value: String,
}

impl View for Category {
    type V = Seq<char>;

    open spec fn view(&self) -> Seq<char> {
        self.value@
    }
}

/// Free description text some catalog editions carry beside a record.
#[derive(Debug, Clone)]
pub struct Description {
    pub value: String,
}

impl View for Description {
    type V = Seq<char>;

    open spec fn view(&self) -> Seq<char> {
        self.value@
    }
}

/// The document header; it carries nothing the verifier reads, and
/// loading steps over it.
#[derive(Debug, Clone)]
pub struct Header {}

/// One title in the catalog: its category and its record.
#[derive(Debug, Clone)]
pub struct Game {
    pub category: Category,
    pub rom: Entry,
}

pub ghost struct GameView {
    pub category: Seq<char>,
    pub rom: EntryView,
}

impl View for Game {
    type V = GameView;

    open spec fn view(&self) -> GameView {
        GameView { category: self.category@, rom: self.rom@ }
    }
}

pub open spec fn games_view(gs: Seq<Game>) -> Seq<GameView> {
    Seq::new(gs.len(), |i: int| gs[i]@)
}

/// A loaded catalog: the title records in document order.
#[derive(Debug, Clone)]
pub struct DatFile {
    pub games: Vec<Game>,
}

pub ghost struct DatFileView {
    pub games: Seq<GameView>,
}

impl View for DatFile {
    type V = DatFileView;

    open spec fn view(&self) -> DatFileView {
        DatFileView { games: games_view(self.games@) }
    }
}

/// A catalog document that could not be parsed whole.
#[derive(Debug, Clone, Copy, PartialEq, Eq, Structural)]
pub struct ParseError;

/// The value of the first attribute with the given name, searched
/// from position `i`.
pub open spec fn find_attr_from(
    attrs: Seq<(Seq<char>, Seq<char>)>,
    name: Seq<char>,
    i: int,
) -> Option<Seq<char>>
    decreases attrs.len() - i,
{
    if !(0 <= i < attrs.len()) {
        None
    } else if attrs[i].0 == name {
        Some(attrs[i].1)
    } else {
        find_attr_from(attrs, name, i + 1)
    }
}

/// The value of the first attribute with the given name.
pub open spec fn find_attr(attrs: Seq<(Seq<char>, Seq<char>)>, name: Seq<char>) -> Option<
    Seq<char>,
> {
    find_attr_from(attrs, name, 0)
}

/// Looks an attribute up by name.
pub fn p_find_attr(attrs: &Vec<(String, String)>, name: &str) -> (r: Option<String>)
    ensures
        match r {
            Some(v) => find_attr(attrs_view(attrs@), name@) == Some(v@),
            None => find_attr(attrs_view(attrs@), name@) is None,
        },
{
    let n = attrs.len();
    let mut i: usize = 0;
    while i < n
        invariant
            n == attrs@.len(),
            0 <= i <= n,
            find_attr(attrs_view(attrs@), name@) == find_attr_from(
                attrs_view(attrs@),
                name@,
                i as int,
            ),
        decreases n - i,
    {
        if str_eq(attrs[i].0.as_str(), name) {
            return Some(attrs[i].1.clone());
        }
        i += 1;
    }
    None
}

/// The entry a record's attribute list denotes: it must carry a name,
/// a size that reads as a decimal `u64`, and a digest; anything less
/// is rejected.
pub open spec fn build_entry(attrs: Seq<(Seq<char>, Seq<char>)>) -> Option<EntryView> {
    match find_attr(attrs, "name"@) {
        Some(nm) => match find_attr(attrs, "size"@) {
            Some(sz) => match find_attr(attrs, "sha1"@) {
                Some(h) => match parse_u64_spec(sz) {
                    Some(v) => Some(EntryView { name: nm, size: v, sha1: h }),
                    None => None,
                },
                None => None,
            },
            None => None,
        },
        None => None,
    }
}

/// Builds an entry from a record's attribute list.
pub fn p_build_entry(attrs: &Vec<(String, String)>) -> (r: Option<Entry>)
    ensures
        match r {
            Some(e) => build_entry(attrs_view(attrs@)) == Some(e@),
            None => build_entry(attrs_view(attrs@)) is None,
        },
{
    let nm = match p_find_attr(attrs, "name") {
        Some(v) => v,
        None => {
            return None;
        },
    };
    let sz = match p_find_attr(attrs, "size") {
        Some(v) => v,
        None => {
            return None;
        },
    };
    let h = match p_find_attr(attrs, "sha1") {
        Some(v) => v,
        None => {
            return None;
        },
    };
    match parse_u64(sz.as_str()) {
        Some(v) => Some(Entry { name: nm, size: v, sha1: h }),
        None => None,
    }
}

/// A record without a digest field never becomes an entry, whatever
/// its other fields hold; the document it stands in fails to load.
pub proof fn lemma_missing_digest_rejected(attrs: Seq<(Seq<char>, Seq<char>)>)
    requires
        find_attr(attrs, "sha1"@) is None,
    ensures
        build_entry(attrs) is None,
{
}

/// The content of one `game` element from position `i`: its category
/// text and its record, in any order, other children skipped, closed
/// by `</game>`. A missing or duplicated category or record is
/// malformed.
pub open spec fn parse_game_children(
    s: Seq<char>,
    i: int,
    cat: Option<Seq<char>>,
    rom: Option<EntryView>,
) -> Option<(GameView, int)>
    decreases s.len() - i,
{
    let j = skip_ws(s, i);
    if !(i <= j <= s.len()) {
        None
    } else if !(j + 1 < s.len() && s[j] == '<') {
        None
    } else if s[j + 1] == '/' {
        let e = scan_name(s, j + 2);
        if !(j + 2 <= e <= s.len()) {
            None
        } else if s.subrange(j + 2, e) == "game"@ {
            let z = skip_ws(s, e);
            if z < s.len() && s[z] == '>' {
                match (cat, rom) {
                    (Some(c), Some(r)) => Some((GameView { category: c, rom: r }, z + 1)),
                    _ => None,
                }
            } else {
                None
            }
        } else {
            None
        }
    } else if is_comment_start(s, j) {
        match skip_comment(s, j + 4) {
            Some(k) => if i < k <= s.len() {
                parse_game_children(s, k, cat, rom)
            } else {
                None
            },
            None => None,
        }
    } else {
        let e = scan_name(s, j + 1);
        if !(j + 1 < e <= s.len()) {
            None
        } else {
            let name = s.subrange(j + 1, e);
            if name == "category"@ {
                if cat is Some {
                    None
                } else {
                    match parse_attrs(s, e) {
                        Some((_a, k)) => if k < s.len() && s[k] == '>' {
                            match parse_text(s, k + 1, '<') {
                                Some((txt, m)) => if m + 1 < s.len() && s[m] == '<' && s[m + 1]
                                    == '/' {
                                    let e2 = scan_name(s, m + 2);
                                    if !(m + 2 <= e2 <= s.len()) {
                                        None
                                    } else if s.subrange(m + 2, e2) == "category"@ {
                                        let z = skip_ws(s, e2);
                                        if z < s.len() && s[z] == '>' {
                                            if i < z + 1 <= s.len() {
                                                parse_game_children(s, z + 1, Some(txt), rom)
                                            } else {
                                                None
                                            }
                                        } else {
                                            None
                                        }
                                    } else {
                                        None
                                    }
                                } else {
                                    None
                                },
                                None => None,
                            }
                        } else {
                            None
                        },
                        None => None,
                    }
                }
            } else if name == "rom"@ {
                if rom is Some {
                    None
                } else {
                    match parse_attrs(s, e) {
                        Some((attrs, k)) => match build_entry(attrs) {
                            Some(entry) => if k + 1 < s.len() && s[k] == '/' && s[k + 1] == '>' {
                                if i < k + 2 <= s.len() {
                                    parse_game_children(s, k + 2, cat, Some(entry))
                                } else {
                                    None
                                }
                            } else {
                                None
                            },
                            None => None,
                        },
                        None => None,
                    }
                }
            } else {
                match skip_element(s, j) {
                    Some(k) => if i < k <= s.len() {
                        parse_game_children(s, k, cat, rom)
                    } else {
                        None
                    },
                    None => None,
                }
            }
        }
    }
}

pub open spec fn opt_cat_view(c: Option<Category>) -> Option<Seq<char>> {
    match c {
        Some(x) => Some(x@),
        None => None,
    }
}

pub open spec fn opt_entry_view(e: Option<Entry>) -> Option<EntryView> {
    match e {
        Some(x) => Some(x@),
        None => None,
    }
}

/// Reads the content of one `game` element.
fn p_game_children(s: &Vec<char>, i: usize, cat: Option<Category>, rom: Option<Entry>) -> (r:
    Option<(Game, usize)>)
    requires
        i <= s@.len(),
    ensures
        match r {
            Some((g, j)) => parse_game_children(s@, i as int, opt_cat_view(cat), opt_entry_view(rom))
                == Some((g@, j as int)) && i < j <= s@.len(),
            None => parse_game_children(s@, i as int, opt_cat_view(cat), opt_entry_view(rom))
                is None,
        },
    decreases s@.len() - i,
{
    let n = s.len();
    let j = ws(s, i);
    if n - j < 2 || s[j] != '<' {
        return None;
    }
    if s[j + 1] == '/' {
        let e = name_end(s, j + 2);
        let nm = string_of_range(s, j + 2, e);
        if str_eq(nm.as_str(), "game") {
            let z = ws(s, e);
            if z < n && s[z] == '>' {
                match (cat, rom) {
                    (Some(c), Some(r)) => Some((Game { category: Category { value: c.value }, rom: r }, z + 1)),
                    _ => None,
                }
            } else {
                None
            }
        } else {
            None
        }
    } else if comment_starts(s, j) {
        match p_comment(s, j + 4) {
            Some(k) => p_game_children(s, k, cat, rom),
            None => None,
        }
    } else {
        let e = name_end(s, j + 1);
        if e == j + 1 {
            return None;
        }
        let nm = string_of_range(s, j + 1, e);
        if str_eq(nm.as_str(), "category") {
            if cat.is_some() {
                return None;
            }
            match p_attrs(s, e) {
                Some((_a, k)) => {
                    if k < n && s[k] == '>' {
                        match p_text(s, k + 1, '<') {
                            Some((txt, m)) => {
                                if n - m >= 2 && s[m] == '<' && s[m + 1] == '/' {
                                    let e2 = name_end(s, m + 2);
                                    let nm2 = string_of_range(s, m + 2, e2);
                                    if str_eq(nm2.as_str(), "category") {
                                        let z = ws(s, e2);
                                        if z < n && s[z] == '>' {
                                            p_game_children(
                                                s,
                                                z + 1,
                                                Some(Category { value: txt }),
                                                rom,
                                            )
                                        } else {
                                            None
                                        }
                                    } else {
                                        None
                                    }
                                } else {
                                    None
                                }
                            },
                            None => None,
                        }
                    } else {
                        None
                    }
                },
                None => None,
            }
        } else if str_eq(nm.as_str(), "rom") {
            if rom.is_some() {
                return None;
            }
            match p_attrs(s, e) {
                Some((attrs, k)) => {
                    match p_build_entry(&attrs) {
                        Some(entry) => {
                            if n - k >= 2 && s[k] == '/' && s[k + 1] == '>' {
                                p_game_children(s, k + 2, cat, Some(entry))
                            } else {
                                None
                            }
                        },
                        None => None,
                    }
                },
                None => None,
            }
        } else {
            match p_skip_element(s, j) {
                Some(k) => p_game_children(s, k, cat, rom),
                None => None,
            }
        }
    }
}

/// The children of the root element from position `i`: `game`
/// elements collected in document order, others skipped, closed by
/// the root's end tag.
pub open spec fn parse_games(s: Seq<char>, i: int, acc: Seq<GameView>) -> Option<
    (Seq<GameView>, int),
>
    decreases s.len() - i,
{
    let j = skip_ws(s, i);
    if !(i <= j <= s.len()) {
        None
    } else if !(j + 1 < s.len() && s[j] == '<') {
        None
    } else if s[j + 1] == '/' {
        let e = scan_name(s, j + 2);
        if !(j + 2 <= e <= s.len()) {
            None
        } else if s.subrange(j + 2, e) == "datafile"@ {
            let z = skip_ws(s, e);
            if z < s.len() && s[z] == '>' {
                Some((acc, z + 1))
            } else {
                None
            }
        } else {
            None
        }
    } else if is_comment_start(s, j) {
        match skip_comment(s, j + 4) {
            Some(k) => if i < k <= s.len() {
                parse_games(s, k, acc)
            } else {
                None
            },
            None => None,
        }
    } else {
        let e = scan_name(s, j + 1);
        if !(j + 1 < e <= s.len()) {
            None
        } else if s.subrange(j + 1, e) == "game"@ {
            match parse_attrs(s, e) {
                Some((_a, k)) => if k < s.len() && s[k] == '>' {
                    match parse_game_children(s, k + 1, None, None) {
                        Some((g, m)) => if i < m <= s.len() {
                            parse_games(s, m, acc.push(g))
                        } else {
                            None
                        },
                        None => None,
                    }
                } else {
                    None
                },
                None => None,
            }
        } else {
            match skip_element(s, j) {
                Some(k) => if i < k <= s.len() {
                    parse_games(s, k, acc)
                } else {
                    None
                },
                None => None,
            }
        }
    }
}

/// Reads the children of the root element, collecting the games.
fn p_games(s: &Vec<char>, i: usize, acc: Vec<Game>) -> (r: Option<(Vec<Game>, usize)>)
    requires
        i <= s@.len(),
    ensures
        match r {
            Some((v, j)) => parse_games(s@, i as int, games_view(acc@)) == Some(
                (games_view(v@), j as int),
            ) && i < j <= s@.len(),
            None => parse_games(s@, i as int, games_view(acc@)) is None,
        },
    decreases s@.len() - i,
{
    let n = s.len();
    let j = ws(s, i);
    if n - j < 2 || s[j] != '<' {
        return None;
    }
    if s[j + 1] == '/' {
        let e = name_end(s, j + 2);
        let nm = string_of_range(s, j + 2, e);
        if str_eq(nm.as_str(), "datafile") {
            let z = ws(s, e);
            if z < n && s[z] == '>' {
                Some((acc, z + 1))
            } else {
                None
            }
        } else {
            None
        }
    } else if comment_starts(s, j) {
        match p_comment(s, j + 4) {
            Some(k) => p_games(s, k, acc),
            None => None,
        }
    } else {
        let e = name_end(s, j + 1);
        if e == j + 1 {
            return None;
        }
        let nm = string_of_range(s, j + 1, e);
        if str_eq(nm.as_str(), "game") {
            match p_attrs(s, e) {
                Some((_a, k)) => {
                    if k < n && s[k] == '>' {
                        match p_game_children(s, k + 1, None, None) {
                            Some((g, m)) => {
                                let ghost acc0 = acc@;
                                let mut acc2 = acc;
                                acc2.push(g);
                                proof {
                                    assert(games_view(acc2@) =~= games_view(acc0).push(g@));
                                }
                                p_games(s, m, acc2)
                            },
                            None => None,
                        }
                    } else {
                        None
                    }
                },
                None => None,
            }
        } else {
            match p_skip_element(s, j) {
                Some(k) => p_games(s, k, acc),
                None => None,
            }
        }
    }
}

/// Position after leading whitespace, processing instructions,
/// comments and declarations from `i`.
pub open spec fn skip_misc(s: Seq<char>, i: int) -> Option<int>
    decreases s.len() - i,
{
    let j = skip_ws(s, i);
    if !(i <= j <= s.len()) {
        None
    } else if is_comment_start(s, j) {
        match skip_comment(s, j + 4) {
            Some(k) => if i < k <= s.len() {
                skip_misc(s, k)
            } else {
                None
            },
            None => None,
        }
    } else if j + 1 < s.len() && s[j] == '<' && s[j + 1] == '?' {
        match skip_pi(s, j + 2) {
            Some(k) => if i < k <= s.len() {
                skip_misc(s, k)
            } else {
                None
            },
            None => None,
        }
    } else if j + 1 < s.len() && s[j] == '<' && s[j + 1] == '!' {
        match skip_to_gt(s, j + 2) {
            Some(k) => if i < k <= s.len() {
                skip_misc(s, k)
            } else {
                None
            },
            None => None,
        }
    } else {
        Some(j)
    }
}

/// Steps over leading whitespace and document miscellany.
fn p_misc(s: &Vec<char>, i: usize) -> (r: Option<usize>)
    requires
        i <= s@.len(),
    ensures
        match r {
            Some(j) => skip_misc(s@, i as int) == Some(j as int) && i <= j <= s@.len(),
            None => skip_misc(s@, i as int) is None,
        },
    decreases s@.len() - i,
{
    let n = s.len();
    let j = ws(s, i);
    if comment_starts(s, j) {
        match p_comment(s, j + 4) {
            Some(k) => p_misc(s, k),
            None => None,
        }
    } else if n - j >= 2 && s[j] == '<' && s[j + 1] == '?' {
        match p_pi(s, j + 2) {
            Some(k) => p_misc(s, k),
            None => None,
        }
    } else if n - j >= 2 && s[j] == '<' && s[j + 1] == '!' {
        match p_gt(s, j + 2) {
            Some(k) => p_misc(s, k),
            None => None,
        }
    } else {
        Some(j)
    }
}

/// The games of a whole catalog document: prolog, a `datafile` root
/// element holding the title records, and nothing but miscellany
/// after it.
pub open spec fn parse_datfile(s: Seq<char>) -> Option<Seq<GameView>> {
    match skip_misc(s, 0) {
        Some(i) => if i + 1 < s.len() && s[i] == '<' {
            let e = scan_name(s, i + 1);
            if !(i + 1 < e <= s.len()) {
                None
            } else if s.subrange(i + 1, e) == "datafile"@ {
                match parse_attrs(s, e) {
                    Some((_a, k)) => if k < s.len() && s[k] == '>' {
                        match parse_games(s, k + 1, Seq::empty()) {
                            Some((games, m)) => if 0 <= m <= s.len() {
                                match skip_misc(s, m) {
                                    Some(z) => if z == s.len() {
                                        Some(games)
                                    } else {
                                        None
                                    },
                                    None => None,
                                }
                            } else {
                                None
                            },
                            None => None,
                        }
                    } else {
                        None
                    },
                    None => None,
                }
            } else {
                None
            }
        } else {
            None
        },
        None => None,
    }
}

/// Reads a whole catalog document.
fn p_datfile(s: &Vec<char>) -> (r: Option<Vec<Game>>)
    ensures
        match r {
            Some(v) => parse_datfile(s@) == Some(games_view(v@)),
            None => parse_datfile(s@) is None,
        },
{
    let n = s.len();
    let i = match p_misc(s, 0) {
        Some(i) => i,
        None => {
            return None;
        },
    };
    if n - i < 2 || s[i] != '<' {
        return None;
    }
    let e = name_end(s, i + 1);
    if e == i + 1 {
        return None;
    }
    let nm = string_of_range(s, i + 1, e);
    if !str_eq(nm.as_str(), "datafile") {
        return None;
    }
    match p_attrs(s, e) {
        Some((_a, k)) => {
            if k < n && s[k] == '>' {
                let acc: Vec<Game> = Vec::new();
                proof {
                    assert(games_view(acc@) =~= Seq::<GameView>::empty());
                }
                match p_games(s, k + 1, acc) {
                    Some((games, m)) => {
                        match p_misc(s, m) {
                            Some(z) => {
                                if z == n {
                                    Some(games)
                                } else {
                                    None
                                }
                            },
                            None => None,
                        }
                    },
                    None => None,
                }
            } else {
                None
            }
        },
        None => None,
    }
}

impl DatFile {
    /// Loads a catalog from the text of its document. A document that
    /// is not well-formed, or holds a record missing its name, size
    /// or digest, fails whole: no entries are returned.
    pub fn load(text: &str) -> (r: Result<DatFile, ParseError>)
        ensures
            match r {
                Ok(d) => parse_datfile(text@) == Some(d@.games),
                Err(_) => parse_datfile(text@) is None,
            },
    {
        let chars = chars_of(text);
        match p_datfile(&chars) {
            Some(games) => Ok(DatFile { games }),
            None => Err(ParseError),
        }
    }
}

} // verus!
