//! A small verified scanner for the markup subset that reference
//! catalog documents are written in: elements with attributes, text
//! content with the five standard character entities, comments, and
//! prolog declarations. Positions are character indices into the
//! document; every scanning function is specified against a spec-level
//! definition of the same grammar.

use vstd::prelude::*;

verus! {

/// Document whitespace.
pub open spec fn is_ws(c: char) -> bool {
    c == ' ' || c == '\t' || c == '\n' || c == '\r'
}

/// Characters allowed in element and attribute names.
pub open spec fn is_name_char(c: char) -> bool {
    ||| ('a' <= c && c <= 'z')
    ||| ('A' <= c && c <= 'Z')
    ||| ('0' <= c && c <= '9')
    ||| c == '_'
    ||| c == '-'
    ||| c == '.'
    ||| c == ':'
}

pub fn is_ws_exec(c: char) -> (r: bool)
    ensures
        r == is_ws(c),
{
    c == ' ' || c == '\t' || c == '\n' || c == '\r'
}

pub fn is_name_char_exec(c: char) -> (r: bool)
    ensures
        r == is_name_char(c),
{
    ('a' <= c && c <= 'z') || ('A' <= c && c <= 'Z') || ('0' <= c && c <= '9') || c == '_'
        || c == '-' || c == '.' || c == ':'
}

/// First position at or after `i` holding a non-whitespace character.
pub open spec fn skip_ws(s: Seq<char>, i: int) -> int
    decreases s.len() - i,
{
    if 0 <= i && i < s.len() && is_ws(s[i]) {
        skip_ws(s, i + 1)
    } else {
        i
    }
}

/// Advances over whitespace.
pub fn ws(s: &Vec<char>, i: usize) -> (r: usize)
    requires
        i <= s@.len(),
    ensures
        r == skip_ws(s@, i as int),
        i <= r <= s@.len(),
{
    let n = s.len();
    let mut j = i;
    while j < n && is_ws_exec(s[j])
        invariant
            i <= j <= n,
            n == s@.len(),
            skip_ws(s@, i as int) == skip_ws(s@, j as int),
        decreases n - j,
    {
        j += 1;
    }
    j
}

/// First position at or after `i` holding a non-name character.
pub open spec fn scan_name(s: Seq<char>, i: int) -> int
    decreases s.len() - i,
{
    if 0 <= i && i < s.len() && is_name_char(s[i]) {
        scan_name(s, i + 1)
    } else {
        i
    }
}

proof fn lemma_scan_name_bounds(s: Seq<char>, i: int)
    requires
        0 <= i <= s.len(),
    ensures
        i <= scan_name(s, i) <= s.len(),
    decreases s.len() - i,
{
    if i < s.len() && is_name_char(s[i]) {
        lemma_scan_name_bounds(s, i + 1);
    }
}

/// Advances over name characters.
pub fn name_end(s: &Vec<char>, i: usize) -> (r: usize)
    requires
        i <= s@.len(),
    ensures
        r == scan_name(s@, i as int),
        i <= r <= s@.len(),
{
    let n = s.len();
    let mut j = i;
    while j < n && is_name_char_exec(s[j])
        invariant
            i <= j <= n,
            n == s@.len(),
            scan_name(s@, i as int) == scan_name(s@, j as int),
        decreases n - j,
    {
        j += 1;
    }
    j
}

/// First position at or after `i` holding `<`.
pub open spec fn scan_to_lt(s: Seq<char>, i: int) -> int
    decreases s.len() - i,
{
    if 0 <= i && i < s.len() && s[i] != '<' {
        scan_to_lt(s, i + 1)
    } else {
        i
    }
}

/// Advances to the next `<`.
pub fn to_lt(s: &Vec<char>, i: usize) -> (r: usize)
    requires
        i <= s@.len(),
    ensures
        r == scan_to_lt(s@, i as int),
        i <= r <= s@.len(),
{
    let n = s.len();
    let mut j = i;
    while j < n && s[j] != '<'
        invariant
            i <= j <= n,
            n == s@.len(),
            scan_to_lt(s@, i as int) == scan_to_lt(s@, j as int),
        decreases n - j,
    {
        j += 1;
    }
    j
}

/// One character entity at position `i` (which holds `&`): the decoded
/// character and the position after the terminating `;`.
pub open spec fn parse_entity(s: Seq<char>, i: int) -> Option<(char, int)> {
    if 0 <= i && i + 4 <= s.len() && s[i] == '&' && s[i + 1] == 'l' && s[i + 2] == 't' && s[i + 3]
        == ';' {
        Some(('<', i + 4))
    } else if 0 <= i && i + 4 <= s.len() && s[i] == '&' && s[i + 1] == 'g' && s[i + 2] == 't' && s[i
        + 3] == ';' {
        Some(('>', i + 4))
    } else if 0 <= i && i + 5 <= s.len() && s[i] == '&' && s[i + 1] == 'a' && s[i + 2] == 'm' && s[i
        + 3] == 'p' && s[i + 4] == ';' {
        Some(('&', i + 5))
    } else if 0 <= i && i + 6 <= s.len() && s[i] == '&' && s[i + 1] == 'q' && s[i + 2] == 'u' && s[i
        + 3] == 'o' && s[i + 4] == 't' && s[i + 5] == ';' {
        Some(('"', i + 6))
    } else if 0 <= i && i + 6 <= s.len() && s[i] == '&' && s[i + 1] == 'a' && s[i + 2] == 'p' && s[i
        + 3] == 'o' && s[i + 4] == 's' && s[i + 5] == ';' {
        Some(('\'', i + 6))
    } else {
        None
    }
}

/// Decodes one character entity.
pub fn p_entity(s: &Vec<char>, i: usize) -> (r: Option<(char, usize)>)
    requires
        i <= s@.len(),
    ensures
        match r {
            Some((c, j)) => parse_entity(s@, i as int) == Some((c, j as int)) && i < j <= s@.len(),
            None => parse_entity(s@, i as int) is None,
        },
{
    let n = s.len();
    if n - i >= 4 && s[i] == '&' && s[i + 1] == 'l' && s[i + 2] == 't' && s[i + 3] == ';' {
        Some(('<', i + 4))
    } else if n - i >= 4 && s[i] == '&' && s[i + 1] == 'g' && s[i + 2] == 't' && s[i + 3] == ';' {
        Some(('>', i + 4))
    } else if n - i >= 5 && s[i] == '&' && s[i + 1] == 'a' && s[i + 2] == 'm' && s[i + 3] == 'p'
        && s[i + 4] == ';' {
        Some(('&', i + 5))
    } else if n - i >= 6 && s[i] == '&' && s[i + 1] == 'q' && s[i + 2] == 'u' && s[i + 3] == 'o'
        && s[i + 4] == 't' && s[i + 5] == ';' {
        Some(('"', i + 6))
    } else if n - i >= 6 && s[i] == '&' && s[i + 1] == 'a' && s[i + 2] == 'p' && s[i + 3] == 'o'
        && s[i + 4] == 's' && s[i + 5] == ';' {
        Some(('\'', i + 6))
    } else {
        None
    }
}

/// Text run from `i` up to the `stop` character, entities decoded.
/// `None` when the run is unterminated or holds a stray `<`.
pub open spec fn parse_text(s: Seq<char>, i: int, stop: char) -> Option<(Seq<char>, int)>
    decreases s.len() - i,
{
    if !(0 <= i && i < s.len()) {
        None
    } else if s[i] == stop {
        Some((Seq::empty(), i))
    } else if s[i] == '<' {
        None
    } else if s[i] == '&' {
        match parse_entity(s, i) {
            Some((c, j)) => if i < j <= s.len() {
                match parse_text(s, j, stop) {
                    Some((t, k)) => Some((seq![c] + t, k)),
                    None => None,
                }
            } else {
                None
            },
            None => None,
        }
    } else {
        match parse_text(s, i + 1, stop) {
            Some((t, k)) => Some((seq![s[i]] + t, k)),
            None => None,
        }
    }
}

/// Reads a text run up to `stop`, decoding entities.
pub fn p_text(s: &Vec<char>, i: usize, stop: char) -> (r: Option<(String, usize)>)
    requires
        i <= s@.len(),
    ensures
        match r {
            Some((t, j)) => parse_text(s@, i as int, stop) == Some((t@, j as int)) && i <= j
                <= s@.len(),
            None => parse_text(s@, i as int, stop) is None,
        },
    decreases s@.len() - i,
{
    let n = s.len();
    if i >= n {
        return None;
    }
    let c = s[i];
    if c == stop {
        return Some((String::new(), i));
    }
    if c == '<' {
        return None;
    }
    if c == '&' {
        match p_entity(s, i) {
            Some((ch, j)) => match p_text(s, j, stop) {
                Some((t, k)) => {
                    let mut out = String::new();
                    out.push(ch);
                    out.append(t.as_str());
                    proof {
                        assert(out@ =~= seq![ch] + t@);
                    }
                    Some((out, k))
                },
                None => None,
            },
            None => None,
        }
    } else {
        match p_text(s, i + 1, stop) {
            Some((t, k)) => {
                let mut out = String::new();
                out.push(c);
                out.append(t.as_str());
                proof {
                    assert(out@ =~= seq![c] + t@);
                }
                Some((out, k))
            },
            None => None,
        }
    }
}

/// The view of an attribute list: each attribute as its name and its
/// decoded value.
pub open spec fn attrs_view(v: Seq<(String, String)>) -> Seq<(Seq<char>, Seq<char>)> {
    Seq::new(v.len(), |k: int| (v[k].0@, v[k].1@))
}

/// Attribute list from `i`: whitespace-led `name="value"` pairs, in
/// document order, ending before the first non-name character.
pub open spec fn parse_attrs(s: Seq<char>, i: int) -> Option<(Seq<(Seq<char>, Seq<char>)>, int)>
    decreases s.len() - i,
{
    let j = skip_ws(s, i);
    if !(i <= j <= s.len()) {
        None
    } else if j == s.len() || !is_name_char(s[j]) {
        Some((Seq::empty(), j))
    } else {
        let e = scan_name(s, j);
        if !(j < e <= s.len()) {
            None
        } else {
            let name = s.subrange(j, e);
            let k = skip_ws(s, e);
            if !(e <= k <= s.len()) {
                None
            } else if k < s.len() && s[k] == '=' {
                let q = skip_ws(s, k + 1);
                if !(k < q <= s.len()) {
                    None
                } else if q < s.len() && (s[q] == '"' || s[q] == '\'') {
                    match parse_text(s, q + 1, s[q]) {
                        Some((v, m)) => if i < m + 1 <= s.len() {
                            match parse_attrs(s, m + 1) {
                                Some((rest, z)) => Some((seq![(name, v)] + rest, z)),
                                None => None,
                            }
                        } else {
                            None
                        },
                        None => None,
                    }
                } else {
                    None
                }
            } else {
                None
            }
        }
    }
}

/// Copies the characters of `s[from..to]` into a string.
pub fn string_of_range(s: &Vec<char>, from: usize, to: usize) -> (r: String)
    requires
        from <= to <= s@.len(),
    ensures
        r@ == s@.subrange(from as int, to as int),
{
    let mut out = String::new();
    let mut i = from;
    while i < to
        invariant
            from <= i <= to <= s@.len(),
            out@ =~= s@.subrange(from as int, i as int),
        decreases to - i,
    {
        out.push(s[i]);
        i += 1;
    }
    proof {
        assert(out@ =~= s@.subrange(from as int, to as int));
    }
    out
}

/// Reads an attribute list.
pub fn p_attrs(s: &Vec<char>, i: usize) -> (r: Option<(Vec<(String, String)>, usize)>)
    requires
        i <= s@.len(),
    ensures
        match r {
            Some((v, j)) => parse_attrs(s@, i as int) == Some((attrs_view(v@), j as int)) && i <= j
                <= s@.len(),
            None => parse_attrs(s@, i as int) is None,
        },
    decreases s@.len() - i,
{
    let n = s.len();
    let j = ws(s, i);
    if j == n || !is_name_char_exec(s[j]) {
        let v: Vec<(String, String)> = Vec::new();
        proof {
            assert(attrs_view(v@) =~= Seq::<(Seq<char>, Seq<char>)>::empty());
        }
        return Some((v, j));
    }
    let e = name_end(s, j);
    proof {
        // the run is non-empty: its first character is a name character
        assert(scan_name(s@, j as int) == scan_name(s@, j + 1));
        lemma_scan_name_bounds(s@, j + 1);
    }
    let name = string_of_range(s, j, e);
    let k = ws(s, e);
    if k < n && s[k] == '=' {
        let q = ws(s, k + 1);
        if q < n && (s[q] == '"' || s[q] == '\'') {
            match p_text(s, q + 1, s[q]) {
                Some((v, m)) => {
                    if m >= n {
                        return None;
                    }
                    match p_attrs(s, m + 1) {
                        Some((mut rest, z)) => {
                            let ghost old_rest = rest@;
                            rest.insert(0, (name, v));
                            proof {
                                assert(attrs_view(rest@) =~= seq![
                                    (s@.subrange(j as int, e as int), v@),
                                ] + attrs_view(old_rest));
                            }
                            Some((rest, z))
                        },
                        None => None,
                    }
                },
                None => None,
            }
        } else {
            None
        }
    } else {
        None
    }
}

/// Whether a comment opens at `i`.
pub open spec fn is_comment_start(s: Seq<char>, i: int) -> bool {
    0 <= i && i + 4 <= s.len() && s[i] == '<' && s[i + 1] == '!' && s[i + 2] == '-' && s[i + 3]
        == '-'
}

pub fn comment_starts(s: &Vec<char>, i: usize) -> (r: bool)
    requires
        i <= s@.len(),
    ensures
        r == is_comment_start(s@, i as int),
{
    let n = s.len();
    n - i >= 4 && s[i] == '<' && s[i + 1] == '!' && s[i + 2] == '-' && s[i + 3] == '-'
}

/// Position after the `-->` that closes a comment whose body starts at
/// `i`; `None` when the comment never closes.
pub open spec fn skip_comment(s: Seq<char>, i: int) -> Option<int>
    decreases s.len() - i,
{
    if !(0 <= i) || i + 3 > s.len() {
        None
    } else if s[i] == '-' && s[i + 1] == '-' && s[i + 2] == '>' {
        Some(i + 3)
    } else {
        skip_comment(s, i + 1)
    }
}

/// Advances past the end of a comment body.
pub fn p_comment(s: &Vec<char>, i: usize) -> (r: Option<usize>)
    requires
        i <= s@.len(),
    ensures
        match r {
            Some(j) => skip_comment(s@, i as int) == Some(j as int) && i < j <= s@.len(),
            None => skip_comment(s@, i as int) is None,
        },
    decreases s@.len() - i,
{
    let n = s.len();
    if n - i < 3 {
        return None;
    }
    if s[i] == '-' && s[i + 1] == '-' && s[i + 2] == '>' {
        Some(i + 3)
    } else {
        p_comment(s, i + 1)
    }
}

/// Position after the `?>` that closes a processing instruction whose
/// body starts at `i`.
pub open spec fn skip_pi(s: Seq<char>, i: int) -> Option<int>
    decreases s.len() - i,
{
    if !(0 <= i) || i + 2 > s.len() {
        None
    } else if s[i] == '?' && s[i + 1] == '>' {
        Some(i + 2)
    } else {
        skip_pi(s, i + 1)
    }
}

/// Advances past the end of a processing instruction.
pub fn p_pi(s: &Vec<char>, i: usize) -> (r: Option<usize>)
    requires
        i <= s@.len(),
    ensures
        match r {
            Some(j) => skip_pi(s@, i as int) == Some(j as int) && i < j <= s@.len(),
            None => skip_pi(s@, i as int) is None,
        },
    decreases s@.len() - i,
{
    let n = s.len();
    if n - i < 2 {
        return None;
    }
    if s[i] == '?' && s[i + 1] == '>' {
        Some(i + 2)
    } else {
        p_pi(s, i + 1)
    }
}

/// Position after the next `>`; used to step over declarations.
pub open spec fn skip_to_gt(s: Seq<char>, i: int) -> Option<int>
    decreases s.len() - i,
{
    if !(0 <= i) || i >= s.len() {
        None
    } else if s[i] == '>' {
        Some(i + 1)
    } else {
        skip_to_gt(s, i + 1)
    }
}

/// Advances past the next `>`.
pub fn p_gt(s: &Vec<char>, i: usize) -> (r: Option<usize>)
    requires
        i <= s@.len(),
    ensures
        match r {
            Some(j) => skip_to_gt(s@, i as int) == Some(j as int) && i < j <= s@.len(),
            None => skip_to_gt(s@, i as int) is None,
        },
    decreases s@.len() - i,
{
    let n = s.len();
    if i >= n {
        return None;
    }
    if s[i] == '>' {
        Some(i + 1)
    } else {
        p_gt(s, i + 1)
    }
}

/// Position after the element that opens at `i` (which holds `<`),
/// its nested content skipped whole.
pub open spec fn skip_element(s: Seq<char>, i: int) -> Option<int>
    decreases s.len() - i, 0int,
{
    if !(0 <= i && i + 1 < s.len() && s[i] == '<') {
        None
    } else {
        let e = scan_name(s, i + 1);
        if !(i + 1 < e <= s.len()) {
            None
        } else {
            let name = s.subrange(i + 1, e);
            match parse_attrs(s, e) {
                Some((_a, j)) => if j + 1 < s.len() && s[j] == '/' && s[j + 1] == '>' {
                    Some(j + 2)
                } else if j < s.len() && s[j] == '>' {
                    if i < j + 1 <= s.len() {
                        skip_content(s, j + 1, name)
                    } else {
                        None
                    }
                } else {
                    None
                },
                None => None,
            }
        }
    }
}

/// Position after the closing tag matching an element whose content
/// starts at `i`: text, comments and nested elements are stepped over
/// until `</name>`.
pub open spec fn skip_content(s: Seq<char>, i: int, name: Seq<char>) -> Option<int>
    decreases s.len() - i, 1int,
{
    if !(0 <= i && i <= s.len()) {
        None
    } else {
        let t = scan_to_lt(s, i);
        if !(i <= t <= s.len()) {
            None
        } else if t + 1 >= s.len() {
            None
        } else if s[t + 1] == '/' {
            let e = scan_name(s, t + 2);
            if !(t + 2 <= e <= s.len()) {
                None
            } else if s.subrange(t + 2, e) == name {
                let z = skip_ws(s, e);
                if z < s.len() && s[z] == '>' {
                    Some(z + 1)
                } else {
                    None
                }
            } else {
                None
            }
        } else if is_comment_start(s, t) {
            match skip_comment(s, t + 4) {
                Some(j) => if i < j <= s.len() {
                    skip_content(s, j, name)
                } else {
                    None
                },
                None => None,
            }
        } else {
            match skip_element(s, t) {
                Some(j) => if i < j <= s.len() {
                    skip_content(s, j, name)
                } else {
                    None
                },
                None => None,
            }
        }
    }
}

/// Compares `s[a..a+len]` with `s[b..b+len]`.
pub fn range_eq(s: &Vec<char>, a: usize, b: usize, len: usize) -> (r: bool)
    requires
        a + len <= s@.len(),
        b + len <= s@.len(),
    ensures
        r == (s@.subrange(a as int, (a + len) as int) == s@.subrange(b as int, (b + len) as int)),
{
    let n = s.len();
    let mut k: usize = 0;
    while k < len
        invariant
            n == s@.len(),
            a + len <= n,
            b + len <= n,
            0 <= k <= len,
            forall|j: int| 0 <= j < k ==> s@[a + j] == #[trigger] s@[b + j],
        decreases len - k,
    {
        if s[a + k] != s[b + k] {
            assert(s@.subrange(a as int, (a + len) as int)[k as int] != s@.subrange(
                b as int,
                (b + len) as int,
            )[k as int]);
            return false;
        }
        k += 1;
    }
    proof {
        assert forall|j: int|
            0 <= j < len implies #[trigger] s@.subrange(a as int, (a + len) as int)[j]
            == s@.subrange(b as int, (b + len) as int)[j] by {
            assert(s@[a + j] == s@[b + j]);
        }
        assert(s@.subrange(a as int, (a + len) as int) =~= s@.subrange(
            b as int,
            (b + len) as int,
        ));
    }
    true
}

/// Steps over one whole element.
pub fn p_skip_element(s: &Vec<char>, i: usize) -> (r: Option<usize>)
    requires
        i <= s@.len(),
    ensures
        match r {
            Some(j) => skip_element(s@, i as int) == Some(j as int) && i < j <= s@.len(),
            None => skip_element(s@, i as int) is None,
        },
    decreases s@.len() - i, 0int,
{
    let n = s.len();
    if n - i < 2 || s[i] != '<' {
        return None;
    }
    let e = name_end(s, i + 1);
    if e == i + 1 {
        return None;
    }
    match p_attrs(s, e) {
        Some((_a, j)) => {
            if n - j >= 2 && s[j] == '/' && s[j + 1] == '>' {
                Some(j + 2)
            } else if j < n && s[j] == '>' {
                p_skip_content(s, j + 1, i + 1, e)
            } else {
                None
            }
        },
        None => None,
    }
}

/// Steps over element content until the closing tag whose name stands
/// at `s[nf..nt]`.
pub fn p_skip_content(s: &Vec<char>, i: usize, nf: usize, nt: usize) -> (r: Option<usize>)
    requires
        i <= s@.len(),
        nf <= nt <= s@.len(),
    ensures
        match r {
            Some(j) => skip_content(s@, i as int, s@.subrange(nf as int, nt as int)) == Some(
                j as int,
            ) && i < j <= s@.len(),
            None => skip_content(s@, i as int, s@.subrange(nf as int, nt as int)) is None,
        },
    decreases s@.len() - i, 1int,
{
    let ghost name = s@.subrange(nf as int, nt as int);
    let n = s.len();
    let t = to_lt(s, i);
    if n - t < 2 {
        return None;
    }
    if s[t + 1] == '/' {
        let e = name_end(s, t + 2);
        let same = if e - (t + 2) == nt - nf {
            range_eq(s, t + 2, nf, nt - nf)
        } else {
            proof {
                assert(s@.subrange(t + 2, e as int).len() != name.len());
            }
            false
        };
        if same {
            proof {
                assert(s@.subrange(t + 2, e as int) =~= s@.subrange(
                    t + 2,
                    (t + 2 + (nt - nf)) as int,
                ));
            }
            let z = ws(s, e);
            if z < n && s[z] == '>' {
                Some(z + 1)
            } else {
                None
            }
        } else {
            proof {
                if s@.subrange(t + 2, e as int).len() == name.len() {
                    assert(s@.subrange(t + 2, e as int) =~= s@.subrange(
                        t + 2,
                        (t + 2 + (nt - nf)) as int,
                    ));
                }
            }
            None
        }
    } else if comment_starts(s, t) {
        match p_comment(s, t + 4) {
            Some(j) => p_skip_content(s, j, nf, nt),
            None => None,
        }
    } else {
        match p_skip_element(s, t) {
            Some(j) => p_skip_content(s, j, nf, nt),
            None => None,
        }
    }
}

} // verus!
