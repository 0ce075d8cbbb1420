//! Paper, colours and file names of the document.
use crate::text::texts;
use vstd::prelude::*;
use vstd::string::StringExecFns;

verus! {

/// A named colour.
#[derive(Debug, Copy, Clone, PartialEq, Eq, Structural)]
pub enum Tint {
    Black,
    Blue,
    LightBlue,
    PaleGreen,
    White,
    Grey,
    DarkGrey,
    Carmine,
    Red,
    YellowOrange,
    Green,
    DarkGreen,
    Gold,
    Plum,
    Fuchsia,
}

/// The red, green and blue parts of a colour, each out of 2550: the least
/// scale on which all of them are whole.
pub fn tint(hue: &Tint) -> (rgb: (u16, u16, u16))
    ensures
        rgb == rgb_of(*hue),
{
    match hue {
        Tint::Black => (0, 0, 0),
        Tint::Blue => (0, 0, 2550),
        Tint::LightBlue => (1200, 1900, 2550),
        Tint::PaleGreen => (1520, 2510, 1520),
        Tint::White => (2550, 2550, 2550),
        Tint::Grey => (2295, 2295, 2295),
        Tint::DarkGrey => (1785, 1785, 1785),
        Tint::Red => (2550, 0, 0),
        Tint::YellowOrange => (2550, 2040, 0),
        Tint::Carmine => (1500, 0, 240),
        Tint::Green => (0, 2550, 0),
        Tint::DarkGreen => (0, 1500, 0),
        Tint::Gold => (2550, 2150, 0),
        Tint::Plum => (2210, 1600, 2210),
        Tint::Fuchsia => (2550, 0, 2550),
    }
}

/// The red, green and blue parts of a colour, each out of 2550: the least
/// scale on which all of them are whole.
pub open spec fn rgb_of(tint: Tint) -> (u16, u16, u16) {
    match tint {
        Tint::Black => (0, 0, 0),
        Tint::Blue => (0, 0, 2550),
        Tint::LightBlue => (1200, 1900, 2550),
        Tint::PaleGreen => (1520, 2510, 1520),
        Tint::White => (2550, 2550, 2550),
        Tint::Grey => (2295, 2295, 2295),
        Tint::DarkGrey => (1785, 1785, 1785),
        Tint::Red => (2550, 0, 0),
        Tint::YellowOrange => (2550, 2040, 0),
        Tint::Carmine => (1500, 0, 240),
        Tint::Green => (0, 2550, 0),
        Tint::DarkGreen => (0, 1500, 0),
        Tint::Gold => (2550, 2150, 0),
        Tint::Plum => (2210, 1600, 2210),
        Tint::Fuchsia => (2550, 0, 2550),
    }
}

/// The paper of the document.
#[derive(Debug, Copy, Clone, PartialEq, Eq, Structural)]
pub enum Paper {
    A4Portrait,
    A4Landscape,
    LetterPortrait,
    LetterLandscape,
}

impl Paper {
    /// The width and the height of the paper, in thousandths of a millimetre.
    pub fn size(&self) -> (size: (u32, u32))
        ensures
            size == (match *self {
                Paper::A4Portrait => (210000u32, 297000u32),
                Paper::A4Landscape => (297000u32, 210000u32),
                Paper::LetterPortrait => (215900u32, 279400u32),
                Paper::LetterLandscape => (279400u32, 215900u32),
            }),
    {
        match self {
            Paper::A4Portrait => (210000, 297000),
            Paper::A4Landscape => (297000, 210000),
            Paper::LetterPortrait => (215900, 279400),
            Paper::LetterLandscape => (279400, 215900),
        }
    }
}

/// The extension of a file name, without its dot, as `Path::extension` of the
/// standard library gives it on the platform that the library is built for;
/// empty for a name without one.
pub uninterp spec fn extension(file: Seq<char>) -> Seq<char>;

/// The extension of a file name: a call of `Path::extension`, whose result
/// depends on the name alone.
#[verifier::external_body]
fn extension_of(file: &str) -> (ext: String)
    ensures
        ext@ == extension(file@),
{
    match std::path::Path::new(file).extension() {
        Some(e) => e.to_string_lossy().into_owned(),
        None => String::new(),
    }
}

/// `text` without the first match of the regular expression `pattern`, as
/// `Regex::replace` of the crate `regex` gives it with an empty replacement;
/// none where `Regex::new` refuses the pattern.
pub uninterp spec fn erased(pattern: Seq<char>, text: Seq<char>) -> Option<Seq<char>>;

/// Takes the first match of `pattern` out of `text`: a call of `Regex::new`
/// on the pattern and of `Regex::replace` on the text, with an empty
/// replacement. The result depends on the two texts alone.
#[verifier::external_body]
fn erase_first(pattern: &str, text: &str) -> (rest: Option<String>)
    ensures
        match rest {
            Some(r) => erased(pattern@, text@) == Some(r@),
            None => erased(pattern@, text@) is None,
        },
{
    match regex::Regex::new(pattern) {
        Ok(rg) => Some(rg.replace(text, "").into_owned()),
        Err(_) => None,
    }
}

/// The path of `file` in `folder`, as `PathBuf::push` of the standard library
/// builds it on the platform that the library is built for.
pub uninterp spec fn pushed(folder: Seq<char>, file: Seq<char>) -> Seq<char>;

/// The path of `file` in `folder`: two calls of `PathBuf::push` on an empty
/// path. The result depends on the two texts alone.
#[verifier::external_body]
fn push_path(folder: &str, file: &str) -> (path: String)
    ensures
        path@ == pushed(folder@, file@),
{
    let mut pathbuf = std::path::PathBuf::new();
    pathbuf.push(folder);
    pathbuf.push(file);
    pathbuf.to_string_lossy().into_owned()
}

/// The pattern that matches the extension `ext` behind a dot, in upper or
/// lower case, with or without its last character.
pub open spec fn extension_pattern(ext: Seq<char>) -> Seq<char> {
    "(?i)\\."@ + ext + "?"@
}

/// The message for a file name without characters.
pub open spec fn no_file_name() -> Seq<char> {
    "PDF filename cannot be empty."@
}

/// The message for a file name whose extension is no pattern.
pub open spec fn no_pattern(pdffile: Seq<char>) -> Seq<char> {
    "PDF filename '"@ + pdffile + "' has an extension that cannot be matched."@
}

/// The folder that is written to: `pdffold`, or the current one.
pub open spec fn folder_of(pdffold: Seq<char>) -> Seq<char> {
    if pdffold.len() == 0 {
        "."@
    } else {
        pdffold
    }
}

/// The path of the document: in the folder, the file name `stem`, which has
/// lost its extension, then the time and `.pdf`.
pub open spec fn path_of(pdffold: Seq<char>, stem: Seq<char>, timestr: Seq<char>) -> Seq<char> {
    pushed(folder_of(pdffold), stem + timestr + ".pdf"@)
}

/// The path of the document for a file name that has lost its extension.
pub fn path_from(pdffold: &str, stem: &str, timestr: &str) -> (path: String)
    ensures
        path@ == path_of(pdffold@, stem@, timestr@),
{
    proof {
        reveal_strlit(".");
    }
    let folder: &str = if pdffold.unicode_len() == 0 { "." } else { pdffold };
    let mut file: String = String::from_str(stem);
    file.append(timestr);
    file.append(".pdf");
    push_path(folder, file.as_str())
}

/// The path of the document `pdffile` in `pdffold`: the file name loses the
/// first match of its extension and gets the time `timestr` and `.pdf`. An
/// empty file name is refused, and one whose extension is no pattern.
pub fn make_path(pdffold: &str, pdffile: &str, timestr: &str) -> (r: Result<String, String>)
    ensures
        pdffile@.len() == 0 ==> r is Err && r->Err_0@ == no_file_name(),
        pdffile@.len() > 0 ==> match erased(extension_pattern(extension(pdffile@)), pdffile@) {
            Some(stem) => r is Ok && r->Ok_0@ == path_of(pdffold@, stem, timestr@),
            None => r is Err && r->Err_0@ == no_pattern(pdffile@),
        },
{
    if pdffile.unicode_len() == 0 {
        return Err(String::from_str("PDF filename cannot be empty."));
    }
    let ext: String = extension_of(pdffile);
    let mut pattern: String = String::from_str("(?i)\\.");
    pattern.append(ext.as_str());
    pattern.append("?");
    match erase_first(pattern.as_str(), pdffile) {
        Some(stem) => Ok(path_from(pdffold, stem.as_str(), timestr)),
        None => {
            let mut message: String = String::from_str("PDF filename '");
            message.append(pdffile);
            message.append("' has an extension that cannot be matched.");
            Err(message)
        },
    }
}

/// `s` cut into pieces of `n` characters, the last one as long as what is
/// left. A text without characters has no piece.
pub open spec fn chunks(s: Seq<char>, n: nat) -> Seq<Seq<char>>
    recommends
        n > 0,
    decreases s.len(),
{
    if s.len() == 0 || n == 0 {
        Seq::empty()
    } else if s.len() <= n {
        seq![s]
    } else {
        seq![s.take(n as int)] + chunks(s.skip(n as int), n)
    }
}

/// The pieces in a row.
pub open spec fn glued(pieces: Seq<Seq<char>>) -> Seq<char>
    decreases pieces.len(),
{
    if pieces.len() == 0 {
        Seq::empty()
    } else {
        pieces[0] + glued(pieces.skip(1))
    }
}

/// How many characters a piece may have: `sub_len`, and one where that is none.
pub open spec fn piece_len(sub_len: usize) -> nat {
    if sub_len < 1 {
        1
    } else {
        sub_len as nat
    }
}

/// Cutting a text into pieces loses nothing: the pieces in a row are the
/// text. Each piece has a character and at most `n`, and the pieces are as
/// few as that allows.
pub proof fn lemma_chunks(s: Seq<char>, n: nat)
    requires
        n > 0,
    ensures
        glued(chunks(s, n)) == s,
        forall|i: int| 0 <= i < chunks(s, n).len() ==> 0 < (#[trigger] chunks(s, n)[i]).len() <= n,
        chunks(s, n).len() == (s.len() + n - 1) / n as int,
    decreases s.len(),
{
    if s.len() == 0 {
        assert((s.len() + n - 1) / n as int == 0) by (nonlinear_arith)
            requires
                s.len() == 0,
                n > 0,
        ;
    } else if s.len() <= n {
        let all = chunks(s, n);
        assert(all.len() == 1 && all[0] == s);
        assert(all.skip(1) =~= Seq::<Seq<char>>::empty());
        assert(glued(all.skip(1)) =~= Seq::<char>::empty());
        assert(glued(all) == all[0] + glued(all.skip(1)));
        assert(s + Seq::<char>::empty() =~= s);
        assert((s.len() + n - 1) / n as int == 1) by (nonlinear_arith)
            requires
                0 < s.len() <= n,
        ;
    } else {
        let rest = s.skip(n as int);
        lemma_chunks(rest, n);
        let all = chunks(s, n);
        assert(all == seq![s.take(n as int)] + chunks(rest, n));
        assert(all.len() > 0 && all[0] == s.take(n as int));
        assert(all.skip(1) =~= chunks(rest, n));
        assert(glued(all) == all[0] + glued(all.skip(1)));
        assert(s.take(n as int) + rest =~= s);
        assert((s.len() + n - 1) / n as int == (rest.len() + n - 1) / n as int + 1)
            by (nonlinear_arith)
            requires
                rest.len() == s.len() - n,
                n > 0,
        ;
        assert forall|i: int| 0 <= i < chunks(s, n).len() implies 0 < (#[trigger] chunks(
            s,
            n,
        )[i]).len() <= n by {
            if i > 0 {
                assert(chunks(s, n)[i] == chunks(rest, n)[i - 1]);
            }
        }
    }
}

/// Wraps a text: cuts it into pieces of `sub_len` characters (of one, where
/// `sub_len` is none), without regard to words.
pub fn sub_strings(string: &str, sub_len: usize) -> (subs: Vec<String>)
    ensures
        texts(subs@) == chunks(string@, piece_len(sub_len)),
{
    let step: usize = if sub_len < 1 { 1 } else { sub_len };
    let len: usize = string.unicode_len();
    let mut subs: Vec<String> = Vec::new();
    let mut pos: usize = 0;
    proof {
        assert(string@.skip(0) =~= string@);
        assert(texts(subs@) + chunks(string@, step as nat) =~= chunks(
            string@,
            step as nat,
        ));
    }
    while pos < len
        invariant
            pos <= len,
            len == string@.len(),
            step == piece_len(sub_len),
            step > 0,
            texts(subs@) + chunks(string@.skip(pos as int), step as nat) == chunks(
                string@,
                step as nat,
            ),
        decreases len - pos,
    {
        let end: usize = if len - pos <= step { len } else { pos + step };
        let piece: &str = string.substring_char(pos, end);
        let ghost rest = string@.skip(pos as int);
        proof {
            if len - pos <= step {
                assert(piece@ =~= rest);
                assert(string@.skip(end as int) =~= Seq::<char>::empty());
            } else {
                assert(piece@ =~= rest.take(step as int));
                assert(string@.skip(end as int) =~= rest.skip(step as int));
            }
        }
        let ghost before = texts(subs@);
        subs.push(String::from_str(piece));
        proof {
            assert(texts(subs@) =~= before + seq![piece@]);
            assert(before + chunks(rest, step as nat) =~= before + seq![piece@] + chunks(
                string@.skip(end as int),
                step as nat,
            ));
        }
        pos = end;
    }
    proof {
        assert(texts(subs@) + Seq::<Seq<char>>::empty() =~= texts(
            subs@,
        ));
    }
    subs
}

} // verus!
