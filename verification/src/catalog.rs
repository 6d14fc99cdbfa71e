//! Error catalogues: the input that declares the error kinds of an endpoint
//! (`Name, [root = path,] status = { Kind, ... }; ...`), read from its token
//! trees, and the tables derived from it: the kinds in order, the status of
//! each kind and the kinds grouped under each status.

use vstd::prelude::*;
use crate::errors::{strictly_increasing, ApiError, GeneratedDocs, LoginError, RegisterError};
use crate::text::str_equal;

verus! {

/// A token tree of a catalogue declaration.
pub enum MacroToken {
    /// An identifier or keyword.
    Ident(String),
    /// An integer literal, by its value (any suffix dropped).
    Int(u128),
    /// A punctuation character; `joint` when the next token is a
    /// punctuation character written right after it (as in `::`).
    Punct(char, bool),
    /// A group in braces, with its contents.
    Braces(Vec<MacroToken>),
    /// Any other token tree (other literals, groups in parentheses or brackets).
    Other,
}

/// What is wrong with a catalogue declaration.
#[derive(Debug, Clone, Copy, PartialEq, Eq, Structural)]
pub enum SpecErrorKind {
    ExpectedIdent,
    ExpectedComma,
    ExpectedRootOrStatus,
    ExpectedEquals,
    ExpectedInteger,
    StatusOutOfRange,
    ExpectedBraces,
    UnclosedGenericArguments,
}

/// Why a catalogue declaration was refused, and where: `at` is the position
/// of the offending token (the length of the list where the input ended too
/// early), in the contents of the braces at position `within` where the
/// fault lies inside braces.
#[derive(Debug, Clone, Copy, PartialEq, Eq, Structural)]
pub struct SpecError {
    pub kind: SpecErrorKind,
    pub at: usize,
    pub within: Option<usize>,
}

/// The text of the message for each kind of fault.
pub open spec fn message_text(kind: SpecErrorKind) -> Seq<char> {
    match kind {
        SpecErrorKind::ExpectedIdent => "expected identifier"@,
        SpecErrorKind::ExpectedComma => "expected `,`"@,
        SpecErrorKind::ExpectedRootOrStatus => "expected `root = <path>,` or a status code"@,
        SpecErrorKind::ExpectedEquals => "expected `=`"@,
        SpecErrorKind::ExpectedInteger => "expected integer literal"@,
        SpecErrorKind::StatusOutOfRange => "number too large to fit in target type"@,
        SpecErrorKind::ExpectedBraces => "expected curly braces"@,
        SpecErrorKind::UnclosedGenericArguments => "expected `>`"@,
    }
}

impl SpecError {
    /// The message that reports this fault.
    pub fn message(&self) -> (r: &'static str)
        ensures
            r@ == message_text(self.kind),
    {
        match self.kind {
            SpecErrorKind::ExpectedIdent => "expected identifier",
            SpecErrorKind::ExpectedComma => "expected `,`",
            SpecErrorKind::ExpectedRootOrStatus => "expected `root = <path>,` or a status code",
            SpecErrorKind::ExpectedEquals => "expected `=`",
            SpecErrorKind::ExpectedInteger => "expected integer literal",
            SpecErrorKind::StatusOutOfRange => "number too large to fit in target type",
            SpecErrorKind::ExpectedBraces => "expected curly braces",
            SpecErrorKind::UnclosedGenericArguments => "expected `>`",
        }
    }
}

/// The fault `kind` at position `at` of the top-level token list.
pub open spec fn fault(kind: SpecErrorKind, at: int) -> SpecError {
    SpecError { kind, at: at as usize, within: None }
}

/// The position reported for a fault at `i`: `i` itself, or the length of
/// `t` where `i` is past its end.
pub open spec fn pos(t: Seq<MacroToken>, i: int) -> int {
    if i < t.len() { i } else { t.len() as int }
}

/// The words that are not accepted as identifiers (Rust's keywords and `_`).
pub open spec fn keywords() -> Seq<Seq<char>> {
    seq![
        "_"@, "abstract"@, "as"@, "async"@, "await"@, "become"@, "box"@, "break"@, "const"@,
        "continue"@, "crate"@, "do"@, "dyn"@, "else"@, "enum"@, "extern"@, "false"@, "final"@,
        "fn"@, "for"@, "if"@, "impl"@, "in"@, "let"@, "loop"@, "macro"@, "match"@, "mod"@,
        "move"@, "mut"@, "override"@, "priv"@, "pub"@, "ref"@, "return"@, "Self"@, "self"@,
        "static"@, "struct"@, "super"@, "trait"@, "true"@, "try"@, "type"@, "typeof"@,
        "unsafe"@, "unsized"@, "use"@, "virtual"@, "where"@, "while"@, "yield"@,
    ]
}

fn is_keyword(word: &str) -> (r: bool)
    ensures
        r == keywords().contains(word@),
{
    let words: Vec<&str> = vec![
        "_", "abstract", "as", "async", "await", "become", "box", "break", "const",
        "continue", "crate", "do", "dyn", "else", "enum", "extern", "false", "final",
        "fn", "for", "if", "impl", "in", "let", "loop", "macro", "match", "mod",
        "move", "mut", "override", "priv", "pub", "ref", "return", "Self", "self",
        "static", "struct", "super", "trait", "true", "try", "type", "typeof",
        "unsafe", "unsized", "use", "virtual", "where", "while", "yield",
    ];
    let ghost views = words@.map_values(|w: &str| w@);
    assert(views =~= keywords());
    let mut i: usize = 0;
    while i < words.len()
        invariant
            views == words@.map_values(|w: &str| w@),
            views == keywords(),
            i <= words.len(),
            forall|j: int| 0 <= j < i ==> views[j] != word@,
        decreases words.len() - i,
    {
        if str_equal(words[i], word) {
            assert(views[i as int] == word@);
            return true;
        }
        i = i + 1;
    }
    false
}

/// Whether `tok` is an identifier that is not a keyword.
pub open spec fn is_plain_ident(tok: MacroToken) -> bool {
    tok matches MacroToken::Ident(s) && !keywords().contains(s@)
}

/// Whether `t[i]` is the punctuation character `c`.
pub open spec fn punct_at(t: Seq<MacroToken>, i: int, c: char) -> bool {
    0 <= i < t.len() && (t[i] matches MacroToken::Punct(p, _) && p == c)
}

/// Whether `t` has `::` at `i`.
pub open spec fn colon2_at(t: Seq<MacroToken>, i: int) -> bool {
    0 <= i && i + 1 < t.len() && (t[i] matches MacroToken::Punct(p, j) && p == ':' && j)
        && (t[i + 1] matches MacroToken::Punct(q, _) && q == ':')
}

/// The identifier at `t[i]`, where it is one.
pub open spec fn ident_text(t: Seq<MacroToken>, i: int) -> Seq<char> {
    match t[i] {
        MacroToken::Ident(s) => s@,
        _ => Seq::empty(),
    }
}

/// The kinds listed from `t[i]` on: identifiers separated by commas, with an
/// optional trailing comma.
pub open spec fn parse_kinds(t: Seq<MacroToken>, i: int) -> Result<Seq<Seq<char>>, SpecError>
    decreases t.len() - i,
{
    if i < 0 || i >= t.len() {
        Ok(Seq::empty())
    } else if !is_plain_ident(t[i]) {
        Err(fault(SpecErrorKind::ExpectedIdent, i))
    } else if i + 1 >= t.len() {
        Ok(seq![ident_text(t, i)])
    } else if !punct_at(t, i + 1, ',') {
        Err(fault(SpecErrorKind::ExpectedComma, i + 1))
    } else {
        match parse_kinds(t, i + 2) {
            Err(e) => Err(e),
            Ok(rest) => Ok(seq![ident_text(t, i)] + rest),
        }
    }
}

/// Reads a plain identifier at `t[i]`.
fn plain_ident_at(t: &Vec<MacroToken>, i: usize) -> (r: Option<String>)
    requires
        i < t@.len(),
    ensures
        r is Some <==> is_plain_ident(t@[i as int]),
        r matches Some(s) ==> s@ == ident_text(t@, i as int),
{
    match &t[i] {
        MacroToken::Ident(s) => {
            if is_keyword(s.as_str()) {
                None
            } else {
                Some(s.clone())
            }
        },
        _ => None,
    }
}

fn is_punct_at(t: &Vec<MacroToken>, i: usize, c: char) -> (r: bool)
    ensures
        r == punct_at(t@, i as int, c),
{
    if i < t.len() {
        match &t[i] {
            MacroToken::Punct(p, _) => *p == c,
            _ => false,
        }
    } else {
        false
    }
}

/// Whether `t[i]` is the punctuation character `c`, joined to the next token.
pub open spec fn joint_punct_at(t: Seq<MacroToken>, i: int, c: char) -> bool {
    0 <= i < t.len() && (t[i] matches MacroToken::Punct(p, j) && p == c && j)
}

fn is_joint_punct_at(t: &Vec<MacroToken>, i: usize, c: char) -> (r: bool)
    ensures
        r == joint_punct_at(t@, i as int, c),
{
    if i < t.len() {
        match &t[i] {
            MacroToken::Punct(p, j) => *p == c && *j,
            _ => false,
        }
    } else {
        false
    }
}

/// The kinds listed in `t` from position `i` on.
fn read_kinds(t: &Vec<MacroToken>, i: usize) -> (r: Result<Vec<String>, SpecError>)
    ensures
        match parse_kinds(t@, i as int) {
            Err(e) => r == Err::<Vec<String>, SpecError>(e),
            Ok(ks) => (r matches Ok(v) && v@.map_values(|s: String| s@) == ks),
        },
    decreases t@.len() - i,
{
    if i >= t.len() {
        let v: Vec<String> = Vec::new();
        assert(v@.map_values(|s: String| s@) =~= Seq::<Seq<char>>::empty());
        return Ok(v);
    }
    let first = match plain_ident_at(t, i) {
        None => return Err(SpecError { kind: SpecErrorKind::ExpectedIdent, at: i, within: None }),
        Some(s) => s,
    };
    if i + 1 >= t.len() {
        let mut v: Vec<String> = Vec::new();
        v.push(first);
        assert(v@.map_values(|s: String| s@) =~= seq![ident_text(t@, i as int)]);
        return Ok(v);
    }
    if !is_punct_at(t, i + 1, ',') {
        return Err(SpecError { kind: SpecErrorKind::ExpectedComma, at: i + 1, within: None });
    }
    match read_kinds(t, i + 2) {
        Err(e) => Err(e),
        Ok(mut rest) => {
            let ghost old_rest = rest@;
            rest.insert(0, first);
            assert(rest@.map_values(|s: String| s@) =~= seq![ident_text(t@, i as int)]
                + old_rest.map_values(|s: String| s@));
            Ok(rest)
        },
    }
}

/// The texts of a list of strings.
pub open spec fn texts(v: Seq<String>) -> Seq<Seq<char>> {
    v.map_values(|s: String| s@)
}

/// A status code and the kinds declared under it.
pub struct StatusBlock {
    pub status: u16,
    pub kinds: Vec<String>,
}

impl View for StatusBlock {
    type V = (u16, Seq<Seq<char>>);

    open spec fn view(&self) -> (u16, Seq<Seq<char>>) {
        (self.status, texts(self.kinds@))
    }
}

/// A segment of a path: its name, and where it has generic arguments, the
/// positions of the `<` and of the matching `>` in the declaration's tokens.
pub struct PathSegment {
    pub name: String,
    pub arguments: Option<(usize, usize)>,
}

impl View for PathSegment {
    type V = (Seq<char>, Option<(usize, usize)>);

    open spec fn view(&self) -> (Seq<char>, Option<(usize, usize)>) {
        (self.name@, self.arguments)
    }
}

/// The path given with `root = ...`: the module that holds the error types.
pub struct RootPath {
    pub leading_colon: bool,
    pub segments: Vec<PathSegment>,
}

impl View for RootPath {
    type V = (bool, Seq<(Seq<char>, Option<(usize, usize)>)>);

    open spec fn view(&self) -> (bool, Seq<(Seq<char>, Option<(usize, usize)>)>) {
        (self.leading_colon, self.segments@.map_values(|s: PathSegment| s@))
    }
}

/// What a catalogue declaration means: its name, its root path if one is
/// given, and its status blocks in the order written.
pub struct CatalogModel {
    pub name: Seq<char>,
    pub root: Option<(bool, Seq<(Seq<char>, Option<(usize, usize)>)>)>,
    pub blocks: Seq<(u16, Seq<Seq<char>>)>,
}

/// A catalogue of error kinds.
pub struct ErrorCatalog {
    pub name: String,
    pub root: Option<RootPath>,
    pub blocks: Vec<StatusBlock>,
}

impl View for ErrorCatalog {
    type V = CatalogModel;

    open spec fn view(&self) -> CatalogModel {
        CatalogModel {
            name: self.name@,
            root: match self.root {
                None => None,
                Some(p) => Some(p@),
            },
            blocks: self.blocks@.map_values(|b: StatusBlock| b@),
        }
    }
}

/// Whether `tok` can be a segment of a path: a plain identifier, or `super`,
/// `self`, `crate` or `Self`.
pub open spec fn is_segment_word(tok: MacroToken) -> bool {
    tok matches MacroToken::Ident(s) && (!keywords().contains(s@) || s@ == "super"@ || s@ == "self"@
        || s@ == "crate"@ || s@ == "Self"@)
}

/// Whether generic arguments open at `t[j]`: a `<` that does not begin `<=`
/// or `<<=`.
pub open spec fn opens_arguments(t: Seq<MacroToken>, j: int) -> bool {
    &&& punct_at(t, j, '<')
    &&& !(joint_punct_at(t, j, '<') && punct_at(t, j + 1, '='))
    &&& !(joint_punct_at(t, j, '<') && joint_punct_at(t, j + 1, '<') && punct_at(t, j + 2, '='))
}

/// Whether `t[i]` closes an angle bracket: a `>` that is not the end of `->`.
pub open spec fn closes_angle(t: Seq<MacroToken>, i: int) -> bool {
    punct_at(t, i, '>') && !(i > 0 && joint_punct_at(t, i - 1, '-'))
}

/// The position of the `>` that closes the generic arguments scanned from
/// `t[i]` on, `depth` brackets deep; `None` where none does.
pub open spec fn angle_close(t: Seq<MacroToken>, i: int, depth: nat) -> Option<int>
    decreases t.len() - i,
{
    if i < 0 || i >= t.len() {
        None
    } else if closes_angle(t, i) {
        if depth == 0 { Some(i) } else { angle_close(t, i + 1, (depth - 1) as nat) }
    } else if punct_at(t, i, '<') {
        angle_close(t, i + 1, depth + 1)
    } else {
        angle_close(t, i + 1, depth)
    }
}

/// A closing bracket, where found, lies between the start of the scan and the end.
pub proof fn lemma_angle_close_bounds(t: Seq<MacroToken>, i: int, depth: nat)
    ensures
        angle_close(t, i, depth) matches Some(c) ==> i <= c < t.len(),
    decreases t.len() - i,
{
    if 0 <= i < t.len() {
        if closes_angle(t, i) {
            if depth > 0 {
                lemma_angle_close_bounds(t, i + 1, (depth - 1) as nat);
            }
        } else if punct_at(t, i, '<') {
            lemma_angle_close_bounds(t, i + 1, depth + 1);
        } else {
            lemma_angle_close_bounds(t, i + 1, depth);
        }
    }
}

/// Where the generic arguments of the segment at `t[i]` open: right after
/// it, or after `::`; `None` where it has none.
pub open spec fn arguments_open(t: Seq<MacroToken>, i: int) -> Option<int> {
    if opens_arguments(t, i + 1) {
        Some(i + 1)
    } else if colon2_at(t, i + 1) && punct_at(t, i + 3, '<') {
        Some(i + 3)
    } else {
        None
    }
}

/// The segments of a path from `t[i]` on, separated by `::`, each with its
/// generic arguments if it has any, and the position after the path.
pub open spec fn parse_segments(t: Seq<MacroToken>, i: int) -> Result<(Seq<(Seq<char>, Option<(usize, usize)>)>, int), SpecError>
    decreases t.len() - i,
{
    if i < 0 || i >= t.len() || !is_segment_word(t[i]) {
        Err(fault(SpecErrorKind::ExpectedIdent, pos(t, i)))
    } else {
        let (args, next) = match arguments_open(t, i) {
            None => (None, i + 1),
            Some(open) => match angle_close(t, open + 1, 0) {
                None => (None, -1),
                Some(close) => (Some((#[verifier::truncate] (open as usize), #[verifier::truncate] (close as usize))), close + 1),
            },
        };
        if next < 0 {
            Err(fault(SpecErrorKind::UnclosedGenericArguments, t.len() as int))
        } else if colon2_at(t, next) {
            proof {
                match arguments_open(t, i) {
                    None => {},
                    Some(open) => lemma_angle_close_bounds(t, open + 1, 0),
                }
            }
            match parse_segments(t, next + 2) {
                Err(e) => Err(e),
                Ok((segs, j)) => Ok((seq![(ident_text(t, i), args)] + segs, j)),
            }
        } else {
            Ok((seq![(ident_text(t, i), args)], next))
        }
    }
}

/// A path from `t[i]` on, with an optional leading `::`.
pub open spec fn parse_path(t: Seq<MacroToken>, i: int) -> Result<((bool, Seq<(Seq<char>, Option<(usize, usize)>)>), int), SpecError> {
    if colon2_at(t, i) {
        match parse_segments(t, i + 2) {
            Err(e) => Err(e),
            Ok((segs, j)) => Ok(((true, segs), j)),
        }
    } else {
        match parse_segments(t, i) {
            Err(e) => Err(e),
            Ok((segs, j)) => Ok(((false, segs), j)),
        }
    }
}

/// The position after the optional `;` and then the optional `,` at `j`.
pub open spec fn skip_separators(t: Seq<MacroToken>, j: int) -> int {
    let k = if punct_at(t, j, ';') { j + 1 } else { j };
    if punct_at(t, k, ',') { k + 1 } else { k }
}

/// The status blocks from `t[i]` to the end: `status = { kinds }`, each
/// followed by an optional `;` and an optional `,`. A status is read as a
/// `u16`.
pub open spec fn parse_blocks(t: Seq<MacroToken>, i: int) -> Result<Seq<(u16, Seq<Seq<char>>)>, SpecError>
    decreases t.len() - i,
{
    if i < 0 || i >= t.len() {
        Ok(Seq::empty())
    } else if !(t[i] is Int) {
        Err(fault(SpecErrorKind::ExpectedInteger, i))
    } else if t[i]->Int_0 > 0xffff {
        Err(fault(SpecErrorKind::StatusOutOfRange, i))
    } else if !punct_at(t, i + 1, '=') {
        Err(fault(SpecErrorKind::ExpectedEquals, pos(t, i + 1)))
    } else if i + 2 >= t.len() || !(t[i + 2] is Braces) {
        Err(fault(SpecErrorKind::ExpectedBraces, pos(t, i + 2)))
    } else {
        match parse_kinds(t[i + 2]->Braces_0@, 0) {
            Err(e) => Err(SpecError { kind: e.kind, at: e.at, within: Some((i + 2) as usize) }),
            Ok(kinds) => match parse_blocks(t, skip_separators(t, i + 3)) {
                Err(e) => Err(e),
                Ok(rest) => Ok(seq![(t[i]->Int_0 as u16, kinds)] + rest),
            },
        }
    }
}

/// The meaning of a whole catalogue declaration `t`:
/// `Name , [root = path ,] blocks`.
pub open spec fn parse_catalog(t: Seq<MacroToken>) -> Result<CatalogModel, SpecError> {
    if t.len() == 0 || !is_plain_ident(t[0]) {
        Err(fault(SpecErrorKind::ExpectedIdent, 0))
    } else if !punct_at(t, 1, ',') {
        Err(fault(SpecErrorKind::ExpectedComma, pos(t, 1)))
    } else if t.len() > 2 && is_plain_ident(t[2]) {
        if ident_text(t, 2) != "root"@ {
            Err(fault(SpecErrorKind::ExpectedRootOrStatus, 2))
        } else if !punct_at(t, 3, '=') {
            Err(fault(SpecErrorKind::ExpectedEquals, pos(t, 3)))
        } else {
            match parse_path(t, 4) {
                Err(e) => Err(e),
                Ok((path, j)) => if !punct_at(t, j, ',') {
                    Err(fault(SpecErrorKind::ExpectedComma, pos(t, j)))
                } else {
                    match parse_blocks(t, j + 1) {
                        Err(e) => Err(e),
                        Ok(blocks) => Ok(CatalogModel { name: ident_text(t, 0), root: Some(path), blocks }),
                    }
                },
            }
        }
    } else {
        match parse_blocks(t, 2) {
            Err(e) => Err(e),
            Ok(blocks) => Ok(CatalogModel { name: ident_text(t, 0), root: None, blocks }),
        }
    }
}

fn is_colon2_at(t: &Vec<MacroToken>, i: usize) -> (r: bool)
    ensures
        r == colon2_at(t@, i as int),
{
    if i < t.len() && i + 1 < t.len() {
        let first = match &t[i] {
            MacroToken::Punct(p, joint) => *p == ':' && *joint,
            _ => false,
        };
        let second = match &t[i + 1] {
            MacroToken::Punct(q, _) => *q == ':',
            _ => false,
        };
        first && second
    } else {
        false
    }
}

fn segment_word_at(t: &Vec<MacroToken>, i: usize) -> (r: Option<String>)
    requires
        i < t@.len(),
    ensures
        r is Some <==> is_segment_word(t@[i as int]),
        r matches Some(s) ==> s@ == ident_text(t@, i as int),
{
    match &t[i] {
        MacroToken::Ident(s) => {
            let word = s.as_str();
            if !is_keyword(word) || str_equal(word, "super") || str_equal(word, "self") || str_equal(
                word,
                "crate",
            ) || str_equal(word, "Self") {
                Some(s.clone())
            } else {
                None
            }
        },
        _ => None,
    }
}

fn reads_opens_arguments(t: &Vec<MacroToken>, j: usize) -> (r: bool)
    ensures
        r == opens_arguments(t@, j as int),
{
    if !is_punct_at(t, j, '<') {
        return false;
    }
    let n = t.len();
    assert(j < n);
    let joint = is_joint_punct_at(t, j, '<');
    !(joint && is_punct_at(t, j + 1, '=')) && !(joint && is_joint_punct_at(t, j + 1, '<') && is_punct_at(
        t,
        j + 2,
        '=',
    ))
}

/// The position of the `>` that closes generic arguments scanned from `t[i]`.
fn find_angle_close(t: &Vec<MacroToken>, i: usize, depth: usize) -> (r: Option<usize>)
    requires
        depth <= i,
    ensures
        match angle_close(t@, i as int, depth as nat) {
            None => r is None,
            Some(k) => r == Some(k as usize) && i <= k < t@.len(),
        },
    decreases t@.len() - i,
{
    if i >= t.len() {
        return None;
    }
    let closes = is_punct_at(t, i, '>') && !(i > 0 && is_joint_punct_at(t, i - 1, '-'));
    if closes {
        if depth == 0 {
            Some(i)
        } else {
            find_angle_close(t, i + 1, depth - 1)
        }
    } else if is_punct_at(t, i, '<') {
        find_angle_close(t, i + 1, depth + 1)
    } else {
        find_angle_close(t, i + 1, depth)
    }
}

fn read_segments(t: &Vec<MacroToken>, i: usize) -> (r: Result<(Vec<PathSegment>, usize), SpecError>)
    ensures
        match parse_segments(t@, i as int) {
            Err(e) => r == Err::<(Vec<PathSegment>, usize), SpecError>(e),
            Ok((segs, j)) => (r matches Ok((v, k)) && v@.map_values(|s: PathSegment| s@) == segs && k == j),
        },
    decreases t@.len() - i,
{
    let n = t.len();
    if i >= n {
        return Err(SpecError { kind: SpecErrorKind::ExpectedIdent, at: n, within: None });
    }
    let name = match segment_word_at(t, i) {
        None => return Err(SpecError { kind: SpecErrorKind::ExpectedIdent, at: i, within: None }),
        Some(s) => s,
    };
    let open: Option<usize> = if reads_opens_arguments(t, i + 1) {
        Some(i + 1)
    } else if is_colon2_at(t, i + 1) && is_punct_at(t, i + 3, '<') {
        Some(i + 3)
    } else {
        None
    };
    assert(open == match arguments_open(t@, i as int) { None => None, Some(o) => Some(o as usize) });
    let (arguments, next): (Option<(usize, usize)>, usize) = match open {
        None => (None, i + 1),
        Some(o) => match find_angle_close(t, o + 1, 0) {
            None => return Err(SpecError { kind: SpecErrorKind::UnclosedGenericArguments, at: n, within: None }),
            Some(close) => (Some((o, close)), close + 1),
        },
    };
    let seg = PathSegment { name, arguments };
    if is_colon2_at(t, next) {
        match read_segments(t, next + 2) {
            Err(e) => Err(e),
            Ok((mut rest, j)) => {
                let ghost old_rest = rest@;
                rest.insert(0, seg);
                assert(rest@.map_values(|s: PathSegment| s@) =~= seq![seg@] + old_rest.map_values(
                    |s: PathSegment| s@,
                ));
                Ok((rest, j))
            },
        }
    } else {
        let mut v: Vec<PathSegment> = Vec::new();
        v.push(seg);
        assert(v@.map_values(|s: PathSegment| s@) =~= seq![seg@]);
        Ok((v, next))
    }
}

fn read_path(t: &Vec<MacroToken>, i: usize) -> (r: Result<(RootPath, usize), SpecError>)
    ensures
        match parse_path(t@, i as int) {
            Err(e) => r == Err::<(RootPath, usize), SpecError>(e),
            Ok((p, j)) => (r matches Ok((v, k)) && v@ == p && k == j),
        },
{
    let n = t.len();
    if is_colon2_at(t, i) {
        assert(i + 2 <= n);
        match read_segments(t, i + 2) {
            Err(e) => Err(e),
            Ok((segments, j)) => Ok((RootPath { leading_colon: true, segments }, j)),
        }
    } else {
        match read_segments(t, i) {
            Err(e) => Err(e),
            Ok((segments, j)) => Ok((RootPath { leading_colon: false, segments }, j)),
        }
    }
}

fn read_blocks(t: &Vec<MacroToken>, i: usize) -> (r: Result<Vec<StatusBlock>, SpecError>)
    ensures
        match parse_blocks(t@, i as int) {
            Err(e) => r == Err::<Vec<StatusBlock>, SpecError>(e),
            Ok(bs) => (r matches Ok(v) && v@.map_values(|b: StatusBlock| b@) == bs),
        },
    decreases t@.len() - i,
{
    let n = t.len();
    if i >= n {
        let v: Vec<StatusBlock> = Vec::new();
        assert(v@.map_values(|b: StatusBlock| b@) =~= Seq::<(u16, Seq<Seq<char>>)>::empty());
        return Ok(v);
    }
    let status: u16 = match &t[i] {
        MacroToken::Int(v) => {
            if *v > 0xffff {
                return Err(SpecError { kind: SpecErrorKind::StatusOutOfRange, at: i, within: None });
            }
            *v as u16
        },
        _ => return Err(SpecError { kind: SpecErrorKind::ExpectedInteger, at: i, within: None }),
    };
    if !is_punct_at(t, i + 1, '=') {
        let at = if i + 1 < n { i + 1 } else { n };
        return Err(SpecError { kind: SpecErrorKind::ExpectedEquals, at, within: None });
    }
    if i + 2 >= n {
        return Err(SpecError { kind: SpecErrorKind::ExpectedBraces, at: n, within: None });
    }
    let kinds = match &t[i + 2] {
        MacroToken::Braces(inner) => match read_kinds(inner, 0) {
            Err(e) => return Err(SpecError { kind: e.kind, at: e.at, within: Some(i + 2) }),
            Ok(k) => k,
        },
        _ => return Err(SpecError { kind: SpecErrorKind::ExpectedBraces, at: i + 2, within: None }),
    };
    let mut j = i + 3;
    if is_punct_at(t, j, ';') {
        j = j + 1;
    }
    if is_punct_at(t, j, ',') {
        j = j + 1;
    }
    assert(j == skip_separators(t@, i + 3));
    match read_blocks(t, j) {
        Err(e) => Err(e),
        Ok(mut rest) => {
            let ghost old_rest = rest@;
            let block = StatusBlock { status, kinds };
            rest.insert(0, block);
            assert(rest@.map_values(|b: StatusBlock| b@) =~= seq![block@] + old_rest.map_values(
                |b: StatusBlock| b@,
            ));
            Ok(rest)
        },
    }
}

/// Reads a catalogue declaration from its token trees.
pub fn parse_error_catalog(t: &Vec<MacroToken>) -> (r: Result<ErrorCatalog, SpecError>)
    ensures
        match parse_catalog(t@) {
            Err(e) => r == Err::<ErrorCatalog, SpecError>(e),
            Ok(m) => (r matches Ok(c) && c@ == m),
        },
{
    let n = t.len();
    if n == 0 {
        return Err(SpecError { kind: SpecErrorKind::ExpectedIdent, at: 0, within: None });
    }
    let name = match plain_ident_at(t, 0) {
        None => return Err(SpecError { kind: SpecErrorKind::ExpectedIdent, at: 0, within: None }),
        Some(s) => s,
    };
    if !is_punct_at(t, 1, ',') {
        let at = if 1 < n { 1 } else { n };
        return Err(SpecError { kind: SpecErrorKind::ExpectedComma, at, within: None });
    }
    if n > 2 {
        if let Some(word) = plain_ident_at(t, 2) {
            if !str_equal(word.as_str(), "root") {
                return Err(SpecError { kind: SpecErrorKind::ExpectedRootOrStatus, at: 2, within: None });
            }
            if !is_punct_at(t, 3, '=') {
                let at = if 3 < n { 3 } else { n };
                return Err(SpecError { kind: SpecErrorKind::ExpectedEquals, at, within: None });
            }
            let (path, j) = match read_path(t, 4) {
                Err(e) => return Err(e),
                Ok(pj) => pj,
            };
            if !is_punct_at(t, j, ',') {
                let at = if j < n { j } else { n };
                return Err(SpecError { kind: SpecErrorKind::ExpectedComma, at, within: None });
            }
            let blocks = match read_blocks(t, j + 1) {
                Err(e) => return Err(e),
                Ok(b) => b,
            };
            return Ok(ErrorCatalog { name, root: Some(path), blocks });
        }
    }
    let blocks = match read_blocks(t, 2) {
        Err(e) => return Err(e),
        Ok(b) => b,
    };
    Ok(ErrorCatalog { name, root: None, blocks })
}

/// All kinds of `blocks`, in the order written.
pub open spec fn all_kinds(blocks: Seq<(u16, Seq<Seq<char>>)>) -> Seq<Seq<char>>
    decreases blocks.len(),
{
    if blocks.len() == 0 {
        Seq::empty()
    } else {
        all_kinds(blocks.drop_last()) + blocks.last().1
    }
}

/// The kinds declared under `status`, in the order written.
pub open spec fn kinds_with_status(blocks: Seq<(u16, Seq<Seq<char>>)>, status: u16) -> Seq<Seq<char>>
    decreases blocks.len(),
{
    if blocks.len() == 0 {
        Seq::empty()
    } else {
        kinds_with_status(blocks.drop_last(), status) + if blocks.last().0 == status {
            blocks.last().1
        } else {
            Seq::empty()
        }
    }
}

/// Whether `codes` holds exactly the statuses of `blocks`.
pub open spec fn same_statuses(codes: Seq<u16>, blocks: Seq<(u16, Seq<Seq<char>>)>) -> bool {
    &&& forall|i: int| 0 <= i < blocks.len() ==> codes.contains(#[trigger] blocks[i].0)
    &&& forall|j: int| 0 <= j < codes.len() ==> exists|i: int| 0 <= i < blocks.len() && blocks[i].0 == #[trigger] codes[j]
}

impl ErrorCatalog {
    /// All kinds of the catalogue, in the order written.
    pub fn kinds(&self) -> (r: Vec<String>)
        ensures
            texts(r@) == all_kinds(self@.blocks),
    {
        let ghost bs = self@.blocks;
        let mut out: Vec<String> = Vec::new();
        let mut i: usize = 0;
        while i < self.blocks.len()
            invariant
                bs == self@.blocks,
                bs.len() == self.blocks@.len(),
                i <= self.blocks.len(),
                texts(out@) == all_kinds(bs.take(i as int)),
            decreases self.blocks.len() - i,
        {
            let block = &self.blocks[i];
            let ghost before = out@;
            let mut k: usize = 0;
            while k < block.kinds.len()
                invariant
                    i < self.blocks.len(),
                    block == self.blocks@[i as int],
                    k <= block.kinds.len(),
                    texts(out@) == texts(before) + texts(block.kinds@).take(k as int),
                decreases block.kinds.len() - k,
            {
                let ghost old_out = out@;
                out.push(block.kinds[k].clone());
                assert(texts(out@) =~= texts(old_out).push(block.kinds@[k as int]@));
                assert(texts(block.kinds@).take(k + 1) =~= texts(block.kinds@).take(k as int).push(
                    block.kinds@[k as int]@,
                ));
                assert(texts(out@) =~= texts(before) + texts(block.kinds@).take(k + 1));
                k = k + 1;
            }
            assert(texts(block.kinds@).take(k as int) =~= texts(block.kinds@));
            assert(bs.take(i + 1).drop_last() =~= bs.take(i as int));
            assert(bs[i as int] == block@);
            i = i + 1;
        }
        assert(bs.take(i as int) =~= bs);
        out
    }

    /// The status of `kind`: that of the first block that declares it, or
    /// `None` where no block does. A kind declared under a number that is no
    /// HTTP status code (outside 100 to 999) has no status to answer with.
    pub fn status_of(&self, kind: &str) -> (r: Option<u16>)
        requires
            forall|i: int| 0 <= i < self@.blocks.len() && (#[trigger] self@.blocks[i]).1.contains(kind@)
                ==> 100 <= self@.blocks[i].0 <= 999,
        ensures
            r is None <==> forall|i: int| 0 <= i < self@.blocks.len() ==> !(#[trigger] self@.blocks[i]).1.contains(kind@),
            r matches Some(c) ==> exists|i: int| 0 <= i < self@.blocks.len() && (#[trigger] self@.blocks[i]).1.contains(kind@)
                && self@.blocks[i].0 == c && forall|j: int| 0 <= j < i ==> !(#[trigger] self@.blocks[j]).1.contains(kind@),
    {
        let ghost bs = self@.blocks;
        let mut i: usize = 0;
        while i < self.blocks.len()
            invariant
                bs == self@.blocks,
                bs.len() == self.blocks@.len(),
                i <= self.blocks.len(),
                forall|j: int| 0 <= j < i ==> !(#[trigger] bs[j]).1.contains(kind@),
            decreases self.blocks.len() - i,
        {
            let block = &self.blocks[i];
            assert(bs[i as int] == block@);
            let mut k: usize = 0;
            while k < block.kinds.len()
                invariant
                    bs == self@.blocks,
                    bs.len() == self.blocks@.len(),
                    i < self.blocks.len(),
                    block == self.blocks@[i as int],
                    bs[i as int] == block@,
                    forall|j: int| 0 <= j < i ==> !(#[trigger] bs[j]).1.contains(kind@),
                    k <= block.kinds.len(),
                    forall|m: int| 0 <= m < k ==> block.kinds@[m]@ != kind@,
                decreases block.kinds.len() - k,
            {
                if str_equal(block.kinds[k].as_str(), kind) {
                    assert(texts(block.kinds@)[k as int] == kind@);
                    assert(bs[i as int].1.contains(kind@));
                    return Some(block.status);
                }
                k = k + 1;
            }
            assert(!texts(block.kinds@).contains(kind@)) by {
                if texts(block.kinds@).contains(kind@) {
                    let m = choose|m: int| 0 <= m < texts(block.kinds@).len() && texts(block.kinds@)[m] == kind@;
                    assert(block.kinds@[m]@ == kind@);
                }
            }
            i = i + 1;
        }
        None
    }
}

impl ErrorCatalog {
    /// The distinct statuses of the catalogue, in increasing order: the
    /// statuses under which its error answers are documented.
    pub fn documented_codes(&self) -> (r: Vec<u16>)
        ensures
            strictly_increasing(r@),
            same_statuses(r@, self@.blocks),
    {
        let ghost bs = self@.blocks;
        let mut codes: Vec<u16> = Vec::new();
        let mut i: usize = 0;
        while i < self.blocks.len()
            invariant
                bs == self@.blocks,
                bs.len() == self.blocks@.len(),
                i <= self.blocks.len(),
                strictly_increasing(codes@),
                same_statuses(codes@, bs.take(i as int)),
            decreases self.blocks.len() - i,
        {
            let c = self.blocks[i].status;
            assert(bs[i as int].0 == c);
            let mut p: usize = 0;
            while p < codes.len() && codes[p] < c
                invariant
                    p <= codes.len(),
                    forall|q: int| 0 <= q < p ==> codes@[q] < c,
                decreases codes.len() - p,
            {
                p = p + 1;
            }
            let ghost old_codes = codes@;
            if p < codes.len() && codes[p] == c {
                assert(codes@.contains(c));
            } else {
                codes.insert(p, c);
                assert(codes@ == old_codes.insert(p as int, c));
                assert forall|a: int, b: int| 0 <= a < b < codes@.len() implies codes@[a] < codes@[b] by {
                    if b < p {
                    } else if b == p {
                    } else if a < p {
                        assert(old_codes[a] < c);
                        assert(old_codes[p as int] > c);
                        if a < p as int && (p as int) < b - 1 {
                            assert(old_codes[p as int] < old_codes[b - 1]);
                        }
                    } else if a == p {
                        assert(old_codes[p as int] > c);
                        if (p as int) < b - 1 {
                            assert(old_codes[p as int] < old_codes[b - 1]);
                        }
                    } else {
                        assert(old_codes[a - 1] < old_codes[b - 1]);
                    }
                }
                assert(codes@[p as int] == c);
                assert forall|j: int| 0 <= j < old_codes.len() implies codes@.contains(#[trigger] old_codes[j]) by {
                    if j < p {
                        assert(codes@[j] == old_codes[j]);
                    } else {
                        assert(codes@[j + 1] == old_codes[j]);
                    }
                }
            }
            let ghost prev = bs.take(i as int);
            let ghost next = bs.take(i + 1);
            assert(next == prev.push(bs[i as int]));
            assert forall|k: int| 0 <= k < next.len() implies codes@.contains(#[trigger] next[k].0) by {
                if k < prev.len() {
                    assert(next[k] == prev[k]);
                    assert(old_codes.contains(prev[k].0));
                    let w = choose|w: int| 0 <= w < old_codes.len() && old_codes[w] == prev[k].0;
                    assert(codes@.contains(old_codes[w]));
                } else {
                    assert(next[k].0 == c);
                    if p < old_codes.len() && old_codes[p as int] == c {
                        assert(codes@[p as int] == c);
                    } else {
                        assert(codes@[p as int] == c);
                    }
                }
            }
            assert forall|j: int| 0 <= j < codes@.len() implies exists|k: int| 0 <= k < next.len() && next[k].0 == #[trigger] codes@[j] by {
                if codes@[j] == c {
                    assert(next[i as int].0 == c);
                } else {
                    let jj: int = if !(p < old_codes.len() && old_codes[p as int] == c) && j > p { j - 1 } else { j };
                    assert(old_codes[jj] == codes@[j]);
                    let k = choose|k: int| 0 <= k < prev.len() && prev[k].0 == #[trigger] old_codes[jj];
                    assert(next[k] == prev[k]);
                }
            }
            i = i + 1;
        }
        assert(bs.take(i as int) =~= bs);
        codes
    }

    /// The kinds declared under `status`, in the order written.
    pub fn kinds_under(&self, status: u16) -> (r: Vec<String>)
        ensures
            texts(r@) == kinds_with_status(self@.blocks, status),
    {
        let ghost bs = self@.blocks;
        let mut out: Vec<String> = Vec::new();
        let mut i: usize = 0;
        while i < self.blocks.len()
            invariant
                bs == self@.blocks,
                bs.len() == self.blocks@.len(),
                i <= self.blocks.len(),
                texts(out@) == kinds_with_status(bs.take(i as int), status),
            decreases self.blocks.len() - i,
        {
            let block = &self.blocks[i];
            assert(bs[i as int] == block@);
            assert(bs.take(i + 1).drop_last() =~= bs.take(i as int));
            if block.status == status {
                let ghost before = out@;
                let mut k: usize = 0;
                while k < block.kinds.len()
                    invariant
                        i < self.blocks.len(),
                        block == self.blocks@[i as int],
                        k <= block.kinds.len(),
                        texts(out@) == texts(before) + texts(block.kinds@).take(k as int),
                    decreases block.kinds.len() - k,
                {
                    let ghost old_out = out@;
                    out.push(block.kinds[k].clone());
                    assert(texts(out@) =~= texts(old_out).push(block.kinds@[k as int]@));
                    assert(texts(block.kinds@).take(k + 1) =~= texts(block.kinds@).take(k as int).push(
                        block.kinds@[k as int]@,
                    ));
                    k = k + 1;
                }
                assert(texts(block.kinds@).take(k as int) =~= texts(block.kinds@));
            } else {
                assert(kinds_with_status(bs.take(i + 1), status) =~= kinds_with_status(bs.take(i as int), status));
            }
            i = i + 1;
        }
        assert(bs.take(i as int) =~= bs);
        out
    }

    /// The kinds grouped by status: one group per distinct status, in
    /// increasing order of status, each with the kinds declared under it in
    /// the order written.
    pub fn status_groups(&self) -> (r: Vec<StatusBlock>)
        ensures
            strictly_increasing(r@.map_values(|g: StatusBlock| g.status)),
            same_statuses(r@.map_values(|g: StatusBlock| g.status), self@.blocks),
            forall|g: int| 0 <= g < r@.len() ==> texts((#[trigger] r@[g]).kinds@) == kinds_with_status(self@.blocks, r@[g].status),
    {
        let codes = self.documented_codes();
        let mut groups: Vec<StatusBlock> = Vec::new();
        let mut g: usize = 0;
        while g < codes.len()
            invariant
                g <= codes.len(),
                groups@.len() == g,
                forall|q: int| 0 <= q < g ==> (#[trigger] groups@[q]).status == codes@[q],
                forall|q: int| 0 <= q < g ==> texts((#[trigger] groups@[q]).kinds@) == kinds_with_status(self@.blocks, groups@[q].status),
            decreases codes.len() - g,
        {
            let status = codes[g];
            let kinds = self.kinds_under(status);
            groups.push(StatusBlock { status, kinds });
            g = g + 1;
        }
        assert(groups@.map_values(|b: StatusBlock| b.status) =~= codes@);
        groups
    }
}

/// A kind declared in a block is listed in the group of that block's status.
pub proof fn law_kind_listed_under_its_status(blocks: Seq<(u16, Seq<Seq<char>>)>, i: int, kind: Seq<char>)
    requires
        0 <= i < blocks.len(),
        blocks[i].1.contains(kind),
    ensures
        kinds_with_status(blocks, blocks[i].0).contains(kind),
    decreases blocks.len(),
{
    let c = blocks[i].0;
    let init = blocks.drop_last();
    let tail = if blocks.last().0 == c { blocks.last().1 } else { Seq::empty() };
    assert(kinds_with_status(blocks, c) == kinds_with_status(init, c) + tail);
    if i == blocks.len() - 1 {
        let m = choose|m: int| 0 <= m < blocks[i].1.len() && blocks[i].1[m] == kind;
        assert((kinds_with_status(init, c) + tail)[kinds_with_status(init, c).len() + m] == kind);
    } else {
        assert(init[i] == blocks[i]);
        law_kind_listed_under_its_status(init, i, kind);
        let m = choose|m: int| 0 <= m < kinds_with_status(init, c).len() && kinds_with_status(init, c)[m] == kind;
        assert((kinds_with_status(init, c) + tail)[m] == kind);
    }
}

/// A group lists only kinds declared under its status.
pub proof fn law_group_holds_only_its_kinds(blocks: Seq<(u16, Seq<Seq<char>>)>, status: u16, kind: Seq<char>)
    requires
        kinds_with_status(blocks, status).contains(kind),
    ensures
        exists|i: int| 0 <= i < blocks.len() && blocks[i].0 == status && (#[trigger] blocks[i]).1.contains(kind),
    decreases blocks.len(),
{
    let init = blocks.drop_last();
    let tail = if blocks.last().0 == status { blocks.last().1 } else { Seq::empty() };
    let front = kinds_with_status(init, status);
    assert(kinds_with_status(blocks, status) == front + tail);
    let m = choose|m: int| 0 <= m < (front + tail).len() && (front + tail)[m] == kind;
    if m < front.len() {
        assert(front[m] == kind);
        law_group_holds_only_its_kinds(init, status, kind);
        let i = choose|i: int| 0 <= i < init.len() && init[i].0 == status && (#[trigger] init[i]).1.contains(kind);
        assert(blocks[i] == init[i]);
    } else {
        assert(tail[m - front.len()] == kind);
        assert(blocks[blocks.len() - 1].1.contains(kind));
    }
}

/// What the declaration `LoginError, 401 = { InvalidCredentials }; 500 = { Error2, Error3 }` means.
pub open spec fn login_error_declaration() -> CatalogModel {
    CatalogModel {
        name: "LoginError"@,
        root: None,
        blocks: seq![(401u16, seq!["InvalidCredentials"@]), (500u16, seq!["Error2"@, "Error3"@])],
    }
}

/// What the declaration `RegisterError, 400 = { PasswordTooWeak }; 409 = { UsernameTaken, EmailTaken };
/// 500 = { InternalError }` means.
pub open spec fn register_error_declaration() -> CatalogModel {
    CatalogModel {
        name: "RegisterError"@,
        root: None,
        blocks: seq![
            (400u16, seq!["PasswordTooWeak"@]),
            (409u16, seq!["UsernameTaken"@, "EmailTaken"@]),
            (500u16, seq!["InternalError"@]),
        ],
    }
}

/// Whether `status` is what the catalogue with `blocks` gives for `kind`: the
/// status of the first block that declares it.
pub open spec fn declares_status(blocks: Seq<(u16, Seq<Seq<char>>)>, kind: Seq<char>, status: u16) -> bool {
    exists|i: int| 0 <= i < blocks.len() && (#[trigger] blocks[i]).1.contains(kind) && blocks[i].0 == status
        && forall|j: int| 0 <= j < i ==> !(#[trigger] blocks[j]).1.contains(kind)
}

/// The login error kinds are those of their declaration: each kind's message
/// is its name in the declaration, it answers with the status it is declared
/// under, and the documented codes are the declared statuses, distinct and in
/// increasing order.
pub proof fn law_login_errors_follow_declaration(kind: LoginError)
    ensures
        all_kinds(login_error_declaration().blocks) == seq![
            LoginError::InvalidCredentials.message_of(),
            LoginError::Error2.message_of(),
            LoginError::Error3.message_of(),
        ],
        declares_status(login_error_declaration().blocks, kind.message_of(), kind.status_of()),
        strictly_increasing(LoginError::documented_codes()),
        same_statuses(LoginError::documented_codes(), login_error_declaration().blocks),
{
    reveal_strlit("InvalidCredentials");
    reveal_strlit("Error2");
    reveal_strlit("Error3");
    let bs = login_error_declaration().blocks;
    let b1 = bs.drop_last();
    assert(b1.drop_last() =~= Seq::<(u16, Seq<Seq<char>>)>::empty());
    assert(b1.last() == bs[0]);
    assert(all_kinds(b1) == all_kinds(b1.drop_last()) + b1.last().1);
    assert(all_kinds(b1) =~= seq!["InvalidCredentials"@]);
    assert(all_kinds(bs) =~= seq!["InvalidCredentials"@, "Error2"@, "Error3"@]);
    assert(bs[0].1[0] == "InvalidCredentials"@);
    assert(bs[1].1[0] == "Error2"@);
    assert(bs[1].1[1] == "Error3"@);
    assert("InvalidCredentials"@[0] != "Error2"@[0]);
    assert("InvalidCredentials"@[0] != "Error3"@[0]);
    assert(!bs[0].1.contains("Error2"@));
    assert(!bs[0].1.contains("Error3"@));
    let codes = LoginError::documented_codes();
    assert(codes[0] == bs[0].0);
    assert(codes[1] == bs[1].0);
    match kind {
        LoginError::InvalidCredentials => assert(bs[0].1.contains(kind.message_of())),
        LoginError::Error2 => assert(bs[1].1.contains(kind.message_of())),
        LoginError::Error3 => assert(bs[1].1.contains(kind.message_of())),
    }
}

/// The registration error kinds are those of their declaration: each kind's
/// message is its name in the declaration, it answers with the status it is
/// declared under, and the documented codes are the declared statuses,
/// distinct and in increasing order.
pub proof fn law_register_errors_follow_declaration(kind: RegisterError)
    ensures
        all_kinds(register_error_declaration().blocks) == seq![
            RegisterError::PasswordTooWeak.message_of(),
            RegisterError::UsernameTaken.message_of(),
            RegisterError::EmailTaken.message_of(),
            RegisterError::InternalError.message_of(),
        ],
        declares_status(register_error_declaration().blocks, kind.message_of(), kind.status_of()),
        strictly_increasing(RegisterError::documented_codes()),
        same_statuses(RegisterError::documented_codes(), register_error_declaration().blocks),
{
    reveal_strlit("PasswordTooWeak");
    reveal_strlit("UsernameTaken");
    reveal_strlit("EmailTaken");
    reveal_strlit("InternalError");
    let bs = register_error_declaration().blocks;
    let b2 = bs.drop_last();
    let b1 = b2.drop_last();
    assert(b1.drop_last() =~= Seq::<(u16, Seq<Seq<char>>)>::empty());
    assert(b1.last() == bs[0]);
    assert(b2.last() == bs[1]);
    assert(all_kinds(b1) == all_kinds(b1.drop_last()) + b1.last().1);
    assert(all_kinds(b1) =~= seq!["PasswordTooWeak"@]);
    assert(all_kinds(b2) == all_kinds(b1) + b2.last().1);
    assert(all_kinds(b2) =~= seq!["PasswordTooWeak"@, "UsernameTaken"@, "EmailTaken"@]);
    assert(all_kinds(bs) =~= seq!["PasswordTooWeak"@, "UsernameTaken"@, "EmailTaken"@, "InternalError"@]);
    assert(bs[0].1[0] == "PasswordTooWeak"@);
    assert(bs[1].1[0] == "UsernameTaken"@);
    assert(bs[1].1[1] == "EmailTaken"@);
    assert(bs[2].1[0] == "InternalError"@);
    assert("PasswordTooWeak"@[0] != "UsernameTaken"@[0]);
    assert("PasswordTooWeak"@[0] != "EmailTaken"@[0]);
    assert("PasswordTooWeak"@[0] != "InternalError"@[0]);
    assert("UsernameTaken"@[0] != "InternalError"@[0]);
    assert("EmailTaken"@[0] != "InternalError"@[0]);
    assert(!bs[0].1.contains("UsernameTaken"@));
    assert(!bs[0].1.contains("EmailTaken"@));
    assert(!bs[0].1.contains("InternalError"@));
    assert(!bs[1].1.contains("InternalError"@));
    let codes = RegisterError::documented_codes();
    assert(codes[0] == bs[0].0);
    assert(codes[1] == bs[1].0);
    assert(codes[2] == bs[2].0);
    match kind {
        RegisterError::PasswordTooWeak => assert(bs[0].1.contains(kind.message_of())),
        RegisterError::UsernameTaken => assert(bs[1].1.contains(kind.message_of())),
        RegisterError::EmailTaken => assert(bs[1].1.contains(kind.message_of())),
        RegisterError::InternalError => assert(bs[2].1.contains(kind.message_of())),
    }
}


/// Whether `t` from `i` on is a list of identifiers separated by commas: an
/// identifier at every even offset, a comma at every odd one.
pub open spec fn comma_separated_idents(t: Seq<MacroToken>, i: int) -> bool {
    forall|k: int|
        i <= k < t.len() ==> (if (k - i) % 2 == 0 {
            is_plain_ident(#[trigger] t[k])
        } else {
            punct_at(t, k, ',')
        })
}

proof fn lemma_kinds_of_list(t: Seq<MacroToken>, i: int)
    requires
        0 <= i <= t.len(),
        comma_separated_idents(t, i),
    ensures
        parse_kinds(t, i) == Ok::<Seq<Seq<char>>, SpecError>(
            Seq::new(((t.len() - i + 1) / 2) as nat, |k: int| ident_text(t, i + 2 * k)),
        ),
    decreases t.len() - i,
{
    let n = ((t.len() - i + 1) / 2) as nat;
    let want = Seq::new(n, |k: int| ident_text(t, i + 2 * k));
    if i == t.len() {
        assert(want =~= Seq::<Seq<char>>::empty());
    } else {
        assert(is_plain_ident(t[i]));
        if i + 1 >= t.len() {
            assert(want =~= seq![ident_text(t, i)]);
        } else {
            assert(punct_at(t, i + 1, ','));
            assert forall|k: int| i + 2 <= k < t.len() implies (if (k - (i + 2)) % 2 == 0 {
                is_plain_ident(#[trigger] t[k])
            } else {
                punct_at(t, k, ',')
            }) by {
                assert((k - (i + 2)) % 2 == (k - i) % 2);
            }
            lemma_kinds_of_list(t, i + 2);
            let rest = Seq::new(((t.len() - (i + 2) + 1) / 2) as nat, |k: int| ident_text(t, i + 2 + 2 * k));
            assert(want =~= seq![ident_text(t, i)] + rest) by {
                assert forall|k: int| 0 <= k < want.len() implies want[k] == (seq![ident_text(t, i)] + rest)[k] by {
                    if k > 0 {
                        assert(i + 2 * k == i + 2 + 2 * (k - 1));
                    }
                }
            }
        }
    }
}

/// The braces of a status block list every kind written in them: identifiers
/// separated by commas, with or without a trailing comma, are read as
/// exactly those identifiers, in order, however many there are.
pub proof fn law_every_listed_kind_is_read(t: Seq<MacroToken>)
    requires
        comma_separated_idents(t, 0),
    ensures
        parse_kinds(t, 0) is Ok,
        parse_kinds(t, 0)->Ok_0.len() == (t.len() + 1) / 2,
        forall|k: int| 0 <= k < (t.len() + 1) / 2 ==> #[trigger] parse_kinds(t, 0)->Ok_0[k] == ident_text(t, 2 * k),
{
    lemma_kinds_of_list(t, 0);
}

/// The kinds of blocks written one after the other are the kinds of the
/// first blocks followed by those of the others: no block's kinds are lost,
/// whatever its status.
pub proof fn law_kinds_of_joined_blocks(a: Seq<(u16, Seq<Seq<char>>)>, b: Seq<(u16, Seq<Seq<char>>)>)
    ensures
        all_kinds(a + b) == all_kinds(a) + all_kinds(b),
    decreases b.len(),
{
    if b.len() == 0 {
        assert(a + b =~= a);
        assert(all_kinds(a) + all_kinds(b) =~= all_kinds(a));
    } else {
        assert((a + b).drop_last() =~= a + b.drop_last());
        assert((a + b).last() == b.last());
        law_kinds_of_joined_blocks(a, b.drop_last());
        assert(all_kinds(a + b) =~= all_kinds(a) + all_kinds(b));
    }
}

/// The kinds of a single block are the kinds written in it.
pub proof fn law_kinds_of_one_block(status: u16, kinds: Seq<Seq<char>>)
    ensures
        all_kinds(seq![(status, kinds)]) == kinds,
{
    assert(seq![(status, kinds)].drop_last() =~= Seq::<(u16, Seq<Seq<char>>)>::empty());
    assert(all_kinds(Seq::<(u16, Seq<Seq<char>>)>::empty()) == Seq::<Seq<char>>::empty());
    assert(Seq::<Seq<char>>::empty() + kinds =~= kinds);
}

/// Every kind declared in any block is among the kinds of the catalogue, and
/// there are as many kinds as the blocks declare together.
pub proof fn law_every_declared_kind_is_listed(blocks: Seq<(u16, Seq<Seq<char>>)>, i: int, k: int)
    requires
        0 <= i < blocks.len(),
        0 <= k < blocks[i].1.len(),
    ensures
        all_kinds(blocks).contains(blocks[i].1[k]),
        all_kinds(blocks).len() == all_kinds(blocks.take(i)).len() + blocks[i].1.len()
            + all_kinds(blocks.skip(i + 1)).len(),
{
    let before = blocks.take(i);
    let after = blocks.skip(i + 1);
    assert(blocks =~= before + seq![blocks[i]] + after);
    law_kinds_of_joined_blocks(before + seq![blocks[i]], after);
    law_kinds_of_joined_blocks(before, seq![blocks[i]]);
    law_kinds_of_one_block(blocks[i].0, blocks[i].1);
    let whole = all_kinds(before) + blocks[i].1 + all_kinds(after);
    assert(all_kinds(blocks) == whole);
    assert(whole[all_kinds(before).len() + k] == blocks[i].1[k]);
}

/// Whether `w` can begin a path: an identifier that is not a keyword, or one
/// of the path keywords `super`, `self`, `crate` and `Self`.
pub open spec fn path_word(w: Seq<char>) -> bool {
    !keywords().contains(w) || w == "super"@ || w == "self"@ || w == "crate"@ || w == "Self"@
}

proof fn lemma_one_segment(t: Seq<MacroToken>, i: int)
    requires
        0 <= i < t.len(),
        t[i] is Ident,
        path_word(ident_text(t, i)),
        i + 1 == t.len() || punct_at(t, i + 1, ','),
    ensures
        parse_segments(t, i) == Ok::<(Seq<(Seq<char>, Option<(usize, usize)>)>, int), SpecError>(
            (seq![(ident_text(t, i), None::<(usize, usize)>)], i + 1),
        ),
{
    assert(is_segment_word(t[i]));
    assert(!opens_arguments(t, i + 1));
    assert(!colon2_at(t, i + 1));
}

/// A path word followed by the end or by a comma is a path of that one
/// segment; two path words joined by `::` are a path of those two segments.
/// So `super`, `self`, `crate` and `Self` are read as segments as a plain
/// identifier is.
pub proof fn law_path_words_are_segments(t: Seq<MacroToken>, i: int)
    requires
        0 <= i < t.len(),
        t[i] is Ident,
        path_word(ident_text(t, i)),
    ensures
        (i + 1 == t.len() || punct_at(t, i + 1, ',')) ==> parse_segments(t, i) == Ok::<
            (Seq<(Seq<char>, Option<(usize, usize)>)>, int),
            SpecError,
        >((seq![(ident_text(t, i), None::<(usize, usize)>)], i + 1)),
        (colon2_at(t, i + 1) && i + 3 < t.len() && t[i + 3] is Ident && path_word(ident_text(t, i + 3))
            && (i + 4 == t.len() || punct_at(t, i + 4, ','))) ==> parse_segments(t, i) == Ok::<
            (Seq<(Seq<char>, Option<(usize, usize)>)>, int),
            SpecError,
        >(
            (
                seq![(ident_text(t, i), None::<(usize, usize)>), (ident_text(t, i + 3), None::<(usize, usize)>)],
                i + 4,
            ),
        ),
{
    assert(is_segment_word(t[i]));
    if i + 1 == t.len() || punct_at(t, i + 1, ',') {
        lemma_one_segment(t, i);
    }
    if colon2_at(t, i + 1) && i + 3 < t.len() && t[i + 3] is Ident && path_word(ident_text(t, i + 3))
        && (i + 4 == t.len() || punct_at(t, i + 4, ',')) {
        lemma_one_segment(t, i + 3);
        assert(!opens_arguments(t, i + 1));
        assert(!punct_at(t, i + 3, '<'));
        assert(seq![(ident_text(t, i), None::<(usize, usize)>)] + seq![(ident_text(t, i + 3), None::<(usize, usize)>)]
            =~= seq![(ident_text(t, i), None::<(usize, usize)>), (ident_text(t, i + 3), None::<(usize, usize)>)]);
    }
}

} // verus!
