use vstd::prelude::*;

use crate::assembler::{AsmError, Pos, Symbol};

verus! {

/// What the lexer is in the middle of on a line.
#[derive(Debug)]
pub enum LState {
    Default,
    Identifier(Pos, String),
    Number(Pos, String),
}

#[derive(Debug, Clone)]
pub struct Token {
    pub symbol: Symbol,
    pub token: TokenType,
}

#[derive(Debug, Clone, Copy, PartialEq, Eq, Structural)]
pub enum TokenType {
    Identifier,
    Colon,
    Number,
    Hash,
    LParen,
    RParen,
    CommaX,
    CommaY,
    Hex,
    Bin,
    Oct,
    Dot,
    Equals,
    NewLine,
}

/// A token as a mathematical value: its kind, its text and its span.
pub struct TokView {
    pub kind: TokenType,
    pub text: Seq<char>,
    pub line: nat,
    pub col: nat,
    pub end_line: nat,
    pub end_col: nat,
}

impl View for Token {
    type V = TokView;

    open spec fn view(&self) -> TokView {
        TokView {
            kind: self.token,
            text: self.symbol.text@,
            line: self.symbol.start.line as nat,
            col: self.symbol.start.col as nat,
            end_line: self.symbol.end.line as nat,
            end_col: self.symbol.end.col as nat,
        }
    }
}

impl Token {
    /// A copy of this token.
    pub fn duplicate(&self) -> (r: Token)
        ensures
            r@ == self@,
    {
        Token { symbol: self.symbol.duplicate(), token: self.token }
    }
}

pub open spec fn views(ts: Seq<Token>) -> Seq<TokView> {
    ts.map_values(|t: Token| t@)
}

/// Unicode white space, as `char::is_whitespace` documents it.
pub open spec fn is_space(c: char) -> bool {
    ('\t' <= c <= '\r') || c == ' ' || c == '\u{85}' || c == '\u{a0}' || c == '\u{1680}' || (
        '\u{2000}' <= c <= '\u{200a}') || c == '\u{2028}' || c == '\u{2029}' || c == '\u{202f}'
        || c == '\u{205f}' || c == '\u{3000}'
}

pub open spec fn is_digit(c: char) -> bool {
    '0' <= c <= '9'
}

pub open spec fn is_alpha(c: char) -> bool {
    ('a' <= c <= 'z') || ('A' <= c <= 'Z')
}

pub open spec fn is_ident_start(c: char) -> bool {
    is_alpha(c) || c == '_'
}

/// Characters that continue an identifier (`ident`) or a number (`!ident`).
pub open spec fn continues(c: char, ident: bool) -> bool {
    if ident {
        is_alpha(c) || is_digit(c) || c == '_'
    } else {
        is_alpha(c) || is_digit(c)
    }
}

/// The token that a character stands for by itself.
pub open spec fn punct(c: char) -> Option<TokenType> {
    if c == ':' {
        Some(TokenType::Colon)
    } else if c == '#' {
        Some(TokenType::Hash)
    } else if c == '(' {
        Some(TokenType::LParen)
    } else if c == ')' {
        Some(TokenType::RParen)
    } else if c == '.' {
        Some(TokenType::Dot)
    } else if c == '=' {
        Some(TokenType::Equals)
    } else {
        None
    }
}

/// The radix sigil that a character stands for.
pub open spec fn sigil(c: char) -> Option<TokenType> {
    if c == '$' {
        Some(TokenType::Hex)
    } else if c == '@' {
        Some(TokenType::Oct)
    } else if c == '%' {
        Some(TokenType::Bin)
    } else {
        None
    }
}

/// The end of the longest run of identifier (or number) characters from `i`.
pub open spec fn run_end(s: Seq<char>, i: nat, ident: bool) -> nat
    decreases s.len() - i,
{
    if i < s.len() && continues(s[i as int], ident) {
        run_end(s, i + 1, ident)
    } else {
        i
    }
}

/// A token of `text` on `line` from 1-indexed column `col`.
pub open spec fn tok(kind: TokenType, text: Seq<char>, line: nat, col: nat) -> TokView {
    TokView { kind, text, line, col, end_line: line, end_col: col + text.len() }
}

/// The token that ends a line.
pub open spec fn newline_tok(line: nat, col: nat) -> TokView {
    TokView {
        kind: TokenType::NewLine,
        text: seq!['\n'],
        line,
        col,
        end_line: line + 1,
        end_col: col,
    }
}

pub open spec fn prepend(a: Seq<TokView>, r: Result<Seq<TokView>, nat>) -> Result<
    Seq<TokView>,
    nat,
> {
    match r {
        Ok(ts) => Ok(a + ts),
        Err(e) => Err(e),
    }
}

/// The tokens of line `s` (number `line`) from character `i` on, each
/// maximal, ending with the line's NewLine; or the 0-indexed column of the
/// first character that cannot start a token. A `;` ends the line.
pub open spec fn lex_tail(s: Seq<char>, line: nat, i: nat) -> Result<Seq<TokView>, nat>
    decreases s.len() - i,
{
    if i >= s.len() || s[i as int] == ';' {
        Ok(seq![newline_tok(line, i + 1)])
    } else {
        let c = s[i as int];
        if is_space(c) {
            lex_tail(s, line, i + 1)
        } else if punct(c) is Some {
            prepend(seq![tok(punct(c)->0, seq![c], line, i + 1)], lex_tail(s, line, i + 1))
        } else if sigil(c) is Some {
            let e = run_end(s, i + 1, false);
            if e == i + 1 {
                prepend(seq![tok(sigil(c)->0, seq![c], line, i + 1)], lex_tail(s, line, i + 1))
            } else if i + 1 < e <= s.len() {
                prepend(
                    seq![
                        tok(sigil(c)->0, seq![c], line, i + 1),
                        tok(TokenType::Number, s.subrange(i as int + 1, e as int), line, i + 2),
                    ],
                    lex_tail(s, line, e),
                )
            } else {
                Err(i + 1)
            }
        } else if c == ',' {
            if i + 1 < s.len() && (s[i as int + 1] == 'x' || s[i as int + 1] == 'X') {
                prepend(
                    seq![tok(TokenType::CommaX, s.subrange(i as int, i as int + 2), line, i + 1)],
                    lex_tail(s, line, i + 2),
                )
            } else if i + 1 < s.len() && (s[i as int + 1] == 'y' || s[i as int + 1] == 'Y') {
                prepend(
                    seq![tok(TokenType::CommaY, s.subrange(i as int, i as int + 2), line, i + 1)],
                    lex_tail(s, line, i + 2),
                )
            } else {
                Err(i)
            }
        } else if is_digit(c) || is_ident_start(c) {
            let ident = !is_digit(c);
            let e = run_end(s, i, ident);
            if i < e <= s.len() {
                prepend(
                    seq![
                        tok(
                            if ident {
                                TokenType::Identifier
                            } else {
                                TokenType::Number
                            },
                            s.subrange(i as int, e as int),
                            line,
                            i + 1,
                        ),
                    ],
                    lex_tail(s, line, e),
                )
            } else {
                Err(i)
            }
        } else {
            Err(i)
        }
    }
}

/// The NewLine that opens every token stream.
pub open spec fn start_tok() -> TokView {
    TokView { kind: TokenType::NewLine, text: seq!['\n'], line: 0, col: 0, end_line: 0, end_col: 0 }
}

/// The tokens of the first `k` lines, or the (line, 0-indexed column) of the
/// first lexical error.
pub open spec fn lex_upto(lines: Seq<Seq<char>>, k: nat) -> Result<Seq<TokView>, (nat, nat)>
    decreases k,
{
    if k == 0 {
        Ok(seq![start_tok()])
    } else {
        match lex_upto(lines, (k - 1) as nat) {
            Err(e) => Err(e),
            Ok(ts) => match lex_tail(lines[k - 1], k, 0) {
                Ok(more) => Ok(ts + more),
                Err(c) => Err((k, c)),
            },
        }
    }
}

pub open spec fn lex_spec(lines: Seq<Seq<char>>) -> Result<Seq<TokView>, (nat, nat)> {
    lex_upto(lines, lines.len())
}

proof fn lemma_views_push(s: Seq<Token>, t: Token)
    ensures
        views(s.push(t)) == views(s).push(t@),
{
    assert(views(s.push(t)) =~= views(s).push(t@));
}

/// Once the first `k` lines hold an error, so do all longer prefixes.
proof fn lemma_lex_upto_err(lines: Seq<Seq<char>>, k: nat, m: nat)
    requires
        k <= m,
        lex_upto(lines, k) is Err,
    ensures
        lex_upto(lines, m) == lex_upto(lines, k),
    decreases m - k,
{
    if k < m {
        lemma_lex_upto_err(lines, k, (m - 1) as nat);
    }
}

proof fn lemma_run_end(s: Seq<char>, i: nat, ident: bool)
    requires
        i <= s.len(),
    ensures
        i <= run_end(s, i, ident) <= s.len(),
        forall|j: int| i <= j < run_end(s, i, ident) ==> continues(#[trigger] s[j], ident),
    decreases s.len() - i,
{
    if i < s.len() && continues(s[i as int], ident) {
        lemma_run_end(s, i + 1, ident);
    }
}

/// The end of the run of identifier (or number) characters of `s` from `i`.
fn scan_run(s: &str, n: usize, i: usize, ident: bool) -> (e: usize)
    requires
        n == s@.len(),
        i <= n,
    ensures
        e == run_end(s@, i as nat, ident),
{
    let mut j = i;
    while j < n && is_continue(s.get_char(j), ident)
        invariant
            n == s@.len(),
            i <= j <= n,
            run_end(s@, i as nat, ident) == run_end(s@, j as nat, ident),
        decreases n - j,
    {
        j = j + 1;
    }
    j
}

fn is_white(c: char) -> (r: bool)
    ensures
        r == is_space(c),
{
    ('\t' <= c && c <= '\r') || c == ' ' || c == '\u{85}' || c == '\u{a0}' || c == '\u{1680}'
        || ('\u{2000}' <= c && c <= '\u{200a}') || c == '\u{2028}' || c == '\u{2029}' || c
        == '\u{202f}' || c == '\u{205f}' || c == '\u{3000}'
}

fn is_continue(c: char, ident: bool) -> (r: bool)
    ensures
        r == continues(c, ident),
{
    (('a' <= c && c <= 'z') || ('A' <= c && c <= 'Z') || ('0' <= c && c <= '9')) || (ident && c
        == '_')
}

fn punct_kind(c: char) -> (r: Option<TokenType>)
    ensures
        r == punct(c),
{
    if c == ':' {
        Some(TokenType::Colon)
    } else if c == '#' {
        Some(TokenType::Hash)
    } else if c == '(' {
        Some(TokenType::LParen)
    } else if c == ')' {
        Some(TokenType::RParen)
    } else if c == '.' {
        Some(TokenType::Dot)
    } else if c == '=' {
        Some(TokenType::Equals)
    } else {
        None
    }
}

fn sigil_kind(c: char) -> (r: Option<TokenType>)
    ensures
        r == sigil(c),
{
    if c == '$' {
        Some(TokenType::Hex)
    } else if c == '@' {
        Some(TokenType::Oct)
    } else if c == '%' {
        Some(TokenType::Bin)
    } else {
        None
    }
}

/// The token of kind `kind` covering characters `from..to` of `s`.
fn make_token(s: &str, from: usize, to: usize, line: usize, kind: TokenType) -> (t: Token)
    requires
        from < to <= s@.len(),
        to < usize::MAX,
    ensures
        t@ == tok(kind, s@.subrange(from as int, to as int), line as nat, from as nat + 1),
{
    let text = String::from_str(s.substring_char(from, to));
    Token { symbol: Symbol::new(line, from + 1, text), token: kind }
}

/// Lexes one line, numbered `line`, onto the end of `tokens`.
fn lex_line(s: &str, line: usize, tokens: &mut Vec<Token>) -> (r: Result<(), AsmError>)
    requires
        line < usize::MAX,
        s@.len() + 2 < usize::MAX,
    ensures
        match lex_tail(s@, line as nat, 0) {
            Ok(ts) => r is Ok && views(final(tokens)@) == views(old(tokens)@) + ts,
            Err(c) => r matches Err(e) && e.symbol matches Some(sym) && sym.start == (Pos {
                line,
                col: (c + 1) as usize,
            }),
        },
{
    let n = s.unicode_len();
    let ghost start = views(tokens@);
    let ghost mut added: Seq<TokView> = seq![];
    let mut i: usize = 0;
    while i < n && s.get_char(i) != ';'
        invariant
            n == s@.len(),
            n + 2 < usize::MAX,
            line < usize::MAX,
            i <= n,
            views(tokens@) == start + added,
            lex_tail(s@, line as nat, 0) == prepend(added, lex_tail(s@, line as nat, i as nat)),
        decreases n - i,
    {
        let c = s.get_char(i);
        let pk = punct_kind(c);
        let sk = sigil_kind(c);
        if is_white(c) {
            i = i + 1;
        } else if let Some(kind) = pk {
            let t = make_token(s, i, i + 1, line, kind);
            proof {
                assert(s@.subrange(i as int, i + 1) =~= seq![c]);
                assert(seq![t@] + lex_tail(s@, line as nat, (i + 1) as nat)->Ok_0 =~= seq![t@]
                    + lex_tail(s@, line as nat, (i + 1) as nat)->Ok_0);
            }
            let ghost before = tokens@;
            tokens.push(t);
            proof {
                lemma_views_push(before, t);
            }
            proof {
                assert(views(tokens@) =~= start + (added + seq![t@]));
                assert(added + (seq![t@] + lex_tail(s@, line as nat, (i + 1) as nat)->Ok_0) =~= (
                added + seq![t@]) + lex_tail(s@, line as nat, (i + 1) as nat)->Ok_0);
                added = added + seq![t@];
            }
            i = i + 1;
        } else if let Some(kind) = sk {
            let e = scan_run(s, n, i + 1, false);
            proof {
                lemma_run_end(s@, (i + 1) as nat, false);
            }
            if e == i + 1 {
                let t = make_token(s, i, i + 1, line, kind);
                proof {
                    assert(s@.subrange(i as int, i + 1) =~= seq![c]);
                }
                let ghost before = tokens@;
                tokens.push(t);
                proof {
                    lemma_views_push(before, t);
                    let rest = lex_tail(s@, line as nat, (i + 1) as nat);
                    assert(views(tokens@) =~= start + (added + seq![t@]));
                    if rest is Ok {
                        assert(added + (seq![t@] + rest->Ok_0) =~= (added + seq![t@]) + rest->Ok_0);
                    }
                    added = added + seq![t@];
                }
                i = i + 1;
                continue;
            }
            let t1 = make_token(s, i, i + 1, line, kind);
            let t2 = make_token(s, i + 1, e, line, TokenType::Number);
            proof {
                assert(s@.subrange(i as int, i + 1) =~= seq![c]);
            }
            let ghost before = tokens@;
            tokens.push(t1);
            proof {
                lemma_views_push(before, t1);
            }
            let ghost before = tokens@;
            tokens.push(t2);
            proof {
                lemma_views_push(before, t2);
            }
            proof {
                let rest = lex_tail(s@, line as nat, e as nat);
                assert(views(tokens@) =~= start + (added + seq![t1@, t2@]));
                if rest is Ok {
                    assert(added + (seq![t1@, t2@] + rest->Ok_0) =~= (added + seq![t1@, t2@])
                        + rest->Ok_0);
                }
                added = added + seq![t1@, t2@];
            }
            i = e;
        } else if c == ',' {
            let next = if i + 1 < n {
                s.get_char(i + 1)
            } else {
                ' '
            };
            let kind = if next == 'x' || next == 'X' {
                TokenType::CommaX
            } else if next == 'y' || next == 'Y' {
                TokenType::CommaY
            } else {
                return Err(AsmError::new("Expected X or Y after a comma", Some(
                    error_symbol(s, n, line, i),
                )));
            };
            let t = make_token(s, i, i + 2, line, kind);
            let ghost before = tokens@;
            tokens.push(t);
            proof {
                lemma_views_push(before, t);
            }
            proof {
                let rest = lex_tail(s@, line as nat, (i + 2) as nat);
                assert(views(tokens@) =~= start + (added + seq![t@]));
                if rest is Ok {
                    assert(added + (seq![t@] + rest->Ok_0) =~= (added + seq![t@]) + rest->Ok_0);
                }
                added = added + seq![t@];
            }
            i = i + 2;
        } else if ('0' <= c && c <= '9') || ('a' <= c && c <= 'z') || ('A' <= c && c <= 'Z')
            || c == '_' {
            let ident = !('0' <= c && c <= '9');
            let e = scan_run(s, n, i, ident);
            proof {
                lemma_run_end(s@, i as nat, ident);
                lemma_run_end(s@, (i + 1) as nat, ident);
                assert(run_end(s@, i as nat, ident) == run_end(s@, (i + 1) as nat, ident));
            }
            let kind = if ident {
                TokenType::Identifier
            } else {
                TokenType::Number
            };
            let t = make_token(s, i, e, line, kind);
            let ghost before = tokens@;
            tokens.push(t);
            proof {
                lemma_views_push(before, t);
            }
            proof {
                let rest = lex_tail(s@, line as nat, e as nat);
                assert(views(tokens@) =~= start + (added + seq![t@]));
                if rest is Ok {
                    assert(added + (seq![t@] + rest->Ok_0) =~= (added + seq![t@]) + rest->Ok_0);
                }
                added = added + seq![t@];
            }
            i = e;
        } else {
            return Err(AsmError::new("Invalid character", Some(error_symbol(s, n, line, i))));
        }
    }
    let nl = Token {
        symbol: Symbol {
            start: Pos { line, col: i + 1 },
            end: Pos { line: line + 1, col: i + 1 },
            text: String::from_str("\n"),
        },
        token: TokenType::NewLine,
    };
    proof {
        reveal_strlit("\n");
        assert(nl@.text =~= seq!['\n']);
        assert(nl@ == newline_tok(line as nat, (i + 1) as nat));
    }
    let ghost before = tokens@;
    tokens.push(nl);
    proof {
        lemma_views_push(before, nl);
    }
    proof {
        assert(views(tokens@) =~= start + (added + seq![nl@]));
    }
    Ok(())
}

/// The symbol that an error at 0-indexed column `i` of line `line` points at.
fn error_symbol(s: &str, n: usize, line: usize, i: usize) -> (sym: Symbol)
    requires
        n == s@.len(),
        i <= n,
        n + 2 < usize::MAX,
    ensures
        sym.start == (Pos { line, col: (i + 1) as usize }),
{
    let to = if i < n {
        i + 1
    } else {
        i
    };
    Symbol::new(line, i + 1, String::from_str(s.substring_char(i, to)))
}

/// Splits source lines into tokens. The stream opens with a NewLine and
/// holds one NewLine at the end of each line; the first character that can
/// start no token is an error that points at it.
pub fn lex(input: &Vec<String>) -> (r: Result<Vec<Token>, AsmError>)
    requires
        input.len() < usize::MAX,
        forall|k: int| 0 <= k < input.len() ==> input[k]@.len() + 2 < usize::MAX,
    ensures
        match lex_spec(input@.map_values(|l: String| l@)) {
            Ok(ts) => r matches Ok(toks) && views(toks@) == ts,
            Err((line, c)) => r matches Err(e) && e.symbol matches Some(sym) && sym.start == (Pos {
                line: line as usize,
                col: (c + 1) as usize,
            }),
        },
{
    let ghost lines = input@.map_values(|l: String| l@);
    let mut tokens: Vec<Token> = Vec::new();
    let first = Token {
        symbol: Symbol {
            start: Pos { line: 0, col: 0 },
            end: Pos { line: 0, col: 0 },
            text: String::from_str("\n"),
        },
        token: TokenType::NewLine,
    };
    let ghost before = tokens@;
    tokens.push(first);
    proof {
        lemma_views_push(before, first);
        reveal_strlit("\n");
        assert(first@.text =~= seq!['\n']);
        assert(views(tokens@) =~= seq![start_tok()]);
    }
    let mut k: usize = 0;
    while k < input.len()
        invariant
            k <= input.len() < usize::MAX,
            forall|j: int| 0 <= j < input.len() ==> input[j]@.len() + 2 < usize::MAX,
            lines == input@.map_values(|l: String| l@),
            lex_upto(lines, k as nat) == Ok::<Seq<TokView>, (nat, nat)>(views(tokens@)),
        decreases input.len() - k,
    {
        let s = input[k].as_str();
        assert(lines[k as int] == s@);
        let r = lex_line(s, k + 1, &mut tokens);
        match r {
            Ok(()) => {},
            Err(e) => {
                proof {
                    lemma_lex_upto_err(lines, (k + 1) as nat, lines.len());
                }
                return Err(e);
            },
        }
        k = k + 1;
    }
    Ok(tokens)
}

} // verus!
