use vstd::prelude::*;

pub mod lexer;
pub mod parser;

use crate::assembler::lexer::lex;
use crate::assembler::parser::parse;
use std::collections::BTreeMap;

verus! {

/// A 1-indexed (line, column) position in the source.
#[derive(Debug, Clone, Copy, PartialEq, Eq, Structural)]
pub struct Pos {
    pub line: usize,
    pub col: usize,
}

/// A span of source text, with the text it covers.
#[derive(Debug, Clone)]
pub struct Symbol {
    pub start: Pos,
    pub end: Pos,
    pub text: String,
}

impl Symbol {
    /// A one-line symbol for `text`, starting at `line`:`col`.
    pub fn new(line: usize, col: usize, text: String) -> (r: Symbol)
        requires
            col + text@.len() <= usize::MAX,
        ensures
            r.start == (Pos { line, col }),
            r.end == (Pos { line, col: (col + text@.len()) as usize }),
            r.text@ == text@,
    {
        let n = text.as_str().unicode_len();
        Symbol { start: Pos { line, col }, end: Pos { line, col: col + n }, text }
    }

    /// A copy of this symbol.
    pub fn duplicate(&self) -> (r: Symbol)
        ensures
            r.start == self.start,
            r.end == self.end,
            r.text@ == self.text@,
    {
        Symbol { start: self.start, end: self.end, text: self.text.clone() }
    }
}

/// Why assembling failed, and where, when a place in the source is known.
#[derive(Debug)]
pub struct AsmError {
    pub symbol: Option<Symbol>,
    pub reason: String,
}

impl AsmError {
    pub fn new(reason: &str, symbol: Option<Symbol>) -> (r: AsmError)
        ensures
            r.reason@ == reason@,
            r.symbol == symbol,
    {
        AsmError { symbol, reason: String::from_str(reason) }
    }
}

/// What source lines assemble to: `None` for a source with an error.
pub open spec fn assemble_source(lines: Seq<Seq<char>>) -> Option<Map<u16, u8>> {
    match lexer::lex_spec(lines) {
        Ok(t) => parser::assemble_tokens(t),
        Err(_) => None,
    }
}

/// Assembles source lines into a sparse address-to-byte map: the lexer's
/// tokens, handed to the parser.
pub fn assemble(input: &Vec<String>) -> (r: Result<BTreeMap<u16, u8>, AsmError>)
    requires
        input.len() < usize::MAX,
        forall|k: int| 0 <= k < input.len() ==> input[k]@.len() + 2 < usize::MAX,
    ensures
        match assemble_source(input@.map_values(|l: String| l@)) {
            Some(m) => r matches Ok(x) && x@ == m,
            None => r is Err,
        },
{
    let tokens = lex(input)?;
    parse(tokens)
}

} // verus!
