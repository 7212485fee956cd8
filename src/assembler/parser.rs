use vstd::prelude::*;

use crate::assembler::lexer::{views, TokView, Token, TokenType};
use crate::assembler::{AsmError, Symbol};
use crate::instruct::{
    letter_matches, mode_size, opcode_of, operand_len, spells, supports, AddressType, Instruct,
};
use std::collections::BTreeMap;

verus! {

broadcast use vstd::laws_cmp::group_laws_cmp;

/// The base a number literal is written in.
#[derive(Debug, Clone, Copy, PartialEq, Eq, Structural)]
pub enum Radix {
    Hex,
    Dec,
    Oct,
    Bin,
}

/// A parsed number literal. `long` marks a value that needs two bytes, or
/// whose literal has more digits than one byte needs in its radix.
#[derive(Debug)]
pub struct Value {
    pub long: bool,
    pub symbol: Symbol,
    pub value: i32,
}

/// A span of source text as a mathematical value.
pub struct SymV {
    pub text: Seq<char>,
    pub line: nat,
    pub col: nat,
    pub end_line: nat,
    pub end_col: nat,
}

/// The span of a token.
pub open spec fn sym_of(t: TokView) -> SymV {
    SymV { text: t.text, line: t.line, col: t.col, end_line: t.end_line, end_col: t.end_col }
}

/// The span of a symbol.
pub open spec fn sym_view(s: Symbol) -> SymV {
    SymV {
        text: s.text@,
        line: s.start.line as nat,
        col: s.start.col as nat,
        end_line: s.end.line as nat,
        end_col: s.end.col as nat,
    }
}

/// A number literal as a mathematical value, with the span of its digits.
pub struct ValueV {
    pub long: bool,
    pub value: int,
    pub text: Seq<char>,
    pub sym: SymV,
}

impl View for Value {
    type V = ValueV;

    open spec fn view(&self) -> ValueV {
        ValueV {
            long: self.long,
            value: self.value as int,
            text: self.symbol.text@,
            sym: sym_view(self.symbol),
        }
    }
}

pub open spec fn base_of(r: Radix) -> int {
    match r {
        Radix::Bin => 2,
        Radix::Oct => 8,
        Radix::Dec => 10,
        Radix::Hex => 16,
    }
}

/// How many digits one byte takes at most in radix `r`.
pub open spec fn byte_width(r: Radix) -> int {
    match r {
        Radix::Bin => 8,
        Radix::Oct => 4,
        Radix::Dec => 3,
        Radix::Hex => 2,
    }
}

/// The value of a digit character; 36 for a character that is no digit.
pub open spec fn digit_value(c: char) -> int {
    if '0' <= c <= '9' {
        c as int - '0' as int
    } else if 'a' <= c <= 'z' {
        c as int - 'a' as int + 10
    } else if 'A' <= c <= 'Z' {
        c as int - 'A' as int + 10
    } else {
        36
    }
}

/// The value of the digits `s`, most significant first, in base `base`.
pub open spec fn digits_value(s: Seq<char>, base: int) -> int
    decreases s.len(),
{
    if s.len() == 0 {
        0
    } else {
        digits_value(s.drop_last(), base) * base + digit_value(s.last())
    }
}

pub open spec fn all_digits(s: Seq<char>, base: int) -> bool {
    forall|i: int| 0 <= i < s.len() ==> digit_value(#[trigger] s[i]) < base
}

/// What a Number token reads as in radix `r`: `None` when the token is no
/// Number, holds a character that is no digit of the radix, or exceeds
/// `i32::MAX`.
pub open spec fn number_spec(t: TokView, r: Radix) -> Option<ValueV> {
    let v = digits_value(t.text, base_of(r));
    if t.kind == TokenType::Number && t.text.len() > 0 && all_digits(t.text, base_of(r)) && v
        <= i32::MAX {
        Some(
            ValueV {
                long: v > 255 || t.text.len() > byte_width(r),
                value: v,
                text: t.text,
                sym: sym_of(t),
            },
        )
    } else {
        None
    }
}

proof fn lemma_digits_nonneg(s: Seq<char>, base: int)
    requires
        all_digits(s, base),
        base >= 1,
    ensures
        digits_value(s, base) >= 0,
    decreases s.len(),
{
    if s.len() > 0 {
        assert(all_digits(s.drop_last(), base)) by {
            assert forall|i: int| 0 <= i < s.drop_last().len() implies digit_value(
                #[trigger] s.drop_last()[i],
            ) < base by {
                assert(s.drop_last()[i] == s[i]);
            }
        }
        lemma_digits_nonneg(s.drop_last(), base);
        let d = digits_value(s.drop_last(), base);
        assert(d * base >= 0) by (nonlinear_arith)
            requires
                d >= 0,
                base >= 1,
        ;
    }
}

/// A prefix of a digit string is worth no more than the whole.
proof fn lemma_digits_prefix(s: Seq<char>, base: int, k: int)
    requires
        all_digits(s, base),
        base >= 1,
        0 <= k <= s.len(),
    ensures
        digits_value(s.subrange(0, k), base) <= digits_value(s, base),
    decreases s.len() - k,
{
    if k < s.len() {
        let p = s.subrange(0, k + 1);
        assert(all_digits(p, base)) by {
            assert forall|i: int| 0 <= i < p.len() implies digit_value(#[trigger] p[i]) < base by {
                assert(p[i] == s[i]);
            }
        }
        assert(p.drop_last() =~= s.subrange(0, k));
        lemma_digits_nonneg(p.drop_last(), base);
        let d = digits_value(p.drop_last(), base);
        assert(d * base >= d) by (nonlinear_arith)
            requires
                d >= 0,
                base >= 1,
        ;
        lemma_digits_prefix(s, base, k + 1);
    } else {
        assert(s.subrange(0, k) =~= s);
    }
}

fn digit_of(c: char) -> (d: u32)
    ensures
        d as int == digit_value(c),
{
    if '0' <= c && c <= '9' {
        (c as u32) - ('0' as u32)
    } else if 'a' <= c && c <= 'z' {
        (c as u32) - ('a' as u32) + 10
    } else if 'A' <= c && c <= 'Z' {
        (c as u32) - ('A' as u32) + 10
    } else {
        36
    }
}

/// Reads a Number token in radix `radix`.
pub fn parse_number(token: Token, radix: Radix) -> (r: Result<Value, AsmError>)
    ensures
        match number_spec(token@, radix) {
            Some(v) => r matches Ok(val) && val@ == v,
            None => r matches Err(e) && e.symbol matches Some(es) && sym_view(es) == sym_of(token@),
        },
{
    if token.token != TokenType::Number {
        return Err(AsmError::new("Expected a number", Some(token.symbol)));
    }
    let base: u64 = match radix {
        Radix::Bin => 2,
        Radix::Oct => 8,
        Radix::Dec => 10,
        Radix::Hex => 16,
    };
    let width: usize = match radix {
        Radix::Bin => 8,
        Radix::Oct => 4,
        Radix::Dec => 3,
        Radix::Hex => 2,
    };
    let text = token.symbol.text.as_str();
    let n = text.unicode_len();
    let ghost s = text@;
    assert(s == token@.text);
    assert(base as int == base_of(radix));
    if n == 0 {
        return Err(AsmError::new("Expected a number", Some(token.symbol)));
    }
    let mut acc: u64 = 0;
    let mut k: usize = 0;
    while k < n
        invariant
            n == s.len(),
            s == text@,
            s == token@.text,
            token.token == TokenType::Number,
            k <= n,
            base == base_of(radix),
            acc as int == digits_value(s.subrange(0, k as int), base as int),
            acc <= i32::MAX,
            all_digits(s.subrange(0, k as int), base as int),
        decreases n - k,
    {
        let d = digit_of(text.get_char(k));
        let ghost p = s.subrange(0, k + 1);
        assert(p.drop_last() =~= s.subrange(0, k as int));
        assert(p.last() == s[k as int]);
        if d as u64 >= base {
            proof {
                assert(!all_digits(s, base as int)) by {
                    assert(digit_value(s[k as int]) >= base);
                }
            }
            return Err(AsmError::new("Can't parse number", Some(token.symbol)));
        }
        acc = acc * base + d as u64;
        proof {
            assert(all_digits(p, base as int)) by {
                assert forall|i: int| 0 <= i < p.len() implies digit_value(#[trigger] p[i])
                    < base by {
                    if i < k {
                        assert(p[i] == s.subrange(0, k as int)[i]);
                    }
                }
            }
        }
        if acc > 0x7fff_ffff {
            proof {
                if all_digits(s, base as int) {
                    lemma_digits_prefix(s, base as int, k + 1);
                }
            }
            return Err(AsmError::new("Number too large", Some(token.symbol)));
        }
        k = k + 1;
    }
    assert(s.subrange(0, n as int) =~= s);
    let long = acc > 255 || n > width;
    Ok(Value { long, symbol: token.symbol, value: acc as i32 })
}

/// The assembler directives.
#[derive(Debug, Clone, Copy, PartialEq, Eq, Structural)]
pub enum Directive {
    ORG,
    BYTES,
}

impl Directive {
    /// The directive named `val` (upper case).
    pub fn from_str(val: &str) -> (r: Option<Directive>)
        ensures
            r == (if val@ == seq!['O', 'R', 'G'] {
                Some(Directive::ORG)
            } else if val@ == seq!['B', 'Y', 'T', 'E', 'S'] {
                Some(Directive::BYTES)
            } else {
                None
            }),
    {
        let n = val.unicode_len();
        if n == 3 && val.get_char(0) == 'O' && val.get_char(1) == 'R' && val.get_char(2) == 'G' {
            assert(val@ =~= seq!['O', 'R', 'G']);
            Some(Directive::ORG)
        } else if n == 5 && val.get_char(0) == 'B' && val.get_char(1) == 'Y' && val.get_char(2)
            == 'T' && val.get_char(3) == 'E' && val.get_char(4) == 'S' {
            assert(val@ =~= seq!['B', 'Y', 'T', 'E', 'S']);
            Some(Directive::BYTES)
        } else {
            None
        }
    }
}

/// `text` is the word `define` in any ASCII case.
pub open spec fn is_define(text: Seq<char>) -> bool {
    &&& text.len() == 6
    &&& letter_matches(text[0], 'D')
    &&& letter_matches(text[1], 'E')
    &&& letter_matches(text[2], 'F')
    &&& letter_matches(text[3], 'I')
    &&& letter_matches(text[4], 'N')
    &&& letter_matches(text[5], 'E')
}

/// A word that cannot name a label: `define` or a mnemonic.
pub open spec fn is_keyword_spec(text: Seq<char>) -> bool {
    is_define(text) || exists|i: Instruct| crate::instruct::spells(text, i)
}

fn letter_is(c: char, upper: char) -> (r: bool)
    requires
        'A' <= upper <= 'Z',
    ensures
        r == letter_matches(c, upper),
{
    c == upper || (c as u32) == (upper as u32) + 32
}

fn define_word(text: &str) -> (r: bool)
    ensures
        r == is_define(text@),
{
    text.unicode_len() == 6 && letter_is(text.get_char(0), 'D') && letter_is(text.get_char(1), 'E')
        && letter_is(text.get_char(2), 'F') && letter_is(text.get_char(3), 'I') && letter_is(
        text.get_char(4),
        'N',
    ) && letter_is(text.get_char(5), 'E')
}

fn is_keyword(text: &str) -> (r: bool)
    ensures
        r == is_keyword_spec(text@),
{
    define_word(text) || Instruct::from_str(text).is_some()
}

/// The token, unless the statement ended (no token, or a NewLine) first.
fn throw_newline(token: Option<Token>) -> (r: Result<Token, AsmError>)
    ensures
        match token {
            Some(t) if t.token != TokenType::NewLine => r matches Ok(u) && u@ == t@,
            _ => r is Err,
        },
{
    match token {
        Some(t) => {
            if t.token == TokenType::NewLine {
                Err(AsmError::new("Early EOF", Some(t.symbol)))
            } else {
                Ok(t)
            }
        },
        None => Err(AsmError::new("Early EOF", None)),
    }
}

/// `m` with `bytes` written from address `addr` on.
pub open spec fn place(m: Map<u16, u8>, addr: int, bytes: Seq<u8>) -> Map<u16, u8>
    decreases bytes.len(),
{
    if bytes.len() == 0 {
        m
    } else {
        place(m.insert(addr as u16, bytes[0]), addr + 1, bytes.drop_first())
    }
}

/// Writes `values` into `tree` from address `start` on.
fn b_ext(tree: &mut BTreeMap<u16, u8>, start: u16, values: &[u8])
    requires
        start + values@.len() <= 0x10000,
    ensures
        final(tree)@ == place(old(tree)@, start as int, values@),
{
    let mut k: usize = 0;
    assert(values@.subrange(0, values@.len() as int) =~= values@);
    while k < values.len()
        invariant
            start + values@.len() <= 0x10000,
            k <= values@.len(),
            place(old(tree)@, start as int, values@) == place(
                tree@,
                start + k,
                values@.subrange(k as int, values@.len() as int),
            ),
        decreases values@.len() - k,
    {
        let ghost rest = values@.subrange(k as int, values@.len() as int);
        assert(rest.drop_first() =~= values@.subrange(k + 1, values@.len() as int));
        tree.insert(start + k as u16, values[k]);
        k = k + 1;
    }
}

/// The kind of the token at `i`, if there is one.
pub open spec fn kind_at(t: Seq<TokView>, i: int) -> Option<TokenType> {
    if 0 <= i < t.len() {
        Some(t[i].kind)
    } else {
        None
    }
}

pub open spec fn is_sigil(k: TokenType) -> bool {
    k == TokenType::Hex || k == TokenType::Oct || k == TokenType::Bin
}

pub open spec fn radix_of(k: TokenType) -> Radix {
    match k {
        TokenType::Hex => Radix::Hex,
        TokenType::Oct => Radix::Oct,
        TokenType::Bin => Radix::Bin,
        _ => Radix::Dec,
    }
}

/// How many tokens a number literal starting at `i` takes: a radix sigil
/// and its digits, or bare decimal digits.
pub open spec fn number_len(t: Seq<TokView>, i: int) -> int {
    if kind_at(t, i) matches Some(k) && is_sigil(k) {
        2
    } else {
        1
    }
}

/// The number literal at `i`, optionally prefixed by a radix sigil.
pub open spec fn number_at(t: Seq<TokView>, i: int) -> Option<ValueV> {
    match kind_at(t, i) {
        Some(k) => if is_sigil(k) {
            if i + 1 < t.len() {
                number_spec(t[i + 1], radix_of(k))
            } else {
                None
            }
        } else {
            number_spec(t[i], Radix::Dec)
        },
        None => None,
    }
}

/// An instruction's operand: a mode with its value, or a label reference.
pub enum OperandV {
    Mode(AddressType, Option<ValueV>),
    Label(SymV),
}

/// Zero page or absolute, as the value's width asks.
pub open spec fn by_width(long: bool, short_mode: AddressType, long_mode: AddressType) -> AddressType {
    if long {
        long_mode
    } else {
        short_mode
    }
}

/// The operand that follows a mnemonic, starting at token `i`, and the index
/// of the first token after it.
pub open spec fn operand_at(t: Seq<TokView>, i: int) -> Option<(OperandV, int)> {
    match kind_at(t, i) {
        None => Some((OperandV::Mode(AddressType::Impl, None), i + 1)),
        Some(TokenType::NewLine) => Some((OperandV::Mode(AddressType::Impl, None), i + 1)),
        Some(TokenType::Hash) => match number_at(t, i + 1) {
            Some(v) => if v.long {
                None
            } else {
                Some((OperandV::Mode(AddressType::Immediate, Some(v)), i + 1 + number_len(t, i + 1)))
            },
            None => None,
        },
        Some(TokenType::LParen) => match number_at(t, i + 1) {
            Some(v) => {
                let j = i + 1 + number_len(t, i + 1);
                if kind_at(t, j) == Some(TokenType::RParen) {
                    if kind_at(t, j + 1) == Some(TokenType::CommaY) {
                        Some((OperandV::Mode(AddressType::IndirectY, Some(v)), j + 2))
                    } else {
                        Some((OperandV::Mode(AddressType::Indirect, Some(v)), j + 1))
                    }
                } else if kind_at(t, j) == Some(TokenType::CommaX) && kind_at(t, j + 1) == Some(
                    TokenType::RParen,
                ) {
                    Some((OperandV::Mode(AddressType::IndirectX, Some(v)), j + 2))
                } else {
                    None
                }
            },
            None => None,
        },
        Some(TokenType::Identifier) => if is_keyword_spec(t[i].text) {
            Some((OperandV::Mode(AddressType::Impl, None), i))
        } else {
            Some((OperandV::Label(sym_of(t[i])), i + 1))
        },
        Some(k) => if k == TokenType::Number || is_sigil(k) {
            match number_at(t, i) {
                Some(v) => {
                    let j = i + number_len(t, i);
                    if kind_at(t, j) == Some(TokenType::CommaX) {
                        Some(
                            (
                                OperandV::Mode(
                                    by_width(v.long, AddressType::ZeroPageX, AddressType::AbsoluteX),
                                    Some(v),
                                ),
                                j + 1,
                            ),
                        )
                    } else if kind_at(t, j) == Some(TokenType::CommaY) {
                        Some(
                            (
                                OperandV::Mode(
                                    by_width(v.long, AddressType::ZeroPageY, AddressType::AbsoluteY),
                                    Some(v),
                                ),
                                j + 1,
                            ),
                        )
                    } else {
                        Some(
                            (
                                OperandV::Mode(
                                    by_width(v.long, AddressType::ZeroPage, AddressType::Absolute),
                                    Some(v),
                                ),
                                j,
                            ),
                        )
                    }
                },
                None => None,
            }
        } else {
            None
        },
    }
}

/// The mnemonic that `text` spells, in any ASCII case.
pub open spec fn mnemonic_of(text: Seq<char>) -> Option<Instruct> {
    if exists|i: Instruct| spells(text, i) {
        Some(choose|i: Instruct| spells(text, i))
    } else {
        None
    }
}

/// One statement of the source.
pub enum Stmt {
    /// An empty line.
    Skip,
    /// `name:` marks the current address.
    Label(Seq<char>),
    Ins(SymV, Instruct, OperandV),
    /// `.ORG` moves the program counter.
    Org(int),
    /// `.BYTES` emits bytes verbatim.
    Bytes(Seq<u8>),
}

/// The values of a `.BYTES` list from token `i` on, after those in `acc`,
/// and the index of the first token after the list. The list runs on over a
/// line end when the next line starts with a number.
pub open spec fn bytes_at(t: Seq<TokView>, i: int, acc: Seq<u8>) -> Option<(Seq<u8>, int)>
    decreases t.len() - i,
{
    if i < 0 || i >= t.len() {
        Some((acc, i))
    } else if t[i].kind == TokenType::Number || is_sigil(t[i].kind) {
        match number_at(t, i) {
            Some(v) => if v.long {
                None
            } else {
                bytes_at(t, i + number_len(t, i), acc.push(v.value as u8))
            },
            None => None,
        }
    } else if t[i].kind == TokenType::NewLine {
        if kind_at(t, i + 1) matches Some(k) && (k == TokenType::Number || is_sigil(k)) {
            bytes_at(t, i + 1, acc)
        } else {
            Some((acc, i + 1))
        }
    } else {
        None
    }
}

/// The statement that starts at token `i`, and the index of the first token
/// after it.
pub open spec fn statement_at(t: Seq<TokView>, i: int) -> Option<(Stmt, int)> {
    match kind_at(t, i) {
        Some(TokenType::NewLine) => Some((Stmt::Skip, i + 1)),
        Some(TokenType::Identifier) => {
            let x = t[i].text;
            match mnemonic_of(x) {
                Some(ins) => match operand_at(t, i + 1) {
                    Some((o, j)) => Some((Stmt::Ins(sym_of(t[i]), ins, o), j)),
                    None => None,
                },
                None => if !is_define(x) && kind_at(t, i + 1) == Some(TokenType::Colon) {
                    Some((Stmt::Label(x), i + 2))
                } else {
                    None
                },
            }
        },
        Some(TokenType::Dot) => if kind_at(t, i + 1) == Some(TokenType::Identifier) {
            let name = t[i + 1].text;
            if name == seq!['O', 'R', 'G'] {
                let j = if kind_at(t, i + 2) == Some(TokenType::Equals) {
                    i + 3
                } else {
                    i + 2
                };
                match number_at(t, j) {
                    Some(v) => Some((Stmt::Org(v.value), j + number_len(t, j))),
                    None => None,
                }
            } else if name == seq!['B', 'Y', 'T', 'E', 'S'] {
                match bytes_at(t, i + 2, seq![]) {
                    Some((b, j)) => Some((Stmt::Bytes(b), j)),
                    None => None,
                }
            } else {
                None
            }
        } else {
            None
        },
        _ => None,
    }
}

/// An instruction placed by the first pass, its label not yet resolved.
pub struct OpV {
    pub sym: SymV,
    pub ins: Instruct,
    pub addr: int,
    pub operand: OperandV,
}

/// What the first pass has gathered.
pub struct Pass1 {
    pub pc: int,
    pub labels: Map<Seq<char>, int>,
    pub ops: Seq<OpV>,
    pub bytes: Map<u16, u8>,
}

/// Bytes an instruction takes: as its mode says, or for a label reference
/// two if the mnemonic branches and three otherwise.
pub open spec fn op_size(ins: Instruct, o: OperandV) -> int {
    match o {
        OperandV::Mode(m, _) => mode_size(m) as int,
        OperandV::Label(_) => if supports(ins, AddressType::Relative) {
            2
        } else {
            3
        },
    }
}

/// The first pass after statement `s`; `None` where an address would pass
/// 0xFFFF.
pub open spec fn apply(st: Pass1, s: Stmt) -> Option<Pass1> {
    match s {
        Stmt::Skip => Some(st),
        Stmt::Label(x) => Some(Pass1 { labels: st.labels.insert(x, st.pc), ..st }),
        Stmt::Ins(sym, ins, o) => if st.pc + op_size(ins, o) <= 0x10000 {
            Some(
                Pass1 {
                    pc: st.pc + op_size(ins, o),
                    ops: st.ops.push(OpV { sym, ins, addr: st.pc, operand: o }),
                    ..st
                },
            )
        } else {
            None
        },
        Stmt::Org(v) => if 0 <= v <= 0xFFFF {
            Some(Pass1 { pc: v, ..st })
        } else {
            None
        },
        Stmt::Bytes(b) => if st.pc + b.len() <= 0x10000 {
            Some(Pass1 { pc: st.pc + b.len(), bytes: place(st.bytes, st.pc, b), ..st })
        } else {
            None
        },
    }
}

/// The first pass over the statements from token `i` on.
pub open spec fn pass1(t: Seq<TokView>, i: int, st: Pass1) -> Option<Pass1>
    decreases t.len() + 1 - i,
{
    if i < 0 || i >= t.len() {
        Some(st)
    } else {
        match statement_at(t, i) {
            Some((s, j)) => if i < j <= t.len() + 1 {
                match apply(st, s) {
                    Some(st2) => pass1(t, j, st2),
                    None => None,
                }
            } else {
                None
            },
            None => None,
        }
    }
}

/// Where assembly starts.
pub const START_ADDRESS: u32 = 0x0600;

pub open spec fn pass1_start() -> Pass1 {
    Pass1 { pc: START_ADDRESS as int, labels: Map::empty(), ops: seq![], bytes: Map::empty() }
}

pub open spec fn low_byte(a: int) -> u8 {
    (a % 256) as u8
}

pub open spec fn high_byte(a: int) -> u8 {
    (a / 256) as u8
}

/// The bytes of one instruction: its opcode, then its operand, two-byte
/// operands low byte first. A label becomes an absolute address where the
/// mnemonic has one, else a branch offset from the next instruction.
pub open spec fn encode(op: OpV, labels: Map<Seq<char>, int>) -> Option<Seq<u8>> {
    match op.operand {
        OperandV::Label(x) => if !labels.contains_key(x.text) {
            None
        } else {
            let a = labels[x.text];
            match opcode_of(op.ins, AddressType::Absolute) {
                Some(c) => if 0 <= a <= 0xFFFF {
                    Some(seq![c, low_byte(a), high_byte(a)])
                } else {
                    None
                },
                None => match opcode_of(op.ins, AddressType::Relative) {
                    Some(c) => {
                        let d = a - (op.addr + 2);
                        if -128 <= d <= 127 {
                            Some(seq![c, low_byte(d + 256)])
                        } else {
                            None
                        }
                    },
                    None => None,
                },
            }
        },
        OperandV::Mode(m, v) => match m {
            AddressType::Impl | AddressType::Accumulator => match v {
                Some(_) => None,
                None => match opcode_of(op.ins, AddressType::Impl) {
                    Some(c) => Some(seq![c]),
                    None => match opcode_of(op.ins, AddressType::Accumulator) {
                        Some(c) => Some(seq![c]),
                        None => None,
                    },
                },
            },
            AddressType::Relative => None,
            _ => match (v, opcode_of(op.ins, m)) {
                (Some(v), Some(c)) => if operand_len(m) == 2 {
                    if 0 <= v.value <= 0xFFFF {
                        Some(seq![c, low_byte(v.value), high_byte(v.value)])
                    } else {
                        None
                    }
                } else if 0 <= v.value <= 0xFF {
                    Some(seq![c, v.value as u8])
                } else {
                    None
                },
                _ => None,
            },
        },
    }
}

/// Where the error points when `op` cannot be encoded: the label for an
/// undefined label, an absolute label address past 0xFFFF or a branch out of
/// range; the value for a value out of range, a value where none belongs or
/// a mode the mnemonic lacks; the mnemonic otherwise.
pub open spec fn encode_error(op: OpV, labels: Map<Seq<char>, int>) -> SymV {
    match op.operand {
        OperandV::Label(x) => if !labels.contains_key(x.text) || opcode_of(
            op.ins,
            AddressType::Absolute,
        ) is Some || opcode_of(op.ins, AddressType::Relative) is Some {
            x
        } else {
            op.sym
        },
        OperandV::Mode(m, v) => match v {
            Some(x) => if m == AddressType::Relative {
                op.sym
            } else {
                x.sym
            },
            None => op.sym,
        },
    }
}

/// Where the error of the first instruction of `ops` that cannot be
/// encoded points.
pub open spec fn emit_error(ops: Seq<OpV>, labels: Map<Seq<char>, int>) -> SymV
    decreases ops.len(),
{
    if ops.len() == 0 {
        SymV { text: seq![], line: 0, col: 0, end_line: 0, end_col: 0 }
    } else if encode(ops[0], labels) is None {
        encode_error(ops[0], labels)
    } else {
        emit_error(ops.drop_first(), labels)
    }
}

/// The map after writing each of `ops`, in order, over `m`.
pub open spec fn emit(ops: Seq<OpV>, labels: Map<Seq<char>, int>, m: Map<u16, u8>) -> Option<
    Map<u16, u8>,
>
    decreases ops.len(),
{
    if ops.len() == 0 {
        Some(m)
    } else {
        match encode(ops[0], labels) {
            Some(b) => emit(ops.drop_first(), labels, place(m, ops[0].addr, b)),
            None => None,
        }
    }
}

/// What a token stream, its defines already expanded, assembles to.
pub open spec fn assemble_expanded(t: Seq<TokView>) -> Option<Map<u16, u8>> {
    match pass1(t, 0, pass1_start()) {
        Some(st) => emit(st.ops, st.labels, st.bytes),
        None => None,
    }
}

/// An instruction's operand as the first pass leaves it.
#[derive(Debug)]
pub enum InterAddr {
    Addr(AddressType, Option<Value>),
    Label(Symbol),
}

pub open spec fn value_view(v: Option<Value>) -> Option<ValueV> {
    match v {
        Some(x) => Some(x@),
        None => None,
    }
}

impl View for InterAddr {
    type V = OperandV;

    open spec fn view(&self) -> OperandV {
        match self {
            InterAddr::Addr(m, v) => OperandV::Mode(*m, value_view(*v)),
            InterAddr::Label(s) => OperandV::Label(sym_view(*s)),
        }
    }
}

/// An instruction placed by the first pass.
#[derive(Debug)]
pub struct InterOpCode {
    pub symbol: Symbol,
    pub instruct: Instruct,
    pub ins_addr: u16,
    pub addr: InterAddr,
}

impl View for InterOpCode {
    type V = OpV;

    open spec fn view(&self) -> OpV {
        OpV {
            sym: sym_view(self.symbol),
            ins: self.instruct,
            addr: self.ins_addr as int,
            operand: self.addr@,
        }
    }
}

/// A parsed statement.
pub enum Statement {
    Skip,
    Label(String),
    Ins(Symbol, Instruct, InterAddr),
    Org(i32),
    Bytes(Vec<u8>),
}

impl View for Statement {
    type V = Stmt;

    open spec fn view(&self) -> Stmt {
        match self {
            Statement::Skip => Stmt::Skip,
            Statement::Label(x) => Stmt::Label(x@),
            Statement::Ins(s, i, a) => Stmt::Ins(sym_view(*s), *i, a@),
            Statement::Org(v) => Stmt::Org(*v as int),
            Statement::Bytes(b) => Stmt::Bytes(b@),
        }
    }
}

/// Token streams short enough that indices a few past the end fit in `usize`.
pub open spec fn indexable(t: Seq<Token>) -> bool {
    t.len() + 8 < usize::MAX
}

fn kind_of(t: &Vec<Token>, i: usize) -> (r: Option<TokenType>)
    ensures
        r == kind_at(views(t@), i as int),
{
    if i < t.len() {
        Some(t[i].token)
    } else {
        None
    }
}

fn token_at(t: &Vec<Token>, i: usize) -> (r: Option<Token>)
    ensures
        match r {
            Some(x) => i < t@.len() && x@ == t@[i as int]@,
            None => i >= t@.len(),
        },
{
    if i < t.len() {
        Some(t[i].duplicate())
    } else {
        None
    }
}

/// The symbol of token `i`, if there is one.
fn symbol_at(t: &Vec<Token>, i: usize) -> (r: Option<Symbol>)
    ensures
        r matches Some(sym) ==> i < t@.len() && sym_view(sym) == sym_of(t@[i as int]@),
{
    if i < t.len() {
        Some(t[i].symbol.duplicate())
    } else {
        None
    }
}

fn radix_for(k: TokenType) -> (r: Radix)
    ensures
        r == radix_of(k),
{
    match k {
        TokenType::Hex => Radix::Hex,
        TokenType::Oct => Radix::Oct,
        TokenType::Bin => Radix::Bin,
        _ => Radix::Dec,
    }
}

fn sigil_token(k: TokenType) -> (r: bool)
    ensures
        r == is_sigil(k),
{
    k == TokenType::Hex || k == TokenType::Oct || k == TokenType::Bin
}

/// The number literal at token `i` and the index after it.
fn number_exec(t: &Vec<Token>, i: usize) -> (r: Result<(Value, usize), AsmError>)
    requires
        indexable(t@),
        i <= t@.len() + 4,
    ensures
        match number_at(views(t@), i as int) {
            Some(v) => r matches Ok((x, j)) && x@ == v && j == i + number_len(views(t@), i as int),
            None => r is Err,
        },
{
    let ghost tv = views(t@);
    match token_at(t, i) {
        None => Err(AsmError::new("Early EOF", None)),
        Some(first) => {
            if sigil_token(first.token) {
                let digits = throw_newline(token_at(t, i + 1))?;
                let v = parse_number(digits, radix_for(first.token))?;
                Ok((v, i + 2))
            } else {
                let v = parse_number(first, Radix::Dec)?;
                Ok((v, i + 1))
            }
        },
    }
}

/// The operand after a mnemonic, from token `i`, and the index after it.
fn operand_exec(t: &Vec<Token>, i: usize) -> (r: Result<(InterAddr, usize), AsmError>)
    requires
        indexable(t@),
        i <= t@.len(),
    ensures
        match operand_at(views(t@), i as int) {
            Some((o, j)) => r matches Ok((a, k)) && a@ == o && k == j,
            None => r is Err,
        },
{
    let ghost tv = views(t@);
    match kind_of(t, i) {
        None => Ok((InterAddr::Addr(AddressType::Impl, None), i + 1)),
        Some(TokenType::NewLine) => Ok((InterAddr::Addr(AddressType::Impl, None), i + 1)),
        Some(TokenType::Hash) => {
            let (v, j) = number_exec(t, i + 1)?;
            if v.long {
                return Err(AsmError::new("number can't be bigger than 8 bits", Some(v.symbol)));
            }
            Ok((InterAddr::Addr(AddressType::Immediate, Some(v)), j))
        },
        Some(TokenType::LParen) => {
            let (v, j) = number_exec(t, i + 1)?;
            let close = kind_of(t, j);
            if close == Some(TokenType::RParen) {
                if kind_of(t, j + 1) == Some(TokenType::CommaY) {
                    Ok((InterAddr::Addr(AddressType::IndirectY, Some(v)), j + 2))
                } else {
                    Ok((InterAddr::Addr(AddressType::Indirect, Some(v)), j + 1))
                }
            } else if close == Some(TokenType::CommaX) && kind_of(t, j + 1) == Some(
                TokenType::RParen,
            ) {
                Ok((InterAddr::Addr(AddressType::IndirectX, Some(v)), j + 2))
            } else {
                Err(AsmError::new("Unexpected Token", symbol_at(t, j)))
            }
        },
        Some(TokenType::Identifier) => {
            if is_keyword(t[i].symbol.text.as_str()) {
                Ok((InterAddr::Addr(AddressType::Impl, None), i))
            } else {
                Ok((InterAddr::Label(t[i].symbol.duplicate()), i + 1))
            }
        },
        Some(k) => {
            if k == TokenType::Number || sigil_token(k) {
                let (v, j) = number_exec(t, i)?;
                let next = kind_of(t, j);
                if next == Some(TokenType::CommaX) {
                    let m = if v.long {
                        AddressType::AbsoluteX
                    } else {
                        AddressType::ZeroPageX
                    };
                    Ok((InterAddr::Addr(m, Some(v)), j + 1))
                } else if next == Some(TokenType::CommaY) {
                    let m = if v.long {
                        AddressType::AbsoluteY
                    } else {
                        AddressType::ZeroPageY
                    };
                    Ok((InterAddr::Addr(m, Some(v)), j + 1))
                } else {
                    let m = if v.long {
                        AddressType::Absolute
                    } else {
                        AddressType::ZeroPage
                    };
                    Ok((InterAddr::Addr(m, Some(v)), j))
                }
            } else {
                Err(AsmError::new("Unexpected Token", symbol_at(t, i)))
            }
        },
    }
}

/// The values of a `.BYTES` list from token `i` on, appended to `acc`, and
/// the index after the list.
fn bytes_exec(t: &Vec<Token>, i: usize, acc: &mut Vec<u8>) -> (r: Result<usize, AsmError>)
    requires
        indexable(t@),
        i <= t@.len() + 1,
    ensures
        match bytes_at(views(t@), i as int, old(acc)@) {
            Some((b, j)) => r matches Ok(k) && k == j && final(acc)@ == b,
            None => r is Err,
        },
{
    let ghost tv = views(t@);
    let mut k = i;
    while k < t.len()
        invariant
            indexable(t@),
            tv == views(t@),
            k <= t@.len() + 1,
            bytes_at(tv, i as int, old(acc)@) == bytes_at(tv, k as int, acc@),
        decreases t@.len() - k,
    {
        let kind = t[k].token;
        if kind == TokenType::Number || sigil_token(kind) {
            let (v, j) = number_exec(t, k)?;
            if v.long {
                return Err(AsmError::new("Value is not a byte", Some(v.symbol)));
            }
            acc.push(v.value as u8);
            k = j;
        } else if kind == TokenType::NewLine {
            match kind_of(t, k + 1) {
                Some(n) => {
                    if n == TokenType::Number || sigil_token(n) {
                        k = k + 1;
                    } else {
                        return Ok(k + 1);
                    }
                },
                None => {
                    return Ok(k + 1);
                },
            }
        } else {
            return Err(AsmError::new("Not a valid number", Some(t[k].symbol.duplicate())));
        }
    }
    Ok(k)
}

/// The statement at token `i` and the index after it.
fn statement_exec(t: &Vec<Token>, i: usize) -> (r: Result<(Statement, usize), AsmError>)
    requires
        indexable(t@),
        i < t@.len(),
    ensures
        match statement_at(views(t@), i as int) {
            Some((s, j)) => r matches Ok((x, k)) && x@ == s && k == j,
            None => r is Err,
        },
{
    let ghost tv = views(t@);
    let kind = t[i].token;
    if kind == TokenType::NewLine {
        Ok((Statement::Skip, i + 1))
    } else if kind == TokenType::Identifier {
        let text = t[i].symbol.text.as_str();
        match Instruct::from_str(text) {
            Some(ins) => {
                proof {
                    assert(spells(tv[i as int].text, ins));
                    let c = choose|x: Instruct| spells(tv[i as int].text, x);
                    crate::instruct::lemma_spells_unique(tv[i as int].text, ins, c);
                }
                let (a, j) = operand_exec(t, i + 1)?;
                Ok((Statement::Ins(t[i].symbol.duplicate(), ins, a), j))
            },
            None => {
                if !define_word(text) && kind_of(t, i + 1) == Some(TokenType::Colon) {
                    Ok((Statement::Label(t[i].symbol.text.clone()), i + 2))
                } else {
                    Err(AsmError::new("Unknown instruction or invalid token", Some(t[i].symbol.duplicate())))
                }
            },
        }
    } else if kind == TokenType::Dot {
        if kind_of(t, i + 1) != Some(TokenType::Identifier) {
            return Err(AsmError::new("Expected directive name", symbol_at(t, i + 1)));
        }
        match Directive::from_str(t[i + 1].symbol.text.as_str()) {
            Some(Directive::ORG) => {
                let j = if kind_of(t, i + 2) == Some(TokenType::Equals) {
                    i + 3
                } else {
                    i + 2
                };
                let (v, k) = number_exec(t, j)?;
                Ok((Statement::Org(v.value), k))
            },
            Some(Directive::BYTES) => {
                let mut b: Vec<u8> = Vec::new();
                let k = bytes_exec(t, i + 2, &mut b)?;
                Ok((Statement::Bytes(b), k))
            },
            None => Err(AsmError::new("Unknown directive", Some(t[i + 1].symbol.duplicate()))),
        }
    } else {
        Err(AsmError::new("Invalid token", Some(t[i].symbol.duplicate())))
    }
}

/// The map that a list of (name, value) entries stands for; a later entry
/// for a name replaces an earlier one.
pub open spec fn table_of<V>(s: Seq<(Seq<char>, V)>) -> Map<Seq<char>, V>
    decreases s.len(),
{
    if s.len() == 0 {
        Map::empty()
    } else {
        table_of(s.drop_last()).insert(s.last().0, s.last().1)
    }
}

pub open spec fn label_view(v: Seq<(String, u32)>) -> Seq<(Seq<char>, int)> {
    v.map_values(|p: (String, u32)| (p.0@, p.1 as int))
}

pub open spec fn op_views(s: Seq<InterOpCode>) -> Seq<OpV> {
    s.map_values(|o: InterOpCode| o@)
}

/// Every instruction lies below 0x10000.
pub open spec fn ops_fit(ops: Seq<OpV>) -> bool {
    forall|k: int|
        0 <= k < ops.len() ==> 0 <= (#[trigger] ops[k]).addr && ops[k].addr + op_size(
            ops[k].ins,
            ops[k].operand,
        ) <= 0x10000
}

/// The address of label `name`.
fn find_label(labels: &Vec<(String, u32)>, name: &String) -> (r: Option<u32>)
    ensures
        match r {
            Some(a) => table_of(label_view(labels@)).contains_key(name@) && table_of(
                label_view(labels@),
            )[name@] == a as int,
            None => !table_of(label_view(labels@)).contains_key(name@),
        },
{
    let ghost lv = label_view(labels@);
    let mut k = labels.len();
    assert(lv.subrange(0, k as int) =~= lv);
    while k > 0
        invariant
            k <= labels@.len(),
            lv == label_view(labels@),
            table_of(lv).contains_key(name@) == table_of(lv.subrange(0, k as int)).contains_key(
                name@,
            ),
            table_of(lv).contains_key(name@) ==> table_of(lv)[name@] == table_of(
                lv.subrange(0, k as int),
            )[name@],
        decreases k,
    {
        assert(lv.subrange(0, k as int).drop_last() =~= lv.subrange(0, k - 1));
        if labels[k - 1].0 == *name {
            return Some(labels[k - 1].1);
        }
        k = k - 1;
    }
    None
}

/// Bytes that operand `a` of `ins` takes, the opcode included.
fn operand_size(ins: Instruct, a: &InterAddr) -> (r: u32)
    ensures
        r == op_size(ins, a@),
{
    match a {
        InterAddr::Addr(m, _) => m.size() as u32,
        InterAddr::Label(_) => if ins.get_op_code(&AddressType::Relative).is_some() {
            2
        } else {
            3
        },
    }
}

/// The first pass: places each statement, gathering instructions, labels
/// and `.BYTES` output.
fn first_pass(t: &Vec<Token>) -> (r: Result<
    (Vec<InterOpCode>, Vec<(String, u32)>, BTreeMap<u16, u8>),
    AsmError,
>)
    requires
        indexable(t@),
    ensures
        match pass1(views(t@), 0, pass1_start()) {
            Some(st) => r matches Ok((ops, labels, bytes)) && op_views(ops@) == st.ops && table_of(
                label_view(labels@),
            ) == st.labels && bytes@ == st.bytes && ops_fit(st.ops),
            None => r is Err,
        },
{
    let ghost tv = views(t@);
    let mut ops: Vec<InterOpCode> = Vec::new();
    let mut labels: Vec<(String, u32)> = Vec::new();
    let mut bytes: BTreeMap<u16, u8> = BTreeMap::new();
    let mut pc: u32 = START_ADDRESS;
    let mut i: usize = 0;
    assert(op_views(ops@) =~= seq![]);
    assert(label_view(labels@) =~= seq![]);
    while i < t.len()
        invariant
            indexable(t@),
            tv == views(t@),
            pc <= 0x10000,
            ops_fit(op_views(ops@)),
            pass1(tv, 0, pass1_start()) == pass1(
                tv,
                i as int,
                Pass1 {
                    pc: pc as int,
                    labels: table_of(label_view(labels@)),
                    ops: op_views(ops@),
                    bytes: bytes@,
                },
            ),
            i <= t@.len() + 1,
        decreases t@.len() + 1 - i,
    {
        let ghost st = Pass1 {
            pc: pc as int,
            labels: table_of(label_view(labels@)),
            ops: op_views(ops@),
            bytes: bytes@,
        };
        let (stmt, j) = statement_exec(t, i)?;
        let ghost sv = stmt@;
        if j <= i || j > t.len() + 1 {
            return Err(AsmError::new("Statement consumes no token", None));
        }
        match stmt {
            Statement::Skip => {},
            Statement::Label(x) => {
                let ghost before = labels@;
                labels.push((x, pc));
                proof {
                    assert(label_view(labels@).drop_last() =~= label_view(before));
                }
            },
            Statement::Ins(symbol, instruct, addr) => {
                let size = operand_size(instruct, &addr);
                if pc + size > 0x10000 {
                    return Err(AsmError::new("Program counter passes 0xFFFF", Some(symbol)));
                }
                let op = InterOpCode { symbol, instruct, ins_addr: pc as u16, addr };
                let ghost before = ops@;
                ops.push(op);
                proof {
                    assert(op_views(ops@) =~= op_views(before).push(op@));
                }
                pc = pc + size;
            },
            Statement::Org(v) => {
                if v < 0 || v > 0xFFFF {
                    return Err(AsmError::new("Origin outside the address space", None));
                }
                pc = v as u32;
            },
            Statement::Bytes(b) => {
                if b.len() > 0x10000 - pc as usize {
                    return Err(AsmError::new("Program counter passes 0xFFFF", None));
                }
                if b.len() > 0 {
                    b_ext(&mut bytes, pc as u16, b.as_slice());
                }
                pc = pc + b.len() as u32;
            },
        }
        assert(apply(st, sv) == Some(
            Pass1 {
                pc: pc as int,
                labels: table_of(label_view(labels@)),
                ops: op_views(ops@),
                bytes: bytes@,
            },
        ));
        i = j;
    }
    Ok((ops, labels, bytes))
}

/// The bytes of one placed instruction, its label resolved through `labels`.
fn encode_exec(op: &InterOpCode, labels: &Vec<(String, u32)>) -> (r: Result<Vec<u8>, AsmError>)
    ensures
        match encode(op@, table_of(label_view(labels@))) {
            Some(b) => r matches Ok(v) && v@ == b,
            None => r is Err,
        },
        encode(op@, table_of(label_view(labels@))) is None ==> (r matches Err(e) && e.symbol matches Some(
            es,
        ) && sym_view(es) == encode_error(op@, table_of(label_view(labels@)))),
{
    match &op.addr {
        InterAddr::Label(sym) => {
            let a = match find_label(labels, &sym.text) {
                Some(a) => a,
                None => {
                    return Err(AsmError::new("Undefined label", Some(sym.duplicate())));
                },
            };
            if let Some(c) = op.instruct.get_op_code(&AddressType::Absolute) {
                if a > 0xFFFF {
                    return Err(AsmError::new("Absolute address doesn't fit in u16", Some(sym.duplicate())));
                }
                Ok(vec![c, (a % 256) as u8, (a / 256) as u8])
            } else if let Some(c) = op.instruct.get_op_code(&AddressType::Relative) {
                let d: i64 = a as i64 - (op.ins_addr as i64 + 2);
                if d < -128 || d > 127 {
                    return Err(AsmError::new("Relative address doesn't fit in i8", Some(sym.duplicate())));
                }
                Ok(vec![c, ((d + 256) % 256) as u8])
            } else {
                Err(AsmError::new("Instruction doesn't allow this type of addressing", Some(op.symbol.duplicate())))
            }
        },
        InterAddr::Addr(m, v) => match m {
            AddressType::Impl | AddressType::Accumulator => {
                if let Some(value) = v {
                    Err(AsmError::new("Unexpected value", Some(value.symbol.duplicate())))
                } else if let Some(c) = op.instruct.get_op_code(&AddressType::Impl) {
                    Ok(vec![c])
                } else if let Some(c) = op.instruct.get_op_code(&AddressType::Accumulator) {
                    Ok(vec![c])
                } else {
                    Err(AsmError::new("Instruction needs an address", Some(op.symbol.duplicate())))
                }
            },
            AddressType::Relative => Err(AsmError::new("Unexpected relative operand", Some(op.symbol.duplicate()))),
            _ => {
                let value = match v {
                    Some(value) => value,
                    None => {
                        return Err(AsmError::new("Missing value", Some(op.symbol.duplicate())));
                    },
                };
                let c = match op.instruct.get_op_code(m) {
                    Some(c) => c,
                    None => {
                        return Err(AsmError::new("Invalid address type for instruction", Some(value.symbol.duplicate())));
                    },
                };
                let x = value.value;
                if m.size() == 3 {
                    if x < 0 || x > 0xFFFF {
                        return Err(AsmError::new("Address doesn't fit in u16", Some(value.symbol.duplicate())));
                    }
                    Ok(vec![c, (x % 256) as u8, (x / 256) as u8])
                } else {
                    if x < 0 || x > 0xFF {
                        return Err(AsmError::new("Operand doesn't fit in u8", Some(value.symbol.duplicate())));
                    }
                    Ok(vec![c, x as u8])
                }
            },
        },
    }
}

/// An encoding takes the bytes that the first pass set aside for it.
proof fn lemma_encode_size(op: OpV, labels: Map<Seq<char>, int>)
    ensures
        encode(op, labels) matches Some(b) ==> b.len() == op_size(op.ins, op.operand),
{
}

/// The second pass: writes each instruction's bytes over `result`.
fn back_patch(ops: &Vec<InterOpCode>, labels: &Vec<(String, u32)>, start: BTreeMap<u16, u8>) -> (r:
    Result<BTreeMap<u16, u8>, AsmError>)
    requires
        ops_fit(op_views(ops@)),
    ensures
        match emit(op_views(ops@), table_of(label_view(labels@)), start@) {
            Some(m) => r matches Ok(x) && x@ == m,
            None => r matches Err(e) && e.symbol matches Some(es) && sym_view(es) == emit_error(
                op_views(ops@),
                table_of(label_view(labels@)),
            ),
        },
{
    let ghost all = op_views(ops@);
    let ghost lt = table_of(label_view(labels@));
    let mut result = start;
    let mut k: usize = 0;
    assert(all.subrange(0, all.len() as int) =~= all);
    while k < ops.len()
        invariant
            k <= ops@.len(),
            all == op_views(ops@),
            lt == table_of(label_view(labels@)),
            ops_fit(all),
            emit(all, lt, start@) == emit(all.subrange(k as int, all.len() as int), lt, result@),
            emit(all, lt, start@) is None ==> emit_error(all, lt) == emit_error(
                all.subrange(k as int, all.len() as int),
                lt,
            ),
        decreases ops@.len() - k,
    {
        let ghost rest = all.subrange(k as int, all.len() as int);
        assert(rest.drop_first() =~= all.subrange(k + 1, all.len() as int));
        assert(rest[0] == all[k as int]);
        let bytes = encode_exec(&ops[k], labels)?;
        proof {
            lemma_encode_size(all[k as int], lt);
        }
        b_ext(&mut result, ops[k].ins_addr, bytes.as_slice());
        k = k + 1;
    }
    Ok(result)
}

/// The tokens from `i` on with defines expanded, after `out`. `defs` holds
/// the defines made so far and `cap` the one being captured, if any. A line
/// `define NAME body` adds NAME; each later NAME stands for body, which was
/// itself expanded when captured.
pub open spec fn expand_from(
    t: Seq<TokView>,
    i: int,
    defs: Map<Seq<char>, Seq<TokView>>,
    cap: Option<(Seq<char>, Seq<TokView>)>,
    out: Seq<TokView>,
) -> Option<Seq<TokView>>
    decreases t.len() - i,
{
    if i < 0 || i >= t.len() {
        Some(out)
    } else {
        let tok = t[i];
        if tok.kind == TokenType::NewLine {
            let defs2 = match cap {
                Some((n, b)) => defs.insert(n, b),
                None => defs,
            };
            if i + 1 < t.len() && is_define(t[i + 1].text) {
                if i + 2 < t.len() && t[i + 2].kind == TokenType::Identifier {
                    expand_from(t, i + 3, defs2, Some((t[i + 2].text, seq![])), out)
                } else {
                    None
                }
            } else {
                expand_from(t, i + 1, defs2, None, out.push(tok))
            }
        } else if tok.kind == TokenType::Identifier && cap is Some && tok.text == cap->Some_0.0 {
            None
        } else {
            let piece = if tok.kind == TokenType::Identifier && defs.contains_key(tok.text) {
                defs[tok.text]
            } else {
                seq![tok]
            };
            match cap {
                Some((n, b)) => expand_from(t, i + 1, defs, Some((n, b + piece)), out),
                None => expand_from(t, i + 1, defs, None, out + piece),
            }
        }
    }
}

pub open spec fn expand(t: Seq<TokView>) -> Option<Seq<TokView>> {
    expand_from(t, 0, Map::empty(), None, seq![])
}

pub open spec fn def_view(v: Seq<(String, Vec<Token>)>) -> Seq<(Seq<char>, Seq<TokView>)> {
    v.map_values(|p: (String, Vec<Token>)| (p.0@, views(p.1@)))
}

/// The index of the latest define of `name`.
fn find_define(defs: &Vec<(String, Vec<Token>)>, name: &String) -> (r: Option<usize>)
    ensures
        match r {
            Some(k) => k < defs@.len() && table_of(def_view(defs@)).contains_key(name@) && table_of(
                def_view(defs@),
            )[name@] == views(defs@[k as int].1@),
            None => !table_of(def_view(defs@)).contains_key(name@),
        },
{
    let ghost dv = def_view(defs@);
    let mut k = defs.len();
    assert(dv.subrange(0, k as int) =~= dv);
    while k > 0
        invariant
            k <= defs@.len(),
            dv == def_view(defs@),
            table_of(dv).contains_key(name@) == table_of(dv.subrange(0, k as int)).contains_key(
                name@,
            ),
            table_of(dv).contains_key(name@) ==> table_of(dv)[name@] == table_of(
                dv.subrange(0, k as int),
            )[name@],
        decreases k,
    {
        assert(dv.subrange(0, k as int).drop_last() =~= dv.subrange(0, k - 1));
        if defs[k - 1].0 == *name {
            return Some(k - 1);
        }
        k = k - 1;
    }
    None
}

/// Appends copies of the tokens of `src` to `dst`.
fn append_copies(dst: &mut Vec<Token>, src: &Vec<Token>)
    ensures
        views(final(dst)@) == views(old(dst)@) + views(src@),
{
    let mut k: usize = 0;
    while k < src.len()
        invariant
            k <= src@.len(),
            views(dst@) == views(old(dst)@) + views(src@).subrange(0, k as int),
        decreases src@.len() - k,
    {
        let ghost before = dst@;
        dst.push(src[k].duplicate());
        assert(views(dst@) =~= views(before) + seq![src@[k as int]@]);
        assert(views(src@).subrange(0, k + 1) =~= views(src@).subrange(0, k as int) + seq![
            src@[k as int]@,
        ]);
        k = k + 1;
    }
    assert(views(src@).subrange(0, src@.len() as int) =~= views(src@));
}

/// Expands `define`s: a line `define NAME body` is taken out of the stream,
/// and each later NAME is replaced by body.
pub fn extend_tokens(tokens: Vec<Token>) -> (r: Result<Vec<Token>, AsmError>)
    ensures
        match expand(views(tokens@)) {
            Some(x) => r matches Ok(v) && views(v@) == x,
            None => r is Err,
        },
        r matches Err(e) ==> e.symbol is Some,
{
    let ghost tv = views(tokens@);
    let mut defines: Vec<(String, Vec<Token>)> = Vec::new();
    let mut new_tokens: Vec<Token> = Vec::new();
    let mut capturing = false;
    let mut cap_name = String::new();
    let mut cap_body: Vec<Token> = Vec::new();
    let mut i: usize = 0;
    assert(def_view(defines@) =~= seq![]);
    assert(views(new_tokens@) =~= seq![]);
    while i < tokens.len()
        invariant
            tv == views(tokens@),
            i <= tokens@.len(),
            expand(tv) == expand_from(
                tv,
                i as int,
                table_of(def_view(defines@)),
                if capturing {
                    Some((cap_name@, views(cap_body@)))
                } else {
                    None
                },
                views(new_tokens@),
            ),
        decreases tokens@.len() - i,
    {
        let token = &tokens[i];
        if token.token == TokenType::NewLine {
            if capturing {
                let ghost before = defines@;
                defines.push((cap_name, cap_body));
                proof {
                    assert(def_view(defines@).drop_last() =~= def_view(before));
                }
                cap_name = String::new();
                cap_body = Vec::new();
                capturing = false;
            }
            if i + 1 < tokens.len() && define_word(tokens[i + 1].symbol.text.as_str()) {
                if i + 2 < tokens.len() && tokens[i + 2].token == TokenType::Identifier {
                    cap_name = tokens[i + 2].symbol.text.clone();
                    cap_body = Vec::new();
                    capturing = true;
                    assert(views(cap_body@) =~= seq![]);
                    i = i + 3;
                } else {
                    let at = if i + 2 < tokens.len() {
                        i + 2
                    } else {
                        i + 1
                    };
                    return Err(AsmError::new("Invalid define identifier", Some(tokens[at].symbol.duplicate())));
                }
            } else {
                let ghost before = new_tokens@;
                new_tokens.push(token.duplicate());
                assert(views(new_tokens@) =~= views(before).push(tv[i as int]));
                i = i + 1;
            }
        } else {
            if capturing && token.token == TokenType::Identifier && token.symbol.text == cap_name {
                return Err(AsmError::new("A define cannot refer to itself", Some(token.symbol.duplicate())));
            }
            let found = if token.token == TokenType::Identifier {
                find_define(&defines, &token.symbol.text)
            } else {
                None
            };
            match found {
                Some(k) => {
                    if capturing {
                        append_copies(&mut cap_body, &defines[k].1);
                    } else {
                        append_copies(&mut new_tokens, &defines[k].1);
                    }
                },
                None => {
                    if capturing {
                        let ghost before = cap_body@;
                        cap_body.push(token.duplicate());
                        assert(views(cap_body@) =~= views(before) + seq![tv[i as int]]);
                    } else {
                        let ghost before = new_tokens@;
                        new_tokens.push(token.duplicate());
                        assert(views(new_tokens@) =~= views(before) + seq![tv[i as int]]);
                    }
                },
            }
            i = i + 1;
        }
    }
    Ok(new_tokens)
}

/// What a token stream assembles to: its defines expanded, then both
/// passes. A stream that expands to more tokens than `usize` can index past
/// is refused.
pub open spec fn assemble_tokens(t: Seq<TokView>) -> Option<Map<u16, u8>> {
    match expand(t) {
        Some(x) => if x.len() + 8 < usize::MAX {
            assemble_expanded(x)
        } else {
            None
        },
        None => None,
    }
}

/// Where a token stream's error points when it passes the first pass and
/// fails in the second: at the first instruction that cannot be encoded.
pub open spec fn back_patch_error(t: Seq<TokView>) -> Option<SymV> {
    match expand(t) {
        Some(x) => if x.len() + 8 < usize::MAX {
            match pass1(x, 0, pass1_start()) {
                Some(st) => if emit(st.ops, st.labels, st.bytes) is None {
                    Some(emit_error(st.ops, st.labels))
                } else {
                    None
                },
                None => None,
            }
        } else {
            None
        },
        None => None,
    }
}

/// Assembles a token stream into a sparse address-to-byte map.
pub fn parse(tokens: Vec<Token>) -> (r: Result<BTreeMap<u16, u8>, AsmError>)
    ensures
        match assemble_tokens(views(tokens@)) {
            Some(m) => r matches Ok(x) && x@ == m,
            None => r is Err,
        },
        back_patch_error(views(tokens@)) matches Some(es) ==> (r matches Err(e) && e.symbol matches Some(
            at,
        ) && sym_view(at) == es),
{
    let expanded = extend_tokens(tokens)?;
    if expanded.len() >= usize::MAX - 8 {
        return Err(AsmError::new("Source too large", None));
    }
    let (ops, labels, bytes) = first_pass(&expanded)?;
    back_patch(&ops, &labels, bytes)
}

/// The operand bytes of mode `m` for value `x`: one byte, or two with the
/// low byte first.
pub open spec fn operand_bytes(m: AddressType, x: int) -> Seq<u8> {
    if operand_len(m) == 2 {
        seq![low_byte(x), high_byte(x)]
    } else if operand_len(m) == 1 {
        seq![x as u8]
    } else {
        seq![]
    }
}

/// Every valid (mnemonic, mode) pair written with an operand that fits
/// assembles to its opcode followed by the operand bytes its mode takes;
/// an implied one to its opcode alone.
pub proof fn lemma_encoding_per_mode(
    sym: SymV,
    ins: Instruct,
    m: AddressType,
    v: Option<ValueV>,
    addr: int,
    labels: Map<Seq<char>, int>,
)
    requires
        supports(ins, m),
        m != AddressType::Relative,
        m != AddressType::Accumulator,
        m == AddressType::Impl <==> v is None,
        v matches Some(x) ==> 0 <= x.value < if operand_len(m) == 2 {
            0x10000int
        } else {
            0x100int
        },
    ensures
        encode(OpV { sym, ins, addr, operand: OperandV::Mode(m, v) }, labels) == Some(
            seq![opcode_of(ins, m)->Some_0] + operand_bytes(
                m,
                match v {
                    Some(x) => x.value,
                    None => 0,
                },
            ),
        ),
{
    let c = opcode_of(ins, m)->Some_0;
    if m == AddressType::Impl {
        assert(seq![c] + seq![] =~= seq![c]);
    } else if operand_len(m) == 2 {
        let x = v->Some_0.value;
        assert(seq![c] + seq![low_byte(x), high_byte(x)] =~= seq![c, low_byte(x), high_byte(x)]);
    } else {
        let x = v->Some_0.value;
        assert(seq![c] + seq![x as u8] =~= seq![c, x as u8]);
    }
}

/// Assembly is a function of the source: two assemblies of one source give
/// the same map.
pub proof fn lemma_assembly_deterministic(t: Seq<TokView>, m1: Map<u16, u8>, m2: Map<u16, u8>)
    requires
        assemble_tokens(t) == Some(m1),
        assemble_tokens(t) == Some(m2),
    ensures
        m1 == m2,
{
}

/// A label reference encodes the same wherever it stands relative to the
/// label: an absolute operand does not depend on the instruction's own
/// address, and a branch offset is the label's address less the address
/// after the branch, before or after it alike.
pub proof fn lemma_label_resolution(
    s1: SymV,
    s2: SymV,
    ins: Instruct,
    x: SymV,
    a1: int,
    a2: int,
    labels: Map<Seq<char>, int>,
)
    requires
        labels.contains_key(x.text),
    ensures
        supports(ins, AddressType::Absolute) ==> encode(
            OpV { sym: s1, ins, addr: a1, operand: OperandV::Label(x) },
            labels,
        ) == encode(OpV { sym: s2, ins, addr: a2, operand: OperandV::Label(x) }, labels),
        !supports(ins, AddressType::Absolute) && supports(ins, AddressType::Relative) && -128
            <= labels[x.text] - (a1 + 2) <= 127 ==> encode(
            OpV { sym: s1, ins, addr: a1, operand: OperandV::Label(x) },
            labels,
        ) == Some(
            seq![
                opcode_of(ins, AddressType::Relative)->Some_0,
                low_byte(labels[x.text] - (a1 + 2) + 256),
            ],
        ),
{
}

/// A branch to a label assembles exactly when the label lies from 128 bytes
/// before to 127 bytes after the instruction that follows the branch.
pub proof fn lemma_branch_range(
    sym: SymV,
    ins: Instruct,
    x: SymV,
    addr: int,
    labels: Map<Seq<char>, int>,
)
    requires
        labels.contains_key(x.text),
        supports(ins, AddressType::Relative),
    ensures
        encode(OpV { sym, ins, addr, operand: OperandV::Label(x) }, labels) is Some <==> -128
            <= labels[x.text] - (addr + 2) <= 127,
{
    crate::instruct::lemma_relative_only(ins);
}

/// A token, or the body it names in `d`.
pub open spec fn piece(tok: TokView, d: Map<Seq<char>, Seq<TokView>>) -> Seq<TokView> {
    if tok.kind == TokenType::Identifier && d.contains_key(tok.text) {
        d[tok.text]
    } else {
        seq![tok]
    }
}

/// `s` with each name of `d` replaced by its body.
pub open spec fn subst(s: Seq<TokView>, d: Map<Seq<char>, Seq<TokView>>) -> Seq<TokView>
    decreases s.len(),
{
    if s.len() == 0 {
        seq![]
    } else {
        piece(s[0], d) + subst(s.drop_first(), d)
    }
}

/// No token of `s` is the word `define`.
pub open spec fn no_define_words(s: Seq<TokView>) -> bool {
    forall|k: int| 0 <= k < s.len() ==> !is_define((#[trigger] s[k]).text)
}

/// Two streams that agree token by token but for the spans of line ends.
pub open spec fn same_shape(x: Seq<TokView>, y: Seq<TokView>) -> bool {
    &&& x.len() == y.len()
    &&& forall|j: int|
        0 <= j < x.len() ==> (#[trigger] x[j]).kind == y[j].kind && x[j].text == y[j].text && (
        x[j].kind != TokenType::NewLine ==> x[j] == y[j])
}

proof fn lemma_subst_split(s: Seq<TokView>, d: Map<Seq<char>, Seq<TokView>>, i: int)
    requires
        0 <= i < s.len(),
    ensures
        subst(s.subrange(i, s.len() as int), d) == piece(s[i], d) + subst(
            s.subrange(i + 1, s.len() as int),
            d,
        ),
{
    let a = s.subrange(i, s.len() as int);
    assert(a.drop_first() =~= s.subrange(i + 1, s.len() as int));
}

/// Without the word `define` ahead, expansion replaces each defined name
/// by its body.
proof fn lemma_expand_subst(
    t: Seq<TokView>,
    i: int,
    d: Map<Seq<char>, Seq<TokView>>,
    out: Seq<TokView>,
)
    requires
        0 <= i <= t.len(),
        no_define_words(t.subrange(i, t.len() as int)),
    ensures
        expand_from(t, i, d, None, out) == Some(out + subst(t.subrange(i, t.len() as int), d)),
    decreases t.len() - i,
{
    if i >= t.len() {
        assert(t.subrange(i, t.len() as int) =~= seq![]);
        assert(out + seq![] =~= out);
    } else {
        lemma_subst_split(t, d, i);
        let tok = t[i];
        assert(no_define_words(t.subrange(i + 1, t.len() as int))) by {
            assert forall|k: int| 0 <= k < t.subrange(i + 1, t.len() as int).len() implies !is_define(
                (#[trigger] t.subrange(i + 1, t.len() as int)[k]).text,
            ) by {
                assert(t.subrange(i + 1, t.len() as int)[k] == t.subrange(i, t.len() as int)[k + 1]);
            }
        }
        if i + 1 < t.len() {
            assert(t[i + 1] == t.subrange(i, t.len() as int)[1]);
        }
        if tok.kind == TokenType::NewLine {
            lemma_expand_subst(t, i + 1, d, out.push(tok));
            assert(out.push(tok) + subst(t.subrange(i + 1, t.len() as int), d) =~= out + (seq![tok]
                + subst(t.subrange(i + 1, t.len() as int), d)));
        } else {
            lemma_expand_subst(t, i + 1, d, out + piece(tok, d));
            assert(out + piece(tok, d) + subst(t.subrange(i + 1, t.len() as int), d) =~= out + (piece(
                tok,
                d,
            ) + subst(t.subrange(i + 1, t.len() as int), d)));
        }
    }
}

/// Substituting bodies free of the word `define` brings in no such word.
proof fn lemma_subst_no_define(s: Seq<TokView>, d: Map<Seq<char>, Seq<TokView>>)
    requires
        no_define_words(s),
        forall|n: Seq<char>| d.contains_key(n) ==> no_define_words(#[trigger] d[n]),
    ensures
        no_define_words(subst(s, d)),
    decreases s.len(),
{
    if s.len() > 0 {
        assert(no_define_words(s.drop_first())) by {
            assert forall|k: int| 0 <= k < s.drop_first().len() implies !is_define(
                (#[trigger] s.drop_first()[k]).text,
            ) by {
                assert(s.drop_first()[k] == s[k + 1]);
            }
        }
        lemma_subst_no_define(s.drop_first(), d);
        let p = piece(s[0], d);
        let r = subst(s.drop_first(), d);
        assert(no_define_words(p));
        assert forall|k: int| 0 <= k < (p + r).len() implies !is_define((#[trigger] (p + r)[k]).text) by {
            if k < p.len() {
                assert((p + r)[k] == p[k]);
            } else {
                assert((p + r)[k] == r[k - p.len()]);
            }
        }
    }
}

/// With no defines, substitution changes nothing.
proof fn lemma_subst_empty(s: Seq<TokView>)
    ensures
        subst(s, Map::empty()) == s,
    decreases s.len(),
{
    if s.len() > 0 {
        lemma_subst_empty(s.drop_first());
        assert(seq![s[0]] + s.drop_first() =~= s);
    }
}

/// Capturing a define body that holds no line end and no defined name
/// collects it unchanged.
proof fn lemma_capture(
    t: Seq<TokView>,
    i: int,
    j: int,
    d: Map<Seq<char>, Seq<TokView>>,
    n: Seq<char>,
    acc: Seq<TokView>,
    out: Seq<TokView>,
)
    requires
        0 <= i <= j < t.len(),
        forall|k: int| i <= k < j ==> (#[trigger] t[k]).kind != TokenType::NewLine,
        forall|k: int| i <= k < j ==> !d.contains_key((#[trigger] t[k]).text),
        forall|k: int| i <= k < j ==> (#[trigger] t[k]).text != n,
    ensures
        expand_from(t, i, d, Some((n, acc)), out) == expand_from(
            t,
            j,
            d,
            Some((n, acc + t.subrange(i, j))),
            out,
        ),
    decreases j - i,
{
    if i == j {
        assert(acc + t.subrange(i, j) =~= acc);
    } else {
        lemma_capture(t, i + 1, j, d, n, acc + seq![t[i]], out);
        assert(acc + seq![t[i]] + t.subrange(i + 1, j) =~= acc + t.subrange(i, j));
    }
}

proof fn lemma_bytes_shape(x: Seq<TokView>, y: Seq<TokView>, i: int, acc: Seq<u8>)
    requires
        same_shape(x, y),
    ensures
        bytes_at(x, i, acc) == bytes_at(y, i, acc),
    decreases x.len() - i,
{
    if 0 <= i < x.len() {
        if x[i].kind == TokenType::Number || is_sigil(x[i].kind) {
            assert(number_at(x, i) == number_at(y, i));
            match number_at(x, i) {
                Some(v) => if !v.long {
                    lemma_bytes_shape(x, y, i + number_len(x, i), acc.push(v.value as u8));
                },
                None => {},
            }
        } else if x[i].kind == TokenType::NewLine {
            lemma_bytes_shape(x, y, i + 1, acc);
        }
    }
}

proof fn lemma_statement_shape(x: Seq<TokView>, y: Seq<TokView>, i: int)
    requires
        same_shape(x, y),
    ensures
        statement_at(x, i) == statement_at(y, i),
{
    lemma_bytes_shape(x, y, i + 2, seq![]);
    assert(operand_at(x, i + 1) == operand_at(y, i + 1));
}

proof fn lemma_pass1_shape(x: Seq<TokView>, y: Seq<TokView>, i: int, st: Pass1)
    requires
        same_shape(x, y),
    ensures
        pass1(x, i, st) == pass1(y, i, st),
    decreases x.len() + 1 - i,
{
    if 0 <= i < x.len() {
        lemma_statement_shape(x, y, i);
        match statement_at(x, i) {
            Some((s, j)) => if i < j <= x.len() + 1 {
                match apply(st, s) {
                    Some(st2) => lemma_pass1_shape(x, y, j, st2),
                    None => {},
                }
            },
            None => {},
        }
    }
}

/// A first line `define NAME body` assembles the rest of the source to the
/// same bytes as the rest with each NAME replaced by body, where neither
/// body nor the rest holds the word `define` and body does not name NAME.
pub proof fn lemma_define_inlines(
    nl0: TokView,
    def: TokView,
    name: TokView,
    body: Seq<TokView>,
    nl1: TokView,
    rest: Seq<TokView>,
    nl: TokView,
)
    requires
        nl0.kind == TokenType::NewLine,
        is_define(def.text),
        name.kind == TokenType::Identifier,
        forall|k: int| 0 <= k < body.len() ==> (#[trigger] body[k]).kind != TokenType::NewLine,
        no_define_words(body),
        forall|k: int| 0 <= k < body.len() ==> (#[trigger] body[k]).text != name.text,
        no_define_words(rest),
        nl1.kind == TokenType::NewLine,
        nl.kind == TokenType::NewLine,
        nl1.text == seq!['\n'],
        nl.text == seq!['\n'],
    ensures
        assemble_tokens(seq![nl0, def, name] + body + seq![nl1] + rest) == assemble_tokens(
            seq![nl] + subst(rest, map![name.text => body]),
        ),
{
    let t = seq![nl0, def, name] + body + seq![nl1] + rest;
    let d = map![name.text => body];
    let e = Map::<Seq<char>, Seq<TokView>>::empty();
    let q: int = 3 + body.len() as int;
    assert(t[0] == nl0 && t[1] == def && t[2] == name);
    assert(t[q] == nl1);
    assert forall|k: int| 3 <= k < q implies (#[trigger] t[k]).kind != TokenType::NewLine
        && !e.contains_key(t[k].text) && t[k].text != name.text by {
        assert(t[k] == body[k - 3]);
    }
    lemma_capture(t, 3, q, e, name.text, seq![], seq![]);
    assert(seq![] + t.subrange(3, q) =~= body);
    assert(t.subrange(q + 1, t.len() as int) =~= rest);
    if q + 1 < t.len() {
        assert(t[q + 1] == rest[0]);
    }
    lemma_expand_subst(t, q + 1, d, seq![nl1]);
    let s = subst(rest, d);
    assert(expand(t) == Some(seq![nl1] + s));
    // The inlined stream expands to itself.
    let u = seq![nl] + s;
    assert forall|n: Seq<char>| d.contains_key(n) implies no_define_words(#[trigger] d[n]) by {}
    lemma_subst_no_define(rest, d);
    assert(no_define_words(u)) by {
        assert forall|k: int| 0 <= k < u.len() implies !is_define((#[trigger] u[k]).text) by {
            if k > 0 {
                assert(u[k] == s[k - 1]);
            }
        }
    }
    assert(u.subrange(0, u.len() as int) =~= u);
    lemma_expand_subst(u, 0, e, seq![]);
    lemma_subst_empty(u);
    assert(seq![] + u =~= u);
    let x = seq![nl1] + s;
    assert(same_shape(x, u)) by {
        assert forall|j: int| 0 <= j < x.len() implies (#[trigger] x[j]).kind == u[j].kind && x[j].text
            == u[j].text by {
            if j > 0 {
                assert(x[j] == s[j - 1] && u[j] == s[j - 1]);
            }
        }
    }
    lemma_pass1_shape(x, u, 0, pass1_start());
}

} // verus!
