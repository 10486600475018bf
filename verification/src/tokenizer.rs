//! The tokenizer: converts raw scroll text into a stream of typed tokens
//! with positional metadata. Classification of every token's kind and
//! value is pinned, character by character, by the spec-level scanner
//! [`spec_tokens`].
use vstd::prelude::*;

use crate::text::{chars_to_string, is_space, space_char, str_eq};

verus! {

/// The category of a token.
#[derive(Debug, PartialEq, Eq, Clone, Copy, Structural)]
pub enum TokenType {
    /// Not emitted; whitespace is tracked in `LineMeta`.
    Whitespace,
    /// Block and expression boundaries: `(` `)` `{` `}`.
    GroupMarker,
    /// Separators: `;` `,` `.`.
    Punctuation,
    /// Reserved word.
    Keyword,
    /// Registered instruction keyword.
    Instruction,
    /// User-defined name.
    Identifier,
    /// Constant data: string, char or number.
    Literal,
    /// Arithmetic, comparison or logic symbol.
    Operator,
    /// Developer-facing note.
    Comment,
    /// Scroll-level directive.
    Metadata,
    /// Malformed or unknown input.
    Error,
}

/// A token: its category, raw text and source position.
#[derive(Debug, Clone)]
pub struct Token {
    pub token_type: TokenType,
    pub value: String,
    pub line: usize,
    pub column: usize,
}

/// The mathematical image of a token: its category and character content.
/// Source positions are diagnostic only and carry no contractual weight.
pub ghost struct TokV {
    pub t: TokenType,
    pub v: Seq<char>,
}

impl View for Token {
    type V = TokV;

    open spec fn view(&self) -> TokV {
        TokV { t: self.token_type, v: self.value@ }
    }
}

/// The token views of a token list.
pub open spec fn toks_view(v: Seq<Token>) -> Seq<TokV> {
    v.map_values(|t: Token| t@)
}

/// Per-line formatting metadata.
#[derive(Debug)]
pub struct LineMeta {
    pub line_number: usize,
    pub indentation: usize,
    pub is_blank: bool,
}

/// The full result of one tokenization pass.
#[derive(Debug)]
pub struct TokenStream {
    pub tokens: Vec<Token>,
    pub line_meta: Vec<LineMeta>,
    pub errors: Vec<Token>,
}

/// The tokenizer engine: a keyword table plus a character cursor.
pub struct Tokenizer {
    /// Classifies registered instruction keywords.
    pub instruction_registry: Vec<(String, TokenType)>,
    pub source: Vec<char>,
    pub position: usize,
    pub line: usize,
    pub column: usize,
    pub current_indent: usize,
    pub group_stack: Vec<TokenType>,
}

// ---------------------------------------------------------------
// Character classes
// ---------------------------------------------------------------
/// ASCII letter.
pub open spec fn is_alpha(c: char) -> bool {
    ('a' <= c && c <= 'z') || ('A' <= c && c <= 'Z')
}

/// ASCII decimal digit.
pub open spec fn is_digit(c: char) -> bool {
    '0' <= c && c <= '9'
}

/// A character that may continue a word: letter, digit or underscore.
pub open spec fn is_word_char(c: char) -> bool {
    is_alpha(c) || is_digit(c) || c == '_'
}

/// An operator character: one of `: = + - * / % & | < >`.
pub open spec fn is_op(c: char) -> bool {
    c == ':' || c == '=' || c == '+' || c == '-' || c == '*' || c == '/' || c == '%' || c == '&'
        || c == '|' || c == '<' || c == '>'
}

fn alpha_char(c: char) -> (r: bool)
    ensures
        r == is_alpha(c),
{
    ('a' <= c && c <= 'z') || ('A' <= c && c <= 'Z')
}

fn digit_char(c: char) -> (r: bool)
    ensures
        r == is_digit(c),
{
    '0' <= c && c <= '9'
}

fn word_char(c: char) -> (r: bool)
    ensures
        r == is_word_char(c),
{
    alpha_char(c) || digit_char(c) || c == '_'
}

fn op_char(c: char) -> (r: bool)
    ensures
        r == is_op(c),
{
    c == ':' || c == '=' || c == '+' || c == '-' || c == '*' || c == '/' || c == '%' || c == '&'
        || c == '|' || c == '<' || c == '>'
}

/// Blank character inside a line: space or tab.
pub open spec fn is_blank_char(c: char) -> bool {
    c == ' ' || c == '\t'
}

fn blank_char(c: char) -> (r: bool)
    ensures
        r == is_blank_char(c),
{
    c == ' ' || c == '\t'
}

// ---------------------------------------------------------------
// Spec-level scanner
// ---------------------------------------------------------------
/// Length of the leading run of characters satisfying comment scanning:
/// everything up to (not including) the first newline.
pub open spec fn line_scan_len(s: Seq<char>) -> int
    decreases s.len(),
{
    if s.len() == 0 || s[0] == '\n' {
        0
    } else {
        1 + line_scan_len(s.drop_first())
    }
}

/// Length of the leading run of operator characters.
pub open spec fn op_run_len(s: Seq<char>) -> int
    decreases s.len(),
{
    if s.len() == 0 || !is_op(s[0]) {
        0
    } else {
        1 + op_run_len(s.drop_first())
    }
}

/// Length of the leading run of word characters.
pub open spec fn word_run_len(s: Seq<char>) -> int
    decreases s.len(),
{
    if s.len() == 0 || !is_word_char(s[0]) {
        0
    } else {
        1 + word_run_len(s.drop_first())
    }
}

/// Length of the leading run of decimal digits.
pub open spec fn digit_run_len(s: Seq<char>) -> int
    decreases s.len(),
{
    if s.len() == 0 || !is_digit(s[0]) {
        0
    } else {
        1 + digit_run_len(s.drop_first())
    }
}

/// The decoded form of a string-literal escape code.
pub open spec fn string_escape(c: char) -> char {
    if c == 'n' {
        '\n'
    } else if c == 't' {
        '\t'
    } else if c == '\\' {
        '\\'
    } else if c == '"' {
        '"'
    } else if c == '\'' {
        '\''
    } else {
        c
    }
}

/// The decoded form of a char-literal escape code.
pub open spec fn char_escape(c: char) -> char {
    if c == 'n' {
        '\n'
    } else if c == 't' {
        '\t'
    } else if c == '\\' {
        '\\'
    } else if c == '\'' {
        '\''
    } else {
        c
    }
}

/// Decodes a string literal body. `s` starts just after the opening
/// quote; the result is the decoded content and the number of source
/// characters consumed (including the closing quote when present).
pub open spec fn str_body(s: Seq<char>) -> (Seq<char>, int)
    decreases s.len(),
{
    if s.len() == 0 {
        (Seq::empty(), 0)
    } else if s[0] == '"' {
        (Seq::empty(), 1)
    } else if s[0] == '\\' {
        if s.len() == 1 {
            (Seq::empty(), 1)
        } else {
            let rest = str_body(s.skip(2));
            (seq![string_escape(s[1])] + rest.0, 2 + rest.1)
        }
    } else {
        let rest = str_body(s.skip(1));
        (seq![s[0]] + rest.0, 1 + rest.1)
    }
}

/// Decodes a char literal. `s` starts just after the opening quote; the
/// result is the decoded character and the number of source characters
/// consumed (including the opening quote and the trailing advance).
pub open spec fn char_lit(s: Seq<char>) -> (char, int) {
    if s.len() == 0 {
        ('\u{FFFD}', 1)
    } else if s[0] == '\\' {
        if s.len() == 1 {
            ('\u{FFFD}', 2)
        } else if s.len() == 2 {
            (char_escape(s[1]), 3)
        } else {
            (char_escape(s[1]), 4)
        }
    } else {
        if s.len() == 1 {
            (s[0], 2)
        } else {
            (s[0], 3)
        }
    }
}

/// Whether a word is one of the registered keywords.
pub open spec fn in_keys(keys: Seq<Seq<char>>, w: Seq<char>) -> bool {
    exists|i: int| 0 <= i < keys.len() && keys[i] == w
}

/// The token that a `#`-led line yields: metadata when the content
/// begins `#!`, a comment otherwise.
pub open spec fn hash_token(content: Seq<char>) -> TokV {
    if content.len() >= 2 && content[0] == '#' && content[1] == '!' {
        TokV { t: TokenType::Metadata, v: content }
    } else {
        TokV { t: TokenType::Comment, v: content }
    }
}

/// The spec-level scanner: the exact token stream (category and value of
/// every token, in order) that tokenizing `src` against the keyword set
/// `keys` produces.
pub open spec fn spec_tokens(src: Seq<char>, keys: Seq<Seq<char>>) -> Seq<TokV>
    decreases src.len(),
    via spec_tokens_dec
{
    if src.len() == 0 {
        Seq::empty()
    } else {
        let c = src[0];
        if c == ' ' || c == '\t' || c == '\n' {
            spec_tokens(src.skip(1), keys)
        } else if c == '#' {
            let k = line_scan_len(src);
            seq![hash_token(src.subrange(0, k))] + spec_tokens(src.skip(k), keys)
        } else if c == '"' {
            let body = str_body(src.skip(1));
            seq![TokV { t: TokenType::Literal, v: body.0 }] + spec_tokens(
                src.skip(1 + body.1),
                keys,
            )
        } else if c == '\'' {
            let lit = char_lit(src.skip(1));
            seq![TokV { t: TokenType::Literal, v: seq![lit.0] }] + spec_tokens(
                src.skip(lit.1),
                keys,
            )
        } else if is_op(c) {
            let k = op_run_len(src);
            seq![TokV { t: TokenType::Operator, v: src.subrange(0, k) }] + spec_tokens(
                src.skip(k),
                keys,
            )
        } else if c == '(' {
            seq![TokV { t: TokenType::GroupMarker, v: "("@ }] + spec_tokens(src.skip(1), keys)
        } else if c == ')' {
            seq![TokV { t: TokenType::GroupMarker, v: ")"@ }] + spec_tokens(src.skip(1), keys)
        } else if is_alpha(c) {
            let k = word_run_len(src);
            let w = src.subrange(0, k);
            let t = if in_keys(keys, w) {
                TokenType::Instruction
            } else {
                TokenType::Identifier
            };
            seq![TokV { t: t, v: w }] + spec_tokens(src.skip(k), keys)
        } else if is_digit(c) {
            let k = digit_run_len(src);
            seq![TokV { t: TokenType::Literal, v: src.subrange(0, k) }] + spec_tokens(
                src.skip(k),
                keys,
            )
        } else {
            seq![TokV { t: TokenType::Error, v: seq![c] }] + spec_tokens(src.skip(1), keys)
        }
    }
}

proof fn lemma_line_scan_len(s: Seq<char>)
    ensures
        0 <= line_scan_len(s) <= s.len(),
        forall|j: int| 0 <= j < line_scan_len(s) ==> s[j] != '\n',
        line_scan_len(s) < s.len() ==> s[line_scan_len(s)] == '\n',
    decreases s.len(),
{
    if s.len() > 0 && s[0] != '\n' {
        lemma_line_scan_len(s.drop_first());
        assert forall|j: int| 0 <= j < line_scan_len(s) implies s[j] != '\n' by {
            if j > 0 {
                assert(s.drop_first()[j - 1] == s[j]);
            }
        }
    }
}

proof fn lemma_op_run_len(s: Seq<char>)
    ensures
        0 <= op_run_len(s) <= s.len(),
        forall|j: int| 0 <= j < op_run_len(s) ==> is_op(s[j]),
        op_run_len(s) < s.len() ==> !is_op(s[op_run_len(s)]),
    decreases s.len(),
{
    if s.len() > 0 && is_op(s[0]) {
        lemma_op_run_len(s.drop_first());
        assert forall|j: int| 0 <= j < op_run_len(s) implies is_op(s[j]) by {
            if j > 0 {
                assert(s.drop_first()[j - 1] == s[j]);
            }
        }
    }
}

proof fn lemma_word_run_len(s: Seq<char>)
    ensures
        0 <= word_run_len(s) <= s.len(),
        forall|j: int| 0 <= j < word_run_len(s) ==> is_word_char(s[j]),
        word_run_len(s) < s.len() ==> !is_word_char(s[word_run_len(s)]),
    decreases s.len(),
{
    if s.len() > 0 && is_word_char(s[0]) {
        lemma_word_run_len(s.drop_first());
        assert forall|j: int| 0 <= j < word_run_len(s) implies is_word_char(s[j]) by {
            if j > 0 {
                assert(s.drop_first()[j - 1] == s[j]);
            }
        }
    }
}

proof fn lemma_digit_run_len(s: Seq<char>)
    ensures
        0 <= digit_run_len(s) <= s.len(),
        forall|j: int| 0 <= j < digit_run_len(s) ==> is_digit(s[j]),
        digit_run_len(s) < s.len() ==> !is_digit(s[digit_run_len(s)]),
    decreases s.len(),
{
    if s.len() > 0 && is_digit(s[0]) {
        lemma_digit_run_len(s.drop_first());
        assert forall|j: int| 0 <= j < digit_run_len(s) implies is_digit(s[j]) by {
            if j > 0 {
                assert(s.drop_first()[j - 1] == s[j]);
            }
        }
    }
}

proof fn lemma_str_body(s: Seq<char>)
    ensures
        0 <= str_body(s).1 <= s.len(),
        s.len() > 0 ==> 1 <= str_body(s).1,
    decreases s.len(),
{
    if s.len() > 0 && s[0] != '"' {
        if s[0] == '\\' {
            if s.len() > 1 {
                lemma_str_body(s.skip(2));
            }
        } else {
            lemma_str_body(s.skip(1));
        }
    }
}

#[via_fn]
proof fn spec_tokens_dec(src: Seq<char>, keys: Seq<Seq<char>>) {
    if src.len() > 0 {
        lemma_line_scan_len(src);
        lemma_op_run_len(src);
        lemma_word_run_len(src);
        lemma_digit_run_len(src);
        lemma_str_body(src.skip(1));
        let c = src[0];
        if c == '#' {
            assert(line_scan_len(src) >= 1);
        }
        if is_op(c) {
            assert(op_run_len(src) >= 1);
        }
        if is_alpha(c) {
            assert(word_run_len(src) >= 1);
        }
        if is_digit(c) {
            assert(digit_run_len(src) >= 1);
        }
    }
}

// ---------------------------------------------------------------
// Line metadata
// ---------------------------------------------------------------
/// The lines of a source text: its `\n`-separated segments, with no
/// empty segment after a trailing newline.
pub open spec fn lines_spec(s: Seq<char>) -> Seq<Seq<char>>
    decreases s.len(),
    via lines_spec_dec
{
    if s.len() == 0 {
        Seq::empty()
    } else {
        let k = line_scan_len(s);
        if k == s.len() {
            seq![s]
        } else {
            seq![s.subrange(0, k)] + lines_spec(s.skip(k + 1))
        }
    }
}

#[via_fn]
proof fn lines_spec_dec(s: Seq<char>) {
    lemma_line_scan_len(s);
}

/// Count of leading whitespace characters of one line.
pub open spec fn indent_spec(line: Seq<char>) -> int {
    crate::text::first_non_space(line)
}

/// Whether a line holds only whitespace.
pub open spec fn blank_spec(line: Seq<char>) -> bool {
    forall|j: int| 0 <= j < line.len() ==> is_space(#[trigger] line[j])
}

fn string_escape_exec(c: char) -> (r: char)
    ensures
        r == string_escape(c),
{
    if c == 'n' {
        '\n'
    } else if c == 't' {
        '\t'
    } else if c == '\\' {
        '\\'
    } else if c == '"' {
        '"'
    } else if c == '\'' {
        '\''
    } else {
        c
    }
}

fn char_escape_exec(c: char) -> (r: char)
    ensures
        r == char_escape(c),
{
    if c == 'n' {
        '\n'
    } else if c == 't' {
        '\t'
    } else if c == '\\' {
        '\\'
    } else if c == '\'' {
        '\''
    } else {
        c
    }
}

impl Tokenizer {
    /// The keyword set this tokenizer classifies instructions against.
    pub open spec fn keys(&self) -> Seq<Seq<char>> {
        self.instruction_registry@.map_values(|p: (String, TokenType)| p.0@)
    }

    /// Builds a tokenizer over raw source text and a keyword map.
    pub fn new(source_code: &str, instruction_map: Vec<(String, TokenType)>) -> (r: Tokenizer)
        ensures
            r.source@ == source_code@,
            r.position == 0,
            r.instruction_registry == instruction_map,
            r.line == 1,
            r.column == 0,
            r.group_stack@.len() == 0,
    {
        Tokenizer {
            instruction_registry: instruction_map,
            source: crate::text::str_to_chars(source_code),
            position: 0,
            line: 1,
            column: 0,
            current_indent: 0,
            group_stack: Vec::new(),
        }
    }

    /// Looks at the current character without consuming it.
    fn peek(&self) -> (r: Option<char>)
        ensures
            self.position < self.source@.len() ==> r == Some(
                self.source@[self.position as int],
            ),
            self.position >= self.source@.len() ==> r is None,
    {
        if self.position < self.source.len() {
            Some(self.source[self.position])
        } else {
            None
        }
    }

    /// Consumes and returns the current character.
    fn advance(&mut self) -> (r: Option<char>)
        ensures
            final(self).source == old(self).source,
            final(self).instruction_registry == old(self).instruction_registry,
            final(self).group_stack == old(self).group_stack,
            final(self).line == old(self).line,
            old(self).position < old(self).source@.len() ==> r == Some(
                old(self).source@[old(self).position as int],
            ) && final(self).position == old(self).position + 1,
            old(self).position >= old(self).source@.len() ==> r is None && final(self).position
                == old(self).position,
    {
        if self.position < self.source.len() {
            let ch = self.source[self.position];
            self.position = self.position + 1;
            if self.column != usize::MAX {
                self.column = self.column + 1;
            }
            Some(ch)
        } else {
            None
        }
    }

    /// Wraps a token value and type with the cursor's position metadata.
    fn make_token(&self, token_type: TokenType, value: &str) -> (r: Token)
        ensures
            r@.t == token_type,
            r@.v == value@,
    {
        Token {
            token_type,
            value: value.to_owned(),
            line: self.line,
            column: self.column,
        }
    }

    /// Skips past contiguous spaces and tabs.
    fn consume_whitespace(&mut self)
        ensures
            final(self).source == old(self).source,
            final(self).instruction_registry == old(self).instruction_registry,
            final(self).group_stack == old(self).group_stack,
            final(self).line == old(self).line,
            old(self).position <= final(self).position <= old(self).source@.len() || (old(
                self,
            ).position > old(self).source@.len() && final(self).position == old(self).position),
            forall|j: int|
                old(self).position <= j < final(self).position ==> is_blank_char(
                    #[trigger] old(self).source@[j],
                ),
            final(self).position < old(self).source@.len() ==> !is_blank_char(
                old(self).source@[final(self).position as int],
            ),
    {
        let ghost srcv = self.source;
        let ghost src = self.source@;
        let ghost reg = self.instruction_registry;
        let ghost gs = self.group_stack;
        let ghost ln = self.line;
        let ghost p0 = self.position;
        while self.position < self.source.len() && blank_char(self.source[self.position])
            invariant
                self.source == srcv,
                self.source@ == src,
                self.instruction_registry == reg,
                self.group_stack == gs,
                self.line == ln,
                p0 <= self.position,
                self.position <= src.len() || self.position == p0,
                forall|j: int| p0 <= j < self.position ==> is_blank_char(#[trigger] src[j]),
            decreases src.len() - self.position,
        {
            self.position = self.position + 1;
            if self.column != usize::MAX {
                self.column = self.column + 1;
            }
        }
    }

    /// Whether a word is in the instruction keyword table.
    fn word_in_registry(&self, w: &str) -> (r: bool)
        ensures
            r == in_keys(self.keys(), w@),
    {
        let mut i: usize = 0;
        while i < self.instruction_registry.len()
            invariant
                i <= self.instruction_registry@.len(),
                forall|j: int| 0 <= j < i ==> #[trigger] self.keys()[j] != w@,
            decreases self.instruction_registry@.len() - i,
        {
            if str_eq(self.instruction_registry[i].0.as_str(), w) {
                proof {
                    assert(self.keys()[i as int] == w@);
                }
                return true;
            }
            proof {
                assert(self.keys()[i as int] == self.instruction_registry@[i as int].0@);
            }
            i = i + 1;
        }
        false
    }

    /// Scans a `#`-led line into a comment or metadata token.
    fn tokenize_comment_or_meta(&mut self) -> (r: Token)
        requires
            old(self).position < old(self).source@.len(),
            old(self).source@[old(self).position as int] == '#',
        ensures
            final(self).source == old(self).source,
            final(self).instruction_registry == old(self).instruction_registry,
            final(self).group_stack == old(self).group_stack,
            final(self).position == old(self).position + line_scan_len(
                old(self).source@.skip(old(self).position as int),
            ),
            r@ == hash_token(
                old(self).source@.subrange(
                    old(self).position as int,
                    old(self).position + line_scan_len(
                        old(self).source@.skip(old(self).position as int),
                    ),
                ),
            ),
    {
        let ghost src = self.source@;
        let start = self.position;
        let ghost s = src.skip(start as int);
        let n = self.source.len();
        let mut i: usize = start;
        let mut content: Vec<char> = Vec::new();
        while i < n && self.source[i] != '\n'
            invariant
                self.source@ == src,
                n == src.len(),
                start <= i <= n,
                content@ == src.subrange(start as int, i as int),
                forall|j: int| start <= j < i ==> src[j] != '\n',
            decreases n - i,
        {
            content.push(self.source[i]);
            i = i + 1;
            proof {
                assert(content@ =~= src.subrange(start as int, i as int));
            }
        }
        proof {
            lemma_line_scan_len(s);
            assert(forall|j: int| 0 <= j < s.len() ==> s[j] == src[start + j]);
            assert(line_scan_len(s) == i - start) by {
                if line_scan_len(s) < i - start {
                    assert(s[line_scan_len(s)] == '\n');
                    assert(src[start + line_scan_len(s)] == '\n');
                }
                if i - start < line_scan_len(s) {
                    assert(s[i - start] != '\n');
                    assert(i < n);
                    assert(src[i as int] == '\n');
                }
            }
        }
        self.position = i;
        // classify: a line whose trimmed start begins "#!" is metadata
        let meta = if content.len() >= 2 {
            content[0] == '#' && content[1] == '!'
        } else {
            false
        };
        let value = chars_to_string(&content);
        if meta {
            self.make_token(TokenType::Metadata, value.as_str())
        } else {
            self.make_token(TokenType::Comment, value.as_str())
        }
    }

    /// Scans a string literal, decoding escape codes.
    fn tokenize_string(&mut self) -> (r: Token)
        requires
            old(self).position < old(self).source@.len(),
            old(self).source@[old(self).position as int] == '"',
        ensures
            final(self).source == old(self).source,
            final(self).instruction_registry == old(self).instruction_registry,
            final(self).group_stack == old(self).group_stack,
            final(self).position == old(self).position + 1 + str_body(
                old(self).source@.skip(old(self).position + 1),
            ).1,
            r@.t == TokenType::Literal,
            r@.v == str_body(old(self).source@.skip(old(self).position + 1)).0,
    {
        let ghost src = self.source@;
        let start = self.position;
        let ghost s = src.skip(start + 1);
        let n = self.source.len();
        let mut i: usize = start + 1;
        let mut content: Vec<char> = Vec::new();
        let mut closed = false;
        while !closed && i < n
            invariant
                self.source@ == src,
                n == src.len(),
                start + 1 <= i <= n,
                s == src.skip(start + 1),
                !closed ==> str_body(s).0 == content@ + str_body(src.skip(i as int)).0,
                !closed ==> str_body(s).1 == (i - start - 1) + str_body(src.skip(i as int)).1,
                closed ==> str_body(s).0 == content@,
                closed ==> str_body(s).1 == i - start - 1,
            decreases n - i + (if closed { 0int } else { 1int }),
        {
            let ghost rem = src.skip(i as int);
            let c = self.source[i];
            proof {
                assert(rem[0] == src[i as int]);
            }
            if c == '"' {
                i = i + 1;
                closed = true;
            } else if c == '\\' {
                if i + 1 < n {
                    let esc = self.source[i + 1];
                    proof {
                        assert(rem[1] == src[i + 1]);
                        assert(rem.skip(2) =~= src.skip(i + 2));
                    }
                    content.push(string_escape_exec(esc));
                    i = i + 2;
                } else {
                    proof {
                        assert(rem.len() == 1);
                        assert(src.skip(i + 1) =~= rem.skip(1));
                        assert(src.skip(i + 1).len() == 0);
                    }
                    i = i + 1;
                }
            } else {
                proof {
                    assert(rem.skip(1) =~= src.skip(i + 1));
                }
                content.push(c);
                i = i + 1;
            }
        }
        proof {
            if !closed {
                assert(src.skip(i as int).len() == 0);
            }
        }
        self.position = i;
        let value = chars_to_string(&content);
        self.make_token(TokenType::Literal, value.as_str())
    }

    /// Scans a character literal.
    fn tokenize_char(&mut self) -> (r: Token)
        requires
            old(self).position < old(self).source@.len(),
            old(self).source@[old(self).position as int] == '\'',
        ensures
            final(self).source == old(self).source,
            final(self).instruction_registry == old(self).instruction_registry,
            final(self).group_stack == old(self).group_stack,
            final(self).position == old(self).position + char_lit(
                old(self).source@.skip(old(self).position + 1),
            ).1,
            r@.t == TokenType::Literal,
            r@.v == seq![char_lit(old(self).source@.skip(old(self).position + 1)).0],
    {
        let ghost src = self.source@;
        let start = self.position;
        let ghost s = src.skip(start + 1);
        let n = self.source.len();
        let mut i: usize = start + 1;
        let value: char;
        if i >= n {
            value = '\u{FFFD}';
        } else if self.source[i] == '\\' {
            proof {
                assert(s[0] == src[start + 1]);
            }
            i = i + 1;
            if i >= n {
                value = '\u{FFFD}';
            } else {
                proof {
                    assert(s[1] == src[start + 2]);
                }
                value = char_escape_exec(self.source[i]);
                i = i + 1;
                if i < n {
                    i = i + 1;
                }
            }
        } else {
            proof {
                assert(s[0] == src[start + 1]);
            }
            value = self.source[i];
            i = i + 1;
            if i < n {
                i = i + 1;
            }
        }
        self.position = i;
        let mut one: Vec<char> = Vec::new();
        one.push(value);
        let text = chars_to_string(&one);
        let r = self.make_token(TokenType::Literal, text.as_str());
        proof {
            assert(r@.v =~= seq![char_lit(s).0]);
        }
        r
    }

    /// Scans a run of operator characters.
    fn tokenize_operator(&mut self) -> (r: Token)
        requires
            old(self).position < old(self).source@.len(),
            is_op(old(self).source@[old(self).position as int]),
        ensures
            final(self).source == old(self).source,
            final(self).instruction_registry == old(self).instruction_registry,
            final(self).group_stack == old(self).group_stack,
            final(self).position == old(self).position + op_run_len(
                old(self).source@.skip(old(self).position as int),
            ),
            r@.t == TokenType::Operator,
            r@.v == old(self).source@.subrange(
                old(self).position as int,
                old(self).position + op_run_len(old(self).source@.skip(old(self).position as int)),
            ),
    {
        let ghost src = self.source@;
        let start = self.position;
        let ghost s = src.skip(start as int);
        let n = self.source.len();
        let mut i: usize = start;
        let mut content: Vec<char> = Vec::new();
        while i < n && op_char(self.source[i])
            invariant
                self.source@ == src,
                n == src.len(),
                start <= i <= n,
                content@ == src.subrange(start as int, i as int),
                forall|j: int| start <= j < i ==> is_op(#[trigger] src[j]),
            decreases n - i,
        {
            content.push(self.source[i]);
            i = i + 1;
            proof {
                assert(content@ =~= src.subrange(start as int, i as int));
            }
        }
        proof {
            lemma_op_run_len(s);
            assert(forall|j: int| 0 <= j < s.len() ==> s[j] == src[start + j]);
            assert(op_run_len(s) == i - start) by {
                if op_run_len(s) < i - start {
                    assert(!is_op(s[op_run_len(s)]));
                    assert(is_op(src[start + op_run_len(s)]));
                }
                if i - start < op_run_len(s) {
                    assert(is_op(s[i - start]));
                    assert(i < n);
                    assert(!is_op(src[i as int]));
                }
            }
        }
        self.position = i;
        let value = chars_to_string(&content);
        self.make_token(TokenType::Operator, value.as_str())
    }

    /// Scans a run of decimal digits.
    fn tokenize_number(&mut self) -> (r: Token)
        requires
            old(self).position < old(self).source@.len(),
            is_digit(old(self).source@[old(self).position as int]),
        ensures
            final(self).source == old(self).source,
            final(self).instruction_registry == old(self).instruction_registry,
            final(self).group_stack == old(self).group_stack,
            final(self).position == old(self).position + digit_run_len(
                old(self).source@.skip(old(self).position as int),
            ),
            r@.t == TokenType::Literal,
            r@.v == old(self).source@.subrange(
                old(self).position as int,
                old(self).position + digit_run_len(
                    old(self).source@.skip(old(self).position as int),
                ),
            ),
    {
        let ghost src = self.source@;
        let start = self.position;
        let ghost s = src.skip(start as int);
        let n = self.source.len();
        let mut i: usize = start;
        let mut content: Vec<char> = Vec::new();
        while i < n && digit_char(self.source[i])
            invariant
                self.source@ == src,
                n == src.len(),
                start <= i <= n,
                content@ == src.subrange(start as int, i as int),
                forall|j: int| start <= j < i ==> is_digit(#[trigger] src[j]),
            decreases n - i,
        {
            content.push(self.source[i]);
            i = i + 1;
            proof {
                assert(content@ =~= src.subrange(start as int, i as int));
            }
        }
        proof {
            lemma_digit_run_len(s);
            assert(forall|j: int| 0 <= j < s.len() ==> s[j] == src[start + j]);
            assert(digit_run_len(s) == i - start) by {
                if digit_run_len(s) < i - start {
                    assert(!is_digit(s[digit_run_len(s)]));
                    assert(is_digit(src[start + digit_run_len(s)]));
                }
                if i - start < digit_run_len(s) {
                    assert(is_digit(s[i - start]));
                    assert(i < n);
                    assert(!is_digit(src[i as int]));
                }
            }
        }
        self.position = i;
        let value = chars_to_string(&content);
        self.make_token(TokenType::Literal, value.as_str())
    }

    /// Scans a word and classifies it as instruction or identifier.
    fn tokenize_word(&mut self) -> (r: Token)
        requires
            old(self).position < old(self).source@.len(),
            is_alpha(old(self).source@[old(self).position as int]),
        ensures
            final(self).source == old(self).source,
            final(self).instruction_registry == old(self).instruction_registry,
            final(self).group_stack == old(self).group_stack,
            final(self).position == old(self).position + word_run_len(
                old(self).source@.skip(old(self).position as int),
            ),
            r@.v == old(self).source@.subrange(
                old(self).position as int,
                old(self).position + word_run_len(
                    old(self).source@.skip(old(self).position as int),
                ),
            ),
            r@.t == (if in_keys(old(self).keys(), r@.v) {
                TokenType::Instruction
            } else {
                TokenType::Identifier
            }),
    {
        let ghost src = self.source@;
        let start = self.position;
        let ghost s = src.skip(start as int);
        let n = self.source.len();
        let mut i: usize = start;
        let mut content: Vec<char> = Vec::new();
        while i < n && word_char(self.source[i])
            invariant
                self.source@ == src,
                n == src.len(),
                start <= i <= n,
                content@ == src.subrange(start as int, i as int),
                forall|j: int| start <= j < i ==> is_word_char(#[trigger] src[j]),
            decreases n - i,
        {
            content.push(self.source[i]);
            i = i + 1;
            proof {
                assert(content@ =~= src.subrange(start as int, i as int));
            }
        }
        proof {
            lemma_word_run_len(s);
            assert(forall|j: int| 0 <= j < s.len() ==> s[j] == src[start + j]);
            assert(word_run_len(s) == i - start) by {
                if word_run_len(s) < i - start {
                    assert(!is_word_char(s[word_run_len(s)]));
                    assert(is_word_char(src[start + word_run_len(s)]));
                }
                if i - start < word_run_len(s) {
                    assert(is_word_char(s[i - start]));
                    assert(i < n);
                    assert(!is_word_char(src[i as int]));
                }
            }
        }
        self.position = i;
        let word = chars_to_string(&content);
        let t = if self.word_in_registry(word.as_str()) {
            TokenType::Instruction
        } else {
            TokenType::Identifier
        };
        self.make_token(t, word.as_str())
    }

    /// Validates an instruction's operand count against the early arity
    /// table (`let`/`set` take two operands; `walk`, `speak`, `return`
    /// and `goto` take one; anything else is accepted).
    pub fn validate_instruction_syntax(keyword: &str, operands: &Vec<String>) -> (r: bool)
        ensures
            r == (match expected_operands(keyword@) {
                Some(e) => operands@.len() == e,
                None => true,
            }),
    {
        if str_eq(keyword, "let") || str_eq(keyword, "set") {
            operands.len() == 2
        } else if str_eq(keyword, "walk") || str_eq(keyword, "speak") || str_eq(keyword, "return")
            || str_eq(keyword, "goto") {
            operands.len() == 1
        } else {
            true
        }
    }

    /// Post-tokenization hook: verifies grouping-marker balance and hands
    /// the token stream through unchanged.
    pub fn post_process_tokens(tokens: Vec<Token>) -> (r: Vec<Token>)
        ensures
            r == tokens,
    {
        let mut open_groups: usize = 0;
        let mut i: usize = 0;
        while i < tokens.len()
            invariant
                i <= tokens@.len(),
            decreases tokens@.len() - i,
        {
            if tokens[i].token_type == TokenType::GroupMarker {
                let v = tokens[i].value.as_str();
                if str_eq(v, "(") || str_eq(v, "{") {
                    if open_groups != usize::MAX {
                        open_groups = open_groups + 1;
                    }
                } else if str_eq(v, ")") || str_eq(v, "}") {
                    if open_groups > 0 {
                        open_groups = open_groups - 1;
                    }
                }
            }
            i = i + 1;
        }
        tokens
    }

    /// Tokenizes the remaining source into a full token stream. The
    /// category and value of every emitted token equals the spec-level
    /// scanner's result; line formatting metadata covers the whole
    /// source.
    pub fn tokenize(&mut self) -> (r: TokenStream)
        requires
            old(self).position <= old(self).source@.len(),
            old(self).source@.len() < usize::MAX,
        ensures
            toks_view(r.tokens@) == spec_tokens(
                old(self).source@.skip(old(self).position as int),
                old(self).keys(),
            ),
            r.errors@.len() == 0,
            r.line_meta@.len() == lines_spec(old(self).source@).len(),
            forall|i: int|
                0 <= i < r.line_meta@.len() ==> (#[trigger] r.line_meta@[i]).line_number == i + 1
                    && r.line_meta@[i].indentation == indent_spec(
                    lines_spec(old(self).source@)[i],
                ) && r.line_meta@[i].is_blank == blank_spec(lines_spec(old(self).source@)[i]),
    {
        let ghost srcv = self.source;
        let ghost src = self.source@;
        let ghost keys0 = self.keys();
        let ghost p0 = self.position as int;
        let mut tokens: Vec<Token> = Vec::new();

        while self.position < self.source.len()
            invariant
                self.source == srcv,
                self.source@ == src,
                self.keys() == keys0,
                src.len() < usize::MAX,
                p0 <= self.position <= src.len(),
                spec_tokens(src.skip(p0), keys0) == toks_view(tokens@) + spec_tokens(
                    src.skip(self.position as int),
                    keys0,
                ),
            decreases src.len() - self.position,
        {
            let ghost pcur = self.position as int;
            let ghost rem = src.skip(pcur);
            let ghost toks0 = tokens@;
            let ch = self.source[self.position];
            proof {
                assert(rem[0] == src[pcur]);
            }
            if ch == ' ' || ch == '\t' {
                self.consume_whitespace();
                proof {
                    lemma_tokens_skip_blanks(src, keys0, pcur, self.position as int);
                }
            } else if ch == '\n' {
                self.advance();
                if self.line != usize::MAX {
                    self.line = self.line + 1;
                }
                self.column = 0;
                proof {
                    assert(rem.skip(1) =~= src.skip(pcur + 1));
                }
            } else if ch == '#' {
                let tok = self.tokenize_comment_or_meta();
                proof {
                    let k = line_scan_len(rem);
                    lemma_line_scan_len(rem);
                    assert(rem.subrange(0, k) =~= src.subrange(pcur, pcur + k));
                    assert(rem.skip(k) =~= src.skip(pcur + k));
                }
                tokens.push(tok);
                proof {
                    assert(toks_view(tokens@) =~= toks_view(toks0) + seq![tok@]);
                }
            } else if ch == '"' {
                let tok = self.tokenize_string();
                proof {
                    let body = str_body(rem.skip(1));
                    lemma_str_body(rem.skip(1));
                    assert(rem.skip(1) =~= src.skip(pcur + 1));
                    assert(rem.skip(1 + str_body(src.skip(pcur + 1)).1) =~= src.skip(
                        self.position as int,
                    ));
                }
                tokens.push(tok);
                proof {
                    assert(toks_view(tokens@) =~= toks_view(toks0) + seq![tok@]);
                }
            } else if ch == '\'' {
                let tok = self.tokenize_char();
                proof {
                    assert(rem.skip(1) =~= src.skip(pcur + 1));
                    assert(1 <= char_lit(src.skip(pcur + 1)).1 <= 4);
                    assert(rem.skip(char_lit(src.skip(pcur + 1)).1) =~= src.skip(
                        self.position as int,
                    ));
                }
                tokens.push(tok);
                proof {
                    assert(toks_view(tokens@) =~= toks_view(toks0) + seq![tok@]);
                }
            } else if op_char(ch) {
                let tok = self.tokenize_operator();
                proof {
                    let k = op_run_len(rem);
                    lemma_op_run_len(rem);
                    assert(rem.subrange(0, k) =~= src.subrange(pcur, pcur + k));
                    assert(rem.skip(k) =~= src.skip(pcur + k));
                }
                tokens.push(tok);
                proof {
                    assert(toks_view(tokens@) =~= toks_view(toks0) + seq![tok@]);
                }
            } else if ch == '(' {
                self.group_stack.push(TokenType::GroupMarker);
                let tok = self.make_token(TokenType::GroupMarker, "(");
                tokens.push(tok);
                self.advance();
                proof {
                    assert(rem.skip(1) =~= src.skip(pcur + 1));
                    assert(toks_view(tokens@) =~= toks_view(toks0) + seq![tok@]);
                }
            } else if ch == ')' {
                self.group_stack.pop();
                let tok = self.make_token(TokenType::GroupMarker, ")");
                tokens.push(tok);
                self.advance();
                proof {
                    assert(rem.skip(1) =~= src.skip(pcur + 1));
                    assert(toks_view(tokens@) =~= toks_view(toks0) + seq![tok@]);
                }
            } else if alpha_char(ch) {
                let tok = self.tokenize_word();
                proof {
                    let k = word_run_len(rem);
                    lemma_word_run_len(rem);
                    assert(rem.subrange(0, k) =~= src.subrange(pcur, pcur + k));
                    assert(rem.skip(k) =~= src.skip(pcur + k));
                }
                tokens.push(tok);
                proof {
                    assert(toks_view(tokens@) =~= toks_view(toks0) + seq![tok@]);
                }
            } else if digit_char(ch) {
                let tok = self.tokenize_number();
                proof {
                    let k = digit_run_len(rem);
                    lemma_digit_run_len(rem);
                    assert(rem.subrange(0, k) =~= src.subrange(pcur, pcur + k));
                    assert(rem.skip(k) =~= src.skip(pcur + k));
                }
                tokens.push(tok);
                proof {
                    assert(toks_view(tokens@) =~= toks_view(toks0) + seq![tok@]);
                }
            } else {
                let mut one: Vec<char> = Vec::new();
                one.push(ch);
                let text = chars_to_string(&one);
                let tok = self.make_token(TokenType::Error, text.as_str());
                proof {
                    assert(tok@.v =~= seq![ch]);
                }
                tokens.push(tok);
                self.advance();
                proof {
                    assert(rem.skip(1) =~= src.skip(pcur + 1));
                    assert(toks_view(tokens@) =~= toks_view(toks0) + seq![tok@]);
                }
            }
        }
        proof {
            assert(src.skip(src.len() as int).len() == 0);
            assert(toks_view(tokens@) + spec_tokens(src.skip(self.position as int), keys0)
                =~= toks_view(tokens@));
        }

        // per-line formatting metadata over the whole source
        let mut line_meta: Vec<LineMeta> = Vec::new();
        let ghost ls = lines_spec(src);
        let ghost mut processed: Seq<Seq<char>> = Seq::empty();
        let n = self.source.len();
        let mut p: usize = 0;
        let mut num: usize = 1;
        proof {
            assert(src.skip(0) =~= src);
            assert(processed + lines_spec(src.skip(0)) =~= lines_spec(src));
        }
        while p < n
            invariant
                self.source == srcv,
                self.source@ == src,
                n == src.len(),
                src.len() < usize::MAX,
                0 <= p <= n,
                num == line_meta@.len() + 1,
                num <= p + 1,
                processed.len() == line_meta@.len(),
                ls == processed + lines_spec(src.skip(p as int)),
                forall|i: int|
                    0 <= i < line_meta@.len() ==> (#[trigger] line_meta@[i]).line_number == i + 1
                        && line_meta@[i].indentation == indent_spec(processed[i])
                        && line_meta@[i].is_blank == blank_spec(processed[i]),
            decreases n - p,
        {
            let ghost remfull = src.skip(p as int);
            let mut k: usize = p;
            while k < n && self.source[k] != '\n'
                invariant
                    self.source@ == src,
                    n == src.len(),
                    p <= k <= n,
                    forall|j: int| p <= j < k ==> src[j] != '\n',
                decreases n - k,
            {
                k = k + 1;
            }
            proof {
                lemma_line_scan_len(remfull);
                assert(forall|j: int| 0 <= j < remfull.len() ==> remfull[j] == src[p + j]);
                assert(line_scan_len(remfull) == k - p) by {
                    if line_scan_len(remfull) < k - p {
                        assert(remfull[line_scan_len(remfull)] == '\n');
                        assert(src[p + line_scan_len(remfull)] == '\n');
                    }
                    if k - p < line_scan_len(remfull) {
                        assert(remfull[k - p] != '\n');
                        assert(k < n);
                        assert(src[k as int] != '\n');
                    }
                }
            }
            let ghost line = src.subrange(p as int, k as int);
            let mut ind: usize = p;
            while ind < k && space_char(self.source[ind])
                invariant
                    self.source@ == src,
                    p <= ind <= k <= n,
                    n == src.len(),
                    forall|j: int| p <= j < ind ==> is_space(#[trigger] src[j]),
                decreases k - ind,
            {
                ind = ind + 1;
            }
            proof {
                crate::text::lemma_first_non_space(line);
                assert(forall|j: int| 0 <= j < line.len() ==> line[j] == src[p + j]);
                assert(crate::text::first_non_space(line) == ind - p) by {
                    if crate::text::first_non_space(line) < ind - p {
                        assert(!is_space(line[crate::text::first_non_space(line)]));
                        assert(!is_space(src[p + crate::text::first_non_space(line)]));
                    }
                    if ind - p < crate::text::first_non_space(line) {
                        assert(is_space(line[ind - p]));
                        assert(ind < k);
                        assert(!is_space(src[ind as int]));
                    }
                }
            }
            let blank = ind == k;
            proof {
                assert(blank == blank_spec(line)) by {
                    if ind == k {
                        assert(forall|j: int|
                            0 <= j < line.len() ==> is_space(#[trigger] line[j]));
                    } else {
                        assert(!is_space(src[ind as int]));
                        assert(line[ind - p] == src[ind as int]);
                        assert(!blank_spec(line));
                    }
                }
            }
            let meta = LineMeta { line_number: num, indentation: ind - p, is_blank: blank };
            let ghost lm0 = line_meta@;
            line_meta.push(meta);
            proof {
                processed = processed.push(line);
                assert(remfull.subrange(0, k - p) =~= line);
                if k == n {
                    assert(line =~= remfull);
                    assert(lines_spec(remfull) =~= seq![line]);
                    assert(lines_spec(src.skip(n as int)) =~= Seq::<Seq<char>>::empty());
                    assert(ls =~= processed + lines_spec(src.skip(n as int)));
                } else {
                    assert(lines_spec(remfull) == seq![line] + lines_spec(remfull.skip(k - p + 1)));
                    assert(remfull.skip(k - p + 1) =~= src.skip(k + 1));
                    assert(ls =~= processed + lines_spec(src.skip(k + 1)));
                }
            }
            if k < n {
                p = k + 1;
            } else {
                p = n;
            }
            num = num + 1;
        }
        proof {
            assert(lines_spec(src.skip(p as int)).len() == 0);
            assert(ls =~= processed);
        }

        let errors: Vec<Token> = Vec::new();
        TokenStream { tokens, line_meta, errors }
    }
}

proof fn lemma_tokens_skip_blanks(src: Seq<char>, keys: Seq<Seq<char>>, p: int, q: int)
    requires
        0 <= p <= q <= src.len(),
        forall|j: int| p <= j < q ==> is_blank_char(#[trigger] src[j]),
    ensures
        spec_tokens(src.skip(p), keys) == spec_tokens(src.skip(q), keys),
    decreases q - p,
{
    if p < q {
        assert(src.skip(p)[0] == src[p]);
        assert(src.skip(p).skip(1) =~= src.skip(p + 1));
        lemma_tokens_skip_blanks(src, keys, p + 1, q);
    }
}

/// The early arity table for instruction syntax validation.
pub open spec fn expected_operands(k: Seq<char>) -> Option<int> {
    if k == "let"@ || k == "set"@ {
        Some(2int)
    } else if k == "walk"@ || k == "speak"@ || k == "return"@ || k == "goto"@ {
        Some(1int)
    } else {
        None
    }
}

impl Token {
    /// Builds a bare identifier token with no source position, for
    /// operand slots and synthetic lookups.
    pub fn from_value(value: &str) -> (r: Token)
        ensures
            r.token_type == TokenType::Identifier,
            r.value@ == value@,
            r.line == 0,
            r.column == 0,
    {
        Token {
            token_type: TokenType::Identifier,
            value: value.to_owned(),
            line: 0,
            column: 0,
        }
    }
}

} // verus!
