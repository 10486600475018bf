//! The parser: turns a flat token stream into a scroll tree by recursive
//! descent. Malformed constructs become `Error` nodes so that one bad
//! statement never aborts the whole scroll. The exact tree produced for
//! every token stream is pinned by the spec-level parser
//! [`spec_parse_nodes`].
use vstd::prelude::*;

use crate::instruction_registry::is_registered;
use crate::text::{join_spec, str_eq, trim_spec};
use crate::tokenizer::{toks_view, TokV, Token, TokenType};

verus! {

broadcast use vstd::seq::group_seq_axioms, vstd::std_specs::vec::group_vec_axioms;

/// A syntactic unit of the parsed tree.
#[derive(Debug)]
pub enum ScrollNode {
    /// An instruction invocation with positional arguments.
    Instruction { name: String, args: Vec<String> },
    /// A subject-verb-object sentence.
    ScrollSentence { subject: String, verb: String, object: String },
    /// A binding or reassignment.
    Assignment { target: String, value: String },
    /// A standalone literal value.
    Literal(String),
    /// Scroll-level metadata, preserved verbatim.
    Metadata(String),
    /// A grouped node list in source order.
    Block(Vec<ScrollNode>),
    /// A parse failure, holding its diagnostic message.
    Error(String),
    /// A variable declaration with optional type annotation.
    Declaration { name: String, dtype: Option<String> },
    /// A conditional with scoped condition and body.
    Conditional { condition: String, body: Vec<ScrollNode> },
    /// A loop with condition and body.
    Loop { condition: String, body: Vec<ScrollNode> },
    /// A scroll import directive.
    Import(String),
    /// An early return with its value.
    Return(String),
    /// A function call with raw arguments.
    Call { function: String, args: Vec<String> },
    /// A non-evaluated annotation, preserved verbatim.
    Comment(String),
}

/// The mathematical image of a scroll node.
pub ghost enum NodeV {
    Instruction { name: Seq<char>, args: Seq<Seq<char>> },
    ScrollSentence { subject: Seq<char>, verb: Seq<char>, object: Seq<char> },
    Assignment { target: Seq<char>, value: Seq<char> },
    Literal(Seq<char>),
    Metadata(Seq<char>),
    Block(Seq<NodeV>),
    Error(Seq<char>),
    Declaration { name: Seq<char>, dtype: Option<Seq<char>> },
    Conditional { condition: Seq<char>, body: Seq<NodeV> },
    Loop { condition: Seq<char>, body: Seq<NodeV> },
    Import(Seq<char>),
    Return(Seq<char>),
    Call { function: Seq<char>, args: Seq<Seq<char>> },
    Comment(Seq<char>),
}

/// The view of one scroll node.
pub open spec fn node_view(n: ScrollNode) -> NodeV
    decreases n,
{
    match n {
        ScrollNode::Instruction { name, args } => NodeV::Instruction {
            name: name@,
            args: args@.map_values(|s: String| s@),
        },
        ScrollNode::ScrollSentence { subject, verb, object } => NodeV::ScrollSentence {
            subject: subject@,
            verb: verb@,
            object: object@,
        },
        ScrollNode::Assignment { target, value } => NodeV::Assignment {
            target: target@,
            value: value@,
        },
        ScrollNode::Literal(v) => NodeV::Literal(v@),
        ScrollNode::Metadata(v) => NodeV::Metadata(v@),
        ScrollNode::Block(children) => NodeV::Block(
            Seq::new(
                children@.len(),
                |i: int|
                    if 0 <= i < children@.len() {
                        node_view(children@[i])
                    } else {
                        NodeV::Error(Seq::empty())
                    },
            ),
        ),
        ScrollNode::Error(m) => NodeV::Error(m@),
        ScrollNode::Declaration { name, dtype } => NodeV::Declaration {
            name: name@,
            dtype: match dtype {
                Some(d) => Some(d@),
                None => None,
            },
        },
        ScrollNode::Conditional { condition, body } => NodeV::Conditional {
            condition: condition@,
            body: Seq::new(
                body@.len(),
                |i: int|
                    if 0 <= i < body@.len() {
                        node_view(body@[i])
                    } else {
                        NodeV::Error(Seq::empty())
                    },
            ),
        },
        ScrollNode::Loop { condition, body } => NodeV::Loop {
            condition: condition@,
            body: Seq::new(
                body@.len(),
                |i: int|
                    if 0 <= i < body@.len() {
                        node_view(body@[i])
                    } else {
                        NodeV::Error(Seq::empty())
                    },
            ),
        },
        ScrollNode::Import(p) => NodeV::Import(p@),
        ScrollNode::Return(v) => NodeV::Return(v@),
        ScrollNode::Call { function, args } => NodeV::Call {
            function: function@,
            args: args@.map_values(|s: String| s@),
        },
        ScrollNode::Comment(t) => NodeV::Comment(t@),
    }
}

impl View for ScrollNode {
    type V = NodeV;

    open spec fn view(&self) -> NodeV {
        node_view(*self)
    }
}

/// The node views of a node list.
pub open spec fn nodes_view(v: Seq<ScrollNode>) -> Seq<NodeV> {
    v.map_values(|n: ScrollNode| node_view(n))
}

/// The view of an optional node.
pub open spec fn opt_node_view(r: Option<ScrollNode>) -> Option<NodeV> {
    match r {
        Some(n) => Some(node_view(n)),
        None => None,
    }
}

/// A fully parsed scroll: the ordered top-level nodes.
pub struct ScrollTree {
    pub nodes: Vec<ScrollNode>,
}

/// Legacy non-resolving parser, retained for test scaffolding. It queues
/// tokens but performs no parsing.
pub struct ScrollParser {
    pub tokens: Vec<Token>,
    pub scroll: Vec<ScrollNode>,
}

/// The primary parser: a flat token stream with a cursor.
pub struct Parser {
    pub tokens: Vec<Token>,
    pub position: usize,
}

/// Categories of parser failure.
#[derive(Debug)]
pub enum ParseErrorType {
    /// Ran out of tokens mid-expression.
    UnexpectedEOF,
    /// Argument found but doesn't match the expected shape.
    InvalidArgument(String),
    /// Token out of place grammatically.
    UnexpectedToken,
    /// An expected token was not found.
    MissingToken,
    /// Instruction not found in the registry.
    InvalidInstruction,
    /// Sentence structure broke the grammar.
    InvalidGrammar,
    /// Reference used but not declared.
    UnknownSymbol,
}

/// A parse failure with its category, message and position.
#[derive(Debug)]
pub struct ParseError {
    pub kind: ParseErrorType,
    pub message: String,
    pub line: usize,
    pub column: usize,
}

/// The diagnostic name of a parse error category.
pub open spec fn kind_label(kind: ParseErrorType) -> Seq<char> {
    match kind {
        ParseErrorType::UnexpectedEOF => "UnexpectedEOF"@,
        ParseErrorType::InvalidArgument(_) => "InvalidArgument"@,
        ParseErrorType::UnexpectedToken => "UnexpectedToken"@,
        ParseErrorType::MissingToken => "MissingToken"@,
        ParseErrorType::InvalidInstruction => "InvalidInstruction"@,
        ParseErrorType::InvalidGrammar => "InvalidGrammar"@,
        ParseErrorType::UnknownSymbol => "UnknownSymbol"@,
    }
}

fn kind_label_exec(kind: &ParseErrorType) -> (r: &'static str)
    ensures
        r@ == kind_label(*kind),
{
    match kind {
        ParseErrorType::UnexpectedEOF => "UnexpectedEOF",
        ParseErrorType::InvalidArgument(_) => "InvalidArgument",
        ParseErrorType::UnexpectedToken => "UnexpectedToken",
        ParseErrorType::MissingToken => "MissingToken",
        ParseErrorType::InvalidInstruction => "InvalidInstruction",
        ParseErrorType::InvalidGrammar => "InvalidGrammar",
        ParseErrorType::UnknownSymbol => "UnknownSymbol",
    }
}

impl ParseError {
    /// A parse error with full positional detail.
    pub fn new(kind: ParseErrorType, message: &str, line: usize, column: usize) -> (r: ParseError)
        ensures
            r.kind == kind,
            r.message@ == message@,
            r.line == line,
            r.column == column,
    {
        ParseError { kind, message: message.to_owned(), line, column }
    }

    /// A structural error without location: the message names the
    /// category and line and column default to zero.
    pub fn basic(kind: ParseErrorType) -> (r: ParseError)
        ensures
            r.kind == kind,
            r.message@ == "Parser failed due to: "@ + kind_label(kind),
            r.line == 0,
            r.column == 0,
    {
        let mut message = String::new();
        message.append("Parser failed due to: ");
        message.append(kind_label_exec(&kind));
        ParseError { kind, message, line: 0, column: 0 }
    }

    /// A readable one-line trace of the error, for logging and display.
    pub fn render(&self) -> (r: String)
        ensures
            r@ == "[Line "@ + crate::text::dec_spec(self.line as int) + ", Col "@
                + crate::text::dec_spec(self.column as int) + "] "@ + kind_label(self.kind) + ": "@
                + self.message@,
    {
        let mut out = String::new();
        out.append("[Line ");
        let line_text = crate::text::u64_to_string(self.line as u64);
        out.append(line_text.as_str());
        out.append(", Col ");
        let col_text = crate::text::u64_to_string(self.column as u64);
        out.append(col_text.as_str());
        out.append("] ");
        out.append(kind_label_exec(&self.kind));
        out.append(": ");
        out.append(self.message.as_str());
        out
    }
}

// ---------------------------------------------------------------
// Spec-level parser
// ---------------------------------------------------------------
/// One parse step: the node produced (`None` when a walker gave up at
/// end of stream) and the number of tokens consumed.
pub ghost struct ParseStep {
    pub node: Option<NodeV>,
    pub used: int,
}

/// Clamps a consumption count into `1 ..= len`, guarding the recursion
/// of the top-level and block loops. [`lemma_parse_node_used`] shows the
/// clamp never binds.
pub open spec fn clamp_used(used: int, len: int) -> int {
    if used < 1 {
        1
    } else if used > len {
        len
    } else {
        used
    }
}

/// Greedy instruction-argument scan: collects the values of leading
/// literal, identifier and operator tokens, skipping whitespace tokens,
/// up to the first structural boundary.
pub open spec fn spec_args_scan(toks: Seq<TokV>) -> (Seq<Seq<char>>, int)
    decreases toks.len(),
{
    if toks.len() == 0 {
        (Seq::empty(), 0)
    } else {
        let t = toks[0].t;
        if t == TokenType::Literal || t == TokenType::Identifier || t == TokenType::Operator {
            let rest = spec_args_scan(toks.skip(1));
            (seq![toks[0].v] + rest.0, 1 + rest.1)
        } else if t == TokenType::Whitespace {
            let rest = spec_args_scan(toks.skip(1));
            (rest.0, 1 + rest.1)
        } else {
            (Seq::empty(), 0)
        }
    }
}

/// Call-argument scan: collects non-punctuation token values until the
/// closing parenthesis, skipping separating commas.
pub open spec fn spec_call_args(toks: Seq<TokV>) -> (Seq<Seq<char>>, int)
    decreases toks.len(),
{
    if toks.len() == 0 {
        (Seq::empty(), 0)
    } else if toks[0].v == ")"@ {
        (Seq::empty(), 1)
    } else {
        let first: Seq<Seq<char>> = if toks[0].t != TokenType::Punctuation {
            seq![toks[0].v]
        } else {
            Seq::empty()
        };
        let k: int = if toks.len() >= 2 && toks[1].v == ","@ {
            2
        } else {
            1
        };
        let rest = spec_call_args(toks.skip(k));
        (first + rest.0, k + rest.1)
    }
}

/// Parses a call's argument group. `toks` starts at the expected `(`.
pub open spec fn spec_parse_call(fname: Seq<char>, toks: Seq<TokV>) -> ParseStep
    decreases toks.len(), 1int,
{
    if toks.len() == 0 {
        ParseStep { node: None, used: 0 }
    } else if toks[0].v != "("@ {
        ParseStep {
            node: Some(NodeV::Error("Expected '(' after function name."@)),
            used: 1,
        }
    } else {
        let a = spec_call_args(toks.skip(1));
        ParseStep { node: Some(NodeV::Call { function: fname, args: a.0 }), used: 1 + a.1 }
    }
}

/// Resolves an identifier's intent: `=` routes to assignment, `(` to a
/// call, anything else to an ambiguity error.
pub open spec fn spec_parse_assignment_or_call(toks: Seq<TokV>) -> ParseStep
    decreases toks.len(), 2int,
{
    if toks.len() == 0 {
        ParseStep { node: None, used: 0 }
    } else {
        let id = toks[0].v;
        if toks.len() == 1 {
            ParseStep { node: None, used: 1 }
        } else if toks[1].v == "="@ {
            if toks.len() >= 3 {
                ParseStep {
                    node: Some(NodeV::Assignment { target: id, value: toks[2].v }),
                    used: 3,
                }
            } else {
                ParseStep { node: None, used: 2 }
            }
        } else if toks[1].v == "("@ {
            let c = spec_parse_call(id, toks.skip(1));
            ParseStep { node: c.node, used: 1 + c.used }
        } else {
            ParseStep {
                node: Some(NodeV::Error("Ambiguous identifier usage near '"@ + id + "'"@)),
                used: 1,
            }
        }
    }
}

/// Parses an instruction statement: the keyword is validated against the
/// registry; a following `(` routes to the call parser and an
/// identifier followed by `=` routes to the assignment branch; otherwise
/// following argument tokens are consumed greedily.
pub open spec fn spec_parse_instruction(toks: Seq<TokV>) -> ParseStep
    decreases toks.len(), 2int,
{
    if toks.len() == 0 {
        ParseStep { node: None, used: 0 }
    } else {
        let name = toks[0].v;
        if !is_registered(name) {
            ParseStep {
                node: Some(NodeV::Error("Unknown instruction '"@ + name + "'"@)),
                used: 1,
            }
        } else if toks.len() >= 2 && toks[1].v == "("@ {
            let c = spec_parse_call(name, toks.skip(1));
            ParseStep { node: c.node, used: 1 + c.used }
        } else if toks.len() >= 3 && toks[1].t == TokenType::Identifier && toks[2].v == "="@ {
            let a = spec_parse_assignment_or_call(toks.skip(1));
            ParseStep { node: a.node, used: 1 + a.used }
        } else {
            let sc = spec_args_scan(toks.skip(1));
            ParseStep { node: Some(NodeV::Instruction { name: name, args: sc.0 }), used: 1 + sc.1 }
        }
    }
}

/// The nodes of a `{ ... }` block: repeated top-level dispatch until the
/// matching close brace, end of stream, or a walker giving up.
pub open spec fn spec_block_items(toks: Seq<TokV>) -> (Seq<NodeV>, int)
    decreases toks.len(), 4int,
{
    if toks.len() == 0 {
        (Seq::empty(), 0)
    } else if toks[0].t == TokenType::GroupMarker && toks[0].v == "}"@ {
        (Seq::empty(), 1)
    } else {
        let st = spec_parse_node(toks);
        let k = clamp_used(st.used, toks.len() as int);
        match st.node {
            Some(n) => {
                let rest = spec_block_items(toks.skip(k));
                (seq![n] + rest.0, k + rest.1)
            },
            None => (Seq::empty(), k),
        }
    }
}

/// Parses a `{ ... }` block. `toks` starts at the expected `{`.
pub open spec fn spec_parse_block(toks: Seq<TokV>) -> ParseStep
    decreases toks.len(), 2int,
{
    if toks.len() == 0 {
        ParseStep { node: None, used: 0 }
    } else if toks[0].v != "{"@ {
        ParseStep {
            node: Some(NodeV::Error("Expected '{' to open block, found '"@ + toks[0].v + "'"@)),
            used: 1,
        }
    } else {
        let b = spec_block_items(toks.skip(1));
        ParseStep { node: Some(NodeV::Block(b.0)), used: 1 + b.1 }
    }
}

/// Dispatches on the current token's kind, exactly as the node router
/// does.
pub open spec fn spec_parse_node(toks: Seq<TokV>) -> ParseStep
    decreases toks.len(), 3int,
{
    if toks.len() == 0 {
        ParseStep { node: None, used: 0 }
    } else {
        let tok = toks[0];
        if tok.t == TokenType::Instruction {
            spec_parse_instruction(toks)
        } else if tok.t == TokenType::Literal {
            ParseStep { node: Some(NodeV::Literal(tok.v)), used: 1 }
        } else if tok.t == TokenType::Identifier {
            spec_parse_assignment_or_call(toks)
        } else if tok.t == TokenType::Metadata {
            ParseStep { node: Some(NodeV::Metadata(tok.v)), used: 1 }
        } else if tok.t == TokenType::Comment {
            ParseStep { node: Some(NodeV::Comment(tok.v)), used: 1 }
        } else if tok.t == TokenType::GroupMarker && tok.v == "{"@ {
            spec_parse_block(toks)
        } else {
            ParseStep {
                node: Some(NodeV::Error("Unrecognized token: "@ + tok.v)),
                used: 1,
            }
        }
    }
}

/// The whole-scroll parse: the exact top-level node list produced from a
/// token stream.
pub open spec fn spec_parse_nodes(toks: Seq<TokV>) -> Seq<NodeV>
    decreases toks.len(), 4int,
{
    if toks.len() == 0 {
        Seq::empty()
    } else {
        let st = spec_parse_node(toks);
        let k = clamp_used(st.used, toks.len() as int);
        (match st.node {
            Some(n) => seq![n],
            None => Seq::empty(),
        }) + spec_parse_nodes(toks.skip(k))
    }
}

/// Consumption bounds for the argument scans.
pub proof fn lemma_scan_used(toks: Seq<TokV>)
    ensures
        0 <= spec_args_scan(toks).1 <= toks.len(),
        0 <= spec_call_args(toks).1 <= toks.len(),
    decreases toks.len(),
{
    if toks.len() > 0 {
        lemma_scan_used(toks.skip(1));
        if toks.len() >= 2 {
            lemma_scan_used(toks.skip(2));
        }
    }
}

/// Consumption bounds for every parse step: a walker consumes at least
/// one and at most all of the tokens it was given.
pub proof fn lemma_parse_node_used(toks: Seq<TokV>)
    ensures
        toks.len() == 0 ==> spec_parse_node(toks).used == 0,
        toks.len() > 0 ==> 1 <= spec_parse_node(toks).used <= toks.len(),
        toks.len() == 0 ==> spec_parse_instruction(toks).used == 0,
        toks.len() > 0 ==> 1 <= spec_parse_instruction(toks).used <= toks.len(),
        toks.len() == 0 ==> spec_parse_assignment_or_call(toks).used == 0,
        toks.len() > 0 ==> 1 <= spec_parse_assignment_or_call(toks).used <= toks.len(),
        toks.len() == 0 ==> spec_parse_block(toks).used == 0,
        toks.len() > 0 ==> 1 <= spec_parse_block(toks).used <= toks.len(),
        0 <= spec_block_items(toks).1 <= toks.len(),
        forall|f: Seq<char>|
            (toks.len() == 0 ==> (#[trigger] spec_parse_call(f, toks)).used == 0) && (toks.len()
                > 0 ==> 1 <= spec_parse_call(f, toks).used <= toks.len()),
    decreases toks.len(),
{
    lemma_scan_used(toks);
    if toks.len() > 0 {
        lemma_scan_used(toks.skip(1));
        lemma_parse_node_used(toks.skip(1));
        let st = spec_parse_node(toks);
        let k = clamp_used(st.used, toks.len() as int);
        if !(toks[0].t == TokenType::GroupMarker && toks[0].v == "}"@) {
            lemma_parse_node_used(toks.skip(k));
        }
    }
}

/// The clamp in the top-level and block loops never binds: each step's
/// consumption is already in range.
pub proof fn lemma_clamp_is_used(toks: Seq<TokV>)
    requires
        toks.len() > 0,
    ensures
        clamp_used(spec_parse_node(toks).used, toks.len() as int) == spec_parse_node(toks).used,
{
    lemma_parse_node_used(toks);
}

/// Copies a token field for field.
fn dup_token(t: &Token) -> (r: Token)
    ensures
        r == *t,
{
    Token {
        token_type: t.token_type,
        value: t.value.clone(),
        line: t.line,
        column: t.column,
    }
}

impl ScrollParser {
    /// Builds the legacy parser over a token list.
    pub fn new(tokens: Vec<Token>) -> (r: ScrollParser)
        ensures
            r.tokens == tokens,
            r.scroll@.len() == 0,
    {
        ScrollParser { tokens, scroll: Vec::new() }
    }

    /// Legacy stub: hands back the (empty) accumulated scroll unchanged.
    pub fn parse(self) -> (r: Vec<ScrollNode>)
        ensures
            r == self.scroll,
    {
        self.scroll
    }
}

impl Parser {
    /// The cursor never passes the end of the token list.
    pub open spec fn wf(&self) -> bool {
        self.position <= self.tokens@.len()
    }

    /// The views of all tokens held.
    pub open spec fn toks(&self) -> Seq<TokV> {
        toks_view(self.tokens@)
    }

    /// The views of the tokens not yet consumed.
    pub open spec fn rem(&self) -> Seq<TokV> {
        self.toks().skip(self.position as int)
    }

    /// How one parsing step relates the parser before and after: the
    /// token list is untouched, the cursor advanced by the step's
    /// consumption, and the returned node is the step's node.
    pub open spec fn stepped(pre: Parser, post: Parser, r: Option<ScrollNode>, st: ParseStep) -> bool {
        &&& post.tokens == pre.tokens
        &&& post.position == pre.position + st.used
        &&& opt_node_view(r) == st.node
    }

    /// Builds a parser with the cursor at the start.
    pub fn new(tokens: Vec<Token>) -> (r: Parser)
        ensures
            r.tokens == tokens,
            r.position == 0,
            r.wf(),
    {
        Parser { tokens, position: 0 }
    }

    /// Consumes and returns the current token.
    pub fn advance(&mut self) -> (r: Option<Token>)
        requires
            old(self).wf(),
        ensures
            final(self).tokens == old(self).tokens,
            final(self).wf(),
            old(self).position < old(self).tokens@.len() ==> final(self).position == old(
                self,
            ).position + 1 && r is Some && r->0 == old(self).tokens@[old(self).position as int],
            old(self).position >= old(self).tokens@.len() ==> r is None && final(self).position
                == old(self).position,
    {
        if self.position < self.tokens.len() {
            let t = dup_token(&self.tokens[self.position]);
            self.position = self.position + 1;
            Some(t)
        } else {
            None
        }
    }

    /// Looks at the current token without consuming it.
    pub fn peek(&mut self) -> (r: Option<&Token>)
        ensures
            *final(self) == *old(self),
            old(self).position < old(self).tokens@.len() ==> r is Some && *r->0 == old(
                self,
            ).tokens@[old(self).position as int],
            old(self).position >= old(self).tokens@.len() ==> r is None,
    {
        if self.position < self.tokens.len() {
            Some(&self.tokens[self.position])
        } else {
            None
        }
    }

    /// Decodes an instruction token against the registry: the keyword
    /// comes back exactly when it is registered.
    pub fn decode_instruction(&self, token: &Token) -> (r: Option<String>)
        ensures
            r is Some <==> is_registered(token.value@),
            r is Some ==> r->0@ == token.value@,
    {
        let registry = crate::instruction_registry::get_instruction_registry();
        if registry.contains_key(token.value.as_str()) {
            Some(token.value.clone())
        } else {
            None
        }
    }

    /// Validates subject-verb-object shape: subject and verb must be
    /// non-blank; an object, when given, must be non-blank too.
    pub fn is_valid_sentence(&self, subject: &str, verb: &str, object: Option<&str>) -> (r: bool)
        ensures
            r == (trim_spec(subject@).len() > 0 && trim_spec(verb@).len() > 0 && (match object {
                Some(o) => trim_spec(o@).len() > 0,
                None => true,
            })),
    {
        let s = crate::text::trim(subject);
        let v = crate::text::trim(verb);
        let has_subject = s.as_str().unicode_len() > 0;
        let has_verb = v.as_str().unicode_len() > 0;
        let has_valid_object = match object {
            Some(o) => {
                let ot = crate::text::trim(o);
                ot.as_str().unicode_len() > 0
            },
            None => true,
        };
        has_subject && has_verb && has_valid_object
    }

    /// Master parsing loop: dispatches node by node until the token
    /// stream is exhausted, producing the exact tree the spec-level
    /// parser describes.
    pub fn parse(&mut self) -> (r: ScrollTree)
        requires
            old(self).wf(),
        ensures
            final(self).tokens == old(self).tokens,
            final(self).wf(),
            nodes_view(r.nodes@) == spec_parse_nodes(old(self).rem()),
    {
        let ghost toksv = self.tokens;
        let ghost all = self.toks();
        let ghost p0 = self.position as int;
        let mut nodes: Vec<ScrollNode> = Vec::new();
        while self.position < self.tokens.len()
            invariant
                self.wf(),
                self.tokens == toksv,
                self.toks() == all,
                p0 <= self.position,
                spec_parse_nodes(all.skip(p0)) == nodes_view(nodes@) + spec_parse_nodes(
                    self.rem(),
                ),
            decreases self.tokens@.len() - self.position,
        {
            let ghost pcur = self.position as int;
            let ghost remc = self.rem();
            let ghost nodes0 = nodes@;
            let node_opt = self.parse_node();
            proof {
                lemma_clamp_is_used(remc);
                assert(remc.skip(spec_parse_node(remc).used) =~= self.rem());
            }
            match node_opt {
                Some(node) => {
                    nodes.push(node);
                    proof {
                        assert(nodes_view(nodes@) =~= nodes_view(nodes0) + seq![node_view(node)]);
                    }
                },
                None => {
                    proof {
                        assert(nodes_view(nodes@) + Seq::<NodeV>::empty() =~= nodes_view(nodes@));
                    }
                },
            }
            proof {
                assert(nodes_view(nodes@) + spec_parse_nodes(self.rem()) =~= nodes_view(nodes0) + (
                match spec_parse_node(remc).node {
                    Some(n) => seq![n],
                    None => Seq::<NodeV>::empty(),
                } + spec_parse_nodes(self.rem())));
            }
        }
        proof {
            assert(self.rem().len() == 0);
            assert(nodes_view(nodes@) + spec_parse_nodes(self.rem()) =~= nodes_view(nodes@));
        }
        ScrollTree { nodes }
    }

    /// Node dispatcher: routes the current token to the walker its kind
    /// calls for; unknown kinds become `Error` nodes.
    pub fn parse_node(&mut self) -> (r: Option<ScrollNode>)
        requires
            old(self).wf(),
        ensures
            final(self).wf(),
            Parser::stepped(*old(self), *final(self), r, spec_parse_node(old(self).rem())),
        decreases self.tokens@.len() - self.position, 3int,
    {
        let ghost rem0 = self.rem();
        if self.position >= self.tokens.len() {
            return None;
        }
        proof {
            assert(rem0[0] == self.tokens@[self.position as int]@);
        }
        let tt = self.tokens[self.position].token_type;
        if tt == TokenType::Instruction {
            self.parse_instruction()
        } else if tt == TokenType::Literal {
            self.parse_literal()
        } else if tt == TokenType::Identifier {
            self.parse_assignment_or_call()
        } else if tt == TokenType::Metadata {
            self.parse_metadata()
        } else if tt == TokenType::Comment {
            self.parse_comment()
        } else if tt == TokenType::GroupMarker
            && str_eq(self.tokens[self.position].value.as_str(), "{") {
            self.parse_block()
        } else {
            let token = match self.advance() {
                Some(t) => t,
                None => {
                    return None;
                },
            };
            let mut msg = String::new();
            msg.append("Unrecognized token: ");
            msg.append(token.value.as_str());
            Some(ScrollNode::Error(msg))
        }
    }

    /// Instruction walker: validates the keyword against the registry,
    /// then routes a following `(` to the call parser, an identifier
    /// followed by `=` to the assignment branch, and otherwise consumes
    /// following argument tokens greedily.
    pub fn parse_instruction(&mut self) -> (r: Option<ScrollNode>)
        requires
            old(self).wf(),
        ensures
            final(self).wf(),
            Parser::stepped(*old(self), *final(self), r, spec_parse_instruction(old(self).rem())),
        decreases self.tokens@.len() - self.position, 2int,
    {
        let ghost rem0 = self.rem();
        let token = match self.advance() {
            Some(t) => t,
            None => {
                return None;
            },
        };
        proof {
            assert(rem0[0] == token@);
        }
        if self.decode_instruction(&token).is_none() {
            let mut msg = String::new();
            msg.append("Unknown instruction '");
            msg.append(token.value.as_str());
            msg.append("'");
            return Some(ScrollNode::Error(msg));
        }
        // a following `(` routes to the call parser
        let mut route_call = false;
        if self.position < self.tokens.len() {
            if str_eq(self.tokens[self.position].value.as_str(), "(") {
                route_call = true;
            }
        }
        proof {
            if rem0.len() >= 2 {
                assert(rem0[1] == self.tokens@[self.position as int]@);
            }
        }
        if route_call {
            let ghost mid = *self;
            let c = self.parse_call(token.value);
            proof {
                assert(mid.rem() =~= rem0.skip(1));
            }
            return c;
        }
        // an identifier followed by `=` routes to the assignment branch
        let mut route_assign = false;
        if self.position < self.tokens.len() && self.position + 1 < self.tokens.len() {
            if self.tokens[self.position].token_type == TokenType::Identifier && str_eq(
                self.tokens[self.position + 1].value.as_str(),
                "=",
            ) {
                route_assign = true;
            }
        }
        proof {
            if rem0.len() >= 3 {
                assert(rem0[1] == self.tokens@[self.position as int]@);
                assert(rem0[2] == self.tokens@[self.position + 1]@);
            }
        }
        if route_assign {
            let ghost mid = *self;
            let a = self.parse_assignment_or_call();
            proof {
                assert(mid.rem() =~= rem0.skip(1));
            }
            return a;
        }
        // greedy positional-argument collection
        let ghost args_rem = self.rem();
        proof {
            assert(args_rem =~= rem0.skip(1));
        }
        let mut args: Vec<String> = Vec::new();
        let mut done = false;
        while !done && self.position < self.tokens.len()
            invariant
                self.wf(),
                self.tokens == old(self).tokens,
                old(self).position + 1 <= self.position,
                args_rem == self.toks().skip(old(self).position + 1),
                !done ==> spec_args_scan(args_rem).0 == args@.map_values(|s: String| s@)
                    + spec_args_scan(self.rem()).0,
                !done ==> spec_args_scan(args_rem).1 == (self.position - old(self).position - 1)
                    + spec_args_scan(self.rem()).1,
                done ==> spec_args_scan(args_rem).0 == args@.map_values(|s: String| s@),
                done ==> spec_args_scan(args_rem).1 == self.position - old(self).position - 1,
            decreases self.tokens@.len() - self.position + (if done { 0int } else { 1int }),
        {
            let ghost remc = self.rem();
            proof {
                assert(remc[0] == self.tokens@[self.position as int]@);
                assert(remc.skip(1) =~= self.toks().skip(self.position + 1));
            }
            let ghost argsv0 = args@;
            let tt = self.tokens[self.position].token_type;
            if tt == TokenType::Literal || tt == TokenType::Identifier || tt
                == TokenType::Operator {
                let v = self.tokens[self.position].value.clone();
                args.push(v);
                self.advance();
                proof {
                    assert(args@.map_values(|s: String| s@) =~= argsv0.map_values(
                        |s: String| s@,
                    ) + seq![remc[0].v]);
                }
            } else if tt == TokenType::Whitespace {
                self.advance();
            } else {
                done = true;
            }
        }
        proof {
            if !done {
                assert(self.rem().len() == 0);
            }
        }
        Some(ScrollNode::Instruction { name: token.value, args })
    }

    /// Literal walker: wraps the current token's raw value.
    pub fn parse_literal(&mut self) -> (r: Option<ScrollNode>)
        requires
            old(self).wf(),
        ensures
            final(self).wf(),
            final(self).tokens == old(self).tokens,
            old(self).rem().len() == 0 ==> r is None && final(self).position == old(self).position,
            old(self).rem().len() > 0 ==> final(self).position == old(self).position + 1
                && opt_node_view(r) == Some(NodeV::Literal(old(self).rem()[0].v)),
        decreases self.tokens@.len() - self.position, 2int,
    {
        let ghost rem0 = self.rem();
        proof {
            if rem0.len() > 0 {
                assert(rem0[0] == self.tokens@[self.position as int]@);
            }
        }
        match self.advance() {
            Some(t) => Some(ScrollNode::Literal(t.value)),
            None => None,
        }
    }

    /// Metadata walker: preserves a scroll-level directive verbatim.
    pub fn parse_metadata(&mut self) -> (r: Option<ScrollNode>)
        requires
            old(self).wf(),
        ensures
            final(self).wf(),
            final(self).tokens == old(self).tokens,
            old(self).rem().len() == 0 ==> r is None && final(self).position == old(self).position,
            old(self).rem().len() > 0 ==> final(self).position == old(self).position + 1
                && opt_node_view(r) == Some(NodeV::Metadata(old(self).rem()[0].v)),
        decreases self.tokens@.len() - self.position, 2int,
    {
        let ghost rem0 = self.rem();
        proof {
            if rem0.len() > 0 {
                assert(rem0[0] == self.tokens@[self.position as int]@);
            }
        }
        match self.advance() {
            Some(t) => Some(ScrollNode::Metadata(t.value)),
            None => None,
        }
    }

    /// Comment walker: preserves a human-facing note verbatim.
    pub fn parse_comment(&mut self) -> (r: Option<ScrollNode>)
        requires
            old(self).wf(),
        ensures
            final(self).wf(),
            final(self).tokens == old(self).tokens,
            old(self).rem().len() == 0 ==> r is None && final(self).position == old(self).position,
            old(self).rem().len() > 0 ==> final(self).position == old(self).position + 1
                && opt_node_view(r) == Some(NodeV::Comment(old(self).rem()[0].v)),
        decreases self.tokens@.len() - self.position, 2int,
    {
        let ghost rem0 = self.rem();
        proof {
            if rem0.len() > 0 {
                assert(rem0[0] == self.tokens@[self.position as int]@);
            }
        }
        match self.advance() {
            Some(t) => Some(ScrollNode::Comment(t.value)),
            None => None,
        }
    }

    /// Assignment/call branch walker: resolves an identifier's intent by
    /// one token of lookahead.
    pub fn parse_assignment_or_call(&mut self) -> (r: Option<ScrollNode>)
        requires
            old(self).wf(),
        ensures
            final(self).wf(),
            Parser::stepped(
                *old(self),
                *final(self),
                r,
                spec_parse_assignment_or_call(old(self).rem()),
            ),
        decreases self.tokens@.len() - self.position, 2int,
    {
        let ghost rem0 = self.rem();
        let identifier = match self.advance() {
            Some(t) => t,
            None => {
                return None;
            },
        };
        proof {
            assert(rem0[0] == identifier@);
        }
        if self.position >= self.tokens.len() {
            return None;
        }
        proof {
            assert(rem0[1] == self.tokens@[self.position as int]@);
        }
        let is_assign = str_eq(self.tokens[self.position].value.as_str(), "=");
        let is_call = str_eq(self.tokens[self.position].value.as_str(), "(");
        if is_assign {
            self.advance();
            proof {
                if rem0.len() >= 3 {
                    assert(rem0[2] == self.tokens@[self.position as int]@);
                }
            }
            match self.advance() {
                Some(value_token) => Some(ScrollNode::Assignment {
                    target: identifier.value,
                    value: value_token.value,
                }),
                None => None,
            }
        } else if is_call {
            let ghost mid = *self;
            let c = self.parse_call(identifier.value);
            proof {
                assert(mid.rem() =~= rem0.skip(1));
            }
            c
        } else {
            let mut msg = String::new();
            msg.append("Ambiguous identifier usage near '");
            msg.append(identifier.value.as_str());
            msg.append("'");
            Some(ScrollNode::Error(msg))
        }
    }

    /// Function-call walker: collects comma-separated raw arguments
    /// until the closing parenthesis.
    pub fn parse_call(&mut self, function_token: String) -> (r: Option<ScrollNode>)
        requires
            old(self).wf(),
        ensures
            final(self).wf(),
            Parser::stepped(
                *old(self),
                *final(self),
                r,
                spec_parse_call(function_token@, old(self).rem()),
            ),
        decreases self.tokens@.len() - self.position, 1int,
    {
        let ghost rem0 = self.rem();
        let open_paren = match self.advance() {
            Some(t) => t,
            None => {
                return None;
            },
        };
        proof {
            assert(rem0[0] == open_paren@);
        }
        if !str_eq(open_paren.value.as_str(), "(") {
            let msg = "Expected '(' after function name.".to_owned();
            return Some(ScrollNode::Error(msg));
        }
        let ghost args_rem = self.rem();
        proof {
            assert(args_rem =~= rem0.skip(1));
        }
        let mut args: Vec<String> = Vec::new();
        let mut closed = false;
        while !closed && self.position < self.tokens.len()
            invariant
                self.wf(),
                self.tokens == old(self).tokens,
                old(self).position + 1 <= self.position,
                args_rem == self.toks().skip(old(self).position + 1),
                !closed ==> spec_call_args(args_rem).0 == args@.map_values(|s: String| s@)
                    + spec_call_args(self.rem()).0,
                !closed ==> spec_call_args(args_rem).1 == (self.position - old(self).position - 1)
                    + spec_call_args(self.rem()).1,
                closed ==> spec_call_args(args_rem).0 == args@.map_values(|s: String| s@),
                closed ==> spec_call_args(args_rem).1 == self.position - old(self).position - 1,
            decreases self.tokens@.len() - self.position + (if closed { 0int } else { 1int }),
        {
            let ghost remc = self.rem();
            proof {
                assert(remc[0] == self.tokens@[self.position as int]@);
                assert(remc.skip(1) =~= self.toks().skip(self.position + 1));
                if remc.len() >= 2 {
                    assert(remc[1] == self.tokens@[self.position + 1]@);
                    assert(remc.skip(2) =~= self.toks().skip(self.position + 2));
                }
            }
            let ghost argsv0 = args@;
            if str_eq(self.tokens[self.position].value.as_str(), ")") {
                self.advance();
                closed = true;
            } else {
                let is_punct = self.tokens[self.position].token_type == TokenType::Punctuation;
                let v = self.tokens[self.position].value.clone();
                self.advance();
                if !is_punct {
                    args.push(v);
                    proof {
                        assert(args@.map_values(|s: String| s@) =~= argsv0.map_values(
                            |s: String| s@,
                        ) + seq![remc[0].v]);
                    }
                } else {
                    proof {
                        assert(args@.map_values(|s: String| s@) =~= argsv0.map_values(
                            |s: String| s@,
                        ) + Seq::<Seq<char>>::empty());
                    }
                }
                // skip a separating comma
                if self.position < self.tokens.len() {
                    if str_eq(self.tokens[self.position].value.as_str(), ",") {
                        self.advance();
                    }
                }
            }
        }
        proof {
            if !closed {
                assert(self.rem().len() == 0);
            }
        }
        Some(ScrollNode::Call { function: function_token, args })
    }

    /// Logic-block walker: collects nodes between braces by repeated
    /// top-level dispatch; a missing close brace yields the partial
    /// block rather than a failure.
    pub fn parse_block(&mut self) -> (r: Option<ScrollNode>)
        requires
            old(self).wf(),
        ensures
            final(self).wf(),
            Parser::stepped(*old(self), *final(self), r, spec_parse_block(old(self).rem())),
        decreases self.tokens@.len() - self.position, 2int,
    {
        let ghost rem0 = self.rem();
        let open = match self.advance() {
            Some(t) => t,
            None => {
                return None;
            },
        };
        proof {
            assert(rem0[0] == open@);
        }
        if !str_eq(open.value.as_str(), "{") {
            let mut msg = String::new();
            msg.append("Expected '{' to open block, found '");
            msg.append(open.value.as_str());
            msg.append("'");
            return Some(ScrollNode::Error(msg));
        }
        let ghost items_rem = self.rem();
        proof {
            assert(items_rem =~= rem0.skip(1));
        }
        let mut nodes: Vec<ScrollNode> = Vec::new();
        let mut done = false;
        while !done && self.position < self.tokens.len()
            invariant
                self.wf(),
                self.tokens == old(self).tokens,
                old(self).position + 1 <= self.position,
                items_rem == self.toks().skip(old(self).position + 1),
                !done ==> spec_block_items(items_rem).0 == nodes_view(nodes@) + spec_block_items(
                    self.rem(),
                ).0,
                !done ==> spec_block_items(items_rem).1 == (self.position - old(self).position - 1)
                    + spec_block_items(self.rem()).1,
                done ==> spec_block_items(items_rem).0 == nodes_view(nodes@),
                done ==> spec_block_items(items_rem).1 == self.position - old(self).position - 1,
            decreases self.tokens@.len() - self.position + (if done { 0int } else { 1int }),
        {
            let ghost remc = self.rem();
            proof {
                assert(remc[0] == self.tokens@[self.position as int]@);
            }
            let ghost nodes0 = nodes@;
            let is_close = self.tokens[self.position].token_type == TokenType::GroupMarker
                && str_eq(self.tokens[self.position].value.as_str(), "}");
            if is_close {
                self.advance();
                done = true;
            } else {
                let node_opt = self.parse_node();
                proof {
                    lemma_clamp_is_used(remc);
                    assert(remc.skip(spec_parse_node(remc).used) =~= self.rem());
                }
                match node_opt {
                    Some(node) => {
                        nodes.push(node);
                        proof {
                            assert(nodes_view(nodes@) =~= nodes_view(nodes0) + seq![node_view(
                                node,
                            )]);
                        }
                    },
                    None => {
                        done = true;
                        proof {
                            assert(nodes_view(nodes@) + Seq::<NodeV>::empty() =~= nodes_view(
                                nodes@,
                            ));
                        }
                    },
                }
            }
        }
        proof {
            if !done {
                assert(self.rem().len() == 0);
            }
        }
        let r = ScrollNode::Block(nodes);
        proof {
            assert(node_view(r)->Block_0 =~= nodes_view(nodes@));
        }
        Some(r)
    }
}

// ---------------------------------------------------------------
// Sub-walkers: conditions, annotations, argument lists, statements
// ---------------------------------------------------------------
/// Condition scan: the raw values accumulated up to a `{` or `;`
/// boundary, and how many tokens that consumed.
pub open spec fn spec_cond_scan(toks: Seq<TokV>) -> (Seq<Seq<char>>, int)
    decreases toks.len(),
{
    if toks.len() == 0 {
        (Seq::empty(), 0)
    } else if toks[0].v == "{"@ || toks[0].v == ";"@ {
        (Seq::empty(), 0)
    } else {
        let rest = spec_cond_scan(toks.skip(1));
        (seq![toks[0].v] + rest.0, 1 + rest.1)
    }
}

/// How the condition walker accumulates one more raw value: a space is
/// inserted only when text has already accumulated.
pub open spec fn cond_append(acc: Seq<char>, v: Seq<char>) -> Seq<char> {
    if acc.len() == 0 {
        v
    } else {
        acc + " "@ + v
    }
}

/// The condition string built from accumulated values.
pub open spec fn cond_join(vals: Seq<Seq<char>>) -> Seq<char>
    decreases vals.len(),
{
    if vals.len() == 0 {
        Seq::empty()
    } else {
        cond_append(cond_join(vals.drop_last()), vals.last())
    }
}

/// The nodes of a bracketed `[ ... ]` instruction group.
pub open spec fn spec_group_items(toks: Seq<TokV>) -> (Seq<NodeV>, int)
    decreases toks.len(), 4int,
{
    if toks.len() == 0 {
        (Seq::empty(), 0)
    } else if toks[0].v == "]"@ {
        (Seq::empty(), 1)
    } else {
        let st = spec_parse_node(toks);
        let k = clamp_used(st.used, toks.len() as int);
        match st.node {
            Some(n) => {
                let rest = spec_group_items(toks.skip(k));
                (seq![n] + rest.0, k + rest.1)
            },
            None => (Seq::empty(), k),
        }
    }
}

impl Parser {
    /// Condition extractor: accumulates tokens into a space-joined
    /// string until a `{` or `;` boundary; yields nothing if no text
    /// accumulated.
    pub fn walk_condition(&mut self) -> (r: Option<String>)
        requires
            old(self).wf(),
        ensures
            final(self).wf(),
            final(self).tokens == old(self).tokens,
            final(self).position == old(self).position + spec_cond_scan(old(self).rem()).1,
            ({
                let joined = cond_join(spec_cond_scan(old(self).rem()).0);
                if joined.len() == 0 {
                    r is None
                } else {
                    r is Some && r->0@ == joined
                }
            }),
    {
        let ghost rem0 = self.rem();
        let mut condition = String::new();
        let ghost mut vals: Seq<Seq<char>> = Seq::empty();
        let mut done = false;
        while !done && self.position < self.tokens.len()
            invariant
                self.wf(),
                self.tokens == old(self).tokens,
                old(self).position <= self.position,
                rem0 == self.toks().skip(old(self).position as int),
                condition@ == cond_join(vals),
                !done ==> spec_cond_scan(rem0).0 == vals + spec_cond_scan(self.rem()).0,
                !done ==> spec_cond_scan(rem0).1 == (self.position - old(self).position)
                    + spec_cond_scan(self.rem()).1,
                done ==> spec_cond_scan(rem0).0 == vals,
                done ==> spec_cond_scan(rem0).1 == self.position - old(self).position,
            decreases self.tokens@.len() - self.position + (if done { 0int } else { 1int }),
        {
            let ghost remc = self.rem();
            proof {
                assert(remc[0] == self.tokens@[self.position as int]@);
                assert(remc.skip(1) =~= self.toks().skip(self.position + 1));
            }
            let boundary = str_eq(self.tokens[self.position].value.as_str(), "{") || str_eq(
                self.tokens[self.position].value.as_str(),
                ";",
            );
            if boundary {
                done = true;
            } else {
                let ghost vals0 = vals;
                let v = self.tokens[self.position].value.clone();
                self.advance();
                if condition.as_str().unicode_len() > 0 {
                    condition.append(" ");
                }
                condition.append(v.as_str());
                proof {
                    vals = vals.push(remc[0].v);
                    assert(vals.drop_last() =~= vals0);
                    assert(vals.last() == remc[0].v);
                    assert(condition@ == cond_append(cond_join(vals0), remc[0].v));
                    assert(vals + spec_cond_scan(self.rem()).0 =~= vals0 + (seq![remc[0].v]
                        + spec_cond_scan(self.rem()).0));
                }
            }
        }
        proof {
            if !done {
                assert(self.rem().len() == 0);
            }
        }
        if condition.as_str().unicode_len() == 0 {
            None
        } else {
            Some(condition)
        }
    }

    /// Type-annotation walker: optionally consumes `: TypeName` after a
    /// declared identifier; an absent colon is no annotation, not an
    /// error.
    pub fn walk_type_annotation(&mut self) -> (r: Option<String>)
        requires
            old(self).wf(),
        ensures
            final(self).wf(),
            final(self).tokens == old(self).tokens,
            ({
                let rem = old(self).rem();
                if rem.len() == 0 || rem[0].v != ":"@ {
                    r is None && final(self).position == old(self).position
                } else if rem.len() == 1 || rem[1].t != TokenType::Identifier {
                    r is None && final(self).position == old(self).position + 1
                } else {
                    r is Some && r->0@ == rem[1].v && final(self).position == old(self).position
                        + 2
                }
            }),
    {
        let ghost rem0 = self.rem();
        if self.position >= self.tokens.len() {
            return None;
        }
        proof {
            assert(rem0[0] == self.tokens@[self.position as int]@);
        }
        if !str_eq(self.tokens[self.position].value.as_str(), ":") {
            return None;
        }
        self.advance();
        if self.position >= self.tokens.len() {
            return None;
        }
        proof {
            assert(rem0[1] == self.tokens@[self.position as int]@);
        }
        if self.tokens[self.position].token_type != TokenType::Identifier {
            return None;
        }
        match self.advance() {
            Some(type_token) => Some(type_token.value),
            None => None,
        }
    }

    /// Argument-list walker: consumes a comma-separated list enclosed in
    /// parentheses. No list at all yields an empty result; end of stream
    /// before the closing parenthesis is a structural error.
    pub fn parse_argument_list(&mut self) -> (r: Result<Vec<String>, ParseError>)
        requires
            old(self).wf(),
        ensures
            final(self).wf(),
            final(self).tokens == old(self).tokens,
            old(self).rem().len() == 0 ==> r is Err && r->Err_0.kind is UnexpectedEOF
                && final(self).position == old(self).position,
            old(self).rem().len() > 0 && old(self).rem()[0].v != "("@ ==> r is Ok
                && r->Ok_0@.len() == 0 && final(self).position == old(self).position,
            old(self).rem().len() > 0 && old(self).rem()[0].v == "("@ ==> ({
                let sc = spec_arglist_scan(old(self).rem().skip(1));
                if closes_args(old(self).rem().skip(1)) {
                    r is Ok && r->Ok_0@.map_values(|w: String| w@) == sc.0 && final(self).position
                        == old(self).position + 1 + sc.1
                } else {
                    r is Err && r->Err_0.kind is UnexpectedEOF
                        && final(self).position == old(self).position + 1 + sc.1
                }
            }),
    {
        let ghost rem0 = self.rem();
        if self.position >= self.tokens.len() {
            return Err(ParseError::basic(ParseErrorType::UnexpectedEOF));
        }
        proof {
            assert(rem0[0] == self.tokens@[self.position as int]@);
        }
        if !str_eq(self.tokens[self.position].value.as_str(), "(") {
            let args: Vec<String> = Vec::new();
            return Ok(args);
        }
        self.advance();
        let ghost args_rem = self.rem();
        proof {
            assert(args_rem =~= rem0.skip(1));
        }
        let mut args: Vec<String> = Vec::new();
        let mut closed = false;
        while !closed && self.position < self.tokens.len()
            invariant
                self.wf(),
                self.tokens == old(self).tokens,
                old(self).position + 1 <= self.position,
                args_rem == self.toks().skip(old(self).position + 1),
                !closed ==> spec_arglist_scan(args_rem).0 == args@.map_values(|s: String| s@)
                    + spec_arglist_scan(self.rem()).0,
                !closed ==> spec_arglist_scan(args_rem).1 == (self.position - old(self).position
                    - 1) + spec_arglist_scan(self.rem()).1,
                !closed ==> (closes_args(args_rem) == closes_args(self.rem())),
                closed ==> closes_args(args_rem),
                closed ==> spec_arglist_scan(args_rem).0 == args@.map_values(|s: String| s@),
                closed ==> spec_arglist_scan(args_rem).1 == self.position - old(self).position - 1,
            decreases self.tokens@.len() - self.position + (if closed { 0int } else { 1int }),
        {
            let ghost remc = self.rem();
            proof {
                assert(remc[0] == self.tokens@[self.position as int]@);
                assert(remc.skip(1) =~= self.toks().skip(self.position + 1));
                if remc.len() >= 2 {
                    assert(remc[1] == self.tokens@[self.position + 1]@);
                    assert(remc.skip(2) =~= self.toks().skip(self.position + 2));
                }
            }
            let ghost argsv0 = args@;
            if str_eq(self.tokens[self.position].value.as_str(), ")") {
                self.advance();
                closed = true;
            } else if str_eq(self.tokens[self.position].value.as_str(), ",") {
                self.advance();
                proof {
                    assert(args@.map_values(|s: String| s@) =~= argsv0.map_values(|s: String| s@)
                        + Seq::<Seq<char>>::empty());
                }
            } else {
                let v = self.tokens[self.position].value.clone();
                self.advance();
                args.push(v);
                proof {
                    assert(args@.map_values(|s: String| s@) =~= argsv0.map_values(|s: String| s@)
                        + seq![remc[0].v]);
                }
            }
        }
        if closed {
            Ok(args)
        } else {
            proof {
                assert(self.rem().len() == 0);
            }
            Err(ParseError::basic(ParseErrorType::UnexpectedEOF))
        }
    }

    /// Subject-verb-object sentence walker: three consecutive tokens
    /// become one sentence node.
    pub fn parse_scroll_sentence(&mut self) -> (r: Option<ScrollNode>)
        requires
            old(self).wf(),
        ensures
            final(self).wf(),
            final(self).tokens == old(self).tokens,
            ({
                let rem = old(self).rem();
                if rem.len() >= 3 {
                    final(self).position == old(self).position + 3 && opt_node_view(r) == Some(
                        NodeV::ScrollSentence {
                            subject: rem[0].v,
                            verb: rem[1].v,
                            object: rem[2].v,
                        },
                    )
                } else {
                    r is None && final(self).position == old(self).position + rem.len()
                }
            }),
    {
        let ghost rem0 = self.rem();
        proof {
            if rem0.len() > 0 {
                assert(rem0[0] == self.tokens@[self.position as int]@);
            }
        }
        let subject = match self.advance() {
            Some(t) => t.value,
            None => {
                return None;
            },
        };
        proof {
            if rem0.len() > 1 {
                assert(rem0[1] == self.tokens@[self.position as int]@);
            }
        }
        let verb = match self.advance() {
            Some(t) => t.value,
            None => {
                return None;
            },
        };
        proof {
            if rem0.len() > 2 {
                assert(rem0[2] == self.tokens@[self.position as int]@);
            }
        }
        let object = match self.advance() {
            Some(t) => t.value,
            None => {
                return None;
            },
        };
        Some(ScrollNode::ScrollSentence { subject, verb, object })
    }

    /// Declaration walker: `let name` with an optional `: Type` suffix.
    pub fn parse_declaration(&mut self) -> (r: Option<ScrollNode>)
        requires
            old(self).wf(),
        ensures
            final(self).wf(),
            final(self).tokens == old(self).tokens,
            ({
                let rem = old(self).rem();
                if rem.len() >= 2 {
                    let tail = rem.skip(2);
                    let annotated = tail.len() >= 2 && tail[0].v == ":"@ && tail[1].t
                        == TokenType::Identifier;
                    let colon_only = tail.len() >= 1 && tail[0].v == ":"@ && !annotated;
                    opt_node_view(r) == Some(
                        NodeV::Declaration {
                            name: rem[1].v,
                            dtype: if annotated {
                                Some(tail[1].v)
                            } else {
                                None
                            },
                        },
                    ) && final(self).position == old(self).position + 2 + (if annotated {
                        2int
                    } else if colon_only {
                        1int
                    } else {
                        0int
                    })
                } else {
                    r is None && final(self).position == old(self).position + rem.len()
                }
            }),
    {
        let ghost rem0 = self.rem();
        proof {
            if rem0.len() > 0 {
                assert(rem0[0] == self.tokens@[self.position as int]@);
            }
        }
        let _keyword = match self.advance() {
            Some(t) => t,
            None => {
                return None;
            },
        };
        proof {
            if rem0.len() > 1 {
                assert(rem0[1] == self.tokens@[self.position as int]@);
            }
        }
        let name_token = match self.advance() {
            Some(t) => t,
            None => {
                return None;
            },
        };
        let ghost mid = *self;
        let dtype = self.walk_type_annotation();
        proof {
            assert(mid.rem() =~= rem0.skip(2));
        }
        Some(ScrollNode::Declaration { name: name_token.value, dtype })
    }

    /// Conditional walker: a keyword, a condition up to the block, and
    /// the block as body.
    pub fn parse_conditional(&mut self) -> (r: Option<ScrollNode>)
        requires
            old(self).wf(),
        ensures
            final(self).wf(),
            final(self).tokens == old(self).tokens,
            ({
                let rem = old(self).rem();
                if rem.len() == 0 {
                    r is None && final(self).position == old(self).position
                } else {
                    let sc = spec_cond_scan(rem.skip(1));
                    let joined = cond_join(sc.0);
                    if joined.len() == 0 {
                        r is None && final(self).position == old(self).position + 1 + sc.1
                    } else {
                        let st = spec_parse_block(rem.skip(1 + sc.1));
                        final(self).position == old(self).position + 1 + sc.1 + st.used && (
                        match st.node {
                            Some(b) => opt_node_view(r) == Some(
                                NodeV::Conditional { condition: joined, body: seq![b] },
                            ),
                            None => r is None,
                        })
                    }
                }
            }),
    {
        let ghost rem0 = self.rem();
        proof {
            if rem0.len() > 0 {
                assert(rem0[0] == self.tokens@[self.position as int]@);
            }
        }
        let _keyword = match self.advance() {
            Some(t) => t,
            None => {
                return None;
            },
        };
        let ghost mid = *self;
        proof {
            assert(mid.rem() =~= rem0.skip(1));
        }
        let condition = match self.walk_condition() {
            Some(c) => c,
            None => {
                return None;
            },
        };
        let ghost mid2 = *self;
        proof {
            lemma_cond_scan_used(rem0.skip(1));
            assert(mid2.rem() =~= rem0.skip(1 + spec_cond_scan(rem0.skip(1)).1));
        }
        let body = match self.parse_block() {
            Some(b) => b,
            None => {
                return None;
            },
        };
        let mut body_vec: Vec<ScrollNode> = Vec::new();
        body_vec.push(body);
        let r = ScrollNode::Conditional { condition, body: body_vec };
        proof {
            assert(node_view(r)->Conditional_body =~= seq![
                spec_parse_block(rem0.skip(1 + spec_cond_scan(rem0.skip(1)).1)).node->0,
            ]);
        }
        Some(r)
    }

    /// Loop walker: a keyword, a condition up to the block, and the
    /// block as body.
    pub fn parse_loop(&mut self) -> (r: Option<ScrollNode>)
        requires
            old(self).wf(),
        ensures
            final(self).wf(),
            final(self).tokens == old(self).tokens,
            ({
                let rem = old(self).rem();
                if rem.len() == 0 {
                    r is None && final(self).position == old(self).position
                } else {
                    let sc = spec_cond_scan(rem.skip(1));
                    let joined = cond_join(sc.0);
                    if joined.len() == 0 {
                        r is None && final(self).position == old(self).position + 1 + sc.1
                    } else {
                        let st = spec_parse_block(rem.skip(1 + sc.1));
                        final(self).position == old(self).position + 1 + sc.1 + st.used && (
                        match st.node {
                            Some(b) => opt_node_view(r) == Some(
                                NodeV::Loop { condition: joined, body: seq![b] },
                            ),
                            None => r is None,
                        })
                    }
                }
            }),
    {
        let ghost rem0 = self.rem();
        proof {
            if rem0.len() > 0 {
                assert(rem0[0] == self.tokens@[self.position as int]@);
            }
        }
        let _keyword = match self.advance() {
            Some(t) => t,
            None => {
                return None;
            },
        };
        let ghost mid = *self;
        proof {
            assert(mid.rem() =~= rem0.skip(1));
        }
        let condition = match self.walk_condition() {
            Some(c) => c,
            None => {
                return None;
            },
        };
        let ghost mid2 = *self;
        proof {
            lemma_cond_scan_used(rem0.skip(1));
            assert(mid2.rem() =~= rem0.skip(1 + spec_cond_scan(rem0.skip(1)).1));
        }
        let body = match self.parse_block() {
            Some(b) => b,
            None => {
                return None;
            },
        };
        let mut body_vec: Vec<ScrollNode> = Vec::new();
        body_vec.push(body);
        let r = ScrollNode::Loop { condition, body: body_vec };
        proof {
            assert(node_view(r)->Loop_body =~= seq![
                spec_parse_block(rem0.skip(1 + spec_cond_scan(rem0.skip(1)).1)).node->0,
            ]);
        }
        Some(r)
    }

    /// Bracketed instruction-group walker: `[ ... ]` becomes a block of
    /// the nodes parsed inside.
    pub fn parse_instruction_group(&mut self) -> (r: Option<ScrollNode>)
        requires
            old(self).wf(),
        ensures
            final(self).wf(),
            final(self).tokens == old(self).tokens,
            ({
                let rem = old(self).rem();
                if rem.len() == 0 {
                    r is None && final(self).position == old(self).position
                } else {
                    let g = spec_group_items(rem.skip(1));
                    final(self).position == old(self).position + 1 + g.1 && opt_node_view(r)
                        == Some(NodeV::Block(g.0))
                }
            }),
    {
        let ghost rem0 = self.rem();
        proof {
            if rem0.len() > 0 {
                assert(rem0[0] == self.tokens@[self.position as int]@);
            }
        }
        let _open = match self.advance() {
            Some(t) => t,
            None => {
                return None;
            },
        };
        let ghost items_rem = self.rem();
        proof {
            assert(items_rem =~= rem0.skip(1));
        }
        let mut group_nodes: Vec<ScrollNode> = Vec::new();
        let mut done = false;
        while !done && self.position < self.tokens.len()
            invariant
                self.wf(),
                self.tokens == old(self).tokens,
                old(self).position + 1 <= self.position,
                items_rem == self.toks().skip(old(self).position + 1),
                !done ==> spec_group_items(items_rem).0 == nodes_view(group_nodes@)
                    + spec_group_items(self.rem()).0,
                !done ==> spec_group_items(items_rem).1 == (self.position - old(self).position - 1)
                    + spec_group_items(self.rem()).1,
                done ==> spec_group_items(items_rem).0 == nodes_view(group_nodes@),
                done ==> spec_group_items(items_rem).1 == self.position - old(self).position - 1,
            decreases self.tokens@.len() - self.position + (if done { 0int } else { 1int }),
        {
            let ghost remc = self.rem();
            proof {
                assert(remc[0] == self.tokens@[self.position as int]@);
            }
            let ghost nodes0 = group_nodes@;
            if str_eq(self.tokens[self.position].value.as_str(), "]") {
                self.advance();
                done = true;
            } else {
                let node_opt = self.parse_node();
                proof {
                    lemma_clamp_is_used(remc);
                    assert(remc.skip(spec_parse_node(remc).used) =~= self.rem());
                }
                match node_opt {
                    Some(node) => {
                        group_nodes.push(node);
                        proof {
                            assert(nodes_view(group_nodes@) =~= nodes_view(nodes0) + seq![
                                node_view(node),
                            ]);
                        }
                    },
                    None => {
                        done = true;
                        proof {
                            assert(nodes_view(group_nodes@) + Seq::<NodeV>::empty() =~= nodes_view(
                                group_nodes@,
                            ));
                        }
                    },
                }
            }
        }
        proof {
            if !done {
                assert(self.rem().len() == 0);
            }
        }
        let r = ScrollNode::Block(group_nodes);
        proof {
            assert(node_view(r)->Block_0 =~= nodes_view(group_nodes@));
        }
        Some(r)
    }

    /// Import walker: `import "path"`, rejecting an unquoted path with
    /// an error node.
    pub fn parse_import(&mut self) -> (r: Option<ScrollNode>)
        requires
            old(self).wf(),
        ensures
            final(self).wf(),
            final(self).tokens == old(self).tokens,
            ({
                let rem = old(self).rem();
                if rem.len() >= 2 {
                    let path = rem[1].v;
                    let quoted = path.len() >= 1 && path[0] == '"' && path[path.len() - 1] == '"';
                    final(self).position == old(self).position + 2 && opt_node_view(r) == Some(
                        if quoted {
                            NodeV::Import(path)
                        } else {
                            NodeV::Error("Import path must be a quoted string literal."@)
                        },
                    )
                } else {
                    r is None && final(self).position == old(self).position + rem.len()
                }
            }),
    {
        let ghost rem0 = self.rem();
        proof {
            if rem0.len() > 0 {
                assert(rem0[0] == self.tokens@[self.position as int]@);
            }
        }
        let _keyword = match self.advance() {
            Some(t) => t,
            None => {
                return None;
            },
        };
        proof {
            if rem0.len() > 1 {
                assert(rem0[1] == self.tokens@[self.position as int]@);
            }
        }
        let path_token = match self.advance() {
            Some(t) => t,
            None => {
                return None;
            },
        };
        let n = path_token.value.as_str().unicode_len();
        let quoted = if n >= 1 {
            path_token.value.as_str().get_char(0) == '"' && path_token.value.as_str().get_char(
                n - 1,
            ) == '"'
        } else {
            false
        };
        if !quoted {
            let msg = "Import path must be a quoted string literal.".to_owned();
            return Some(ScrollNode::Error(msg));
        }
        Some(ScrollNode::Import(path_token.value))
    }

    /// Return walker: `return value`, a single-token payload.
    pub fn parse_return(&mut self) -> (r: Option<ScrollNode>)
        requires
            old(self).wf(),
        ensures
            final(self).wf(),
            final(self).tokens == old(self).tokens,
            ({
                let rem = old(self).rem();
                if rem.len() >= 2 {
                    final(self).position == old(self).position + 2 && opt_node_view(r) == Some(
                        NodeV::Return(rem[1].v),
                    )
                } else {
                    r is None && final(self).position == old(self).position + rem.len()
                }
            }),
    {
        let ghost rem0 = self.rem();
        proof {
            if rem0.len() > 0 {
                assert(rem0[0] == self.tokens@[self.position as int]@);
            }
        }
        let _keyword = match self.advance() {
            Some(t) => t,
            None => {
                return None;
            },
        };
        proof {
            if rem0.len() > 1 {
                assert(rem0[1] == self.tokens@[self.position as int]@);
            }
        }
        match self.advance() {
            Some(value_token) => Some(ScrollNode::Return(value_token.value)),
            None => None,
        }
    }

    /// Assignment walker for a pre-resolved target: expects `=` then one
    /// value token.
    pub fn parse_assignment(&mut self, target: String) -> (r: Option<ScrollNode>)
        requires
            old(self).wf(),
        ensures
            final(self).wf(),
            final(self).tokens == old(self).tokens,
            ({
                let rem = old(self).rem();
                if rem.len() == 0 {
                    r is None && final(self).position == old(self).position
                } else if rem[0].v != "="@ {
                    final(self).position == old(self).position + 1 && opt_node_view(r) == Some(
                        NodeV::Error(
                            "Expected '=' after '"@ + target@ + "', got '"@ + rem[0].v + "'"@,
                        ),
                    )
                } else if rem.len() == 1 {
                    r is None && final(self).position == old(self).position + 1
                } else {
                    final(self).position == old(self).position + 2 && opt_node_view(r) == Some(
                        NodeV::Assignment { target: target@, value: rem[1].v },
                    )
                }
            }),
    {
        let ghost rem0 = self.rem();
        proof {
            if rem0.len() > 0 {
                assert(rem0[0] == self.tokens@[self.position as int]@);
            }
        }
        let next = match self.advance() {
            Some(t) => t,
            None => {
                return None;
            },
        };
        if !str_eq(next.value.as_str(), "=") {
            let mut msg = String::new();
            msg.append("Expected '=' after '");
            msg.append(target.as_str());
            msg.append("', got '");
            msg.append(next.value.as_str());
            msg.append("'");
            return Some(ScrollNode::Error(msg));
        }
        proof {
            if rem0.len() > 1 {
                assert(rem0[1] == self.tokens@[self.position as int]@);
            }
        }
        match self.advance() {
            Some(value_token) => Some(ScrollNode::Assignment {
                target,
                value: value_token.value,
            }),
            None => None,
        }
    }
}

/// The argument-list scan: raw token values collected until the closing
/// parenthesis, with commas skipped.
pub open spec fn spec_arglist_scan(toks: Seq<TokV>) -> (Seq<Seq<char>>, int)
    decreases toks.len(),
{
    if toks.len() == 0 {
        (Seq::empty(), 0)
    } else if toks[0].v == ")"@ {
        (Seq::empty(), 1)
    } else if toks[0].v == ","@ {
        let rest = spec_arglist_scan(toks.skip(1));
        (rest.0, 1 + rest.1)
    } else {
        let rest = spec_arglist_scan(toks.skip(1));
        (seq![toks[0].v] + rest.0, 1 + rest.1)
    }
}

/// Whether an argument-list scan reaches its closing parenthesis before
/// the end of the stream.
pub open spec fn closes_args(toks: Seq<TokV>) -> bool
    decreases toks.len(),
{
    if toks.len() == 0 {
        false
    } else if toks[0].v == ")"@ {
        true
    } else {
        closes_args(toks.skip(1))
    }
}

/// Consumption bound for the condition scan.
pub proof fn lemma_cond_scan_used(toks: Seq<TokV>)
    ensures
        0 <= spec_cond_scan(toks).1 <= toks.len(),
    decreases toks.len(),
{
    if toks.len() > 0 && !(toks[0].v == "{"@ || toks[0].v == ";"@) {
        lemma_cond_scan_used(toks.skip(1));
    }
}

/// Consumption bound for the argument-list scan.
pub proof fn lemma_arglist_scan_used(toks: Seq<TokV>)
    ensures
        0 <= spec_arglist_scan(toks).1 <= toks.len(),
    decreases toks.len(),
{
    if toks.len() > 0 && toks[0].v != ")"@ {
        lemma_arglist_scan_used(toks.skip(1));
    }
}

// ---------------------------------------------------------------
// Stone serialization and grammar validation
// ---------------------------------------------------------------
/// Single-line rendering of a node, used for the children of a block.
/// A nested block renders as a fixed placeholder.
pub open spec fn node_line(n: NodeV) -> Seq<char> {
    match n {
        NodeV::Instruction { name, args } => name + " "@ + join_spec(args, " "@),
        NodeV::ScrollSentence { subject, verb, object } => subject + " "@ + verb + " "@ + object,
        NodeV::Assignment { target, value } => target + " = "@ + value,
        NodeV::Literal(v) => "literal "@ + v,
        NodeV::Metadata(v) => "meta "@ + v,
        NodeV::Block(_) => "{...}"@,
        NodeV::Error(m) => "!error "@ + m,
        NodeV::Declaration { name, dtype } => "let "@ + name + ": "@ + (match dtype {
            Some(d) => d,
            None => "Unknown"@,
        }),
        NodeV::Conditional { condition, .. } => "if "@ + condition,
        NodeV::Loop { condition, .. } => "loop "@ + condition,
        NodeV::Import(p) => "import "@ + p,
        NodeV::Return(v) => "return "@ + v,
        NodeV::Call { function, args } => function + "("@ + join_spec(args, ", "@) + ")"@,
        NodeV::Comment(t) => "// "@ + t,
    }
}

/// The indented line-per-child body of a block rendering.
pub open spec fn block_lines(children: Seq<NodeV>) -> Seq<char>
    decreases children.len(),
{
    if children.len() == 0 {
        Seq::empty()
    } else {
        "  "@ + node_line(children[0]) + "\n"@ + block_lines(children.drop_first())
    }
}

/// The stone rendering of one top-level node: its prefixed line, or for
/// a block, a braced wrapper with one line per child.
pub open spec fn node_stone(n: NodeV) -> Seq<char> {
    match n {
        NodeV::Block(children) => "{\n"@ + block_lines(children) + "}\n"@,
        _ => node_line(n) + "\n"@,
    }
}

/// The whole-tree stone rendering: one entry per top-level node.
pub open spec fn stone_spec(nodes: Seq<NodeV>) -> Seq<char>
    decreases nodes.len(),
{
    if nodes.len() == 0 {
        Seq::empty()
    } else {
        node_stone(nodes[0]) + stone_spec(nodes.drop_first())
    }
}

/// Renders one node on a single line.
fn node_line_exec(n: &ScrollNode) -> (r: String)
    ensures
        r@ == node_line(n@),
{
    let mut out = String::new();
    match n {
        ScrollNode::Instruction { name, args } => {
            out.append(name.as_str());
            out.append(" ");
            let joined = crate::text::join_strings(args, " ");
            out.append(joined.as_str());
        },
        ScrollNode::ScrollSentence { subject, verb, object } => {
            out.append(subject.as_str());
            out.append(" ");
            out.append(verb.as_str());
            out.append(" ");
            out.append(object.as_str());
        },
        ScrollNode::Assignment { target, value } => {
            out.append(target.as_str());
            out.append(" = ");
            out.append(value.as_str());
        },
        ScrollNode::Literal(v) => {
            out.append("literal ");
            out.append(v.as_str());
        },
        ScrollNode::Metadata(v) => {
            out.append("meta ");
            out.append(v.as_str());
        },
        ScrollNode::Block(_) => {
            out.append("{...}");
        },
        ScrollNode::Error(m) => {
            out.append("!error ");
            out.append(m.as_str());
        },
        ScrollNode::Declaration { name, dtype } => {
            out.append("let ");
            out.append(name.as_str());
            out.append(": ");
            match dtype {
                Some(d) => out.append(d.as_str()),
                None => out.append("Unknown"),
            }
        },
        ScrollNode::Conditional { condition, .. } => {
            out.append("if ");
            out.append(condition.as_str());
        },
        ScrollNode::Loop { condition, .. } => {
            out.append("loop ");
            out.append(condition.as_str());
        },
        ScrollNode::Import(p) => {
            out.append("import ");
            out.append(p.as_str());
        },
        ScrollNode::Return(v) => {
            out.append("return ");
            out.append(v.as_str());
        },
        ScrollNode::Call { function, args } => {
            out.append(function.as_str());
            out.append("(");
            let joined = crate::text::join_strings(args, ", ");
            out.append(joined.as_str());
            out.append(")");
        },
        ScrollNode::Comment(t) => {
            out.append("// ");
            out.append(t.as_str());
        },
    }
    out
}

/// Renders one top-level node in stone form.
fn node_stone_exec(n: &ScrollNode) -> (r: String)
    ensures
        r@ == node_stone(n@),
{
    match n {
        ScrollNode::Block(children) => {
            let mut out = String::new();
            out.append("{\n");
            let ghost kids = n@->Block_0;
            proof {
                reveal_strlit("{\n");
                assert(kids =~= nodes_view(children@));
                assert(out@ =~= "{\n"@);
                assert(out@.len() == 2);
                assert(kids.skip(0) =~= kids);
                assert(out@.skip(2) =~= Seq::<char>::empty());
                assert(out@.skip(2) + block_lines(kids) =~= block_lines(kids));
                assert(out@.subrange(0, 2) =~= "{\n"@);
            }
            let mut i: usize = 0;
            while i < children.len()
                invariant
                    i <= children@.len(),
                    kids == nodes_view(children@),
                    kids.len() == children@.len(),
                    block_lines(kids) == out@.skip(2) + block_lines(kids.skip(i as int)),
                    out@.len() >= 2,
                    out@.subrange(0, 2) == "{\n"@,
                decreases children@.len() - i,
            {
                let ghost out0 = out@;
                let line = node_line_exec(&children[i]);
                out.append("  ");
                out.append(line.as_str());
                out.append("\n");
                i = i + 1;
                proof {
                    assert(kids[i - 1] == node_view(children@[i - 1]));
                    assert(kids.skip(i - 1)[0] == kids[i - 1]);
                    assert(kids.skip(i - 1).drop_first() =~= kids.skip(i as int));
                    assert(block_lines(kids.skip(i - 1)) == "  "@ + node_line(kids[i - 1]) + "\n"@
                        + block_lines(kids.skip(i as int)));
                    assert(out@.skip(2) =~= out0.skip(2) + ("  "@ + node_line(kids[i - 1])
                        + "\n"@));
                    assert(out@.subrange(0, 2) =~= "{\n"@);
                }
            }
            proof {
                assert(block_lines(kids.skip(children@.len() as int)) =~= Seq::<char>::empty());
                assert(block_lines(kids) =~= out@.skip(2));
            }
            out.append("}\n");
            proof {
                assert(out@ =~= "{\n"@ + block_lines(kids) + "}\n"@);
            }
            out
        },
        _ => {
            let mut out = node_line_exec(n);
            out.append("\n");
            out
        },
    }
}

impl ScrollTree {
    /// Serializes the tree into the intermediate stone format: one line
    /// per top-level node, with a fixed prefix per node kind.
    pub fn to_stone(&self) -> (r: String)
        ensures
            r@ == stone_spec(nodes_view(self.nodes@)),
    {
        let ghost all = nodes_view(self.nodes@);
        let mut output = String::new();
        proof {
            assert(all.skip(0) =~= all);
            assert(output@ + stone_spec(all) =~= stone_spec(all));
        }
        let mut i: usize = 0;
        while i < self.nodes.len()
            invariant
                i <= self.nodes@.len(),
                all == nodes_view(self.nodes@),
                all.len() == self.nodes@.len(),
                stone_spec(all) == output@ + stone_spec(all.skip(i as int)),
            decreases self.nodes@.len() - i,
        {
            let ghost out0 = output@;
            let piece = node_stone_exec(&self.nodes[i]);
            output.append(piece.as_str());
            i = i + 1;
            proof {
                assert(all[i - 1] == node_view(self.nodes@[i - 1]));
                assert(all.skip(i - 1)[0] == all[i - 1]);
                assert(all.skip(i - 1).drop_first() =~= all.skip(i as int));
                assert(stone_spec(all.skip(i - 1)) == node_stone(all[i - 1]) + stone_spec(
                    all.skip(i as int),
                ));
            }
        }
        proof {
            assert(stone_spec(all.skip(self.nodes@.len() as int)) =~= Seq::<char>::empty());
            assert(output@ =~= stone_spec(all));
        }
        output
    }

    /// Grammar validation: every sentence must have non-blank parts,
    /// every instruction a registered name, and every return a
    /// meaningful value.
    pub fn validate_with_scripture(&self) -> (r: bool)
        ensures
            r == scripture_ok(nodes_view(self.nodes@)),
    {
        let ghost all = nodes_view(self.nodes@);
        let validator = Parser::new(Vec::new());
        let mut i: usize = 0;
        while i < self.nodes.len()
            invariant
                i <= self.nodes@.len(),
                all == nodes_view(self.nodes@),
                all.len() == self.nodes@.len(),
                forall|j: int| 0 <= j < i ==> node_scripture_ok(#[trigger] all[j]),
            decreases self.nodes@.len() - i,
        {
            proof {
                assert(all[i as int] == node_view(self.nodes@[i as int]));
            }
            match &self.nodes[i] {
                ScrollNode::ScrollSentence { subject, verb, object } => {
                    let ok = validator.is_valid_sentence(
                        subject.as_str(),
                        verb.as_str(),
                        Some(object.as_str()),
                    );
                    if !ok {
                        return false;
                    }
                },
                ScrollNode::Instruction { name, .. } => {
                    let probe = Token::from_value(name.as_str());
                    if validator.decode_instruction(&probe).is_none() {
                        return false;
                    }
                },
                ScrollNode::Return(value) => {
                    let trimmed = crate::text::trim(value.as_str());
                    if trimmed.as_str().unicode_len() == 0 || str_eq(value.as_str(), "None") {
                        return false;
                    }
                },
                _ => {},
            }
            i = i + 1;
        }
        true
    }
}

/// Whether one node meets the grammar expectations: sentences need
/// non-blank parts, instructions a registered name, returns a
/// meaningful value.
pub open spec fn node_scripture_ok(n: NodeV) -> bool {
    match n {
        NodeV::ScrollSentence { subject, verb, object } => trim_spec(subject).len() > 0
            && trim_spec(verb).len() > 0 && trim_spec(object).len() > 0,
        NodeV::Instruction { name, .. } => is_registered(name),
        NodeV::Return(v) => !(trim_spec(v).len() == 0 || v == "None"@),
        _ => true,
    }
}

/// Whether every top-level node meets the grammar expectations.
pub open spec fn scripture_ok(nodes: Seq<NodeV>) -> bool {
    forall|j: int| 0 <= j < nodes.len() ==> node_scripture_ok(#[trigger] nodes[j])
}

// ---------------------------------------------------------------
// Laws of the parser
// ---------------------------------------------------------------
/// Whether a token kind may serve as a positional instruction argument.
pub open spec fn arg_kind(t: TokenType) -> bool {
    t == TokenType::Literal || t == TokenType::Identifier || t == TokenType::Operator
}

/// A well-formed plain instruction statement: a registered instruction
/// keyword followed only by argument tokens, not matching the call or
/// assignment routes.
pub open spec fn plain_instruction_stmt(toks: Seq<TokV>) -> bool {
    &&& toks.len() >= 1
    &&& toks[0].t == TokenType::Instruction
    &&& is_registered(toks[0].v)
    &&& forall|j: int| 1 <= j < toks.len() ==> arg_kind(#[trigger] toks[j].t)
    &&& !(toks.len() >= 2 && toks[1].v == "("@)
    &&& !(toks.len() >= 3 && toks[1].t == TokenType::Identifier && toks[2].v == "="@)
}

/// The greedy argument scan takes a whole run of argument tokens,
/// stopping exactly at a following boundary token.
proof fn lemma_args_scan_prefix(s: Seq<TokV>, rest: Seq<TokV>)
    requires
        forall|j: int| 0 <= j < s.len() ==> arg_kind(#[trigger] s[j].t),
        rest.len() == 0 || (!arg_kind(rest[0].t) && rest[0].t != TokenType::Whitespace),
    ensures
        spec_args_scan(s + rest).0 == s.map_values(|t: TokV| t.v),
        spec_args_scan(s + rest).1 == s.len(),
    decreases s.len(),
{
    let all = s + rest;
    if s.len() == 0 {
        assert(all =~= rest);
        assert(s.map_values(|t: TokV| t.v) =~= Seq::<Seq<char>>::empty());
        if rest.len() > 0 {
            assert(spec_args_scan(rest).0 =~= Seq::<Seq<char>>::empty());
        }
    } else {
        assert(all[0] == s[0]);
        assert(arg_kind(all[0].t));
        assert(all.skip(1) =~= s.skip(1) + rest);
        assert(forall|j: int| 0 <= j < s.skip(1).len() ==> arg_kind(#[trigger] s.skip(1)[j].t));
        lemma_args_scan_prefix(s.skip(1), rest);
        assert(spec_args_scan(all).0 =~= seq![s[0].v] + s.skip(1).map_values(|t: TokV| t.v));
        assert(s.map_values(|t: TokV| t.v) =~= seq![s[0].v] + s.skip(1).map_values(
            |t: TokV| t.v,
        ));
    }
}

/// Round-trip shape: for any token sequence representing a well-formed
/// plain instruction `name arg1 .. argN`, parsing yields exactly one
/// `Instruction` node carrying that name and those arguments, and no
/// `Error` node.
pub proof fn lemma_round_trip_shape(toks: Seq<TokV>)
    requires
        plain_instruction_stmt(toks),
    ensures
        spec_parse_nodes(toks) == seq![
            NodeV::Instruction { name: toks[0].v, args: toks.skip(1).map_values(|t: TokV| t.v) },
        ],
        spec_parse_nodes(toks).len() == 1,
        !(spec_parse_nodes(toks)[0] is Error),
{
    let st = spec_parse_node(toks);
    assert(spec_parse_instruction(toks) == st);
    lemma_args_scan_prefix(toks.skip(1), Seq::empty());
    assert(toks.skip(1) + Seq::<TokV>::empty() =~= toks.skip(1));
    assert(st.node == Some(
        NodeV::Instruction { name: toks[0].v, args: toks.skip(1).map_values(|t: TokV| t.v) },
    ));
    assert(st.used == toks.len());
    lemma_clamp_is_used(toks);
    assert(toks.skip(toks.len() as int).len() == 0);
    assert(spec_parse_nodes(toks.skip(toks.len() as int)) =~= Seq::<NodeV>::empty());
    assert(spec_parse_nodes(toks) =~= seq![
        NodeV::Instruction { name: toks[0].v, args: toks.skip(1).map_values(|t: TokV| t.v) },
    ]);
}

/// Fault isolation: a malformed statement embedded between two
/// well-formed instruction statements yields exactly three top-level
/// nodes; only the middle one is an `Error`, and the outer two parse
/// identically to their isolated results. The malformed statement is
/// formalized as one token of the `Error` kind - how the tokenizer
/// renders unrecognizable input - whose value is not `(` or `=` (values
/// only hand-built tokens could carry there).
pub proof fn lemma_fault_isolation(a: Seq<TokV>, m: TokV, b: Seq<TokV>)
    requires
        plain_instruction_stmt(a),
        plain_instruction_stmt(b),
        m.t == TokenType::Error,
        m.v != "("@,
        m.v != "="@,
    ensures
        spec_parse_nodes(a + seq![m] + b) == spec_parse_nodes(a) + seq![
            NodeV::Error("Unrecognized token: "@ + m.v),
        ] + spec_parse_nodes(b),
        spec_parse_nodes(a + seq![m] + b).len() == 3,
        spec_parse_nodes(a + seq![m] + b)[0] == spec_parse_nodes(a)[0],
        spec_parse_nodes(a + seq![m] + b)[2] == spec_parse_nodes(b)[0],
        !(spec_parse_nodes(a + seq![m] + b)[0] is Error),
        spec_parse_nodes(a + seq![m] + b)[1] is Error,
        !(spec_parse_nodes(a + seq![m] + b)[2] is Error),
{
    let ts = a + seq![m] + b;
    let tail = seq![m] + b;
    assert(ts[0] == a[0]);
    // the embedded statement parses exactly as the isolated one
    assert(ts.skip(1) =~= a.skip(1) + tail);
    if a.len() >= 2 {
        assert(ts[1] == a[1]);
    } else {
        assert(ts[1] == m);
    }
    if a.len() == 2 {
        assert(ts[2] == m);
    }
    assert(!(ts.len() >= 2 && ts[1].v == "("@));
    assert(!(ts.len() >= 3 && ts[1].t == TokenType::Identifier && ts[2].v == "="@)) by {
        if ts.len() >= 3 && ts[1].t == TokenType::Identifier {
            if a.len() == 1 {
                assert(ts[1] == m);
            } else if a.len() == 2 {
                assert(ts[2] == m);
            } else {
                assert(ts[1] == a[1] && ts[2] == a[2]);
            }
        }
    }
    assert(tail[0] == m);
    lemma_args_scan_prefix(a.skip(1), tail);
    let st = spec_parse_node(ts);
    assert(spec_parse_instruction(ts) == st);
    assert(st.node == Some(
        NodeV::Instruction { name: a[0].v, args: a.skip(1).map_values(|t: TokV| t.v) },
    ));
    assert(st.used == a.len());
    lemma_clamp_is_used(ts);
    assert(ts.skip(a.len() as int) =~= tail);
    // the malformed token becomes exactly one error node
    let st2 = spec_parse_node(tail);
    assert(st2.node == Some(NodeV::Error("Unrecognized token: "@ + m.v)));
    assert(st2.used == 1);
    lemma_clamp_is_used(tail);
    assert(tail.skip(1) =~= b);
    // and the trailing statement parses exactly as the isolated one
    lemma_round_trip_shape(a);
    lemma_round_trip_shape(b);
    assert(spec_parse_nodes(ts) == seq![st.node->0] + spec_parse_nodes(ts.skip(a.len() as int)));
    assert(spec_parse_nodes(ts.skip(a.len() as int)) == spec_parse_nodes(tail));
    assert(spec_parse_nodes(tail) == seq![st2.node->0] + spec_parse_nodes(tail.skip(1)));
    assert(spec_parse_nodes(tail.skip(1)) == spec_parse_nodes(b));
    assert(spec_parse_nodes(ts) =~= seq![
        NodeV::Instruction { name: a[0].v, args: a.skip(1).map_values(|t: TokV| t.v) },
    ] + (seq![NodeV::Error("Unrecognized token: "@ + m.v)] + spec_parse_nodes(b)));
    assert(spec_parse_nodes(ts) =~= spec_parse_nodes(a) + seq![
        NodeV::Error("Unrecognized token: "@ + m.v),
    ] + spec_parse_nodes(b));
}

} // verus!





