//! The operand resolver (Bearer): classifies an instruction's raw
//! subject-verb-object fields into typed, trust-scored operands and
//! drives the instruction's readiness state machine. Resolution runs as
//! an eight-stage pipeline over one instruction record at a time; every
//! stage's effect is pinned by the contracts below.
use vstd::prelude::*;

use crate::instruction_registry::{InstructionRegistry, OperandSchema};
use crate::parser::{NodeV, ScrollNode, ScrollTree};
use crate::text::{ieq_spec, str_eq, str_ieq, trim_spec};
use crate::tokenizer::Token;
use crate::watchtower::{DebugEntry, Severity};

verus! {

broadcast use vstd::seq::group_seq_axioms, vstd::std_specs::vec::group_vec_axioms;

/// A resolved operand: a typed value or reference feeding an
/// instruction. Exactly one variant is active; `InvalidOperand` and
/// `Placeholder` are terminal pending states, never silently dropped.
#[derive(Debug)]
pub enum Operand {
    /// A raw literal value with an optional type hint.
    Literal { value: String, dtype: Option<OperandType> },
    /// A symbolic name with an optional scope.
    Binding { name: String, alignment: Option<BindingScope> },
    /// A group of operands used together.
    Group(Vec<Operand>),
    /// An instruction invoked as a sub-expression.
    InstructionCall { name: String, args: Vec<Operand> },
    /// A passive reference to an instruction by name.
    InstructionRef(String),
    /// A path through symbolic scopes or fields.
    PathAccess { path: Vec<String> },
    /// A value that has already been evaluated.
    ResolvedValue(String),
    /// A symbolic gap waiting to be filled.
    Placeholder(String),
    /// Accepts anything during pattern matching.
    Wildcard,
    /// An operand that failed to resolve, kept for diagnosis.
    InvalidOperand(String),
}

/// The declared or inferred data type of an operand.
#[derive(Debug, PartialEq, Eq, Structural, Clone, Copy)]
pub enum OperandType {
    Integer,
    Float,
    Boolean,
    String,
    Symbol,
    Instruction,
    Scroll,
    Path,
    Wildcard,
    Placeholder,
    PreFolded,
    Unknown,
}

/// Where a symbolic binding lives.
#[derive(Debug, PartialEq, Eq, Structural, Clone, Copy)]
pub enum BindingScope {
    Local,
    Global,
    Sacred,
    Captured,
    Runtime,
    Extern,
}

/// Confidence in a resolved operand's meaning: a totally ordered
/// five-value scale, from weakest to strongest
/// `Invalid < Shadowed < Ambiguous < Trusted < Certain`.
#[derive(Debug, PartialEq, Eq, Structural, Clone, Copy)]
pub enum TrustTier {
    /// Fully confident and schema-aligned.
    Certain,
    /// Valid by context but inferred, not declared.
    Trusted,
    /// Multiple meanings possible.
    Ambiguous,
    /// Fallback or guessed meaning.
    Shadowed,
    /// Rejected meaning; structurally invalid.
    Invalid,
}

/// Optional per-operand provenance metadata.
#[derive(Debug)]
pub struct OperandMetadata {
    pub source_scroll: Option<String>,
    pub line_number: Option<usize>,
    pub origin_trace: Option<String>,
    pub display_name: Option<String>,
    pub trust_tier: Option<TrustTier>,
    pub tags: Vec<(String, String)>,
}

/// Readiness of an instruction for the assembler. `ReadyToAssemble` and
/// `Invalid` are terminal; the two `Requires` states may transition back
/// to `ReadyToAssemble` on a later resolver pass.
#[derive(Debug, PartialEq, Eq, Structural, Clone, Copy)]
pub enum InstructionStatus {
    Unresolved,
    ReadyToAssemble,
    RequiresResolution,
    RequiresRewalk,
    Invalid,
}

/// The mathematical image of an operand.
pub ghost enum OperandV {
    Literal { value: Seq<char>, dtype: Option<OperandType> },
    Binding { name: Seq<char>, alignment: Option<BindingScope> },
    Group(Seq<OperandV>),
    InstructionCall { name: Seq<char>, args: Seq<OperandV> },
    InstructionRef(Seq<char>),
    PathAccess(Seq<Seq<char>>),
    ResolvedValue(Seq<char>),
    Placeholder(Seq<char>),
    Wildcard,
    InvalidOperand(Seq<char>),
}

/// The view of one operand.
pub open spec fn op_view(o: Operand) -> OperandV
    decreases o,
{
    match o {
        Operand::Literal { value, dtype } => OperandV::Literal { value: value@, dtype },
        Operand::Binding { name, alignment } => OperandV::Binding { name: name@, alignment },
        Operand::Group(items) => OperandV::Group(
            Seq::new(
                items@.len(),
                |i: int|
                    if 0 <= i < items@.len() {
                        op_view(items@[i])
                    } else {
                        OperandV::Wildcard
                    },
            ),
        ),
        Operand::InstructionCall { name, args } => OperandV::InstructionCall {
            name: name@,
            args: Seq::new(
                args@.len(),
                |i: int|
                    if 0 <= i < args@.len() {
                        op_view(args@[i])
                    } else {
                        OperandV::Wildcard
                    },
            ),
        },
        Operand::InstructionRef(n) => OperandV::InstructionRef(n@),
        Operand::PathAccess { path } => OperandV::PathAccess(
            path@.map_values(|s: String| s@),
        ),
        Operand::ResolvedValue(v) => OperandV::ResolvedValue(v@),
        Operand::Placeholder(p) => OperandV::Placeholder(p@),
        Operand::Wildcard => OperandV::Wildcard,
        Operand::InvalidOperand(t) => OperandV::InvalidOperand(t@),
    }
}

impl View for Operand {
    type V = OperandV;

    open spec fn view(&self) -> OperandV {
        op_view(*self)
    }
}

/// The operand views of an operand list.
pub open spec fn ops_view(v: Seq<Operand>) -> Seq<OperandV> {
    v.map_values(|o: Operand| op_view(o))
}

// ---------------------------------------------------------------
// Trust ordering
// ---------------------------------------------------------------
/// Numeric rank of a trust tier, for the total order
/// `Invalid < Shadowed < Ambiguous < Trusted < Certain`.
pub open spec fn tier_rank(t: TrustTier) -> int {
    match t {
        TrustTier::Invalid => 0,
        TrustTier::Shadowed => 1,
        TrustTier::Ambiguous => 2,
        TrustTier::Trusted => 3,
        TrustTier::Certain => 4,
    }
}

fn tier_rank_exec(t: TrustTier) -> (r: u8)
    ensures
        r as int == tier_rank(t),
{
    match t {
        TrustTier::Invalid => 0,
        TrustTier::Shadowed => 1,
        TrustTier::Ambiguous => 2,
        TrustTier::Trusted => 3,
        TrustTier::Certain => 4,
    }
}

/// The weaker of two tiers.
pub open spec fn tier_min(a: TrustTier, b: TrustTier) -> TrustTier {
    if tier_rank(a) <= tier_rank(b) {
        a
    } else {
        b
    }
}

/// Picks the weaker of two tiers.
pub fn weaker_tier(a: TrustTier, b: TrustTier) -> (r: TrustTier)
    ensures
        r == tier_min(a, b),
{
    if tier_rank_exec(a) <= tier_rank_exec(b) {
        a
    } else {
        b
    }
}

/// The tier the per-variant mapping assigns to one resolved operand:
/// literals are certain, bindings trusted, classification failures
/// shadowed, and everything else ambiguous.
pub open spec fn operand_tier(o: OperandV) -> TrustTier {
    match o {
        OperandV::Literal { .. } => TrustTier::Certain,
        OperandV::Binding { .. } => TrustTier::Trusted,
        OperandV::InvalidOperand(_) => TrustTier::Shadowed,
        _ => TrustTier::Ambiguous,
    }
}

/// The weakest-link cascade: the minimum tier among the resolved
/// operands, or `Certain` for an empty set.
pub open spec fn min_tier(ops: Seq<OperandV>) -> TrustTier
    decreases ops.len(),
{
    if ops.len() == 0 {
        TrustTier::Certain
    } else {
        tier_min(operand_tier(ops[0]), min_tier(ops.drop_first()))
    }
}

/// Whether an operand counts as concretely resolved for readiness:
/// placeholders, instruction references and invalid operands do not.
pub open spec fn operand_ready(o: OperandV) -> bool {
    !(o is Placeholder || o is InstructionRef || o is InvalidOperand)
}

// ---------------------------------------------------------------
// Keyed lists (binding maps and tag maps)
// ---------------------------------------------------------------
/// First value bound to a key in a keyed list, if any.
pub open spec fn lookup_tag(pairs: Seq<(String, String)>, key: Seq<char>) -> Option<Seq<char>>
    decreases pairs.len(),
{
    if pairs.len() == 0 {
        None
    } else if pairs[0].0@ == key {
        Some(pairs[0].1@)
    } else {
        lookup_tag(pairs.drop_first(), key)
    }
}

/// First tier bound to a key in a trust-flag list, if any.
pub open spec fn lookup_flag(pairs: Seq<(String, TrustTier)>, key: Seq<char>) -> Option<TrustTier>
    decreases pairs.len(),
{
    if pairs.len() == 0 {
        None
    } else if pairs[0].0@ == key {
        Some(pairs[0].1)
    } else {
        lookup_flag(pairs.drop_first(), key)
    }
}

/// First operand bound to a key in a binding list, if any.
pub open spec fn lookup_binding(pairs: Seq<(String, Operand)>, key: Seq<char>) -> Option<Operand>
    decreases pairs.len(),
{
    if pairs.len() == 0 {
        None
    } else if pairs[0].0@ == key {
        Some(pairs[0].1)
    } else {
        lookup_binding(pairs.drop_first(), key)
    }
}

/// Replaces the first binding of a key, or appends a new one.
fn upsert_tag(pairs: &mut Vec<(String, String)>, key: &str, value: String)
    ensures
        lookup_tag(final(pairs)@, key@) == Some(value@),
        final(pairs)@.len() >= old(pairs)@.len(),
        forall|k: Seq<char>|
            k != key@ ==> #[trigger] lookup_tag(final(pairs)@, k) == lookup_tag(old(pairs)@, k),
{
    let mut i: usize = 0;
    while i < pairs.len()
        invariant
            i <= pairs@.len(),
            pairs@ == old(pairs)@,
            forall|j: int| 0 <= j < i ==> #[trigger] pairs@[j].0@ != key@,
        decreases pairs@.len() - i,
    {
        if str_eq(pairs[i].0.as_str(), key) {
            let ghost before = pairs@;
            pairs[i] = (key.to_owned(), value);
            proof {
                lemma_lookup_tag_update(before, final(pairs)@, key@, i as int);
            }
            return;
        }
        i = i + 1;
    }
    let ghost before = pairs@;
    pairs.push((key.to_owned(), value));
    proof {
        lemma_lookup_tag_append(before, final(pairs)@, key@);
    }
}

proof fn lemma_lookup_tag_update(
    before: Seq<(String, String)>,
    after: Seq<(String, String)>,
    key: Seq<char>,
    i: int,
)
    requires
        0 <= i < before.len(),
        after.len() == before.len(),
        forall|j: int| 0 <= j < before.len() && j != i ==> after[j] == before[j],
        forall|j: int| 0 <= j < i ==> #[trigger] before[j].0@ != key,
        before[i].0@ == key,
        after[i].0@ == key,
    ensures
        lookup_tag(after, key) == Some(after[i].1@),
        forall|k: Seq<char>| k != key ==> #[trigger] lookup_tag(after, k) == lookup_tag(before, k),
    decreases before.len(),
{
    if i == 0 {
        assert forall|k: Seq<char>| k != key implies #[trigger] lookup_tag(after, k) == lookup_tag(
            before,
            k,
        ) by {
            assert(after[0].0@ == key);
            assert(before[0].0@ == key);
            lemma_lookup_tag_same(after.drop_first(), before.drop_first(), k);
        }
    } else {
        assert(after[0] == before[0]);
        assert(before[0].0@ != key);
        lemma_lookup_tag_update(before.drop_first(), after.drop_first(), key, i - 1);
        assert(after.drop_first()[i - 1] == after[i]);
        assert forall|k: Seq<char>| k != key implies #[trigger] lookup_tag(after, k) == lookup_tag(
            before,
            k,
        ) by {
            assert(lookup_tag(after.drop_first(), k) == lookup_tag(before.drop_first(), k));
        }
    }
}

proof fn lemma_lookup_tag_same(a: Seq<(String, String)>, b: Seq<(String, String)>, k: Seq<char>)
    requires
        a =~= b,
    ensures
        lookup_tag(a, k) == lookup_tag(b, k),
{
}

proof fn lemma_lookup_tag_append(
    before: Seq<(String, String)>,
    after: Seq<(String, String)>,
    key: Seq<char>,
)
    requires
        after.len() == before.len() + 1,
        forall|j: int| 0 <= j < before.len() ==> after[j] == before[j],
        forall|j: int| 0 <= j < before.len() ==> #[trigger] before[j].0@ != key,
        after[before.len() as int].0@ == key,
    ensures
        lookup_tag(after, key) == Some(after[before.len() as int].1@),
        forall|k: Seq<char>| k != key ==> #[trigger] lookup_tag(after, k) == lookup_tag(before, k),
    decreases before.len(),
{
    if before.len() == 0 {
        assert forall|k: Seq<char>| k != key implies #[trigger] lookup_tag(after, k) == lookup_tag(
            before,
            k,
        ) by {
            assert(after.drop_first().len() == 0);
            assert(lookup_tag(after.drop_first(), k) == None::<Seq<char>>);
            assert(lookup_tag(before, k) == None::<Seq<char>>);
        }
    } else {
        assert(after[0] == before[0]);
        lemma_lookup_tag_append(before.drop_first(), after.drop_first(), key);
        assert(after.drop_first()[before.len() - 1] == after[before.len() as int]);
        assert forall|k: Seq<char>| k != key implies #[trigger] lookup_tag(after, k) == lookup_tag(
            before,
            k,
        ) by {
            assert(lookup_tag(after.drop_first(), k) == lookup_tag(before.drop_first(), k));
        }
    }
}

// ---------------------------------------------------------------
// The instruction resolution record
// ---------------------------------------------------------------
/// One instruction's resolution record: its raw fields, its resolved
/// operands, binding trust, readiness, rewalk bookkeeping and metadata.
/// Created when the resolver begins work on one instruction; mutated
/// only by the resolver.
#[derive(Debug)]
pub struct InstructionRecord {
    /// Raw subject field.
    pub subject: String,
    /// Raw verb field.
    pub verb: String,
    /// Raw object field.
    pub object: String,
    /// Source line of origin.
    pub line: usize,
    /// Originating scroll name, when known.
    pub source_scroll: Option<String>,
    /// Optional operand annotation.
    pub operand_hint: Option<String>,
    /// The operands resolution produced.
    pub resolved_operands: Vec<Operand>,
    /// Binding-name to operand map.
    pub operand_bindings: Vec<(String, Operand)>,
    /// Binding-name to trust-tier map.
    pub trust_flags: Vec<(String, TrustTier)>,
    /// The weakest-link summary over the resolved operands.
    pub trust_summary: Option<TrustTier>,
    /// Readiness for the assembler.
    pub status: InstructionStatus,
    /// Set when a re-resolution attempt is called for.
    pub rewalk_flag: bool,
    /// How many times resolution was retried; capped by the caller.
    pub retry_count: u64,
    /// Set when the instruction is escalated to the diagnostic sink.
    pub defer_to_watchtower: bool,
    /// Free-form metadata tags, purely observational.
    pub metadata_tags: Vec<(String, String)>,
    /// The trace records emitted so far, in order.
    pub debug_trace: Vec<DebugEntry>,
}

impl InstructionRecord {
    /// Starts a fresh record over raw fields.
    pub fn new(subject: &str, verb: &str, object: &str, line: usize) -> (r: InstructionRecord)
        ensures
            r.subject@ == subject@,
            r.verb@ == verb@,
            r.object@ == object@,
            r.line == line,
            r.source_scroll is None,
            r.operand_hint is None,
            r.resolved_operands@.len() == 0,
            r.operand_bindings@.len() == 0,
            r.trust_flags@.len() == 0,
            r.trust_summary is None,
            r.status == InstructionStatus::Unresolved,
            !r.rewalk_flag,
            r.retry_count == 0,
            !r.defer_to_watchtower,
            r.metadata_tags@.len() == 0,
            r.debug_trace@.len() == 0,
    {
        InstructionRecord {
            subject: subject.to_owned(),
            verb: verb.to_owned(),
            object: object.to_owned(),
            line,
            source_scroll: None,
            operand_hint: None,
            resolved_operands: Vec::new(),
            operand_bindings: Vec::new(),
            trust_flags: Vec::new(),
            trust_summary: None,
            status: InstructionStatus::Unresolved,
            rewalk_flag: false,
            retry_count: 0,
            defer_to_watchtower: false,
            metadata_tags: Vec::new(),
            debug_trace: Vec::new(),
        }
    }
}

// ---------------------------------------------------------------
// The pipeline, stage by stage, in spec
// ---------------------------------------------------------------
/// The coarse role a verb maps to in the fixed taxonomy.
#[derive(Debug, PartialEq, Eq, Structural, Clone, Copy)]
pub enum VerbRole {
    Assignment,
    Control,
    Mutation,
}

/// The fixed verb taxonomy, matched case-insensitively:
/// `let|set|define` assign, `return|yield` control, `push|append`
/// mutate.
pub open spec fn verb_role(v: Seq<char>) -> Option<VerbRole> {
    if ieq_spec(v, "let"@) || ieq_spec(v, "set"@) || ieq_spec(v, "define"@) {
        Some(VerbRole::Assignment)
    } else if ieq_spec(v, "return"@) || ieq_spec(v, "yield"@) {
        Some(VerbRole::Control)
    } else if ieq_spec(v, "push"@) || ieq_spec(v, "append"@) {
        Some(VerbRole::Mutation)
    } else {
        None
    }
}

/// The provisional operand type a verb's role yields: `Symbol` for an
/// assignment role, `Unknown` otherwise.
pub open spec fn classified_type(v: Seq<char>) -> OperandType {
    if verb_role(v) == Some(VerbRole::Assignment) {
        OperandType::Symbol
    } else {
        OperandType::Unknown
    }
}

/// Whether a raw object looks like a quoted literal.
pub open spec fn literal_shaped(o: Seq<char>) -> bool {
    o.len() >= 2 && o[0] == '"' && o[o.len() - 1] == '"'
}

/// The operand constructed from a trimmed object and the provisional
/// type: a literal shape wins over the classification, the special
/// shapes `_`, `*` and `ref:` yield their meta operands, a symbol
/// classification yields a binding, and anything else is invalid.
pub open spec fn constructed_operand(o: Seq<char>, ty: OperandType) -> OperandV {
    if literal_shaped(o) {
        OperandV::Literal { value: o.subrange(1, o.len() - 1), dtype: None }
    } else if o == "_"@ {
        OperandV::Placeholder("_"@)
    } else if o == "*"@ {
        OperandV::Wildcard
    } else if o.len() >= 4 && o.subrange(0, 4) == "ref:"@ {
        OperandV::InstructionRef(o.skip(4))
    } else if ty == OperandType::Symbol {
        OperandV::Binding { name: o, alignment: None }
    } else {
        OperandV::InvalidOperand(o)
    }
}

/// Whether a record's trimmed fields are all present.
pub open spec fn fields_ok(r: InstructionRecord) -> bool {
    trim_spec(r.subject@).len() > 0 && trim_spec(r.verb@).len() > 0 && trim_spec(r.object@).len()
        > 0
}

/// The operand one full resolution pass constructs for a record.
pub open spec fn pipeline_operand(r: InstructionRecord) -> OperandV {
    constructed_operand(trim_spec(r.object@), classified_type(trim_spec(r.verb@)))
}

/// What a completed resolution pass leaves behind: the operand set is
/// exactly the operand constructed from the raw fields, and the trust
/// summary is the weakest-link cascade over that set.
pub open spec fn resolution_outcome(r: InstructionRecord) -> bool {
    &&& ops_view(r.resolved_operands@) == seq![pipeline_operand(r)]
    &&& r.trust_summary == Some(min_tier(ops_view(r.resolved_operands@)))
}

/// The diagnostic label of a trust tier.
pub open spec fn tier_label(t: TrustTier) -> Seq<char> {
    match t {
        TrustTier::Certain => "Certain"@,
        TrustTier::Trusted => "Trusted"@,
        TrustTier::Ambiguous => "Ambiguous"@,
        TrustTier::Shadowed => "Shadowed"@,
        TrustTier::Invalid => "Invalid"@,
    }
}

fn tier_label_exec(t: TrustTier) -> (r: &'static str)
    ensures
        r@ == tier_label(t),
{
    match t {
        TrustTier::Certain => "Certain",
        TrustTier::Trusted => "Trusted",
        TrustTier::Ambiguous => "Ambiguous",
        TrustTier::Shadowed => "Shadowed",
        TrustTier::Invalid => "Invalid",
    }
}

/// The diagnostic label of a readiness status.
pub open spec fn status_label(st: InstructionStatus) -> Seq<char> {
    match st {
        InstructionStatus::Unresolved => "Unresolved"@,
        InstructionStatus::ReadyToAssemble => "ReadyToAssemble"@,
        InstructionStatus::RequiresResolution => "RequiresResolution"@,
        InstructionStatus::RequiresRewalk => "RequiresRewalk"@,
        InstructionStatus::Invalid => "Invalid"@,
    }
}

fn status_label_exec(st: InstructionStatus) -> (r: &'static str)
    ensures
        r@ == status_label(st),
{
    match st {
        InstructionStatus::Unresolved => "Unresolved",
        InstructionStatus::ReadyToAssemble => "ReadyToAssemble",
        InstructionStatus::RequiresResolution => "RequiresResolution",
        InstructionStatus::RequiresRewalk => "RequiresRewalk",
        InstructionStatus::Invalid => "Invalid",
    }
}

/// The assembler-readiness label of a status.
pub open spec fn resolution_state_label(st: InstructionStatus) -> Seq<char> {
    match st {
        InstructionStatus::ReadyToAssemble => "Final"@,
        InstructionStatus::RequiresResolution => "Pending"@,
        InstructionStatus::RequiresRewalk => "Rewalk"@,
        InstructionStatus::Invalid => "Invalid"@,
        InstructionStatus::Unresolved => "Unresolved"@,
    }
}

fn resolution_state_label_exec(st: InstructionStatus) -> (r: &'static str)
    ensures
        r@ == resolution_state_label(st),
{
    match st {
        InstructionStatus::ReadyToAssemble => "Final",
        InstructionStatus::RequiresResolution => "Pending",
        InstructionStatus::RequiresRewalk => "Rewalk",
        InstructionStatus::Invalid => "Invalid",
        InstructionStatus::Unresolved => "Unresolved",
    }
}

/// The operand-role label of the first resolved operand.
pub open spec fn role_label(o: OperandV) -> Seq<char> {
    match o {
        OperandV::Binding { .. } => "Binding"@,
        OperandV::Literal { .. } => "Literal"@,
        OperandV::InstructionRef(_) => "InstructionRef"@,
        OperandV::Placeholder(_) => "Placeholder"@,
        OperandV::Wildcard => "Wildcard"@,
        OperandV::InvalidOperand(_) => "Invalid"@,
        OperandV::Group(_) => "Group"@,
        OperandV::InstructionCall { .. } => "InstructionCall"@,
        OperandV::PathAccess(_) => "PathAccess"@,
        OperandV::ResolvedValue(_) => "ResolvedValue"@,
    }
}

fn role_label_exec(o: &Operand) -> (r: &'static str)
    ensures
        r@ == role_label(o@),
{
    match o {
        Operand::Binding { .. } => "Binding",
        Operand::Literal { .. } => "Literal",
        Operand::InstructionRef(_) => "InstructionRef",
        Operand::Placeholder(_) => "Placeholder",
        Operand::Wildcard => "Wildcard",
        Operand::InvalidOperand(_) => "Invalid",
        Operand::Group(_) => "Group",
        Operand::InstructionCall { .. } => "InstructionCall",
        Operand::PathAccess { .. } => "PathAccess",
        Operand::ResolvedValue(_) => "ResolvedValue",
    }
}

// ---------------------------------------------------------------
// The Bearer and its pipeline
// ---------------------------------------------------------------
/// The operand resolver's working context: the schema registry, the
/// current walk state and the accumulated operands and trace.
pub struct Bearer {
    /// Registry for schema lookup and arity rules.
    pub instruction_registry: InstructionRegistry,
    /// Token stream of the scroll under interpretation.
    pub tokens: Vec<Token>,
    /// Name of the instruction being processed, if any.
    pub current_instruction: Option<String>,
    /// Operands resolved by the tree walk.
    pub resolved_operands: Vec<Operand>,
    /// Trace records captured during resolution.
    pub debug_trace: Vec<DebugEntry>,
    /// Parsed scroll tree handed in for walking.
    pub scroll_tree: Option<ScrollTree>,
    /// Node currently under analysis.
    pub current_node: Option<ScrollNode>,
    /// Schema loaded for the current instruction.
    pub instruction_schema: Option<OperandSchema>,
    /// Binding-name to operand map.
    pub operand_bindings: Vec<(String, Operand)>,
    /// Binding-name to trust-tier map.
    pub trust_flags: Vec<(String, TrustTier)>,
    /// Resolution issues needing attention.
    pub errors: Vec<DebugEntry>,
    /// Symbolic tag for nested operand contexts.
    pub context_id: Option<String>,
}

/// Whether a status may still be worked on: the terminal states
/// `ReadyToAssemble` and `Invalid` may not.
pub open spec fn is_active(st: InstructionStatus) -> bool {
    st != InstructionStatus::ReadyToAssemble && st != InstructionStatus::Invalid
}

/// A retry count bumped by one, saturating at the top.
pub open spec fn bump(n: u64) -> u64 {
    if n == u64::MAX {
        n
    } else {
        (n + 1) as u64
    }
}

/// All record fields except the debug trace are unchanged.
pub open spec fn same_but_trace(a: InstructionRecord, b: InstructionRecord) -> bool {
    &&& a.subject == b.subject
    &&& a.verb == b.verb
    &&& a.object == b.object
    &&& a.line == b.line
    &&& a.source_scroll == b.source_scroll
    &&& a.operand_hint == b.operand_hint
    &&& a.resolved_operands == b.resolved_operands
    &&& a.operand_bindings == b.operand_bindings
    &&& a.trust_flags == b.trust_flags
    &&& a.trust_summary == b.trust_summary
    &&& a.status == b.status
    &&& a.rewalk_flag == b.rewalk_flag
    &&& a.retry_count == b.retry_count
    &&& a.defer_to_watchtower == b.defer_to_watchtower
    &&& a.metadata_tags == b.metadata_tags
}

/// The raw input fields and bookkeeping identity of a record are
/// unchanged (trace, operands, trust, status and tags may differ).
pub open spec fn same_inputs(a: InstructionRecord, b: InstructionRecord) -> bool {
    &&& a.subject == b.subject
    &&& a.verb == b.verb
    &&& a.object == b.object
    &&& a.line == b.line
    &&& a.source_scroll == b.source_scroll
    &&& a.operand_hint == b.operand_hint
}

/// The trace has only been appended to.
pub open spec fn trace_extended(a: InstructionRecord, b: InstructionRecord) -> bool {
    a.debug_trace@.is_prefix_of(b.debug_trace@)
}

impl Bearer {
    /// A fresh resolver with an empty working context over the full
    /// instruction registry.
    pub fn new() -> (r: Bearer)
        ensures
            r.instruction_registry.wf(),
            forall|name: Seq<char>| #[trigger] r.instruction_registry.spec_contains(name)
                <==> crate::instruction_registry::is_registered(name),
            forall|i: int|
                0 <= i < r.instruction_registry.entries@.len()
                    ==> crate::instruction_registry::schema_arity_of(
                    #[trigger] r.instruction_registry.entries@[i],
                ) == crate::instruction_registry::registered_arity(
                    r.instruction_registry.entries@[i].keyword@,
                ),
            r.tokens@.len() == 0,
            r.current_instruction is None,
            r.resolved_operands@.len() == 0,
            r.debug_trace@.len() == 0,
            r.scroll_tree is None,
            r.current_node is None,
            r.instruction_schema is None,
            r.operand_bindings@.len() == 0,
            r.trust_flags@.len() == 0,
            r.errors@.len() == 0,
            r.context_id is None,
    {
        Bearer {
            instruction_registry: crate::instruction_registry::get_instruction_registry(),
            tokens: Vec::new(),
            current_instruction: None,
            resolved_operands: Vec::new(),
            debug_trace: Vec::new(),
            scroll_tree: None,
            current_node: None,
            instruction_schema: None,
            operand_bindings: Vec::new(),
            trust_flags: Vec::new(),
            errors: Vec::new(),
            context_id: None,
        }
    }

    /// Names the component.
    pub fn identity() -> (r: &'static str)
        ensures
            r@ == "Bearer (Operand Resolver)"@,
    {
        "Bearer (Operand Resolver)"
    }

    /// Stage 1: trims the record's raw fields, emitting a trace record
    /// for each one found empty.
    pub fn extract_fields(record: &mut InstructionRecord) -> (r: (String, String, String))
        ensures
            same_but_trace(*old(record), *final(record)),
            trace_extended(*old(record), *final(record)),
            r.0@ == trim_spec(old(record).subject@),
            r.1@ == trim_spec(old(record).verb@),
            r.2@ == trim_spec(old(record).object@),
    {
        let subject = crate::text::trim(record.subject.as_str());
        let verb = crate::text::trim(record.verb.as_str());
        let object = crate::text::trim(record.object.as_str());
        if subject.as_str().unicode_len() == 0 {
            let e = DebugEntry::new(
                record.line,
                "Subject field is empty - malformed instruction detected.",
                Severity::Broken,
            );
            record.debug_trace.push(e);
        }
        if verb.as_str().unicode_len() == 0 {
            let e = DebugEntry::new(
                record.line,
                "Verb field is empty - intent of instruction unclear.",
                Severity::Drifted,
            );
            record.debug_trace.push(e);
        }
        if object.as_str().unicode_len() == 0 {
            let e = DebugEntry::new(
                record.line,
                "Object field is empty - operand construction may fail.",
                Severity::Shadowed,
            );
            record.debug_trace.push(e);
        }
        (subject, verb, object)
    }

    /// Stage 2: maps the verb to its taxonomy role.
    pub fn match_verb_taxonomy(verb: &str) -> (r: Option<VerbRole>)
        ensures
            r == verb_role(verb@),
    {
        if str_ieq(verb, "let") || str_ieq(verb, "set") || str_ieq(verb, "define") {
            Some(VerbRole::Assignment)
        } else if str_ieq(verb, "return") || str_ieq(verb, "yield") {
            Some(VerbRole::Control)
        } else if str_ieq(verb, "push") || str_ieq(verb, "append") {
            Some(VerbRole::Mutation)
        } else {
            None
        }
    }

    /// Stage 2: classifies the provisional operand type from the
    /// subject-verb-object form; only the verb decides.
    pub fn classify_pattern(subject: &str, verb: &str, object: &str) -> (r: OperandType)
        ensures
            r == classified_type(verb@),
    {
        let _ = subject;
        let _ = object;
        match Bearer::match_verb_taxonomy(verb) {
            Some(VerbRole::Assignment) => OperandType::Symbol,
            Some(VerbRole::Control) => OperandType::Unknown,
            Some(VerbRole::Mutation) => OperandType::Unknown,
            None => OperandType::Unknown,
        }
    }

    /// Stage 2: flags an unclassified form for assisted deduction.
    pub fn flag_for_ai_deduction(record: &mut InstructionRecord)
        ensures
            same_but_trace(*old(record), *final(record)),
            trace_extended(*old(record), *final(record)),
            final(record).debug_trace@.len() == old(record).debug_trace@.len() + 1,
            final(record).debug_trace@.last().severity == Severity::Drifted,
    {
        let e = DebugEntry::new(
            record.line,
            "Unrecognized operand form - flagged for AI-based deduction.",
            Severity::Drifted,
        );
        record.debug_trace.push(e);
    }

    /// Stage 3: builds the concrete operand from the trimmed object
    /// text and the provisional type.
    pub fn build_operand(object: &str, operand_type: OperandType) -> (r: Operand)
        ensures
            r@ == constructed_operand(object@, operand_type),
    {
        let n = object.unicode_len();
        let shaped = n >= 2 && object.get_char(0) == '"' && object.get_char(n - 1) == '"';
        if shaped {
            let inner = object.substring_char(1, n - 1);
            let r = Operand::Literal { value: inner.to_owned(), dtype: None };
            proof {
                assert(r@->Literal_value =~= object@.subrange(1, object@.len() - 1));
            }
            return r;
        }
        if str_eq(object, "_") {
            let r = Operand::Placeholder("_".to_owned());
            return r;
        }
        if str_eq(object, "*") {
            return Operand::Wildcard;
        }
        let reffed = n >= 4 && str_eq(object.substring_char(0, 4), "ref:");
        if reffed {
            let rest = object.substring_char(4, n);
            let r = Operand::InstructionRef(rest.to_owned());
            proof {
                assert(r@->InstructionRef_0 =~= object@.skip(4));
            }
            return r;
        }
        if operand_type == OperandType::Symbol {
            return Operand::Binding { name: object.to_owned(), alignment: None };
        }
        Operand::InvalidOperand(object.to_owned())
    }

    /// Stage 5 mapping: the trust tier of one resolved operand.
    pub fn mark_trust_level(&self, operand: &Operand) -> (r: TrustTier)
        ensures
            r == operand_tier(operand@),
    {
        match operand {
            Operand::Literal { .. } => TrustTier::Certain,
            Operand::Binding { .. } => TrustTier::Trusted,
            Operand::InvalidOperand(_) => TrustTier::Shadowed,
            _ => TrustTier::Ambiguous,
        }
    }

    /// Stage 3A: records a binding operand in the record's binding and
    /// trust-flag maps, and hands back its tier.
    pub fn refine_operand(record: &mut InstructionRecord, operand: &Operand) -> (r: TrustTier)
        ensures
            same_inputs(*old(record), *final(record)),
            trace_extended(*old(record), *final(record)),
            final(record).debug_trace == old(record).debug_trace,
            final(record).resolved_operands == old(record).resolved_operands,
            final(record).trust_summary == old(record).trust_summary,
            final(record).status == old(record).status,
            final(record).rewalk_flag == old(record).rewalk_flag,
            final(record).retry_count == old(record).retry_count,
            final(record).defer_to_watchtower == old(record).defer_to_watchtower,
            final(record).metadata_tags == old(record).metadata_tags,
            r == operand_tier(operand@),
            operand@ matches OperandV::Binding { name, .. } ==> lookup_flag(
                final(record).trust_flags@,
                name,
            ) == Some(r),
            operand@ matches OperandV::Binding { name, .. } ==> (lookup_binding(
                final(record).operand_bindings@,
                name,
            ) matches Some(stored) && stored == *operand),
            !(operand@ is Binding) ==> final(record).trust_flags == old(record).trust_flags
                && final(record).operand_bindings == old(record).operand_bindings,
    {
        match operand {
            Operand::Binding { name, alignment } => {
                let copy = Operand::Binding {
                    name: name.clone(),
                    alignment: match alignment {
                        Some(a) => Some(*a),
                        None => None,
                    },
                };
                upsert_binding(&mut record.operand_bindings, name.as_str(), copy);
                upsert_flag(&mut record.trust_flags, name.as_str(), TrustTier::Trusted);
                TrustTier::Trusted
            },
            Operand::Literal { .. } => TrustTier::Certain,
            Operand::InvalidOperand(_) => TrustTier::Shadowed,
            _ => TrustTier::Ambiguous,
        }
    }
}

/// Replaces the first operand bound to a key, or appends a new binding.
fn upsert_binding(pairs: &mut Vec<(String, Operand)>, key: &str, value: Operand)
    ensures
        lookup_binding(final(pairs)@, key@) == Some(value),
        final(pairs)@.len() >= old(pairs)@.len(),
        forall|k: Seq<char>|
            k != key@ ==> #[trigger] lookup_binding(final(pairs)@, k) == lookup_binding(
                old(pairs)@,
                k,
            ),
{
    let mut i: usize = 0;
    while i < pairs.len()
        invariant
            i <= pairs@.len(),
            pairs@ == old(pairs)@,
            forall|j: int| 0 <= j < i ==> #[trigger] pairs@[j].0@ != key@,
        decreases pairs@.len() - i,
    {
        if str_eq(pairs[i].0.as_str(), key) {
            let ghost before = pairs@;
            pairs[i] = (key.to_owned(), value);
            proof {
                lemma_lookup_binding_update(before, final(pairs)@, key@, i as int);
            }
            return;
        }
        i = i + 1;
    }
    let ghost before = pairs@;
    pairs.push((key.to_owned(), value));
    proof {
        lemma_lookup_binding_append(before, final(pairs)@, key@);
    }
}

proof fn lemma_lookup_binding_update(
    before: Seq<(String, Operand)>,
    after: Seq<(String, Operand)>,
    key: Seq<char>,
    i: int,
)
    requires
        0 <= i < before.len(),
        after.len() == before.len(),
        forall|j: int| 0 <= j < before.len() && j != i ==> after[j] == before[j],
        forall|j: int| 0 <= j < i ==> #[trigger] before[j].0@ != key,
        before[i].0@ == key,
        after[i].0@ == key,
    ensures
        lookup_binding(after, key) == Some(after[i].1),
        forall|k: Seq<char>|
            k != key ==> #[trigger] lookup_binding(after, k) == lookup_binding(before, k),
    decreases before.len(),
{
    if i == 0 {
        assert forall|k: Seq<char>| k != key implies #[trigger] lookup_binding(after, k)
            == lookup_binding(before, k) by {
            assert(after.drop_first() =~= before.drop_first());
        }
    } else {
        assert(after[0] == before[0]);
        assert(before[0].0@ != key);
        lemma_lookup_binding_update(before.drop_first(), after.drop_first(), key, i - 1);
        assert(after.drop_first()[i - 1] == after[i]);
        assert forall|k: Seq<char>| k != key implies #[trigger] lookup_binding(after, k)
            == lookup_binding(before, k) by {
            assert(lookup_binding(after.drop_first(), k) == lookup_binding(before.drop_first(), k));
        }
    }
}

proof fn lemma_lookup_binding_append(
    before: Seq<(String, Operand)>,
    after: Seq<(String, Operand)>,
    key: Seq<char>,
)
    requires
        after.len() == before.len() + 1,
        forall|j: int| 0 <= j < before.len() ==> after[j] == before[j],
        forall|j: int| 0 <= j < before.len() ==> #[trigger] before[j].0@ != key,
        after[before.len() as int].0@ == key,
    ensures
        lookup_binding(after, key) == Some(after[before.len() as int].1),
        forall|k: Seq<char>|
            k != key ==> #[trigger] lookup_binding(after, k) == lookup_binding(before, k),
    decreases before.len(),
{
    if before.len() == 0 {
        assert forall|k: Seq<char>| k != key implies #[trigger] lookup_binding(after, k)
            == lookup_binding(before, k) by {
            assert(after.drop_first().len() == 0);
            assert(lookup_binding(after.drop_first(), k) == None::<Operand>);
            assert(lookup_binding(before, k) == None::<Operand>);
        }
    } else {
        assert(after[0] == before[0]);
        lemma_lookup_binding_append(before.drop_first(), after.drop_first(), key);
        assert(after.drop_first()[before.len() - 1] == after[before.len() as int]);
        assert forall|k: Seq<char>| k != key implies #[trigger] lookup_binding(after, k)
            == lookup_binding(before, k) by {
            assert(lookup_binding(after.drop_first(), k) == lookup_binding(before.drop_first(), k));
        }
    }
}

/// Replaces the first tier bound to a key, or appends a new flag.
fn upsert_flag(pairs: &mut Vec<(String, TrustTier)>, key: &str, value: TrustTier)
    ensures
        lookup_flag(final(pairs)@, key@) == Some(value),
        final(pairs)@.len() >= old(pairs)@.len(),
        forall|k: Seq<char>|
            k != key@ ==> #[trigger] lookup_flag(final(pairs)@, k) == lookup_flag(old(pairs)@, k),
{
    let mut i: usize = 0;
    while i < pairs.len()
        invariant
            i <= pairs@.len(),
            pairs@ == old(pairs)@,
            forall|j: int| 0 <= j < i ==> #[trigger] pairs@[j].0@ != key@,
        decreases pairs@.len() - i,
    {
        if str_eq(pairs[i].0.as_str(), key) {
            let ghost before = pairs@;
            pairs[i] = (key.to_owned(), value);
            proof {
                lemma_lookup_flag_update(before, final(pairs)@, key@, i as int);
            }
            return;
        }
        i = i + 1;
    }
    let ghost before = pairs@;
    pairs.push((key.to_owned(), value));
    proof {
        lemma_lookup_flag_append(before, final(pairs)@, key@);
    }
}

proof fn lemma_lookup_flag_update(
    before: Seq<(String, TrustTier)>,
    after: Seq<(String, TrustTier)>,
    key: Seq<char>,
    i: int,
)
    requires
        0 <= i < before.len(),
        after.len() == before.len(),
        forall|j: int| 0 <= j < before.len() && j != i ==> after[j] == before[j],
        forall|j: int| 0 <= j < i ==> #[trigger] before[j].0@ != key,
        before[i].0@ == key,
        after[i].0@ == key,
    ensures
        lookup_flag(after, key) == Some(after[i].1),
        forall|k: Seq<char>| k != key ==> #[trigger] lookup_flag(after, k) == lookup_flag(before, k),
    decreases before.len(),
{
    if i == 0 {
        assert forall|k: Seq<char>| k != key implies #[trigger] lookup_flag(after, k)
            == lookup_flag(before, k) by {
            assert(after.drop_first() =~= before.drop_first());
        }
    } else {
        assert(after[0] == before[0]);
        assert(before[0].0@ != key);
        lemma_lookup_flag_update(before.drop_first(), after.drop_first(), key, i - 1);
        assert(after.drop_first()[i - 1] == after[i]);
        assert forall|k: Seq<char>| k != key implies #[trigger] lookup_flag(after, k)
            == lookup_flag(before, k) by {
            assert(lookup_flag(after.drop_first(), k) == lookup_flag(before.drop_first(), k));
        }
    }
}

proof fn lemma_lookup_flag_append(
    before: Seq<(String, TrustTier)>,
    after: Seq<(String, TrustTier)>,
    key: Seq<char>,
)
    requires
        after.len() == before.len() + 1,
        forall|j: int| 0 <= j < before.len() ==> after[j] == before[j],
        forall|j: int| 0 <= j < before.len() ==> #[trigger] before[j].0@ != key,
        after[before.len() as int].0@ == key,
    ensures
        lookup_flag(after, key) == Some(after[before.len() as int].1),
        forall|k: Seq<char>| k != key ==> #[trigger] lookup_flag(after, k) == lookup_flag(before, k),
    decreases before.len(),
{
    if before.len() == 0 {
        assert forall|k: Seq<char>| k != key implies #[trigger] lookup_flag(after, k)
            == lookup_flag(before, k) by {
            assert(after.drop_first().len() == 0);
            assert(lookup_flag(after.drop_first(), k) == None::<TrustTier>);
            assert(lookup_flag(before, k) == None::<TrustTier>);
        }
    } else {
        assert(after[0] == before[0]);
        lemma_lookup_flag_append(before.drop_first(), after.drop_first(), key);
        assert(after.drop_first()[before.len() - 1] == after[before.len() as int]);
        assert forall|k: Seq<char>| k != key implies #[trigger] lookup_flag(after, k)
            == lookup_flag(before, k) by {
            assert(lookup_flag(after.drop_first(), k) == lookup_flag(before.drop_first(), k));
        }
    }
}

/// Whether any resolved operand is a placeholder.
pub open spec fn has_placeholder(ops: Seq<OperandV>) -> bool {
    exists|i: int| 0 <= i < ops.len() && (#[trigger] ops[i]) is Placeholder
}

/// Whether any resolved operand is invalid.
pub open spec fn has_invalid(ops: Seq<OperandV>) -> bool {
    exists|i: int| 0 <= i < ops.len() && (#[trigger] ops[i]) is InvalidOperand
}

/// Whether a trust summary is low enough to call for a rewalk.
pub open spec fn low_trust(s: Option<TrustTier>) -> bool {
    s == Some(TrustTier::Shadowed) || s == Some(TrustTier::Ambiguous)
}

/// The trace severity a readiness status maps to.
pub open spec fn status_severity(st: InstructionStatus) -> Severity {
    match st {
        InstructionStatus::ReadyToAssemble => Severity::Valid,
        InstructionStatus::RequiresResolution => Severity::Drifted,
        InstructionStatus::RequiresRewalk => Severity::Shadowed,
        InstructionStatus::Invalid => Severity::Broken,
        InstructionStatus::Unresolved => Severity::Drifted,
    }
}

fn status_severity_exec(st: InstructionStatus) -> (r: Severity)
    ensures
        r == status_severity(st),
{
    match st {
        InstructionStatus::ReadyToAssemble => Severity::Valid,
        InstructionStatus::RequiresResolution => Severity::Drifted,
        InstructionStatus::RequiresRewalk => Severity::Shadowed,
        InstructionStatus::Invalid => Severity::Broken,
        InstructionStatus::Unresolved => Severity::Drifted,
    }
}

/// Executable readiness check for one operand.
fn operand_ready_exec(o: &Operand) -> (r: bool)
    ensures
        r == operand_ready(o@),
{
    match o {
        Operand::Placeholder(_) => false,
        Operand::InstructionRef(_) => false,
        Operand::InvalidOperand(_) => false,
        _ => true,
    }
}

/// Executable per-variant trust mapping for one operand.
fn operand_tier_exec(o: &Operand) -> (r: TrustTier)
    ensures
        r == operand_tier(o@),
{
    match o {
        Operand::Literal { .. } => TrustTier::Certain,
        Operand::Binding { .. } => TrustTier::Trusted,
        Operand::InvalidOperand(_) => TrustTier::Shadowed,
        _ => TrustTier::Ambiguous,
    }
}

impl Bearer {
    /// Stage 4: updates readiness from the resolution outcome. A clear
    /// resolution is marked ready; otherwise the instruction requires
    /// resolution, and a low cascaded trust additionally triggers the
    /// rewalk flag, a retry increment and deferral to the watchtower.
    pub fn update_instruction_state(record: &mut InstructionRecord, resolved: bool)
        ensures
            same_inputs(*old(record), *final(record)),
            trace_extended(*old(record), *final(record)),
            final(record).resolved_operands == old(record).resolved_operands,
            final(record).operand_bindings == old(record).operand_bindings,
            final(record).trust_flags == old(record).trust_flags,
            final(record).trust_summary == old(record).trust_summary,
            final(record).metadata_tags == old(record).metadata_tags,
            resolved ==> final(record).status == InstructionStatus::ReadyToAssemble
                && final(record).rewalk_flag == old(record).rewalk_flag
                && final(record).retry_count == old(record).retry_count
                && final(record).defer_to_watchtower == old(record).defer_to_watchtower,
            !resolved ==> final(record).status == InstructionStatus::RequiresResolution,
            !resolved && low_trust(old(record).trust_summary) ==> final(record).rewalk_flag
                && final(record).retry_count == bump(old(record).retry_count)
                && final(record).defer_to_watchtower,
            !resolved && !low_trust(old(record).trust_summary) ==> final(record).rewalk_flag
                == old(record).rewalk_flag && final(record).retry_count == old(record).retry_count
                && final(record).defer_to_watchtower == old(record).defer_to_watchtower,
    {
        if resolved {
            record.status = InstructionStatus::ReadyToAssemble;
            let e = DebugEntry::new(
                record.line,
                "Operands resolved - instruction marked ReadyToAssemble.",
                Severity::Valid,
            );
            record.debug_trace.push(e);
        } else {
            record.status = InstructionStatus::RequiresResolution;
            let e = DebugEntry::new(
                record.line,
                "Operands incomplete - instruction marked RequiresResolution.",
                Severity::Drifted,
            );
            record.debug_trace.push(e);
            let low = match record.trust_summary {
                Some(TrustTier::Shadowed) => true,
                Some(TrustTier::Ambiguous) => true,
                _ => false,
            };
            if low {
                record.rewalk_flag = true;
                if record.retry_count != u64::MAX {
                    record.retry_count = record.retry_count + 1;
                }
                record.defer_to_watchtower = true;
                let e2 = DebugEntry::new(
                    record.line,
                    "Low trust tier - rewalk triggered on this instruction.",
                    Severity::Shadowed,
                );
                record.debug_trace.push(e2);
            } else {
                let e2 = DebugEntry::new(
                    record.line,
                    "Trust sufficient - no rewalk triggered.",
                    Severity::Valid,
                );
                record.debug_trace.push(e2);
            }
        }
    }

    /// Stage 5: sets the instruction's trust summary to the minimum
    /// tier across its resolved operands (the weakest-link rule).
    pub fn cascade_trust_summary(record: &mut InstructionRecord)
        ensures
            same_inputs(*old(record), *final(record)),
            trace_extended(*old(record), *final(record)),
            final(record).resolved_operands == old(record).resolved_operands,
            final(record).operand_bindings == old(record).operand_bindings,
            final(record).trust_flags == old(record).trust_flags,
            final(record).status == old(record).status,
            final(record).rewalk_flag == old(record).rewalk_flag,
            final(record).retry_count == old(record).retry_count,
            final(record).defer_to_watchtower == old(record).defer_to_watchtower,
            final(record).metadata_tags == old(record).metadata_tags,
            final(record).trust_summary == Some(min_tier(ops_view(old(record).resolved_operands@))),
    {
        let ghost opsv = ops_view(record.resolved_operands@);
        let mut lowest = TrustTier::Certain;
        let mut i: usize = record.resolved_operands.len();
        proof {
            assert(opsv.skip(i as int).len() == 0);
        }
        while i > 0
            invariant
                i <= record.resolved_operands@.len(),
                opsv == ops_view(record.resolved_operands@),
                opsv.len() == record.resolved_operands@.len(),
                lowest == min_tier(opsv.skip(i as int)),
                record == old(record),
            decreases i,
        {
            i = i - 1;
            let t = operand_tier_exec(&record.resolved_operands[i]);
            lowest = weaker_tier(t, lowest);
            proof {
                assert(opsv.skip(i as int)[0] == opsv[i as int]);
                assert(opsv.skip(i as int).drop_first() =~= opsv.skip(i + 1));
                assert(opsv[i as int] == op_view(record.resolved_operands@[i as int]));
            }
        }
        proof {
            assert(opsv.skip(0) =~= opsv);
        }
        record.trust_summary = Some(lowest);
        let label = tier_label_exec(lowest);
        let mut msg = String::new();
        msg.append("TrustTier summary cascaded: ");
        msg.append(label);
        let e = DebugEntry::new(record.line, msg.as_str(), Severity::Valid);
        record.debug_trace.push(e);
    }

    /// Stage 6: a placeholder or invalid operand in the resolved set
    /// sets the rewalk flag; an invalid operand additionally escalates
    /// to the watchtower; a pending resolution becomes a rewalk. A
    /// ready or otherwise settled status is never downgraded here.
    pub fn check_for_rewalk(record: &mut InstructionRecord)
        ensures
            same_inputs(*old(record), *final(record)),
            trace_extended(*old(record), *final(record)),
            final(record).resolved_operands == old(record).resolved_operands,
            final(record).operand_bindings == old(record).operand_bindings,
            final(record).trust_flags == old(record).trust_flags,
            final(record).trust_summary == old(record).trust_summary,
            final(record).retry_count == old(record).retry_count,
            final(record).metadata_tags == old(record).metadata_tags,
            ({
                let ops = ops_view(old(record).resolved_operands@);
                &&& final(record).rewalk_flag == (old(record).rewalk_flag || has_placeholder(ops)
                    || has_invalid(ops))
                &&& final(record).defer_to_watchtower == (old(record).defer_to_watchtower
                    || has_invalid(ops))
                &&& final(record).status == (if (has_placeholder(ops) || has_invalid(ops))
                    && old(record).status == InstructionStatus::RequiresResolution {
                    InstructionStatus::RequiresRewalk
                } else {
                    old(record).status
                })
            }),
    {
        let ghost opsv = ops_view(old(record).resolved_operands@);
        let mut found_placeholder = false;
        let mut found_invalid = false;
        let mut i: usize = 0;
        while i < record.resolved_operands.len()
            invariant
                i <= record.resolved_operands@.len(),
                record.resolved_operands == old(record).resolved_operands,
                record.operand_bindings == old(record).operand_bindings,
                record.trust_flags == old(record).trust_flags,
                record.trust_summary == old(record).trust_summary,
                record.status == old(record).status,
                record.rewalk_flag == old(record).rewalk_flag,
                record.retry_count == old(record).retry_count,
                record.defer_to_watchtower == old(record).defer_to_watchtower,
                record.metadata_tags == old(record).metadata_tags,
                same_inputs(*old(record), *record),
                trace_extended(*old(record), *record),
                opsv == ops_view(record.resolved_operands@),
                opsv.len() == record.resolved_operands@.len(),
                found_placeholder == exists|j: int|
                    0 <= j < i && (#[trigger] opsv[j]) is Placeholder,
                found_invalid == exists|j: int| 0 <= j < i && (#[trigger] opsv[j]) is InvalidOperand,
            decreases record.resolved_operands@.len() - i,
        {
            proof {
                assert(opsv[i as int] == op_view(record.resolved_operands@[i as int]));
            }
            let ghost fp0 = found_placeholder;
            let ghost fi0 = found_invalid;
            match &record.resolved_operands[i] {
                Operand::Placeholder(_) => {
                    let e = DebugEntry::new(
                        record.line,
                        "Operand placeholder detected - rewalk recommended.",
                        Severity::Shadowed,
                    );
                    record.debug_trace.push(e);
                    found_placeholder = true;
                },
                Operand::InvalidOperand(_) => {
                    let e = DebugEntry::new(
                        record.line,
                        "Invalid operand encountered - flagged for operand rewalk.",
                        Severity::Broken,
                    );
                    record.debug_trace.push(e);
                    found_invalid = true;
                },
                _ => {},
            }
            i = i + 1;
            proof {
                if found_placeholder && !fp0 {
                    assert(opsv[i - 1] is Placeholder);
                }
                if found_invalid && !fi0 {
                    assert(opsv[i - 1] is InvalidOperand);
                }
            }
        }
        proof {
            assert(found_placeholder == has_placeholder(opsv));
            assert(found_invalid == has_invalid(opsv));
        }
        if found_placeholder || found_invalid {
            record.rewalk_flag = true;
            if found_invalid {
                record.defer_to_watchtower = true;
            }
            if record.status == InstructionStatus::RequiresResolution {
                record.status = InstructionStatus::RequiresRewalk;
            }
            let e = DebugEntry::new(
                record.line,
                "Instruction flagged for rewalk cycle and deeper reconciliation.",
                Severity::Drifted,
            );
            record.debug_trace.push(e);
        }
    }

    /// Metadata helper: inserts a tag only when a value is present.
    pub fn insert_metadata(record: &mut InstructionRecord, key: &str, value: Option<String>)
        ensures
            same_inputs(*old(record), *final(record)),
            final(record).debug_trace == old(record).debug_trace,
            final(record).resolved_operands == old(record).resolved_operands,
            final(record).operand_bindings == old(record).operand_bindings,
            final(record).trust_flags == old(record).trust_flags,
            final(record).trust_summary == old(record).trust_summary,
            final(record).status == old(record).status,
            final(record).rewalk_flag == old(record).rewalk_flag,
            final(record).retry_count == old(record).retry_count,
            final(record).defer_to_watchtower == old(record).defer_to_watchtower,
            value matches Some(v) ==> lookup_tag(final(record).metadata_tags@, key@) == Some(v@)
                && (forall|k: Seq<char>|
                k != key@ ==> #[trigger] lookup_tag(final(record).metadata_tags@, k) == lookup_tag(
                    old(record).metadata_tags@,
                    k,
                )),
            value is None ==> final(record).metadata_tags == old(record).metadata_tags,
    {
        match value {
            Some(v) => upsert_tag(&mut record.metadata_tags, key, v),
            None => {},
        }
    }

    /// Stage 7: records origin line, trust tier, operand role,
    /// resolution state and source scroll into the metadata tag map.
    /// Purely observational: nothing here is read back into control
    /// flow.
    pub fn tag_operand_metadata(record: &mut InstructionRecord)
        ensures
            same_inputs(*old(record), *final(record)),
            final(record).debug_trace == old(record).debug_trace,
            final(record).resolved_operands == old(record).resolved_operands,
            final(record).operand_bindings == old(record).operand_bindings,
            final(record).trust_flags == old(record).trust_flags,
            final(record).trust_summary == old(record).trust_summary,
            final(record).status == old(record).status,
            final(record).rewalk_flag == old(record).rewalk_flag,
            final(record).retry_count == old(record).retry_count,
            final(record).defer_to_watchtower == old(record).defer_to_watchtower,
            lookup_tag(final(record).metadata_tags@, "operand_origin"@) == Some(
                "Origin line: "@ + crate::text::dec_spec(old(record).line as int),
            ),
            old(record).trust_summary matches Some(t) ==> lookup_tag(
                final(record).metadata_tags@,
                "trust_tier"@,
            ) == Some("Trust tier: "@ + tier_label(t)),
            old(record).resolved_operands@.len() > 0 ==> lookup_tag(
                final(record).metadata_tags@,
                "operand_role"@,
            ) == Some(role_label(op_view(old(record).resolved_operands@[0]))),
            lookup_tag(final(record).metadata_tags@, "resolution_state"@) == Some(
                resolution_state_label(old(record).status),
            ),
            old(record).source_scroll matches Some(sc) ==> lookup_tag(
                final(record).metadata_tags@,
                "source_scroll"@,
            ) == Some(sc@),
            old(record).operand_hint matches Some(h) ==> lookup_tag(
                final(record).metadata_tags@,
                "operand_hint"@,
            ) == Some(h@),
            forall|k: Seq<char>|
                k != "operand_origin"@ && k != "trust_tier"@ && k != "operand_role"@ && k
                    != "resolution_state"@ && k != "source_scroll"@ && k != "operand_hint"@
                    ==> #[trigger] lookup_tag(final(record).metadata_tags@, k) == lookup_tag(
                    old(record).metadata_tags@,
                    k,
                ),
    {
        proof {
            reveal_strlit("operand_origin");
            reveal_strlit("trust_tier");
            reveal_strlit("operand_role");
            reveal_strlit("resolution_state");
            reveal_strlit("source_scroll");
            reveal_strlit("operand_hint");
            assert("operand_origin"@.len() == 14);
            assert("trust_tier"@.len() == 10);
            assert("operand_role"@.len() == 12);
            assert("resolution_state"@.len() == 16);
            assert("source_scroll"@.len() == 13);
            assert("operand_hint"@.len() == 12);
            assert("operand_role"@[8] == 'r');
            assert("operand_hint"@[8] == 'h');
        }
        let mut origin = String::new();
        origin.append("Origin line: ");
        let line_text = crate::text::u64_to_string(record.line as u64);
        origin.append(line_text.as_str());
        Bearer::insert_metadata(record, "operand_origin", Some(origin));

        let tier_note: Option<String> = match record.trust_summary {
            Some(t) => {
                let mut m = String::new();
                m.append("Trust tier: ");
                m.append(tier_label_exec(t));
                Some(m)
            },
            None => None,
        };
        Bearer::insert_metadata(record, "trust_tier", tier_note);

        let role_note: Option<String> = if record.resolved_operands.len() > 0 {
            Some(role_label_exec(&record.resolved_operands[0]).to_owned())
        } else {
            None
        };
        Bearer::insert_metadata(record, "operand_role", role_note);

        let state_note = resolution_state_label_exec(record.status).to_owned();
        Bearer::insert_metadata(record, "resolution_state", Some(state_note));

        let scroll_note: Option<String> = match &record.source_scroll {
            Some(sc) => Some(sc.clone()),
            None => None,
        };
        Bearer::insert_metadata(record, "source_scroll", scroll_note);

        let hint_note: Option<String> = match &record.operand_hint {
            Some(h) => Some(h.clone()),
            None => None,
        };
        Bearer::insert_metadata(record, "operand_hint", hint_note);
    }

    /// Stage 8: tags wildcard, instruction-reference and placeholder
    /// operands with a symbolic-reference note; references escalate to
    /// the watchtower and placeholders request a rewalk.
    pub fn handle_meta_operand(record: &mut InstructionRecord, operand: &Operand)
        ensures
            same_inputs(*old(record), *final(record)),
            trace_extended(*old(record), *final(record)),
            final(record).resolved_operands == old(record).resolved_operands,
            final(record).operand_bindings == old(record).operand_bindings,
            final(record).trust_flags == old(record).trust_flags,
            final(record).trust_summary == old(record).trust_summary,
            final(record).status == old(record).status,
            final(record).retry_count == old(record).retry_count,
            operand@ is Wildcard || operand@ is InstructionRef || operand@ is Placeholder
                ==> lookup_tag(final(record).metadata_tags@, "meta_operand_type"@) == Some(
                role_label(operand@),
            ) && (forall|k: Seq<char>|
                k != "meta_operand_type"@ ==> #[trigger] lookup_tag(
                    final(record).metadata_tags@,
                    k,
                ) == lookup_tag(old(record).metadata_tags@, k)),
            !(operand@ is Wildcard || operand@ is InstructionRef || operand@ is Placeholder)
                ==> final(record).metadata_tags == old(record).metadata_tags,
            final(record).defer_to_watchtower == (old(record).defer_to_watchtower || operand@
                is InstructionRef),
            final(record).rewalk_flag == (old(record).rewalk_flag || operand@ is Placeholder),
    {
        match operand {
            Operand::Wildcard => {
                let e = DebugEntry::new(
                    record.line,
                    "Wildcard operand detected - symbolic binding accepted.",
                    Severity::Valid,
                );
                record.debug_trace.push(e);
                upsert_tag(&mut record.metadata_tags, "meta_operand_type", "Wildcard".to_owned());
            },
            Operand::InstructionRef(_) => {
                let e = DebugEntry::new(
                    record.line,
                    "InstructionRef operand detected - reflective context required.",
                    Severity::Valid,
                );
                record.debug_trace.push(e);
                upsert_tag(
                    &mut record.metadata_tags,
                    "meta_operand_type",
                    "InstructionRef".to_owned(),
                );
                record.defer_to_watchtower = true;
            },
            Operand::Placeholder(_) => {
                let e = DebugEntry::new(
                    record.line,
                    "Placeholder operand detected - operand remains unresolved.",
                    Severity::Shadowed,
                );
                record.debug_trace.push(e);
                upsert_tag(
                    &mut record.metadata_tags,
                    "meta_operand_type",
                    "Placeholder".to_owned(),
                );
                record.rewalk_flag = true;
            },
            _ => {},
        }
    }

    /// Stage 5A: appends the capstone status record to the trace.
    pub fn emit_watchtower_log(record: &mut InstructionRecord)
        ensures
            same_but_trace(*old(record), *final(record)),
            trace_extended(*old(record), *final(record)),
            final(record).debug_trace@.len() == old(record).debug_trace@.len() + 1,
            final(record).debug_trace@.last().severity == status_severity(old(record).status),
            final(record).debug_trace@.last().message@ == "Bearer resolution status: "@
                + status_label(old(record).status),
    {
        let mut msg = String::new();
        msg.append("Bearer resolution status: ");
        msg.append(status_label_exec(record.status));
        let sev = status_severity_exec(record.status);
        let e = DebugEntry::new(record.line, msg.as_str(), sev);
        record.debug_trace.push(e);
    }
}

impl Bearer {
    /// Resolves one instruction record in place, running the full
    /// eight-stage pipeline: field extraction and validation, pattern
    /// classification, operand construction, readiness update, trust
    /// cascade, rewalk check, metadata tagging and meta-operand
    /// handling. Terminal records (`ReadyToAssemble`, `Invalid`) are
    /// never touched, so readiness is monotonic: an instruction never
    /// leaves `ReadyToAssemble` through resolution.
    pub fn resolve_operands(record: &mut InstructionRecord)
        ensures
            same_inputs(*old(record), *final(record)),
            trace_extended(*old(record), *final(record)),
            old(record).status == InstructionStatus::ReadyToAssemble ==> *final(record) == *old(record),
            old(record).status == InstructionStatus::Invalid ==> *final(record) == *old(record),
            is_active(old(record).status) && !fields_ok(*old(record)) ==> final(record).status
                == InstructionStatus::Invalid && final(record).resolved_operands == old(record).resolved_operands && final(record).operand_bindings == old(record).operand_bindings
                && final(record).trust_flags == old(record).trust_flags && final(record).trust_summary == old(record).trust_summary && final(record).rewalk_flag == old(record).rewalk_flag && final(record).retry_count == old(record).retry_count && final(record).defer_to_watchtower == old(record).defer_to_watchtower && final(record).metadata_tags == old(record).metadata_tags,
            is_active(old(record).status) && fields_ok(*old(record)) ==> ({
                let op = pipeline_operand(*old(record));
                &&& resolution_outcome(*final(record))
                &&& ops_view(final(record).resolved_operands@) == seq![op]
                &&& final(record).trust_summary == Some(operand_tier(op))
                &&& (operand_ready(op) ==> final(record).status
                    == InstructionStatus::ReadyToAssemble && final(record).rewalk_flag == old(record).rewalk_flag && final(record).retry_count == old(record).retry_count && final(record).defer_to_watchtower == old(record).defer_to_watchtower)
                &&& (!operand_ready(op) ==> final(record).rewalk_flag && final(record).retry_count
                    == bump(old(record).retry_count) && final(record).defer_to_watchtower && final(record).status == (if op is InstructionRef {
                    InstructionStatus::RequiresResolution
                } else {
                    InstructionStatus::RequiresRewalk
                }))
                &&& (op matches OperandV::Binding { name, .. } ==> lookup_flag(
                    final(record).trust_flags@,
                    name,
                ) == Some(TrustTier::Trusted))
                &&& lookup_tag(final(record).metadata_tags@, "resolution_state"@) == Some(
                    resolution_state_label(final(record).status),
                )
                &&& lookup_tag(final(record).metadata_tags@, "operand_role"@) == Some(
                    role_label(op),
                )
                &&& lookup_tag(final(record).metadata_tags@, "operand_origin"@) == Some(
                    "Origin line: "@ + crate::text::dec_spec(old(record).line as int),
                )
                &&& ((op is Wildcard || op is InstructionRef || op is Placeholder) ==> lookup_tag(
                    final(record).metadata_tags@,
                    "meta_operand_type"@,
                ) == Some(role_label(op)))
            }),
    {
        if record.status == InstructionStatus::ReadyToAssemble || record.status
            == InstructionStatus::Invalid {
            return;
        }
        // stage 1: field extraction and structural validation
        let fields = Bearer::extract_fields(record);
        let subject = fields.0;
        let verb = fields.1;
        let object = fields.2;
        if subject.as_str().unicode_len() == 0 || verb.as_str().unicode_len() == 0
            || object.as_str().unicode_len() == 0 {
            record.status = InstructionStatus::Invalid;
            return;
        }
        // stage 2: pattern recognition and classification
        let operand_type = Bearer::classify_pattern(
            subject.as_str(),
            verb.as_str(),
            object.as_str(),
        );
        if operand_type == OperandType::Unknown {
            Bearer::flag_for_ai_deduction(record);
        }
        // stage 3: operand construction and refinement
        let operand = Bearer::build_operand(object.as_str(), operand_type);
        let ready = operand_ready_exec(&operand);
        let _tier = Bearer::refine_operand(record, &operand);
        // stage 8: meta-operand and reflective operand support
        Bearer::handle_meta_operand(record, &operand);
        // this pass's operand becomes the resolved set
        let ghost opv = operand@;
        let mut fresh: Vec<Operand> = Vec::new();
        fresh.push(operand);
        record.resolved_operands = fresh;
        proof {
            assert(ops_view(record.resolved_operands@) =~= seq![opv]);
            assert(min_tier(seq![opv].drop_first()) == TrustTier::Certain) by {
                assert(seq![opv].drop_first().len() == 0);
            }
            assert(min_tier(seq![opv]) == operand_tier(opv));
        }
        // stage 5: trust cascade
        Bearer::cascade_trust_summary(record);
        // stage 4: readiness update
        Bearer::update_instruction_state(record, ready);
        // stage 6: reconciliation and rewalk check
        proof {
            if opv is Placeholder {
                assert(has_placeholder(seq![opv])) by {
                    assert(seq![opv][0] is Placeholder);
                }
            }
            if opv is InvalidOperand {
                assert(has_invalid(seq![opv])) by {
                    assert(seq![opv][0] is InvalidOperand);
                }
            }
            if !(opv is Placeholder) {
                assert(!has_placeholder(seq![opv]));
            }
            if !(opv is InvalidOperand) {
                assert(!has_invalid(seq![opv]));
            }
        }
        Bearer::check_for_rewalk(record);
        // stage 7: metadata tagging
        Bearer::tag_operand_metadata(record);
        // capstone trace record
        Bearer::emit_watchtower_log(record);
        proof {
            reveal_strlit("meta_operand_type");
            reveal_strlit("operand_origin");
            reveal_strlit("trust_tier");
            reveal_strlit("operand_role");
            reveal_strlit("resolution_state");
            reveal_strlit("source_scroll");
            reveal_strlit("operand_hint");
            assert("meta_operand_type"@.len() == 17);
            assert("operand_origin"@.len() == 14);
            assert("trust_tier"@.len() == 10);
            assert("operand_role"@.len() == 12);
            assert("resolution_state"@.len() == 16);
            assert("source_scroll"@.len() == 13);
            assert("operand_hint"@.len() == 12);
        }
    }
}

// ---------------------------------------------------------------
// Laws of the resolver
// ---------------------------------------------------------------
/// The cascade is a lower bound: no resolved operand sits below it.
proof fn lemma_min_tier_le(ops: Seq<OperandV>, i: int)
    requires
        0 <= i < ops.len(),
    ensures
        tier_rank(min_tier(ops)) <= tier_rank(operand_tier(ops[i])),
    decreases ops.len(),
{
    if i > 0 {
        lemma_min_tier_le(ops.drop_first(), i - 1);
        assert(ops.drop_first()[i - 1] == ops[i]);
    }
}

/// The cascade is attained: it is the tier of some resolved operand, or
/// `Certain` over an empty set.
proof fn lemma_min_tier_attained(ops: Seq<OperandV>)
    ensures
        ops.len() == 0 ==> min_tier(ops) == TrustTier::Certain,
        ops.len() > 0 ==> exists|i: int|
            0 <= i < ops.len() && operand_tier(#[trigger] ops[i]) == min_tier(ops),
    decreases ops.len(),
{
    if ops.len() > 0 {
        lemma_min_tier_attained(ops.drop_first());
        if ops.len() == 1 {
            assert(operand_tier(ops[0]) == min_tier(ops));
        } else {
            let rest = ops.drop_first();
            if tier_rank(operand_tier(ops[0])) <= tier_rank(min_tier(rest)) {
                assert(operand_tier(ops[0]) == min_tier(ops));
            } else {
                let j = choose|j: int|
                    0 <= j < rest.len() && operand_tier(#[trigger] rest[j]) == min_tier(rest);
                assert(ops[j + 1] == rest[j]);
                assert(operand_tier(ops[j + 1]) == min_tier(ops));
            }
        }
    }
}

/// Weakest-link trust: an instruction whose resolved operands include a
/// `Shadowed`-tier and a `Certain`-tier value has the summary
/// `Shadowed`, never an average and never the first operand's tier.
pub proof fn lemma_weakest_link_trust(ops: Seq<OperandV>, i: int, j: int)
    requires
        0 <= i < ops.len(),
        0 <= j < ops.len(),
        operand_tier(ops[i]) == TrustTier::Shadowed,
        operand_tier(ops[j]) == TrustTier::Certain,
    ensures
        min_tier(ops) == TrustTier::Shadowed,
{
    lemma_min_tier_le(ops, i);
    lemma_min_tier_attained(ops);
    let k = choose|k: int|
        0 <= k < ops.len() && operand_tier(#[trigger] ops[k]) == min_tier(ops);
    assert(tier_rank(min_tier(ops)) <= 1);
    assert(tier_rank(operand_tier(ops[k])) >= 1) by {
        assert(operand_tier(ops[k]) != TrustTier::Invalid);
    }
}

/// A record's trust summary under the weakest-link cascade: with a
/// `Shadowed` and a `Certain` operand present, the summary is
/// `Shadowed`.
pub proof fn lemma_weakest_link_summary(r: InstructionRecord, i: int, j: int)
    requires
        r.trust_summary == Some(min_tier(ops_view(r.resolved_operands@))),
        0 <= i < r.resolved_operands@.len(),
        0 <= j < r.resolved_operands@.len(),
        operand_tier(r.resolved_operands@[i]@) == TrustTier::Shadowed,
        operand_tier(r.resolved_operands@[j]@) == TrustTier::Certain,
    ensures
        r.trust_summary == Some(TrustTier::Shadowed),
{
    let ops = ops_view(r.resolved_operands@);
    assert(ops[i] == r.resolved_operands@[i]@);
    assert(ops[j] == r.resolved_operands@[j]@);
    lemma_weakest_link_trust(ops, i, j);
}

/// Idempotence of non-rewalked resolution: the operand set and trust
/// summary that one pass produces are a function of the instruction's
/// raw fields alone, so two records resolved from the same fields,
/// neither with a rewalk pending, carry identical operand sets and
/// trust summaries.
pub proof fn lemma_resolution_idempotent(a: InstructionRecord, b: InstructionRecord)
    requires
        a.subject@ == b.subject@,
        a.verb@ == b.verb@,
        a.object@ == b.object@,
        resolution_outcome(a),
        resolution_outcome(b),
        !a.rewalk_flag,
        !b.rewalk_flag,
    ensures
        ops_view(a.resolved_operands@) == ops_view(b.resolved_operands@),
        a.trust_summary == b.trust_summary,
{
    assert(pipeline_operand(a) == pipeline_operand(b));
}

// ---------------------------------------------------------------
// Tree walking and post-resolution confirmation
// ---------------------------------------------------------------
/// Whether every operand in a set is fully resolved: no invalid
/// operands and no placeholders remain.
pub open spec fn all_resolved(ops: Seq<OperandV>) -> bool {
    forall|i: int|
        0 <= i < ops.len() ==> !((#[trigger] ops[i]) is InvalidOperand || ops[i] is Placeholder)
}

/// The operand-bearing text of a parsed node: the field a shape-based
/// operand classification reads.
pub open spec fn node_text(n: NodeV) -> Seq<char> {
    match n {
        NodeV::Literal(v) => v,
        NodeV::Metadata(v) => v,
        NodeV::Comment(v) => v,
        NodeV::Import(v) => v,
        NodeV::Return(v) => v,
        NodeV::Error(v) => v,
        NodeV::Assignment { value, .. } => value,
        NodeV::Instruction { name, .. } => name,
        NodeV::Call { function, .. } => function,
        NodeV::ScrollSentence { object, .. } => object,
        NodeV::Declaration { name, .. } => name,
        NodeV::Conditional { condition, .. } => condition,
        NodeV::Loop { condition, .. } => condition,
        NodeV::Block(_) => Seq::empty(),
    }
}

/// The shape-based operand type of a raw token text: quoted text is a
/// string, a `$`-led name a symbol, `*` a wildcard, a `ref:` prefix an
/// instruction reference and `_` a placeholder.
pub open spec fn shape_type(s: Seq<char>) -> OperandType {
    if literal_shaped(s) {
        OperandType::String
    } else if s.len() >= 1 && s[0] == '$' {
        OperandType::Symbol
    } else if s == "*"@ {
        OperandType::Wildcard
    } else if s.len() >= 4 && s.subrange(0, 4) == "ref:"@ {
        OperandType::Instruction
    } else if s == "_"@ {
        OperandType::Placeholder
    } else {
        OperandType::Unknown
    }
}

/// Length of the leading run of `$` characters.
pub open spec fn dollar_run(s: Seq<char>) -> int
    decreases s.len(),
{
    if s.len() == 0 || s[0] != '$' {
        0
    } else {
        1 + dollar_run(s.drop_first())
    }
}

/// What repeatedly stripping a leading `ref:` prefix leaves.
pub open spec fn strip_ref(s: Seq<char>) -> Seq<char>
    decreases s.len(),
{
    if s.len() >= 4 && s.subrange(0, 4) == "ref:"@ {
        strip_ref(s.skip(4))
    } else {
        s
    }
}

/// The operand a shape-classified token text constructs.
pub open spec fn walk_operand_of(s: Seq<char>, ty: OperandType) -> OperandV {
    match ty {
        OperandType::String => OperandV::Literal {
            value: if literal_shaped(s) {
                s.subrange(1, s.len() - 1)
            } else {
                s
            },
            dtype: None,
        },
        OperandType::Symbol => OperandV::Binding { name: s.skip(dollar_run(s)), alignment: None },
        OperandType::Wildcard => OperandV::Wildcard,
        OperandType::Instruction => OperandV::InstructionRef(strip_ref(s)),
        OperandType::Placeholder => OperandV::Placeholder("_"@),
        _ => OperandV::InvalidOperand(s),
    }
}

/// The operand one walked node yields.
pub open spec fn walked_operand(n: NodeV) -> OperandV {
    walk_operand_of(node_text(n), shape_type(node_text(n)))
}

proof fn lemma_dollar_run(s: Seq<char>)
    ensures
        0 <= dollar_run(s) <= s.len(),
        forall|j: int| 0 <= j < dollar_run(s) ==> s[j] == '$',
        dollar_run(s) < s.len() ==> s[dollar_run(s)] != '$',
    decreases s.len(),
{
    if s.len() > 0 && s[0] == '$' {
        lemma_dollar_run(s.drop_first());
        assert forall|j: int| 0 <= j < dollar_run(s) implies s[j] == '$' by {
            if j > 0 {
                assert(s.drop_first()[j - 1] == s[j]);
            }
        }
    }
}

impl Bearer {
    /// Post-pass confirmation: true exactly when every resolved operand
    /// of the record is neither invalid nor a placeholder.
    pub fn validate_operands(record: &InstructionRecord) -> (r: bool)
        ensures
            r == all_resolved(ops_view(record.resolved_operands@)),
    {
        let ghost opsv = ops_view(record.resolved_operands@);
        let mut i: usize = 0;
        while i < record.resolved_operands.len()
            invariant
                i <= record.resolved_operands@.len(),
                opsv == ops_view(record.resolved_operands@),
                opsv.len() == record.resolved_operands@.len(),
                forall|j: int|
                    0 <= j < i ==> !((#[trigger] opsv[j]) is InvalidOperand || opsv[j]
                        is Placeholder),
            decreases record.resolved_operands@.len() - i,
        {
            proof {
                assert(opsv[i as int] == op_view(record.resolved_operands@[i as int]));
            }
            match &record.resolved_operands[i] {
                Operand::InvalidOperand(_) => {
                    return false;
                },
                Operand::Placeholder(_) => {
                    return false;
                },
                _ => {},
            }
            i = i + 1;
        }
        true
    }

    /// Emits a diagnostic snapshot of the record's resolution state to
    /// the trace.
    pub fn report_to_watchtower(record: &mut InstructionRecord)
        ensures
            same_but_trace(*old(record), *final(record)),
            trace_extended(*old(record), *final(record)),
            final(record).debug_trace@.len() == old(record).debug_trace@.len() + 1,
            final(record).debug_trace@.last().severity == status_severity(old(record).status),
            final(record).debug_trace@.last().message@ == "Resolution status: "@ + status_label(
                old(record).status,
            ) + " | Trust summary: "@ + tier_label(
                match old(record).trust_summary {
                    Some(t) => t,
                    None => TrustTier::Shadowed,
                },
            ),
    {
        let mut msg = String::new();
        msg.append("Resolution status: ");
        msg.append(status_label_exec(record.status));
        msg.append(" | Trust summary: ");
        let t = match record.trust_summary {
            Some(t) => t,
            None => TrustTier::Shadowed,
        };
        msg.append(tier_label_exec(t));
        let sev = status_severity_exec(record.status);
        let e = DebugEntry::new(record.line, msg.as_str(), sev);
        record.debug_trace.push(e);
    }

    /// The kind label an operand carries in an exported signature.
    pub fn signature_kind(operand: &Operand) -> (r: &'static str)
        ensures
            r@ == sig_kind(operand@),
    {
        match operand {
            Operand::Literal { .. } => "Literal",
            Operand::Binding { .. } => "Symbol",
            Operand::Wildcard => "Wildcard",
            Operand::InstructionRef(_) => "InstructionRef",
            Operand::Placeholder(_) => "Placeholder",
            Operand::InvalidOperand(_) => "Invalid",
            Operand::Group(_) => "Group",
            Operand::InstructionCall { .. } => "InstructionCall",
            Operand::PathAccess { .. } => "PathAccess",
            Operand::ResolvedValue(_) => "ResolvedValue",
        }
    }

    /// Serializes the resolved operand set into a compact readable
    /// signature for logs and assembly review.
    pub fn export_operand_signature(record: &InstructionRecord) -> (r: String)
        ensures
            r@ == "["@ + crate::text::join_spec(
                ops_view(record.resolved_operands@).map_values(|o: OperandV| sig_item(o)),
                " | "@,
            ) + "]"@,
    {
        let ghost opsv = ops_view(record.resolved_operands@);
        let mut items: Vec<String> = Vec::new();
        let mut i: usize = 0;
        while i < record.resolved_operands.len()
            invariant
                i <= record.resolved_operands@.len(),
                opsv == ops_view(record.resolved_operands@),
                opsv.len() == record.resolved_operands@.len(),
                items@.len() == i,
                forall|j: int|
                    0 <= j < i ==> (#[trigger] items@[j])@ == sig_item(opsv[j]),
            decreases record.resolved_operands@.len() - i,
        {
            proof {
                assert(opsv[i as int] == op_view(record.resolved_operands@[i as int]));
            }
            let op = &record.resolved_operands[i];
            let mut item = String::new();
            item.append(Bearer::signature_kind(op));
            item.append(": ");
            let text = operand_text_exec(op);
            item.append(text.as_str());
            items.push(item);
            i = i + 1;
        }
        let joined = crate::text::join_strings(&items, " | ");
        let mut out = String::new();
        out.append("[");
        out.append(joined.as_str());
        out.append("]");
        proof {
            assert(items@.map_values(|w: String| w@) =~= opsv.map_values(
                |o: OperandV| sig_item(o),
            ));
        }
        out
    }

    /// Records one trace entry in the resolver's own log.
    pub fn record_debug_entry(&mut self, entry: DebugEntry)
        ensures
            final(self).debug_trace@ == old(self).debug_trace@.push(entry),
            final(self).resolved_operands == old(self).resolved_operands,
            final(self).scroll_tree == old(self).scroll_tree,
            final(self).instruction_schema == old(self).instruction_schema,
            final(self).errors == old(self).errors,
    {
        self.debug_trace.push(entry);
    }

    /// Validates operand count against the declared arity.
    pub fn validate_arity(&self, found: usize, schema: &OperandSchema) -> (r: bool)
        ensures
            r == (found == schema.arity),
    {
        found == schema.arity
    }

    /// Loads the operand schema for an instruction name from the
    /// registry: the stored schema carries the arity the registry
    /// declares for that name. A missing schema is recorded as a broken
    /// finding.
    pub fn load_instruction_schema(&mut self, name: &str, line: usize)
        ensures
            final(self).instruction_registry == old(self).instruction_registry,
            final(self).resolved_operands == old(self).resolved_operands,
            final(self).scroll_tree == old(self).scroll_tree,
            final(self).instruction_schema is Some <==> old(self).instruction_registry.spec_contains(name@),
            final(self).instruction_schema matches Some(s) ==> exists|i: int|
                0 <= i < old(self).instruction_registry.entries@.len()
                    && #[trigger] old(self).instruction_registry.entries@[i].keyword@ == name@
                    && s.arity == crate::instruction_registry::schema_arity_of(
                    old(self).instruction_registry.entries@[i],
                ),
            old(self).instruction_registry.spec_contains(name@) ==> final(self).errors == old(self).errors,
            !old(self).instruction_registry.spec_contains(name@) ==> final(self).errors@.len()
                == old(self).errors@.len() + 1,
            !old(self).instruction_registry.spec_contains(name@) ==> final(self).errors@.last().severity
                == Severity::Broken,
    {
        self.instruction_schema = self.instruction_registry.get_schema(name);
        if self.instruction_schema.is_none() {
            let mut msg = String::new();
            msg.append("Missing schema for instruction '");
            msg.append(name);
            msg.append("'");
            let e = DebugEntry::new(line, msg.as_str(), Severity::Broken);
            self.errors.push(e);
        }
    }

    /// Shape-based classification of a raw token text.
    pub fn classify_operand_type(&self, token_text: &str) -> (r: OperandType)
        ensures
            r == shape_type(token_text@),
    {
        let n = token_text.unicode_len();
        if n >= 2 && token_text.get_char(0) == '"' && token_text.get_char(n - 1) == '"' {
            return OperandType::String;
        }
        if n >= 1 && token_text.get_char(0) == '$' {
            return OperandType::Symbol;
        }
        if str_eq(token_text, "*") {
            return OperandType::Wildcard;
        }
        if n >= 4 && str_eq(token_text.substring_char(0, 4), "ref:") {
            proof {
                assert(token_text@.subrange(0, 4) =~= "ref:"@);
            }
            return OperandType::Instruction;
        }
        proof {
            if token_text@.len() >= 4 && token_text@.subrange(0, 4) == "ref:"@ {
                assert(false);
            }
        }
        if str_eq(token_text, "_") {
            return OperandType::Placeholder;
        }
        OperandType::Unknown
    }

    /// Builds the operand a shape-classified token text calls for.
    pub fn construct_operand(&self, token_text: &str, operand_type: OperandType) -> (r: Operand)
        ensures
            operand_type != OperandType::Symbol && operand_type != OperandType::Instruction
                ==> r@ == walk_operand_of(token_text@, operand_type),
            operand_type == OperandType::Symbol ==> r@ == (OperandV::Binding {
                name: token_text@.skip(dollar_run(token_text@)),
                alignment: None,
            }),
            operand_type == OperandType::Instruction ==> r@ == OperandV::InstructionRef(
                strip_ref(token_text@),
            ),
    {
        let n = token_text.unicode_len();
        match operand_type {
            OperandType::String => {
                let shaped = n >= 2 && token_text.get_char(0) == '"' && token_text.get_char(n - 1)
                    == '"';
                if shaped {
                    let inner = token_text.substring_char(1, n - 1);
                    let r = Operand::Literal { value: inner.to_owned(), dtype: None };
                    proof {
                        assert(r@->Literal_value =~= token_text@.subrange(
                            1,
                            token_text@.len() - 1,
                        ));
                    }
                    r
                } else {
                    Operand::Literal { value: token_text.to_owned(), dtype: None }
                }
            },
            OperandType::Symbol => {
                let mut k: usize = 0;
                while k < n && token_text.get_char(k) == '$'
                    invariant
                        k <= n,
                        n == token_text@.len(),
                        forall|j: int| 0 <= j < k ==> token_text@[j] == '$',
                    decreases n - k,
                {
                    k = k + 1;
                }
                proof {
                    lemma_dollar_run(token_text@);
                    assert(dollar_run(token_text@) == k) by {
                        if dollar_run(token_text@) < k {
                            assert(token_text@[dollar_run(token_text@)] == '$');
                        }
                        if k < dollar_run(token_text@) {
                            assert(token_text@[k as int] == '$');
                        }
                    }
                }
                let rest = token_text.substring_char(k, n);
                let r = Operand::Binding { name: rest.to_owned(), alignment: None };
                proof {
                    assert(r@->Binding_name =~= token_text@.skip(dollar_run(token_text@)));
                }
                r
            },
            OperandType::Wildcard => Operand::Wildcard,
            OperandType::Instruction => {
                let stripped = strip_ref_exec(token_text);
                Operand::InstructionRef(stripped)
            },
            OperandType::Placeholder => Operand::Placeholder("_".to_owned()),
            _ => Operand::InvalidOperand(token_text.to_owned()),
        }
    }
}

/// The kind label of one operand in an exported signature.
pub open spec fn sig_kind(o: OperandV) -> Seq<char> {
    match o {
        OperandV::Literal { .. } => "Literal"@,
        OperandV::Binding { .. } => "Symbol"@,
        OperandV::Wildcard => "Wildcard"@,
        OperandV::InstructionRef(_) => "InstructionRef"@,
        OperandV::Placeholder(_) => "Placeholder"@,
        OperandV::InvalidOperand(_) => "Invalid"@,
        OperandV::Group(_) => "Group"@,
        OperandV::InstructionCall { .. } => "InstructionCall"@,
        OperandV::PathAccess(_) => "PathAccess"@,
        OperandV::ResolvedValue(_) => "ResolvedValue"@,
    }
}

/// The textual payload of one operand in an exported signature.
pub open spec fn operand_text(o: OperandV) -> Seq<char> {
    match o {
        OperandV::Literal { value, .. } => value,
        OperandV::Binding { name, .. } => name,
        OperandV::Wildcard => "*"@,
        OperandV::InstructionRef(n) => n,
        OperandV::Placeholder(p) => p,
        OperandV::InvalidOperand(t) => t,
        OperandV::Group(_) => "(...)"@,
        OperandV::InstructionCall { name, .. } => name,
        OperandV::PathAccess(_) => "(path)"@,
        OperandV::ResolvedValue(v) => v,
    }
}

/// One item of an exported signature.
pub open spec fn sig_item(o: OperandV) -> Seq<char> {
    sig_kind(o) + ": "@ + operand_text(o)
}

fn operand_text_exec(o: &Operand) -> (r: String)
    ensures
        r@ == operand_text(o@),
{
    match o {
        Operand::Literal { value, .. } => value.clone(),
        Operand::Binding { name, .. } => name.clone(),
        Operand::Wildcard => "*".to_owned(),
        Operand::InstructionRef(n) => n.clone(),
        Operand::Placeholder(p) => p.clone(),
        Operand::InvalidOperand(t) => t.clone(),
        Operand::Group(_) => "(...)".to_owned(),
        Operand::InstructionCall { name, .. } => name.clone(),
        Operand::PathAccess { .. } => "(path)".to_owned(),
        Operand::ResolvedValue(v) => v.clone(),
    }
}

/// Repeatedly strips a leading `ref:` prefix.
fn strip_ref_exec(s: &str) -> (r: String)
    ensures
        r@ == strip_ref(s@),
    decreases s@.len(),
{
    let n = s.unicode_len();
    if n >= 4 && str_eq(s.substring_char(0, 4), "ref:") {
        proof {
            assert(s@.subrange(0, 4) =~= "ref:"@);
            reveal_strlit("ref:");
            assert("ref:"@.len() == 4);
        }
        let rest = s.substring_char(4, n);
        strip_ref_exec(rest)
    } else {
        proof {
            if s@.len() >= 4 && s@.subrange(0, 4) == "ref:"@ {
                assert(false);
            }
        }
        s.to_owned()
    }
}

/// The operand-bearing text of one parsed node.
fn node_operand_text(n: &ScrollNode) -> (r: String)
    ensures
        r@ == node_text(n@),
{
    match n {
        ScrollNode::Literal(v) => v.clone(),
        ScrollNode::Metadata(v) => v.clone(),
        ScrollNode::Comment(v) => v.clone(),
        ScrollNode::Import(v) => v.clone(),
        ScrollNode::Return(v) => v.clone(),
        ScrollNode::Error(v) => v.clone(),
        ScrollNode::Assignment { value, .. } => value.clone(),
        ScrollNode::Instruction { name, .. } => name.clone(),
        ScrollNode::Call { function, .. } => function.clone(),
        ScrollNode::ScrollSentence { object, .. } => object.clone(),
        ScrollNode::Declaration { name, .. } => name.clone(),
        ScrollNode::Conditional { condition, .. } => condition.clone(),
        ScrollNode::Loop { condition, .. } => condition.clone(),
        ScrollNode::Block(_) => String::new(),
    }
}

impl Bearer {
    /// Walks the scroll tree's top-level nodes: validates their count
    /// against the loaded schema's arity, then classifies and
    /// constructs one operand per node, marking its trust and recording
    /// a trace entry. Requires a planted tree and a loaded schema;
    /// without them only an error finding is recorded.
    pub fn walk_scroll_tree(&mut self)
        ensures
            final(self).scroll_tree == old(self).scroll_tree,
            final(self).instruction_schema == old(self).instruction_schema,
            final(self).instruction_registry == old(self).instruction_registry,
            final(self).trust_flags == old(self).trust_flags,
            final(self).operand_bindings == old(self).operand_bindings,
            old(self).errors@.is_prefix_of(final(self).errors@),
            old(self).scroll_tree is None || old(self).instruction_schema is None ==> final(self).resolved_operands == old(self).resolved_operands && final(self).errors@.len() == old(self).errors@.len() + 1 && final(self).errors@.last().severity == Severity::Broken,
            old(self).scroll_tree is Some && old(self).instruction_schema is Some ==> ({
                let tree = old(self).scroll_tree->0;
                let schema = old(self).instruction_schema->0;
                if tree.nodes@.len() != schema.arity {
                    final(self).resolved_operands == old(self).resolved_operands && final(self).errors@.len() == old(self).errors@.len() + 1 && final(self).errors@.last().severity == Severity::Broken
                } else {
                    final(self).resolved_operands@.len() == old(self).resolved_operands@.len()
                        + tree.nodes@.len() && (forall|i: int|
                        0 <= i < tree.nodes@.len() ==> op_view(
                            #[trigger] final(self).resolved_operands@[old(self).resolved_operands@.len() + i],
                        ) == walked_operand(crate::parser::node_view(tree.nodes@[i]))) && (forall|j: int|
                        0 <= j < old(self).resolved_operands@.len()
                            ==> #[trigger] final(self).resolved_operands@[j] == old(self).resolved_operands@[j])
                        && final(self).errors == old(self).errors
                }
            }),
    {
        if self.scroll_tree.is_none() || self.instruction_schema.is_none() {
            let e = DebugEntry::new(
                0,
                "Cannot walk tree - scroll or schema missing.",
                Severity::Broken,
            );
            self.errors.push(e);
            return;
        }
        let node_count = match &self.scroll_tree {
            Some(tree) => tree.nodes.len(),
            None => 0,
        };
        let arity_ok = match &self.instruction_schema {
            Some(schema) => {
                let s_arity = schema.arity;
                node_count == s_arity
            },
            None => false,
        };
        if !arity_ok {
            let e = DebugEntry::new(0, "Arity mismatch against instruction schema.", Severity::Broken);
            self.errors.push(e);
            return;
        }
        let ghost base = self.resolved_operands@.len();
        let mut i: usize = 0;
        while i < node_count
            invariant
                self.scroll_tree == old(self).scroll_tree,
                self.instruction_schema == old(self).instruction_schema,
                self.instruction_registry == old(self).instruction_registry,
                self.trust_flags == old(self).trust_flags,
                self.operand_bindings == old(self).operand_bindings,
                self.errors == old(self).errors,
                self.scroll_tree is Some,
                node_count == self.scroll_tree->0.nodes@.len(),
                i <= node_count,
                base == old(self).resolved_operands@.len(),
                self.resolved_operands@.len() == base + i,
                forall|k: int|
                    0 <= k < i ==> op_view(#[trigger] self.resolved_operands@[base + k])
                        == walked_operand(
                        crate::parser::node_view(self.scroll_tree->0.nodes@[k]),
                    ),
                forall|j: int|
                    0 <= j < base ==> #[trigger] self.resolved_operands@[j] == old(self).resolved_operands@[j],
            decreases node_count - i,
        {
            let text = match &self.scroll_tree {
                Some(tree) => node_operand_text(&tree.nodes[i]),
                None => String::new(),
            };
            let operand_type = self.classify_operand_type(text.as_str());
            let operand = self.construct_operand(text.as_str(), operand_type);
            let trust = self.mark_trust_level(&operand);
            let mut msg = String::new();
            msg.append("Resolved operand: ");
            msg.append(Bearer::signature_kind(&operand));
            msg.append(" with trust ");
            msg.append(tier_label_exec(trust));
            let e = DebugEntry::new(0, msg.as_str(), Severity::Valid);
            proof {
                let nv = crate::parser::node_view(self.scroll_tree->0.nodes@[i as int]);
                assert(text@ == node_text(nv));
                if shape_type(text@) == OperandType::Symbol {
                    assert(operand@ == walk_operand_of(text@, shape_type(text@)));
                }
                if shape_type(text@) == OperandType::Instruction {
                    assert(operand@ == walk_operand_of(text@, shape_type(text@)));
                }
                assert(operand@ == walked_operand(nv));
            }
            self.resolved_operands.push(operand);
            self.debug_trace.push(e);
            i = i + 1;
        }
    }

    /// Plants a scroll tree and immediately begins operand discovery by
    /// walking it: with a loaded schema of matching arity, one operand
    /// per planted node joins the resolved set; an arity mismatch or a
    /// missing schema records a broken finding instead.
    pub fn begin_resolution(&mut self, scroll_tree: ScrollTree)
        ensures
            final(self).scroll_tree matches Some(t) && t.nodes == scroll_tree.nodes,
            final(self).instruction_schema == old(self).instruction_schema,
            final(self).instruction_registry == old(self).instruction_registry,
            final(self).trust_flags == old(self).trust_flags,
            final(self).operand_bindings == old(self).operand_bindings,
            old(self).instruction_schema is None ==> final(self).resolved_operands == old(self).resolved_operands
                && final(self).errors@.len() == old(self).errors@.len() + 1
                && final(self).errors@.last().severity == Severity::Broken,
            old(self).instruction_schema matches Some(schema) ==> ({
                if scroll_tree.nodes@.len() != schema.arity {
                    final(self).resolved_operands == old(self).resolved_operands
                        && final(self).errors@.len() == old(self).errors@.len() + 1
                        && final(self).errors@.last().severity == Severity::Broken
                } else {
                    final(self).resolved_operands@.len() == old(self).resolved_operands@.len()
                        + scroll_tree.nodes@.len() && (forall|i: int|
                        0 <= i < scroll_tree.nodes@.len() ==> op_view(
                            #[trigger] final(self).resolved_operands@[old(self).resolved_operands@.len() + i],
                        ) == walked_operand(crate::parser::node_view(scroll_tree.nodes@[i])))
                        && (forall|j: int|
                        0 <= j < old(self).resolved_operands@.len()
                            ==> #[trigger] final(self).resolved_operands@[j] == old(self).resolved_operands@[j])
                        && final(self).errors == old(self).errors
                }
            }),
    {
        self.scroll_tree = Some(scroll_tree);
        self.walk_scroll_tree();
    }

    /// Marks the resolution phase complete: a record whose operands all
    /// resolved becomes ready to assemble; otherwise it requires
    /// resolution and the failure is traced and reported.
    pub fn finalize_operands(record: &mut InstructionRecord)
        ensures
            same_inputs(*old(record), *final(record)),
            trace_extended(*old(record), *final(record)),
            final(record).resolved_operands == old(record).resolved_operands,
            final(record).trust_summary == old(record).trust_summary,
            all_resolved(ops_view(old(record).resolved_operands@)) ==> final(record).status
                == InstructionStatus::ReadyToAssemble,
            !all_resolved(ops_view(old(record).resolved_operands@)) ==> final(record).status
                == InstructionStatus::RequiresResolution,
    {
        let ok = Bearer::validate_operands(record);
        if ok {
            record.status = InstructionStatus::ReadyToAssemble;
        } else {
            record.status = InstructionStatus::RequiresResolution;
            let e = DebugEntry::new(
                record.line,
                "Finalization failed - unresolved or invalid operand detected.",
                Severity::Broken,
            );
            record.debug_trace.push(e);
            Bearer::report_to_watchtower(record);
        }
    }
}

} // verus!






