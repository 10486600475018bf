//! The instruction schema table: every NovaScript instruction keyword with
//! its opcode, operand schema, flags, privilege and rollout phase. The
//! registry is built once and read by the tokenizer (keyword
//! classification), the parser (instruction validation) and the operand
//! resolver (arity and schema checks).
use vstd::prelude::*;

verus! {

/// Architecture compatibility of an instruction.
#[derive(Debug, Clone, PartialEq, Eq, Structural)]
pub enum BitMode {
    Bit32,
    Bit64,
    Both,
}

/// Side effects or flow alterations an instruction causes.
#[derive(Debug)]
pub enum FlagEffect {
    SetsZero,
    SetsCarry,
    ModifiesMemory,
    AltersFlow,
    SetsCondition,
    EndsFlow,
    Custom(String),
}

/// Minimum privilege level required to execute an instruction.
#[derive(Debug)]
pub enum PrivilegeLevel {
    User,
    Kernel,
    Root,
    Divine,
}

/// The kind of operand an instruction slot expects.
#[derive(Debug)]
pub enum OperandKind {
    Identifier,
    Literal,
    Register,
    Address,
    Label,
    Value,
    Target,
    Custom(String),
}

/// Rollout phase in which an instruction was introduced.
#[derive(Debug, Clone, PartialEq, Eq, Structural)]
pub enum PhaseLevel {
    Phase1,
    Phase2,
    Phase3,
    Phase4,
    Phase5,
    Phase6,
}

/// One instruction's full schema entry.
#[derive(Debug)]
pub struct Instruction {
    pub keyword: String,
    pub verse_anchor: String,
    pub traditional: Vec<String>,
    pub category: String,
    pub description: String,
    pub opcode: u8,
    pub machine_code: String,
    pub bit_mode: BitMode,
    pub operand_count: Option<u8>,
    pub operand_schema: Option<Vec<OperandKind>>,
    pub flags_effects: Option<Vec<FlagEffect>>,
    pub cycle_cost: Option<u16>,
    pub privilege_level: Option<PrivilegeLevel>,
    pub instruction_group_id: Option<u8>,
    pub phase_level: Option<PhaseLevel>,
}

impl Instruction {
    /// The instruction keyword.
    pub fn keyword(&self) -> (r: &str)
        ensures
            r@ == self.keyword@,
    {
        self.keyword.as_str()
    }

    /// The verse anchoring this instruction.
    pub fn verse_anchor(&self) -> (r: &str)
        ensures
            r@ == self.verse_anchor@,
    {
        self.verse_anchor.as_str()
    }

    /// Traditional assembly equivalents.
    pub fn traditional(&self) -> (r: &Vec<String>)
        ensures
            r == &self.traditional,
    {
        &self.traditional
    }

    /// The instruction category.
    pub fn category(&self) -> (r: &str)
        ensures
            r@ == self.category@,
    {
        self.category.as_str()
    }

    /// The human-readable description.
    pub fn description(&self) -> (r: &str)
        ensures
            r@ == self.description@,
    {
        self.description.as_str()
    }

    /// The unique byte opcode.
    pub fn opcode(&self) -> (r: u8)
        ensures
            r == self.opcode,
    {
        self.opcode
    }

    /// The symbolic machine-code representation.
    pub fn machine_code(&self) -> (r: &str)
        ensures
            r@ == self.machine_code@,
    {
        self.machine_code.as_str()
    }

    /// The bit-mode compatibility.
    pub fn bit_mode(&self) -> (r: &BitMode)
        ensures
            r == &self.bit_mode,
    {
        &self.bit_mode
    }

    /// The number of expected operands, if declared.
    pub fn operand_count(&self) -> (r: Option<u8>)
        ensures
            r == self.operand_count,
    {
        self.operand_count
    }

    /// The operand kind schema, if declared.
    pub fn operand_schema(&self) -> (r: Option<&Vec<OperandKind>>)
        ensures
            r is Some <==> self.operand_schema is Some,
            r is Some ==> r->0 == &self.operand_schema->0,
    {
        self.operand_schema.as_ref()
    }

    /// The flag effects, if declared.
    pub fn flags_effects(&self) -> (r: Option<&Vec<FlagEffect>>)
        ensures
            r is Some <==> self.flags_effects is Some,
            r is Some ==> r->0 == &self.flags_effects->0,
    {
        self.flags_effects.as_ref()
    }

    /// The estimated cycle cost.
    pub fn cycle_cost(&self) -> (r: Option<u16>)
        ensures
            r == self.cycle_cost,
    {
        self.cycle_cost
    }

    /// The required privilege level.
    pub fn privilege_level(&self) -> (r: Option<&PrivilegeLevel>)
        ensures
            r is Some <==> self.privilege_level is Some,
            r is Some ==> r->0 == &self.privilege_level->0,
    {
        self.privilege_level.as_ref()
    }

    /// The bytecode group id.
    pub fn instruction_group_id(&self) -> (r: Option<u8>)
        ensures
            r == self.instruction_group_id,
    {
        self.instruction_group_id
    }

    /// The rollout phase level.
    pub fn phase_level(&self) -> (r: Option<&PhaseLevel>)
        ensures
            r is Some <==> self.phase_level is Some,
            r is Some ==> r->0 == &self.phase_level->0,
    {
        self.phase_level.as_ref()
    }
}

/// The instruction names that the registry holds.
pub open spec fn is_registered(name: Seq<char>) -> bool {
    ||| name == "wait"@
    ||| name == "go"@
    ||| name == "walk"@
    ||| name == "invoke"@
    ||| name == "speak"@
    ||| name == "hear"@
    ||| name == "break"@
    ||| name == "then"@
    ||| name == "else"@
    ||| name == "if"@
    ||| name == "bless"@
    ||| name == "curse"@
    ||| name == "store"@
    ||| name == "recall"@
    ||| name == "let"@
    ||| name == "end"@
}

/// The arity (operand count) that the registry declares for a registered
/// instruction name.
pub open spec fn registered_arity(name: Seq<char>) -> int {
    if name == "wait"@ || name == "break"@ || name == "then"@ || name == "else"@ || name == "end"@ {
        0
    } else if name == "if"@ || name == "store"@ || name == "let"@ {
        2
    } else {
        1
    }
}

/// The keyed schema table, held as an ordered list with unique keywords.
pub struct InstructionRegistry {
    pub entries: Vec<Instruction>,
}

/// The arity and operand expectations looked up for one instruction.
pub struct OperandSchema {
    pub arity: usize,
    pub kinds: Vec<OperandKind>,
}

impl InstructionRegistry {
    /// Whether an entry with this keyword exists.
    pub open spec fn spec_contains(&self, name: Seq<char>) -> bool {
        exists|i: int|
            0 <= i < self.entries@.len() && #[trigger] self.entries@[i].keyword@ == name
    }

    /// The keywords are pairwise distinct.
    pub open spec fn wf(&self) -> bool {
        forall|i: int, j: int|
            0 <= i < j < self.entries@.len() ==> #[trigger] self.entries@[i].keyword@
                != #[trigger] self.entries@[j].keyword@
    }

    /// Number of registered instructions.
    pub fn len(&self) -> (r: usize)
        ensures
            r == self.entries@.len(),
    {
        self.entries.len()
    }

    /// Whether the registry holds no instructions.
    pub fn is_empty(&self) -> (r: bool)
        ensures
            r == (self.entries@.len() == 0),
    {
        self.entries.len() == 0
    }

    /// Read-only access to all entries in registration order.
    pub fn entries(&self) -> (r: &Vec<Instruction>)
        ensures
            r == &self.entries,
    {
        &self.entries
    }

    /// Whether an instruction with this keyword is registered.
    pub fn contains_key(&self, name: &str) -> (r: bool)
        ensures
            r == self.spec_contains(name@),
    {
        let mut i: usize = 0;
        while i < self.entries.len()
            invariant
                i <= self.entries@.len(),
                forall|j: int| 0 <= j < i ==> #[trigger] self.entries@[j].keyword@ != name@,
            decreases self.entries@.len() - i,
        {
            if crate::text::str_eq(self.entries[i].keyword.as_str(), name) {
                return true;
            }
            i = i + 1;
        }
        false
    }

    /// Looks up an instruction by keyword.
    pub fn get(&self, name: &str) -> (r: Option<&Instruction>)
        ensures
            r is Some <==> self.spec_contains(name@),
            r is Some ==> r->0.keyword@ == name@,
            r is Some ==> exists|i: int|
                0 <= i < self.entries@.len() && self.entries@[i] == *r->0,
    {
        let mut i: usize = 0;
        while i < self.entries.len()
            invariant
                i <= self.entries@.len(),
                forall|j: int| 0 <= j < i ==> #[trigger] self.entries@[j].keyword@ != name@,
            decreases self.entries@.len() - i,
        {
            if crate::text::str_eq(self.entries[i].keyword.as_str(), name) {
                return Some(&self.entries[i]);
            }
            i = i + 1;
        }
        None
    }

    /// Looks up the operand schema (arity and expected kinds) for an
    /// instruction. The arity is the declared operand count, or zero when
    /// none was declared.
    pub fn get_schema(&self, name: &str) -> (r: Option<OperandSchema>)
        ensures
            r is Some <==> self.spec_contains(name@),
            r is Some ==> exists|i: int|
                0 <= i < self.entries@.len() && #[trigger] self.entries@[i].keyword@ == name@
                    && r->0.arity == schema_arity_of(self.entries@[i]),
    {
        let found = self.get(name);
        match found {
            None => None,
            Some(ins) => {
                let arity: usize = match ins.operand_count {
                    Some(n) => n as usize,
                    None => 0,
                };
                let kinds: Vec<OperandKind> = match ins.operand_schema.as_ref() {
                    Some(ks) => clone_kinds(ks),
                    None => Vec::new(),
                };
                Some(OperandSchema { arity, kinds })
            },
        }
    }
}

/// The arity that one entry declares: its operand count, or zero.
pub open spec fn schema_arity_of(ins: Instruction) -> int {
    match ins.operand_count {
        Some(n) => n as int,
        None => 0,
    }
}

/// Copies an operand kind.
pub fn clone_kind(k: &OperandKind) -> (r: OperandKind)
    ensures
        r == *k,
{
    match k {
        OperandKind::Identifier => OperandKind::Identifier,
        OperandKind::Literal => OperandKind::Literal,
        OperandKind::Register => OperandKind::Register,
        OperandKind::Address => OperandKind::Address,
        OperandKind::Label => OperandKind::Label,
        OperandKind::Value => OperandKind::Value,
        OperandKind::Target => OperandKind::Target,
        OperandKind::Custom(s) => OperandKind::Custom(s.clone()),
    }
}

/// Copies an operand kind list.
pub fn clone_kinds(ks: &Vec<OperandKind>) -> (r: Vec<OperandKind>)
    ensures
        r@ == ks@,
{
    let mut r: Vec<OperandKind> = Vec::new();
    let mut i: usize = 0;
    while i < ks.len()
        invariant
            i <= ks@.len(),
            r@ == ks@.subrange(0, i as int),
        decreases ks@.len() - i,
    {
        r.push(clone_kind(&ks[i]));
        i = i + 1;
        proof {
            assert(r@ =~= ks@.subrange(0, i as int));
        }
    }
    proof {
        assert(r@ =~= ks@);
    }
    r
}

fn owned(s: &str) -> (r: String)
    ensures
        r@ == s@,
{
    s.to_owned()
}

fn mnemonics1(a: &str) -> (r: Vec<String>)
    ensures
        r@.len() == 1,
        r@[0]@ == a@,
{
    let mut v: Vec<String> = Vec::new();
    v.push(a.to_owned());
    v
}

fn mnemonics2(a: &str, b: &str) -> (r: Vec<String>)
    ensures
        r@.len() == 2,
        r@[0]@ == a@,
        r@[1]@ == b@,
{
    let mut v: Vec<String> = Vec::new();
    v.push(a.to_owned());
    v.push(b.to_owned());
    v
}

fn kinds1(a: OperandKind) -> (r: Vec<OperandKind>)
    ensures
        r@ =~= seq![a],
{
    let mut v: Vec<OperandKind> = Vec::new();
    v.push(a);
    v
}

fn kinds2(a: OperandKind, b: OperandKind) -> (r: Vec<OperandKind>)
    ensures
        r@ =~= seq![a, b],
{
    let mut v: Vec<OperandKind> = Vec::new();
    v.push(a);
    v.push(b);
    v
}

fn effects1(a: FlagEffect) -> (r: Vec<FlagEffect>)
    ensures
        r@ =~= seq![a],
{
    let mut v: Vec<FlagEffect> = Vec::new();
    v.push(a);
    v
}

fn effects2(a: FlagEffect, b: FlagEffect) -> (r: Vec<FlagEffect>)
    ensures
        r@ =~= seq![a, b],
{
    let mut v: Vec<FlagEffect> = Vec::new();
    v.push(a);
    v.push(b);
    v
}

/// Builds the full NovaScript instruction registry: the fixed table that
/// drives keyword classification, instruction validation and operand
/// schema checks. The contract pins exactly which names are registered
/// and the arity declared for each.
pub fn get_instruction_registry() -> (r: InstructionRegistry)
    ensures
        r.wf(),
        r.entries@.len() == 16,
        forall|name: Seq<char>| #[trigger] r.spec_contains(name) <==> is_registered(name),
        forall|i: int|
            0 <= i < r.entries@.len() ==> schema_arity_of(#[trigger] r.entries@[i])
                == registered_arity(r.entries@[i].keyword@),
        forall|i: int, j: int|
            0 <= i < j < r.entries@.len() ==> (#[trigger] r.entries@[i]).opcode
                != (#[trigger] r.entries@[j]).opcode,
        forall|i: int|
            0 <= i < r.entries@.len() ==> ((#[trigger] r.entries@[i]).operand_schema matches Some(s)
                ==> s@.len() == schema_arity_of(r.entries@[i])),
{
    let mut entries: Vec<Instruction> = Vec::new();

    // Control: pause execution.
    entries.push(Instruction {
        keyword: owned("wait"),
        verse_anchor: owned("Ps 27:14"),
        traditional: mnemonics2("NOP", "SLEEP"),
        category: owned("Control"),
        description: owned("Pause or delay execution for a time."),
        opcode: 0x00,
        machine_code: owned("00"),
        bit_mode: BitMode::Both,
        operand_count: Some(0),
        operand_schema: Some(Vec::new()),
        flags_effects: None,
        cycle_cost: Some(1),
        privilege_level: Some(PrivilegeLevel::User),
        instruction_group_id: Some(0x10),
        phase_level: Some(PhaseLevel::Phase1),
    });

    // Control flow: unconditional jump.
    entries.push(Instruction {
        keyword: owned("go"),
        verse_anchor: owned("Gen 12:1"),
        traditional: mnemonics1("JMP"),
        category: owned("Control Flow"),
        description: owned("Jump to another label or instruction unconditionally."),
        opcode: 0x10,
        machine_code: owned("10 XX"),
        bit_mode: BitMode::Both,
        operand_count: Some(1),
        operand_schema: Some(kinds1(OperandKind::Label)),
        flags_effects: Some(effects1(FlagEffect::AltersFlow)),
        cycle_cost: Some(2),
        privilege_level: Some(PrivilegeLevel::User),
        instruction_group_id: Some(0x10),
        phase_level: Some(PhaseLevel::Phase1),
    });

    // Flow/invoke: call a subroutine.
    entries.push(Instruction {
        keyword: owned("walk"),
        verse_anchor: owned("Micah 6:8"),
        traditional: mnemonics2("CALL", "FUNC"),
        category: owned("Flow/Invoke"),
        description: owned("Invoke a subroutine, function, or program."),
        opcode: 0x11,
        machine_code: owned("11 XX"),
        bit_mode: BitMode::Both,
        operand_count: Some(1),
        operand_schema: Some(kinds1(OperandKind::Label)),
        flags_effects: Some(effects1(FlagEffect::AltersFlow)),
        cycle_cost: Some(3),
        privilege_level: Some(PrivilegeLevel::User),
        instruction_group_id: Some(0x10),
        phase_level: Some(PhaseLevel::Phase1),
    });

    // Flow/invoke: call a named routine by reference.
    entries.push(Instruction {
        keyword: owned("invoke"),
        verse_anchor: owned("Acts 2:21"),
        traditional: mnemonics1("CALL"),
        category: owned("Flow/Invoke"),
        description: owned("Call a named instruction, routine, or scroll."),
        opcode: 0x12,
        machine_code: owned("12 XX"),
        bit_mode: BitMode::Both,
        operand_count: Some(1),
        operand_schema: Some(kinds1(OperandKind::Label)),
        flags_effects: Some(effects1(FlagEffect::AltersFlow)),
        cycle_cost: Some(3),
        privilege_level: Some(PrivilegeLevel::User),
        instruction_group_id: Some(0x10),
        phase_level: Some(PhaseLevel::Phase1),
    });

    // IO: output.
    entries.push(Instruction {
        keyword: owned("speak"),
        verse_anchor: owned("John 12:49"),
        traditional: mnemonics2("PRINT", "OUT"),
        category: owned("IO"),
        description: owned("Output data to terminal or vocal system."),
        opcode: 0x20,
        machine_code: owned("20 VV"),
        bit_mode: BitMode::Both,
        operand_count: Some(1),
        operand_schema: Some(kinds1(OperandKind::Literal)),
        flags_effects: Some(effects1(FlagEffect::Custom(owned("OutputOperation")))),
        cycle_cost: Some(2),
        privilege_level: Some(PrivilegeLevel::User),
        instruction_group_id: Some(0x20),
        phase_level: Some(PhaseLevel::Phase1),
    });

    // IO: input.
    entries.push(Instruction {
        keyword: owned("hear"),
        verse_anchor: owned("Rom 10:17"),
        traditional: mnemonics1("INPUT"),
        category: owned("IO"),
        description: owned("Receive user or system input."),
        opcode: 0x21,
        machine_code: owned("21 DD"),
        bit_mode: BitMode::Both,
        operand_count: Some(1),
        operand_schema: Some(kinds1(OperandKind::Identifier)),
        flags_effects: Some(effects1(FlagEffect::ModifiesMemory)),
        cycle_cost: Some(3),
        privilege_level: Some(PrivilegeLevel::User),
        instruction_group_id: Some(0x20),
        phase_level: Some(PhaseLevel::Phase1),
    });

    // Interrupt/flow: controlled interruption.
    entries.push(Instruction {
        keyword: owned("break"),
        verse_anchor: owned("Luke 24:30"),
        traditional: mnemonics2("INT", "BRK"),
        category: owned("Interrupt/Flow"),
        description: owned("Exit from current loop, condition, or raise system-level interrupt."),
        opcode: 0x30,
        machine_code: owned("30"),
        bit_mode: BitMode::Both,
        operand_count: Some(0),
        operand_schema: None,
        flags_effects: Some(effects1(FlagEffect::AltersFlow)),
        cycle_cost: Some(1),
        privilege_level: Some(PrivilegeLevel::Kernel),
        instruction_group_id: Some(0x30),
        phase_level: Some(PhaseLevel::Phase1),
    });

    // Logic structure: success branch.
    entries.push(Instruction {
        keyword: owned("then"),
        verse_anchor: owned("Prov 3:6"),
        traditional: mnemonics1("-"),
        category: owned("Logic Structure"),
        description: owned("Defines outcome when condition is met."),
        opcode: 0x40,
        machine_code: owned("40"),
        bit_mode: BitMode::Both,
        operand_count: Some(0),
        operand_schema: None,
        flags_effects: None,
        cycle_cost: Some(1),
        privilege_level: Some(PrivilegeLevel::User),
        instruction_group_id: Some(0x40),
        phase_level: Some(PhaseLevel::Phase1),
    });

    // Logic structure: failure branch.
    entries.push(Instruction {
        keyword: owned("else"),
        verse_anchor: owned("Matt 5:39"),
        traditional: mnemonics1("-"),
        category: owned("Logic Structure"),
        description: owned("Defines alternate outcome if condition fails."),
        opcode: 0x41,
        machine_code: owned("41"),
        bit_mode: BitMode::Both,
        operand_count: Some(0),
        operand_schema: None,
        flags_effects: None,
        cycle_cost: Some(1),
        privilege_level: Some(PrivilegeLevel::User),
        instruction_group_id: Some(0x40),
        phase_level: Some(PhaseLevel::Phase1),
    });

    // Logic/control: conditional evaluation.
    entries.push(Instruction {
        keyword: owned("if"),
        verse_anchor: owned("Matt 4:3-4"),
        traditional: mnemonics2("CMP", "JE"),
        category: owned("Logic/Control"),
        description: owned("Conditional evaluation of a statement or expression."),
        opcode: 0x50,
        machine_code: owned("50 VV1 VV2"),
        bit_mode: BitMode::Both,
        operand_count: Some(2),
        operand_schema: Some(kinds2(OperandKind::Value, OperandKind::Value)),
        flags_effects: Some(effects1(FlagEffect::SetsCondition)),
        cycle_cost: Some(2),
        privilege_level: Some(PrivilegeLevel::User),
        instruction_group_id: Some(0x40),
        phase_level: Some(PhaseLevel::Phase1),
    });

    // Math/logic: increment.
    entries.push(Instruction {
        keyword: owned("bless"),
        verse_anchor: owned("Gen 1:28"),
        traditional: mnemonics1("INC"),
        category: owned("Math/Logic"),
        description: owned("Increase a value or quantity."),
        opcode: 0x60,
        machine_code: owned("60 TT"),
        bit_mode: BitMode::Both,
        operand_count: Some(1),
        operand_schema: Some(kinds1(OperandKind::Target)),
        flags_effects: Some(effects2(
            FlagEffect::ModifiesMemory,
            FlagEffect::Custom(owned("BlessingFlow")),
        )),
        cycle_cost: Some(1),
        privilege_level: Some(PrivilegeLevel::User),
        instruction_group_id: Some(0x60),
        phase_level: Some(PhaseLevel::Phase1),
    });

    // Math/logic: decrement.
    entries.push(Instruction {
        keyword: owned("curse"),
        verse_anchor: owned("Gen 3:17"),
        traditional: mnemonics1("DEC"),
        category: owned("Math/Logic"),
        description: owned("Decrease a value or apply limitation."),
        opcode: 0x61,
        machine_code: owned("61 TT"),
        bit_mode: BitMode::Both,
        operand_count: Some(1),
        operand_schema: Some(kinds1(OperandKind::Target)),
        flags_effects: Some(effects2(
            FlagEffect::ModifiesMemory,
            FlagEffect::Custom(owned("CurseEffect")),
        )),
        cycle_cost: Some(1),
        privilege_level: Some(PrivilegeLevel::User),
        instruction_group_id: Some(0x60),
        phase_level: Some(PhaseLevel::Phase1),
    });

    // Memory: save a value.
    entries.push(Instruction {
        keyword: owned("store"),
        verse_anchor: owned("Deut 6:6-9"),
        traditional: mnemonics2("PUSH", "STOR"),
        category: owned("Memory"),
        description: owned("Save data into stack or designated memory location."),
        opcode: 0x70,
        machine_code: owned("70 TT VV"),
        bit_mode: BitMode::Both,
        operand_count: Some(2),
        operand_schema: Some(kinds2(OperandKind::Target, OperandKind::Value)),
        flags_effects: Some(effects2(
            FlagEffect::ModifiesMemory,
            FlagEffect::Custom(owned("StoreCommand")),
        )),
        cycle_cost: Some(2),
        privilege_level: Some(PrivilegeLevel::User),
        instruction_group_id: Some(0x70),
        phase_level: Some(PhaseLevel::Phase1),
    });

    // Memory: retrieve a value.
    entries.push(Instruction {
        keyword: owned("recall"),
        verse_anchor: owned("John 14:26"),
        traditional: mnemonics2("POP", "LOAD"),
        category: owned("Memory"),
        description: owned("Retrieve data from memory or archive."),
        opcode: 0x71,
        machine_code: owned("71 TT"),
        bit_mode: BitMode::Both,
        operand_count: Some(1),
        operand_schema: Some(kinds1(OperandKind::Target)),
        flags_effects: Some(effects2(
            FlagEffect::ModifiesMemory,
            FlagEffect::Custom(owned("RecallCommand")),
        )),
        cycle_cost: Some(2),
        privilege_level: Some(PrivilegeLevel::User),
        instruction_group_id: Some(0x70),
        phase_level: Some(PhaseLevel::Phase1),
    });

    // Memory/data: declare or assign.
    entries.push(Instruction {
        keyword: owned("let"),
        verse_anchor: owned("Gen 1:3"),
        traditional: mnemonics2("MOV", "SET"),
        category: owned("Memory/Data"),
        description: owned("Declare or assign a value to a variable or register."),
        opcode: 0x72,
        machine_code: owned("72 TT VV"),
        bit_mode: BitMode::Both,
        operand_count: Some(2),
        operand_schema: Some(kinds2(OperandKind::Target, OperandKind::Value)),
        flags_effects: Some(effects2(
            FlagEffect::ModifiesMemory,
            FlagEffect::Custom(owned("LetDeclaration")),
        )),
        cycle_cost: Some(1),
        privilege_level: Some(PrivilegeLevel::User),
        instruction_group_id: Some(0x70),
        phase_level: Some(PhaseLevel::Phase1),
    });

    // Structure: close of a scroll or block.
    entries.push(Instruction {
        keyword: owned("end"),
        verse_anchor: owned("Rev 22:13"),
        traditional: mnemonics2("RET", "END"),
        category: owned("Structure"),
        description: owned("Terminates a block, function, or file."),
        opcode: 0xFF,
        machine_code: owned("FF"),
        bit_mode: BitMode::Both,
        operand_count: Some(0),
        operand_schema: None,
        flags_effects: Some(effects1(FlagEffect::EndsFlow)),
        cycle_cost: Some(1),
        privilege_level: Some(PrivilegeLevel::User),
        instruction_group_id: Some(0xFF),
        phase_level: Some(PhaseLevel::Phase1),
    });

    let reg = InstructionRegistry { entries };
    proof {
        reveal_strlit("wait");
        reveal_strlit("go");
        reveal_strlit("walk");
        reveal_strlit("invoke");
        reveal_strlit("speak");
        reveal_strlit("hear");
        reveal_strlit("break");
        reveal_strlit("then");
        reveal_strlit("else");
        reveal_strlit("if");
        reveal_strlit("bless");
        reveal_strlit("curse");
        reveal_strlit("store");
        reveal_strlit("recall");
        reveal_strlit("let");
        reveal_strlit("end");
        assert(reg.entries@[0].keyword@ == "wait"@);
        assert(reg.entries@[1].keyword@ == "go"@);
        assert(reg.entries@[2].keyword@ == "walk"@);
        assert(reg.entries@[3].keyword@ == "invoke"@);
        assert(reg.entries@[4].keyword@ == "speak"@);
        assert(reg.entries@[5].keyword@ == "hear"@);
        assert(reg.entries@[6].keyword@ == "break"@);
        assert(reg.entries@[7].keyword@ == "then"@);
        assert(reg.entries@[8].keyword@ == "else"@);
        assert(reg.entries@[9].keyword@ == "if"@);
        assert(reg.entries@[10].keyword@ == "bless"@);
        assert(reg.entries@[11].keyword@ == "curse"@);
        assert(reg.entries@[12].keyword@ == "store"@);
        assert(reg.entries@[13].keyword@ == "recall"@);
        assert(reg.entries@[14].keyword@ == "let"@);
        assert(reg.entries@[15].keyword@ == "end"@);
        assert("wait"@.len() == 4 && "wait"@[0] == 'w' && "wait"@[2] == 'i');
        assert("go"@.len() == 2 && "go"@[0] == 'g');
        assert("walk"@.len() == 4 && "walk"@[0] == 'w' && "walk"@[2] == 'l');
        assert("invoke"@.len() == 6 && "invoke"@[0] == 'i');
        assert("speak"@.len() == 5 && "speak"@[0] == 's' && "speak"@[1] == 'p');
        assert("hear"@.len() == 4 && "hear"@[0] == 'h');
        assert("break"@.len() == 5 && "break"@[0] == 'b' && "break"@[1] == 'r');
        assert("then"@.len() == 4 && "then"@[0] == 't');
        assert("else"@.len() == 4 && "else"@[0] == 'e');
        assert("if"@.len() == 2 && "if"@[0] == 'i');
        assert("bless"@.len() == 5 && "bless"@[0] == 'b' && "bless"@[1] == 'l');
        assert("curse"@.len() == 5 && "curse"@[0] == 'c');
        assert("store"@.len() == 5 && "store"@[0] == 's' && "store"@[1] == 't');
        assert("recall"@.len() == 6 && "recall"@[0] == 'r');
        assert("let"@.len() == 3 && "let"@[0] == 'l');
        assert("end"@.len() == 3 && "end"@[0] == 'e');
        assert forall|i: int, j: int|
            0 <= i < j < reg.entries@.len() implies #[trigger] reg.entries@[i].keyword@
            != #[trigger] reg.entries@[j].keyword@ by {
            assert(0 <= i < 16 && 0 <= j < 16);
        };
        assert forall|i: int|
            0 <= i < reg.entries@.len() implies schema_arity_of(#[trigger] reg.entries@[i])
            == registered_arity(reg.entries@[i].keyword@) by {
            assert(0 <= i < 16);
        };
        assert forall|i: int, j: int|
            0 <= i < j < reg.entries@.len() implies (#[trigger] reg.entries@[i]).opcode
            != (#[trigger] reg.entries@[j]).opcode by {
            assert(0 <= i < 16 && 0 <= j < 16);
        };
        assert forall|i: int|
            0 <= i < reg.entries@.len() implies ((#[trigger] reg.entries@[i]).operand_schema
            matches Some(s) ==> s@.len() == schema_arity_of(reg.entries@[i])) by {
            assert(0 <= i < 16);
        };
        assert forall|name: Seq<char>| #[trigger] reg.spec_contains(name) implies is_registered(
            name,
        ) by {
            let i = choose|i: int|
                0 <= i < reg.entries@.len() && #[trigger] reg.entries@[i].keyword@ == name;
        };
        assert forall|name: Seq<char>| is_registered(name) implies #[trigger] reg.spec_contains(
            name,
        ) by {
            if name == "wait"@ {
                assert(reg.entries@[0].keyword@ == name);
            } else if name == "go"@ {
                assert(reg.entries@[1].keyword@ == name);
            } else if name == "walk"@ {
                assert(reg.entries@[2].keyword@ == name);
            } else if name == "invoke"@ {
                assert(reg.entries@[3].keyword@ == name);
            } else if name == "speak"@ {
                assert(reg.entries@[4].keyword@ == name);
            } else if name == "hear"@ {
                assert(reg.entries@[5].keyword@ == name);
            } else if name == "break"@ {
                assert(reg.entries@[6].keyword@ == name);
            } else if name == "then"@ {
                assert(reg.entries@[7].keyword@ == name);
            } else if name == "else"@ {
                assert(reg.entries@[8].keyword@ == name);
            } else if name == "if"@ {
                assert(reg.entries@[9].keyword@ == name);
            } else if name == "bless"@ {
                assert(reg.entries@[10].keyword@ == name);
            } else if name == "curse"@ {
                assert(reg.entries@[11].keyword@ == name);
            } else if name == "store"@ {
                assert(reg.entries@[12].keyword@ == name);
            } else if name == "recall"@ {
                assert(reg.entries@[13].keyword@ == name);
            } else if name == "let"@ {
                assert(reg.entries@[14].keyword@ == name);
            } else {
                assert(reg.entries@[15].keyword@ == name);
            }
        };
    }
    reg
}

} // verus!
