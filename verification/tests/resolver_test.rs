//! The operand resolver's pipeline: structural validation, operand
//! construction, the trust cascade and the readiness state machine.
use tablet::parser::{ScrollNode, ScrollTree};
use tablet::watchtower::Severity;
use tablet::operand_resolver::{
    Bearer, InstructionRecord, InstructionStatus, Operand, OperandType, TrustTier,
};

fn tag_value<'a>(record: &'a InstructionRecord, key: &str) -> Option<&'a str> {
    for (k, v) in record.metadata_tags.iter() {
        if k == key {
            return Some(v.as_str());
        }
    }
    None
}

#[test]
fn test_empty_subject_halts_resolution() {
    // an empty required field makes the instruction terminally invalid
    let mut record = InstructionRecord::new("", "let", "x", 7);
    Bearer::resolve_operands(&mut record);
    assert_eq!(record.status, InstructionStatus::Invalid);
    assert!(record.resolved_operands.is_empty());
    assert_eq!(record.retry_count, 0);
    assert!(!record.rewalk_flag);
}

#[test]
fn test_quoted_literal_resolves_certain() {
    // a quoted object overrides the symbol classification: the operand
    // is a literal, certain, and the instruction is ready
    let mut record = InstructionRecord::new("scroll", "let", "\"truth\"", 3);
    Bearer::resolve_operands(&mut record);
    assert_eq!(record.resolved_operands.len(), 1);
    match &record.resolved_operands[0] {
        Operand::Literal { value, dtype } => {
            assert_eq!(value, "truth");
            assert!(dtype.is_none());
        }
        other => panic!("expected a literal operand, got {:?}", other),
    }
    assert_eq!(record.trust_summary, Some(TrustTier::Certain));
    assert_eq!(record.status, InstructionStatus::ReadyToAssemble);
}

#[test]
fn test_placeholder_triggers_rewalk() {
    // a placeholder operand sets the rewalk flag, bumps the retry
    // counter once, and ends the pass requiring a rewalk
    let mut record = InstructionRecord::new("scroll", "let", "_", 9);
    Bearer::resolve_operands(&mut record);
    assert_eq!(record.resolved_operands.len(), 1);
    assert!(matches!(&record.resolved_operands[0], Operand::Placeholder(p) if p == "_"));
    assert!(record.rewalk_flag);
    assert_eq!(record.retry_count, 1);
    assert_eq!(record.status, InstructionStatus::RequiresRewalk);
    assert_eq!(tag_value(&record, "meta_operand_type"), Some("Placeholder"));
}

#[test]
fn test_binding_resolves_trusted() {
    let mut record = InstructionRecord::new("scroll", "set", "flame", 1);
    Bearer::resolve_operands(&mut record);
    assert!(matches!(&record.resolved_operands[0], Operand::Binding { name, .. } if name == "flame"));
    assert_eq!(record.trust_summary, Some(TrustTier::Trusted));
    assert_eq!(record.status, InstructionStatus::ReadyToAssemble);
    assert!(record
        .trust_flags
        .iter()
        .any(|(name, tier)| name == "flame" && *tier == TrustTier::Trusted));
}

#[test]
fn test_unclassified_verb_yields_invalid_operand() {
    // a verb outside the taxonomy leaves the object unclassified, and
    // the constructed operand is invalid: shadowed trust, rewalk
    let mut record = InstructionRecord::new("scroll", "mumble", "thing", 2);
    Bearer::resolve_operands(&mut record);
    assert!(matches!(&record.resolved_operands[0], Operand::InvalidOperand(t) if t == "thing"));
    assert_eq!(record.trust_summary, Some(TrustTier::Shadowed));
    assert_eq!(record.status, InstructionStatus::RequiresRewalk);
    assert!(record.defer_to_watchtower);
}

#[test]
fn test_ready_is_terminal_across_passes() {
    // once ready to assemble, a later pass never moves the instruction
    let mut record = InstructionRecord::new("scroll", "let", "\"truth\"", 3);
    Bearer::resolve_operands(&mut record);
    assert_eq!(record.status, InstructionStatus::ReadyToAssemble);
    // even a now-empty subject cannot downgrade a terminal record
    record.subject = String::new();
    Bearer::resolve_operands(&mut record);
    assert_eq!(record.status, InstructionStatus::ReadyToAssemble);
    assert_eq!(record.resolved_operands.len(), 1);
}

#[test]
fn test_resolution_idempotent_without_rewalk() {
    // resolving twice without intervening input changes and without a
    // pending rewalk produces identical operand sets and summaries
    let mut first = InstructionRecord::new("scroll", "define", "grace", 4);
    Bearer::resolve_operands(&mut first);
    let mut second = InstructionRecord::new("scroll", "define", "grace", 4);
    Bearer::resolve_operands(&mut second);
    Bearer::resolve_operands(&mut second);
    assert!(!first.rewalk_flag);
    assert!(!second.rewalk_flag);
    assert_eq!(first.resolved_operands.len(), second.resolved_operands.len());
    match (&first.resolved_operands[0], &second.resolved_operands[0]) {
        (Operand::Binding { name: a, .. }, Operand::Binding { name: b, .. }) => {
            assert_eq!(a, b);
        }
        _ => panic!("expected binding operands from both passes"),
    }
    assert_eq!(first.trust_summary, second.trust_summary);
}

#[test]
fn test_weakest_link_cascade() {
    // a shadowed operand beside a certain one drags the summary down to
    // shadowed: the cascade is a minimum, never an average
    let mut record = InstructionRecord::new("scroll", "let", "x", 5);
    record.resolved_operands.push(Operand::Literal {
        value: "sure".to_string(),
        dtype: Some(OperandType::String),
    });
    record.resolved_operands.push(Operand::InvalidOperand("murky".to_string()));
    Bearer::cascade_trust_summary(&mut record);
    assert_eq!(record.trust_summary, Some(TrustTier::Shadowed));
}

#[test]
fn test_cascade_of_empty_set_is_certain() {
    let mut record = InstructionRecord::new("scroll", "let", "x", 5);
    Bearer::cascade_trust_summary(&mut record);
    assert_eq!(record.trust_summary, Some(TrustTier::Certain));
}

#[test]
fn test_instruction_ref_defers_to_watchtower() {
    let mut record = InstructionRecord::new("scroll", "let", "ref:bless", 6);
    Bearer::resolve_operands(&mut record);
    assert!(matches!(&record.resolved_operands[0], Operand::InstructionRef(n) if n == "bless"));
    assert!(record.defer_to_watchtower);
    assert_eq!(record.status, InstructionStatus::RequiresResolution);
    assert_eq!(tag_value(&record, "meta_operand_type"), Some("InstructionRef"));
}

#[test]
fn test_wildcard_is_accepted() {
    let mut record = InstructionRecord::new("scroll", "let", "*", 8);
    Bearer::resolve_operands(&mut record);
    assert!(matches!(&record.resolved_operands[0], Operand::Wildcard));
    assert_eq!(record.status, InstructionStatus::ReadyToAssemble);
    assert_eq!(tag_value(&record, "meta_operand_type"), Some("Wildcard"));
}

#[test]
fn test_metadata_tags_recorded() {
    let mut record = InstructionRecord::new("scroll", "let", "\"truth\"", 41);
    record.source_scroll = Some("genesis.omni".to_string());
    Bearer::resolve_operands(&mut record);
    assert_eq!(tag_value(&record, "operand_origin"), Some("Origin line: 41"));
    assert_eq!(tag_value(&record, "operand_role"), Some("Literal"));
    assert_eq!(tag_value(&record, "resolution_state"), Some("Final"));
    assert_eq!(tag_value(&record, "trust_tier"), Some("Trust tier: Certain"));
    assert_eq!(tag_value(&record, "source_scroll"), Some("genesis.omni"));
}

#[test]
fn test_validate_operands_rejects_pending() {
    let mut record = InstructionRecord::new("s", "v", "o", 0);
    record.resolved_operands.push(Operand::Literal { value: "ok".to_string(), dtype: None });
    assert!(Bearer::validate_operands(&record));
    record.resolved_operands.push(Operand::Placeholder("_".to_string()));
    assert!(!Bearer::validate_operands(&record));
}

#[test]
fn test_finalize_operands_states() {
    let mut record = InstructionRecord::new("s", "v", "o", 0);
    record.resolved_operands.push(Operand::Literal { value: "ok".to_string(), dtype: None });
    Bearer::finalize_operands(&mut record);
    assert_eq!(record.status, InstructionStatus::ReadyToAssemble);
    record.resolved_operands.push(Operand::InvalidOperand("bad".to_string()));
    Bearer::finalize_operands(&mut record);
    assert_eq!(record.status, InstructionStatus::RequiresResolution);
}

#[test]
fn test_export_operand_signature() {
    let mut record = InstructionRecord::new("s", "v", "o", 0);
    record.resolved_operands.push(Operand::Literal { value: "42".to_string(), dtype: None });
    record.resolved_operands.push(Operand::Binding { name: "flame".to_string(), alignment: None });
    let signature = Bearer::export_operand_signature(&record);
    assert_eq!(signature, "[Literal: 42 | Symbol: flame]");
}

#[test]
fn test_classify_and_construct_shapes() {
    let bearer = Bearer::new();
    assert_eq!(bearer.classify_operand_type("\"word\""), OperandType::String);
    assert_eq!(bearer.classify_operand_type("$name"), OperandType::Symbol);
    assert_eq!(bearer.classify_operand_type("*"), OperandType::Wildcard);
    assert_eq!(bearer.classify_operand_type("ref:go"), OperandType::Instruction);
    assert_eq!(bearer.classify_operand_type("_"), OperandType::Placeholder);
    assert_eq!(bearer.classify_operand_type("123abc"), OperandType::Unknown);

    let op = bearer.construct_operand("$name", OperandType::Symbol);
    assert!(matches!(&op, Operand::Binding { name, .. } if name == "name"));
    let op = bearer.construct_operand("\"word\"", OperandType::String);
    assert!(matches!(&op, Operand::Literal { value, .. } if value == "word"));
    let op = bearer.construct_operand("ref:go", OperandType::Instruction);
    assert!(matches!(&op, Operand::InstructionRef(n) if n == "go"));
    let op = bearer.construct_operand("123abc", OperandType::Unknown);
    assert!(matches!(&op, Operand::InvalidOperand(t) if t == "123abc"));
}

#[test]
fn test_walk_scroll_tree_collects_operands() {
    let mut bearer = Bearer::new();
    bearer.load_instruction_schema("store", 0);
    // the loaded schema carries the arity the registry declares
    assert_eq!(bearer.instruction_schema.as_ref().map(|s| s.arity), Some(2));
    let tree = ScrollTree {
        nodes: vec![
            ScrollNode::Literal("\"law\"".to_string()),
            ScrollNode::Literal("$heart".to_string()),
        ],
    };
    bearer.begin_resolution(tree);
    assert_eq!(bearer.resolved_operands.len(), 2);
    assert!(matches!(&bearer.resolved_operands[0], Operand::Literal { value, .. } if value == "law"));
    assert!(matches!(&bearer.resolved_operands[1], Operand::Binding { name, .. } if name == "heart"));
}

#[test]
fn test_walk_scroll_tree_arity_mismatch() {
    let mut bearer = Bearer::new();
    bearer.load_instruction_schema("walk", 0);
    let tree = ScrollTree {
        nodes: vec![
            ScrollNode::Literal("\"a\"".to_string()),
            ScrollNode::Literal("\"b\"".to_string()),
        ],
    };
    bearer.begin_resolution(tree);
    // the mismatch aborts the walk without touching trust state
    assert!(bearer.resolved_operands.is_empty());
    assert!(bearer.trust_flags.is_empty());
    assert!(bearer.operand_bindings.is_empty());
    assert_eq!(bearer.errors.len(), 1);
    assert_eq!(bearer.errors[0].severity, Severity::Broken);
}

#[test]
fn test_load_missing_schema_records_error() {
    let mut bearer = Bearer::new();
    bearer.load_instruction_schema("unheard", 12);
    assert!(bearer.instruction_schema.is_none());
    assert_eq!(bearer.errors.len(), 1);
}

#[test]
fn test_bearer_identity() {
    assert_eq!(Bearer::identity(), "Bearer (Operand Resolver)");
    assert_eq!(tablet::tablet_status(), "Tablet module loaded and ready.");
    assert_eq!(tablet::watchtower_status(), "Watchtower module standing guard.");
}
