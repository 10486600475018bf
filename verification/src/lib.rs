//! Front end of the NovaScript scripting language: a tokenizer that turns
//! source text into typed tokens, a recursive-descent parser that turns
//! tokens into a scroll tree, and an operand resolver that classifies an
//! instruction's raw fields into trust-scored operands with a readiness
//! state machine.
use vstd::prelude::*;

pub mod debugger;
pub mod instruction_registry;
pub mod operand_resolver;
pub mod parser;
pub mod registry;
pub mod scroll_form;
pub mod text;
pub mod tokenizer;
pub mod watchtower;

verus! {

/// Reports that the tablet (tokenizer, parser, resolver) module is loaded.
pub fn tablet_status() -> (r: &'static str)
    ensures
        r@ == "Tablet module loaded and ready."@,
{
    "Tablet module loaded and ready."
}

/// Reports that the watchtower (diagnostic sink) module is loaded.
pub fn watchtower_status() -> (r: &'static str)
    ensures
        r@ == "Watchtower module standing guard."@,
{
    "Watchtower module standing guard."
}

} // verus!
