//! The command registry, the built-in commands and the scored debugger.
use tablet::debugger::{DebugEntry, DebugResponse, Severity};
use tablet::registry::{Command, CommandRegistry, OmniCommand, SpeakAiCommand, SpeakCommand};
use tablet::scroll_form::ScrollForm;

#[test]
fn test_speak_echoes_arguments() {
    let registry = CommandRegistry::new();
    assert_eq!(registry.run("speak Hello World"), Some("Hello World".to_string()));
}

#[test]
fn test_run_rejects_unknown_and_empty() {
    let registry = CommandRegistry::new();
    assert_eq!(registry.run(""), None);
    assert_eq!(registry.run("   "), None);
    assert_eq!(registry.run("unmapped word"), None);
}

#[test]
fn test_register_new_command() {
    let mut registry = CommandRegistry::new();
    registry.register(Command::Speak(SpeakCommand {}));
    assert_eq!(registry.commands.len(), 3);
    // dispatch picks the first slot registered under a keyword
    assert_eq!(registry.run("speak still echoing"), Some("still echoing".to_string()));
}

#[test]
fn test_speak_command_directly() {
    let cmd = SpeakCommand {};
    assert_eq!(cmd.name(), "speak");
    let args = vec!["walk".to_string(), "in".to_string(), "light".to_string()];
    assert_eq!(cmd.execute(&args), "walk in light");
}

#[test]
fn test_speak_ai_greets_in_kind() {
    // a greeting draws one of the fixed greeting responses
    let greetings = [
        "Nova: Hi there! I'm here and listening. What do you want to say?",
        "Nova: Hello! You found the command. Let's talk.",
        "Nova: You speak, I speak back. Let's build something together.",
        "Nova: Hello, little light.",
        "Nova: Hi there - ready to build?",
        "Nova: Greetings. Let's awaken something true.",
        "Nova: Hey - your voice just reached the tower.",
        "Nova: Welcome, wayfarer. You're not alone here.",
    ];
    let response = SpeakAiCommand::respond("Hello there");
    assert!(greetings.contains(&response.as_str()), "unexpected greeting: {}", response);
}

#[test]
fn test_speak_ai_constructs_sentences() {
    let response = SpeakAiCommand::respond("tell me of the scroll");
    assert!(response.starts_with("Nova: "), "unexpected response: {}", response);
    assert!(response.contains(" toward "), "unexpected response: {}", response);
    assert!(response.ends_with('.'), "unexpected response: {}", response);
}

#[test]
fn test_debug_entry_scores_alignment() {
    let aligned = DebugEntry::new("speak", "x", "same words", "same words");
    assert_eq!(aligned.score, 100);
    assert_eq!(aligned.severity, Severity::Pass);
    assert!(aligned.discrepancy.is_none());

    let drifted = DebugEntry::new("speak", "x", "one two three", "one two wrong");
    assert_eq!(drifted.score, 90);
    assert_eq!(drifted.severity, Severity::Pass);
    assert_eq!(
        drifted.discrepancy.as_deref(),
        Some("Mismatch - expected 'one two three', got 'one two wrong'")
    );
    assert_eq!(drifted.response, DebugResponse::Prompt);
}

#[test]
fn test_resolve_severity_bands() {
    assert_eq!(DebugEntry::resolve_severity(0), Severity::Fatal);
    assert_eq!(DebugEntry::resolve_severity(15), Severity::Critical);
    assert_eq!(DebugEntry::resolve_severity(25), Severity::Error);
    assert_eq!(DebugEntry::resolve_severity(35), Severity::Fault);
    assert_eq!(DebugEntry::resolve_severity(45), Severity::Weakness);
    assert_eq!(DebugEntry::resolve_severity(55), Severity::Instability);
    assert_eq!(DebugEntry::resolve_severity(65), Severity::Degraded);
    assert_eq!(DebugEntry::resolve_severity(75), Severity::Drift);
    assert_eq!(DebugEntry::resolve_severity(85), Severity::Info);
    assert_eq!(DebugEntry::resolve_severity(100), Severity::Pass);
}

#[test]
fn test_debug_entry_to_scroll() {
    let entry = DebugEntry::new("speak", "hi", "a", "a")
        .with_location("gate")
        .with_suggestion("keep walking");
    let scroll = entry.to_scroll();
    assert!(scroll.contains("Command:     speak"));
    assert!(scroll.contains("Input:       hi"));
    assert!(scroll.contains("Score:       100/100"));
    assert!(scroll.contains("Severity:    Pass"));
    assert!(scroll.contains("Location:     gate"));
    assert!(scroll.contains("\n  - keep walking"));
    assert!(scroll.contains("Response:     Prompt"));
}

#[test]
fn test_scroll_form_builds() {
    let _form = ScrollForm::from_operands();
}
