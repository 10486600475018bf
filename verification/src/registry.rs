//! The internal command registry: a dispatcher that routes an input
//! line's first word to a registered command. Ships with the echoing
//! `speak` command and the sentence-forming `speak_ai` command.
use vstd::prelude::*;

use rand::RngExt;

use crate::text::{ieq_spec, join_spec, split_ws_spec, str_eq, trim_spec};

verus! {

/// The behaviour contract of an internal command: a fixed invocation
/// name and an execution over the remaining words of the input line.
pub trait OmniCommand {
    /// The keyword this command is invoked by.
    fn name(&self) -> &str;

    /// Runs the command over the input's remaining words.
    fn execute(&self, args: &Vec<String>) -> String;
}

/// Echoes its arguments back, joined by single spaces.
pub struct SpeakCommand {}

impl OmniCommand for SpeakCommand {
    fn name(&self) -> &str {
        "speak"
    }

    fn execute(&self, args: &Vec<String>) -> String {
        crate::text::join_strings(args, " ")
    }
}

/// Relies on `rand::rng` and `rand::RngExt::random_range`: yields a
/// uniformly chosen index below the bound. The result depends on the
/// generator's state, so only its range is promised.
#[verifier::external_body]
fn pick_index(n: usize) -> (r: usize)
    requires
        n > 0,
    ensures
        r < n,
{
    rand::rng().random_range(0..n)
}

/// Whether the folded input contains a folded needle: a
/// case-insensitive (ASCII) substring check.
pub open spec fn contains_fold(hay: Seq<char>, needle: Seq<char>) -> bool {
    exists|i: int|
        0 <= i <= hay.len() - needle.len() && ieq_spec(
            #[trigger] hay.subrange(i, i + needle.len() as int),
            needle,
        )
}

/// Case-insensitive (ASCII) substring search.
fn str_contains_fold(hay: &str, needle: &str) -> (r: bool)
    ensures
        r == contains_fold(hay@, needle@),
{
    let hn = hay.unicode_len();
    let nn = needle.unicode_len();
    if nn == 0 {
        proof {
            assert(ieq_spec(hay@.subrange(0, 0 + needle@.len() as int), needle@));
        }
        return true;
    }
    if nn > hn {
        proof {
            assert(!contains_fold(hay@, needle@)) by {
                if contains_fold(hay@, needle@) {
                    let i = choose|i: int|
                        0 <= i <= hay@.len() - needle@.len() && ieq_spec(
                            #[trigger] hay@.subrange(i, i + needle@.len() as int),
                            needle@,
                        );
                }
            }
        }
        return false;
    }
    let mut i: usize = 0;
    while i <= hn - nn
        invariant
            1 <= nn <= hn,
            hn == hay@.len(),
            nn == needle@.len(),
            i <= hn - nn + 1,
            forall|k: int|
                0 <= k < i ==> !ieq_spec(
                    #[trigger] hay@.subrange(k, k + needle@.len() as int),
                    needle@,
                ),
        decreases hn + 1 - i,
    {
        let piece = hay.substring_char(i, i + nn);
        if crate::text::str_ieq(piece, needle) {
            proof {
                assert(ieq_spec(hay@.subrange(i as int, i + needle@.len() as int), needle@));
            }
            return true;
        }
        i = i + 1;
    }
    proof {
        assert(!contains_fold(hay@, needle@)) by {
            if contains_fold(hay@, needle@) {
                let k = choose|k: int|
                    0 <= k <= hay@.len() - needle@.len() && ieq_spec(
                        #[trigger] hay@.subrange(k, k + needle@.len() as int),
                        needle@,
                    );
                assert(k < i);
            }
        }
    }
    false
}

/// The greeting responses, by index.
pub open spec fn greeting_text(i: int) -> Seq<char> {
    if i == 0 {
        "Nova: Hi there! I'm here and listening. What do you want to say?"@
    } else if i == 1 {
        "Nova: Hello! You found the command. Let's talk."@
    } else if i == 2 {
        "Nova: You speak, I speak back. Let's build something together."@
    } else if i == 3 {
        "Nova: Hello, little light."@
    } else if i == 4 {
        "Nova: Hi there - ready to build?"@
    } else if i == 5 {
        "Nova: Greetings. Let's awaken something true."@
    } else if i == 6 {
        "Nova: Hey - your voice just reached the tower."@
    } else {
        "Nova: Welcome, wayfarer. You're not alone here."@
    }
}

/// The fallback responses for empty input, by index.
pub open spec fn fallback_text(i: int) -> Seq<char> {
    if i == 0 {
        "Nova: I see. Can you tell me more?"@
    } else if i == 1 {
        "Nova: That sounds curious. Let's unfold it."@
    } else if i == 2 {
        "Nova: Hmmm... not sure what to make of that yet."@
    } else if i == 3 {
        "Nova: You've stirred a question, haven't you?"@
    } else {
        "Nova: Go on - I'm listening between the lines."@
    }
}

/// The sentence subjects, by index.
pub open spec fn subject_text(i: int) -> Seq<char> {
    if i == 0 {
        "The tower"@
    } else if i == 1 {
        "A watcher"@
    } else if i == 2 {
        "This system"@
    } else if i == 3 {
        "The scroll"@
    } else {
        "Nova"@
    }
}

/// The sentence verbs, by index.
pub open spec fn verb_text(i: int) -> Seq<char> {
    if i == 0 {
        "waits"@
    } else if i == 1 {
        "observes"@
    } else if i == 2 {
        "speaks"@
    } else if i == 3 {
        "constructs"@
    } else {
        "awakens"@
    }
}

/// The sentence modifiers, by index.
pub open spec fn modifier_text(i: int) -> Seq<char> {
    if i == 0 {
        "softly"@
    } else if i == 1 {
        "with clarity"@
    } else if i == 2 {
        "in silence"@
    } else if i == 3 {
        "by pattern"@
    } else {
        "without fear"@
    }
}

/// The sentence objects, by index.
pub open spec fn object_text(i: int) -> Seq<char> {
    if i == 0 {
        "the door"@
    } else if i == 1 {
        "its own purpose"@
    } else if i == 2 {
        "what was hidden"@
    } else if i == 3 {
        "new breath"@
    } else {
        "a command"@
    }
}

fn greeting_at(i: usize) -> (r: &'static str)
    requires
        i < 8,
    ensures
        r@ == greeting_text(i as int),
{
    if i == 0 {
        "Nova: Hi there! I'm here and listening. What do you want to say?"
    } else if i == 1 {
        "Nova: Hello! You found the command. Let's talk."
    } else if i == 2 {
        "Nova: You speak, I speak back. Let's build something together."
    } else if i == 3 {
        "Nova: Hello, little light."
    } else if i == 4 {
        "Nova: Hi there - ready to build?"
    } else if i == 5 {
        "Nova: Greetings. Let's awaken something true."
    } else if i == 6 {
        "Nova: Hey - your voice just reached the tower."
    } else {
        "Nova: Welcome, wayfarer. You're not alone here."
    }
}

fn fallback_at(i: usize) -> (r: &'static str)
    requires
        i < 5,
    ensures
        r@ == fallback_text(i as int),
{
    if i == 0 {
        "Nova: I see. Can you tell me more?"
    } else if i == 1 {
        "Nova: That sounds curious. Let's unfold it."
    } else if i == 2 {
        "Nova: Hmmm... not sure what to make of that yet."
    } else if i == 3 {
        "Nova: You've stirred a question, haven't you?"
    } else {
        "Nova: Go on - I'm listening between the lines."
    }
}

fn subject_at(i: usize) -> (r: &'static str)
    requires
        i < 5,
    ensures
        r@ == subject_text(i as int),
{
    if i == 0 {
        "The tower"
    } else if i == 1 {
        "A watcher"
    } else if i == 2 {
        "This system"
    } else if i == 3 {
        "The scroll"
    } else {
        "Nova"
    }
}

fn verb_at(i: usize) -> (r: &'static str)
    requires
        i < 5,
    ensures
        r@ == verb_text(i as int),
{
    if i == 0 {
        "waits"
    } else if i == 1 {
        "observes"
    } else if i == 2 {
        "speaks"
    } else if i == 3 {
        "constructs"
    } else {
        "awakens"
    }
}

fn modifier_at(i: usize) -> (r: &'static str)
    requires
        i < 5,
    ensures
        r@ == modifier_text(i as int),
{
    if i == 0 {
        "softly"
    } else if i == 1 {
        "with clarity"
    } else if i == 2 {
        "in silence"
    } else if i == 3 {
        "by pattern"
    } else {
        "without fear"
    }
}

fn object_at(i: usize) -> (r: &'static str)
    requires
        i < 5,
    ensures
        r@ == object_text(i as int),
{
    if i == 0 {
        "the door"
    } else if i == 1 {
        "its own purpose"
    } else if i == 2 {
        "what was hidden"
    } else if i == 3 {
        "new breath"
    } else {
        "a command"
    }
}

/// Whether an input line reads as a greeting, case-insensitively.
pub open spec fn greetingish(input: Seq<char>) -> bool {
    contains_fold(input, "hello"@) || contains_fold(input, "hi"@) || contains_fold(input, "hey"@)
        || contains_fold(input, "greetings"@)
}

/// A dynamic sentence generator: answers greetings in kind, prompts on
/// empty input, and otherwise builds a grammar-valid
/// subject-verb-modifier-object sentence with randomized parts.
pub struct SpeakAiCommand {}

impl SpeakAiCommand {
    /// The randomized response to one input line: a known greeting
    /// yields one of the greeting responses, a blank line one of the
    /// fallback prompts, and anything else one of the constructed
    /// sentences. Which one comes back depends on the random draw; the
    /// contract promises the response is from the matching family.
    pub fn respond(input: &str) -> (r: String)
        ensures
            greetingish(input@) ==> exists|i: int| 0 <= i < 8 && r@ == greeting_text(i),
            !greetingish(input@) && trim_spec(input@).len() == 0 ==> exists|i: int|
                0 <= i < 5 && r@ == fallback_text(i),
            !greetingish(input@) && trim_spec(input@).len() > 0 ==> exists|s: int, v: int, m: int, o: int|
                0 <= s < 5 && 0 <= v < 5 && 0 <= m < 5 && 0 <= o < 5 && r@ == "Nova: "@
                    + subject_text(s) + " "@ + verb_text(v) + " "@ + modifier_text(m) + " toward "@
                    + object_text(o) + "."@,
    {
        let greeting = str_contains_fold(input, "hello") || str_contains_fold(input, "hi")
            || str_contains_fold(input, "hey") || str_contains_fold(input, "greetings");
        if greeting {
            let i = pick_index(8);
            let r = greeting_at(i).to_owned();
            proof {
                assert(r@ == greeting_text(i as int));
            }
            r
        } else {
            let trimmed = crate::text::trim(input);
            if trimmed.as_str().unicode_len() == 0 {
                let i = pick_index(5);
                let r = fallback_at(i).to_owned();
                proof {
                    assert(r@ == fallback_text(i as int));
                }
                r
            } else {
                let s = pick_index(5);
                let v = pick_index(5);
                let m = pick_index(5);
                let o = pick_index(5);
                let mut out = String::new();
                out.append("Nova: ");
                out.append(subject_at(s));
                out.append(" ");
                out.append(verb_at(v));
                out.append(" ");
                out.append(modifier_at(m));
                out.append(" toward ");
                out.append(object_at(o));
                out.append(".");
                proof {
                    assert(out@ == "Nova: "@ + subject_text(s as int) + " "@ + verb_text(v as int)
                        + " "@ + modifier_text(m as int) + " toward "@ + object_text(o as int)
                        + "."@);
                }
                out
            }
        }
    }
}

impl OmniCommand for SpeakAiCommand {
    fn name(&self) -> &str {
        "speak_ai"
    }

    fn execute(&self, args: &Vec<String>) -> String {
        let input = crate::text::join_strings(args, " ");
        SpeakAiCommand::respond(input.as_str())
    }
}

/// What the sentence generator may answer to one input line: a known
/// greeting draws a greeting response, a blank line a fallback prompt,
/// and anything else a constructed sentence.
pub open spec fn ai_response_ok(input: Seq<char>, out: Seq<char>) -> bool {
    if greetingish(input) {
        exists|i: int| 0 <= i < 8 && out == greeting_text(i)
    } else if trim_spec(input).len() == 0 {
        exists|i: int| 0 <= i < 5 && out == fallback_text(i)
    } else {
        exists|s: int, v: int, m: int, o: int|
            0 <= s < 5 && 0 <= v < 5 && 0 <= m < 5 && 0 <= o < 5 && out == "Nova: "@
                + subject_text(s) + " "@ + verb_text(v) + " "@ + modifier_text(m) + " toward "@
                + object_text(o) + "."@
    }
}

/// Which built-in command a registry slot dispatches to. The set is a
/// closed enum because verified code cannot dispatch through boxed
/// trait objects; an outside command joins by a new variant here rather
/// than a boxed `OmniCommand` impl.
pub enum Command {
    /// The echoing `speak` command.
    Speak(SpeakCommand),
    /// The sentence-forming `speak_ai` command.
    SpeakAi(SpeakAiCommand),
}

impl Command {
    /// The keyword this command is invoked by.
    pub fn name(&self) -> (r: &str)
        ensures
            self is Speak ==> r@ == "speak"@,
            self is SpeakAi ==> r@ == "speak_ai"@,
    {
        match self {
            Command::Speak(_) => "speak",
            Command::SpeakAi(_) => "speak_ai",
        }
    }

    /// Runs the command over the input's remaining words: `speak`
    /// echoes them space-joined, `speak_ai` answers from the matching
    /// response family.
    pub fn execute(&self, args: &Vec<String>) -> (r: String)
        ensures
            command_output_ok(*self, args@.map_values(|s: String| s@), r@),
    {
        match self {
            Command::Speak(_) => crate::text::join_strings(args, " "),
            Command::SpeakAi(_) => {
                let input = crate::text::join_strings(args, " ");
                SpeakAiCommand::respond(input.as_str())
            },
        }
    }
}

/// What each command's output is: the echo of its arguments for
/// `speak`, a family-correct response for `speak_ai`.
pub open spec fn command_output_ok(c: Command, args: Seq<Seq<char>>, out: Seq<char>) -> bool {
    match c {
        Command::Speak(_) => out == join_spec(args, " "@),
        Command::SpeakAi(_) => ai_response_ok(join_spec(args, " "@), out),
    }
}

/// Central dispatch for the internal commands, keyed by invocation
/// name in registration order. Dispatch picks the first slot whose
/// keyword matches, so a later registration under an already-held
/// keyword stays in the table but is never selected (with the closed
/// command set, every slot of one keyword behaves alike anyway).
pub struct CommandRegistry {
    pub commands: Vec<Command>,
}

/// The keyword a registry slot answers to.
pub open spec fn command_key(c: Command) -> Seq<char> {
    match c {
        Command::Speak(_) => "speak"@,
        Command::SpeakAi(_) => "speak_ai"@,
    }
}

/// Whether some registered command answers to a keyword.
pub open spec fn registry_has(cmds: Seq<Command>, key: Seq<char>) -> bool {
    exists|i: int| 0 <= i < cmds.len() && command_key(#[trigger] cmds[i]) == key
}

impl CommandRegistry {
    /// A registry with the built-in commands registered.
    pub fn new() -> (r: CommandRegistry)
        ensures
            r.commands@.len() == 2,
            r.commands@[0] is Speak,
            r.commands@[1] is SpeakAi,
    {
        let mut registry = CommandRegistry { commands: Vec::new() };
        registry.register(Command::Speak(SpeakCommand {}));
        registry.register(Command::SpeakAi(SpeakAiCommand {}));
        registry
    }

    /// Adds a command to the dispatch table.
    pub fn register(&mut self, cmd: Command)
        ensures
            final(self).commands@ == old(self).commands@.push(cmd),
    {
        self.commands.push(cmd);
    }

    /// Runs a registered command: the input's first word selects the
    /// first command registered under that keyword, the remaining words
    /// become its arguments, and its output comes back. Yields nothing
    /// exactly when the input holds no words or no command matches its
    /// first word.
    pub fn run(&self, input: &str) -> (r: Option<String>)
        ensures
            ({
                let words = split_ws_spec(trim_spec(input@));
                if words.len() == 0 {
                    r is None
                } else {
                    r is Some <==> registry_has(self.commands@, words[0])
                }
            }),
            r matches Some(out) ==> ({
                let words = split_ws_spec(trim_spec(input@));
                exists|i: int|
                    0 <= i < self.commands@.len() && command_key(#[trigger] self.commands@[i])
                        == words[0] && (forall|j: int|
                        0 <= j < i ==> command_key(#[trigger] self.commands@[j]) != words[0])
                        && command_output_ok(self.commands@[i], words.drop_first(), out@)
            }),
    {
        let trimmed = crate::text::trim(input);
        let parts = crate::text::split_whitespace_words(trimmed.as_str());
        let ghost words = split_ws_spec(trim_spec(input@));
        if parts.len() == 0 {
            return None;
        }
        let mut args: Vec<String> = Vec::new();
        let mut k: usize = 1;
        while k < parts.len()
            invariant
                parts@.len() > 0,
                1 <= k <= parts@.len(),
                args@.len() == k - 1,
                forall|j: int| 0 <= j < k - 1 ==> #[trigger] args@[j] == parts@[j + 1],
            decreases parts@.len() - k,
        {
            args.push(parts[k].clone());
            k = k + 1;
        }
        proof {
            assert(args@.map_values(|s: String| s@) =~= split_ws_spec(trim_spec(input@)).drop_first())
                by {
                assert(parts@.map_values(|w: String| w@) == words);
                assert(args@.len() == words.len() - 1);
                assert(forall|j: int|
                    0 <= j < args@.len() ==> args@.map_values(|s: String| s@)[j] == args@[j]@);
                assert(forall|j: int|
                    0 <= j < args@.len() ==> #[trigger] args@[j]@ == parts@[j + 1]@);
                assert(forall|j: int|
                    0 <= j < words.len() ==> #[trigger] words[j] == parts@.map_values(
                        |w: String| w@,
                    )[j]);
            }
        }
        let mut i: usize = 0;
        while i < self.commands.len()
            invariant
                i <= self.commands@.len(),
                words == split_ws_spec(trim_spec(input@)),
                parts@.map_values(|w: String| w@) == words,
                parts@.len() > 0,
                args@.map_values(|s: String| s@) == words.drop_first(),
                forall|j: int|
                    0 <= j < i ==> command_key(#[trigger] self.commands@[j]) != words[0],
            decreases self.commands@.len() - i,
        {
            if str_eq(self.commands[i].name(), parts[0].as_str()) {
                proof {
                    assert(parts@.map_values(|w: String| w@)[0] == parts@[0]@);
                    let c = self.commands@[i as int];
                    if c is Speak {
                        assert(command_key(c) == words[0]);
                    } else {
                        assert(command_key(c) == words[0]);
                    }
                    assert(registry_has(self.commands@, words[0]));
                    assert(words.len() > 0);
                    assert(words == split_ws_spec(trim_spec(input@)));
                    assert(registry_has(self.commands@, split_ws_spec(trim_spec(input@))[0]));
                }
                let output = self.commands[i].execute(&args);
                proof {
                    assert(command_output_ok(
                        self.commands@[i as int],
                        words.drop_first(),
                        output@,
                    ));
                }
                return Some(output);
            }
            proof {
                assert(parts@.map_values(|w: String| w@)[0] == parts@[0]@);
            }
            i = i + 1;
        }
        None
    }
}

} // verus!
