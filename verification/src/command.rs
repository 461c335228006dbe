//! The command layer: parsing a line into a word and arguments, the
//! registry of command descriptors, and the dispatcher that turns a parsed
//! line into an outcome.

use vstd::prelude::*;
use vstd::string::*;

use crate::manager::Operation;
use crate::text::{str_eq, join_words, joined_words};

verus! {

/// A character that separates tokens on an input line.
pub open spec fn is_space_char(c: char) -> bool {
    c == ' ' || c == '\t' || c == '\n' || c == '\r'
}

/// One step of the tokenizing scan.  The accumulator is the tokens finished
/// so far and the token being gathered; a separator closes the gathered
/// token if there is one, any other character extends it.
pub open spec fn scan_step(acc: (Seq<Seq<char>>, Seq<char>), c: char) -> (Seq<Seq<char>>, Seq<
    char,
>) {
    if is_space_char(c) {
        if acc.1.len() == 0 {
            acc
        } else {
            (acc.0.push(acc.1), Seq::empty())
        }
    } else {
        (acc.0, acc.1.push(c))
    }
}

/// The scan state after the first `i` characters of the line.
pub open spec fn scan_prefix(s: Seq<char>, i: int) -> (Seq<Seq<char>>, Seq<char>)
    decreases i,
{
    if i <= 0 {
        (Seq::empty(), Seq::empty())
    } else {
        scan_step(scan_prefix(s, i - 1), s[i - 1])
    }
}

/// The tokens of a line: the maximal runs of non-separator characters, in
/// order.
pub open spec fn tokens_of(s: Seq<char>) -> Seq<Seq<char>> {
    let acc = scan_prefix(s, s.len() as int);
    if acc.1.len() == 0 {
        acc.0
    } else {
        acc.0.push(acc.1)
    }
}

/// The tokenizer never produces an empty token: separators are collapsed,
/// never kept.
pub proof fn lemma_tokens_nonempty(s: Seq<char>)
    ensures
        forall|k: int|
            0 <= k < tokens_of(s).len() ==> #[trigger] tokens_of(s)[k].len() > 0,
{
    lemma_scan_prefix_tokens_nonempty(s, s.len() as int);
}

proof fn lemma_scan_prefix_tokens_nonempty(s: Seq<char>, i: int)
    ensures
        forall|k: int|
            0 <= k < scan_prefix(s, i).0.len() ==> #[trigger] scan_prefix(s, i).0[k].len() > 0,
    decreases i,
{
    if i > 0 {
        lemma_scan_prefix_tokens_nonempty(s, i - 1);
        let prev = scan_prefix(s, i - 1);
        let cur = scan_prefix(s, i);
        assert forall|k: int| 0 <= k < cur.0.len() implies #[trigger] cur.0[k].len() > 0 by {
            if k < prev.0.len() {
                assert(prev.0[k].len() > 0);
            } else {
                assert(cur.0[k] == prev.1);
            }
        }
    }
}

/// Whether a word is a key of the command registry.
pub open spec fn is_registered(w: Seq<char>) -> bool {
    ||| w == "ls"@
    ||| w == "rm"@
    ||| w == "cd"@
    ||| w == "cp"@
    ||| w == "mv"@
    ||| w == "file"@
    ||| w == "read"@
    ||| w == "mkdir"@
    ||| w == "rmdir"@
    ||| w == "write"@
}

/// Whether a registered command demands exactly as many arguments as its
/// schema has places.  Only the listing command tolerates fewer; it gets a
/// default instead.
pub open spec fn required_of(w: Seq<char>) -> bool {
    w != "ls"@
}

/// The argument schema of a registered command: the ordered placeholder
/// names that both fix the arity and render the usage line.
pub open spec fn schema_of(w: Seq<char>) -> Seq<Seq<char>> {
    if w == "ls"@ {
        seq!["<directory>"@]
    } else if w == "rm"@ {
        seq!["<file name>"@]
    } else if w == "cd"@ {
        seq!["<directory name>"@]
    } else if w == "cp"@ {
        seq!["<file name>"@, "<destination>"@]
    } else if w == "mv"@ {
        seq!["<file name>"@, "<new file name>"@]
    } else if w == "file"@ {
        seq!["<file name>"@]
    } else if w == "read"@ {
        seq!["<file name>"@]
    } else if w == "mkdir"@ {
        seq!["<directory name>"@]
    } else if w == "rmdir"@ {
        seq!["<directory name>"@]
    } else if w == "write"@ {
        seq!["<file name>"@, "<content>"@]
    } else {
        Seq::empty()
    }
}

/// The filesystem primitive a registered command is bound to.
pub open spec fn op_of(w: Seq<char>) -> Operation {
    if w == "ls"@ {
        Operation::ListFiles
    } else if w == "rm"@ {
        Operation::DeleteFile
    } else if w == "cd"@ {
        Operation::ChangeDirectory
    } else if w == "cp"@ {
        Operation::CopyFile
    } else if w == "mv"@ {
        Operation::RenameOrMoveFile
    } else if w == "file"@ {
        Operation::CreateFile
    } else if w == "read"@ {
        Operation::ReadFile
    } else if w == "mkdir"@ {
        Operation::CreateDirectory
    } else if w == "rmdir"@ {
        Operation::DeleteDirectory
    } else {
        Operation::WriteFile
    }
}

/// The human-readable label of a registered command.
pub open spec fn display_name_of(w: Seq<char>) -> Seq<char> {
    if w == "ls"@ {
        "List"@
    } else if w == "rm"@ {
        "Delete File"@
    } else if w == "cd"@ {
        "Change Directory"@
    } else if w == "cp"@ {
        "Copy file"@
    } else if w == "mv"@ {
        "Rename or Move"@
    } else if w == "file"@ {
        "Create File"@
    } else if w == "read"@ {
        "Read File"@
    } else if w == "mkdir"@ {
        "Create Directory"@
    } else if w == "rmdir"@ {
        "Delete Directory"@
    } else {
        "Write file"@
    }
}

/// The one-line help text of a registered command.
pub open spec fn description_of(w: Seq<char>) -> Seq<char> {
    if w == "ls"@ {
        "Command to list all directory or specific one"@
    } else if w == "rm"@ {
        "Command to delete a file"@
    } else if w == "cd"@ {
        "Command to change the current directory"@
    } else if w == "cp"@ {
        "Command to copy a file"@
    } else if w == "mv"@ {
        "Command to rename or move a file"@
    } else if w == "file"@ {
        "Command to create a file"@
    } else if w == "read"@ {
        "Command to read a file"@
    } else if w == "mkdir"@ {
        "Command to create a directory"@
    } else if w == "rmdir"@ {
        "Command to delete a directory"@
    } else {
        "Command to write in a file"@
    }
}

/// The registry's keys, and the two sentinel words the dispatcher handles
/// itself, are pairwise distinct and never empty.
pub proof fn lemma_registry_words_distinct()
    ensures
        "ls"@.len() == 2,
        "rm"@.len() == 2,
        "cd"@.len() == 2,
        "cp"@.len() == 2,
        "mv"@.len() == 2,
        "file"@.len() == 4,
        "read"@.len() == 4,
        "mkdir"@.len() == 5,
        "rmdir"@.len() == 5,
        "write"@.len() == 5,
        "exit"@.len() == 4,
        "help"@.len() == 4,
        "ls"@ != "rm"@ && "ls"@ != "cd"@ && "ls"@ != "cp"@ && "ls"@ != "mv"@,
        "ls"@ != "file"@ && "ls"@ != "read"@ && "ls"@ != "mkdir"@ && "ls"@ != "rmdir"@,
        "ls"@ != "write"@ && "ls"@ != "exit"@ && "ls"@ != "help"@,
        "rm"@ != "cd"@ && "rm"@ != "cp"@ && "rm"@ != "mv"@ && "rm"@ != "file"@,
        "rm"@ != "read"@ && "rm"@ != "mkdir"@ && "rm"@ != "rmdir"@ && "rm"@ != "write"@,
        "rm"@ != "exit"@ && "rm"@ != "help"@,
        "cd"@ != "cp"@ && "cd"@ != "mv"@ && "cd"@ != "file"@ && "cd"@ != "read"@,
        "cd"@ != "mkdir"@ && "cd"@ != "rmdir"@ && "cd"@ != "write"@ && "cd"@ != "exit"@,
        "cd"@ != "help"@,
        "cp"@ != "mv"@ && "cp"@ != "file"@ && "cp"@ != "read"@ && "cp"@ != "mkdir"@,
        "cp"@ != "rmdir"@ && "cp"@ != "write"@ && "cp"@ != "exit"@ && "cp"@ != "help"@,
        "mv"@ != "file"@ && "mv"@ != "read"@ && "mv"@ != "mkdir"@ && "mv"@ != "rmdir"@,
        "mv"@ != "write"@ && "mv"@ != "exit"@ && "mv"@ != "help"@,
        "file"@ != "read"@ && "file"@ != "mkdir"@ && "file"@ != "rmdir"@,
        "file"@ != "write"@ && "file"@ != "exit"@ && "file"@ != "help"@,
        "read"@ != "mkdir"@ && "read"@ != "rmdir"@ && "read"@ != "write"@,
        "read"@ != "exit"@ && "read"@ != "help"@,
        "mkdir"@ != "rmdir"@ && "mkdir"@ != "write"@ && "mkdir"@ != "exit"@,
        "mkdir"@ != "help"@,
        "rmdir"@ != "write"@ && "rmdir"@ != "exit"@ && "rmdir"@ != "help"@,
        "write"@ != "exit"@ && "write"@ != "help"@,
        "exit"@ != "help"@,
{
    reveal_strlit("ls");
    reveal_strlit("rm");
    reveal_strlit("cd");
    reveal_strlit("cp");
    reveal_strlit("mv");
    reveal_strlit("file");
    reveal_strlit("read");
    reveal_strlit("mkdir");
    reveal_strlit("rmdir");
    reveal_strlit("write");
    reveal_strlit("exit");
    reveal_strlit("help");
    assert("ls"@[0] == 'l' && "ls"@.len() == 2);
    assert("rm"@[0] == 'r' && "rm"@.len() == 2);
    assert("cd"@[0] == 'c' && "cd"@[1] == 'd' && "cd"@.len() == 2);
    assert("cp"@[0] == 'c' && "cp"@[1] == 'p' && "cp"@.len() == 2);
    assert("mv"@[0] == 'm' && "mv"@.len() == 2);
    assert("file"@[0] == 'f' && "file"@.len() == 4);
    assert("read"@[0] == 'r' && "read"@.len() == 4);
    assert("exit"@[0] == 'e' && "exit"@.len() == 4);
    assert("help"@[0] == 'h' && "help"@.len() == 4);
    assert("mkdir"@[0] == 'm' && "mkdir"@.len() == 5);
    assert("rmdir"@[0] == 'r' && "rmdir"@.len() == 5);
    assert("write"@[0] == 'w' && "write"@.len() == 5);
}

/// A one-place argument schema.
fn schema_one(a: &str) -> (r: Vec<String>)
    ensures
        r.deep_view() == seq![a@],
{
    let mut r: Vec<String> = Vec::new();
    r.push(a.to_owned());
    proof {
        assert(r.deep_view() =~= seq![a@]);
    }
    r
}

/// A two-place argument schema.
fn schema_two(a: &str, b: &str) -> (r: Vec<String>)
    ensures
        r.deep_view() == seq![a@, b@],
{
    let mut r: Vec<String> = Vec::new();
    r.push(a.to_owned());
    r.push(b.to_owned());
    proof {
        assert(r.deep_view() =~= seq![a@, b@]);
    }
    r
}

/// One entry of the command registry: the word the user types, the ordered
/// schema of argument placeholders with its required flag, the texts shown
/// for help, and the filesystem primitive the command is bound to.
pub struct Command {
    pub name: String,
    pub command: String,
    pub args: (Vec<String>, bool),
    pub description: String,
    pub action: Operation,
}

impl Command {
    pub fn new(
        name: String,
        command: String,
        args: (Vec<String>, bool),
        description: String,
        action: Operation,
    ) -> (r: Self)
        ensures
            r.name == name,
            r.command == command,
            r.args == args,
            r.description == description,
            r.action == action,
    {
        Command { name, command, args, description, action }
    }

    /// Exact-match lookup in the command registry.  The two sentinel words,
    /// exit and help, are not registry keys; the dispatcher handles them
    /// before looking anything up.
    pub fn load_command(cmd: &str) -> (r: Option<Command>)
        ensures
            r is Some <==> is_registered(cmd@),
            r matches Some(c) ==> {
                &&& c.command@ == cmd@
                &&& c.name@ == display_name_of(cmd@)
                &&& c.args.0.deep_view() == schema_of(cmd@)
                &&& c.args.1 == required_of(cmd@)
                &&& c.description@ == description_of(cmd@)
                &&& c.action == op_of(cmd@)
            },
    {
        proof {
            lemma_registry_words_distinct();
        }
        if str_eq(cmd, "ls") {
            Some(
                Command::new(
                    "List".to_owned(),
                    "ls".to_owned(),
                    (schema_one("<directory>"), false),
                    "Command to list all directory or specific one".to_owned(),
                    Operation::ListFiles,
                ),
            )
        } else if str_eq(cmd, "rm") {
            Some(
                Command::new(
                    "Delete File".to_owned(),
                    "rm".to_owned(),
                    (schema_one("<file name>"), true),
                    "Command to delete a file".to_owned(),
                    Operation::DeleteFile,
                ),
            )
        } else if str_eq(cmd, "cd") {
            Some(
                Command::new(
                    "Change Directory".to_owned(),
                    "cd".to_owned(),
                    (schema_one("<directory name>"), true),
                    "Command to change the current directory".to_owned(),
                    Operation::ChangeDirectory,
                ),
            )
        } else if str_eq(cmd, "cp") {
            Some(
                Command::new(
                    "Copy file".to_owned(),
                    "cp".to_owned(),
                    (schema_two("<file name>", "<destination>"), true),
                    "Command to copy a file".to_owned(),
                    Operation::CopyFile,
                ),
            )
        } else if str_eq(cmd, "mv") {
            Some(
                Command::new(
                    "Rename or Move".to_owned(),
                    "mv".to_owned(),
                    (schema_two("<file name>", "<new file name>"), true),
                    "Command to rename or move a file".to_owned(),
                    Operation::RenameOrMoveFile,
                ),
            )
        } else if str_eq(cmd, "file") {
            Some(
                Command::new(
                    "Create File".to_owned(),
                    "file".to_owned(),
                    (schema_one("<file name>"), true),
                    "Command to create a file".to_owned(),
                    Operation::CreateFile,
                ),
            )
        } else if str_eq(cmd, "read") {
            Some(
                Command::new(
                    "Read File".to_owned(),
                    "read".to_owned(),
                    (schema_one("<file name>"), true),
                    "Command to read a file".to_owned(),
                    Operation::ReadFile,
                ),
            )
        } else if str_eq(cmd, "mkdir") {
            Some(
                Command::new(
                    "Create Directory".to_owned(),
                    "mkdir".to_owned(),
                    (schema_one("<directory name>"), true),
                    "Command to create a directory".to_owned(),
                    Operation::CreateDirectory,
                ),
            )
        } else if str_eq(cmd, "rmdir") {
            Some(
                Command::new(
                    "Delete Directory".to_owned(),
                    "rmdir".to_owned(),
                    (schema_one("<directory name>"), true),
                    "Command to delete a directory".to_owned(),
                    Operation::DeleteDirectory,
                ),
            )
        } else if str_eq(cmd, "write") {
            Some(
                Command::new(
                    "Write file".to_owned(),
                    "write".to_owned(),
                    (schema_two("<file name>", "<content>"), true),
                    "Command to write in a file".to_owned(),
                    Operation::WriteFile,
                ),
            )
        } else {
            None
        }
    }

    /// Splits a line into its whitespace-delimited tokens.  Runs of
    /// separators collapse; the result never contains an empty string.
    pub fn parse_user_input(input: &str) -> (r: Vec<String>)
        ensures
            r.deep_view() == tokens_of(input@),
            forall|k: int| 0 <= k < r.deep_view().len() ==> #[trigger] r.deep_view()[k].len() > 0,
    {
        let n = input.unicode_len();
        let mut tokens: Vec<String> = Vec::new();
        let mut start: usize = 0;
        let mut in_token: bool = false;
        let mut i: usize = 0;
        while i < n
            invariant
                i <= n,
                n == input@.len(),
                in_token ==> start < i && scan_prefix(input@, i as int) == (
                    tokens.deep_view(),
                    input@.subrange(start as int, i as int),
                ),
                !in_token ==> scan_prefix(input@, i as int) == (
                    tokens.deep_view(),
                    Seq::<char>::empty(),
                ),
            decreases n - i,
        {
            let c = input.get_char(i);
            let ghost pre = tokens.deep_view();
            if c == ' ' || c == '\t' || c == '\n' || c == '\r' {
                if in_token {
                    let tok = input.substring_char(start, i).to_owned();
                    tokens.push(tok);
                    in_token = false;
                    proof {
                        assert(tokens.deep_view() =~= pre.push(
                            input@.subrange(start as int, i as int),
                        ));
                    }
                }
            } else {
                if !in_token {
                    start = i;
                    in_token = true;
                }
                proof {
                    assert(input@.subrange(start as int, i + 1) =~= input@.subrange(
                        start as int,
                        i as int,
                    ).push(input@[i as int]));
                }
            }
            i += 1;
        }
        if in_token {
            let ghost pre = tokens.deep_view();
            let tok = input.substring_char(start, n).to_owned();
            tokens.push(tok);
            proof {
                assert(tokens.deep_view() =~= pre.push(
                    input@.subrange(start as int, n as int),
                ));
            }
        }
        proof {
            lemma_tokens_nonempty(input@);
            assert(tokens.deep_view() == tokens_of(input@));
            assert forall|k: int|
                0 <= k < tokens.deep_view().len() implies #[trigger] tokens.deep_view()[k].len()
                > 0 by {
                assert(tokens.deep_view()[k] == tokens_of(input@)[k]);
            }
        }
        tokens
    }

    /// Splits the token list into the command word and its arguments: an
    /// empty list gives an empty word and no arguments, otherwise the first
    /// token is the word and the rest are the arguments in order.
    pub fn identify_args(words: Vec<String>) -> (r: (String, Vec<String>))
        ensures
            words@.len() == 0 ==> r.0@ == Seq::<char>::empty() && r.1@.len() == 0,
            words@.len() > 0 ==> r.0@ == words.deep_view()[0] && r.1.deep_view()
                == words.deep_view().skip(1),
    {
        if words.len() == 0 {
            return (String::new(), Vec::new());
        }
        let word = words[0].clone();
        let mut rest: Vec<String> = Vec::new();
        let mut i: usize = 1;
        while i < words.len()
            invariant
                1 <= i <= words@.len(),
                rest.deep_view() == words.deep_view().subrange(1, i as int),
            decreases words@.len() - i,
        {
            let ghost pre = rest.deep_view();
            rest.push(words[i].clone());
            proof {
                assert(rest.deep_view() =~= pre.push(words.deep_view()[i as int]));
                assert(words.deep_view().subrange(1, i + 1) =~= words.deep_view().subrange(
                    1,
                    i as int,
                ).push(words.deep_view()[i as int]));
            }
            i += 1;
        }
        proof {
            assert(rest.deep_view() =~= words.deep_view().skip(1));
        }
        (word, rest)
    }

    /// The argument-shape check and the invocation it guards: a required
    /// schema whose arity is missed yields the usage diagnostic and nothing
    /// else; otherwise the bound primitive is invoked exactly once, with
    /// the arguments padded to arity where the schema is not required.
    pub fn execute_command(args: Vec<String>, command: Command) -> (r: Outcome)
        ensures
            command.args.1 && args@.len() != command.args.0@.len() ==> (r matches Outcome::Usage(u)
                && u@ == usage_line_spec(command.command@, command.args.0.deep_view())),
            !(command.args.1 && args@.len() != command.args.0@.len()) ==> (r matches Outcome::Run(
                op,
                full,
            ) && op == command.action && full.deep_view() == padded_args(
                args.deep_view(),
                command.args.0@.len(),
            )),
    {
        if command.args.1 && args.len() != command.args.0.len() {
            return Outcome::Usage(usage_line(command.command.as_str(), &command.args.0));
        }
        let arity = command.args.0.len();
        let full = pad_args(args, arity);
        Outcome::Run(command.action, full)
    }
}

/// What dispatching one parsed line decides: nothing (a blank line), the
/// session's end, a text to print, a diagnostic for the error stream, or
/// exactly one invocation of a filesystem primitive with its full argument
/// vector.
#[derive(Debug)]
pub enum Outcome {
    Empty,
    Exit,
    Help(String),
    NotFound(String),
    Usage(String),
    Run(Operation, Vec<String>),
}

/// The usage diagnostic of a command: the word and its argument schema,
/// rendered mechanically so that the expected shape and the printed text
/// cannot drift apart.
pub open spec fn usage_line_spec(w: Seq<char>, schema: Seq<Seq<char>>) -> Seq<char> {
    "Usage: "@ + w + " "@ + joined_words(schema)
}

/// Renders the usage diagnostic of a command.
pub fn usage_line(word: &str, schema: &Vec<String>) -> (r: String)
    ensures
        r@ == usage_line_spec(word@, schema.deep_view()),
{
    let mut r = "Usage: ".to_owned();
    r.append(word);
    r.append(" ");
    let joined = join_words(schema);
    r.append(joined.as_str());
    proof {
        assert(r@ =~= usage_line_spec(word@, schema.deep_view()));
    }
    r
}

/// The diagnostic for a word that no descriptor and no sentinel claims.
pub open spec fn not_found_line_spec(w: Seq<char>) -> Seq<char> {
    "Command not found: "@ + w
}

/// Renders the unknown-command diagnostic.
pub fn not_found_line(word: &str) -> (r: String)
    ensures
        r@ == not_found_line_spec(word@),
{
    let mut r = "Command not found: ".to_owned();
    r.append(word);
    r
}

/// One line of the help text: a registered word and its description.
pub open spec fn help_entry(w: Seq<char>) -> Seq<char> {
    "\n "@ + w + " - "@ + description_of(w)
}

/// The text the help sentinel prints: every registered command word with
/// its description, one per line, rendered from the registry so the list
/// and the registry cannot drift apart.
pub open spec fn help_lines() -> Seq<char> {
    "Available commands:"@ + help_entry("ls"@) + help_entry("file"@) + help_entry("mkdir"@)
        + help_entry("read"@) + help_entry("rm"@) + help_entry("rmdir"@) + help_entry("cd"@)
        + help_entry("write"@) + help_entry("cp"@) + help_entry("mv"@)
}

/// Appends one help line for a registered word.
fn push_help_entry(r: &mut String, word: &str, description: &str)
    ensures
        final(r)@ == old(r)@ + "\n "@ + word@ + " - "@ + description@,
{
    r.append("\n ");
    r.append(word);
    r.append(" - ");
    r.append(description);
    proof {
        assert(r@ =~= old(r)@ + "\n "@ + word@ + " - "@ + description@);
    }
}

/// Renders the help text.
#[verifier::rlimit(50)]
pub fn help_text() -> (r: String)
    ensures
        r@ == help_lines(),
{
    proof {
        lemma_registry_words_distinct();
    }
    let mut r = "Available commands:".to_owned();
    push_help_entry(&mut r, "ls", "Command to list all directory or specific one");
    push_help_entry(&mut r, "file", "Command to create a file");
    push_help_entry(&mut r, "mkdir", "Command to create a directory");
    push_help_entry(&mut r, "read", "Command to read a file");
    push_help_entry(&mut r, "rm", "Command to delete a file");
    push_help_entry(&mut r, "rmdir", "Command to delete a directory");
    push_help_entry(&mut r, "cd", "Command to change the current directory");
    push_help_entry(&mut r, "write", "Command to write in a file");
    push_help_entry(&mut r, "cp", "Command to copy a file");
    push_help_entry(&mut r, "mv", "Command to rename or move a file");
    proof {
        assert(r@ =~= help_lines());
    }
    r
}

/// The default directory substituted for each missing optional argument.
pub open spec fn default_arg() -> Seq<char> {
    "./"@
}

/// An argument vector brought up to the arity of a non-required schema:
/// whatever is missing is filled with the default directory.
pub open spec fn padded_args(a: Seq<Seq<char>>, arity: nat) -> Seq<Seq<char>> {
    if a.len() >= arity {
        a
    } else {
        a + Seq::new((arity - a.len()) as nat, |k: int| default_arg())
    }
}

/// Appends the default directory until the argument vector reaches the
/// schema's arity.
fn pad_args(args: Vec<String>, arity: usize) -> (r: Vec<String>)
    ensures
        r.deep_view() == padded_args(args.deep_view(), arity as nat),
{
    let ghost adv = args.deep_view();
    let mut r = args;
    while r.len() < arity
        invariant
            adv.len() <= r.deep_view().len(),
            adv.len() >= arity ==> r.deep_view() == adv,
            adv.len() < arity ==> r.deep_view().len() <= arity && r.deep_view() == adv + Seq::new(
                (r.deep_view().len() - adv.len()) as nat,
                |k: int| default_arg(),
            ),
        decreases arity - r.len(),
    {
        let ghost pre = r.deep_view();
        r.push("./".to_owned());
        proof {
            assert(r.deep_view() =~= pre.push(default_arg()));
            assert(r.deep_view() =~= adv + Seq::new(
                (r.deep_view().len() - adv.len()) as nat,
                |k: int| default_arg(),
            ));
        }
    }
    r
}

/// What holds of the outcome of dispatching a parsed line.  The clauses
/// follow the dispatch protocol: a blank line does nothing; the sentinels
/// end the session or print help; an unknown word and a wrong argument
/// count each yield exactly one diagnostic and no invocation; everything
/// else yields exactly one invocation of the bound primitive, with the
/// given arguments, padded with the default directory where the schema is
/// not required.
pub open spec fn dispatch_post(w: Seq<char>, a: Seq<Seq<char>>, r: Outcome) -> bool {
    &&& (w.len() == 0 ==> r is Empty)
    &&& (w == "exit"@ ==> r is Exit)
    &&& (w == "help"@ ==> (r matches Outcome::Help(h) && h@ == help_lines()))
    &&& (w.len() > 0 && w != "exit"@ && w != "help"@ && !is_registered(w) ==> (r matches
        Outcome::NotFound(m) && m@ == not_found_line_spec(w)))
    &&& (is_registered(w) && required_of(w) && a.len() != schema_of(w).len() ==> (r matches
        Outcome::Usage(u) && u@ == usage_line_spec(w, schema_of(w))))
    &&& (is_registered(w) && (required_of(w) ==> a.len() == schema_of(w).len()) ==> (r matches
        Outcome::Run(op, full) && op == op_of(w) && full.deep_view() == padded_args(
        a,
        schema_of(w).len(),
    )))
}

/// Turns a parsed line into an outcome: the blank line and the two
/// sentinels first, then registry lookup, then the argument-shape check,
/// then the single invocation.
pub fn dispatch(word: &str, args: Vec<String>) -> (r: Outcome)
    ensures
        dispatch_post(word@, args.deep_view(), r),
{
    proof {
        lemma_registry_words_distinct();
    }
    if word.is_empty() {
        return Outcome::Empty;
    }
    if str_eq(word, "exit") {
        return Outcome::Exit;
    }
    if str_eq(word, "help") {
        return Outcome::Help(help_text());
    }
    match Command::load_command(word) {
        None => Outcome::NotFound(not_found_line(word)),
        Some(c) => Command::execute_command(args, c),
    }
}

/// For every registered command word whose schema is required and every
/// argument vector of the wrong length, dispatching yields exactly one
/// usage diagnostic, which begins with "Usage: ", the word, and a space —
/// and no filesystem primitive is invoked.
pub proof fn lemma_wrong_arity_yields_usage(w: Seq<char>, a: Seq<Seq<char>>, r: Outcome)
    requires
        is_registered(w),
        required_of(w),
        a.len() != schema_of(w).len(),
        dispatch_post(w, a, r),
    ensures
        r matches Outcome::Usage(u) && u@ == usage_line_spec(w, schema_of(w)),
        !(r is Run),
        ({
            let u = r->Usage_0;
            u@.take(("Usage: "@.len() + w.len() + 1) as int) == "Usage: "@ + w + " "@
        }),
{
    lemma_registry_words_distinct();
    reveal_strlit("Usage: ");
    reveal_strlit(" ");
    let u = r->Usage_0;
    assert(u@.take(("Usage: "@.len() + w.len() + 1) as int) =~= "Usage: "@ + w + " "@);
}

/// For every input line whose first token is neither a registry key nor a
/// sentinel, dispatching yields exactly one diagnostic, which begins with
/// "Command not found" — and no filesystem primitive is invoked.
pub proof fn lemma_unknown_word_yields_not_found(w: Seq<char>, a: Seq<Seq<char>>, r: Outcome)
    requires
        w.len() > 0,
        w != "exit"@,
        w != "help"@,
        !is_registered(w),
        dispatch_post(w, a, r),
    ensures
        r matches Outcome::NotFound(m) && m@ == not_found_line_spec(w),
        !(r is Run),
        ({
            let m = r->NotFound_0;
            m@.take("Command not found"@.len() as int) == "Command not found"@
        }),
{
    reveal_strlit("Command not found: ");
    reveal_strlit("Command not found");
    let m = r->NotFound_0;
    assert(m@.take("Command not found"@.len() as int) =~= "Command not found"@);
}

/// For every registered command whose schema is required, dispatching with
/// the correct arity invokes the bound primitive exactly once, with the
/// provided arguments unchanged and in order.
pub proof fn lemma_required_args_pass_through(w: Seq<char>, a: Seq<Seq<char>>, r: Outcome)
    requires
        is_registered(w),
        required_of(w),
        a.len() == schema_of(w).len(),
        dispatch_post(w, a, r),
    ensures
        r matches Outcome::Run(op, full) && op == op_of(w) && full.deep_view() == a,
{
}

/// Every invocation the dispatcher produces is for a registered word, is
/// bound to that word's primitive, and carries at least as many arguments
/// as the word's schema has places — the handler never reaches past the
/// argument vector.
pub proof fn lemma_invocation_arity(w: Seq<char>, a: Seq<Seq<char>>, r: Outcome)
    requires
        dispatch_post(w, a, r),
        r is Run,
    ensures
        is_registered(w),
        r->Run_0 == op_of(w),
        r->Run_1.deep_view().len() >= schema_of(w).len(),
{
    if w.len() == 0 || w == "exit"@ || w == "help"@ {
        assert(!(r is Run));
    }
    if !is_registered(w) {
        assert(!(r is Run));
    }
    if required_of(w) && a.len() != schema_of(w).len() {
        assert(!(r is Run));
    }
}

/// Dispatching the listing command with no argument invokes its primitive
/// with the default directory alone.
pub proof fn lemma_ls_without_argument_defaults(r: Outcome)
    requires
        dispatch_post("ls"@, Seq::empty(), r),
    ensures
        r matches Outcome::Run(op, full) && op == Operation::ListFiles && full.deep_view() == seq![
            default_arg(),
        ],
{
    lemma_registry_words_distinct();
    assert(is_registered("ls"@));
    assert(padded_args(Seq::empty(), schema_of("ls"@).len()) =~= seq![default_arg()]);
}

} // verus!
