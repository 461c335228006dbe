use file_shell::command::{dispatch, Command, Outcome};
use file_shell::manager::Operation;

#[test]
fn registry_knows_every_command_word() {
    for word in [
        "ls", "file", "mkdir", "read", "rm", "rmdir", "cd", "write", "cp", "mv",
    ] {
        assert!(Command::load_command(word).is_some());
    }
}

#[test]
fn registry_rejects_sentinels_and_strangers() {
    for word in ["exit", "help", "", "nope", "LS", "ls ", "delf"] {
        assert!(Command::load_command(word).is_none());
    }
}

#[test]
fn descriptor_of_write_command() {
    let c = Command::load_command("write").unwrap();
    assert_eq!(c.name, "Write file");
    assert_eq!(c.command, "write");
    assert_eq!(
        c.args.0,
        vec!["<file name>".to_string(), "<content>".to_string()]
    );
    assert!(c.args.1);
    assert_eq!(c.description, "Command to write in a file");
    assert_eq!(c.action, Operation::WriteFile);
}

#[test]
fn descriptor_of_ls_is_not_required() {
    let c = Command::load_command("ls").unwrap();
    assert_eq!(c.name, "List");
    assert_eq!(c.args.0, vec!["<directory>".to_string()]);
    assert!(!c.args.1);
    assert_eq!(c.action, Operation::ListFiles);
}

#[test]
fn wrong_arity_yields_usage_diagnostic() {
    match dispatch("write", Vec::new()) {
        Outcome::Usage(u) => assert_eq!(u, "Usage: write <file name> <content>"),
        other => panic!("expected a usage diagnostic, got {:?}", other),
    }
}

#[test]
fn too_many_arguments_yield_usage_diagnostic() {
    let args = vec!["a".to_string(), "b".to_string()];
    match dispatch("rm", args) {
        Outcome::Usage(u) => assert_eq!(u, "Usage: rm <file name>"),
        other => panic!("expected a usage diagnostic, got {:?}", other),
    }
}

#[test]
fn unknown_word_yields_not_found_diagnostic() {
    match dispatch("nope", Vec::new()) {
        Outcome::NotFound(m) => assert_eq!(m, "Command not found: nope"),
        other => panic!("expected a not-found diagnostic, got {:?}", other),
    }
}

#[test]
fn correct_arity_invokes_primitive_with_given_args() {
    let args = vec!["hello.txt".to_string(), "copy.txt".to_string()];
    match dispatch("cp", args.clone()) {
        Outcome::Run(op, full) => {
            assert_eq!(op, Operation::CopyFile);
            assert_eq!(full, args);
        }
        other => panic!("expected an invocation, got {:?}", other),
    }
}

#[test]
fn ls_without_argument_gets_default_directory() {
    match dispatch("ls", Vec::new()) {
        Outcome::Run(op, full) => {
            assert_eq!(op, Operation::ListFiles);
            assert_eq!(full, vec!["./".to_string()]);
        }
        other => panic!("expected an invocation, got {:?}", other),
    }
}

#[test]
fn ls_with_argument_keeps_it() {
    match dispatch("ls", vec!["sub".to_string()]) {
        Outcome::Run(op, full) => {
            assert_eq!(op, Operation::ListFiles);
            assert_eq!(full, vec!["sub".to_string()]);
        }
        other => panic!("expected an invocation, got {:?}", other),
    }
}

#[test]
fn blank_word_does_nothing() {
    assert!(matches!(dispatch("", Vec::new()), Outcome::Empty));
}

#[test]
fn exit_sentinel_ends_the_session() {
    assert!(matches!(dispatch("exit", Vec::new()), Outcome::Exit));
}

#[test]
fn help_sentinel_lists_command_words_with_descriptions() {
    let expected = "Available commands:\
        \n ls - Command to list all directory or specific one\
        \n file - Command to create a file\
        \n mkdir - Command to create a directory\
        \n read - Command to read a file\
        \n rm - Command to delete a file\
        \n rmdir - Command to delete a directory\
        \n cd - Command to change the current directory\
        \n write - Command to write in a file\
        \n cp - Command to copy a file\
        \n mv - Command to rename or move a file";
    match dispatch("help", Vec::new()) {
        Outcome::Help(h) => assert_eq!(h, expected),
        other => panic!("expected the help text, got {:?}", other),
    }
}

#[test]
fn every_required_command_runs_at_exact_arity() {
    let one = [("file", Operation::CreateFile), ("mkdir", Operation::CreateDirectory),
        ("read", Operation::ReadFile), ("rm", Operation::DeleteFile),
        ("rmdir", Operation::DeleteDirectory), ("cd", Operation::ChangeDirectory)];
    for (word, op) in one {
        let args = vec!["x".to_string()];
        match dispatch(word, args.clone()) {
            Outcome::Run(got, full) => {
                assert_eq!(got, op);
                assert_eq!(full, args);
            }
            other => panic!("expected an invocation for {}, got {:?}", word, other),
        }
    }
    let two = [("write", Operation::WriteFile), ("cp", Operation::CopyFile),
        ("mv", Operation::RenameOrMoveFile)];
    for (word, op) in two {
        let args = vec!["x".to_string(), "y".to_string()];
        match dispatch(word, args.clone()) {
            Outcome::Run(got, full) => {
                assert_eq!(got, op);
                assert_eq!(full, args);
            }
            other => panic!("expected an invocation for {}, got {:?}", word, other),
        }
    }
}

#[test]
fn parsed_line_dispatches_end_to_end() {
    let tokens = Command::parse_user_input("write hello.txt world");
    let (word, args) = Command::identify_args(tokens);
    match dispatch(&word, args) {
        Outcome::Run(op, full) => {
            assert_eq!(op, Operation::WriteFile);
            assert_eq!(full, vec!["hello.txt".to_string(), "world".to_string()]);
        }
        other => panic!("expected an invocation, got {:?}", other),
    }
}
