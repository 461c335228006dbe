use file_shell::manager::file::FileHandler;
use file_shell::manager::FileManager;

#[test]
fn test_path_absolute() {
    let absolute_path = "C:/Users/victo/Documents/test.txt";
    assert!(FileHandler::is_absolute(absolute_path));
    let relative_path = "/Documents/test.txt";
    assert!(!FileHandler::is_absolute(relative_path));
}

#[test]
fn absolute_path_passes_through() {
    let r = FileHandler::path_check("C:/tmp/x.txt", "C:/home/user");
    assert_eq!(r, "C:/tmp/x.txt");
}

#[test]
fn relative_path_joins_working_directory() {
    let r = FileHandler::path_check("x.txt", "C:/home/user");
    assert_eq!(r, "C:/home/user/x.txt");
}

#[test]
fn join_adds_no_second_separator() {
    let r = FileHandler::path_check("x.txt", "C:/home/user/");
    assert_eq!(r, "C:/home/user/x.txt");
}

#[test]
fn empty_working_directory_leaves_path_alone() {
    let r = FileHandler::path_check("x.txt", "");
    assert_eq!(r, "x.txt");
}

#[test]
fn resolution_follows_change_of_directory() {
    let mut fm = FileManager::new("C:/home".to_string());
    assert_eq!(fm.resolve("notes.txt"), "C:/home/notes.txt");
    fm.change_directory("sub");
    assert_eq!(fm.cwd, "C:/home/sub");
    assert_eq!(fm.resolve("notes.txt"), "C:/home/sub/notes.txt");
    assert_eq!(fm.resolve("./"), "C:/home/sub/./");
}

#[test]
fn change_to_absolute_directory_replaces_working_directory() {
    let mut fm = FileManager::new("C:/home".to_string());
    fm.change_directory("D:/data");
    assert_eq!(fm.cwd, "D:/data");
}
