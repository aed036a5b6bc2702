use forge_lib::compiler::{compilers_found, detect_compilers};
use forge_lib::plan::{locate, located};
use forge_lib::Error;
use which::which;

#[test]
fn test_detect_compilers() {
    let options = ["clang", "clang++", "gcc", "g++"];
    let mut count: usize = 0;

    for o in options {
        match which(o) {
            Ok(_) => count += 1,
            Err(_) => (),
        }
    }

    // Test
    let compilers = detect_compilers();

    // Validate
    assert_eq!(compilers.len(), count);
}

#[test]
fn detected_compilers_come_with_their_paths_in_order() {
    let expected: Vec<(String, String)> = ["clang", "clang++", "gcc", "g++"]
        .iter()
        .filter_map(|o| {
            which(o).ok().map(|p| (o.to_string(), p.to_string_lossy().into_owned()))
        })
        .collect();
    assert_eq!(detect_compilers(), expected);
}

#[test]
fn compilers_found_keeps_what_was_found() {
    let lookups = vec![
        ("clang".to_string(), None),
        ("clang++".to_string(), Some("/usr/bin/clang++".to_string())),
        ("gcc".to_string(), None),
        ("g++".to_string(), Some("/opt/g++".to_string())),
    ];
    assert_eq!(
        compilers_found(lookups),
        vec![
            ("clang++".to_string(), "/usr/bin/clang++".to_string()),
            ("g++".to_string(), "/opt/g++".to_string()),
        ]
    );
    assert_eq!(compilers_found(vec![]), vec![]);
    assert_eq!(compilers_found(vec![("gcc".to_string(), None)]), vec![]);
}

#[test]
fn locate_finds_what_which_finds() {
    for name in ["sh", "ls", "a-tool-that-no-machine-has-on-its-path"] {
        match which(name) {
            Ok(path) => assert_eq!(locate(name), Ok(path.to_string_lossy().into_owned())),
            Err(e) => assert_eq!(locate(name), Err(Error::CustomError(e.to_string()))),
        }
    }
    assert_eq!(
        locate("a-tool-that-no-machine-has-on-its-path"),
        Err(Error::CustomError("cannot find binary path".to_string()))
    );
}

#[test]
fn located_keeps_the_path_and_wraps_the_words() {
    assert_eq!(located(Ok("/usr/bin/vcpkg".to_string())), Ok("/usr/bin/vcpkg".to_string()));
    assert_eq!(
        located(Err("cannot find binary path".to_string())),
        Err(Error::CustomError("cannot find binary path".to_string()))
    );
}
