use signtool::err::SignToolError;
use signtool::locate::{
    candidate_paths, choose_kit, first_present, kit_values, search_paths, select_kit,
    version_order,
};
use signtool::signtool::{exit_outcome, exit_outcome_bytes, SignTool};

fn strings(v: &[&str]) -> Vec<String> {
    v.iter().map(|s| s.to_string()).collect()
}

#[test]
fn kit_values_keep_prefixed_names_in_order() {
    let values = strings(&["KitsRoot10", "Other", "KitsRoot81", "kitsroot7", "KitsRoot"]);
    assert_eq!(kit_values(&values), strings(&["KitsRoot10", "KitsRoot81", "KitsRoot"]));
    assert!(kit_values(&Vec::new()).is_empty());
}

#[test]
fn preferred_kit_wins_in_any_order() {
    let a = strings(&["KitsRoot81", "KitsRoot10"]);
    let b = strings(&["KitsRoot10", "KitsRoot81"]);
    assert_eq!(select_kit(&a).unwrap(), "KitsRoot10");
    assert_eq!(select_kit(&b).unwrap(), "KitsRoot10");
}

#[test]
fn single_kit_is_taken_whatever_its_name() {
    assert_eq!(select_kit(&strings(&["Whatever"])).unwrap(), "Whatever");
}

#[test]
fn first_kit_without_preferred() {
    assert_eq!(select_kit(&strings(&["KitsRoot81", "KitsRoot9"])).unwrap(), "KitsRoot81");
}

#[test]
fn no_kit_fails() {
    match select_kit(&Vec::new()) {
        Err(SignToolError::Other(m)) => assert_eq!(m, "Cannot locate sign tool, no valid Kit"),
        other => panic!("unexpected {:?}", other),
    }
    assert!(choose_kit(None, &strings(&["Foo", "Bar"])).is_err());
}

#[test]
fn explicit_kit_is_used_as_is() {
    assert_eq!(choose_kit(Some("KitsRoot81".to_string()), &Vec::new()).unwrap(), "KitsRoot81");
    assert_eq!(
        choose_kit(None, &strings(&["Foo", "KitsRoot81", "KitsRoot10"])).unwrap(),
        "KitsRoot10"
    );
}

#[test]
fn versions_newest_first() {
    let installed = strings(&["10.0.17763.0", "10.0.22621.0", "10.0.19041.0"]);
    assert_eq!(
        version_order(&installed),
        strings(&["10.0.22621.0", "10.0.19041.0", "10.0.17763.0"])
    );
    let shuffled = strings(&["10.0.19041.0", "10.0.17763.0", "10.0.22621.0"]);
    assert_eq!(version_order(&installed), version_order(&shuffled));
}

#[test]
fn candidate_paths_end_with_base() {
    let r = candidate_paths("C:\\Kits\\10", "x64", &strings(&["v2", "v1"]));
    assert_eq!(
        r,
        vec![
            strings(&["C:\\Kits\\10", "bin", "v2", "x64", "signtool.exe"]),
            strings(&["C:\\Kits\\10", "bin", "v1", "x64", "signtool.exe"]),
            strings(&["C:\\Kits\\10", "bin", "x64", "signtool.exe"]),
        ]
    );
}

#[test]
fn search_paths_order() {
    let r = search_paths("K", "arm64", &strings(&["10.0.1.0", "10.0.3.0", "10.0.2.0"]));
    assert_eq!(r.len(), 4);
    assert_eq!(r[0], strings(&["K", "bin", "10.0.3.0", "arm64", "signtool.exe"]));
    assert_eq!(r[1], strings(&["K", "bin", "10.0.2.0", "arm64", "signtool.exe"]));
    assert_eq!(r[2], strings(&["K", "bin", "10.0.1.0", "arm64", "signtool.exe"]));
    assert_eq!(r[3], strings(&["K", "bin", "arm64", "signtool.exe"]));
    let empty = search_paths("K", "x86", &Vec::new());
    assert_eq!(empty, vec![strings(&["K", "bin", "x86", "signtool.exe"])]);
}

#[test]
fn first_present_candidate() {
    assert_eq!(first_present(&vec![false, true, true]).unwrap(), 1);
    match first_present(&vec![false, false]) {
        Err(SignToolError::Other(m)) => assert_eq!(m, "No SignTool found!"),
        other => panic!("unexpected {:?}", other),
    }
    assert!(first_present(&Vec::new()).is_err());
}

#[test]
fn exit_status_classification() {
    assert!(exit_outcome(Some(0), "warning text".to_string()).is_ok());
    match exit_outcome(Some(2), "SignTool Error: no cert".to_string()) {
        Err(SignToolError::SignToolError { exit_code, stderr }) => {
            assert_eq!(exit_code, 2);
            assert_eq!(stderr, "SignTool Error: no cert");
        }
        other => panic!("unexpected {:?}", other),
    }
    match exit_outcome(None, "killed".to_string()) {
        Err(SignToolError::SignToolError { exit_code, stderr }) => {
            assert_eq!(exit_code, -1);
            assert_eq!(stderr, "killed");
        }
        other => panic!("unexpected {:?}", other),
    }
}

#[test]
fn exit_status_decodes_stderr_bytes() {
    match exit_outcome_bytes(Some(1), &[b'b', b'a', 0xff, b'd']) {
        Err(SignToolError::SignToolError { exit_code, stderr }) => {
            assert_eq!(exit_code, 1);
            assert_eq!(stderr, "ba\u{FFFD}d");
        }
        other => panic!("unexpected {:?}", other),
    }
    assert!(exit_outcome_bytes(Some(0), &[0xff]).is_ok());
}

#[test]
fn tool_handle_keeps_its_path() {
    let t = SignTool::at(strings(&["C:", "bin", "x64", "signtool.exe"]));
    assert_eq!(t.path_components(), &strings(&["C:", "bin", "x64", "signtool.exe"]));
}

#[test]
fn forensic_error_becomes_other() {
    let e = SignToolError::from_forensic(&forensic_rs::prelude::ForensicError::CastError);
    match e {
        SignToolError::Other(m) => assert_eq!(m, "CastError"),
        other => panic!("unexpected {:?}", other),
    }
    match SignToolError::from("boom".to_string()) {
        SignToolError::Other(m) => assert_eq!(m, "boom"),
        other => panic!("unexpected {:?}", other),
    }
}

#[test]
fn error_conversions() {
    let io = std::io::Error::new(std::io::ErrorKind::NotFound, "gone");
    match SignToolError::from(io) {
        SignToolError::Io(e) => assert_eq!(e.kind(), std::io::ErrorKind::NotFound),
        other => panic!("unexpected {:?}", other),
    }
    match SignToolError::from(forensic_rs::prelude::ForensicError::NoMoreData) {
        SignToolError::Other(m) => assert_eq!(m, "NoMoreData"),
        other => panic!("unexpected {:?}", other),
    }
}
