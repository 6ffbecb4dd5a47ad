use llvm_tools::pipeline::{Action, Pipeline, Stage, PROFDATA_FILE};

const LCOV: &str = "SF:/tmp/sample/src/main.rs\nFN:8,main\nFNDA:1,main\nFNF:1\nFNH:1\nDA:8,1\nBRF:0\nBRH:0\nLF:1\nLH:1\nend_of_record\n";

fn strings(items: &[&str]) -> Vec<String> {
    items.iter().map(|s| s.to_string()).collect()
}

/// Drives a pipeline to its end: `merge` is what the merger gives, `targets`
/// what discovery finds, and `export` what the exporter gives per target.
/// Returns the result and the number of merges and exports asked for.
fn drive<F: Fn(&str) -> Result<Vec<u8>, String>>(
    fragments: &[&str],
    profdata: &str,
    merge: Result<Vec<u8>, String>,
    targets: &[&str],
    export: F,
) -> (Result<Vec<Vec<u8>>, String>, usize, Vec<String>) {
    let (mut p, first) = Pipeline::new(&strings(fragments), profdata.to_string());
    let mut merges = 0;
    let mut exported = vec![];
    let mut action = first;
    let mut merge = Some(merge);
    loop {
        action = match action {
            Action::Merge(_) => {
                merges += 1;
                p.merged(merge.take().unwrap())
            }
            Action::Discover => p.discovered(strings(targets)),
            Action::Export { binary, .. } => {
                exported.push(binary.clone());
                p.exported(export(&binary))
            }
            Action::Finish => return (Ok(p.into_reports()), merges, exported),
            Action::Abort(e) => return (Err(e), merges, exported),
        };
    }
}

#[test]
fn merge_is_asked_for_first_with_all_fragments() {
    let (p, action) = Pipeline::new(&strings(&["a.profraw", "b.profraw"]), "work/grcov.profdata".to_string());
    assert_eq!(p.stage(), Stage::Merging);
    match action {
        Action::Merge(args) => assert_eq!(
            args,
            strings(&["merge", "-sparse", "-o", "work/grcov.profdata", "a.profraw", "b.profraw"])
        ),
        _ => panic!("expected a merge"),
    }
}

#[test]
fn merge_with_no_fragments_is_passed_through() {
    let (_, action) = Pipeline::new(&vec![], "grcov.profdata".to_string());
    match action {
        Action::Merge(args) => assert_eq!(args, strings(&["merge", "-sparse", "-o", "grcov.profdata"])),
        _ => panic!("expected a merge"),
    }
}

#[test]
fn profdata_file_name() {
    assert_eq!(PROFDATA_FILE, "grcov.profdata");
}

#[test]
fn export_arguments_name_binary_and_profile() {
    let (mut p, _) = Pipeline::new(&strings(&["run1.profraw"]), "w/grcov.profdata".to_string());
    assert!(matches!(p.merged(Ok(vec![])), Action::Discover));
    match p.discovered(strings(&["bin/app"])) {
        Action::Export { binary, args } => {
            assert_eq!(binary, "bin/app");
            assert_eq!(
                args,
                strings(&["export", "bin/app", "--instr-profile", "w/grcov.profdata", "--format", "lcov"])
            );
        }
        _ => panic!("expected an export"),
    }
}

#[test]
fn merge_failure_aborts_without_exports() {
    let (r, merges, exported) = drive(
        &["missing.profraw"],
        "grcov.profdata",
        Err("Failure while running merge\nmissing.profraw: No such file".to_string()),
        &["bin/a", "bin/b"],
        |_| Ok(LCOV.as_bytes().to_vec()),
    );
    assert_eq!(r, Err("Failure while running merge\nmissing.profraw: No such file".to_string()));
    assert_eq!(merges, 1);
    assert!(exported.is_empty());
}

#[test]
fn failed_merge_leaves_pipeline_failed() {
    let (mut p, _) = Pipeline::new(&strings(&["x.profraw"]), "grcov.profdata".to_string());
    assert!(matches!(p.merged(Err("no merger".to_string())), Action::Abort(e) if e == "no merger"));
    assert_eq!(p.stage(), Stage::Failed);
    assert!(p.failures().is_empty());
}

#[test]
fn no_binaries_gives_empty_result() {
    let (r, merges, exported) =
        drive(&["run1.profraw"], "grcov.profdata", Ok(vec![]), &[], |_| Ok(LCOV.as_bytes().to_vec()));
    assert_eq!(r, Ok(vec![]));
    assert_eq!(merges, 1);
    assert!(exported.is_empty());
}

#[test]
fn one_binary_gives_one_report() {
    let (r, merges, exported) = drive(
        &["run1.profraw"],
        "grcov.profdata",
        Ok(vec![]),
        &["target/debug/rust-code-coverage-sample"],
        |_| Ok(LCOV.as_bytes().to_vec()),
    );
    let reports = r.unwrap();
    assert_eq!(merges, 1);
    assert_eq!(exported, strings(&["target/debug/rust-code-coverage-sample"]));
    assert_eq!(reports.len(), 1);
    let text = String::from_utf8(reports[0].clone()).unwrap();
    assert!(text.starts_with("SF:"));
    assert!(text.ends_with("end_of_record\n"));
    assert_eq!(text, LCOV);
}

#[test]
fn failed_export_spares_the_others() {
    let (mut p, _) = Pipeline::new(&strings(&["r.profraw"]), "grcov.profdata".to_string());
    p.merged(Ok(vec![]));
    p.discovered(strings(&["bin/a", "bin/b", "bin/c"]));
    assert!(matches!(p.exported(Ok(b"A".to_vec())), Action::Export { binary, .. } if binary == "bin/b"));
    assert!(matches!(p.exported(Err("corrupt".to_string())), Action::Export { binary, .. } if binary == "bin/c"));
    assert!(matches!(p.exported(Ok(b"C".to_vec())), Action::Finish));
    assert_eq!(p.stage(), Stage::Finished);
    assert_eq!(p.failures().clone(), vec![("bin/b".to_string(), "corrupt".to_string())]);
    assert_eq!(p.into_reports(), vec![b"A".to_vec(), b"C".to_vec()]);
}

#[test]
fn merge_asked_once_for_many_targets() {
    let targets = ["t0", "t1", "t2", "t3", "t4", "t5", "t6"];
    let (r, merges, exported) =
        drive(&["a.profraw", "b.profraw"], "grcov.profdata", Ok(vec![]), &targets, |b| {
            if b == "t3" { Err("boom".to_string()) } else { Ok(b.as_bytes().to_vec()) }
        });
    assert_eq!(merges, 1);
    assert_eq!(exported, strings(&targets));
    let reports = r.unwrap();
    assert!(reports.len() <= targets.len());
    assert_eq!(reports, vec![b"t0".to_vec(), b"t1".to_vec(), b"t2".to_vec(), b"t4".to_vec(), b"t5".to_vec(), b"t6".to_vec()]);
}

#[test]
fn every_export_failing_gives_no_reports() {
    let (r, _, exported) = drive(&["a.profraw"], "grcov.profdata", Ok(vec![]), &["x", "y"], |_| {
        Err("no data".to_string())
    });
    assert_eq!(exported, strings(&["x", "y"]));
    assert_eq!(r, Ok(vec![]));
}

#[test]
fn rerun_in_fresh_directory_gives_same_reports() {
    let export = |b: &str| -> Result<Vec<u8>, String> { Ok(format!("SF:{}\nend_of_record\n", b).into_bytes()) };
    let (first, _, _) = drive(&["run1.profraw"], "one/grcov.profdata", Ok(vec![]), &["a", "b"], export);
    let (second, _, _) = drive(&["run1.profraw"], "two/grcov.profdata", Ok(vec![]), &["a", "b"], export);
    assert_eq!(first, second);
    assert_eq!(first.unwrap().len(), 2);
}
