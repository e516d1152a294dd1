use crashfinder::archive::crash_record;
use crashfinder::ident::PackageId;

#[test]
fn crash_record_plans_exactly_three_artifacts() {
    let id = PackageId { name: "foo".to_string(), version: "1.2.3".to_string() };
    let rec = crash_record(&id);
    assert_eq!(rec.archive_file, "foo-1.2.3.crate");
    assert_eq!(rec.stdout_file, "foo-1.2.3.stdout");
    assert_eq!(rec.stderr_file, "foo-1.2.3.stderr");
    assert_eq!(rec.id.name, "foo");
    assert_eq!(rec.id.version, "1.2.3");
}

#[test]
fn artifact_names_survive_hyphenated_package_names() {
    let id = PackageId { name: "proc-macro-hack".to_string(), version: "0.5.11".to_string() };
    let rec = crash_record(&id);
    assert_eq!(rec.archive_file, "proc-macro-hack-0.5.11.crate");
    assert_eq!(rec.stdout_file, "proc-macro-hack-0.5.11.stdout");
    assert_eq!(rec.stderr_file, "proc-macro-hack-0.5.11.stderr");
}

#[test]
fn re_archiving_the_same_package_lands_on_the_same_names() {
    let id = PackageId { name: "foo".to_string(), version: "1.2.3".to_string() };
    let first = crash_record(&id);
    let second = crash_record(&id);
    assert_eq!(first.archive_file, second.archive_file);
    assert_eq!(first.stdout_file, second.stdout_file);
    assert_eq!(first.stderr_file, second.stderr_file);
}
