use projectm::ProjectM;

#[test]
fn test_get_versions() {
    let version_tuple = ProjectM::get_version_components();
    assert_eq!(version_tuple, (4, 0, 0));

    let version_string = ProjectM::get_version_string();
    assert_eq!(version_string, "4.0.0");
}
