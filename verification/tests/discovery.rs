use backend_supervisor::discovery::{
    frontend_dist_candidates, repo_frontend_dist_guess, repo_src_dir_guess, src_dir_candidates,
};

#[test]
fn frontend_dist_has_two_conventional_places() {
    assert_eq!(
        frontend_dist_candidates(),
        vec!["../../../web/frontend/dist".to_string(), "web/frontend/dist".to_string()]
    );
}

#[test]
fn src_dir_has_two_conventional_places() {
    assert_eq!(src_dir_candidates(), vec!["../../../src".to_string(), "src".to_string()]);
}

#[test]
fn first_place_is_preferred() {
    assert_eq!(
        repo_frontend_dist_guess(&vec![true, true]),
        Some("../../../web/frontend/dist".to_string())
    );
    assert_eq!(repo_src_dir_guess(&vec![true, false]), Some("../../../src".to_string()));
}

#[test]
fn second_place_is_taken_when_the_first_is_missing() {
    assert_eq!(repo_frontend_dist_guess(&vec![false, true]), Some("web/frontend/dist".to_string()));
    assert_eq!(repo_src_dir_guess(&vec![false, true]), Some("src".to_string()));
}

#[test]
fn no_guess_when_nothing_exists() {
    assert_eq!(repo_frontend_dist_guess(&vec![false, false]), None);
    assert_eq!(repo_src_dir_guess(&vec![false, false]), None);
}

#[test]
fn no_guess_when_the_working_directory_is_unknown() {
    assert_eq!(repo_frontend_dist_guess(&vec![]), None);
    assert_eq!(repo_src_dir_guess(&vec![]), None);
}

#[test]
fn missing_and_surplus_entries() {
    assert_eq!(repo_src_dir_guess(&vec![false]), None);
    assert_eq!(repo_src_dir_guess(&vec![true]), Some("../../../src".to_string()));
    assert_eq!(repo_src_dir_guess(&vec![false, false, true]), None);
    assert_eq!(
        repo_frontend_dist_guess(&vec![false, true, true]),
        Some("web/frontend/dist".to_string())
    );
}
