use unraid::docker::Container;
use unraid::docker::ContainerState;
use unraid::docker::filter_by_state;
use unraid::docker::find_container_id;
use unraid::docker::render_container_list;
use unraid::text::mask_api_key;
use unraid::text::truncate;

fn sample_container(id: &str, name: &str, state: ContainerState) -> Container {
    Container {
        id: id.to_string(),
        names: vec![name.to_string()],
        image: "some-image:latest".to_string(),
        state,
        status: "Up 2 hours".to_string(),
        ports: vec![],
    }
}

fn sample_containers() -> Vec<Container> {
    vec![
        sample_container("id-1", "plex", ContainerState::Running),
        sample_container("id-2", "sonarr", ContainerState::Running),
        sample_container("id-3", "radarr", ContainerState::Exited),
        sample_container("id-4", "nginx", ContainerState::Paused),
    ]
}

#[test]
fn truncate_truncates_correctly() {
    let cases = [
        ("hello", 10, "hello"),
        ("hello", 5, "hello"),
        ("hello world", 8, "hello..."),
        ("", 5, ""),
    ];

    for (input, max_len, expected) in cases {
        assert_eq!(
            truncate(input, max_len),
            expected,
            "truncate({input:?}, {max_len})"
        );
    }
}

#[test]
fn truncate_cuts_a_long_name_to_the_width_with_ellipsis() {
    // a 20-character input truncated to 8: first 5 characters plus "..."
    let r = truncate("abcdefghijklmnopqrst", 8);
    assert_eq!(r, "abcde...");
    assert_eq!(r.len(), 8);
}

#[test]
fn mask_api_key_masks_correctly() {
    let cases = [
        ("", "***"),
        ("x", "x..."),
        ("abc", "abc..."),
        ("12345678", "12345678..."),
        ("abcdefghijklmnop", "abcdefgh..."),
    ];

    for (input, expected) in cases {
        assert_eq!(mask_api_key(input), expected, "mask_api_key({input:?})");
    }
}

// find_container_id tests

#[test]
fn find_container_id_returns_id_for_matching_name() {
    let containers = sample_containers();
    let result = find_container_id(&containers, "plex").unwrap();
    assert_eq!(result, "id-1");
}

#[test]
fn find_container_id_is_case_insensitive() {
    let containers = sample_containers();
    let result = find_container_id(&containers, "PLEX").unwrap();
    assert_eq!(result, "id-1");
}

#[test]
fn find_container_id_strips_leading_slash() {
    let containers = vec![Container {
        id: "id-slash".to_string(),
        names: vec!["/mycontainer".to_string()],
        image: "img".to_string(),
        state: ContainerState::Running,
        status: "Up".to_string(),
        ports: vec![],
    }];

    let result = find_container_id(&containers, "mycontainer").unwrap();
    assert_eq!(result, "id-slash");
}

#[test]
fn find_container_id_returns_error_for_unknown_name() {
    let containers = sample_containers();
    let err = find_container_id(&containers, "nonexistent").unwrap_err();
    assert!(err.message().contains("not found"));
}

#[test]
fn find_container_id_returns_error_for_empty_list() {
    let containers: Vec<Container> = Vec::new();
    let err = find_container_id(&containers, "anything").unwrap_err();
    assert!(err.message().contains("not found"));
}

#[test]
fn find_container_id_matches_second_name_in_list() {
    let containers = vec![Container {
        id: "id-multi".to_string(),
        names: vec!["primary".to_string(), "alias".to_string()],
        image: "img".to_string(),
        state: ContainerState::Running,
        status: "Up".to_string(),
        ports: vec![],
    }];

    let result = find_container_id(&containers, "alias").unwrap();
    assert_eq!(result, "id-multi");
}

#[test]
fn find_container_id_resolves_each_kind_of_alias() {
    let containers = vec![
        sample_container("id-plex", "plex", ContainerState::Running),
        sample_container("id-sonarr", "sonarr", ContainerState::Running),
        sample_container("id-radarr", "/radarr", ContainerState::Running),
    ];

    assert_eq!(find_container_id(&containers, "PLEX").unwrap(), "id-plex");
    assert_eq!(find_container_id(&containers, "radarr").unwrap(), "id-radarr");
    let err = find_container_id(&containers, "missing").unwrap_err();
    assert!(err.message().contains("not found"));
}

// filter_by_state tests

#[test]
fn filter_by_state_returns_all_containers_when_show_all_is_true() {
    let containers = sample_containers();
    let filtered = filter_by_state(containers, true);
    assert_eq!(filtered.len(), 4);
}

#[test]
fn filter_by_state_returns_only_running_when_show_all_is_false() {
    let containers = sample_containers();
    let filtered = filter_by_state(containers, false);
    assert_eq!(filtered.len(), 2);
    assert!(filtered.iter().all(|c| c.state == ContainerState::Running));
}

#[test]
fn filter_by_state_returns_empty_when_no_running_containers() {
    let containers = vec![
        sample_container("id-1", "a", ContainerState::Exited),
        sample_container("id-2", "b", ContainerState::Paused),
    ];
    let filtered = filter_by_state(containers, false);
    assert!(filtered.is_empty());
}

// rendering tests

#[test]
fn render_container_list_lays_out_fixed_width_columns() {
    let containers = vec![sample_container("id-1", "/plex", ContainerState::Running)];
    let lines = render_container_list(containers, false);

    assert_eq!(lines.len(), 3);
    assert_eq!(
        lines[0],
        format!(
            "{:<30} {:<40} {:<10} {:<20}",
            "NAME", "IMAGE", "STATE", "STATUS"
        )
    );
    assert_eq!(lines[1], "-".repeat(100));
    assert_eq!(
        lines[2],
        format!(
            "{:<30} {:<40} {:<10} {:<20}",
            "plex", "some-image:latest", "running", "Up 2 hours"
        )
    );
}

#[test]
fn render_container_list_truncates_wide_fields() {
    let mut c = sample_container("id-1", "a-container-name-well-beyond-the-column", ContainerState::Running);
    c.status = "a status line that runs past its column".to_string();
    let lines = render_container_list(vec![c], true);

    assert_eq!(lines.len(), 3);
    let row = &lines[2];
    assert!(row.starts_with("a-container-name-well-beyo..."));
    assert!(row.contains("a status line th..."));
}

#[test]
fn render_container_list_reports_an_empty_listing() {
    let exited = vec![sample_container("id-1", "a", ContainerState::Exited)];
    let lines = render_container_list(exited, false);
    assert_eq!(
        lines,
        vec!["No running containers found. Use --all to show all containers.".to_string()]
    );

    let lines_all = render_container_list(vec![], true);
    assert_eq!(lines_all, vec!["No containers found.".to_string()]);
}

#[test]
fn container_state_labels_match_the_protocol_words() {
    assert_eq!(ContainerState::Running.label(), "running");
    assert_eq!(ContainerState::Paused.label(), "paused");
    assert_eq!(ContainerState::Exited.label(), "exited");
    assert_eq!(
        ContainerState::Other("restarting".to_string()).label(),
        "restarting"
    );
}
