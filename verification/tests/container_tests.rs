use harbor_master::container::list::{parse_port_mapping, parse_state};
use harbor_master::container::remove::RemoveOptions;
use harbor_master::container::types::{ContainerListOptions, ContainerState};
use harbor_master::image::list::parse_repo_tag;
use harbor_master::image::prune::PruneImageOptions;
use harbor_master::image::remove::RemoveImageOptions;

#[test]
fn test_parse_port_mapping_with_host() {
    let mapping = "0.0.0.0:8080->80/tcp";
    let port = parse_port_mapping(mapping).unwrap();

    assert_eq!(port.host_ip, "0.0.0.0");
    assert_eq!(port.host_port, 8080);
    assert_eq!(port.container_port, 80);
    assert_eq!(port.protocol, "tcp");
}

#[test]
fn test_parse_port_mapping_without_host() {
    let mapping = "80/tcp";
    let port = parse_port_mapping(mapping).unwrap();

    assert_eq!(port.container_port, 80);
    assert_eq!(port.host_port, 0);
    assert_eq!(port.protocol, "tcp");
}

#[test]
fn test_parse_container_state() {
    assert!(matches!(parse_state("running"), ContainerState::Running));
    assert!(matches!(parse_state("exited"), ContainerState::Exited));
    assert!(matches!(parse_state("paused"), ContainerState::Paused));
}

#[test]
fn remove_test_remove_options_default() {
    let options = RemoveOptions::default();
    assert!(!options.force);
    assert!(!options.volumes);
}

#[test]
fn test_remove_options_default() {
    let options = RemoveImageOptions::default();
    assert!(!options.force);
    assert!(!options.no_prune);
}

#[test]
fn test_remove_options_with_force() {
    let options = RemoveImageOptions {
        force: true,
        no_prune: false,
    };
    assert!(options.force);
    assert!(!options.no_prune);
}

#[test]
fn test_container_state_display() {
    assert_eq!(ContainerState::Running.to_string(), "running");
    assert_eq!(ContainerState::Exited.to_string(), "exited");
    assert_eq!(ContainerState::Paused.to_string(), "paused");
}

#[test]
fn test_container_state_default() {
    assert_eq!(ContainerState::default(), ContainerState::Created);
}

#[test]
fn test_parse_repo_tag() {
    assert_eq!(
        parse_repo_tag("nginx:latest"),
        ("nginx".to_string(), "latest".to_string())
    );
    assert_eq!(
        parse_repo_tag("ubuntu:20.04"),
        ("ubuntu".to_string(), "20.04".to_string())
    );
    assert_eq!(
        parse_repo_tag("registry.example.com:5000/myapp:v1.0"),
        (
            "registry.example.com:5000/myapp".to_string(),
            "v1.0".to_string()
        )
    );
    assert_eq!(
        parse_repo_tag("alpine"),
        ("alpine".to_string(), "latest".to_string())
    );
}

#[test]
fn parse_repo_tag_edges() {
    assert_eq!(parse_repo_tag(""), ("".to_string(), "latest".to_string()));
    assert_eq!(parse_repo_tag(":"), ("".to_string(), "".to_string()));
    assert_eq!(parse_repo_tag("a:"), ("a".to_string(), "".to_string()));
    assert_eq!(parse_repo_tag(":b"), ("".to_string(), "b".to_string()));
    assert_eq!(parse_repo_tag("ré:ü"), ("ré".to_string(), "ü".to_string()));
}

#[test]
fn parse_port_mapping_forms() {
    let p = parse_port_mapping("8080->80").unwrap();
    assert_eq!(p.host_ip, "0.0.0.0");
    assert_eq!(p.host_port, 8080);
    assert_eq!(p.container_port, 80);
    assert_eq!(p.protocol, "tcp");

    let p = parse_port_mapping("127.0.0.1:53->53/udp").unwrap();
    assert_eq!(p.host_ip, "127.0.0.1");
    assert_eq!(p.host_port, 53);
    assert_eq!(p.protocol, "udp");

    // More than one colon: the address falls back, the last piece is the port.
    let p = parse_port_mapping("::1:443->443/tcp").unwrap();
    assert_eq!(p.host_ip, "0.0.0.0");
    assert_eq!(p.host_port, 443);

    let p = parse_port_mapping("65535").unwrap();
    assert_eq!(p.container_port, 65535);
    assert_eq!(p.host_port, 0);
    assert_eq!(p.host_ip, "");
    assert_eq!(p.protocol, "tcp");

    let p = parse_port_mapping("+80/sctp/x").unwrap();
    assert_eq!(p.container_port, 80);
    assert_eq!(p.protocol, "sctp");
}

#[test]
fn parse_port_mapping_rejects() {
    assert!(parse_port_mapping("").is_none());
    assert!(parse_port_mapping("65536/tcp").is_none());
    assert!(parse_port_mapping("abc->80/tcp").is_none());
    assert!(parse_port_mapping("8080->http/tcp").is_none());
    assert!(parse_port_mapping("1->2->3").is_none());
    assert!(parse_port_mapping("-80/tcp").is_none());
    assert!(parse_port_mapping("+/tcp").is_none());
    assert!(parse_port_mapping(" 80/tcp").is_none());
    assert!(parse_port_mapping("0.0.0.0:->80").is_none());
}

#[test]
fn parse_state_words() {
    assert_eq!(parse_state("created"), ContainerState::Created);
    assert_eq!(parse_state("Up"), ContainerState::Running);
    assert_eq!(parse_state("RUNNING"), ContainerState::Running);
    assert_eq!(parse_state("restarting"), ContainerState::Restarting);
    assert_eq!(parse_state("removing"), ContainerState::Removing);
    assert_eq!(parse_state("Stopped"), ContainerState::Exited);
    assert_eq!(parse_state("dead"), ContainerState::Dead);
    assert_eq!(parse_state("something else"), ContainerState::Created);
    assert_eq!(parse_state(""), ContainerState::Created);
    assert_eq!(parse_state(" running"), ContainerState::Created);
}

#[test]
fn container_state_names() {
    assert_eq!(ContainerState::Created.to_string(), "created");
    assert_eq!(ContainerState::Restarting.to_string(), "restarting");
    assert_eq!(ContainerState::Removing.to_string(), "removing");
    assert_eq!(ContainerState::Dead.to_string(), "dead");
}

#[test]
fn option_defaults() {
    let list = ContainerListOptions::default();
    assert!(!list.all);
    assert!(!list.size);
    assert!(list.limit.is_none());
    assert!(list.filters.is_none());
    assert!(!PruneImageOptions::default().all);
}

#[test]
fn label_map_keeps_the_later_pair() {
    let labels = harbor_master::container::list::label_map(vec![
        ("a".to_string(), "1".to_string()),
        ("b".to_string(), "2".to_string()),
        ("a".to_string(), "3".to_string()),
    ]);
    assert_eq!(labels.len(), 2);
    assert_eq!(labels.get("a"), Some(&"3".to_string()));
    assert_eq!(labels.get("b"), Some(&"2".to_string()));
    assert!(harbor_master::container::list::label_map(vec![]).is_empty());
}
