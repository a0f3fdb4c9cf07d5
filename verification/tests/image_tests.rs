use harbor_master::command::{check_run, RunOutcome};
use harbor_master::container::lifecycle::{command_args, command_result, LifecycleAction};
use harbor_master::container::list::{
    container_name, list_args, parse_container, parse_labels, parse_port_object, parse_ports,
    RawContainer, RawLabels, RawPort, RawPorts,
};
use harbor_master::container::types::ContainerState;
use harbor_master::container::remove::{prune_args, remove_args, summarize_removals, RemoveOptions};
use harbor_master::container::types::ContainerListOptions;
use harbor_master::image::list::{
    choose_reading, count_containers, image_containers, image_created, image_digest,
    image_name_to_id_map, image_repository_and_tag, normalize_timestamp, parse_image,
    pick_created, RawImage,
};
use harbor_master::image::prune::parse_prune_output;
use harbor_master::image::pull::{
    image_ref, parse_pull_line, update_layers, LayerProgress, PullImageOptions,
};
use harbor_master::image::remove::{ancestor_args, listed_ids, RemoveImageOptions};
use harbor_master::image::types::{format_bytes, Image};
use harbor_master::types::RuntimeType;

fn float_format(bytes: u64) -> String {
    let units = ["B", "KB", "MB", "GB", "TB"];
    if bytes == 0 {
        return "0 B".to_string();
    }
    let mut size = bytes as f64;
    let mut unit_index = 0;
    while size >= 1024.0 && unit_index < units.len() - 1 {
        size /= 1024.0;
        unit_index += 1;
    }
    if unit_index == 0 {
        format!("{} {}", bytes, units[unit_index])
    } else {
        format!("{:.1} {}", size, units[unit_index])
    }
}

fn float_bytes(number: &str, multiplier: u64) -> Option<u64> {
    let number: f64 = number.parse().ok()?;
    Some((number * multiplier as f64) as u64)
}

#[test]
fn test_format_bytes() {
    assert_eq!(format_bytes(0), "0 B");
    assert_eq!(format_bytes(512), "512 B");
    assert_eq!(format_bytes(1024), "1.0 KB");
    assert_eq!(format_bytes(1536), "1.5 KB");
    assert_eq!(format_bytes(1048576), "1.0 MB");
    assert_eq!(format_bytes(1073741824), "1.0 GB");
    assert_eq!(format_bytes(1099511627776), "1.0 TB");
}

#[test]
fn test_formatted_size() {
    let image = Image {
        id: "sha256:abc123".to_string(),
        repository: "nginx".to_string(),
        tag: "latest".to_string(),
        digest: None,
        size: 142857216,
        created: "2024-01-15T10:30:00Z".to_string(),
        containers: 0,
        labels: std::collections::HashMap::new(),
    };

    assert_eq!(image.formatted_size(), "136.2 MB");
}

#[test]
fn format_bytes_agrees_with_floating_point() {
    let mut samples: Vec<u64> = vec![
        0, 1, 9, 10, 1023, 1024, 1025, 1075, 1280, 1331, 1332, 1433, 1434, 1485, 1486, 1536,
        2047, 2048, 10188, 10189, 10240, 1048524, 1048525, 1048575, 1048576, 1048577,
        1073741823, 1073741824, 1099511627775, 1099511627776, 1154487209164, 1154487209165,
        142857216, u64::MAX, u64::MAX - 1, u64::MAX / 2, u64::MAX / 3,
        (1u64 << 53) - 1, 1u64 << 53, (1u64 << 53) + 1, (1u64 << 53) + 2, (1u64 << 53) + 3,
        (1u64 << 54) + 2, (1u64 << 54) + 6, (1u64 << 63) + 1024, (1u64 << 63) + 1025,
        (1u64 << 63) + 3072, 0xFFFF_FFFF_FFFF_FBFF, 0xFFFF_FFFF_FFFF_FC00, 0xFFFF_FFFF_FFFF_F800,
    ];
    // Exact ties at one decimal, in every unit.
    for k in [10u32, 20, 30, 40] {
        let unit = 1u64 << k;
        for n in 0..200u64 {
            samples.push(unit + n * unit / 20);
            samples.push(unit * 3 + n * unit / 40);
            samples.push(unit * 1023 + n * unit / 200);
        }
    }
    // A spread over the whole range.
    let mut x: u64 = 0x9E37_79B9_7F4A_7C15;
    for _ in 0..20_000 {
        x ^= x << 13;
        x ^= x >> 7;
        x ^= x << 17;
        samples.push(x);
        samples.push(x >> (x % 64));
    }
    for bytes in samples {
        assert_eq!(format_bytes(bytes), float_format(bytes), "for {}", bytes);
    }
}

#[test]
fn test_parse_pull_progress_pulling() {
    let line = "a1b2c3d4e5f6: Pulling fs layer";
    let progress = parse_pull_line(line).unwrap();
    assert_eq!(progress.id, "a1b2c3d4e5f6");
    assert_eq!(progress.status, "Pulling fs layer");
    assert!(progress.sizes.is_none());
}

#[test]
fn test_parse_pull_progress_downloading() {
    let line = "a1b2c3d4e5f6: Downloading [==>                ] 1.5MB/10MB";
    let progress = parse_pull_line(line).unwrap();
    assert_eq!(progress.id, "a1b2c3d4e5f6");
    assert_eq!(progress.status, "Downloading");
    let (current, total) = progress.sizes.unwrap();
    assert_eq!(current.number, "1.5");
    assert_eq!(current.multiplier, 1024 * 1024);
    assert_eq!(total.number, "10");
    assert_eq!(total.multiplier, 1024 * 1024);
    assert_eq!(float_bytes(&current.number, current.multiplier), Some(1_572_864));
    assert_eq!(float_bytes(&total.number, total.multiplier), Some(10_485_760));
}

#[test]
fn test_parse_pull_progress_complete() {
    let line = "a1b2c3d4e5f6: Pull complete";
    let progress = parse_pull_line(line).unwrap();
    assert_eq!(progress.id, "a1b2c3d4e5f6");
    assert_eq!(progress.status, "Pull complete");
}

#[test]
fn test_parse_pull_progress_invalid() {
    let line = "Status: Downloaded newer image";
    let progress = parse_pull_line(line);
    assert!(progress.is_none());
}

#[test]
fn pull_line_edges() {
    assert!(parse_pull_line("").is_none());
    assert!(parse_pull_line("a1b2c3d4e5f6 Pulling").is_none());
    assert!(parse_pull_line("a1b2c3d4e5f: Pulling").is_none());
    assert!(parse_pull_line("a1b2c3d4e5f6a: Pulling").is_none());
    assert!(parse_pull_line("g1b2c3d4e5f6: Pulling").is_none());
    let p = parse_pull_line("  A1B2C3D4E5F6  :  Waiting: for more  ").unwrap();
    assert_eq!(p.id, "A1B2C3D4E5F6");
    assert_eq!(p.status, "Waiting: for more");
    let p = parse_pull_line("a1b2c3d4e5f6: Extracting [=>  ]  32.77kB/1.2GB").unwrap();
    assert_eq!(p.status, "Extracting");
    let (current, total) = p.sizes.unwrap();
    assert_eq!((current.number.as_str(), current.multiplier), ("32.77", 1024));
    assert_eq!((total.number.as_str(), total.multiplier), ("1.2", 1024 * 1024 * 1024));
    let p = parse_pull_line("a1b2c3d4e5f6: Verifying [====] done").unwrap();
    assert_eq!(p.status, "Processing");
    assert!(p.sizes.is_none());
    // A bar that is not closed leaves the status as it is.
    let p = parse_pull_line("a1b2c3d4e5f6: Downloading [==> 1MB/2MB").unwrap();
    assert_eq!(p.status, "Downloading [==> 1MB/2MB");
    assert!(p.sizes.is_none());
    let p = parse_pull_line("a1b2c3d4e5f6: Downloading [=] 5 B / 7TB ] x").unwrap();
    let (current, total) = p.sizes.unwrap();
    assert_eq!((current.number.as_str(), current.multiplier), ("5", 1));
    assert_eq!((total.number.as_str(), total.multiplier), ("7", 1));
}

#[test]
fn test_parse_prune_output() {
    let output = r#"
Deleted Images:
deleted: sha256:abc123
deleted: sha256:def456
untagged: myimage:latest

Total reclaimed space: 1.2GB
"#;

    let result = parse_prune_output(output);
    assert_eq!(result.images_deleted, 3);
    let size = result.reclaimed.unwrap();
    assert_eq!(size.number, "1.2");
    assert_eq!(size.multiplier, 1024 * 1024 * 1024);
    assert_eq!(float_bytes(&size.number, size.multiplier), Some(1_288_490_188));
}

#[test]
fn test_parse_size_string() {
    let cases = [
        ("0B", 0u64),
        ("1KB", 1024),
        ("1.5KB", 1536),
        ("1MB", 1048576),
        ("1.2GB", 1_288_490_188),
        ("500MB", 524_288_000),
    ];
    for (text, bytes) in cases {
        let size = harbor_master::image::prune::parse_size_text(text);
        assert_eq!(float_bytes(&size.number, size.multiplier), Some(bytes), "for {}", text);
    }
}

#[test]
fn test_parse_size_to_bytes() {
    let cases = [
        ("1KB", 1024u64),
        ("1.5MB", 1_572_864),
        ("10MB", 10_485_760),
        ("1GB", 1_073_741_824),
    ];
    for (text, bytes) in cases {
        let size = harbor_master::image::pull::parse_size_text(text);
        assert_eq!(float_bytes(&size.number, size.multiplier), Some(bytes), "for {}", text);
    }
}

#[test]
fn size_text_lexing() {
    let size = harbor_master::image::prune::parse_size_text("  12.5 tb  ");
    assert_eq!((size.number.as_str(), size.multiplier), ("12.5", 1u64 << 40));
    // Digits after the first letter do not belong to the number.
    let size = harbor_master::image::prune::parse_size_text("1k2");
    assert_eq!((size.number.as_str(), size.multiplier), ("1", 1024));
    let size = harbor_master::image::prune::parse_size_text("3 x");
    assert_eq!((size.number.as_str(), size.multiplier), ("3", 1));
    let size = harbor_master::image::prune::parse_size_text("");
    assert_eq!((size.number.as_str(), size.multiplier), ("", 1));
    let size = harbor_master::image::prune::parse_size_text("7 kib");
    assert_eq!((size.number.as_str(), size.multiplier), ("7", 1));
    // The pull form takes every digit and has no terabytes.
    let size = harbor_master::image::pull::parse_size_text("1k2");
    assert_eq!((size.number.as_str(), size.multiplier), ("12", 1024));
    let size = harbor_master::image::pull::parse_size_text("2TB");
    assert_eq!((size.number.as_str(), size.multiplier), ("2", 1));
    let size = harbor_master::image::pull::parse_size_text(" 4 gb ");
    assert_eq!((size.number.as_str(), size.multiplier), ("4", 1u64 << 30));
    let size = harbor_master::image::pull::parse_size_text("4 g b");
    assert_eq!((size.number.as_str(), size.multiplier), ("4", 1));
    let size = harbor_master::image::pull::parse_size_text("4gb");
    assert_eq!((size.number.as_str(), size.multiplier), ("4", 1u64 << 30));
}

#[test]
fn prune_output_edges() {
    let empty = parse_prune_output("");
    assert_eq!(empty.images_deleted, 0);
    assert!(empty.reclaimed.is_none());
    let out = parse_prune_output("  deleted: a\r\nDeleted: b\nuntagged: c\nreclaimed 5MB\n");
    assert_eq!(out.images_deleted, 2);
    assert!(out.reclaimed.is_none());
    let out = parse_prune_output("reclaimed: 1KB\nTotal reclaimed space: 2 MB : more\nend");
    let size = out.reclaimed.unwrap();
    assert_eq!((size.number.as_str(), size.multiplier), ("2", 1024 * 1024));
}

#[test]
fn layers_are_updated_in_place() {
    let layer = |id: &str, status: &str, current: Option<u64>| LayerProgress {
        id: id.to_string(),
        status: status.to_string(),
        current,
        total: Some(10),
    };
    let mut layers: Vec<LayerProgress> = Vec::new();
    update_layers(&mut layers, layer("a", "Pulling", None));
    update_layers(&mut layers, layer("b", "Pulling", None));
    update_layers(&mut layers, layer("a", "Downloading", Some(3)));
    update_layers(&mut layers, layer("c", "Waiting", None));
    update_layers(&mut layers, layer("b", "Done", Some(10)));
    assert_eq!(layers.len(), 3);
    assert_eq!((layers[0].id.as_str(), layers[0].status.as_str()), ("a", "Downloading"));
    assert_eq!(layers[0].current, Some(3));
    assert_eq!((layers[1].id.as_str(), layers[1].status.as_str()), ("b", "Done"));
    assert_eq!((layers[2].id.as_str(), layers[2].status.as_str()), ("c", "Waiting"));
    let options = PullImageOptions {
        image_name: "docker.io/library/nginx".to_string(),
        tag: "1.21".to_string(),
        auth: None,
    };
    assert_eq!(image_ref(&options), "docker.io/library/nginx:1.21");
}

#[test]
fn timestamps_are_normalized() {
    assert_eq!(
        normalize_timestamp("2024-01-15T10:30:00Z"),
        Some("2024-01-15T10:30:00+00:00".to_string())
    );
    assert_eq!(
        normalize_timestamp("2024-01-15T12:30:00+02:00"),
        Some("2024-01-15T12:30:00+02:00".to_string())
    );
    assert_eq!(
        normalize_timestamp("2024-01-15 10:30:45 +0000 UTC"),
        Some("2024-01-15T10:30:45+00:00".to_string())
    );
    // Only the relaxed reading takes white space inside the date.
    assert_eq!(
        normalize_timestamp("2012-  12-12T12:  12:12Z"),
        Some("2012-12-12T12:12:12+00:00".to_string())
    );
    assert_eq!(normalize_timestamp("yesterday"), None);
    assert_eq!(normalize_timestamp(""), None);
    assert_eq!(
        image_created(&Some("2024-01-10T08:00:00Z".to_string())),
        "2024-01-10T08:00:00+00:00"
    );
    assert_eq!(image_created(&Some("3 weeks ago".to_string())), "3 weeks ago");
    assert_eq!(image_created(&None), "unknown");
    assert_eq!(pick_created(&None, Some("x".to_string())), "unknown");
    assert_eq!(pick_created(&Some("t".to_string()), Some("x".to_string())), "x");
    assert_eq!(pick_created(&Some("t".to_string()), None), "t");
    let a = Some("a".to_string());
    let b = Some("b".to_string());
    let c = Some("c".to_string());
    assert_eq!(choose_reading(a.clone(), b.clone(), c.clone()), a);
    assert_eq!(choose_reading(None, b.clone(), c.clone()), b);
    assert_eq!(choose_reading(None, None, c.clone()), c);
    assert_eq!(choose_reading(None, None, None), None);
}

#[test]
fn image_fields() {
    let none: Option<String> = None;
    assert_eq!(
        image_repository_and_tag(&Some(Some("ubuntu:20.04".to_string())), &none, &none),
        ("ubuntu".to_string(), "20.04".to_string())
    );
    assert_eq!(
        image_repository_and_tag(&Some(None), &Some("x".to_string()), &Some("y".to_string())),
        ("<none>".to_string(), "<none>".to_string())
    );
    assert_eq!(
        image_repository_and_tag(&None, &Some("nginx".to_string()), &none),
        ("nginx".to_string(), "<none>".to_string())
    );
    assert_eq!(image_digest(&Some("sha256:def456".to_string())), Some("sha256:def456".to_string()));
    assert_eq!(image_digest(&Some("<none>".to_string())), None);
    assert_eq!(image_digest(&Some(String::new())), None);
    assert_eq!(image_digest(&None), None);
    assert_eq!(harbor_master::image::list::list_args(), vec!["images", "--format", "json"]);
}

#[test]
fn container_list_helpers() {
    assert_eq!(container_name("/web,/web/db"), "web");
    assert_eq!(container_name("//a/b"), "a/b");
    assert_eq!(container_name(""), "");
    assert_eq!(container_name(",x"), "");
    let ports = parse_ports("0.0.0.0:8080->80/tcp, :::8080->80/tcp, 443/tcp,, nonsense");
    assert_eq!(ports.len(), 3);
    assert_eq!((ports[0].host_port, ports[0].container_port), (8080, 80));
    assert_eq!(ports[1].host_ip, "0.0.0.0");
    assert_eq!((ports[2].host_port, ports[2].container_port), (0, 443));
    assert!(parse_ports("").is_empty());
    assert_eq!(
        parse_labels("a=1,b,c=d=e,=x,y=,a=2"),
        vec![
            ("a".to_string(), "1".to_string()),
            ("".to_string(), "x".to_string()),
            ("y".to_string(), "".to_string()),
            ("a".to_string(), "2".to_string()),
        ]
    );
    assert!(parse_labels("").is_empty());
    let port = parse_port_object(Some(80), None, None, None).unwrap();
    assert_eq!((port.container_port, port.host_port), (80, 0));
    assert_eq!((port.protocol.as_str(), port.host_ip.as_str()), ("tcp", "0.0.0.0"));
    let port =
        parse_port_object(Some(65536 + 53), Some(70000), Some("udp".to_string()), Some("::".to_string()))
            .unwrap();
    assert_eq!((port.container_port, port.host_port), (53, 4464));
    assert_eq!((port.protocol.as_str(), port.host_ip.as_str()), ("udp", "::"));
    assert!(parse_port_object(None, Some(1), None, None).is_none());
    let all = ContainerListOptions { all: true, limit: None, size: true, filters: None };
    assert_eq!(list_args(&all), vec!["ps", "--all", "--size", "--format", "json"]);
    assert_eq!(list_args(&ContainerListOptions::default()), vec!["ps", "--format", "json"]);
}

#[test]
fn command_arguments() {
    assert_eq!(command_args(LifecycleAction::Start, "web", Some(5)), vec!["start", "web"]);
    assert_eq!(
        command_args(LifecycleAction::Stop, "web", Some(10)),
        vec!["stop", "--time", "10", "web"]
    );
    assert_eq!(command_args(LifecycleAction::Stop, "web", None), vec!["stop", "web"]);
    assert_eq!(
        command_args(LifecycleAction::Restart, "web", Some(0)),
        vec!["restart", "--time", "0", "web"]
    );
    assert_eq!(command_args(LifecycleAction::Pause, "web", None), vec!["pause", "web"]);
    assert_eq!(command_args(LifecycleAction::Unpause, "web", None), vec!["unpause", "web"]);
    assert_eq!(
        remove_args("web", RemoveOptions { force: true, volumes: true }),
        vec!["rm", "--force", "--volumes", "web"]
    );
    assert_eq!(remove_args("web", RemoveOptions::default()), vec!["rm", "web"]);
    assert_eq!(prune_args(), vec!["container", "prune", "--force", "--format", "json"]);
    assert_eq!(
        harbor_master::image::remove::remove_args(
            "sha256:abc",
            &RemoveImageOptions { force: false, no_prune: true }
        ),
        vec!["rmi", "--no-prune", "sha256:abc"]
    );
    assert_eq!(
        ancestor_args("nginx"),
        vec!["ps", "-a", "--filter", "ancestor=nginx", "--format", "{{.ID}}"]
    );
    assert_eq!(listed_ids("abc\r\n\ndef\n\r\nghi"), vec!["abc", "def", "ghi"]);
    assert_eq!(listed_ids("abc\r"), vec!["abc\r"]);
    assert!(listed_ids("").is_empty());
    assert!(listed_ids("\n\n").is_empty());
}

#[test]
fn command_outcomes() {
    let ok = RunOutcome::Exited {
        success: true,
        stdout: "out".to_string(),
        stderr: "warn".to_string(),
    };
    let bad = RunOutcome::Exited {
        success: false,
        stdout: "out".to_string(),
        stderr: "no such container".to_string(),
    };
    let gone = RunOutcome::SpawnFailed("No such file or directory".to_string());
    assert_eq!(
        check_run(RuntimeType::Docker, "ps", "Failed to list containers", &ok),
        Ok("out".to_string())
    );
    assert_eq!(
        check_run(RuntimeType::Docker, "ps", "Failed to list containers", &bad),
        Err("Failed to list containers: no such container".to_string())
    );
    assert_eq!(
        check_run(RuntimeType::Podman, "ps", "Failed to list containers", &gone),
        Err("Failed to execute Podman ps: No such file or directory".to_string())
    );
    assert_eq!(command_result(LifecycleAction::Start, RuntimeType::Docker, &ok), Ok(()));
    assert_eq!(
        command_result(LifecycleAction::Pause, RuntimeType::Docker, &bad),
        Err("Failed to pause container: no such container".to_string())
    );
    assert_eq!(
        command_result(LifecycleAction::Unpause, RuntimeType::Docker, &gone),
        Err("Failed to execute Docker unpause: No such file or directory".to_string())
    );
}

#[test]
fn removals_are_summed_up() {
    let all_good = vec![("a".to_string(), Ok(())), ("b".to_string(), Ok(()))];
    assert_eq!(
        summarize_removals("containers", &all_good),
        Ok(vec!["a".to_string(), "b".to_string()])
    );
    assert_eq!(summarize_removals("containers", &vec![]), Ok(vec![]));
    let mixed = vec![
        ("a".to_string(), Ok(())),
        ("b".to_string(), Err("in use".to_string())),
        ("c".to_string(), Ok(())),
        ("d".to_string(), Err("gone".to_string())),
    ];
    assert_eq!(
        summarize_removals("images", &mixed),
        Err("Failed to remove some images:\nb: in use\nd: gone".to_string())
    );
    let one = vec![("x".to_string(), Err("no".to_string()))];
    assert_eq!(
        summarize_removals("containers", &one),
        Err("Failed to remove some containers:\nx: no".to_string())
    );
}

#[test]
fn containers_are_counted_by_image() {
    let images = "nginx:latest\tsha256:aaaaaaaaaaaabbbb\n\
                  <none>:<none>\t sha256:cccc \n\
                  no tab here\n\
                  registry:5000/app:v1\tsha256:dddd\n\
                  nginx:old\tsha256:eeee\n";
    let names = image_name_to_id_map(images);
    let listing = "nginx:latest\tc1\nsha256:aaaaa\tc2\nnginx\tc3\nregistry\tc4\n\
                   \tc5\nunknown\tc6\n  sha256:cccc  \tc7\n<none>\tc8\nnginx:old\tc9\n";
    let counts = count_containers(listing, &names);
    // nginx:latest by its full name and by the twelve characters of its id.
    assert_eq!(image_containers("sha256:aaaaaaaaaaaabbbb", &counts, 0), 2);
    // The bare repository now names the later image.
    assert_eq!(image_containers("sha256:eeee", &counts, 0), 2);
    assert_eq!(image_containers("sha256:dddd", &counts, 0), 1);
    assert_eq!(image_containers("sha256:cccc", &counts, 0), 1);
    assert_eq!(image_containers("sha256:ffff", &counts, 7), 7);
    let none = count_containers("", &names);
    assert_eq!(image_containers("sha256:eeee", &none, 3), 3);
    let empty = image_name_to_id_map("");
    assert_eq!(image_containers("c1", &count_containers(listing, &empty), 0), 0);
}

fn json_text(value: &serde_json::Value) -> Option<String> {
    value.as_str().map(|s| s.to_string())
}

fn raw_image(json: &str) -> RawImage {
    let raw: serde_json::Value = serde_json::from_str(json).unwrap();
    RawImage {
        id: json_text(&raw["Id"]),
        id_alt: json_text(&raw["ID"]),
        repo_tags: raw["RepoTags"].as_array().map(|tags| tags.first().and_then(json_text)),
        repository: json_text(&raw["Repository"]),
        tag: json_text(&raw["Tag"]),
        digest: json_text(&raw["Digest"]),
        size: raw["Size"].as_u64(),
        virtual_size: raw["VirtualSize"].as_u64(),
        created_at: json_text(&raw["CreatedAt"]),
        containers: raw["Containers"].as_u64(),
        labels: match raw["Labels"].as_object() {
            Some(object) => RawLabels::Entries(
                object.iter().map(|(k, v)| (k.clone(), json_text(v))).collect(),
            ),
            None => RawLabels::Absent,
        },
    }
}

#[test]
fn test_parse_image_object_docker_format() {
    let json = r#"{
        "ID": "sha256:abc123",
        "Repository": "nginx",
        "Tag": "latest",
        "Digest": "sha256:def456",
        "Size": 142857216,
        "CreatedAt": "2024-01-15T10:30:00Z",
        "Containers": 2,
        "Labels": {
            "version": "1.0"
        }
    }"#;

    let image = parse_image(raw_image(json));

    assert_eq!(image.id, "sha256:abc123");
    assert_eq!(image.repository, "nginx");
    assert_eq!(image.tag, "latest");
    assert_eq!(image.digest, Some("sha256:def456".to_string()));
    assert_eq!(image.size, 142857216);
    assert_eq!(image.created, "2024-01-15T10:30:00+00:00"); // RFC3339 format
    assert_eq!(image.containers, 2);
    assert_eq!(image.labels.get("version"), Some(&"1.0".to_string()));
}

#[test]
fn test_parse_image_object_repo_tags_format() {
    let json = r#"{
        "Id": "sha256:xyz789",
        "RepoTags": ["ubuntu:20.04"],
        "Size": 73000000,
        "CreatedAt": "2024-01-10T08:00:00Z"
    }"#;

    let image = parse_image(raw_image(json));

    assert_eq!(image.id, "sha256:xyz789");
    assert_eq!(image.repository, "ubuntu");
    assert_eq!(image.tag, "20.04");
    assert_eq!(image.size, 73000000);
    assert_eq!(image.created, "2024-01-10T08:00:00+00:00"); // RFC3339 format
}

#[test]
fn test_parse_image_object_no_tags() {
    let json = r#"{
        "ID": "sha256:dangling123",
        "Repository": "<none>",
        "Tag": "<none>",
        "Size": 1000000,
        "CreatedAt": "2024-01-01T00:00:00Z"
    }"#;

    let image = parse_image(raw_image(json));

    assert_eq!(image.repository, "<none>");
    assert_eq!(image.tag, "<none>");
}

#[test]
fn image_record_fallbacks() {
    let image = parse_image(raw_image(
        r#"{"Id": "a", "ID": "b", "RepoTags": [], "VirtualSize": 9, "Digest": "<none>",
            "Containers": 4294967298, "Labels": {"x": 1, "y": "z"}}"#,
    ));
    assert_eq!(image.id, "a");
    assert_eq!((image.repository.as_str(), image.tag.as_str()), ("<none>", "<none>"));
    assert_eq!(image.size, 9);
    assert_eq!(image.digest, None);
    assert_eq!(image.created, "unknown");
    assert_eq!(image.containers, 2);
    assert_eq!(image.labels.len(), 1);
    assert_eq!(image.labels.get("y"), Some(&"z".to_string()));
    let bare = parse_image(raw_image("{}"));
    assert_eq!(bare.id, "");
    assert_eq!(bare.size, 0);
    assert_eq!(bare.containers, 0);
    assert!(bare.labels.is_empty());
}

fn empty_container() -> RawContainer {
    RawContainer {
        id: None,
        id_alt: None,
        names: None,
        image: None,
        image_id: None,
        command: None,
        created: None,
        created_at: None,
        state: None,
        status: None,
        ports: RawPorts::Absent,
        labels: RawLabels::Absent,
        size_rw: None,
        size_root_fs: None,
    }
}

#[test]
fn container_record_is_assembled() {
    let bare = parse_container(empty_container());
    assert_eq!(bare.id, "");
    assert_eq!(bare.name, "");
    assert_eq!(bare.created, 0);
    assert_eq!(bare.state, ContainerState::Created);
    assert!(bare.ports.is_empty());
    assert!(bare.labels.is_empty());
    assert!(bare.networks.is_empty());
    assert!(bare.mounts.is_empty());

    let full = parse_container(RawContainer {
        id: Some("abc".to_string()),
        id_alt: Some("other".to_string()),
        names: Some("/web,/web/db".to_string()),
        image: Some("nginx:latest".to_string()),
        image_id: Some("sha256:1".to_string()),
        command: Some("nginx -g".to_string()),
        created: None,
        created_at: Some(1234567890),
        state: Some("Up".to_string()),
        status: Some("Up 2 hours".to_string()),
        ports: RawPorts::Objects(vec![
            RawPort { private_port: Some(80), public_port: Some(8080), protocol: None, host_ip: None },
            RawPort { private_port: None, public_port: Some(1), protocol: None, host_ip: None },
            RawPort {
                private_port: Some(53),
                public_port: None,
                protocol: Some("udp".to_string()),
                host_ip: Some("::".to_string()),
            },
        ]),
        labels: RawLabels::Entries(vec![
            ("a".to_string(), Some("1".to_string())),
            ("b".to_string(), None),
            ("a".to_string(), Some("2".to_string())),
        ]),
        size_rw: Some(1024),
        size_root_fs: None,
    });
    assert_eq!(full.id, "abc");
    assert_eq!(full.name, "web");
    assert_eq!(full.image, "nginx:latest");
    assert_eq!(full.image_id, "sha256:1");
    assert_eq!(full.command, "nginx -g");
    assert_eq!(full.created, 1234567890);
    assert_eq!(full.state, ContainerState::Running);
    assert_eq!(full.status, "Up 2 hours");
    assert_eq!(full.ports.len(), 2);
    assert_eq!((full.ports[0].container_port, full.ports[0].host_port), (80, 8080));
    assert_eq!((full.ports[1].container_port, full.ports[1].host_port), (53, 0));
    assert_eq!(full.ports[1].protocol, "udp");
    assert_eq!(full.labels.len(), 1);
    assert_eq!(full.labels.get("a"), Some(&"2".to_string()));
    assert_eq!(full.size_rw, Some(1024));
    assert_eq!(full.size_root_fs, None);

    let mut texts = empty_container();
    texts.id_alt = Some("fallback".to_string());
    texts.created = Some(5);
    texts.created_at = Some(6);
    texts.ports = RawPorts::Text("0.0.0.0:8080->80/tcp, 443/tcp".to_string());
    texts.labels = RawLabels::Text("k=v,broken".to_string());
    let c = parse_container(texts);
    assert_eq!(c.id, "fallback");
    assert_eq!(c.created, 5);
    assert_eq!(c.ports.len(), 2);
    assert_eq!(c.labels.get("k"), Some(&"v".to_string()));
    assert_eq!(c.labels.len(), 1);
}
