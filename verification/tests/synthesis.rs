use capoomobi::compose::Service;
use capoomobi::kubernetes::builder::{
    get_basic_object, get_basic_objects, get_ingress_object, preferences_of, Kube, SynthesisError,
};
use capoomobi::kubernetes::container::{
    create_kube_struct, parse_controller_kind, ControllerKind, KubeContainer,
};
use capoomobi::kubernetes::ingress::{ConfigIngress, IngressBackend, KubeIngress};
use capoomobi::kubernetes::service::{
    get_ports, ConfigService, KubeService, ServiceType, SVC_SUFFIX,
};
use capoomobi::preferences::{PreferenceEntry, Preferences};

fn strings(items: &[&str]) -> Vec<String> {
    items.iter().map(|s| String::from(*s)).collect()
}

fn service(name: &str, image: &str, ports: &[&str]) -> Service {
    Service {
        name: String::from(name),
        image: String::from(image),
        commands: strings(&["run"]),
        ports: strings(ports),
        labels: strings(&["tier=front"]),
        environment: strings(&["MODE=prod"]),
        volumes: strings(&["./data:/data"]),
    }
}

fn answers(replicas: &str, kind: &str, nodeport: &str, controller: &str) -> PreferenceEntry {
    PreferenceEntry::new(
        String::from(replicas),
        String::from(kind),
        String::from(nodeport),
        String::from(controller),
    )
}

fn no_answers() -> PreferenceEntry {
    PreferenceEntry { replicas: None, service: None, nodeport: None, controller: None }
}

fn preferences(entries: Vec<(&str, PreferenceEntry)>) -> Preferences {
    let mut prefs = Preferences::new();
    for (name, entry) in entries {
        prefs.insert(String::from(name), entry);
    }
    prefs
}

fn replicas_for(answer: Option<&str>) -> u8 {
    let mut entry = no_answers();
    entry.replicas = answer.map(String::from);
    create_kube_struct(service("web", "nginx", &[]), &entry, "/srv/web").replicas
}

fn kind_for(answer: Option<&str>) -> ControllerKind {
    let mut entry = no_answers();
    entry.controller = answer.map(String::from);
    create_kube_struct(service("web", "nginx", &[]), &entry, "/srv/web").controller_type
}

#[test]
fn web_scenario_gives_a_stateful_set_and_a_node_port() {
    let models = vec![service("web", "nginx", &["30120:80"])];
    let prefs = preferences(vec![("web", answers("5", "NodePort", "30120", "statefulset"))]);
    let set = get_basic_objects(&models, &prefs, "/srv/kube");
    assert_eq!(set.skipped, Vec::new());
    assert_eq!(set.kubes.len(), 1);
    let kube = &set.kubes[0];
    assert_eq!(kube.ctrl.controller_type, ControllerKind::StatefulSet);
    assert_eq!(kube.ctrl.replicas, 5);
    let svc = kube.svc.as_ref().unwrap();
    assert_eq!(svc.name, "web-svc");
    assert_eq!(svc.svc_port, 30120);
    assert_eq!(svc.target_port, 80);
    assert_eq!(svc.nodeport, 30120);
    assert_eq!(svc.service_type, ServiceType::NodePort);
}

#[test]
fn resources_hold_every_field() {
    let models = vec![service("web", "nginx", &["8080:80", "443:443"])];
    let prefs = preferences(vec![("web", answers("2", "LoadBalancer", "N", "DaemonSet"))]);
    let set = get_basic_objects(&models, &prefs, "/srv/kube");
    let expected = Kube {
        ctrl: KubeContainer {
            controller_type: ControllerKind::DaemonSet,
            name: String::from("web"),
            image: String::from("nginx"),
            replicas: 2,
            path: String::from("/srv/kube/web"),
            controller_path: String::from("/srv/kube/web/controller.yaml"),
            service_path: String::from("/srv/kube/web/service.yaml"),
            commands: strings(&["run"]),
            labels: strings(&["tier=front"]),
            environment: strings(&["MODE=prod"]),
        },
        svc: Some(KubeService {
            path: String::from("/srv/kube/web/service.yaml"),
            name: String::from("web-svc"),
            svc_port: 8080,
            target_port: 80,
            service_type: ServiceType::LoadBalancer,
            labels: strings(&["tier=front"]),
            nodeport: 0,
        }),
        project_path: String::from("/srv/kube/web"),
    };
    assert_eq!(set.kubes, vec![expected]);
}

#[test]
fn no_port_gives_no_service() {
    let models = vec![service("job", "busybox", &[]), service("web", "nginx", &["80:80"])];
    let prefs = preferences(vec![
        ("job", answers("1", "NodePort", "30000", "deployment")),
        ("web", answers("1", "NodePort", "30000", "deployment")),
    ]);
    let set = get_basic_objects(&models, &prefs, "/srv/kube");
    assert_eq!(set.kubes.len(), 2);
    assert_eq!(set.kubes[0].ctrl.name, "job");
    assert_eq!(set.kubes[0].svc, None);
    assert!(set.kubes[1].svc.is_some());
    let config = ConfigService { kind: ServiceType::NodePort, nodeport: 30000 };
    assert_eq!(KubeService::new(service("job", "busybox", &[]), &config, "/srv/job"), None);
}

#[test]
fn replicas_default_to_three() {
    assert_eq!(replicas_for(None), 3);
    assert_eq!(replicas_for(Some("")), 3);
    assert_eq!(replicas_for(Some("many")), 3);
    assert_eq!(replicas_for(Some("5 ")), 3);
    assert_eq!(replicas_for(Some("-1")), 3);
    assert_eq!(replicas_for(Some("2.5")), 3);
    assert_eq!(replicas_for(Some("+")), 3);
    assert_eq!(replicas_for(Some("256")), 3);
    assert_eq!(replicas_for(Some("1000")), 3);
}

#[test]
fn replicas_are_read_as_a_number() {
    assert_eq!(replicas_for(Some("0")), 0);
    assert_eq!(replicas_for(Some("1")), 1);
    assert_eq!(replicas_for(Some("5")), 5);
    assert_eq!(replicas_for(Some("+7")), 7);
    assert_eq!(replicas_for(Some("012")), 12);
    assert_eq!(replicas_for(Some("255")), 255);
}

#[test]
fn controller_kind_ignores_case() {
    assert_eq!(parse_controller_kind("deployment"), ControllerKind::Deployment);
    assert_eq!(parse_controller_kind("Deployment"), ControllerKind::Deployment);
    assert_eq!(parse_controller_kind("replicaset"), ControllerKind::ReplicaSet);
    assert_eq!(parse_controller_kind("ReplicaSet"), ControllerKind::ReplicaSet);
    assert_eq!(parse_controller_kind("STATEFULSET"), ControllerKind::StatefulSet);
    assert_eq!(parse_controller_kind("StatefulSet"), ControllerKind::StatefulSet);
    assert_eq!(parse_controller_kind("daemonSet"), ControllerKind::DaemonSet);
    assert_eq!(kind_for(Some("DaemonSet")), ControllerKind::DaemonSet);
}

#[test]
fn unknown_controller_kind_is_a_deployment() {
    for name in vec!["", "pod", "job", "cronjob", "stateful set", "statefulset ", "daemon-set", "N"] {
        assert_eq!(parse_controller_kind(name), ControllerKind::Deployment, "kind {:?}", name);
        assert_eq!(kind_for(Some(name)), ControllerKind::Deployment, "kind {:?}", name);
    }
    assert_eq!(kind_for(None), ControllerKind::Deployment);
}

#[test]
fn lowercase_name_is_matched_letter_for_letter() {
    assert_eq!(ControllerKind::from_str("statefulset"), Some(ControllerKind::StatefulSet));
    assert_eq!(ControllerKind::from_str("replicaset"), Some(ControllerKind::ReplicaSet));
    assert_eq!(ControllerKind::from_str("daemonset"), Some(ControllerKind::DaemonSet));
    assert_eq!(ControllerKind::from_str("deployment"), Some(ControllerKind::Deployment));
    assert_eq!(ControllerKind::from_str("StatefulSet"), Some(ControllerKind::Deployment));
    assert_eq!(ControllerKind::from_str(""), Some(ControllerKind::Deployment));
}

#[test]
fn port_mapping_is_read_field_by_field() {
    assert_eq!(get_ports(&String::from("8080:80")), vec![8080, 80]);
    assert_eq!(get_ports(&String::from("8080")), vec![8080]);
    assert_eq!(get_ports(&String::from("")), vec![0]);
    assert_eq!(get_ports(&String::from(":")), vec![0, 0]);
    assert_eq!(get_ports(&String::from("http:80")), vec![0, 80]);
    assert_eq!(get_ports(&String::from("8080:http")), vec![8080, 0]);
    assert_eq!(get_ports(&String::from("65535:65536")), vec![65535, 0]);
    assert_eq!(get_ports(&String::from("1:2:3")), vec![1, 2]);
    assert_eq!(get_ports(&String::from("127.0.0.1:8080:80")), vec![0, 8080]);
    assert_eq!(get_ports(&String::from("1:2:")), vec![1, 2]);
    assert_eq!(get_ports(&String::from("::")), vec![0, 0]);
    assert_eq!(get_ports(&String::from("1::3")), vec![1, 0]);
    assert_eq!(get_ports(&String::from("80:80/udp")), vec![80, 0]);
}

#[test]
fn ports_come_from_the_first_mapping() {
    let config = ConfigService { kind: ServiceType::ClusterIP, nodeport: 0 };
    let svc = KubeService::new(service("web", "nginx", &["8080:80"]), &config, "/srv/web").unwrap();
    assert_eq!(svc.svc_port, 8080);
    assert_eq!(svc.target_port, 80);
    let svc =
        KubeService::new(service("web", "nginx", &["1:2", "3:4"]), &config, "/srv/web").unwrap();
    assert_eq!((svc.svc_port, svc.target_port), (1, 2));
    let svc = KubeService::new(service("web", "nginx", &["1:2:3"]), &config, "/srv/web").unwrap();
    assert_eq!((svc.svc_port, svc.target_port), (1, 2));
}

#[test]
fn unreadable_ports_are_zero() {
    let config = ConfigService { kind: ServiceType::ClusterIP, nodeport: 0 };
    let svc = KubeService::new(service("web", "nginx", &["8080"]), &config, "/srv/web").unwrap();
    assert_eq!((svc.svc_port, svc.target_port), (8080, 0));
    let svc = KubeService::new(service("web", "nginx", &[""]), &config, "/srv/web").unwrap();
    assert_eq!((svc.svc_port, svc.target_port), (0, 0));
    let svc = KubeService::new(service("web", "nginx", &["http:70000"]), &config, "").unwrap();
    assert_eq!((svc.svc_port, svc.target_port), (0, 0));
    assert_eq!(svc.path, "service.yaml");
}

#[test]
fn service_takes_name_labels_and_path() {
    let config = ConfigService { kind: ServiceType::NodePort, nodeport: 31000 };
    let svc = KubeService::new(service("web", "nginx", &["80:80"]), &config, "/srv/web").unwrap();
    assert_eq!(SVC_SUFFIX, "-svc");
    assert_eq!(svc.name, "web-svc");
    assert_eq!(svc.labels, strings(&["tier=front"]));
    assert_eq!(svc.path, "/srv/web/service.yaml");
    assert_eq!(svc.service_type, ServiceType::NodePort);
    assert_eq!(svc.nodeport, 31000);
}

#[test]
fn service_kind_is_named_letter_for_letter() {
    assert_eq!(ServiceType::from_str("ClusterIP"), Some(ServiceType::ClusterIP));
    assert_eq!(ServiceType::from_str("NodePort"), Some(ServiceType::NodePort));
    assert_eq!(ServiceType::from_str("LoadBalancer"), Some(ServiceType::LoadBalancer));
    assert_eq!(ServiceType::from_str("nodeport"), None);
    assert_eq!(ServiceType::from_str(""), None);
    assert_eq!(ServiceType::from_str("ExternalName"), None);
}

#[test]
fn service_preferences_are_read_with_defaults() {
    let config = ConfigService::from_preference(&answers("1", "NodePort", "30120", "deployment"));
    assert_eq!(config, ConfigService { kind: ServiceType::NodePort, nodeport: 30120 });
    let config = ConfigService::from_preference(&answers("1", "LoadBalancer", "N", "deployment"));
    assert_eq!(config, ConfigService { kind: ServiceType::LoadBalancer, nodeport: 0 });
    let config = ConfigService::from_preference(&answers("1", "nodeport", "70000", "deployment"));
    assert_eq!(config, ConfigService { kind: ServiceType::ClusterIP, nodeport: 0 });
    let config = ConfigService::from_preference(&answers("1", "", "", ""));
    assert_eq!(config, ConfigService { kind: ServiceType::ClusterIP, nodeport: 0 });
    let config = ConfigService::from_preference(&no_answers());
    assert_eq!(config, ConfigService { kind: ServiceType::ClusterIP, nodeport: 0 });
}

#[test]
fn workload_takes_the_fields_of_its_service() {
    let ctrl = create_kube_struct(
        service("web", "nginx", &["80:80"]),
        &answers("4", "NodePort", "N", "ReplicaSet"),
        "/srv/kube/web",
    );
    assert_eq!(ctrl.controller_type, ControllerKind::ReplicaSet);
    assert_eq!(ctrl.name, "web");
    assert_eq!(ctrl.image, "nginx");
    assert_eq!(ctrl.replicas, 4);
    assert_eq!(ctrl.path, "/srv/kube/web");
    assert_eq!(ctrl.controller_path, "/srv/kube/web/controller.yaml");
    assert_eq!(ctrl.service_path, "/srv/kube/web/service.yaml");
    assert_eq!(ctrl.commands, strings(&["run"]));
    assert_eq!(ctrl.labels, strings(&["tier=front"]));
    assert_eq!(ctrl.environment, strings(&["MODE=prod"]));
    let tree = ctrl.get_tree_map();
    assert_eq!(tree, vec![("image", String::from("nginx")), ("name", String::from("web"))]);
}

#[test]
fn service_without_preferences_is_left_out() {
    let models = vec![
        service("web", "nginx", &["80:80"]),
        service("db", "postgres", &[]),
        service("cache", "redis", &[]),
        service("queue", "rabbitmq", &[]),
    ];
    let prefs = preferences(vec![("cache", no_answers()), ("web", no_answers())]);
    let set = get_basic_objects(&models, &prefs, "/srv/kube");
    let names: Vec<&str> = set.kubes.iter().map(|k| k.ctrl.name.as_str()).collect();
    assert_eq!(names, vec!["web", "cache"]);
    assert_eq!(
        set.skipped,
        vec![
            SynthesisError::MissingPreferences(String::from("db")),
            SynthesisError::MissingPreferences(String::from("queue")),
        ]
    );
}

#[test]
fn no_service_gives_no_resource() {
    let prefs = preferences(vec![("web", no_answers())]);
    let set = get_basic_objects(&Vec::new(), &prefs, "/srv/kube");
    assert_eq!(set.kubes, Vec::new());
    assert_eq!(set.skipped, Vec::new());
    let set = get_basic_objects(&Vec::new(), &Preferences::new(), "");
    assert_eq!(set.kubes, Vec::new());
    assert_eq!(set.skipped, Vec::new());
}

#[test]
fn same_inputs_give_equal_resources() {
    let models = vec![
        service("web", "nginx", &["30120:80"]),
        service("db", "postgres", &["5432"]),
        service("job", "busybox", &[]),
    ];
    let prefs = preferences(vec![
        ("web", answers("5", "NodePort", "30120", "statefulset")),
        ("db", answers("x", "ClusterIP", "N", "Deployment")),
    ]);
    let first = get_basic_objects(&models, &prefs, "/srv/kube");
    let second = get_basic_objects(&models, &prefs, "/srv/kube");
    assert_eq!(first, second);
    assert_eq!(first.kubes.len(), 2);
    assert_eq!(first.skipped.len(), 1);
}

#[test]
fn later_preferences_replace_earlier_ones() {
    let mut prefs = Preferences::new();
    assert!(prefs.get("web").is_none());
    prefs.insert(String::from("web"), answers("1", "ClusterIP", "N", "deployment"));
    prefs.insert(String::from("db"), answers("2", "ClusterIP", "N", "deployment"));
    prefs.insert(String::from("web"), answers("9", "NodePort", "31000", "daemonset"));
    assert_eq!(prefs.get("web"), Some(&answers("9", "NodePort", "31000", "daemonset")));
    assert_eq!(prefs.get("db"), Some(&answers("2", "ClusterIP", "N", "deployment")));
    assert_eq!(prefs.get("Web"), None);
    assert_eq!(prefs.get(""), None);
    let set = get_basic_objects(&vec![service("web", "nginx", &[])], &prefs, "/srv");
    assert_eq!(set.kubes[0].ctrl.replicas, 9);
    assert_eq!(set.kubes[0].ctrl.controller_type, ControllerKind::DaemonSet);
}

#[test]
fn manifests_go_below_the_project_root() {
    let models = vec![service("web", "nginx", &["80:80"])];
    let prefs = preferences(vec![("web", no_answers())]);
    let set = get_basic_objects(&models, &prefs, "/srv/kube/");
    assert_eq!(set.kubes[0].project_path, "/srv/kube/web");
    let set = get_basic_objects(&models, &prefs, "");
    assert_eq!(set.kubes[0].project_path, "web");
    assert_eq!(set.kubes[0].ctrl.controller_path, "web/controller.yaml");
    assert_eq!(set.kubes[0].svc.as_ref().unwrap().path, "web/service.yaml");
}

#[test]
fn ingress_is_made_only_where_it_is_asked_for() {
    let models = vec![
        service("web", "nginx", &["8080:80"]),
        service("job", "busybox", &[]),
        service("api", "node", &["3000", "9229:9229"]),
    ];
    assert_eq!(get_ingress_object(&models, None), None);
    let conf = ConfigIngress { name: String::from("front"), host: String::from("shop.local") };
    let expected = KubeIngress {
        name: String::from("front"),
        host: String::from("shop.local"),
        backends: vec![
            IngressBackend { service: String::from("web-svc"), port: 8080 },
            IngressBackend { service: String::from("api-svc"), port: 3000 },
        ],
    };
    assert_eq!(get_ingress_object(&models, Some(conf.clone())), Some(expected));
    assert_eq!(KubeIngress::new(&Vec::new(), conf).backends, Vec::new());
}

#[test]
fn missing_preferences_name_their_service() {
    let prefs = preferences(vec![("web", answers("1", "ClusterIP", "N", "deployment"))]);
    assert_eq!(preferences_of(&prefs, "web"), Ok(&answers("1", "ClusterIP", "N", "deployment")));
    assert_eq!(
        preferences_of(&prefs, "db"),
        Err(SynthesisError::MissingPreferences(String::from("db")))
    );
    assert_eq!(
        get_basic_object(&service("db", "postgres", &["5432:5432"]), &prefs, "/srv"),
        Err(SynthesisError::MissingPreferences(String::from("db")))
    );
    let kube = get_basic_object(&service("web", "nginx", &["80:8080"]), &prefs, "/srv").unwrap();
    assert_eq!(kube.project_path, "/srv/web");
    assert_eq!(kube.ctrl.replicas, 1);
    assert_eq!(kube.svc.unwrap().target_port, 8080);
}

#[test]
fn written_port_mapping_is_read_back() {
    let ports: Vec<u16> = vec![0, 1, 9, 10, 80, 99, 100, 443, 8080, 30120, 65534, 65535];
    for host in ports.iter() {
        for container in ports.iter() {
            let mapping = format!("{}:{}", host, container);
            assert_eq!(get_ports(&mapping), vec![*host, *container], "reading {:?}", mapping);
        }
    }
}

#[test]
fn at_most_two_ports_are_read() {
    let mappings = vec![
        "", "80", "80:80", "1:2:3", "1:2:3:4:5", ":", "::", ":::::::", "a:b:c", "8080:80/tcp",
        "0.0.0.0:8080:80", "[::1]:8080:80",
    ];
    for mapping in mappings {
        let ports = get_ports(&String::from(mapping));
        assert!(ports.len() >= 1 && ports.len() <= 2, "reading {:?}", mapping);
        let fields: Vec<u16> =
            mapping.split(':').take(2).map(|f| f.parse::<u16>().unwrap_or(0)).collect();
        assert_eq!(ports, fields, "reading {:?}", mapping);
    }
}
