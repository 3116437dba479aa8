//! The service of a workload: how its first published port is reached.

use crate::compose::{Service, ServiceView};
use crate::kubernetes::container::service_filename;
use crate::paths::{concat_string_path, join_path};
use crate::preferences::{PreferenceEntry, PreferenceView};
use crate::text::{
    decimal,
    decimal_text,
    joined,
    lemma_decimal_text_reads_back,
    lemma_split_nonempty,
    lemma_split_pair,
    parse_u16,
    same_text,
    split,
    split_text,
    texts,
};
use vstd::prelude::*;

verus! {

/// The kinds of service that can be written.
#[derive(Clone, Copy, Debug, PartialEq, Eq, Structural)]
pub enum ServiceType {
    ClusterIP,
    NodePort,
    LoadBalancer,
}

/// The kind that `name` names, letter for letter.
pub open spec fn service_type_named(name: Seq<char>) -> Option<ServiceType> {
    if name == "ClusterIP"@ {
        Some(ServiceType::ClusterIP)
    } else if name == "NodePort"@ {
        Some(ServiceType::NodePort)
    } else if name == "LoadBalancer"@ {
        Some(ServiceType::LoadBalancer)
    } else {
        None
    }
}

/// The port that a text writes: the number, or zero where the text writes
/// no number up to 65535.
pub open spec fn port_number(text: Seq<char>) -> u16 {
    match decimal(text, 0xffff) {
        Some(n) => n as u16,
        None => 0u16,
    }
}

/// The fields of a mapping such as `8080:80` that are read: the first two
/// that the colons part, or the one field where there is no colon.
pub open spec fn port_fields(ports: Seq<char>) -> Seq<Seq<char>> {
    let fields = split(ports, ':');
    if fields.len() > 2 {
        fields.take(2)
    } else {
        fields
    }
}

/// The ports that a mapping such as `8080:80` writes: one for each of its
/// first two fields.
pub open spec fn port_numbers(ports: Seq<char>) -> Seq<u16> {
    port_fields(ports).map_values(|field: Seq<char>| port_number(field))
}

/// A mapping that is written from two ports is read back as the two.
pub proof fn lemma_port_mapping_reads_back(host: u16, container: u16)
    ensures
        port_numbers(decimal_text(host as nat) + seq![':'] + decimal_text(container as nat)) == seq![
            host,
            container,
        ],
{
    let a = decimal_text(host as nat);
    let b = decimal_text(container as nat);
    lemma_decimal_text_reads_back(host as nat, 0xffff);
    lemma_decimal_text_reads_back(container as nat, 0xffff);
    lemma_split_pair(a, b, ':');
    assert(port_numbers(a + seq![':'] + b) =~= seq![host, container]);
}

impl ServiceType {
    /// The kind that `name` names, if it names one.
    pub fn from_str(name: &str) -> (r: Option<ServiceType>)
        ensures
            r == service_type_named(name@),
    {
        if same_text(name, "ClusterIP") {
            Some(ServiceType::ClusterIP)
        } else if same_text(name, "NodePort") {
            Some(ServiceType::NodePort)
        } else if same_text(name, "LoadBalancer") {
            Some(ServiceType::LoadBalancer)
        } else {
            None
        }
    }
}

/// How the service of a workload is to be exposed.
#[derive(Clone, Copy, Debug, PartialEq, Eq, Structural)]
pub struct ConfigService {
    pub kind: ServiceType,
    /// The node port; zero where none is set.
    pub nodeport: u16,
}

/// The exposure that the answers `option` ask for. An answer that names no
/// kind of service, and no answer, give a cluster IP. The node port is the
/// number that was answered, and zero for any other answer or none.
pub open spec fn service_config(option: PreferenceView) -> ConfigService {
    ConfigService {
        kind: match option.service {
            Some(name) => match service_type_named(name) {
                Some(kind) => kind,
                None => ServiceType::ClusterIP,
            },
            None => ServiceType::ClusterIP,
        },
        nodeport: match option.nodeport {
            Some(text) => port_number(text),
            None => 0u16,
        },
    }
}

impl ConfigService {
    /// Reads the kind of service and the node port from the answers.
    pub fn from_preference(option: &PreferenceEntry) -> (r: ConfigService)
        ensures
            r == service_config(option@),
    {
        let kind: ServiceType = match &option.service {
            Some(name) => match ServiceType::from_str(name.as_str()) {
                Some(kind) => kind,
                None => ServiceType::ClusterIP,
            },
            None => ServiceType::ClusterIP,
        };
        let nodeport: u16 = match &option.nodeport {
            Some(text) => match parse_u16(text.as_str()) {
                Some(port) => port,
                None => 0,
            },
            None => 0,
        };
        ConfigService { kind, nodeport }
    }
}

/// The ports of a mapping such as `8080:80`: one for each of the first two
/// fields between colons, so one or two. A field that writes no port gives
/// zero; what follows a second colon is not read.
pub fn get_ports(ports: &String) -> (r: Vec<u16>)
    ensures
        r@ == port_numbers(ports@),
        1 <= r@.len() <= 2,
{
    let fields: Vec<String> = split_text(ports.as_str(), ':');
    proof {
        lemma_split_nonempty(ports@, ':');
    }
    let mut mapped_ports: Vec<u16> = Vec::new();
    let mut i: usize = 0;
    while i < fields.len() && i < 2
        invariant
            i <= fields.len(),
            i <= 2,
            mapped_ports@.len() == i,
            texts(fields@) == split(ports@, ':'),
            i <= port_fields(ports@).len(),
            forall|j: int| 0 <= j < i ==> mapped_ports@[j] == port_numbers(ports@)[j],
        decreases fields.len() - i,
    {
        assert(texts(fields@)[i as int] == fields@[i as int]@);
        assert(port_fields(ports@)[i as int] == split(ports@, ':')[i as int]);
        let port: u16 = match parse_u16(fields[i].as_str()) {
            Some(port) => port,
            None => 0,
        };
        mapped_ports.push(port);
        i = i + 1;
    }
    assert(mapped_ports@ =~= port_numbers(ports@));
    mapped_ports
}

/// What is added to the name of a workload to name its service.
pub const SVC_SUFFIX: &'static str = "-svc";

/// The service of one workload.
#[derive(Clone, Debug, PartialEq, Eq)]
pub struct KubeService {
    pub path: String,
    pub name: String,
    pub svc_port: u16,
    pub target_port: u16,
    pub service_type: ServiceType,
    pub labels: Vec<String>,
    pub nodeport: u16,
}

/// What a [`KubeService`] holds, as text and numbers.
pub ghost struct KubeServiceView {
    pub path: Seq<char>,
    pub name: Seq<char>,
    pub svc_port: u16,
    pub target_port: u16,
    pub service_type: ServiceType,
    pub labels: Seq<Seq<char>>,
    pub nodeport: u16,
}

impl View for KubeService {
    type V = KubeServiceView;

    open spec fn view(&self) -> KubeServiceView {
        KubeServiceView {
            path: self.path@,
            name: self.name@,
            svc_port: self.svc_port,
            target_port: self.target_port,
            service_type: self.service_type,
            labels: texts(self.labels@),
            nodeport: self.nodeport,
        }
    }
}

/// The service of `dk`, exposed as `option` says, with its manifest in the
/// directory `kube_path`: none where `dk` publishes no port. The ports are
/// the first two of the first mapping of `dk`; the target port is zero
/// where that mapping has one field only.
pub open spec fn service_of_workload(
    dk: ServiceView,
    option: ConfigService,
    kube_path: Seq<char>,
) -> Option<KubeServiceView> {
    if dk.ports.len() == 0 {
        None
    } else {
        let mapped = port_numbers(dk.ports[0]);
        Some(
            KubeServiceView {
                path: join_path(kube_path, service_filename()),
                name: dk.name + SVC_SUFFIX@,
                svc_port: mapped[0],
                target_port: if mapped.len() > 1 {
                    mapped[1]
                } else {
                    0u16
                },
                service_type: option.kind,
                labels: dk.labels,
                nodeport: option.nodeport,
            },
        )
    }
}

impl KubeService {
    /// Makes the service of `dk`, if `dk` publishes a port.
    pub fn new(dk: Service, option: &ConfigService, kube_path: &str) -> (r: Option<KubeService>)
        ensures
            r matches Some(svc) ==> service_of_workload(dk@, *option, kube_path@) == Some(svc@),
            r is None ==> service_of_workload(dk@, *option, kube_path@) is None,
            r is None <==> dk.ports@.len() == 0,
    {
        let svc_path: String = concat_string_path(kube_path, "service.yaml");
        let svc_name: String = joined(dk.name.as_str(), SVC_SUFFIX);
        if dk.ports.len() == 0 {
            return None;
        }
        assert(texts(dk.ports@)[0] == dk.ports@[0]@);
        let mapped_ports: Vec<u16> = get_ports(&dk.ports[0]);
        let target_port: u16 = if mapped_ports.len() > 1 {
            mapped_ports[1]
        } else {
            0
        };
        let svc = KubeService {
            name: svc_name,
            svc_port: mapped_ports[0],
            target_port,
            service_type: option.kind,
            labels: dk.labels,
            nodeport: option.nodeport,
            path: svc_path,
        };
        Some(svc)
    }
}

} // verus!
