//! The workload of a service: the controller that keeps its pods running.

use crate::compose::{Service, ServiceView};
use crate::paths::{concat_string_path, join_path};
use crate::preferences::{PreferenceEntry, PreferenceView};
use crate::text::{decimal, lowercase, lowercase_of, parse_u8, same_text, texts};
use vstd::prelude::*;

verus! {

/// The kinds of controller that can be written.
#[derive(Clone, Copy, Debug, PartialEq, Eq, Structural)]
pub enum ControllerKind {
    Deployment,
    ReplicaSet,
    StatefulSet,
    DaemonSet,
}

/// The kind that the lowercase name `name` stands for. A name that is none
/// of the four stands for a deployment.
pub open spec fn kind_named(name: Seq<char>) -> ControllerKind {
    if name == "replicaset"@ {
        ControllerKind::ReplicaSet
    } else if name == "statefulset"@ {
        ControllerKind::StatefulSet
    } else if name == "daemonset"@ {
        ControllerKind::DaemonSet
    } else {
        ControllerKind::Deployment
    }
}

/// The kind that the name `name` stands for, whatever the case of its
/// letters. The empty name stands for a deployment.
pub open spec fn kind_of(name: Seq<char>) -> ControllerKind {
    if name.len() == 0 {
        ControllerKind::Deployment
    } else {
        kind_named(lowercase_of(name))
    }
}

/// The kind that an answer asks for; a deployment where there is no answer.
pub open spec fn controller_kind(controller: Option<Seq<char>>) -> ControllerKind {
    match controller {
        Some(name) => kind_of(name),
        None => ControllerKind::Deployment,
    }
}

/// The number of replicas that an answer asks for: the number it writes,
/// and three where there is no answer or it writes no number up to 255.
pub open spec fn replica_count(replicas: Option<Seq<char>>) -> u8 {
    match replicas {
        Some(text) => match decimal(text, 0xff) {
            Some(n) => n as u8,
            None => 3u8,
        },
        None => 3u8,
    }
}

impl ControllerKind {
    /// The kind of the lowercase name `controller`. There is always one:
    /// an unknown name gives a deployment.
    pub fn from_str(controller: &str) -> (r: Option<ControllerKind>)
        ensures
            r == Some(kind_named(controller@)),
    {
        if same_text(controller, "replicaset") {
            Some(ControllerKind::ReplicaSet)
        } else if same_text(controller, "statefulset") {
            Some(ControllerKind::StatefulSet)
        } else if same_text(controller, "daemonset") {
            Some(ControllerKind::DaemonSet)
        } else {
            Some(ControllerKind::Deployment)
        }
    }
}

/// The kind of controller that `controller` names, whatever the case of its
/// letters. The empty name, like any unknown one, gives a deployment.
pub fn parse_controller_kind(controller: &str) -> (r: ControllerKind)
    ensures
        r == kind_of(controller@),
        controller@.len() == 0 ==> r == ControllerKind::Deployment,
{
    if controller.is_empty() {
        return ControllerKind::Deployment;
    }
    let lowered: String = lowercase(controller);
    match ControllerKind::from_str(lowered.as_str()) {
        Some(kind) => kind,
        None => ControllerKind::Deployment,
    }
}

/// An answer whose lowercase form is none of the four known names, an
/// empty answer and no answer at all give a deployment.
pub proof fn lemma_unknown_controller_is_deployment(controller: Option<Seq<char>>)
    requires
        controller matches Some(name) ==> name.len() == 0 || {
            &&& lowercase_of(name) != "deployment"@
            &&& lowercase_of(name) != "replicaset"@
            &&& lowercase_of(name) != "statefulset"@
            &&& lowercase_of(name) != "daemonset"@
        },
    ensures
        controller_kind(controller) == ControllerKind::Deployment,
{
}

/// The name of the file that holds the controller of a service.
pub open spec fn controller_filename() -> Seq<char> {
    "controller.yaml"@
}

/// The name of the file that holds the service of a service.
pub open spec fn service_filename() -> Seq<char> {
    "service.yaml"@
}

/// The workload of one service.
#[derive(Clone, Debug, PartialEq, Eq)]
pub struct KubeContainer {
    pub controller_type: ControllerKind,
    pub name: String,
    pub image: String,
    pub replicas: u8,
    pub path: String,
    pub controller_path: String,
    pub service_path: String,
    pub commands: Vec<String>,
    pub labels: Vec<String>,
    pub environment: Vec<String>,
}

/// What a [`KubeContainer`] holds, as text and numbers.
pub ghost struct KubeContainerView {
    pub controller_type: ControllerKind,
    pub name: Seq<char>,
    pub image: Seq<char>,
    pub replicas: u8,
    pub path: Seq<char>,
    pub controller_path: Seq<char>,
    pub service_path: Seq<char>,
    pub commands: Seq<Seq<char>>,
    pub labels: Seq<Seq<char>>,
    pub environment: Seq<Seq<char>>,
}

impl View for KubeContainer {
    type V = KubeContainerView;

    open spec fn view(&self) -> KubeContainerView {
        KubeContainerView {
            controller_type: self.controller_type,
            name: self.name@,
            image: self.image@,
            replicas: self.replicas,
            path: self.path@,
            controller_path: self.controller_path@,
            service_path: self.service_path@,
            commands: texts(self.commands@),
            labels: texts(self.labels@),
            environment: texts(self.environment@),
        }
    }
}

/// The workload of `service` under the preferences `option`, with its
/// manifests in the directory `base_path`.
pub open spec fn container_of(
    service: ServiceView,
    option: PreferenceView,
    base_path: Seq<char>,
) -> KubeContainerView {
    KubeContainerView {
        controller_type: controller_kind(option.controller),
        name: service.name,
        image: service.image,
        replicas: replica_count(option.replicas),
        path: base_path,
        controller_path: join_path(base_path, controller_filename()),
        service_path: join_path(base_path, service_filename()),
        commands: service.commands,
        labels: service.labels,
        environment: service.environment,
    }
}

/// Makes the workload of `docker_service`: the kind of controller and the
/// number of replicas come from `option`, the rest from the service.
pub fn create_kube_struct(docker_service: Service, option: &PreferenceEntry, base_path: &str) -> (r:
    KubeContainer)
    ensures
        r@ == container_of(docker_service@, option@, base_path@),
{
    let controller_kind: ControllerKind = match &option.controller {
        Some(controller) => parse_controller_kind(controller.as_str()),
        None => ControllerKind::Deployment,
    };
    let replica_count: u8 = match &option.replicas {
        Some(replicas) => match parse_u8(replicas.as_str()) {
            Some(count) => count,
            None => 3,
        },
        None => 3,
    };
    let controller_path: String = concat_string_path(base_path, "controller.yaml");
    let service_path: String = concat_string_path(base_path, "service.yaml");
    KubeContainer {
        controller_type: controller_kind,
        name: docker_service.name,
        image: docker_service.image,
        replicas: replica_count,
        commands: docker_service.commands,
        labels: docker_service.labels,
        environment: docker_service.environment,
        path: base_path.to_owned(),
        controller_path,
        service_path,
    }
}

impl KubeContainer {
    /// The name and the image of the workload, each under its key and the
    /// keys in ascending order.
    pub fn get_tree_map(&self) -> (r: Vec<(&'static str, String)>)
        ensures
            r@.len() == 2,
            r@[0].0@ == "image"@ && r@[0].1@ == self.image@,
            r@[1].0@ == "name"@ && r@[1].1@ == self.name@,
    {
        let mut tree: Vec<(&'static str, String)> = Vec::new();
        tree.push(("image", self.image.clone()));
        tree.push(("name", self.name.clone()));
        tree
    }
}

} // verus!
