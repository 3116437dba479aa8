//! Builds the resources of a run: for each service its workload and, where
//! it publishes a port, its service; for the run as a whole the ingress.

use crate::compose::{service_views, Service, ServiceView};
use crate::kubernetes::container::{
    container_of,
    create_kube_struct,
    KubeContainer,
    KubeContainerView,
};
use crate::kubernetes::ingress::{ingress_of, ConfigIngress, KubeIngress};
use crate::kubernetes::service::{
    service_config,
    service_of_workload,
    ConfigService,
    KubeService,
    KubeServiceView,
};
use crate::paths::{get_object_path, join_path};
use crate::preferences::{PreferenceEntry, PreferenceView, Preferences};
use crate::text::is_numeric;
use vstd::prelude::*;

verus! {

/// The resources of one service: its workload, its service if it has one,
/// and the directory of its manifests.
#[derive(Clone, Debug, PartialEq, Eq)]
pub struct Kube {
    pub ctrl: KubeContainer,
    pub svc: Option<KubeService>,
    pub project_path: String,
}

/// What a [`Kube`] holds.
pub ghost struct KubeView {
    pub ctrl: KubeContainerView,
    pub svc: Option<KubeServiceView>,
    pub project_path: Seq<char>,
}

impl View for Kube {
    type V = KubeView;

    open spec fn view(&self) -> KubeView {
        KubeView {
            ctrl: self.ctrl@,
            svc: match self.svc {
                Some(svc) => Some(svc@),
                None => None,
            },
            project_path: self.project_path@,
        }
    }
}

/// Why a service was left out.
#[derive(Clone, Debug, PartialEq, Eq)]
pub enum SynthesisError {
    /// No preferences were given for the service of this name.
    MissingPreferences(String),
}

impl SynthesisError {
    /// The name of the service that was left out.
    pub open spec fn service(self) -> Seq<char> {
        match self {
            SynthesisError::MissingPreferences(name) => name@,
        }
    }
}

/// What a run produced: the resources of the services that have
/// preferences, and the services that were left out because they have none.
#[derive(Clone, Debug, PartialEq, Eq)]
pub struct KubeSet {
    pub kubes: Vec<Kube>,
    pub skipped: Vec<SynthesisError>,
}

/// The views of a sequence of resources.
pub open spec fn kube_views(kubes: Seq<Kube>) -> Seq<KubeView> {
    Seq::new(kubes.len(), |i: int| kubes[i]@)
}

/// The names of the services that a sequence of errors speaks of.
pub open spec fn skipped_names(errors: Seq<SynthesisError>) -> Seq<Seq<char>> {
    Seq::new(errors.len(), |i: int| errors[i].service())
}

/// The resources of the service `dk` under the preferences `option`, for a
/// project that lives at `project_root`. The manifests go to the directory
/// of the service's name below the root.
pub open spec fn kube_of(dk: ServiceView, option: PreferenceView, project_root: Seq<char>) -> KubeView {
    let base_path = join_path(project_root, dk.name);
    KubeView {
        ctrl: container_of(dk, option, base_path),
        svc: service_of_workload(dk, service_config(option), base_path),
        project_path: base_path,
    }
}

/// The resources of a service that has preferences in `options`.
pub open spec fn kube_rule(
    options: Map<Seq<char>, PreferenceView>,
    project_root: Seq<char>,
) -> spec_fn(ServiceView) -> Option<KubeView> {
    |dk: ServiceView|
        if options.contains_key(dk.name) {
            Some(kube_of(dk, options[dk.name], project_root))
        } else {
            None
        }
}

/// The name of a service that has no preferences in `options`.
pub open spec fn skip_rule(options: Map<Seq<char>, PreferenceView>) -> spec_fn(ServiceView) -> Option<
    Seq<char>,
> {
    |dk: ServiceView|
        if options.contains_key(dk.name) {
            None
        } else {
            Some(dk.name)
        }
}

/// The preferences that `options` holds for the service `name`; the lack
/// of them is an error that names the service.
pub fn preferences_of<'a>(options: &'a Preferences, name: &str) -> (r: Result<
    &'a PreferenceEntry,
    SynthesisError,
>)
    ensures
        r matches Ok(option) ==> options@.contains_key(name@) && options@[name@] == option@,
        r matches Err(error) ==> !options@.contains_key(name@) && error.service() == name@,
{
    match options.get(name) {
        Some(option) => Ok(option),
        None => Err(SynthesisError::MissingPreferences(name.to_owned())),
    }
}

/// Builds the resources of the service `dk`: its workload, and its service
/// if it publishes a port. Fails where `options` holds no preferences for
/// the service.
pub fn get_basic_object(dk: &Service, options: &Preferences, project_root: &str) -> (r: Result<
    Kube,
    SynthesisError,
>)
    ensures
        r matches Ok(kube) ==> options@.contains_key(dk.name@) && kube@ == kube_of(
            dk@,
            options@[dk.name@],
            project_root@,
        ),
        r matches Err(error) ==> !options@.contains_key(dk.name@) && error.service() == dk.name@,
{
    let option: &PreferenceEntry = match preferences_of(options, dk.name.as_str()) {
        Ok(option) => option,
        Err(error) => {
            return Err(error);
        },
    };
    let base_path: String = get_object_path(project_root, dk.name.as_str());
    let config: ConfigService = ConfigService::from_preference(option);
    let svc: Option<KubeService> = KubeService::new(dk.duplicate(), &config, base_path.as_str());
    let ctrl: KubeContainer = create_kube_struct(dk.duplicate(), option, base_path.as_str());
    Ok(Kube { ctrl, svc, project_path: base_path })
}

/// Builds the resources of each service of `dk_vec` that has preferences in
/// `options`, in the order of the services, and lists the services that
/// have none. Every service is in one of the two lists.
pub fn get_basic_objects(dk_vec: &Vec<Service>, options: &Preferences, project_root: &str) -> (r:
    KubeSet)
    ensures
        kube_views(r.kubes@) == service_views(dk_vec@).filter_map(kube_rule(options@, project_root@)),
        skipped_names(r.skipped@) == service_views(dk_vec@).filter_map(skip_rule(options@)),
        r.kubes@.len() + r.skipped@.len() == dk_vec@.len(),
{
    let ghost models = service_views(dk_vec@);
    let ghost made = kube_rule(options@, project_root@);
    let ghost left = skip_rule(options@);
    let mut kubes: Vec<Kube> = Vec::new();
    let mut skipped: Vec<SynthesisError> = Vec::new();
    let mut i: usize = 0;
    assert(models.take(0).filter_map(made) =~= Seq::<KubeView>::empty());
    assert(models.take(0).filter_map(left) =~= Seq::<Seq<char>>::empty());
    while i < dk_vec.len()
        invariant
            i <= dk_vec.len(),
            models == service_views(dk_vec@),
            made == kube_rule(options@, project_root@),
            left == skip_rule(options@),
            kube_views(kubes@) == models.take(i as int).filter_map(made),
            skipped_names(skipped@) == models.take(i as int).filter_map(left),
            kubes@.len() + skipped@.len() == i,
        decreases dk_vec.len() - i,
    {
        proof {
            models.lemma_filter_map_take_succ(made, i as int);
            models.lemma_filter_map_take_succ(left, i as int);
        }
        assert(models[i as int] == dk_vec@[i as int]@);
        match get_basic_object(&dk_vec[i], options, project_root) {
            Ok(kube) => {
                let ghost before = kubes@;
                kubes.push(kube);
                assert(kube_views(kubes@) =~= kube_views(before) + seq![kube@]);
            },
            Err(error) => {
                let ghost before = skipped@;
                skipped.push(error);
                assert(skipped_names(skipped@) =~= skipped_names(before) + seq![error.service()]);
            },
        }
        i = i + 1;
    }
    assert(models.take(dk_vec.len() as int) =~= models);
    KubeSet { kubes, skipped }
}

/// Makes the ingress of the run in front of the services `dk`, if `conf`
/// asks for one.
pub fn get_ingress_object(dk: &Vec<Service>, conf: Option<ConfigIngress>) -> (r: Option<KubeIngress>)
    ensures
        conf matches Some(cnf) ==> r matches Some(ingress) && ingress@ == ingress_of(
            service_views(dk@),
            cnf.name@,
            cnf.host@,
        ),
        conf is None ==> r is None,
{
    match conf {
        Some(cnf) => Some(KubeIngress::new(dk, cnf)),
        None => None,
    }
}

/// A service that publishes no port gets a workload and no service.
pub proof fn lemma_no_ports_no_service_resource(
    dk: ServiceView,
    option: PreferenceView,
    project_root: Seq<char>,
)
    requires
        dk.ports.len() == 0,
    ensures
        kube_of(dk, option, project_root).svc is None,
{
}

/// The number of replicas of a workload is at most 255, and it is three
/// where the answer is missing, is empty, or writes no number.
pub proof fn lemma_workload_replicas(dk: ServiceView, option: PreferenceView, project_root: Seq<char>)
    ensures
        0 <= kube_of(dk, option, project_root).ctrl.replicas <= 255,
        (option.replicas matches Some(text) ==> text.len() == 0 || !is_numeric(text)) ==> kube_of(
            dk,
            option,
            project_root,
        ).ctrl.replicas == 3,
{
}

/// Two runs on the same services, preferences and root hold the same
/// resources and leave out the same services: whatever
/// [`get_basic_objects`] returns for them is equal, field by field.
pub proof fn lemma_same_inputs_same_resources(
    first: KubeSet,
    second: KubeSet,
    models: Seq<ServiceView>,
    options: Map<Seq<char>, PreferenceView>,
    project_root: Seq<char>,
)
    requires
        kube_views(first.kubes@) == models.filter_map(kube_rule(options, project_root)),
        skipped_names(first.skipped@) == models.filter_map(skip_rule(options)),
        kube_views(second.kubes@) == models.filter_map(kube_rule(options, project_root)),
        skipped_names(second.skipped@) == models.filter_map(skip_rule(options)),
    ensures
        kube_views(first.kubes@) == kube_views(second.kubes@),
        skipped_names(first.skipped@) == skipped_names(second.skipped@),
{
}

/// No service gives no resource and leaves nothing out.
pub proof fn lemma_no_service_no_resource(
    options: Map<Seq<char>, PreferenceView>,
    project_root: Seq<char>,
)
    ensures
        Seq::<ServiceView>::empty().filter_map(kube_rule(options, project_root)).len() == 0,
        Seq::<ServiceView>::empty().filter_map(skip_rule(options)).len() == 0,
{
}

} // verus!
