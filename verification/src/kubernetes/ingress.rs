//! The ingress of a run: one entry point in front of the services that
//! publish a port.

use crate::compose::{service_views, Service, ServiceView};
use crate::kubernetes::service::{get_ports, port_numbers, SVC_SUFFIX};
use crate::text::{joined, texts};
use vstd::prelude::*;

verus! {

/// What the user asks of the ingress.
#[derive(Clone, Debug, PartialEq, Eq)]
pub struct ConfigIngress {
    pub name: String,
    pub host: String,
}

/// One service behind the ingress, and the port at which it is reached.
#[derive(Clone, Debug, PartialEq, Eq)]
pub struct IngressBackend {
    pub service: String,
    pub port: u16,
}

/// What an [`IngressBackend`] holds.
pub ghost struct IngressBackendView {
    pub service: Seq<char>,
    pub port: u16,
}

impl View for IngressBackend {
    type V = IngressBackendView;

    open spec fn view(&self) -> IngressBackendView {
        IngressBackendView { service: self.service@, port: self.port }
    }
}

/// The ingress of a run.
#[derive(Clone, Debug, PartialEq, Eq)]
pub struct KubeIngress {
    pub name: String,
    pub host: String,
    pub backends: Vec<IngressBackend>,
}

/// What a [`KubeIngress`] holds.
pub ghost struct KubeIngressView {
    pub name: Seq<char>,
    pub host: Seq<char>,
    pub backends: Seq<IngressBackendView>,
}

/// The views of a sequence of backends.
pub open spec fn backend_views(backends: Seq<IngressBackend>) -> Seq<IngressBackendView> {
    Seq::new(backends.len(), |i: int| backends[i]@)
}

impl View for KubeIngress {
    type V = KubeIngressView;

    open spec fn view(&self) -> KubeIngressView {
        KubeIngressView { name: self.name@, host: self.host@, backends: backend_views(self.backends@) }
    }
}

/// The backend that a service makes: its service descriptor's name and
/// port, and none where it publishes no port.
pub open spec fn backend_of(dk: ServiceView) -> Option<IngressBackendView> {
    if dk.ports.len() == 0 {
        None
    } else {
        Some(IngressBackendView { service: dk.name + SVC_SUFFIX@, port: port_numbers(dk.ports[0])[0] })
    }
}

/// [`backend_of`] as a function value.
pub open spec fn backend_rule() -> spec_fn(ServiceView) -> Option<IngressBackendView> {
    |dk: ServiceView| backend_of(dk)
}

/// The ingress that `conf` asks for in front of the services `dk`: a backend
/// for each service that publishes a port, in the order of the services.
pub open spec fn ingress_of(dk: Seq<ServiceView>, name: Seq<char>, host: Seq<char>) -> KubeIngressView {
    KubeIngressView { name, host, backends: dk.filter_map(backend_rule()) }
}

impl KubeIngress {
    /// Makes the ingress that `conf` asks for in front of the services `dk`.
    pub fn new(dk: &Vec<Service>, conf: ConfigIngress) -> (r: KubeIngress)
        ensures
            r@ == ingress_of(service_views(dk@), conf.name@, conf.host@),
    {
        let ghost models = service_views(dk@);
        let mut backends: Vec<IngressBackend> = Vec::new();
        let mut i: usize = 0;
        assert(models.take(0).filter_map(backend_rule()) =~= Seq::<IngressBackendView>::empty());
        while i < dk.len()
            invariant
                i <= dk.len(),
                models == service_views(dk@),
                backend_views(backends@) == models.take(i as int).filter_map(backend_rule()),
            decreases dk.len() - i,
        {
            proof {
                models.lemma_filter_map_take_succ(backend_rule(), i as int);
            }
            let service: &Service = &dk[i];
            assert(models[i as int] == service@);
            if service.ports.len() > 0 {
                assert(texts(service.ports@)[0] == service.ports@[0]@);
                let mapped_ports: Vec<u16> = get_ports(&service.ports[0]);
                let backend = IngressBackend {
                    service: joined(service.name.as_str(), SVC_SUFFIX),
                    port: mapped_ports[0],
                };
                let ghost before = backends@;
                backends.push(backend);
                assert(backend_views(backends@) =~= backend_views(before) + seq![backend@]);
            }
            i = i + 1;
        }
        assert(models.take(dk.len() as int) =~= models);
        KubeIngress { name: conf.name, host: conf.host, backends }
    }
}

} // verus!
