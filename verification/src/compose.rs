//! Reads the services of a Compose document.
//!
//! A service is an entry of the `services` mapping of the first document.
//! Of each entry the image, the command, the labels, the ports, the
//! environment and the volumes are kept, each as text.

use crate::text::{copy_strings, texts};
use crate::yaml::{pairs, trees, YamlEntry, YamlNode, YamlTree};
use vstd::prelude::*;

verus! {

/// One service of a Compose file, such as `services.web`.
#[derive(Clone, Debug, PartialEq, Eq)]
pub struct Service {
    pub name: String,
    pub image: String,
    pub commands: Vec<String>,
    pub ports: Vec<String>,
    pub labels: Vec<String>,
    pub environment: Vec<String>,
    pub volumes: Vec<String>,
}

/// What a [`Service`] holds, as text.
pub ghost struct ServiceView {
    pub name: Seq<char>,
    pub image: Seq<char>,
    pub commands: Seq<Seq<char>>,
    pub ports: Seq<Seq<char>>,
    pub labels: Seq<Seq<char>>,
    pub environment: Seq<Seq<char>>,
    pub volumes: Seq<Seq<char>>,
}

impl View for Service {
    type V = ServiceView;

    open spec fn view(&self) -> ServiceView {
        ServiceView {
            name: self.name@,
            image: self.image@,
            commands: texts(self.commands@),
            ports: texts(self.ports@),
            labels: texts(self.labels@),
            environment: texts(self.environment@),
            volumes: texts(self.volumes@),
        }
    }
}

impl Service {
    /// A copy of the service.
    pub fn duplicate(&self) -> (r: Service)
        ensures
            r@ == self@,
    {
        Service {
            name: self.name.clone(),
            image: self.image.clone(),
            commands: copy_strings(&self.commands),
            ports: copy_strings(&self.ports),
            labels: copy_strings(&self.labels),
            environment: copy_strings(&self.environment),
            volumes: copy_strings(&self.volumes),
        }
    }
}

/// Why no service could be read from a document.
#[derive(Clone, Copy, Debug, PartialEq, Eq, Structural)]
pub enum ExtractionError {
    /// The parser handed over no document at all.
    EmptyDocument,
    /// The first document has no `services` key, or its value is no mapping.
    MissingOrMalformedServices,
}

/// The two ways in which an attribute of a service is written.
#[derive(Clone, Copy, Debug, PartialEq, Eq, Structural)]
pub enum FieldType {
    /// One string.
    Single,
    /// A list of strings.
    Collection,
}

/// The text of the string scalar under `key`, empty where `content` has no
/// string there.
pub open spec fn scalar(content: YamlTree, key: Seq<char>) -> Seq<char> {
    match content.field(key) {
        Some(YamlTree::Text(s)) => s,
        _ => Seq::<char>::empty(),
    }
}

/// The text of each item, empty for an item that is no string.
pub open spec fn item_texts(items: Seq<YamlTree>) -> Seq<Seq<char>> {
    Seq::new(
        items.len(),
        |i: int|
            match items[i] {
                YamlTree::Text(s) => s,
                _ => Seq::<char>::empty(),
            },
    )
}

/// The texts of the list under `key`, if `content` has a list there.
pub open spec fn collection(content: YamlTree, key: Seq<char>) -> Option<Seq<Seq<char>>> {
    match content.field(key) {
        Some(YamlTree::List(items)) => Some(item_texts(items)),
        _ => None,
    }
}

/// `list` where there is one with an item in it, else `fallback`.
pub open spec fn or_fallback(list: Option<Seq<Seq<char>>>, fallback: Seq<Seq<char>>) -> Seq<
    Seq<char>,
> {
    match list {
        Some(v) => if v.len() == 0 {
            fallback
        } else {
            v
        },
        None => fallback,
    }
}

/// The name that a key of the `services` mapping gives to its service: the
/// key itself, or `unknown` where the key is no string or is empty.
pub open spec fn service_name(key: YamlTree) -> Seq<char> {
    match key {
        YamlTree::Text(s) => if s.len() > 0 {
            s
        } else {
            "unknown"@
        },
        _ => "unknown"@,
    }
}

/// The service that the entry `key: content` describes. A list with items
/// wins over the scalar of the same key; the command and the labels fall
/// back to the scalar as their one item, the other lists to no item.
pub open spec fn service_of(key: YamlTree, content: YamlTree) -> ServiceView {
    ServiceView {
        name: service_name(key),
        image: scalar(content, "image"@),
        commands: or_fallback(collection(content, "command"@), seq![scalar(content, "command"@)]),
        ports: or_fallback(collection(content, "ports"@), Seq::empty()),
        labels: or_fallback(collection(content, "labels"@), seq![scalar(content, "labels"@)]),
        environment: or_fallback(collection(content, "environment"@), Seq::empty()),
        volumes: or_fallback(collection(content, "volumes"@), Seq::empty()),
    }
}

/// The services that the entries of a `services` mapping describe, in the
/// order of the entries.
pub open spec fn services_of(entries: Seq<(YamlTree, YamlTree)>) -> Seq<ServiceView> {
    Seq::new(entries.len(), |i: int| service_of(entries[i].0, entries[i].1))
}

/// What reading the documents `docs` gives: the services of the first
/// document, or the reason why there are none.
pub open spec fn extraction(docs: Seq<YamlTree>) -> Result<Seq<ServiceView>, ExtractionError> {
    if docs.len() == 0 {
        Err(ExtractionError::EmptyDocument)
    } else {
        match docs[0].field("services"@) {
            Some(YamlTree::Mapping(entries)) => Ok(services_of(entries)),
            _ => Err(ExtractionError::MissingOrMalformedServices),
        }
    }
}

/// A first document without a `services` mapping is refused as such.
pub proof fn lemma_services_required(docs: Seq<YamlTree>)
    requires
        docs.len() > 0,
        !(docs[0].field("services"@) matches Some(YamlTree::Mapping(_))),
    ensures
        extraction(docs) == Err::<Seq<ServiceView>, ExtractionError>(
            ExtractionError::MissingOrMalformedServices,
        ),
{
}

/// The views of a sequence of services.
pub open spec fn service_views(services: Seq<Service>) -> Seq<ServiceView> {
    Seq::new(services.len(), |i: int| services[i]@)
}

/// The attribute names that are read in each of the two ways.
pub open spec fn supported_attributes(field: FieldType) -> Seq<Seq<char>> {
    match field {
        FieldType::Single => seq!["image"@, "command"@, "labels"@],
        FieldType::Collection => seq![
            "command"@,
            "ports"@,
            "labels"@,
            "environment"@,
            "volumes"@,
        ],
    }
}

/// The attribute names that are read as `field` says.
pub fn get_supported_attributes(field: FieldType) -> (r: Vec<&'static str>)
    ensures
        r@.len() == supported_attributes(field).len(),
        forall|i: int| 0 <= i < r@.len() ==> (#[trigger] r@[i])@ == supported_attributes(field)[i],
{
    match field {
        FieldType::Single => {
            let mut names: Vec<&'static str> = Vec::new();
            names.push("image");
            names.push("command");
            names.push("labels");
            names
        },
        FieldType::Collection => {
            let mut names: Vec<&'static str> = Vec::new();
            names.push("command");
            names.push("ports");
            names.push("labels");
            names.push("environment");
            names.push("volumes");
            names
        },
    }
}

/// The string under `key` of a service, empty where there is none.
pub fn scalar_attribute(content: &YamlNode, key: &str) -> (r: String)
    ensures
        r@ == scalar(content@, key@),
{
    match content.get(key) {
        Some(node) => match node.as_str() {
            Some(s) => s.to_owned(),
            None => String::new(),
        },
        None => String::new(),
    }
}

/// The strings of the list under `key` of a service, if there is a list.
pub fn collection_attribute(content: &YamlNode, key: &str) -> (r: Option<Vec<String>>)
    ensures
        r matches Some(v) ==> collection(content@, key@) == Some(texts(v@)),
        r is None ==> collection(content@, key@) is None,
{
    let items: &Vec<YamlNode> = match content.get(key) {
        Some(node) => match node.as_vec() {
            Some(items) => items,
            None => {
                return None;
            },
        },
        None => {
            return None;
        },
    };
    let mut out: Vec<String> = Vec::new();
    let mut i: usize = 0;
    while i < items.len()
        invariant
            i <= items.len(),
            out@.len() == i,
            forall|j: int| 0 <= j < i ==> (#[trigger] out@[j])@ == item_texts(trees(items@))[j],
        decreases items.len() - i,
    {
        let text: String = match items[i].as_str() {
            Some(s) => s.to_owned(),
            None => String::new(),
        };
        out.push(text);
        i = i + 1;
    }
    assert(texts(out@) =~= item_texts(trees(items@)));
    Some(out)
}

/// The strings of `content` where it holds any, else `fallback`.
pub fn retrieve_array_or_fallback(content: Option<&Vec<String>>, fallback: Vec<String>) -> (r:
    Vec<String>)
    ensures
        texts(r@) == or_fallback(
            match content {
                Some(v) => Some(texts(v@)),
                None => None,
            },
            texts(fallback@),
        ),
{
    match content {
        Some(value) => {
            if value.len() == 0 {
                return fallback;
            }
            copy_strings(value)
        },
        None => fallback,
    }
}

/// The name of the service under the key `key`.
pub fn name_of(key: &YamlNode) -> (r: String)
    ensures
        r@ == service_name(key@),
        r@.len() > 0,
{
    proof {
        reveal_strlit("unknown");
    }
    match key.as_str() {
        Some(s) => {
            if s.is_empty() {
                "unknown".to_owned()
            } else {
                s.to_owned()
            }
        },
        None => "unknown".to_owned(),
    }
}

/// Reads one service by way of the two lists of supported attributes: the
/// scalars first, then the lists, then each list with its fallback.
pub fn parse_each_yaml_content(service_name: &YamlNode, service_content: &YamlNode) -> (r: Service)
    ensures
        r@ == service_of(service_name@, service_content@),
        r.name@.len() > 0,
{
    let singles: Vec<&'static str> = get_supported_attributes(FieldType::Single);
    let mut single_type_vec: Vec<String> = Vec::new();
    let mut i: usize = 0;
    while i < singles.len()
        invariant
            i <= singles.len(),
            single_type_vec@.len() == i,
            singles@.len() == supported_attributes(FieldType::Single).len(),
            forall|j: int|
                0 <= j < singles@.len() ==> (#[trigger] singles@[j])@ == supported_attributes(
                    FieldType::Single,
                )[j],
            forall|j: int|
                0 <= j < i ==> (#[trigger] single_type_vec@[j])@ == scalar(
                    service_content@,
                    supported_attributes(FieldType::Single)[j],
                ),
        decreases singles.len() - i,
    {
        single_type_vec.push(scalar_attribute(service_content, singles[i]));
        i = i + 1;
    }
    let collections: Vec<&'static str> = get_supported_attributes(FieldType::Collection);
    let mut collection_attrs: Vec<Vec<String>> = Vec::new();
    let mut k: usize = 0;
    while k < collections.len()
        invariant
            k <= collections.len(),
            collection_attrs@.len() == k,
            collections@.len() == supported_attributes(FieldType::Collection).len(),
            forall|j: int|
                0 <= j < collections@.len() ==> (#[trigger] collections@[j])@
                    == supported_attributes(FieldType::Collection)[j],
            forall|j: int|
                0 <= j < k ==> texts((#[trigger] collection_attrs@[j])@) == or_fallback(
                    collection(service_content@, supported_attributes(FieldType::Collection)[j]),
                    Seq::empty(),
                ),
        decreases collections.len() - k,
    {
        match collection_attribute(service_content, collections[k]) {
            Some(fields) => {
                collection_attrs.push(fields);
            },
            None => {
                let none: Vec<String> = Vec::new();
                assert(texts(none@) =~= Seq::<Seq<char>>::empty());
                collection_attrs.push(none);
            },
        }
        k = k + 1;
    }
    let mut fallback_cmd: Vec<String> = Vec::new();
    fallback_cmd.push(single_type_vec[1].clone());
    let mut fallback_label: Vec<String> = Vec::new();
    fallback_label.push(single_type_vec[2].clone());
    let none: Vec<String> = Vec::new();
    assert(texts(fallback_cmd@) =~= seq![scalar(service_content@, "command"@)]);
    assert(texts(fallback_label@) =~= seq![scalar(service_content@, "labels"@)]);
    assert(texts(none@) =~= Seq::<Seq<char>>::empty());
    Service {
        name: name_of(service_name),
        image: single_type_vec[0].clone(),
        commands: retrieve_array_or_fallback(Some(&collection_attrs[0]), fallback_cmd),
        labels: retrieve_array_or_fallback(Some(&collection_attrs[2]), fallback_label),
        ports: retrieve_array_or_fallback(Some(&collection_attrs[1]), none.clone()),
        environment: retrieve_array_or_fallback(Some(&collection_attrs[3]), none.clone()),
        volumes: retrieve_array_or_fallback(Some(&collection_attrs[4]), none),
    }
}

/// The services of the first document of `content`, read by way of the
/// lists of supported attributes. Fails with `EmptyDocument` where there is
/// no document, and with `MissingOrMalformedServices` where the first
/// document has no `services` mapping.
pub fn get_docker_services(content: Vec<YamlNode>) -> (r: Result<Vec<Service>, ExtractionError>)
    ensures
        r matches Ok(v) ==> extraction(trees(content@)) == Ok::<Seq<ServiceView>, ExtractionError>(
            service_views(v@),
        ),
        r matches Ok(v) ==> forall|i: int| 0 <= i < v@.len() ==> (#[trigger] v@[i]).name@.len() > 0,
        r matches Err(e) ==> extraction(trees(content@)) == Err::<Seq<ServiceView>, ExtractionError>(
            e,
        ),
{
    if content.len() == 0 {
        return Err(ExtractionError::EmptyDocument);
    }
    let raw_services: &YamlNode = match content[0].get("services") {
        Some(node) => node,
        None => {
            return Err(ExtractionError::MissingOrMalformedServices);
        },
    };
    match raw_services.as_hash() {
        Some(hashes) => {
            let mut services: Vec<Service> = Vec::new();
            let mut i: usize = 0;
            while i < hashes.len()
                invariant
                    i <= hashes.len(),
                    services@.len() == i,
                    forall|j: int|
                        0 <= j < i ==> (#[trigger] services@[j])@ == services_of(pairs(hashes@))[j],
                    forall|j: int| 0 <= j < i ==> (#[trigger] services@[j]).name@.len() > 0,
                decreases hashes.len() - i,
            {
                services.push(parse_each_yaml_content(&hashes[i].key, &hashes[i].value));
                i = i + 1;
            }
            assert(service_views(services@) =~= services_of(pairs(hashes@)));
            Ok(services)
        },
        None => Err(ExtractionError::MissingOrMalformedServices),
    }
}

/// The list under `key` of a service where it has items, else `fallback`.
pub fn list_attribute_or(content: &YamlNode, key: &str, fallback: Vec<String>) -> (r: Vec<String>)
    ensures
        texts(r@) == or_fallback(collection(content@, key@), texts(fallback@)),
{
    match collection_attribute(content, key) {
        Some(fields) => {
            if fields.len() == 0 {
                fallback
            } else {
                fields
            }
        },
        None => fallback,
    }
}

/// Reads one service, attribute by attribute.
pub fn get_service(service_name: &YamlNode, yaml_service: &YamlNode) -> (r: Service)
    ensures
        r@ == service_of(service_name@, yaml_service@),
        r.name@.len() > 0,
{
    let mut fallback_cmd: Vec<String> = Vec::new();
    fallback_cmd.push(scalar_attribute(yaml_service, "command"));
    let mut fallback_label: Vec<String> = Vec::new();
    fallback_label.push(scalar_attribute(yaml_service, "labels"));
    let no_ports: Vec<String> = Vec::new();
    let no_environment: Vec<String> = Vec::new();
    let no_volumes: Vec<String> = Vec::new();
    assert(texts(fallback_cmd@) =~= seq![scalar(yaml_service@, "command"@)]);
    assert(texts(fallback_label@) =~= seq![scalar(yaml_service@, "labels"@)]);
    assert(texts(no_ports@) =~= Seq::<Seq<char>>::empty());
    assert(texts(no_environment@) =~= Seq::<Seq<char>>::empty());
    assert(texts(no_volumes@) =~= Seq::<Seq<char>>::empty());
    Service {
        name: name_of(service_name),
        image: scalar_attribute(yaml_service, "image"),
        commands: list_attribute_or(yaml_service, "command", fallback_cmd),
        ports: list_attribute_or(yaml_service, "ports", no_ports),
        labels: list_attribute_or(yaml_service, "labels", fallback_label),
        environment: list_attribute_or(yaml_service, "environment", no_environment),
        volumes: list_attribute_or(yaml_service, "volumes", no_volumes),
    }
}

/// The services of the first document of `content`, one for each entry of
/// its `services` mapping and in the order of the entries. Fails where there
/// is no document, and where the first document has no `services` mapping.
pub fn get_docker_service_structure(content: Vec<YamlNode>) -> (r: Result<
    Vec<Service>,
    ExtractionError,
>)
    ensures
        r matches Ok(v) ==> extraction(trees(content@)) == Ok::<Seq<ServiceView>, ExtractionError>(
            service_views(v@),
        ),
        r matches Ok(v) ==> forall|i: int| 0 <= i < v@.len() ==> (#[trigger] v@[i]).name@.len() > 0,
        r matches Err(e) ==> extraction(trees(content@)) == Err::<Seq<ServiceView>, ExtractionError>(e),
{
    if content.len() == 0 {
        return Err(ExtractionError::EmptyDocument);
    }
    let services_hash: Option<&Vec<YamlEntry>> = match content[0].get("services") {
        Some(node) => node.as_hash(),
        None => None,
    };
    match services_hash {
        Some(hashes) => {
            let mut services: Vec<Service> = Vec::new();
            let mut i: usize = 0;
            while i < hashes.len()
                invariant
                    i <= hashes.len(),
                    services@.len() == i,
                    forall|j: int|
                        0 <= j < i ==> (#[trigger] services@[j])@ == services_of(pairs(hashes@))[j],
                    forall|j: int| 0 <= j < i ==> (#[trigger] services@[j]).name@.len() > 0,
                decreases hashes.len() - i,
            {
                services.push(get_service(&hashes[i].key, &hashes[i].value));
                i = i + 1;
            }
            assert(service_views(services@) =~= services_of(pairs(hashes@)));
            Ok(services)
        },
        None => Err(ExtractionError::MissingOrMalformedServices),
    }
}

impl ExtractionError {
    /// The words in which the error is reported.
    pub fn message(&self) -> (r: String)
        ensures
            r@ == match *self {
                ExtractionError::EmptyDocument => "Unable to parse empty content of docker-compose.yaml file"@,
                ExtractionError::MissingOrMalformedServices => "Services attribute is not an array"@,
            },
    {
        match self {
            ExtractionError::EmptyDocument => "Unable to parse empty content of docker-compose.yaml file".to_owned(),
            ExtractionError::MissingOrMalformedServices => "Services attribute is not an array".to_owned(),
        }
    }
}

} // verus!
