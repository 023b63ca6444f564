//! What the user is shown of containers, images and networks, made from the
//! records the runtime reports.
//!
//! A record holds the fields that the views are made from, each as the
//! runtime reports it: most of them may be absent.

use crate::text::{
    after_separator, byte_slice, can_slice, head_segment, parse_u16, parsed_u16, slice, sliceable,
    split_first, strip_leading_slash, without_leading_slash,
};
use vstd::prelude::*;

verus! {

/// The number of bytes of an identifier that are shown.
pub const SHORT_ID_LENGTH: usize = 12;

/// The number of bytes that the digest prefix `sha256:` takes at the start
/// of an image identifier.
pub const IMAGE_ID_PREFIX_LENGTH: usize = 7;

/// Containers are listed whether they run or not.
pub const LIST_STOPPED_CONTAINERS: bool = true;

/// Images are listed without the intermediate layers.
pub const LIST_INTERMEDIATE_IMAGES: bool = false;

/// A container as the runtime lists it.
#[derive(Clone, Debug, PartialEq, Eq)]
pub struct ContainerRecord {
    pub id: Option<String>,
    pub names: Option<Vec<String>>,
    pub image: Option<String>,
    pub state: Option<String>,
    pub status: Option<String>,
}

/// A container as it is shown in a list.
#[derive(Clone, Debug, PartialEq, Eq)]
pub struct ContainerInfo {
    pub id: String,
    pub name: String,
    pub image: String,
    pub state: String,
    pub status: String,
}

/// What a `ContainerInfo` holds.
pub struct ContainerInfoView {
    pub id: Seq<char>,
    pub name: Seq<char>,
    pub image: Seq<char>,
    pub state: Seq<char>,
    pub status: Seq<char>,
}

impl View for ContainerInfo {
    type V = ContainerInfoView;

    open spec fn view(&self) -> ContainerInfoView {
        ContainerInfoView {
            id: self.id@,
            name: self.name@,
            image: self.image@,
            state: self.state@,
            status: self.status@,
        }
    }
}

/// An image as the runtime lists it.
#[derive(Clone, Debug, PartialEq, Eq)]
pub struct ImageRecord {
    pub id: String,
    pub repo_tags: Vec<String>,
    pub size: i64,
    pub created: i64,
}

/// An image as it is shown in a list.
#[derive(Clone, Debug, PartialEq, Eq)]
pub struct ImageInfo {
    pub id: String,
    pub repo_tags: Vec<String>,
    pub size: i64,
    pub created: i64,
}

/// What a `ImageInfo` holds.
pub struct ImageInfoView {
    pub id: Seq<char>,
    pub repo_tags: Seq<Seq<char>>,
    pub size: i64,
    pub created: i64,
}

impl View for ImageInfo {
    type V = ImageInfoView;

    open spec fn view(&self) -> ImageInfoView {
        ImageInfoView {
            id: self.id@,
            repo_tags: texts(self.repo_tags@),
            size: self.size,
            created: self.created,
        }
    }
}

/// A network as the runtime lists it.
#[derive(Clone, Debug, PartialEq, Eq)]
pub struct NetworkRecord {
    pub id: Option<String>,
    pub name: Option<String>,
    pub driver: Option<String>,
    pub scope: Option<String>,
}

/// A network as it is shown in a list.
#[derive(Clone, Debug, PartialEq, Eq)]
pub struct NetworkInfo {
    pub id: String,
    pub name: String,
    pub driver: String,
    pub scope: String,
}

/// What a `NetworkInfo` holds.
pub struct NetworkInfoView {
    pub id: Seq<char>,
    pub name: Seq<char>,
    pub driver: Seq<char>,
    pub scope: Seq<char>,
}

impl View for NetworkInfo {
    type V = NetworkInfoView;

    open spec fn view(&self) -> NetworkInfoView {
        NetworkInfoView {
            id: self.id@,
            name: self.name@,
            driver: self.driver@,
            scope: self.scope@,
        }
    }
}

/// Where on the host a container port is published.
#[derive(Clone, Debug, PartialEq, Eq)]
pub struct PortBinding {
    pub host_ip: Option<String>,
    pub host_port: Option<String>,
}

/// A container port, written as `port/protocol`, with the places it is
/// published at.
#[derive(Clone, Debug, PartialEq, Eq)]
pub struct PortEntry {
    pub port: String,
    pub bindings: Option<Vec<PortBinding>>,
}

/// One published port of a container.
#[derive(Clone, Debug, PartialEq, Eq)]
pub struct PortMapping {
    pub container_port: u16,
    pub host_ip: String,
    pub host_port: u16,
    pub protocol: String,
}

/// What a `PortMapping` holds.
pub struct PortMappingView {
    pub container_port: u16,
    pub host_ip: Seq<char>,
    pub host_port: u16,
    pub protocol: Seq<char>,
}

impl View for PortMapping {
    type V = PortMappingView;

    open spec fn view(&self) -> PortMappingView {
        PortMappingView {
            container_port: self.container_port,
            host_ip: self.host_ip@,
            host_port: self.host_port,
            protocol: self.protocol@,
        }
    }
}

/// A mount as the runtime reports it.
#[derive(Clone, Debug, PartialEq, Eq)]
pub struct MountRecord {
    pub source: Option<String>,
    pub destination: Option<String>,
    pub mode: Option<String>,
    pub rw: Option<bool>,
}

/// One mount of a container.
#[derive(Clone, Debug, PartialEq, Eq)]
pub struct VolumeMount {
    pub source: String,
    pub destination: String,
    pub mode: String,
    pub rw: bool,
}

/// What a `VolumeMount` holds.
pub struct VolumeMountView {
    pub source: Seq<char>,
    pub destination: Seq<char>,
    pub mode: Seq<char>,
    pub rw: bool,
}

impl View for VolumeMount {
    type V = VolumeMountView;

    open spec fn view(&self) -> VolumeMountView {
        VolumeMountView {
            source: self.source@,
            destination: self.destination@,
            mode: self.mode@,
            rw: self.rw,
        }
    }
}

/// What an inspection of a container reports, as far as it is shown.
#[derive(Clone, Debug, PartialEq, Eq)]
pub struct InspectRecord {
    pub env: Option<Vec<String>>,
    pub ports: Option<Vec<PortEntry>>,
    pub mounts: Option<Vec<MountRecord>>,
    pub networks: Option<Vec<String>>,
    pub hostname: Option<String>,
    pub image: Option<String>,
    pub created: Option<String>,
    pub restart_policy: Option<String>,
}

/// The details of one container.
#[derive(Clone, Debug, PartialEq, Eq)]
pub struct ContainerDetails {
    pub env: Vec<String>,
    pub ports: Vec<PortMapping>,
    pub volumes: Vec<VolumeMount>,
    pub networks: Vec<String>,
    pub hostname: String,
    pub image_id: String,
    pub created: String,
    pub restart_policy: String,
}

/// What a `ContainerDetails` holds.
pub struct ContainerDetailsView {
    pub env: Seq<Seq<char>>,
    pub ports: Seq<PortMappingView>,
    pub volumes: Seq<VolumeMountView>,
    pub networks: Seq<Seq<char>>,
    pub hostname: Seq<char>,
    pub image_id: Seq<char>,
    pub created: Seq<char>,
    pub restart_policy: Seq<char>,
}

/// What a list of strings holds.
pub open spec fn texts(list: Seq<String>) -> Seq<Seq<char>> {
    list.map_values(|s: String| s@)
}

/// The views of a list of port mappings.
pub open spec fn port_views(ports: Seq<PortMapping>) -> Seq<PortMappingView> {
    ports.map_values(|p: PortMapping| p@)
}

/// The views of a list of mounts.
pub open spec fn mount_views(mounts: Seq<VolumeMount>) -> Seq<VolumeMountView> {
    mounts.map_values(|m: VolumeMount| m@)
}

impl View for ContainerDetails {
    type V = ContainerDetailsView;

    open spec fn view(&self) -> ContainerDetailsView {
        ContainerDetailsView {
            env: texts(self.env@),
            ports: port_views(self.ports@),
            volumes: mount_views(self.volumes@),
            networks: texts(self.networks@),
            hostname: self.hostname@,
            image_id: self.image_id@,
            created: self.created@,
            restart_policy: self.restart_policy@,
        }
    }
}

/// The text of a field, or `fallback` where the field is absent.
pub open spec fn text_or(field: Option<String>, fallback: Seq<char>) -> Seq<char> {
    match field {
        Some(text) => text@,
        None => fallback,
    }
}

/// The entries of a list, none where the list is absent.
pub open spec fn entries_or_none<T>(list: Option<Vec<T>>) -> Seq<T> {
    match list {
        Some(entries) => entries@,
        None => Seq::empty(),
    }
}

/// The number that a text is the decimal form of, zero where it is none.
pub open spec fn number_or_zero(text: Seq<char>) -> u16 {
    match parsed_u16(text) {
        Some(n) => n,
        None => 0,
    }
}

/// Whether the first twelve bytes of an identifier can be shown.
pub open spec fn has_short_id(id: Option<String>) -> bool {
    sliceable(text_or(id, Seq::empty()), 0, SHORT_ID_LENGTH as int)
}

/// The first twelve bytes of an identifier.
pub open spec fn short_id(id: Option<String>) -> Seq<char> {
    byte_slice(text_or(id, Seq::empty()), 0, SHORT_ID_LENGTH as int)
}

impl ContainerRecord {
    /// Whether the record can be shown: its identifier has twelve bytes to
    /// show.
    pub open spec fn listable(self) -> bool {
        has_short_id(self.id)
    }

    /// The name that is shown: the first of the names, without the slash the
    /// runtime puts before it.
    pub open spec fn shown_name(self) -> Seq<char> {
        if entries_or_none(self.names).len() > 0 {
            without_leading_slash(entries_or_none(self.names)[0]@)
        } else {
            "Unknown"@
        }
    }

    /// The record as it is shown in a list.
    pub open spec fn info(self) -> ContainerInfoView {
        ContainerInfoView {
            id: short_id(self.id),
            name: self.shown_name(),
            image: text_or(self.image, Seq::empty()),
            state: text_or(self.state, "unknown"@),
            status: text_or(self.status, Seq::empty()),
        }
    }
}

impl ImageRecord {
    /// Whether the record can be shown: after the digest prefix its
    /// identifier has twelve bytes to show.
    pub open spec fn listable(self) -> bool {
        sliceable(
            self.id@,
            IMAGE_ID_PREFIX_LENGTH as int,
            IMAGE_ID_PREFIX_LENGTH + SHORT_ID_LENGTH,
        )
    }

    /// The record as it is shown in a list.
    pub open spec fn info(self) -> ImageInfoView {
        ImageInfoView {
            id: byte_slice(
                self.id@,
                IMAGE_ID_PREFIX_LENGTH as int,
                IMAGE_ID_PREFIX_LENGTH + SHORT_ID_LENGTH,
            ),
            repo_tags: texts(self.repo_tags@),
            size: self.size,
            created: self.created,
        }
    }
}

impl NetworkRecord {
    /// Whether the record can be shown: its identifier has twelve bytes to
    /// show.
    pub open spec fn listable(self) -> bool {
        has_short_id(self.id)
    }

    /// The record as it is shown in a list, with `Unknown` for a missing
    /// name or driver and `local` for a missing scope.
    pub open spec fn info(self) -> NetworkInfoView {
        NetworkInfoView {
            id: short_id(self.id),
            name: text_or(self.name, "Unknown"@),
            driver: text_or(self.driver, "Unknown"@),
            scope: text_or(self.scope, "local"@),
        }
    }
}

/// The port number in `port/protocol`: what stands before the first slash,
/// read as a number, zero where it is none.
pub open spec fn port_number(port: Seq<char>) -> u16 {
    number_or_zero(head_segment(port, '/'))
}

/// The protocol in `port/protocol`: what stands between the first slash and
/// the second, `tcp` where there is no slash.
pub open spec fn port_protocol(port: Seq<char>) -> Seq<char> {
    match after_separator(port, '/') {
        Some(rest) => head_segment(rest, '/'),
        None => "tcp"@,
    }
}

/// One published port.
pub open spec fn mapping(port: Seq<char>, binding: PortBinding) -> PortMappingView {
    PortMappingView {
        container_port: port_number(port),
        host_ip: text_or(binding.host_ip, "0.0.0.0"@),
        host_port: match binding.host_port {
            Some(text) => number_or_zero(text@),
            None => 0,
        },
        protocol: port_protocol(port),
    }
}

impl PortEntry {
    /// The mappings of one container port: one for each place it is
    /// published at, in order.
    pub open spec fn mappings(self) -> Seq<PortMappingView> {
        Seq::new(
            entries_or_none(self.bindings).len(),
            |j: int| mapping(self.port@, entries_or_none(self.bindings)[j]),
        )
    }
}

/// The mappings of a list of container ports: those of each port, in
/// order.
pub open spec fn mappings_of(entries: Seq<PortEntry>) -> Seq<PortMappingView>
    decreases entries.len(),
{
    if entries.len() == 0 {
        Seq::empty()
    } else {
        mappings_of(entries.drop_last()) + entries.last().mappings()
    }
}

impl MountRecord {
    /// A mount is writable unless the runtime says otherwise.
    pub open spec fn mount(self) -> VolumeMountView {
        VolumeMountView {
            source: text_or(self.source, Seq::empty()),
            destination: text_or(self.destination, Seq::empty()),
            mode: text_or(self.mode, Seq::empty()),
            rw: match self.rw {
                Some(rw) => rw,
                None => true,
            },
        }
    }
}

impl InspectRecord {
    /// The details that are shown of the container.
    pub open spec fn details(self) -> ContainerDetailsView {
        ContainerDetailsView {
            env: texts(entries_or_none(self.env)),
            ports: mappings_of(entries_or_none(self.ports)),
            volumes: entries_or_none(self.mounts).map_values(|m: MountRecord| m.mount()),
            networks: texts(entries_or_none(self.networks)),
            hostname: text_or(self.hostname, "Unknown"@),
            image_id: text_or(self.image, Seq::empty()),
            created: text_or(self.created, Seq::empty()),
            restart_policy: text_or(self.restart_policy, "no"@),
        }
    }
}

fn field_or(field: &Option<String>, fallback: &str) -> (text: String)
    ensures
        text@ == text_or(*field, fallback@),
{
    match field {
        Some(text) => text.clone(),
        None => fallback.to_owned(),
    }
}

fn field_or_empty(field: &Option<String>) -> (text: String)
    ensures
        text@ == text_or(*field, Seq::empty()),
{
    match field {
        Some(text) => text.clone(),
        None => String::new(),
    }
}

fn copy_list(list: &Vec<String>) -> (copy: Vec<String>)
    ensures
        copy@ == list@,
{
    let mut copy: Vec<String> = Vec::new();
    let mut i: usize = 0;
    while i < list.len()
        invariant
            i <= list.len(),
            copy@ == list@.take(i as int),
        decreases list.len() - i,
    {
        copy.push(list[i].clone());
        proof {
            assert(list@.take(i as int + 1) == list@.take(i as int).push(list@[i as int]));
        }
        i = i + 1;
    }
    proof {
        assert(list@.take(i as int) == list@);
    }
    copy
}

fn copy_or_none(list: &Option<Vec<String>>) -> (copy: Vec<String>)
    ensures
        copy@ == entries_or_none(*list),
{
    match list {
        Some(entries) => copy_list(entries),
        None => Vec::new(),
    }
}

fn number_or(text: &str) -> (n: u16)
    ensures
        n == number_or_zero(text@),
{
    match parse_u16(text) {
        Some(n) => n,
        None => 0,
    }
}

/// Whether the first twelve bytes of an identifier can be shown.
pub fn can_shorten(id: &Option<String>) -> (b: bool)
    ensures
        b == has_short_id(*id),
{
    match id {
        Some(text) => can_slice(text.as_str(), 0, SHORT_ID_LENGTH),
        None => {
            let empty = String::new();
            can_slice(empty.as_str(), 0, SHORT_ID_LENGTH)
        },
    }
}

fn shorten(id: &Option<String>) -> (short: String)
    requires
        has_short_id(*id),
    ensures
        short@ == short_id(*id),
{
    match id {
        Some(text) => slice(text.as_str(), 0, SHORT_ID_LENGTH),
        None => {
            let empty = String::new();
            slice(empty.as_str(), 0, SHORT_ID_LENGTH)
        },
    }
}

/// Whether a container record can be shown.
pub fn container_is_listable(record: &ContainerRecord) -> (b: bool)
    ensures
        b == record.listable(),
{
    can_shorten(&record.id)
}

/// A container as it is shown in a list.
pub fn container_info(record: &ContainerRecord) -> (info: ContainerInfo)
    requires
        record.listable(),
    ensures
        info@ == record.info(),
{
    let name = match &record.names {
        Some(names) => if names.len() > 0 {
            strip_leading_slash(names[0].as_str())
        } else {
            "Unknown".to_owned()
        },
        None => "Unknown".to_owned(),
    };
    ContainerInfo {
        id: shorten(&record.id),
        name,
        image: field_or_empty(&record.image),
        state: field_or(&record.state, "unknown"),
        status: field_or_empty(&record.status),
    }
}

/// The containers as they are shown in a list, in the order given.
pub fn container_infos(records: &Vec<ContainerRecord>) -> (infos: Vec<ContainerInfo>)
    requires
        forall|k: int| 0 <= k < records.len() ==> (#[trigger] records[k]).listable(),
    ensures
        infos.len() == records.len(),
        forall|k: int| 0 <= k < records.len() ==> (#[trigger] infos[k])@ == records[k].info(),
{
    let mut infos: Vec<ContainerInfo> = Vec::new();
    let mut i: usize = 0;
    while i < records.len()
        invariant
            i <= records.len(),
            infos.len() == i,
            forall|k: int| 0 <= k < records.len() ==> (#[trigger] records[k]).listable(),
            forall|k: int| 0 <= k < i ==> (#[trigger] infos[k])@ == records[k].info(),
        decreases records.len() - i,
    {
        infos.push(container_info(&records[i]));
        i = i + 1;
    }
    infos
}

/// Whether an image record can be shown.
pub fn image_is_listable(record: &ImageRecord) -> (b: bool)
    ensures
        b == record.listable(),
{
    can_slice(
        record.id.as_str(),
        IMAGE_ID_PREFIX_LENGTH,
        IMAGE_ID_PREFIX_LENGTH + SHORT_ID_LENGTH,
    )
}

/// An image as it is shown in a list.
pub fn image_info(record: &ImageRecord) -> (info: ImageInfo)
    requires
        record.listable(),
    ensures
        info@ == record.info(),
{
    ImageInfo {
        id: slice(
            record.id.as_str(),
            IMAGE_ID_PREFIX_LENGTH,
            IMAGE_ID_PREFIX_LENGTH + SHORT_ID_LENGTH,
        ),
        repo_tags: copy_list(&record.repo_tags),
        size: record.size,
        created: record.created,
    }
}

/// The images as they are shown in a list, in the order given.
pub fn image_infos(records: &Vec<ImageRecord>) -> (infos: Vec<ImageInfo>)
    requires
        forall|k: int| 0 <= k < records.len() ==> (#[trigger] records[k]).listable(),
    ensures
        infos.len() == records.len(),
        forall|k: int| 0 <= k < records.len() ==> (#[trigger] infos[k])@ == records[k].info(),
{
    let mut infos: Vec<ImageInfo> = Vec::new();
    let mut i: usize = 0;
    while i < records.len()
        invariant
            i <= records.len(),
            infos.len() == i,
            forall|k: int| 0 <= k < records.len() ==> (#[trigger] records[k]).listable(),
            forall|k: int| 0 <= k < i ==> (#[trigger] infos[k])@ == records[k].info(),
        decreases records.len() - i,
    {
        infos.push(image_info(&records[i]));
        i = i + 1;
    }
    infos
}

/// Whether a network record can be shown.
pub fn network_is_listable(record: &NetworkRecord) -> (b: bool)
    ensures
        b == record.listable(),
{
    can_shorten(&record.id)
}

/// A network as it is shown in a list.
pub fn network_info(record: &NetworkRecord) -> (info: NetworkInfo)
    requires
        record.listable(),
    ensures
        info@ == record.info(),
{
    NetworkInfo {
        id: shorten(&record.id),
        name: field_or(&record.name, "Unknown"),
        driver: field_or(&record.driver, "Unknown"),
        scope: field_or(&record.scope, "local"),
    }
}

/// The networks as they are shown in a list, in the order given.
pub fn network_infos(records: &Vec<NetworkRecord>) -> (infos: Vec<NetworkInfo>)
    requires
        forall|k: int| 0 <= k < records.len() ==> (#[trigger] records[k]).listable(),
    ensures
        infos.len() == records.len(),
        forall|k: int| 0 <= k < records.len() ==> (#[trigger] infos[k])@ == records[k].info(),
{
    let mut infos: Vec<NetworkInfo> = Vec::new();
    let mut i: usize = 0;
    while i < records.len()
        invariant
            i <= records.len(),
            infos.len() == i,
            forall|k: int| 0 <= k < records.len() ==> (#[trigger] records[k]).listable(),
            forall|k: int| 0 <= k < i ==> (#[trigger] infos[k])@ == records[k].info(),
        decreases records.len() - i,
    {
        infos.push(network_info(&records[i]));
        i = i + 1;
    }
    infos
}

/// One published port: the container port and protocol from `port`, the
/// place on the host from `binding`.
pub fn port_mapping(port: &str, binding: &PortBinding) -> (published: PortMapping)
    ensures
        published@ == mapping(port@, *binding),
{
    let (number, rest) = split_first(port, '/');
    let protocol = match rest {
        Some(rest) => split_first(rest.as_str(), '/').0,
        None => "tcp".to_owned(),
    };
    PortMapping {
        container_port: number_or(number.as_str()),
        host_ip: field_or(&binding.host_ip, "0.0.0.0"),
        host_port: match &binding.host_port {
            Some(text) => number_or(text.as_str()),
            None => 0,
        },
        protocol,
    }
}

/// The published ports of a container: for each container port, in order,
/// one mapping for each place it is published at.
pub fn port_mappings(entries: &Vec<PortEntry>) -> (ports: Vec<PortMapping>)
    ensures
        port_views(ports@) == mappings_of(entries@),
{
    let mut ports: Vec<PortMapping> = Vec::new();
    let mut i: usize = 0;
    while i < entries.len()
        invariant
            i <= entries.len(),
            port_views(ports@) == mappings_of(entries@.take(i as int)),
        decreases entries.len() - i,
    {
        let entry = &entries[i];
        let ghost done = port_views(ports@);
        match &entry.bindings {
            Some(bindings) => {
                let mut j: usize = 0;
                while j < bindings.len()
                    invariant
                        j <= bindings.len(),
                        entry.bindings == Some(*bindings),
                        port_views(ports@) == done + entry.mappings().take(j as int),
                    decreases bindings.len() - j,
                {
                    let published = port_mapping(entry.port.as_str(), &bindings[j]);
                    proof {
                        assert(port_views(ports@.push(published)) == port_views(ports@).push(
                            published@,
                        ));
                        assert(entry.mappings().take(j as int + 1) == entry.mappings().take(
                            j as int,
                        ).push(published@));
                    }
                    ports.push(published);
                    j = j + 1;
                }
                proof {
                    assert(entry.mappings().take(j as int) == entry.mappings());
                }
            },
            None => {
                proof {
                    assert(done + entry.mappings() == done);
                }
            },
        }
        proof {
            let next = entries@.take(i as int + 1);
            assert(next.drop_last() == entries@.take(i as int));
            assert(next.last() == *entry);
        }
        i = i + 1;
    }
    proof {
        assert(entries@.take(i as int) == entries@);
    }
    ports
}

/// One mount of a container.
pub fn volume_mount(record: &MountRecord) -> (mount: VolumeMount)
    ensures
        mount@ == record.mount(),
{
    VolumeMount {
        source: field_or_empty(&record.source),
        destination: field_or_empty(&record.destination),
        mode: field_or_empty(&record.mode),
        rw: match record.rw {
            Some(rw) => rw,
            None => true,
        },
    }
}

fn volume_mounts(records: &Vec<MountRecord>) -> (mounts: Vec<VolumeMount>)
    ensures
        mount_views(mounts@) == records@.map_values(|m: MountRecord| m.mount()),
{
    let mut mounts: Vec<VolumeMount> = Vec::new();
    let mut i: usize = 0;
    while i < records.len()
        invariant
            i <= records.len(),
            mounts.len() == i,
            forall|k: int| 0 <= k < i ==> (#[trigger] mounts[k])@ == records[k].mount(),
        decreases records.len() - i,
    {
        mounts.push(volume_mount(&records[i]));
        i = i + 1;
    }
    proof {
        assert(mount_views(mounts@) =~= records@.map_values(|m: MountRecord| m.mount()));
    }
    mounts
}

/// The details of one container.
pub fn container_details(record: &InspectRecord) -> (details: ContainerDetails)
    ensures
        details@ == record.details(),
{
    let ports = match &record.ports {
        Some(entries) => port_mappings(entries),
        None => Vec::new(),
    };
    let volumes = match &record.mounts {
        Some(records) => volume_mounts(records),
        None => Vec::new(),
    };
    proof {
        assert(port_views(Seq::<PortMapping>::empty()) =~= Seq::<PortMappingView>::empty());
        assert(mount_views(Seq::<VolumeMount>::empty()) =~= Seq::<VolumeMountView>::empty());
        assert(Seq::<MountRecord>::empty().map_values(|m: MountRecord| m.mount())
            =~= Seq::<VolumeMountView>::empty());
    }
    ContainerDetails {
        env: copy_or_none(&record.env),
        ports,
        volumes,
        networks: copy_or_none(&record.networks),
        hostname: field_or(&record.hostname, "Unknown"),
        image_id: field_or_empty(&record.image),
        created: field_or_empty(&record.created),
        restart_policy: field_or(&record.restart_policy, "no"),
    }
}

} // verus!
