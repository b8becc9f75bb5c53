//! Read-only projection of runtime-reported containers and images into the
//! broker's normalized record shape.

use vstd::prelude::*;
use vstd::string::*;

verus! {

/// Normalized view of a runtime container, reduced to the fields the broker
/// reports. The `id` is authoritative and assigned by the runtime, never by
/// this crate.
#[derive(Debug)]
pub struct DockerContainer {
    /// The ID of this container
    pub id: String,
    /// The display name of this container
    pub name: String,
    /// The name of the image used when creating this container
    pub image: Option<String>,
    /// The ID of the image that this container was created from
    pub image_id: Option<String>,
    /// When the container was created
    pub created: Option<i64>,
    /// The public ports exposed by this container
    pub ports: Option<Vec<i64>>,
    /// The state of this container (e.g. `Exited`)
    pub state: Option<String>,
    /// Additional human-readable status of this container (e.g. `Exit 0`)
    pub status: Option<String>,
}

impl DockerContainer {
    pub fn new(
        id: String,
        name: String,
        image: Option<String>,
        image_id: Option<String>,
        created: Option<i64>,
        ports: Option<Vec<i64>>,
        state: Option<String>,
        status: Option<String>,
    ) -> (c: DockerContainer)
        ensures
            c.id == id,
            c.name == name,
            c.image == image,
            c.image_id == image_id,
            c.created == created,
            c.ports == ports,
            c.state == state,
            c.status == status,
    {
        DockerContainer { id, name, image, image_id, created, ports, state, status }
    }
}

/// One runtime-reported port entry; only entries with a public mapping are
/// carried over into the normalized record.
#[derive(Clone, Copy, Debug)]
pub struct PortReport {
    pub public_port: Option<i64>,
}

/// A container exactly as the runtime reports it, before normalization.
#[derive(Debug)]
pub struct RawContainer {
    pub id: Option<String>,
    pub names: Option<Vec<String>>,
    pub image: Option<String>,
    pub image_id: Option<String>,
    pub created: Option<i64>,
    pub ports: Option<Vec<PortReport>>,
    pub state: Option<String>,
    pub status: Option<String>,
}

/// The display name of a container: the first runtime-reported name with its
/// leading separator character stripped; the empty string when no name was
/// reported.
pub open spec fn spec_display_name(names: &Option<Vec<String>>) -> Seq<char> {
    match names {
        Option::None => Seq::<char>::empty(),
        Option::Some(ns) => if ns@.len() == 0 || ns@[0]@.len() == 0 {
            Seq::<char>::empty()
        } else {
            ns@[0]@.subrange(1, ns@[0]@.len() as int)
        },
    }
}

/// The runtime-reported public ports, in report order; entries without a
/// public mapping are omitted.
pub open spec fn spec_public_ports(ps: Seq<PortReport>) -> Seq<i64>
    decreases ps.len(),
{
    if ps.len() == 0 {
        Seq::<i64>::empty()
    } else {
        match ps.last().public_port {
            Option::Some(p) => spec_public_ports(ps.drop_last()).push(p),
            Option::None => spec_public_ports(ps.drop_last()),
        }
    }
}

/// How a normalized record relates to the raw runtime report it came from.
pub open spec fn spec_normalized(raw: &RawContainer, c: &DockerContainer) -> bool {
    &&& c.id == raw.id.unwrap()
    &&& c.name@ == spec_display_name(&raw.names)
    &&& c.image == raw.image
    &&& c.image_id == raw.image_id
    &&& c.created == raw.created
    &&& (raw.ports is None ==> c.ports is None)
    &&& (raw.ports matches Some(ps) ==> c.ports matches Some(v) && v@ == spec_public_ports(ps@))
    &&& c.state == raw.state
    &&& c.status == raw.status
}

/// Extracts the display name from a runtime-reported name list.
pub fn display_name(names: &Option<Vec<String>>) -> (r: String)
    ensures
        r@ == spec_display_name(names),
{
    match names {
        Option::None => String::new(),
        Option::Some(ns) => {
            if ns.len() == 0 {
                String::new()
            } else {
                let first: &String = &ns[0];
                let n = first.as_str().unicode_len();
                if n == 0 {
                    String::new()
                } else {
                    String::from_str(first.as_str().substring_char(1, n))
                }
            }
        },
    }
}

/// Keeps only the ports with a public mapping, in report order.
pub fn public_ports(ps: &Vec<PortReport>) -> (v: Vec<i64>)
    ensures
        v@ == spec_public_ports(ps@),
{
    let mut v: Vec<i64> = Vec::new();
    let mut i: usize = 0;
    while i < ps.len()
        invariant
            i <= ps@.len(),
            v@ == spec_public_ports(ps@.subrange(0, i as int)),
        decreases ps@.len() - i,
    {
        proof {
            assert(ps@.subrange(0, i + 1).drop_last() =~= ps@.subrange(0, i as int));
            assert(ps@.subrange(0, i + 1).last() == ps@[i as int]);
        }
        match ps[i].public_port {
            Option::Some(p) => v.push(p),
            Option::None => (),
        }
        i += 1;
    }
    proof {
        assert(ps@.subrange(0, ps@.len() as int) =~= ps@);
    }
    v
}

fn clone_opt_string(s: &Option<String>) -> (r: Option<String>)
    ensures
        r == s,
{
    match s {
        Option::Some(x) => Option::Some(x.clone()),
        Option::None => Option::None,
    }
}

/// Projects one raw runtime report into the normalized record shape.
pub fn normalize_container(raw: &RawContainer) -> (c: DockerContainer)
    requires
        raw.id is Some,
    ensures
        spec_normalized(raw, &c),
{
    let id = match &raw.id {
        Option::Some(i) => i.clone(),
        Option::None => unreached(),
    };
    let name = display_name(&raw.names);
    let ports = match &raw.ports {
        Option::Some(ps) => Option::Some(public_ports(ps)),
        Option::None => Option::None,
    };
    DockerContainer {
        id,
        name,
        image: clone_opt_string(&raw.image),
        image_id: clone_opt_string(&raw.image_id),
        created: raw.created,
        ports,
        state: clone_opt_string(&raw.state),
        status: clone_opt_string(&raw.status),
    }
}

/// Projects a whole runtime listing, preserving report order.
pub fn normalize_containers(raws: &Vec<RawContainer>) -> (cs: Vec<DockerContainer>)
    requires
        forall|i: int| 0 <= i < raws@.len() ==> (#[trigger] raws@[i]).id is Some,
    ensures
        cs@.len() == raws@.len(),
        forall|i: int| 0 <= i < raws@.len() ==> spec_normalized(&raws@[i], &(#[trigger] cs@[i])),
{
    let mut cs: Vec<DockerContainer> = Vec::new();
    let mut i: usize = 0;
    while i < raws.len()
        invariant
            i <= raws@.len(),
            cs@.len() == i,
            forall|j: int| 0 <= j < raws@.len() ==> (#[trigger] raws@[j]).id is Some,
            forall|j: int| 0 <= j < i ==> spec_normalized(&raws@[j], &(#[trigger] cs@[j])),
        decreases raws@.len() - i,
    {
        cs.push(normalize_container(&raws[i]));
        i += 1;
    }
    cs
}

/// One runtime-reported image summary, reduced to its identifier.
#[derive(Debug)]
pub struct ImageReport {
    pub id: String,
}

/// The identifiers of a runtime image listing, in report order.
pub fn collect_image_ids(images: Vec<ImageReport>) -> (ids: Vec<String>)
    ensures
        ids@.len() == images@.len(),
        forall|i: int| 0 <= i < images@.len() ==> ids@[i] == (#[trigger] images@[i]).id,
{
    let ghost orig = images@;
    let mut rest = images;
    let mut ids: Vec<String> = Vec::new();
    while rest.len() > 0
        invariant
            ids@.len() + rest@.len() == orig.len(),
            rest@ =~= orig.subrange(ids@.len() as int, orig.len() as int),
            forall|i: int| 0 <= i < ids@.len() ==> ids@[i] == (#[trigger] orig[i]).id,
        decreases rest@.len(),
    {
        let img = rest.remove(0);
        ids.push(img.id);
    }
    ids
}

} // verus!
