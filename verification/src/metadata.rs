//! The on-chain metadata extension carried by each asset. The hub treats
//! it as an opaque blob: it is stored at mint and travels unchanged
//! through every relocation.

use vstd::prelude::*;

verus! {

/// One display attribute of an asset's metadata.
pub struct MetadataAttribute {
    pub display_type: Option<String>,
    pub trait_type: String,
    pub value: String,
}

/// The metadata blob attached to an asset.
pub struct Metadata {
    pub image: Option<String>,
    pub image_data: Option<String>,
    pub external_url: Option<String>,
    pub description: Option<String>,
    pub name: Option<String>,
    pub attributes: Option<Vec<MetadataAttribute>>,
    pub background_color: Option<String>,
    pub animation_url: Option<String>,
    pub youtube_url: Option<String>,
}

/// The view of an optional string.
pub open spec fn spec_opt_str(o: Option<String>) -> Option<Seq<char>> {
    match o {
        Some(s) => Some(s@),
        None => None,
    }
}

/// The mathematical view of one metadata attribute.
pub struct MetadataAttributeV {
    pub display_type: Option<Seq<char>>,
    pub trait_type: Seq<char>,
    pub value: Seq<char>,
}

impl View for MetadataAttribute {
    type V = MetadataAttributeV;

    open spec fn view(&self) -> MetadataAttributeV {
        MetadataAttributeV {
            display_type: spec_opt_str(self.display_type),
            trait_type: self.trait_type@,
            value: self.value@,
        }
    }
}

/// The mathematical view of a metadata blob.
pub struct MetadataV {
    pub image: Option<Seq<char>>,
    pub image_data: Option<Seq<char>>,
    pub external_url: Option<Seq<char>>,
    pub description: Option<Seq<char>>,
    pub name: Option<Seq<char>>,
    pub attributes: Option<Seq<MetadataAttributeV>>,
    pub background_color: Option<Seq<char>>,
    pub animation_url: Option<Seq<char>>,
    pub youtube_url: Option<Seq<char>>,
}

impl View for Metadata {
    type V = MetadataV;

    open spec fn view(&self) -> MetadataV {
        MetadataV {
            image: spec_opt_str(self.image),
            image_data: spec_opt_str(self.image_data),
            external_url: spec_opt_str(self.external_url),
            description: spec_opt_str(self.description),
            name: spec_opt_str(self.name),
            attributes: match self.attributes {
                Some(v) => Some(v@.map_values(|a: MetadataAttribute| a@)),
                None => None,
            },
            background_color: spec_opt_str(self.background_color),
            animation_url: spec_opt_str(self.animation_url),
            youtube_url: spec_opt_str(self.youtube_url),
        }
    }
}

/// The view of an optional metadata blob.
pub open spec fn spec_opt_metadata(o: Option<Metadata>) -> Option<MetadataV> {
    match o {
        Some(m) => Some(m@),
        None => None,
    }
}

/// Copies an optional string.
pub fn clone_opt_str(o: &Option<String>) -> (r: Option<String>)
    ensures
        spec_opt_str(r) == spec_opt_str(*o),
{
    match o {
        Some(s) => Some(s.clone()),
        None => None,
    }
}

/// Copies one metadata attribute.
pub fn clone_attribute(a: &MetadataAttribute) -> (r: MetadataAttribute)
    ensures
        r@ == a@,
{
    MetadataAttribute {
        display_type: clone_opt_str(&a.display_type),
        trait_type: a.trait_type.clone(),
        value: a.value.clone(),
    }
}

/// Copies a metadata blob.
pub fn clone_metadata(m: &Metadata) -> (r: Metadata)
    ensures
        r@ == m@,
{
    let attributes: Option<Vec<MetadataAttribute>> = match &m.attributes {
        Some(v) => {
            let mut out: Vec<MetadataAttribute> = Vec::new();
            let mut i: usize = 0;
            while i < v.len()
                invariant
                    0 <= i <= v@.len(),
                    out@.len() == i,
                    forall|j: int| 0 <= j < i ==> out@[j]@ == v@[j]@,
                decreases v@.len() - i,
            {
                out.push(clone_attribute(&v[i]));
                i = i + 1;
            }
            proof {
                assert(out@.map_values(|a: MetadataAttribute| a@) =~= v@.map_values(
                    |a: MetadataAttribute| a@,
                ));
            }
            Some(out)
        },
        None => None,
    };
    let r = Metadata {
        image: clone_opt_str(&m.image),
        image_data: clone_opt_str(&m.image_data),
        external_url: clone_opt_str(&m.external_url),
        description: clone_opt_str(&m.description),
        name: clone_opt_str(&m.name),
        attributes,
        background_color: clone_opt_str(&m.background_color),
        animation_url: clone_opt_str(&m.animation_url),
        youtube_url: clone_opt_str(&m.youtube_url),
    };
    r
}

/// Copies an optional metadata blob.
pub fn clone_opt_metadata(o: &Option<Metadata>) -> (r: Option<Metadata>)
    ensures
        spec_opt_metadata(r) == spec_opt_metadata(*o),
{
    match o {
        Some(m) => Some(clone_metadata(m)),
        None => None,
    }
}

impl Metadata {
    /// A metadata blob with every field unset.
    pub fn empty() -> (r: Metadata)
        ensures
            r@.image is None,
            r@.image_data is None,
            r@.external_url is None,
            r@.description is None,
            r@.name is None,
            r@.attributes is None,
            r@.background_color is None,
            r@.animation_url is None,
            r@.youtube_url is None,
    {
        Metadata {
            image: None,
            image_data: None,
            external_url: None,
            description: None,
            name: None,
            attributes: None,
            background_color: None,
            animation_url: None,
            youtube_url: None,
        }
    }
}

} // verus!
