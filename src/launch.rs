use vstd::prelude::*;

use crate::infrastructure::Infrastructure;
use crate::name_map::NameMap;
use crate::profile::Profile;

verus! {

/// Marks every resource that this tool manages.
pub const MANAGED_TAG_KEY: &'static str = "ec2-cli:managed";

pub const MANAGED_TAG_VALUE: &'static str = "true";

/// Holds the instance name that the operator chose.
pub const NAME_TAG_KEY: &'static str = "ec2-cli:name";

/// The provider's display-name tag.
pub const AWS_NAME_TAG: &'static str = "Name";

/// Prefix of the display name.
pub const DISPLAY_NAME_PREFIX: &'static str = "ec2-cli-";

#[derive(Debug)]
pub struct ResourceTag {
    pub key: String,
    pub value: String,
}

pub open spec fn is_standard_key(key: Seq<char>) -> bool {
    key == MANAGED_TAG_KEY@ || key == NAME_TAG_KEY@ || key == AWS_NAME_TAG@
}

/// Key and value of each tag, as text.
pub open spec fn tag_views(tags: Seq<ResourceTag>) -> Seq<(Seq<char>, Seq<char>)> {
    tags.map_values(|t: ResourceTag| (t.key@, t.value@))
}

/// The custom tags, in order, without those whose key a standard tag uses.
pub open spec fn custom_tags(pairs: Seq<(String, String)>) -> Seq<(Seq<char>, Seq<char>)>
    decreases pairs.len(),
{
    if pairs.len() == 0 {
        Seq::empty()
    } else {
        let rest = custom_tags(pairs.drop_last());
        if is_standard_key(pairs.last().0@) {
            rest
        } else {
            rest.push((pairs.last().0@, pairs.last().1@))
        }
    }
}

/// The tags of an instance named `name`.
pub open spec fn instance_tags(name: Seq<char>, custom: Seq<(String, String)>) -> Seq<
    (Seq<char>, Seq<char>),
> {
    seq![
        (MANAGED_TAG_KEY@, MANAGED_TAG_VALUE@),
        (NAME_TAG_KEY@, name),
        (AWS_NAME_TAG@, DISPLAY_NAME_PREFIX@ + name),
    ] + custom_tags(custom)
}

fn tag(key: &str, value: &str) -> (r: ResourceTag)
    ensures
        r.key@ == key@,
        r.value@ == value@,
{
    ResourceTag { key: String::from_str(key), value: String::from_str(value) }
}

fn is_standard(key: &String) -> (r: bool)
    ensures
        r == is_standard_key(key@),
{
    *key == String::from_str(MANAGED_TAG_KEY) || *key == String::from_str(NAME_TAG_KEY) || *key
        == String::from_str(AWS_NAME_TAG)
}

/// The standard tags (managed marker, name, display name) followed by the
/// operator's custom tags; where a custom tag reuses a standard key, the
/// standard tag wins.
pub fn create_tags(name: &str, custom: &NameMap<String>) -> (r: Vec<ResourceTag>)
    ensures
        tag_views(r@) == instance_tags(name@, custom.pairs()),
{
    let mut tags: Vec<ResourceTag> = Vec::new();
    tags.push(tag(MANAGED_TAG_KEY, MANAGED_TAG_VALUE));
    tags.push(tag(NAME_TAG_KEY, name));
    let mut display = String::from_str(DISPLAY_NAME_PREFIX);
    display.append(name);
    tags.push(tag(AWS_NAME_TAG, display.as_str()));
    let ghost standard = tag_views(tags@);
    assert(standard =~= seq![
        (MANAGED_TAG_KEY@, MANAGED_TAG_VALUE@),
        (NAME_TAG_KEY@, name@),
        (AWS_NAME_TAG@, DISPLAY_NAME_PREFIX@ + name@),
    ]);
    let n = custom.len();
    let mut i: usize = 0;
    while i < n
        invariant
            n == custom.pairs().len(),
            i <= n,
            tag_views(tags@) == standard + custom_tags(custom.pairs().subrange(0, i as int)),
        decreases n - i,
    {
        let ghost before = tags@;
        let (key, value) = custom.entry(i);
        proof {
            let now = custom.pairs().subrange(0, i + 1);
            assert(now.drop_last() =~= custom.pairs().subrange(0, i as int));
            assert(now.last() == custom.pairs()[i as int]);
        }
        if !is_standard(key) {
            tags.push(ResourceTag { key: key.clone(), value: value.clone() });
            assert(tag_views(tags@) =~= tag_views(before).push((key@, value@)));
        }
        i += 1;
    }
    assert(custom.pairs().subrange(0, n as int) =~= custom.pairs());
    tags
}

/// Everything the instance-creation call sends.
#[derive(Debug)]
pub struct LaunchRequest {
    pub image_id: String,
    pub instance_type: String,
    pub subnet_id: String,
    pub instance_profile_arn: String,
    pub root_volume_gb: u32,
    pub root_volume_type: String,
    pub user_data: String,
    pub tags: Vec<ResourceTag>,
}

/// The creation request for instance `name`: shape and storage from the
/// profile, placement and permission binding from the resolved
/// infrastructure, the bootstrap script, and the instance's tags.
pub fn launch_request(
    profile: &Profile,
    infra: &Infrastructure,
    image_id: String,
    name: &str,
    user_data: String,
    custom_tags: &NameMap<String>,
) -> (r: LaunchRequest)
    ensures
        r.image_id == image_id,
        r.instance_type == profile.instance.instance_type,
        r.subnet_id == infra.subnet_id,
        r.instance_profile_arn == infra.instance_profile_arn,
        r.root_volume_gb == profile.storage.root_volume.size_gb,
        r.root_volume_type == profile.storage.root_volume.volume_type,
        r.user_data == user_data,
        tag_views(r.tags@) == instance_tags(name@, custom_tags.pairs()),
{
    LaunchRequest {
        image_id,
        instance_type: profile.instance.instance_type.clone(),
        subnet_id: infra.subnet_id.clone(),
        instance_profile_arn: infra.instance_profile_arn.clone(),
        root_volume_gb: profile.storage.root_volume.size_gb,
        root_volume_type: profile.storage.root_volume.volume_type.clone(),
        user_data,
        tags: create_tags(name, custom_tags),
    }
}

} // verus!
