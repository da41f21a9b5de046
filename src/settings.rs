use vstd::prelude::*;

use crate::error::Ec2CliError;
use crate::name_map::NameMap;
use crate::text::{chars_of, has_prefix};

verus! {

pub const MAX_TAG_KEY_LEN: usize = 128;

pub const MAX_TAG_VALUE_LEN: usize = 256;

/// Keys with this prefix belong to the provider.
pub const RESERVED_TAG_PREFIX: &'static str = "aws:";

/// The tag that identifies the operator on every resource.
pub const USERNAME_TAG: &'static str = "Username";

/// Operator settings: network overrides and custom tags for every resource.
pub struct Settings {
    pub tags: NameMap<String>,
    pub region: Option<String>,
    pub vpc_id: Option<String>,
    pub subnet_id: Option<String>,
}

/// A printable ASCII character: space through tilde.
pub open spec fn printable(c: char) -> bool {
    ' ' <= c <= '~'
}

pub open spec fn all_printable(s: Seq<char>) -> bool {
    forall|i: int| 0 <= i < s.len() ==> printable(#[trigger] s[i])
}

pub open spec fn valid_tag_key(key: Seq<char>) -> bool {
    &&& 0 < key.len() <= MAX_TAG_KEY_LEN
    &&& !RESERVED_TAG_PREFIX@.is_prefix_of(key)
    &&& all_printable(key)
}

pub open spec fn valid_tag_value(value: Seq<char>) -> bool {
    &&& value.len() <= MAX_TAG_VALUE_LEN
    &&& all_printable(value)
}

fn is_printable(s: &str) -> (r: bool)
    ensures
        r == all_printable(s@),
{
    let cs = chars_of(s);
    let mut i: usize = 0;
    while i < cs.len()
        invariant
            cs@ == s@,
            i <= cs@.len(),
            forall|j: int| 0 <= j < i ==> printable(#[trigger] s@[j]),
        decreases cs@.len() - i,
    {
        let c = cs[i];
        if !(c >= ' ' && c <= '~') {
            assert(!printable(s@[i as int]));
            return false;
        }
        i += 1;
    }
    true
}

impl Default for Settings {
    fn default() -> (r: Settings)
        ensures
            r.tags.wf(),
            r.tags@ == Map::<Seq<char>, String>::empty(),
            r.tags.pairs().len() == 0,
            r.region is None,
            r.vpc_id is None,
            r.subnet_id is None,
    {
        Settings { tags: NameMap::new(), region: None, vpc_id: None, subnet_id: None }
    }
}

impl Settings {
    /// Accepts a key of 1 to 128 printable ASCII characters that does not
    /// start with the reserved prefix.
    pub fn validate_tag_key(key: &str) -> (r: Result<(), Ec2CliError>)
        ensures
            r is Ok <==> valid_tag_key(key@),
            r matches Err(e) ==> e is Config,
    {
        if key.is_empty() {
            return Err(Ec2CliError::Config(String::from_str("Tag key cannot be empty")));
        }
        if key.unicode_len() > MAX_TAG_KEY_LEN {
            return Err(Ec2CliError::Config(String::from_str("Tag key cannot exceed 128 characters")));
        }
        if has_prefix(key, RESERVED_TAG_PREFIX) {
            return Err(
                Ec2CliError::Config(
                    String::from_str("Tag key cannot start with 'aws:' (reserved prefix)"),
                ),
            );
        }
        if !is_printable(key) {
            return Err(
                Ec2CliError::Config(
                    String::from_str("Tag key must contain only ASCII printable characters"),
                ),
            );
        }
        Ok(())
    }

    /// Accepts a value of at most 256 printable ASCII characters; the empty
    /// value is allowed.
    pub fn validate_tag_value(value: &str) -> (r: Result<(), Ec2CliError>)
        ensures
            r is Ok <==> valid_tag_value(value@),
            r matches Err(e) ==> e is Config,
    {
        if value.unicode_len() > MAX_TAG_VALUE_LEN {
            return Err(
                Ec2CliError::Config(String::from_str("Tag value cannot exceed 256 characters")),
            );
        }
        if !is_printable(value) {
            return Err(
                Ec2CliError::Config(
                    String::from_str("Tag value must contain only ASCII printable characters"),
                ),
            );
        }
        Ok(())
    }

    /// Sets a custom tag after validating key and value; on a rejected tag
    /// the settings are unchanged.
    pub fn set_tag(&mut self, key: &str, value: &str) -> (r: Result<(), Ec2CliError>)
        requires
            old(self).tags.wf(),
        ensures
            final(self).tags.wf(),
            final(self).region == old(self).region,
            final(self).vpc_id == old(self).vpc_id,
            final(self).subnet_id == old(self).subnet_id,
            r is Ok <==> valid_tag_key(key@) && valid_tag_value(value@),
            r matches Err(e) ==> e is Config && final(self).tags@ == old(self).tags@,
            r is Ok ==> final(self).tags@.contains_key(key@) && final(self).tags@[key@]@ == value@
                && final(self).tags@ == old(self).tags@.insert(key@, final(self).tags@[key@]),
    {
        Self::validate_tag_key(key)?;
        Self::validate_tag_value(value)?;
        let v = String::from_str(value);
        self.tags.insert(String::from_str(key), v);
        Ok(())
    }

    /// Removes a custom tag and returns its value, if it was set.
    pub fn remove_tag(&mut self, key: &str) -> (r: Option<String>)
        requires
            old(self).tags.wf(),
        ensures
            final(self).tags.wf(),
            final(self).tags@ == old(self).tags@.remove(key@),
            r == (if old(self).tags@.contains_key(key@) {
                Some(old(self).tags@[key@])
            } else {
                None
            }),
            final(self).region == old(self).region,
            final(self).vpc_id == old(self).vpc_id,
            final(self).subnet_id == old(self).subnet_id,
    {
        self.tags.remove(key)
    }

    /// Whether the operator's username tag is configured.
    pub fn has_username_tag(&self) -> (r: bool)
        requires
            self.tags.wf(),
        ensures
            r == self.tags@.contains_key(USERNAME_TAG@),
    {
        self.tags.contains_key(USERNAME_TAG)
    }
}

} // verus!
