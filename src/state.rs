use vstd::prelude::*;

use crate::error::Ec2CliError;
use crate::name_map::NameMap;

verus! {

/// What is recorded of one provisioned instance.
#[derive(Debug)]
pub struct InstanceState {
    pub instance_id: String,
    pub profile: String,
    pub region: String,
    /// When it was recorded, as RFC 3339 text in UTC.
    pub created_at: String,
}

/// The durable record: instance names, each bound to one instance.
pub struct State {
    pub instances: NameMap<InstanceState>,
}

/// Relies on chrono's conversion of a `SystemTime` into `DateTime<Utc>`,
/// which also accepts clocks before 1970, and `DateTime::to_rfc3339_opts`:
/// the current time as RFC 3339 text in UTC. Nothing is promised of the
/// value, which depends on the clock.
#[verifier::external_body]
fn timestamp_now() -> (r: String) {
    let now = chrono::DateTime::<chrono::Utc>::from(std::time::SystemTime::now());
    now.to_rfc3339_opts(chrono::SecondsFormat::AutoSi, true)
}

/// The record of an instance with these fields.
pub open spec fn record_matches(
    r: InstanceState,
    instance_id: Seq<char>,
    profile: Seq<char>,
    region: Seq<char>,
) -> bool {
    r.instance_id@ == instance_id && r.profile@ == profile && r.region@ == region
}

impl Default for State {
    fn default() -> (r: State)
        ensures
            r.instances.wf(),
            r.instances@ == Map::<Seq<char>, InstanceState>::empty(),
            r.instances.pairs().len() == 0,
    {
        State { instances: NameMap::new() }
    }
}

impl State {
    /// Records `name` as bound to the instance, stamped with `created_at`;
    /// a previous record under that name is replaced.
    pub fn add_instance_at(
        &mut self,
        name: &str,
        instance_id: &str,
        profile: &str,
        region: &str,
        created_at: String,
    )
        requires
            old(self).instances.wf(),
        ensures
            final(self).instances.wf(),
            final(self).instances@.contains_key(name@),
            record_matches(final(self).instances@[name@], instance_id@, profile@, region@),
            final(self).instances@[name@].created_at == created_at,
            final(self).instances@ == old(self).instances@.insert(
                name@,
                final(self).instances@[name@],
            ),
    {
        let record = InstanceState {
            instance_id: String::from_str(instance_id),
            profile: String::from_str(profile),
            region: String::from_str(region),
            created_at,
        };
        self.instances.insert(String::from_str(name), record);
    }

    /// Records `name` as bound to the instance, stamped with the current time.
    pub fn add_instance(&mut self, name: &str, instance_id: &str, profile: &str, region: &str)
        requires
            old(self).instances.wf(),
        ensures
            final(self).instances.wf(),
            final(self).instances@.contains_key(name@),
            record_matches(final(self).instances@[name@], instance_id@, profile@, region@),
            final(self).instances@ == old(self).instances@.insert(
                name@,
                final(self).instances@[name@],
            ),
    {
        let now = timestamp_now();
        self.add_instance_at(name, instance_id, profile, region, now);
    }

    /// Removes the record of `name` and returns it, if there was one.
    pub fn remove_instance(&mut self, name: &str) -> (r: Option<InstanceState>)
        requires
            old(self).instances.wf(),
        ensures
            final(self).instances.wf(),
            final(self).instances@ == old(self).instances@.remove(name@),
            r == (if old(self).instances@.contains_key(name@) {
                Some(old(self).instances@[name@])
            } else {
                None
            }),
    {
        self.instances.remove(name)
    }

    /// The record of `name`, if there is one.
    pub fn get_instance(&self, name: &str) -> (r: Option<&InstanceState>)
        requires
            self.instances.wf(),
        ensures
            r == (if self.instances@.contains_key(name@) {
                Some(&self.instances@[name@])
            } else {
                None
            }),
    {
        self.instances.get(name)
    }
}

/// What a lookup of `name` returns on a record with mapping `m`.
pub open spec fn lookup(m: Map<Seq<char>, InstanceState>, name: Seq<char>) -> Option<InstanceState> {
    if m.contains_key(name) {
        Some(m[name])
    } else {
        None
    }
}

/// A record added under a name is what a lookup of that name returns, and
/// the other names keep their records; removing it returns that record, after
/// which the name is unbound.
pub proof fn lemma_state_round_trip(
    m: Map<Seq<char>, InstanceState>,
    name: Seq<char>,
    record: InstanceState,
)
    ensures
        lookup(m.insert(name, record), name) == Some(record),
        forall|other: Seq<char>|
            other != name ==> lookup(m.insert(name, record), other) == lookup(m, other),
        lookup(m.insert(name, record).remove(name), name) is None,
{
    assert forall|other: Seq<char>| other != name implies lookup(m.insert(name, record), other)
        == lookup(m, other) by {}
}

/// A character with the Unicode White_Space property.
pub open spec fn white_space(c: char) -> bool {
    ('\u{9}' <= c <= '\u{d}') || c == ' ' || c == '\u{85}' || c == '\u{a0}' || c == '\u{1680}'
        || ('\u{2000}' <= c <= '\u{200a}') || c == '\u{2028}' || c == '\u{2029}' || c
        == '\u{202f}' || c == '\u{205f}' || c == '\u{3000}'
}

pub open spec fn trimmed_start(s: Seq<char>) -> Seq<char>
    decreases s.len(),
{
    if s.len() > 0 && white_space(s[0]) {
        trimmed_start(s.drop_first())
    } else {
        s
    }
}

pub open spec fn trimmed_end(s: Seq<char>) -> Seq<char>
    decreases s.len(),
{
    if s.len() > 0 && white_space(s.last()) {
        trimmed_end(s.drop_last())
    } else {
        s
    }
}

/// The text without leading and trailing whitespace.
pub open spec fn trimmed(s: Seq<char>) -> Seq<char> {
    trimmed_end(trimmed_start(s))
}

/// Relies on `str::trim` to strip leading and trailing whitespace.
#[verifier::external_body]
fn trim(s: &str) -> (r: String)
    ensures
        r@ == trimmed(s@),
{
    s.trim().to_string()
}

/// The instance name held by a trimmed link marker, if it holds one.
pub fn linked_name(trimmed_content: String) -> (r: Option<String>)
    ensures
        trimmed_content@.len() == 0 ==> r is None,
        trimmed_content@.len() > 0 ==> r == Some(trimmed_content),
{
    if trimmed_content.as_str().is_empty() {
        None
    } else {
        Some(trimmed_content)
    }
}

/// The instance name that a directory's link marker holds: its text without
/// surrounding whitespace, unless that is empty.
pub fn linked_instance_from(content: &str) -> (r: Option<String>)
    ensures
        trimmed(content@).len() == 0 ==> r is None,
        trimmed(content@).len() > 0 ==> (r matches Some(n) && n@ == trimmed(content@)),
{
    linked_name(trim(content))
}

/// The explicit name if one is given, else the linked one.
pub fn resolve_instance_name(name: Option<&str>, linked: Option<String>) -> (r: Result<
    String,
    Ec2CliError,
>)
    ensures
        name matches Some(n) ==> (r matches Ok(s) && s@ == n@),
        name is None && linked is Some ==> r == Ok::<String, Ec2CliError>(linked->0),
        name is None && linked is None ==> (r matches Err(Ec2CliError::InstanceNotFound(_))),
{
    match name {
        Some(n) => Ok(String::from_str(n)),
        None => match linked {
            Some(l) => Ok(l),
            None => Err(
                Ec2CliError::InstanceNotFound(
                    String::from_str("No instance name provided and no linked instance found"),
                ),
            ),
        },
    }
}

} // verus!
