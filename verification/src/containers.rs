//! Containers as the container runtime reports them: name, labels, run state and health.
use vstd::prelude::*;
use crate::text::{owned, str_eq};

verus! {

/// The health check state of a container.
#[derive(Clone, Copy, Debug, PartialEq, Eq, Structural)]
pub enum HealthStatus {
    Healthy,
    Starting,
    Unhealthy,
    /// The container has no health check.
    Unchecked,
}

/// A container as the container runtime lists it: name, labels and whether it runs.
#[derive(Clone, Debug)]
pub struct ContainerInfo {
    pub name: String,
    pub labels: Vec<(String, String)>,
    pub running: bool,
    pub health: HealthStatus,
}

/// The value of the label `key`, if the labels hold it (label keys are distinct).
pub open spec fn label_value(labels: Seq<(Seq<char>, Seq<char>)>, key: Seq<char>) -> Option<Seq<char>>
    decreases labels.len(),
{
    if labels.len() == 0 {
        None
    } else if labels[0].0 == key {
        Some(labels[0].1)
    } else {
        label_value(labels.drop_first(), key)
    }
}

/// The views of label pairs.
pub open spec fn label_views(v: Seq<(String, String)>) -> Seq<(Seq<char>, Seq<char>)> {
    v.map_values(|p: (String, String)| (p.0@, p.1@))
}

/// The value of the label `key`: that of the first pair with this key.
pub fn find_label(labels: &Vec<(String, String)>, key: &str) -> (r: Option<String>)
    ensures
        match label_value(label_views(labels@), key@) {
            Some(v) => r is Some && r->0@ == v,
            None => r is None,
        },
{
    let ghost ls = label_views(labels@);
    let mut i: usize = 0;
    assert(ls.skip(0) =~= ls);
    while i < labels.len()
        invariant
            i <= labels@.len(),
            ls == label_views(labels@),
            label_value(ls.skip(i as int), key@) == label_value(ls, key@),
        decreases labels@.len() - i,
    {
        assert(ls.skip(i as int)[0] == ls[i as int]);
        if str_eq(labels[i].0.as_str(), key) {
            return Some(owned(labels[i].1.as_str()));
        }
        assert(ls.skip(i as int).drop_first() =~= ls.skip(i + 1));
        i += 1;
    }
    assert(ls.skip(i as int).len() == 0);
    None
}

} // verus!
