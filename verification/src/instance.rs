use crate::text::{starts_with, texts_of};
use vstd::prelude::*;
use vstd::string::*;

verus! {

/// Where the public directory of service instances is fetched from.
pub const DIRECTORY_URL: &'static str = "https://api.invidious.io/instances.json";

/// One entry of the public directory of service instances.
#[derive(Clone, Debug, PartialEq, Eq)]
pub struct Instance {
    pub kind: String,
    pub uri: String,
    pub supports_api: Option<bool>,
}

/// An entry of the directory, with its texts as sequences of characters.
pub struct InstanceView {
    pub kind: Seq<char>,
    pub uri: Seq<char>,
    pub supports_api: Option<bool>,
}

impl View for Instance {
    type V = InstanceView;

    open spec fn view(&self) -> InstanceView {
        InstanceView { kind: self.kind@, uri: self.uri@, supports_api: self.supports_api }
    }
}

impl InstanceView {
    /// An instance can be used where its kind begins with `http` and it is
    /// known to answer the search interface.
    pub open spec fn usable(self) -> bool {
        "http"@.is_prefix_of(self.kind) && self.supports_api == Some(true)
    }
}

/// The views of the instances of a directory, without their names.
pub open spec fn instances_of(directory: Seq<(String, Instance)>) -> Seq<InstanceView> {
    directory.map_values(|entry: (String, Instance)| entry.1@)
}

/// The addresses of the usable instances among `instances`, in their order.
pub open spec fn usable_uris_of(instances: Seq<InstanceView>) -> Seq<Seq<char>>
    decreases instances.len(),
{
    if instances.len() == 0 {
        Seq::empty()
    } else if instances.last().usable() {
        usable_uris_of(instances.drop_last()).push(instances.last().uri)
    } else {
        usable_uris_of(instances.drop_last())
    }
}

/// The address at the place that the number `random` falls on, in a list
/// that is not empty.
pub open spec fn picked_of(list: Seq<Seq<char>>, random: nat) -> Seq<char>
    recommends
        list.len() > 0,
{
    list[(random % list.len()) as int]
}

impl Instance {
    /// Whether the instance can be used for a search.
    pub fn is_usable(&self) -> (r: bool)
        ensures
            r == self@.usable(),
    {
        match self.supports_api {
            Some(true) => starts_with(self.kind.as_str(), "http"),
            _ => false,
        }
    }
}

/// The addresses of the usable instances of a directory, in the directory's
/// order. The names under which the directory lists them play no part.
pub fn usable_uris(directory: &Vec<(String, Instance)>) -> (list: Vec<String>)
    ensures
        texts_of(list@) == usable_uris_of(instances_of(directory@)),
{
    let ghost all = instances_of(directory@);
    let mut list: Vec<String> = Vec::new();
    let mut i: usize = 0;
    assert(texts_of(list@) == Seq::<Seq<char>>::empty());
    assert(all.take(0) == Seq::<InstanceView>::empty());
    while i < directory.len()
        invariant
            0 <= i <= directory.len(),
            all == instances_of(directory@),
            texts_of(list@) == usable_uris_of(all.take(i as int)),
        decreases directory.len() - i,
    {
        let ghost before = list@;
        proof {
            let upto = all.take(i + 1);
            assert(upto.drop_last() == all.take(i as int));
            assert(upto.last() == directory@[i as int].1@);
        }
        if directory[i].1.is_usable() {
            list.push(directory[i].1.uri.clone());
            assert(texts_of(list@) == texts_of(before).push(directory@[i as int].1.uri@));
        }
        i = i + 1;
    }
    assert(all.take(directory.len() as int) == all);
    list
}

/// The instance at the place that the number `random` falls on: the
/// remainder of `random` by the length of the list. An empty list has no
/// such place and gives nothing.
pub fn pick_instance(list: &Vec<String>, random: usize) -> (r: Option<String>)
    ensures
        list@.len() == 0 <==> r is None,
        r matches Some(uri) ==> uri@ == picked_of(texts_of(list@), random as nat),
{
    if list.len() == 0 {
        None
    } else {
        Some(list[random % list.len()].clone())
    }
}

/// Every address among the usable ones is the address of a usable instance
/// of the directory.
pub proof fn usable_uris_are_usable(instances: Seq<InstanceView>, k: int)
    requires
        0 <= k < usable_uris_of(instances).len(),
    ensures
        exists|i: int|
            0 <= i < instances.len() && (#[trigger] instances[i]).usable() && instances[i].uri
                == usable_uris_of(instances)[k],
    decreases instances.len(),
{
    let rest = instances.drop_last();
    let last = instances.len() - 1;
    if instances.last().usable() && k == usable_uris_of(rest).len() {
        assert(instances[last].usable());
    } else {
        usable_uris_are_usable(rest, k);
        let i = choose|i: int|
            0 <= i < rest.len() && (#[trigger] rest[i]).usable() && rest[i].uri == usable_uris_of(
                rest,
            )[k];
        assert(instances[i] == rest[i]);
    }
}

/// Every usable instance of the directory has its address among the usable
/// ones.
pub proof fn usable_instance_is_listed(instances: Seq<InstanceView>, i: int)
    requires
        0 <= i < instances.len(),
        instances[i].usable(),
    ensures
        usable_uris_of(instances).contains(instances[i].uri),
    decreases instances.len(),
{
    let rest = instances.drop_last();
    let found = usable_uris_of(instances);
    if i == instances.len() - 1 {
        assert(found[found.len() - 1] == instances[i].uri);
    } else {
        usable_instance_is_listed(rest, i);
        let k = choose|k: int|
            0 <= k < usable_uris_of(rest).len() && usable_uris_of(rest)[k] == rest[i].uri;
        assert(found[k] == instances[i].uri);
    }
}

/// Whatever number is drawn, the instance picked from the usable ones of a
/// directory is a usable instance of that directory: one that cannot be used
/// is never chosen.
pub proof fn picked_instance_is_usable(instances: Seq<InstanceView>, random: nat)
    requires
        usable_uris_of(instances).len() > 0,
    ensures
        exists|i: int|
            0 <= i < instances.len() && (#[trigger] instances[i]).usable() && instances[i].uri
                == picked_of(usable_uris_of(instances), random),
{
    let list = usable_uris_of(instances);
    usable_uris_are_usable(instances, (random % list.len()) as int);
}

} // verus!
