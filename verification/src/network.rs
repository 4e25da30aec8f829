//! Names under which containers reach each other and the machine that runs the tests

use vstd::prelude::*;

verus! {

/// The host name under which containers reach the machine that runs the tests
///
/// Some platforms set this name up by themselves and others do not. It is therefore given to
/// every container, so that it can be relied on everywhere.
pub const DOCKER_HOST: &'static str = "host.docker.internal";

/// The host name under which a service reaches the server that is tested
pub const SERVER_HOST: &'static str = "doco";

/// The address of a container in the network that the containers share.
#[derive(Clone, Copy, Debug, PartialEq, Eq, Structural)]
pub enum IpAddress {
    /// An IPv4 address, as a number of 32 bits
    V4(u32),
    /// An IPv6 address, as a number of 128 bits
    V6(u128),
}

/// What a host name stands for inside a container.
#[derive(Clone, Copy, Debug, PartialEq, Eq, Structural)]
pub enum Host {
    /// The name stands for the given address.
    Addr(IpAddress),
    /// The name stands for the machine that runs the containers.
    HostGateway,
}

/// A host name and what it stands for.
#[derive(Debug)]
pub struct HostAlias {
    name: String,
    host: Host,
}

impl HostAlias {
    /// The host name
    pub fn name(&self) -> (name: &String)
        ensures
            name@ == self.spec_name(),
    {
        &self.name
    }

    /// What the name stands for
    pub fn host(&self) -> (host: Host)
        ensures
            host == self.spec_host(),
    {
        self.host
    }

    /// The host name, as a sequence of characters
    pub closed spec fn spec_name(&self) -> Seq<char> {
        self.name@
    }

    /// What the name stands for
    pub closed spec fn spec_host(&self) -> Host {
        self.host
    }
}

/// What `name` stands for in a list of registrations in which a later one replaces an earlier
/// one of the same name.
pub open spec fn lookup(pairs: Seq<(Seq<char>, Host)>, name: Seq<char>) -> Option<Host>
    decreases pairs.len(),
{
    if pairs.len() == 0 {
        None
    } else if pairs.last().0 == name {
        Some(pairs.last().1)
    } else {
        lookup(pairs.drop_last(), name)
    }
}

/// No name occurs twice in the list.
pub open spec fn distinct_names(pairs: Seq<(Seq<char>, Host)>) -> bool {
    forall|i: int, j: int| 0 <= i < j < pairs.len() ==> pairs[i].0 != pairs[j].0
}

/// A name is found exactly if it occurs in the list, and where no name occurs twice, it stands
/// for what its one entry says.
pub proof fn lemma_lookup(pairs: Seq<(Seq<char>, Host)>, name: Seq<char>)
    ensures
        lookup(pairs, name) is Some <==> exists|i: int|
            0 <= i < pairs.len() && (#[trigger] pairs[i]).0 == name,
        distinct_names(pairs) ==> forall|i: int|
            0 <= i < pairs.len() && (#[trigger] pairs[i]).0 == name ==> lookup(pairs, name)
                == Some(pairs[i].1),
    decreases pairs.len(),
{
    if pairs.len() > 0 {
        let rest = pairs.drop_last();
        lemma_lookup(rest, name);
        if pairs.last().0 == name {
            assert(pairs[pairs.len() - 1].0 == name);
        } else {
            if lookup(rest, name) is Some {
                let i = choose|i: int| 0 <= i < rest.len() && (#[trigger] rest[i]).0 == name;
                assert(pairs[i].0 == name);
            }
            if exists|i: int| 0 <= i < pairs.len() && (#[trigger] pairs[i]).0 == name {
                let i = choose|i: int| 0 <= i < pairs.len() && (#[trigger] pairs[i]).0 == name;
                assert(rest[i].0 == name);
            }
            if distinct_names(pairs) {
                assert(distinct_names(rest)) by {
                    assert forall|i: int, j: int| 0 <= i < j < rest.len() implies rest[i].0
                        != rest[j].0 by {
                        assert(pairs[i].0 != pairs[j].0);
                    }
                }
                assert forall|i: int|
                    0 <= i < pairs.len() && (#[trigger] pairs[i]).0 == name implies lookup(
                    pairs,
                    name,
                ) == Some(pairs[i].1) by {
                    assert(rest[i].0 == name);
                }
            }
        }
    }
}

/// The entries of a list as pairs of a name and what it stands for.
spec fn pairs_of(entries: Seq<HostAlias>) -> Seq<(Seq<char>, Host)> {
    Seq::new(entries.len(), |i: int| (entries[i].name@, entries[i].host))
}

/// The host names that a container is started with.
///
/// Each name stands for one thing: where a name is registered a second time, the later
/// registration replaces the earlier one.
#[derive(Debug)]
pub struct Hosts {
    entries: Vec<HostAlias>,
}

impl View for Hosts {
    type V = Map<Seq<char>, Host>;

    closed spec fn view(&self) -> Map<Seq<char>, Host> {
        Map::new(
            |name: Seq<char>| lookup(self.pairs(), name) is Some,
            |name: Seq<char>| lookup(self.pairs(), name)->0,
        )
    }
}

impl DeepView for Hosts {
    type V = Map<Seq<char>, Host>;

    open spec fn deep_view(&self) -> Map<Seq<char>, Host> {
        self@
    }
}

impl Hosts {
    #[verifier::type_invariant]
    spec fn well_formed(self) -> bool {
        distinct_names(self.pairs())
    }

    /// The entries, as pairs of a name and what it stands for.
    pub closed spec fn pairs(&self) -> Seq<(Seq<char>, Host)> {
        pairs_of(self.entries@)
    }

    /// No host names.
    pub fn new() -> (hosts: Hosts)
        ensures
            hosts@ == Map::<Seq<char>, Host>::empty(),
    {
        let hosts = Hosts { entries: Vec::new() };
        assert(hosts@ =~= Map::<Seq<char>, Host>::empty());
        hosts
    }

    /// What the name stands for, if it is registered.
    pub fn get(&self, name: &str) -> (host: Option<Host>)
        ensures
            host == if self@.contains_key(name@) {
                Some(self@[name@])
            } else {
                None::<Host>
            },
    {
        let wanted = name.to_owned();
        let mut i: usize = 0;
        while i < self.entries.len()
            invariant
                i <= self.entries.len(),
                wanted@ == name@,
                forall|j: int| 0 <= j < i ==> (#[trigger] self.pairs()[j]).0 != name@,
            decreases self.entries.len() - i,
        {
            if self.entries[i].name == wanted {
                proof {
                    use_type_invariant(self);
                    lemma_lookup(self.pairs(), name@);
                    assert(self.pairs()[i as int].0 == name@);
                }
                return Some(self.entries[i].host);
            }
            i += 1;
        }
        proof {
            lemma_lookup(self.pairs(), name@);
        }
        None
    }

    /// Register a name. A name that was registered before stands for the new host from now on.
    pub fn insert(self, name: &str, host: Host) -> (hosts: Hosts)
        ensures
            hosts@ == self@.insert(name@, host),
    {
        proof {
            use_type_invariant(&self);
        }
        let ghost before = self.pairs();
        let wanted = name.to_owned();
        let mut entries = self.entries;
        let mut i: usize = 0;
        while i < entries.len()
            invariant
                i <= entries.len(),
                wanted@ == name@,
                forall|j: int| 0 <= j < i ==> entries[j].name@ != name@,
            ensures
                i <= entries.len(),
                i < entries.len() ==> entries[i as int].name@ == name@,
                forall|j: int| 0 <= j < i ==> entries[j].name@ != name@,
            decreases entries.len() - i,
        {
            if entries[i].name == wanted {
                break;
            }
            i += 1;
        }
        if i < entries.len() {
            entries.set(i, HostAlias { name: wanted, host });
        } else {
            entries.push(HostAlias { name: wanted, host });
        }
        let ghost after = pairs_of(entries@);
        proof {
            if i < before.len() {
                assert(after =~= before.update(i as int, (name@, host)));
                assert forall|a: int, b: int| 0 <= a < b < after.len() implies after[a].0
                    != after[b].0 by {
                    assert(before[a].0 != before[b].0);
                }
            } else {
                assert(after =~= before.push((name@, host)));
            }
        }
        let hosts = Hosts { entries };
        proof {
            assert forall|key: Seq<char>|
                lookup(after, key) == if key == name@ {
                    Some(host)
                } else {
                    lookup(before, key)
                } by {
                lemma_lookup(before, key);
                lemma_lookup(after, key);
                if i < before.len() {
                    assert(after =~= before.update(i as int, (name@, host)));
                    assert(after[i as int].0 == name@);
                    if key != name@ {
                        if lookup(before, key) is Some {
                            let k = choose|k: int|
                                0 <= k < before.len() && (#[trigger] before[k]).0 == key;
                            assert(after[k] == before[k]);
                        }
                        if lookup(after, key) is Some {
                            let k = choose|k: int|
                                0 <= k < after.len() && (#[trigger] after[k]).0 == key;
                            assert(after[k] == before[k]);
                        }
                    }
                } else {
                    assert(after =~= before.push((name@, host)));
                    assert(after.drop_last() =~= before);
                }
            }
            assert(hosts@ =~= self@.insert(name@, host));
        }
        hosts
    }

    /// The host names with what they stand for: every registered name once.
    pub fn entries(&self) -> (entries: &Vec<HostAlias>)
        ensures
            forall|i: int|
                0 <= i < entries.len() ==> self@.contains_pair(
                    (#[trigger] entries[i]).spec_name(),
                    entries[i].spec_host(),
                ),
            forall|name: Seq<char>|
                self@.contains_key(name) ==> exists|i: int|
                    0 <= i < entries.len() && (#[trigger] entries[i]).spec_name() == name,
            forall|i: int, j: int|
                0 <= i < j < entries.len() ==> entries[i].spec_name() != entries[j].spec_name(),
    {
        proof {
            use_type_invariant(self);
            let pairs = self.pairs();
            assert forall|i: int| 0 <= i < self.entries.len() implies self@.contains_pair(
                (#[trigger] self.entries[i]).spec_name(),
                self.entries[i].spec_host(),
            ) by {
                lemma_lookup(pairs, self.entries[i].spec_name());
                assert(pairs[i].0 == self.entries[i].spec_name());
            }
            assert forall|name: Seq<char>| self@.contains_key(name) implies exists|i: int|
                0 <= i < self.entries.len() && (#[trigger] self.entries[i]).spec_name()
                    == name by {
                lemma_lookup(pairs, name);
                let i = choose|i: int| 0 <= i < pairs.len() && (#[trigger] pairs[i]).0 == name;
                assert(self.entries[i].spec_name() == name);
            }
            assert forall|i: int, j: int| 0 <= i < j < self.entries.len() implies self.entries[i].spec_name()
                != self.entries[j].spec_name() by {
                assert(pairs[i].0 != pairs[j].0);
            }
        }
        &self.entries
    }
}

impl Clone for Hosts {
    fn clone(&self) -> (copy: Hosts)
        ensures
            copy@ == self@,
    {
        proof {
            use_type_invariant(self);
        }
        let mut entries: Vec<HostAlias> = Vec::new();
        let mut i: usize = 0;
        while i < self.entries.len()
            invariant
                i <= self.entries.len(),
                entries.len() == i,
                forall|j: int|
                    0 <= j < i ==> entries[j].name@ == self.entries[j].name@ && entries[j].host
                        == self.entries[j].host,
            decreases self.entries.len() - i,
        {
            entries.push(HostAlias { name: self.entries[i].name.clone(), host: self.entries[i].host });
            i += 1;
        }
        assert(pairs_of(entries@) =~= self.pairs());
        let copy = Hosts { entries };
        assert(copy@ =~= self@);
        copy
    }
}

} // verus!
