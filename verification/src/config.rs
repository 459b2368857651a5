//! The host inventory: which machines exist and how each one is reached.

use vstd::prelude::*;
use vstd::string::*;

verus! {

/// Marker for the local machine entry of an inventory.
#[derive(Clone, Copy, Debug, PartialEq, Eq)]
pub enum HostTypeLocal {
    Local,
}

/// One machine of the inventory. The three-valued preferences are
/// `Some(true)` (forced on), `Some(false)` (forced off) and `None` (auto).
#[derive(Clone, Debug)]
pub enum Host {
    Local { _type: HostTypeLocal, sudo: Option<bool> },
    Remote {
        addr: String,
        user: String,
        sudo: Option<bool>,
        no_tty: Option<bool>,
        substitutes: Option<bool>,
    },
}

/// What a `Host` is, with its strings as character sequences.
pub enum HostModel {
    Local { sudo: Option<bool> },
    Remote {
        addr: Seq<char>,
        user: Seq<char>,
        sudo: Option<bool>,
        no_tty: Option<bool>,
        substitutes: Option<bool>,
    },
}

impl View for Host {
    type V = HostModel;

    open spec fn view(&self) -> HostModel {
        match *self {
            Host::Local { _type, sudo } => HostModel::Local { sudo },
            Host::Remote { addr, user, sudo, no_tty, substitutes } => HostModel::Remote {
                addr: addr@,
                user: user@,
                sudo,
                no_tty,
                substitutes,
            },
        }
    }
}

/// The name of the privileged account.
pub open spec fn root_name() -> Seq<char> {
    seq!['r', 'o', 'o', 't']
}

/// The deployable unit used when the inventory names none: the current
/// directory.
pub open spec fn dot_path() -> Seq<char> {
    seq!['.']
}

/// How a three-valued preference resolves. A forced value wins. Left on auto,
/// the answer is yes, except for a remote host whose connection user is the
/// privileged account already.
pub open spec fn resolve_spec(pref: Option<bool>, remote: bool, user_is_root: bool) -> bool {
    match pref {
        Some(b) => b,
        None => !(remote && user_is_root),
    }
}

/// Resolves a three-valued privilege preference for a host of the given kind.
pub fn resolve(pref: Option<bool>, remote: bool, user_is_root: bool) -> (r: bool)
    ensures
        r == resolve_spec(pref, remote, user_is_root),
        pref == Some(true) ==> r,
        pref == Some(false) ==> !r,
{
    match pref {
        Some(b) => b,
        None => !(remote && user_is_root),
    }
}

impl HostModel {
    pub open spec fn is_remote(self) -> bool {
        self is Remote
    }

    /// Whether the connection user is the privileged account. A local host
    /// has no connection user, so the answer there is `false`.
    pub open spec fn user_is_root(self) -> bool {
        match self {
            HostModel::Local { .. } => false,
            HostModel::Remote { user, .. } => user == root_name(),
        }
    }

    pub open spec fn sudo_pref(self) -> Option<bool> {
        match self {
            HostModel::Local { sudo } => sudo,
            HostModel::Remote { sudo, .. } => sudo,
        }
    }

    /// Whether commands on this host run with elevated rights.
    pub open spec fn escalates(self) -> bool {
        resolve_spec(self.sudo_pref(), self.is_remote(), self.user_is_root())
    }

    /// Whether the rebuild may fetch pre-built artifacts: yes unless forced
    /// off. Only a remote host carries the preference.
    pub open spec fn substitutes(self) -> bool {
        match self {
            HostModel::Local { .. } => false,
            HostModel::Remote { substitutes, .. } => substitutes != Some(false),
        }
    }
}

impl Host {
    pub fn is_remote(&self) -> (r: bool)
        ensures
            r == self@.is_remote(),
    {
        match self {
            Host::Local { .. } => false,
            Host::Remote { .. } => true,
        }
    }

    pub fn user_is_root(&self) -> (r: bool)
        ensures
            r == self@.user_is_root(),
    {
        match self {
            Host::Local { .. } => false,
            Host::Remote { user, .. } => {
                let root = default_user_root();
                *user == root
            },
        }
    }

    /// Whether commands on this host run with elevated rights.
    pub fn resolve_sudo(&self) -> (r: bool)
        ensures
            r == self@.escalates(),
    {
        let pref = match self {
            Host::Local { sudo, .. } => *sudo,
            Host::Remote { sudo, .. } => *sudo,
        };
        resolve(pref, self.is_remote(), self.user_is_root())
    }

    /// Whether the rebuild may fetch pre-built artifacts.
    pub fn resolve_substitutes(&self) -> (r: bool)
        ensures
            r == self@.substitutes(),
    {
        match self {
            Host::Local { .. } => false,
            Host::Remote { substitutes, .. } => match substitutes {
                Some(b) => *b,
                None => true,
            },
        }
    }
}

/// A privilege preference left on auto resolves from the kind of host and,
/// for a remote one, from whether its user is the privileged account, and
/// from nothing else; a forced preference resolves to itself on every host.
pub proof fn lemma_resolution_depends_on_kind_and_user(a: HostModel, b: HostModel)
    requires
        a.sudo_pref() == b.sudo_pref(),
        a.is_remote() == b.is_remote(),
        a.is_remote() ==> (a.user_is_root() == b.user_is_root()),
    ensures
        a.escalates() == b.escalates(),
        a.sudo_pref() == Some(true) ==> a.escalates(),
        a.sudo_pref() == Some(false) ==> !a.escalates(),
        a.sudo_pref().is_none() && !a.is_remote() ==> a.escalates(),
        a.sudo_pref().is_none() && a.is_remote() ==> (a.escalates() == !a.user_is_root()),
{
}

/// One named machine of the inventory.
#[derive(Clone, Debug)]
pub struct HostEntry {
    pub name: String,
    pub host: Host,
}

/// The inventory: the deployable unit and the machines, in the order in
/// which they were declared. No two entries share a name.
#[derive(Clone, Debug)]
pub struct CfgObj {
    pub flake_path: String,
    pub hosts: Vec<HostEntry>,
}

impl CfgObj {
    /// The host names, in inventory order.
    pub open spec fn names(&self) -> Seq<Seq<char>> {
        Seq::new(self.hosts@.len(), |i: int| self.hosts@[i].name@)
    }

    /// No name occurs twice.
    pub open spec fn wf(&self) -> bool {
        forall|i: int, j: int|
            0 <= i < j < self.hosts@.len() ==> self.hosts@[i].name@ != self.hosts@[j].name@
    }

    /// `i` is the first entry called `name`.
    pub open spec fn first_at(&self, name: Seq<char>, i: int) -> bool {
        &&& 0 <= i < self.hosts@.len()
        &&& self.hosts@[i].name@ == name
        &&& forall|j: int| 0 <= j < i ==> self.hosts@[j].name@ != name
    }

    pub open spec fn contains(&self, name: Seq<char>) -> bool {
        exists|i: int| 0 <= i < self.hosts@.len() && self.hosts@[i].name@ == name
    }

    /// Where the entry called `name` stands.
    pub open spec fn index_of(&self, name: Seq<char>) -> int {
        choose|i: int| self.first_at(name, i)
    }

    /// The inventory as a mapping: the host called `name`, if there is one.
    pub open spec fn lookup(&self, name: Seq<char>) -> Option<HostModel> {
        if self.contains(name) {
            Some(self.hosts@[self.index_of(name)].host@)
        } else {
            None
        }
    }

    /// An entry called `name` at `i` with none before it is the one that
    /// `index_of` and `lookup` speak of.
    pub proof fn lemma_first_is_index(&self, name: Seq<char>, i: int)
        requires
            self.first_at(name, i),
        ensures
            self.contains(name),
            self.index_of(name) == i,
            self.lookup(name) == Some(self.hosts@[i].host@),
    {
        let k = self.index_of(name);
        assert(self.first_at(name, k));
        if k < i {
            assert(self.hosts@[k].name@ != name);
        }
        if i < k {
            assert(self.hosts@[i].name@ != name);
        }
    }

    /// Where a name occurs at all, it has a first occurrence.
    pub proof fn lemma_contains_has_first(&self, name: Seq<char>, k: int)
        requires
            0 <= k < self.hosts@.len(),
            self.hosts@[k].name@ == name,
        ensures
            self.contains(name),
            self.first_at(name, self.index_of(name)),
            self.index_of(name) <= k,
        decreases k,
    {
        if forall|j: int| 0 <= j < k ==> self.hosts@[j].name@ != name {
            assert(self.first_at(name, k));
            self.lemma_first_is_index(name, k);
        } else {
            let j = choose|j: int| 0 <= j < k && self.hosts@[j].name@ == name;
            self.lemma_contains_has_first(name, j);
        }
    }

    /// An inventory without hosts.
    pub fn new(flake_path: String) -> (cfg: CfgObj)
        ensures
            cfg.flake_path@ == flake_path@,
            cfg.hosts@.len() == 0,
            cfg.wf(),
    {
        CfgObj { flake_path, hosts: Vec::new() }
    }

    /// The position of the host called `name`.
    pub fn position(&self, name: &str) -> (r: Option<usize>)
        ensures
            r.is_some() == self.contains(name@),
            r matches Some(i) ==> self.first_at(name@, i as int) && i as int == self.index_of(name@),
    {
        let wanted = String::from_str(name);
        let mut i: usize = 0;
        while i < self.hosts.len()
            invariant
                i <= self.hosts@.len(),
                wanted@ == name@,
                forall|j: int| 0 <= j < i ==> self.hosts@[j].name@ != name@,
            decreases self.hosts@.len() - i,
        {
            if self.hosts[i].name == wanted {
                proof {
                    self.lemma_first_is_index(name@, i as int);
                }
                return Some(i);
            }
            i += 1;
        }
        None
    }

    /// The host called `name`, if the inventory has one.
    pub fn get(&self, name: &str) -> (r: Option<&Host>)
        ensures
            r.is_some() == self.contains(name@),
            match r {
                Some(h) => self.lookup(name@) == Some(h@) && *h == self.hosts@[self.index_of(
                    name@,
                )].host,
                None => self.lookup(name@).is_none(),
            },
    {
        match self.position(name) {
            Some(i) => Some(&self.hosts[i].host),
            None => None,
        }
    }

    /// Whether the inventory has a host called `name`.
    pub fn contains_key(&self, name: &str) -> (r: bool)
        ensures
            r == self.contains(name@),
    {
        self.position(name).is_some()
    }

    /// Sets the host called `name`: an entry of that name is replaced where
    /// it stands, a new name is added at the end.
    pub fn insert(&mut self, name: String, host: Host)
        ensures
            old(self).wf() ==> final(self).wf(),
            final(self).flake_path == old(self).flake_path,
            final(self).contains(name@),
            final(self).lookup(name@) == Some(host@),
            old(self).contains(name@) ==> final(self).names() == old(self).names(),
            !old(self).contains(name@) ==> final(self).names() == old(self).names().push(name@),
            forall|other: Seq<char>|
                other != name@ ==> final(self).lookup(other) == old(self).lookup(other),
    {
        let ghost before = *self;
        match self.position(name.as_str()) {
            Some(i) => {
                self.hosts.set(i, HostEntry { name, host });
                proof {
                    assert(self.names() =~= before.names());
                    self.lemma_first_is_index(name@, i as int);
                    assert forall|other: Seq<char>| other != name@ implies self.lookup(other)
                        == before.lookup(other) by {
                        lemma_lookup_same_elsewhere(before, *self, other, i as int);
                    }
                }
            },
            None => {
                self.hosts.push(HostEntry { name, host });
                proof {
                    let n = before.hosts@.len() as int;
                    assert(self.names() =~= before.names().push(name@));
                    assert(self.first_at(name@, n));
                    self.lemma_first_is_index(name@, n);
                    assert forall|other: Seq<char>| other != name@ implies self.lookup(other)
                        == before.lookup(other) by {
                        lemma_lookup_same_before(before, *self, other);
                    }
                }
            },
        }
    }

    /// The names of all hosts, in inventory order.
    pub fn host_names(&self) -> (r: Vec<String>)
        ensures
            r.deep_view() == self.names(),
    {
        let mut out: Vec<String> = Vec::new();
        let mut i: usize = 0;
        while i < self.hosts.len()
            invariant
                i <= self.hosts@.len(),
                out@.len() == i,
                forall|j: int| 0 <= j < i ==> out@[j]@ == self.hosts@[j].name@,
            decreases self.hosts@.len() - i,
        {
            out.push(self.hosts[i].name.clone());
            i += 1;
        }
        assert(out.deep_view() =~= self.names());
        out
    }
}

/// Replacing the entry at `at` leaves the lookup of every other name as it
/// was.
proof fn lemma_lookup_same_elsewhere(a: CfgObj, b: CfgObj, other: Seq<char>, at: int)
    requires
        0 <= at < a.hosts@.len(),
        b.hosts@.len() == a.hosts@.len(),
        a.hosts@[at].name@ != other,
        b.hosts@[at].name@ != other,
        forall|j: int| 0 <= j < a.hosts@.len() && j != at ==> b.hosts@[j] == a.hosts@[j],
    ensures
        b.lookup(other) == a.lookup(other),
{
    if a.contains(other) {
        let w = choose|i: int| 0 <= i < a.hosts@.len() && a.hosts@[i].name@ == other;
        a.lemma_contains_has_first(other, w);
        let k = a.index_of(other);
        assert(a.first_at(other, k));
        assert(b.first_at(other, k)) by {
            assert forall|j: int| 0 <= j < k implies b.hosts@[j].name@ != other by {
                if j != at {
                    assert(b.hosts@[j] == a.hosts@[j]);
                }
            }
        }
        b.lemma_first_is_index(other, k);
    } else {
        if b.contains(other) {
            let k = choose|i: int| 0 <= i < b.hosts@.len() && b.hosts@[i].name@ == other;
            assert(a.hosts@[k].name@ == other);
        }
    }
}

/// Adding an entry at the end leaves the lookup of every other name as it
/// was.
proof fn lemma_lookup_same_before(a: CfgObj, b: CfgObj, other: Seq<char>)
    requires
        b.hosts@.len() == a.hosts@.len() + 1,
        b.hosts@[a.hosts@.len() as int].name@ != other,
        forall|j: int| 0 <= j < a.hosts@.len() ==> b.hosts@[j] == a.hosts@[j],
    ensures
        b.lookup(other) == a.lookup(other),
{
    if a.contains(other) {
        let w = choose|i: int| 0 <= i < a.hosts@.len() && a.hosts@[i].name@ == other;
        a.lemma_contains_has_first(other, w);
        let k = a.index_of(other);
        assert(a.first_at(other, k));
        assert(b.first_at(other, k));
        b.lemma_first_is_index(other, k);
    } else {
        if b.contains(other) {
            let k = choose|i: int| 0 <= i < b.hosts@.len() && b.hosts@[i].name@ == other;
            assert(a.hosts@[k].name@ == other);
        }
    }
}

/// The deployable unit used when the inventory names none.
pub fn default_flake_path() -> (r: String)
    ensures
        r@ == dot_path(),
{
    proof {
        reveal_strlit(".");
    }
    let r = String::from_str(".");
    assert(r@ =~= dot_path());
    r
}

/// The connection user used when a remote host names none.
pub fn default_user_root() -> (r: String)
    ensures
        r@ == root_name(),
{
    proof {
        reveal_strlit("root");
    }
    let r = String::from_str("root");
    assert(r@ =~= root_name());
    r
}

} // verus!
