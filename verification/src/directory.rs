//! The container directory: an immutable snapshot of the containers known
//! to the runtime, with identifier-based lookup over it.

use vstd::prelude::*;

verus! {

/// Mathematical view of one published port entry.
#[verifier::ext_equal]
pub struct PortModel {
    pub private_port: u16,
    pub public_port: Option<u16>,
    pub protocol: Seq<char>,
}

/// One published port of a container: the private port, the protocol, and
/// the public port when one is bound.
pub struct PortBinding {
    pub private_port: u16,
    pub public_port: Option<u16>,
    pub protocol: String,
}

impl View for PortBinding {
    type V = PortModel;

    open spec fn view(&self) -> PortModel {
        PortModel {
            private_port: self.private_port,
            public_port: self.public_port,
            protocol: self.protocol@,
        }
    }
}

/// Mathematical view of one container record.
#[verifier::ext_equal]
pub struct RecordModel {
    pub id: Seq<char>,
    pub names: Seq<Seq<char>>,
    pub ports: Seq<PortModel>,
    pub status: Seq<char>,
}

/// A point-in-time description of one container, as reported by the
/// runtime: its unique identifier, its display names (the first one is used
/// for shell naming), its published ports, and its status.
pub struct ContainerRecord {
    pub id: String,
    pub names: Vec<String>,
    pub ports: Vec<PortBinding>,
    pub status: String,
}

impl View for ContainerRecord {
    type V = RecordModel;

    open spec fn view(&self) -> RecordModel {
        RecordModel {
            id: self.id@,
            names: self.names@.map_values(|n: String| n@),
            ports: self.ports@.map_values(|p: PortBinding| p@),
            status: self.status@,
        }
    }
}

impl PortBinding {
    /// An independent copy of this port entry.
    pub fn duplicate(&self) -> (r: PortBinding)
        ensures
            r@ == self@,
    {
        PortBinding {
            private_port: self.private_port,
            public_port: self.public_port,
            protocol: self.protocol.clone(),
        }
    }
}

impl ContainerRecord {
    /// An independent copy of this record.
    pub fn duplicate(&self) -> (r: ContainerRecord)
        ensures
            r@ == self@,
    {
        let mut names: Vec<String> = Vec::new();
        let mut i: usize = 0;
        while i < self.names.len()
            invariant
                i <= self.names.len(),
                names@.len() == i as int,
                forall|j: int| 0 <= j < i ==> names@[j] == self.names@[j],
            decreases self.names.len() - i,
        {
            names.push(self.names[i].clone());
            i = i + 1;
        }
        let mut ports: Vec<PortBinding> = Vec::new();
        let mut k: usize = 0;
        while k < self.ports.len()
            invariant
                k <= self.ports.len(),
                ports@.len() == k as int,
                forall|j: int| 0 <= j < k ==> ports@[j]@ == self.ports@[j]@,
            decreases self.ports.len() - k,
        {
            ports.push(self.ports[k].duplicate());
            k = k + 1;
        }
        let r = ContainerRecord {
            id: self.id.clone(),
            names,
            ports,
            status: self.status.clone(),
        };
        assert(r@.names =~= self@.names);
        assert(r@.ports =~= self@.ports);
        assert(r@ =~= self@);
        r
    }
}

/// The first record of `s` whose identifier is `id`, if any.
pub open spec fn first_match(s: Seq<RecordModel>, id: Seq<char>) -> Option<RecordModel>
    decreases s.len(),
{
    if s.len() == 0 {
        None
    } else if s[0].id == id {
        Some(s[0])
    } else {
        first_match(s.drop_first(), id)
    }
}

/// The position of the first record of `s` whose identifier is `id`
/// (meaningful only when there is one).
pub open spec fn first_match_index(s: Seq<RecordModel>, id: Seq<char>) -> int
    decreases s.len(),
{
    if s.len() == 0 {
        0
    } else if s[0].id == id {
        0
    } else {
        1 + first_match_index(s.drop_first(), id)
    }
}

/// A lookup misses exactly when no record of the snapshot carries the
/// identifier: absence is a definite, recoverable condition.
pub proof fn lemma_first_match_absent(s: Seq<RecordModel>, id: Seq<char>)
    ensures
        (first_match(s, id) is None) <==> (forall|i: int| 0 <= i < s.len() ==> s[i].id != id),
    decreases s.len(),
{
    if s.len() > 0 && s[0].id != id {
        let t = s.drop_first();
        lemma_first_match_absent(t, id);
        assert forall|i: int| 0 <= i < t.len() implies t[i] == s[i + 1] by {}
        if forall|i: int| 0 <= i < t.len() ==> t[i].id != id {
            assert forall|i: int| 0 <= i < s.len() implies s[i].id != id by {
                if i > 0 {
                    assert(s[i] == t[i - 1]);
                }
            }
        }
    }
}

/// A hit is the first record with the identifier: it stands at
/// `first_match_index`, it carries `id`, and every record before it
/// carries another identifier — first-seen order is the tie-break.
pub proof fn lemma_first_match_is_first(s: Seq<RecordModel>, id: Seq<char>)
    requires
        first_match(s, id) is Some,
    ensures
        ({
            let i = first_match_index(s, id);
            &&& 0 <= i < s.len()
            &&& first_match(s, id) == Some(s[i])
            &&& s[i].id == id
            &&& forall|j: int| 0 <= j < i ==> s[j].id != id
        }),
    decreases s.len(),
{
    if s.len() > 0 && s[0].id != id {
        let t = s.drop_first();
        lemma_first_match_is_first(t, id);
        let i = first_match_index(s, id);
        assert(s[i] == t[i - 1]);
        assert forall|j: int| 0 <= j < i implies s[j].id != id by {
            if j > 0 {
                assert(s[j] == t[j - 1]);
            }
        }
    }
}

/// Failure of an identifier lookup: the identifier is absent from the
/// snapshot. Recoverable by the caller; never a crash.
#[derive(Clone, Copy, Debug, PartialEq, Eq, Structural)]
pub enum LookupError {
    NotFound,
}

/// An ordered snapshot of the containers known to the runtime, taken at one
/// instant. Immutable once produced; a refresh produces a new snapshot.
pub struct Snapshot {
    pub records: Vec<ContainerRecord>,
}

impl View for Snapshot {
    type V = Seq<RecordModel>;

    open spec fn view(&self) -> Seq<RecordModel> {
        self.records@.map_values(|r: ContainerRecord| r@)
    }
}

impl Snapshot {
    /// An empty snapshot.
    pub fn new() -> (s: Snapshot)
        ensures
            s@ == Seq::<RecordModel>::empty(),
    {
        let s = Snapshot { records: Vec::new() };
        assert(s@ =~= Seq::<RecordModel>::empty());
        s
    }

    /// Exact identifier match over the snapshot, in order; the first match
    /// wins, and absence is reported, never treated as fatal.
    pub fn find<'a>(&'a self, id: &String) -> (r: Option<&'a ContainerRecord>)
        ensures
            match r {
                Some(c) => first_match(self@, id@) == Some(c@),
                None => first_match(self@, id@) is None,
            },
    {
        let n = self.records.len();
        let mut i: usize = 0;
        proof {
            assert(self@.skip(0) =~= self@);
        }
        while i < n
            invariant
                i <= n,
                n == self.records.len(),
                self@.len() == n as int,
                first_match(self@, id@) == first_match(self@.skip(i as int), id@),
            decreases n - i,
        {
            if crate::text::text_eq(&self.records[i].id, id.as_str()) {
                assert(self@.skip(i as int)[0] == self@[i as int]);
                return Some(&self.records[i]);
            }
            proof {
                let t = self@.skip(i as int);
                assert(t[0] == self@[i as int]);
                assert(t.drop_first() =~= self@.skip(i as int + 1));
            }
            i = i + 1;
        }
        proof {
            assert(self@.skip(n as int) =~= Seq::<RecordModel>::empty());
        }
        None
    }

    /// Lookup that hands back an owned copy of the record, or a recoverable
    /// NotFound error when the identifier is absent.
    pub fn get_container(&self, id: &String) -> (r: Result<ContainerRecord, LookupError>)
        ensures
            match r {
                Ok(c) => first_match(self@, id@) == Some(c@),
                Err(e) => e == LookupError::NotFound && first_match(self@, id@) is None,
            },
    {
        match self.find(id) {
            Some(c) => Ok(c.duplicate()),
            None => Err(LookupError::NotFound),
        }
    }

    /// The records of the snapshot, in their reported order.
    pub fn list<'a>(&'a self) -> (r: &'a Vec<ContainerRecord>)
        ensures
            r@.map_values(|c: ContainerRecord| c@) == self@,
    {
        &self.records
    }
}

/// Runtime-reported version and build metadata, fetched fresh on each
/// request and passed through read-only.
pub struct VersionInfo {
    pub version: String,
    pub api_version: String,
    pub os: String,
    pub arch: String,
}

} // verus!
