//! The telemetry collaborator's registry of log streams.
//!
//! Each variable name is granted one id, the ids counting up from 0 in
//! registration order; announcing a known name again returns the id it
//! already has. Creating and writing the stream files is the
//! surrounding process's business; the registry only decides.

use vstd::prelude::*;

verus! {

/// Whether `name` already has an id in `names` (its id is its index).
pub open spec fn spec_registered(names: Seq<Seq<u8>>, name: Seq<u8>) -> bool {
    exists|j: int| 0 <= j < names.len() && names[j] == name
}

/// Compares two byte strings.
fn bytes_eq(a: &Vec<u8>, b: &[u8]) -> (r: bool)
    ensures
        r == (a@ == b@),
{
    if a.len() != b.len() {
        proof {
            assert(a@ != b@);
        }
        return false;
    }
    let n = a.len();
    let mut i: usize = 0;
    while i < n
        invariant
            i <= n,
            a@.len() == n,
            b@.len() == n,
            forall|j: int| 0 <= j < i ==> a@[j] == b@[j],
        decreases n - i,
    {
        if a[i] != b[i] {
            proof {
                assert(a@[i as int] != b@[i as int]);
            }
            return false;
        }
        i = i + 1;
    }
    proof {
        assert(a@ =~= b@);
    }
    true
}

/// The registry of granted log streams, keyed by variable name.
pub struct StreamManager {
    names: Vec<Vec<u8>>,
}

impl StreamManager {
    /// The registered names in registration order; a name's id is its
    /// position.
    pub closed spec fn spec_names(&self) -> Seq<Seq<u8>> {
        Seq::new(self.names@.len(), |i: int| self.names@[i]@)
    }

    pub fn new() -> (r: StreamManager)
        ensures
            r.spec_names() == Seq::<Seq<u8>>::empty(),
    {
        let r = StreamManager { names: Vec::new() };
        proof {
            assert(r.spec_names() =~= Seq::<Seq<u8>>::empty());
        }
        r
    }

    /// How many streams have been granted.
    pub fn stream_count(&self) -> (r: usize)
        ensures
            r == self.spec_names().len(),
    {
        self.names.len()
    }

    /// Grants an id for `name`: the one it already has, or the next
    /// fresh id. The second component tells whether the name is new,
    /// so the caller knows to create its stream.
    pub fn register(&mut self, name: Vec<u8>) -> (r: (i32, bool))
        requires
            old(self).spec_names().len() < 0x7fff_ffff,
        ensures
            ({
                let (id, fresh) = r;
                if spec_registered(old(self).spec_names(), name@) {
                    &&& !fresh
                    &&& *final(self) == *old(self)
                    &&& 0 <= id < old(self).spec_names().len()
                    &&& old(self).spec_names()[id as int] == name@
                    &&& forall|j: int|
                        0 <= j < id ==> old(self).spec_names()[j] != name@
                } else {
                    &&& fresh
                    &&& id == old(self).spec_names().len()
                    &&& final(self).spec_names() == old(self).spec_names().push(name@)
                }
            }),
    {
        let n = self.names.len();
        let mut i: usize = 0;
        while i < n
            invariant
                i <= n,
                n < 0x7fff_ffff,
                *self == *old(self),
                self.spec_names().len() == n,
                forall|j: int| 0 <= j < i ==> self.spec_names()[j] != name@,
            decreases n - i,
        {
            if bytes_eq(&self.names[i], name.as_slice()) {
                proof {
                    assert(*self == *old(self));
                    assert(old(self).spec_names()[i as int] == name@);
                    assert((i as i32) < old(self).spec_names().len());
                    assert(spec_registered(old(self).spec_names(), name@));
                }
                return (i as i32, false);
            }
            i = i + 1;
        }
        proof {
            assert(!spec_registered(self.spec_names(), name@));
        }
        let ghost pre_names = self.spec_names();
        let ghost name_view = name@;
        self.names.push(name);
        proof {
            assert(self.spec_names() =~= pre_names.push(name_view));
        }
        (n as i32, true)
    }

    /// Whether a granted stream exists under `id`: the check a `Log`
    /// record must pass before its value is written anywhere.
    pub fn has_stream(&self, id: i32) -> (r: bool)
        ensures
            r == (0 <= id < self.spec_names().len()),
    {
        id >= 0 && (id as usize) < self.names.len()
    }
}

/// How many connection slots are taken.
pub open spec fn spec_clients(occupied: Seq<bool>) -> int
    decreases occupied.len(),
{
    if occupied.len() == 0 {
        0
    } else {
        spec_clients(occupied.drop_last()) + if occupied.last() {
            1int
        } else {
            0int
        }
    }
}

/// The slot a scan grants: starting at `start`, wrapping around, the
/// first free slot within `steps` probes.
pub open spec fn spec_scan_free(occupied: Seq<bool>, start: int, steps: nat) -> Option<int>
    recommends
        occupied.len() > 0,
        start >= 0,
    decreases steps,
{
    if steps == 0 {
        None
    } else {
        let slot = start % (occupied.len() as int);
        if !occupied[slot] {
            Some(slot)
        } else {
            spec_scan_free(occupied, start + 1, (steps - 1) as nat)
        }
    }
}

/// The slot the telemetry server grants a new client connection, given
/// which slots are taken: scanning starts at the client count and
/// wraps once around; a full house grants nothing.
pub open spec fn spec_find_unused_token(occupied: Seq<bool>) -> Option<int> {
    if spec_clients(occupied) >= occupied.len() {
        None
    } else {
        spec_scan_free(occupied, spec_clients(occupied), occupied.len() as nat)
    }
}

/// Picks the connection slot for a new client, or `None` when every
/// slot is taken.
pub fn find_unused_token(occupied: &Vec<bool>) -> (r: Option<usize>)
    requires
        0 < occupied@.len() < 0x7fff_ffff,
    ensures
        match r {
            Some(slot) => {
                &&& spec_find_unused_token(occupied@) == Some(slot as int)
                &&& slot < occupied@.len()
                &&& !occupied@[slot as int]
            },
            None => spec_find_unused_token(occupied@) is None,
        },
{
    let n = occupied.len();
    let mut client_count: usize = 0;
    let mut i: usize = 0;
    while i < n
        invariant
            i <= n,
            occupied@.len() == n,
            client_count == spec_clients(occupied@.take(i as int)),
            client_count <= i,
        decreases n - i,
    {
        if occupied[i] {
            client_count = client_count + 1;
        }
        proof {
            assert(occupied@.take(i + 1).drop_last() =~= occupied@.take(i as int));
        }
        i = i + 1;
    }
    proof {
        assert(occupied@.take(n as int) =~= occupied@);
    }
    if client_count >= n {
        return None;
    }
    let mut step: usize = 0;
    while step < n
        invariant
            step <= n,
            0 < occupied@.len() == n,
            n < 0x7fff_ffff,
            client_count < n,
            client_count == spec_clients(occupied@),
            spec_scan_free(occupied@, client_count as int, n as nat) == spec_scan_free(
                occupied@,
                client_count + step,
                (n - step) as nat,
            ),
        decreases n - step,
    {
        let token = (client_count + step) % n;
        if !occupied[token] {
            return Some(token);
        }
        step = step + 1;
    }
    None
}

} // verus!
