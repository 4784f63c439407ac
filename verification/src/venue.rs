use vstd::prelude::*;

verus! {

/// Handle for one configured trading venue. The name is the venue's unique
/// identifier, stable for the life of the process; the network client that
/// answers for this venue lives outside the library and is matched to the
/// handle by this name.
pub struct DexClient {
    pub name: String,
}

impl DexClient {
    pub fn new(name: &str) -> (c: Self)
        ensures
            c.name@ == name@,
    {
        DexClient { name: name.to_owned() }
    }
}

/// Some configured venue bears this name.
pub open spec fn spec_has_venue(venues: Seq<DexClient>, name: Seq<char>) -> bool {
    exists|i: int| 0 <= i < venues.len() && (#[trigger] venues[i]).name@ == name
}

/// Linear lookup of a venue identifier among the configured clients.
pub fn has_venue(venues: &Vec<DexClient>, name: &String) -> (r: bool)
    ensures
        r == spec_has_venue(venues@, name@),
{
    let n = venues.len();
    let mut found = false;
    let mut k: usize = 0;
    while k < n
        invariant
            k <= n,
            n == venues@.len(),
            found == exists|i: int| 0 <= i < k && (#[trigger] venues@[i]).name@ == name@,
        decreases n - k,
    {
        if venues[k].name == *name {
            found = true;
            proof {
                assert(0 <= k < k + 1 && venues@[k as int].name@ == name@);
            }
        }
        k += 1;
    }
    found
}

} // verus!
