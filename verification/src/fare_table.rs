use vstd::prelude::*;

verus! {

/// One priced route: a directed route key and the fare owed for it.
#[derive(Debug)]
pub struct RouteFare {
    pub from_to: String,
    pub fare: u128,
}

/// The table of route fares, populated at initialization; every route key
/// appears at most once.
pub struct FareTable {
    routes: Vec<RouteFare>,
}

impl View for FareTable {
    type V = Seq<RouteFare>;

    closed spec fn view(&self) -> Seq<RouteFare> {
        self.routes@
    }
}

impl FareTable {
    /// Route keys are unique across the table.
    pub open spec fn wf(self) -> bool {
        forall|i: int, j: int|
            #![trigger self@[i], self@[j]]
            0 <= i < j < self@.len() ==> self@[i].from_to@ != self@[j].from_to@
    }

    /// Some entry carries this route key.
    pub open spec fn contains_route(self, from_to: Seq<char>) -> bool {
        exists|i: int| 0 <= i < self@.len() && (#[trigger] self@[i].from_to@) == from_to
    }

    /// The position of the entry with this route key; meaningful only when
    /// `contains_route` holds, and then unique by `wf`.
    pub open spec fn route_index_of(self, from_to: Seq<char>) -> int {
        choose|i: int| 0 <= i < self@.len() && (#[trigger] self@[i].from_to@) == from_to
    }

    /// The configured fare for this route key, if any.
    pub open spec fn spec_lookup(self, from_to: Seq<char>) -> Option<u128> {
        if self.contains_route(from_to) {
            Some(self@[self.route_index_of(from_to)].fare)
        } else {
            None
        }
    }

    /// The table populated once from a fixed route list; the list must price
    /// each directed route key at most once, the table's invariant.
    pub fn from_routes(routes: Vec<RouteFare>) -> (r: FareTable)
        requires
            forall|i: int, j: int|
                #![trigger routes@[i], routes@[j]]
                0 <= i < j < routes@.len() ==> routes@[i].from_to@ != routes@[j].from_to@,
        ensures
            r@ == routes@,
            r.wf(),
    {
        FareTable { routes }
    }

    /// Returns the configured fare if the route key is present, and nothing
    /// otherwise; absence is a valid, handled case, not a failure.
    pub fn get(&self, from_to: &String) -> (r: Option<u128>)
        requires
            self.wf(),
        ensures
            r == self.spec_lookup(from_to@),
    {
        let n = self.routes.len();
        let mut i: usize = 0;
        while i < n
            invariant
                i <= n,
                forall|j: int| 0 <= j < i ==> self@[j].from_to@ != from_to@,
            decreases n - i,
        {
            if self.routes[i].from_to == *from_to {
                proof {
                    assert(self@[i as int].from_to@ == from_to@);
                    assert(self.contains_route(from_to@));
                    let c = self.route_index_of(from_to@);
                    if c != i {
                        assert(self@[c].from_to@ != self@[i as int].from_to@);
                    }
                }
                return Some(self.routes[i].fare);
            }
            i = i + 1;
        }
        None
    }
}

/// In a well-formed table, the entry at any position is the unique match for
/// its own key, so looking that key up returns exactly its fare.
pub proof fn lemma_lookup_at(t: FareTable, i: int)
    requires
        t.wf(),
        0 <= i < t@.len(),
    ensures
        t.spec_lookup(t@[i].from_to@) == Some(t@[i].fare),
{
    let k = t@[i].from_to@;
    assert(t.contains_route(k));
    let c = t.route_index_of(k);
    if c != i {
        assert(t@[c].from_to@ != t@[i].from_to@);
    }
}

} // verus!
