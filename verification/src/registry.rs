use vstd::prelude::*;

use crate::vehicle::Vehicle;

verus! {

/// The registry of vehicles, an insertion-ordered log in which every
/// registration number appears at most once.
pub struct VehicleRegistry {
    cars: Vec<Vehicle>,
}

impl View for VehicleRegistry {
    type V = Seq<Vehicle>;

    closed spec fn view(&self) -> Seq<Vehicle> {
        self.cars@
    }
}

impl VehicleRegistry {
    /// Registration numbers are unique across the registry.
    pub open spec fn wf(self) -> bool {
        forall|i: int, j: int|
            #![trigger self@[i], self@[j]]
            0 <= i < j < self@.len() ==> self@[i].reg_no@ != self@[j].reg_no@
    }

    /// Some record carries this registration number.
    pub open spec fn contains_reg(self, reg_no: Seq<char>) -> bool {
        exists|i: int| 0 <= i < self@.len() && (#[trigger] self@[i].reg_no@) == reg_no
    }

    /// The position of the record with this registration number; meaningful
    /// only when `contains_reg` holds, and then unique by `wf`.
    pub open spec fn reg_index_of(self, reg_no: Seq<char>) -> int {
        choose|i: int| 0 <= i < self@.len() && (#[trigger] self@[i].reg_no@) == reg_no
    }

    /// The record registered under this registration number, if any.
    pub open spec fn spec_find(self, reg_no: Seq<char>) -> Option<Vehicle> {
        if self.contains_reg(reg_no) {
            Some(self@[self.reg_index_of(reg_no)])
        } else {
            None
        }
    }

    pub fn new() -> (r: VehicleRegistry)
        ensures
            r@ =~= Seq::<Vehicle>::empty(),
            r.wf(),
    {
        VehicleRegistry { cars: Vec::new() }
    }

    /// Appends the record unless its registration number is already taken;
    /// a duplicate performs no state change.
    pub fn register(&mut self, vehicle: Vehicle) -> (inserted: bool)
        requires
            old(self).wf(),
        ensures
            final(self).wf(),
            inserted == !old(self).contains_reg(vehicle.reg_no@),
            inserted ==> final(self)@ =~= old(self)@.push(vehicle),
            !inserted ==> final(self)@ == old(self)@,
    {
        let n = self.cars.len();
        let mut i: usize = 0;
        while i < n
            invariant
                i <= n,
                forall|j: int| 0 <= j < i ==> self@[j].reg_no@ != vehicle.reg_no@,
            decreases n - i,
        {
            if self.cars[i].reg_no == vehicle.reg_no {
                proof {
                    assert(self.contains_reg(vehicle.reg_no@));
                }
                return false;
            }
            i = i + 1;
        }
        self.cars.push(vehicle);
        true
    }

    /// Looks the registration number up; absence is a normal outcome.
    pub fn find(&self, reg_no: &String) -> (r: Option<&Vehicle>)
        requires
            self.wf(),
        ensures
            match r {
                Some(v) => self.spec_find(reg_no@) == Some(*v),
                None => self.spec_find(reg_no@) is None,
            },
    {
        let n = self.cars.len();
        let mut i: usize = 0;
        while i < n
            invariant
                i <= n,
                forall|j: int| 0 <= j < i ==> self@[j].reg_no@ != reg_no@,
            decreases n - i,
        {
            if self.cars[i].reg_no == *reg_no {
                proof {
                    assert(self.contains_reg(reg_no@));
                    let c = self.reg_index_of(reg_no@);
                    if c != i {
                        assert(self@[c].reg_no@ != self@[i as int].reg_no@);
                    }
                }
                return Some(&self.cars[i]);
            }
            i = i + 1;
        }
        None
    }

    /// A read-only snapshot of every record, in insertion order.
    pub fn list(&self) -> (r: Vec<Vehicle>)
        ensures
            r@ == self@,
    {
        let n = self.cars.len();
        let mut r: Vec<Vehicle> = Vec::new();
        let mut i: usize = 0;
        while i < n
            invariant
                i <= n,
                r@ =~= self@.take(i as int),
            decreases n - i,
        {
            r.push(self.cars[i].clone());
            i = i + 1;
        }
        proof {
            assert(r@ =~= self@);
        }
        r
    }
}

/// Uniqueness: whatever sequence of registrations built a well-formed
/// registry, it never holds two records with the same registration number.
pub proof fn lemma_registration_numbers_unique(r: VehicleRegistry, i: int, j: int)
    requires
        r.wf(),
        0 <= i < r@.len(),
        0 <= j < r@.len(),
        i != j,
    ensures
        r@[i].reg_no@ != r@[j].reg_no@,
{
    if i < j {
        assert(r@[i].reg_no@ != r@[j].reg_no@);
    } else {
        assert(r@[j].reg_no@ != r@[i].reg_no@);
    }
}

} // verus!
