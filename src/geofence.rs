use vstd::prelude::*;
use crate::model::{DroneObservation, Point};

verus! {

/// Square of the planar distance between two points.
pub open spec fn dist_sq(p: Point, q: Point) -> int {
    (p.x - q.x) * (p.x - q.x) + (p.y - q.y) * (p.y - q.y)
}

/// The string views of a sequence of strings.
pub open spec fn views(v: Seq<String>) -> Seq<Seq<char>> {
    v.map_values(|s: String| s@)
}

/// A circular no-fly zone: its centre (the nest) and its radius.
#[derive(Clone, Copy, Debug, PartialEq, Eq, Structural)]
pub struct Geofence {
    pub nest: Point,
    pub radius: u64,
}

impl Geofence {
    /// A drone violates the fence iff its distance to the nest is at most
    /// the radius. With a non-negative radius, `sqrt(d) <= r` is `d <= r*r`.
    pub open spec fn violates(self, d: DroneObservation) -> bool {
        match d.position {
            Some(p) => dist_sq(p, self.nest) <= self.radius * self.radius,
            None => false,
        }
    }

    /// The serial numbers of the violating drones, each once, in the order
    /// of their first violating observation.
    pub open spec fn violator_ids(self, drones: Seq<DroneObservation>) -> Seq<Seq<char>>
        decreases drones.len(),
    {
        if drones.len() == 0 {
            Seq::empty()
        } else {
            let prev = self.violator_ids(drones.drop_last());
            let d = drones.last();
            if self.violates(d) && !prev.contains(d.serial_number@) {
                prev.push(d.serial_number@)
            } else {
                prev
            }
        }
    }

    pub fn new(nest: Point, radius: u64) -> (r: Geofence)
        ensures
            r.nest == nest,
            r.radius == radius,
    {
        Geofence { nest, radius }
    }

    /// Whether one drone is inside the fence, boundary included.
    pub fn is_violation(&self, drone: &DroneObservation) -> (r: bool)
        ensures
            r == self.violates(*drone),
    {
        match drone.position {
            None => false,
            Some(p) => {
                let dx = abs_diff(p.x, self.nest.x);
                let dy = abs_diff(p.y, self.nest.y);
                let r = self.radius as u128;
                proof {
                    lemma_square_fits(dx);
                    lemma_square_fits(dy);
                    lemma_square_fits(r);
                }
                let a = dx * dx;
                let b = dy * dy;
                let rr = r * r;
                assert(dx * dx == (p.x - self.nest.x) * (p.x - self.nest.x)) by (nonlinear_arith)
                    requires dx == (p.x - self.nest.x) || dx == -(p.x - self.nest.x);
                assert(dy * dy == (p.y - self.nest.y) * (p.y - self.nest.y)) by (nonlinear_arith)
                    requires dy == (p.y - self.nest.y) || dy == -(p.y - self.nest.y);
                a <= rr && b <= rr - a
            },
        }
    }

    /// The set of violating serial numbers of a snapshot's drones, without
    /// duplicates, in the order in which the violations are met.
    pub fn find_drone_violations(&self, drones: &Vec<DroneObservation>) -> (r: Vec<String>)
        ensures
            views(r@) == self.violator_ids(drones@),
            views(r@).no_duplicates(),
            forall|i: int|
                0 <= i < drones@.len() && #[trigger] self.violates(drones@[i])
                    ==> views(r@).contains(drones@[i].serial_number@),
            forall|s: Seq<char>|
                #[trigger] views(r@).contains(s) ==> exists|i: int|
                    0 <= i < drones@.len() && self.violates(drones@[i])
                        && drones@[i].serial_number@ == s,
    {
        let mut found: Vec<String> = Vec::new();
        let mut i: usize = 0;
        while i < drones.len()
            invariant
                i <= drones@.len(),
                views(found@) == self.violator_ids(drones@.subrange(0, i as int)),
            decreases drones@.len() - i,
        {
            let d = &drones[i];
            proof {
                assert(drones@.subrange(0, i + 1).drop_last() == drones@.subrange(0, i as int));
            }
            if self.is_violation(d) && !contains_serial(&found, &d.serial_number) {
                found.push(d.serial_number.clone());
                proof {
                    assert(views(found@) == views(found@.drop_last()).push(d.serial_number@));
                }
            }
            i = i + 1;
        }
        proof {
            assert(drones@.subrange(0, drones@.len() as int) == drones@);
            self.lemma_violators_exact(drones@);
        }
        found
    }

    /// A drone inside the fence has its serial number among the violators;
    /// a serial number is among them only if some drone with it is inside.
    pub proof fn lemma_violators_exact(self, drones: Seq<DroneObservation>)
        ensures
            self.violator_ids(drones).no_duplicates(),
            forall|i: int|
                0 <= i < drones.len() && #[trigger] self.violates(drones[i])
                    ==> self.violator_ids(drones).contains(drones[i].serial_number@),
            forall|s: Seq<char>|
                #[trigger] self.violator_ids(drones).contains(s) ==> exists|i: int|
                    0 <= i < drones.len() && self.violates(drones[i])
                        && drones[i].serial_number@ == s,
        decreases drones.len(),
    {
        if drones.len() > 0 {
            let init = drones.drop_last();
            self.lemma_violators_exact(init);
            let prev = self.violator_ids(init);
            let cur = self.violator_ids(drones);
            assert forall|i: int|
                0 <= i < drones.len() && #[trigger] self.violates(drones[i])
                    implies cur.contains(drones[i].serial_number@) by {
                if i < drones.len() - 1 {
                    assert(init[i] == drones[i]);
                    assert(prev.contains(init[i].serial_number@));
                    let k = choose|k: int| 0 <= k < prev.len() && prev[k] == init[i].serial_number@;
                    assert(cur[k] == prev[k]);
                } else if !prev.contains(drones.last().serial_number@) {
                    assert(cur[cur.len() - 1] == drones[i].serial_number@);
                }
            }
            assert forall|s: Seq<char>|
                #[trigger] cur.contains(s) implies exists|i: int|
                    0 <= i < drones.len() && self.violates(drones[i])
                        && drones[i].serial_number@ == s by {
                let k = choose|k: int| 0 <= k < cur.len() && cur[k] == s;
                if k < prev.len() {
                    assert(prev[k] == s);
                    assert(prev.contains(s));
                    let i = choose|i: int|
                        0 <= i < init.len() && self.violates(init[i])
                            && init[i].serial_number@ == s;
                    assert(drones[i] == init[i]);
                } else {
                    assert(drones[drones.len() - 1] == drones.last());
                }
            }
        }
    }
}

/// A drone reported exactly at the nest is a violator for every radius,
/// zero included: a snapshot holding only it yields its serial number.
pub proof fn lemma_nest_is_inside(g: Geofence, drones: Seq<DroneObservation>)
    requires
        drones.len() == 1,
        drones[0].position == Some(g.nest),
    ensures
        g.violator_ids(drones) == seq![drones[0].serial_number@],
{
    let p = g.nest;
    assert(dist_sq(p, g.nest) == 0);
    assert(g.radius * g.radius >= 0) by (nonlinear_arith);
    assert(drones.drop_last().len() == 0);
    assert(drones.last() == drones[0]);
    assert(g.violator_ids(drones.drop_last()) == Seq::<Seq<char>>::empty());
}

/// `|a - b|`, exactly.
fn abs_diff(a: i64, b: i64) -> (r: u128)
    ensures
        r == a - b || r == b - a,
        r >= 0,
        r <= 0xffff_ffff_ffff_ffff,
{
    let d: i128 = a as i128 - b as i128;
    if d < 0 {
        (-d) as u128
    } else {
        d as u128
    }
}

proof fn lemma_square_fits(x: u128)
    requires
        x <= 0xffff_ffff_ffff_ffff,
    ensures
        x * x <= 0xffff_ffff_ffff_fffe_0000_0000_0000_0001,
{
    assert(x * x <= 0xffff_ffff_ffff_ffff * 0xffff_ffff_ffff_ffff) by (nonlinear_arith)
        requires x <= 0xffff_ffff_ffff_ffff;
}

/// Whether `s` is one of `list`'s strings.
fn contains_serial(list: &Vec<String>, s: &String) -> (r: bool)
    ensures
        r == views(list@).contains(s@),
{
    let mut i: usize = 0;
    while i < list.len()
        invariant
            i <= list@.len(),
            forall|j: int| 0 <= j < i ==> list@[j]@ != s@,
        decreases list@.len() - i,
    {
        if list[i] == *s {
            assert(views(list@)[i as int] == s@);
            return true;
        }
        i = i + 1;
    }
    proof {
        if views(list@).contains(s@) {
            let k = choose|k: int| 0 <= k < views(list@).len() && views(list@)[k] == s@;
            assert(list@[k]@ == s@);
        }
    }
    false
}

} // verus!
