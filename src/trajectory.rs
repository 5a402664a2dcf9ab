use vstd::prelude::*;

verus! {

/// What a simulation records at one point of its trajectory.
#[derive(Clone, Copy, Debug, PartialEq)]
pub struct StepRecord<T> {
    /// Strain.
    pub x: T,
    /// Stress by backward Euler.
    pub y_be: T,
    /// Stress by the reference integrator.
    pub y_ode: T,
    /// Continuous modulus.
    pub com: T,
    /// Consistent tangent modulus, in closed form.
    pub ctm: T,
    /// Consistent tangent modulus by finite differences of backward Euler.
    pub num_ctm: T,
    /// Consistent tangent modulus by finite differences of the reference integrator.
    pub num_ctm_ode: T,
}

impl<T: Copy> StepRecord<T> {
    /// The record of the initial state `(x, y)`: both stresses are `y`, and
    /// every modulus is the continuous modulus `com` there.
    pub fn initial(x: T, y: T, com: T) -> (r: StepRecord<T>)
        ensures
            r == (StepRecord { x, y_be: y, y_ode: y, com, ctm: com, num_ctm: com, num_ctm_ode: com }),
    {
        StepRecord { x, y_be: y, y_ode: y, com, ctm: com, num_ctm: com, num_ctm_ode: com }
    }
}

/// The seven parallel streams that a simulation of `n_steps` uniform strain
/// increments records. Index 0 holds the initial state and index `k` the
/// state after `k` increments.
pub struct Trajectory<T> {
    n_steps: usize,
    xx: Vec<T>,
    yy_be: Vec<T>,
    yy_ode: Vec<T>,
    com_list: Vec<T>,
    ctm_list: Vec<T>,
    num_ctm_list: Vec<T>,
    num_ctm_ode_list: Vec<T>,
}

impl<T> Trajectory<T> {
    /// The number of increments that the simulation makes.
    pub closed spec fn spec_n_steps(&self) -> nat {
        self.n_steps as nat
    }

    /// The records so far, in order.
    pub closed spec fn rows(&self) -> Seq<StepRecord<T>> {
        Seq::new(
            self.xx@.len(),
            |i: int|
                StepRecord {
                    x: self.xx@[i],
                    y_be: self.yy_be@[i],
                    y_ode: self.yy_ode@[i],
                    com: self.com_list@[i],
                    ctm: self.ctm_list@[i],
                    num_ctm: self.num_ctm_list@[i],
                    num_ctm_ode: self.num_ctm_ode_list@[i],
                },
        )
    }

    /// The streams run in parallel, and hold the initial state and at most
    /// one record per increment.
    pub closed spec fn wf(&self) -> bool {
        &&& self.yy_be@.len() == self.xx@.len()
        &&& self.yy_ode@.len() == self.xx@.len()
        &&& self.com_list@.len() == self.xx@.len()
        &&& self.ctm_list@.len() == self.xx@.len()
        &&& self.num_ctm_list@.len() == self.xx@.len()
        &&& self.num_ctm_ode_list@.len() == self.xx@.len()
        &&& 1 <= self.xx@.len() <= self.n_steps + 1
    }

    /// Whether a record has been made for every increment.
    pub open spec fn spec_is_complete(&self) -> bool {
        self.rows().len() == self.spec_n_steps() + 1
    }

    pub fn n_steps(&self) -> (r: usize)
        ensures
            r == self.spec_n_steps(),
    {
        self.n_steps
    }

    pub fn len(&self) -> (r: usize)
        requires
            self.wf(),
        ensures
            r == self.rows().len(),
    {
        self.xx.len()
    }

    /// The number of increments recorded so far.
    pub fn steps_done(&self) -> (r: usize)
        requires
            self.wf(),
        ensures
            r == self.rows().len() - 1,
    {
        self.xx.len() - 1
    }

    pub fn is_complete(&self) -> (r: bool)
        requires
            self.wf(),
        ensures
            r == self.spec_is_complete(),
    {
        self.xx.len() - 1 == self.n_steps
    }
}

impl<T: Copy> Trajectory<T> {
    /// Starts a trajectory of `n_steps` increments from its initial record.
    pub fn start(n_steps: usize, first: StepRecord<T>) -> (r: Trajectory<T>)
        ensures
            r.wf(),
            r.spec_n_steps() == n_steps,
            r.rows() == seq![first],
    {
        let r = Trajectory {
            n_steps,
            xx: vec![first.x],
            yy_be: vec![first.y_be],
            yy_ode: vec![first.y_ode],
            com_list: vec![first.com],
            ctm_list: vec![first.ctm],
            num_ctm_list: vec![first.num_ctm],
            num_ctm_ode_list: vec![first.num_ctm_ode],
        };
        assert(r.rows() =~= seq![first]);
        r
    }

    /// Appends the record of the next increment.
    pub fn record(&mut self, row: StepRecord<T>)
        requires
            old(self).wf(),
            !old(self).spec_is_complete(),
        ensures
            final(self).wf(),
            final(self).spec_n_steps() == old(self).spec_n_steps(),
            final(self).rows() == old(self).rows().push(row),
    {
        self.xx.push(row.x);
        self.yy_be.push(row.y_be);
        self.yy_ode.push(row.y_ode);
        self.com_list.push(row.com);
        self.ctm_list.push(row.ctm);
        self.num_ctm_list.push(row.num_ctm);
        self.num_ctm_ode_list.push(row.num_ctm_ode);
        assert(self.rows() =~= old(self).rows().push(row));
    }

    /// The record at index `k`.
    pub fn row(&self, k: usize) -> (r: StepRecord<T>)
        requires
            self.wf(),
            k < self.rows().len(),
        ensures
            r == self.rows()[k as int],
    {
        StepRecord {
            x: self.xx[k],
            y_be: self.yy_be[k],
            y_ode: self.yy_ode[k],
            com: self.com_list[k],
            ctm: self.ctm_list[k],
            num_ctm: self.num_ctm_list[k],
            num_ctm_ode: self.num_ctm_ode_list[k],
        }
    }

    /// Hands out the streams: strain, stress by backward Euler, stress by the
    /// reference integrator, continuous modulus, consistent tangent modulus,
    /// and the two finite-difference estimates of it. Only a complete
    /// trajectory is handed out, so each stream holds `n_steps + 1` values.
    pub fn into_streams(self) -> (r: (Vec<T>, Vec<T>, Vec<T>, Vec<T>, Vec<T>, Vec<T>, Vec<T>))
        requires
            self.wf(),
            self.spec_is_complete(),
        ensures
            r.0@.len() == self.spec_n_steps() + 1,
            r.0@ == self.rows().map_values(|s: StepRecord<T>| s.x),
            r.1@ == self.rows().map_values(|s: StepRecord<T>| s.y_be),
            r.2@ == self.rows().map_values(|s: StepRecord<T>| s.y_ode),
            r.3@ == self.rows().map_values(|s: StepRecord<T>| s.com),
            r.4@ == self.rows().map_values(|s: StepRecord<T>| s.ctm),
            r.5@ == self.rows().map_values(|s: StepRecord<T>| s.num_ctm),
            r.6@ == self.rows().map_values(|s: StepRecord<T>| s.num_ctm_ode),
    {
        let ghost rows = self.rows();
        assert(self.xx@ =~= rows.map_values(|s: StepRecord<T>| s.x));
        assert(self.yy_be@ =~= rows.map_values(|s: StepRecord<T>| s.y_be));
        assert(self.yy_ode@ =~= rows.map_values(|s: StepRecord<T>| s.y_ode));
        assert(self.com_list@ =~= rows.map_values(|s: StepRecord<T>| s.com));
        assert(self.ctm_list@ =~= rows.map_values(|s: StepRecord<T>| s.ctm));
        assert(self.num_ctm_list@ =~= rows.map_values(|s: StepRecord<T>| s.num_ctm));
        assert(self.num_ctm_ode_list@ =~= rows.map_values(|s: StepRecord<T>| s.num_ctm_ode));
        (
            self.xx,
            self.yy_be,
            self.yy_ode,
            self.com_list,
            self.ctm_list,
            self.num_ctm_list,
            self.num_ctm_ode_list,
        )
    }
}

} // verus!
