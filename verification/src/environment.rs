//! The environment: the owner of all containers, grabbers and grabber states.

use vstd::prelude::*;

use crate::container::Container;
use crate::model::EnvModel;

verus! {

/// Stores a container ID: a stable index into the environment's containers.
#[derive(Clone, Copy)]
pub struct ContainerId(pub usize);

/// Stores a grabber ID: a stable index into the environment's grabbers.
#[derive(Clone, Copy)]
pub struct GrabberId(pub usize);

/// Stores the immutable configuration of a grabber.
#[derive(Clone, Copy)]
pub struct Grabber {
    /// The maximum volume the grabber can carry per transfer, in units.
    pub volume: u64,
    /// The time a transfer takes to complete, in units.
    pub time: u64,
    /// The container the grabber withdraws from.
    pub source: ContainerId,
    /// The container the grabber deposits into.
    pub target: ContainerId,
}

/// Stores the mutable state of a grabber.
///
/// A grabber is idle when `time == 0` and in transit when `time > 0`.
#[derive(Clone, Copy)]
pub struct GrabberState {
    /// The time remaining until the current transfer completes, in units.
    pub time: u64,
    /// The volume currently being carried, in units.
    pub volume: u64,
}

/// Stores the environment: all containers, grabbers and grabber states.
///
/// The grabber at index `i` of `grabbers` is paired with the state at index
/// `i` of `grabber_states`.
pub struct Environment {
    /// Stores the containers.
    pub containers: Vec<Container>,
    /// Stores the grabbers.
    pub grabbers: Vec<Grabber>,
    /// Stores the grabber states.
    pub grabber_states: Vec<GrabberState>,
}

impl View for Environment {
    type V = EnvModel;

    open spec fn view(&self) -> EnvModel {
        EnvModel {
            containers: self.containers@,
            grabbers: self.grabbers@,
            states: self.grabber_states@,
        }
    }
}

impl Environment {
    /// Creates a new empty environment.
    pub fn new() -> (env: Environment)
        ensures
            env@.wf(),
            env@.idle_empty(),
            env@.containers.len() == 0,
            env@.grabbers.len() == 0,
    {
        Environment { containers: Vec::new(), grabbers: Vec::new(), grabber_states: Vec::new() }
    }

    /// Adds a new container to the environment and returns its handle,
    /// which equals its insertion index.
    pub fn add_container(&mut self, c: Container) -> (id: ContainerId)
        ensures
            id.0 == old(self)@.containers.len(),
            final(self)@.containers =~= old(self)@.containers.push(c),
            final(self)@.grabbers == old(self)@.grabbers,
            final(self)@.states == old(self)@.states,
    {
        let id = self.containers.len();
        self.containers.push(c);
        ContainerId(id)
    }

    /// Adds a new grabber together with a matching idle state and returns
    /// the grabber's handle, which equals its insertion index.
    pub fn add_grabber(&mut self, g: Grabber) -> (id: GrabberId)
        ensures
            id.0 == old(self)@.grabbers.len(),
            final(self)@.grabbers =~= old(self)@.grabbers.push(g),
            final(self)@.states =~= old(self)@.states.push(
                (GrabberState { time: 0, volume: 0 }),
            ),
            final(self)@.containers == old(self)@.containers,
            old(self)@.idle_empty() ==> final(self)@.idle_empty(),
    {
        let id = self.grabbers.len();
        self.grabbers.push(g);
        self.grabber_states.push(GrabberState { time: 0, volume: 0 });
        GrabberId(id)
    }

    /// Activates a grabber, if it is not busy.
    ///
    /// An idle grabber (remaining time 0) withdraws up to its capacity from
    /// its source container, starts carrying the withdrawn volume, and its
    /// remaining time is set to its configured duration; the call returns
    /// `Ok(())`. A busy grabber (remaining time above 0) is left untouched,
    /// as is everything else, and the call returns `Err(())`.
    pub fn grab(&mut self, gid: GrabberId) -> (r: Result<(), ()>)
        requires
            old(self)@.wf(),
            gid.0 < old(self)@.grabbers.len(),
            old(self)@.grabbers[gid.0 as int].source.0 < old(self)@.containers.len(),
        ensures
            final(self)@.wf(),
            old(self)@.grab_enabled(gid.0 as int) ==> r is Ok && final(self)@ =~~= old(
                self,
            )@.grab_step(gid.0 as int),
            !old(self)@.grab_enabled(gid.0 as int) ==> r is Err && final(self)@ =~~= old(self)@,
    {
        if self.grabber_states[gid.0].time == 0 {
            let g = self.grabbers[gid.0];
            let v = g.volume;
            let mut c = self.containers[g.source.0];
            let v2 = c.take(v);
            self.containers.set(g.source.0, c);
            self.grabber_states.set(gid.0, GrabberState { time: g.time, volume: v2 });
            Ok(())
        } else {
            Err(())
        }
    }

    /// Updates the environment with a time delta.
    ///
    /// Every grabber's remaining time shrinks by `dt`. A grabber whose
    /// remaining time is thereby exhausted deposits its whole cargo into its
    /// target container, at once, and becomes idle; excess delta beyond the
    /// remaining time is discarded, not carried forward. A grabber that was
    /// already idle stays idle and deposits nothing.
    pub fn update(&mut self, dt: u64)
        requires
            old(self)@.wf(),
            old(self)@.targets_in_range(),
            old(self)@.deposits_fit(dt),
        ensures
            final(self)@.wf(),
            final(self)@ =~~= old(self)@.advance_step(dt),
    {
        let ghost m0 = self@;
        let n = self.grabbers.len();
        let mut i: usize = 0;
        while i < n
            invariant
                i <= n,
                n == m0.grabbers.len(),
                m0.wf(),
                m0.targets_in_range(),
                m0.deposits_fit(dt),
                self@.grabbers =~= m0.grabbers,
                self@.containers.len() == m0.containers.len(),
                self@.states.len() == n,
                forall|c: int|
                    0 <= c < m0.containers.len() ==> self@.containers[c].0 == m0.containers[c].0
                        + m0.deposit_total(dt, c, i as int),
                forall|j: int|
                    0 <= j < i ==> self@.states[j] == EnvModel::advance_state(m0.states[j], dt),
                forall|j: int| i <= j < n ==> self@.states[j] == m0.states[j],
            decreases n - i,
        {
            let s = self.grabber_states[i];
            proof {
                assert forall|c: int| 0 <= c < m0.containers.len() implies m0.deposit_total(
                    dt,
                    c,
                    i as int + 1,
                ) == m0.deposit_total(dt, c, i as int) + m0.deposit_of(dt, c, i as int) by {}
            }
            if s.time <= dt {
                let t = self.grabbers[i].target.0;
                let mut c = self.containers[t];
                proof {
                    assert(m0.deposit_of(dt, t as int, i as int) == s.volume as int);
                    crate::model::lemma_deposit_total_mono(m0, dt, t as int, i as int + 1, n as int);
                    assert(m0.containers[t as int].0 + m0.deposit_total(dt, t as int, n as int)
                        <= u64::MAX);
                    assert(c.0 + s.volume <= u64::MAX);
                }
                c.put(s.volume);
                self.containers.set(t, c);
                self.grabber_states.set(i, GrabberState { time: 0, volume: 0 });
            } else {
                proof {
                    assert forall|c: int| 0 <= c < m0.containers.len() implies m0.deposit_of(
                        dt,
                        c,
                        i as int,
                    ) == 0 by {}
                }
                self.grabber_states.set(i, GrabberState { time: s.time - dt, volume: s.volume });
            }
            i = i + 1;
        }
        proof {
            assert(self@.containers =~= m0.advance_step(dt).containers);
            assert(self@.states =~= m0.advance_step(dt).states);
        }
    }

    /// The current volume of a container, in units.
    pub fn volume_of_container(&self, c: ContainerId) -> (v: u64)
        requires
            c.0 < self@.containers.len(),
        ensures
            v == self@.containers[c.0 as int].0,
    {
        self.containers[c.0].0
    }
}

} // verus!
