//! The mathematical model of the environment and its two transitions.
//!
//! `EnvModel` is the ghost view of an `Environment`; `grab_step` and
//! `advance_step` say, as pure mathematics, what activation and time advance
//! do to it. The executable methods promise to agree with these functions.

use vstd::prelude::*;

use crate::container::take_amount;
use crate::container::Container;
use crate::environment::Grabber;
use crate::environment::GrabberState;

verus! {

/// The ghost state of an environment: the containers, the grabber
/// configurations, and the grabber states, with the grabber at index `i`
/// paired with the state at index `i`.
#[verifier::ext_equal]
pub struct EnvModel {
    /// The containers.
    pub containers: Seq<Container>,
    /// The grabber configurations.
    pub grabbers: Seq<Grabber>,
    /// The per-grabber mutable states.
    pub states: Seq<GrabberState>,
}

impl EnvModel {
    /// Each grabber has exactly one state record.
    pub open spec fn wf(self) -> bool {
        self.states.len() == self.grabbers.len()
    }

    /// Every grabber's target handle refers to an existing container.
    pub open spec fn targets_in_range(self) -> bool {
        forall|i: int|
            0 <= i < self.grabbers.len() ==> self.grabbers[i].target.0 < self.containers.len()
    }

    /// An idle grabber carries no volume.
    pub open spec fn idle_empty(self) -> bool {
        forall|i: int|
            0 <= i < self.states.len() ==> (self.states[i].time == 0 ==> self.states[i].volume
                == 0)
    }

    /// Activation succeeds exactly when the grabber is idle.
    pub open spec fn grab_enabled(self, gid: int) -> bool {
        self.states[gid].time == 0
    }

    /// The environment after a successful activation of grabber `gid`:
    /// the source container loses what the grabber withdraws, and the
    /// grabber starts carrying that volume for its configured duration.
    pub open spec fn grab_step(self, gid: int) -> EnvModel {
        let g = self.grabbers[gid];
        let amount = self.containers[g.source.0 as int].0;
        let taken = take_amount(amount as int, g.volume as int);
        EnvModel {
            containers: self.containers.update(
                g.source.0 as int,
                Container((amount - taken) as u64),
            ),
            grabbers: self.grabbers,
            states: self.states.update(gid, GrabberState { time: g.time, volume: taken as u64 }),
        }
    }

    /// What advancing time by `dt` does to one grabber state: the transfer
    /// completes when the remaining time does not exceed `dt`, and the excess
    /// delta is discarded; otherwise the remaining time just shrinks by `dt`.
    pub open spec fn advance_state(s: GrabberState, dt: u64) -> GrabberState {
        if s.time <= dt {
            GrabberState { time: 0, volume: 0 }
        } else {
            GrabberState { time: (s.time - dt) as u64, volume: s.volume }
        }
    }

    /// The volume that grabber `i` deposits into container `c` when time
    /// advances by `dt`: its cargo if its transfer completes and `c` is its
    /// target, nothing otherwise.
    pub open spec fn deposit_of(self, dt: u64, c: int, i: int) -> int {
        if self.states[i].time <= dt && self.grabbers[i].target.0 as int == c {
            self.states[i].volume as int
        } else {
            0
        }
    }

    /// The total volume that the first `n` grabbers deposit into container
    /// `c` when time advances by `dt`.
    pub open spec fn deposit_total(self, dt: u64, c: int, n: int) -> int
        decreases n,
    {
        if n <= 0 {
            0
        } else {
            self.deposit_total(dt, c, n - 1) + self.deposit_of(dt, c, n - 1)
        }
    }

    /// The environment after time advances by `dt`: every completing grabber
    /// deposits its cargo into its target container and becomes idle, every
    /// other grabber's remaining time shrinks by `dt`.
    pub open spec fn advance_step(self, dt: u64) -> EnvModel {
        EnvModel {
            containers: Seq::new(
                self.containers.len(),
                |c: int|
                    Container(
                        (self.containers[c].0 + self.deposit_total(
                            dt,
                            c,
                            self.grabbers.len() as int,
                        )) as u64,
                    ),
            ),
            grabbers: self.grabbers,
            states: Seq::new(self.states.len(), |i: int| EnvModel::advance_state(self.states[i], dt)),
        }
    }

    /// The total volume held by the first `n` containers.
    pub open spec fn container_mass(self, n: int) -> int
        decreases n,
    {
        if n <= 0 {
            0
        } else {
            self.container_mass(n - 1) + self.containers[n - 1].0
        }
    }

    /// The total volume carried by the first `n` grabbers.
    pub open spec fn transit_mass(self, n: int) -> int
        decreases n,
    {
        if n <= 0 {
            0
        } else {
            self.transit_mass(n - 1) + self.states[n - 1].volume
        }
    }

    /// All volume in the environment: what the containers hold plus what the
    /// grabbers carry.
    pub open spec fn total_mass(self) -> int {
        self.container_mass(self.containers.len() as int) + self.transit_mass(
            self.states.len() as int,
        )
    }

    /// The volume that grabber `j` deposits somewhere among the first `cn`
    /// containers when time advances by `dt`.
    pub open spec fn deposit_row(self, dt: u64, cn: int, j: int) -> int
        decreases cn,
    {
        if cn <= 0 {
            0
        } else {
            self.deposit_row(dt, cn - 1, j) + self.deposit_of(dt, cn - 1, j)
        }
    }

    /// The volume that the first `n` grabbers deposit, in total, among the
    /// first `cn` containers when time advances by `dt`.
    pub open spec fn deposit_grand(self, dt: u64, cn: int, n: int) -> int
        decreases cn,
    {
        if cn <= 0 {
            0
        } else {
            self.deposit_grand(dt, cn - 1, n) + self.deposit_total(dt, cn - 1, n)
        }
    }

    /// The volume that the first `n` grabbers release when time advances by
    /// `dt`: the cargo of those whose transfers complete.
    pub open spec fn completed_volume(self, dt: u64, n: int) -> int
        decreases n,
    {
        if n <= 0 {
            0
        } else {
            self.completed_volume(dt, n - 1) + if self.states[n - 1].time <= dt {
                self.states[n - 1].volume as int
            } else {
                0
            }
        }
    }

    /// No container overflows its `u64` volume when time advances by `dt`.
    pub open spec fn deposits_fit(self, dt: u64) -> bool {
        forall|c: int|
            0 <= c < self.containers.len() ==> self.containers[c].0 + self.deposit_total(
                dt,
                c,
                self.grabbers.len() as int,
            ) <= u64::MAX
    }
}

/// When none of the first `n` grabbers deposits anything into container `c`,
/// the deposit total for `c` is zero.
pub proof fn lemma_deposit_total_zero(m: EnvModel, dt: u64, c: int, n: int)
    requires
        forall|j: int| 0 <= j < n ==> m.deposit_of(dt, c, j) == 0,
    ensures
        m.deposit_total(dt, c, n) == 0,
    decreases n,
{
    if n > 0 {
        lemma_deposit_total_zero(m, dt, c, n - 1);
    }
}

/// When grabber `k` is the only one of the first `n` grabbers that deposits
/// anything into container `c`, the deposit total for `c` is its deposit.
pub proof fn lemma_deposit_total_lone(m: EnvModel, dt: u64, c: int, n: int, k: int)
    requires
        0 <= k < n,
        forall|j: int| 0 <= j < n && j != k ==> m.deposit_of(dt, c, j) == 0,
    ensures
        m.deposit_total(dt, c, n) == m.deposit_of(dt, c, k),
    decreases n,
{
    if k == n - 1 {
        lemma_deposit_total_zero(m, dt, c, n - 1);
    } else {
        lemma_deposit_total_lone(m, dt, c, n - 1, k);
    }
}

/// Each grabber deposits a non-negative volume, so the running deposit total
/// only grows with the number of grabbers counted.
pub proof fn lemma_deposit_total_mono(m: EnvModel, dt: u64, c: int, i: int, n: int)
    requires
        i <= n,
    ensures
        m.deposit_total(dt, c, i) <= m.deposit_total(dt, c, n),
    decreases n - i,
{
    if i < n {
        lemma_deposit_total_mono(m, dt, c, i, n - 1);
    }
}

/// Two models whose first `n` containers agree have the same container mass
/// over those `n`.
pub proof fn lemma_container_mass_congruence(a: EnvModel, b: EnvModel, n: int)
    requires
        forall|i: int| 0 <= i < n ==> a.containers[i] == b.containers[i],
    ensures
        a.container_mass(n) == b.container_mass(n),
    decreases n,
{
    if n > 0 {
        lemma_container_mass_congruence(a, b, n - 1);
    }
}

/// Two models whose first `n` grabber states agree have the same transit
/// mass over those `n`.
pub proof fn lemma_transit_mass_congruence(a: EnvModel, b: EnvModel, n: int)
    requires
        forall|i: int| 0 <= i < n ==> a.states[i] == b.states[i],
    ensures
        a.transit_mass(n) == b.transit_mass(n),
    decreases n,
{
    if n > 0 {
        lemma_transit_mass_congruence(a, b, n - 1);
    }
}

/// Replacing container `k` changes the container mass by exactly the change
/// in that container's volume.
pub proof fn lemma_container_mass_update(m: EnvModel, n: int, k: int, x: Container)
    requires
        0 <= k < n <= m.containers.len(),
    ensures
        (EnvModel { containers: m.containers.update(k, x), ..m }).container_mass(n)
            == m.container_mass(n) + x.0 - m.containers[k].0,
    decreases n,
{
    let m2 = EnvModel { containers: m.containers.update(k, x), ..m };
    if k == n - 1 {
        lemma_container_mass_congruence(m, m2, n - 1);
    } else {
        lemma_container_mass_update(m, n - 1, k, x);
    }
}

/// Replacing grabber state `k` changes the transit mass by exactly the
/// change in that state's carried volume.
pub proof fn lemma_transit_mass_update(m: EnvModel, n: int, k: int, x: GrabberState)
    requires
        0 <= k < n <= m.states.len(),
    ensures
        (EnvModel { states: m.states.update(k, x), ..m }).transit_mass(n) == m.transit_mass(n)
            + x.volume - m.states[k].volume,
    decreases n,
{
    let m2 = EnvModel { states: m.states.update(k, x), ..m };
    if k == n - 1 {
        lemma_transit_mass_congruence(m, m2, n - 1);
    } else {
        lemma_transit_mass_update(m, n - 1, k, x);
    }
}

/// What grabber `j` deposits among the first `cn` containers: its cargo,
/// when its transfer completes and its target lies among them.
pub proof fn lemma_deposit_row_value(m: EnvModel, dt: u64, cn: int, j: int)
    ensures
        m.deposit_row(dt, cn, j) == if m.states[j].time <= dt && (m.grabbers[j].target.0 as int)
            < cn {
            m.states[j].volume as int
        } else {
            0
        },
    decreases cn,
{
    if cn > 0 {
        lemma_deposit_row_value(m, dt, cn - 1, j);
    }
}

/// With no grabbers counted, nothing is deposited anywhere.
pub proof fn lemma_deposit_grand_zero(m: EnvModel, dt: u64, cn: int)
    ensures
        m.deposit_grand(dt, cn, 0) == 0,
    decreases cn,
{
    if cn > 0 {
        lemma_deposit_grand_zero(m, dt, cn - 1);
    }
}

/// Counting one more grabber adds that grabber's row to the grand deposit
/// total.
pub proof fn lemma_deposit_grand_step(m: EnvModel, dt: u64, cn: int, n: int)
    requires
        n >= 1,
    ensures
        m.deposit_grand(dt, cn, n) == m.deposit_grand(dt, cn, n - 1) + m.deposit_row(dt, cn, n - 1),
    decreases cn,
{
    if cn > 0 {
        lemma_deposit_grand_step(m, dt, cn - 1, n);
    }
}

/// When every target among the first `n` grabbers lies among the first `cn`
/// containers, the grand deposit total is exactly the volume the completing
/// grabbers release: deposited volume neither appears nor vanishes.
pub proof fn lemma_deposit_grand_completed(m: EnvModel, dt: u64, cn: int, n: int)
    requires
        n >= 0,
        forall|j: int| 0 <= j < n ==> (m.grabbers[j].target.0 as int) < cn,
    ensures
        m.deposit_grand(dt, cn, n) == m.completed_volume(dt, n),
    decreases n,
{
    if n <= 0 {
        lemma_deposit_grand_zero(m, dt, cn);
    } else {
        lemma_deposit_grand_completed(m, dt, cn, n - 1);
        lemma_deposit_grand_step(m, dt, cn, n);
        lemma_deposit_row_value(m, dt, cn, n - 1);
    }
}

} // verus!
