//! Laws of the environment: proved statements that relate several
//! transitions, over the ghost model of `Environment`.

use vstd::prelude::*;

use crate::container::take_amount;
use crate::container::Container;
use crate::environment::GrabberState;
use crate::model::lemma_deposit_total_lone;
use crate::model::EnvModel;

verus! {

/// Busy exclusivity: a successful activation of a grabber whose transfer
/// takes positive time leaves that grabber busy, so activation is no longer
/// enabled for it. By `grab`'s contract, a second call before the remaining
/// time reaches zero therefore returns `Err(())` and changes nothing.
pub proof fn lemma_busy_exclusivity(m: EnvModel, gid: int)
    requires
        m.wf(),
        0 <= gid < m.grabbers.len(),
        m.grab_enabled(gid),
        m.grabbers[gid].time > 0,
    ensures
        !m.grab_step(gid).grab_enabled(gid),
{
}

/// No early deposit: advancing time by less than a grabber's remaining time
/// leaves every container untouched and that grabber still in transit with
/// its cargo, provided every other grabber either does not complete within
/// the delta or carries nothing.
pub proof fn lemma_no_early_deposit(m: EnvModel, gid: int, dt: u64)
    requires
        m.wf(),
        0 <= gid < m.grabbers.len(),
        dt < m.states[gid].time,
        forall|j: int|
            0 <= j < m.states.len() && j != gid ==> m.states[j].time > dt || m.states[j].volume
                == 0,
    ensures
        forall|c: int|
            0 <= c < m.containers.len() ==> m.advance_step(dt).containers[c].0
                == m.containers[c].0,
        m.advance_step(dt).states[gid].time == m.states[gid].time - dt,
        m.advance_step(dt).states[gid].time > 0,
        m.advance_step(dt).states[gid].volume == m.states[gid].volume,
{
    assert forall|c: int| 0 <= c < m.containers.len() implies m.advance_step(dt).containers[c].0
        == m.containers[c].0 by {
        crate::model::lemma_deposit_total_zero(m, dt, c, m.grabbers.len() as int);
    }
}

/// Conservation over a full cycle: when a grabber whose capacity covers its
/// source container's whole content is activated, and time then advances by
/// at least its duration, the source container is drained by exactly its
/// pre-activation amount and the target container gains exactly that same
/// amount, with no other grabber carrying or moving anything meanwhile.
pub proof fn lemma_conservation_full_cycle(m: EnvModel, gid: int, dt: u64)
    requires
        m.wf(),
        0 <= gid < m.grabbers.len(),
        m.grabbers[gid].source.0 < m.containers.len(),
        m.grabbers[gid].target.0 < m.containers.len(),
        m.grabbers[gid].source.0 != m.grabbers[gid].target.0,
        m.grab_enabled(gid),
        forall|j: int| 0 <= j < m.states.len() ==> m.states[j].volume == 0,
        m.grabbers[gid].volume >= m.containers[m.grabbers[gid].source.0 as int].0,
        dt >= m.grabbers[gid].time,
        m.containers[m.grabbers[gid].target.0 as int].0 + m.containers[m.grabbers[gid].source.0 as int].0 <= u64::MAX,
    ensures
        ({
            let m2 = m.grab_step(gid).advance_step(dt);
            let src = m.grabbers[gid].source.0 as int;
            let tgt = m.grabbers[gid].target.0 as int;
            &&& m2.containers[src].0 == 0
            &&& m2.containers[tgt].0 == m.containers[tgt].0 + m.containers[src].0
            &&& m2.states[gid].time == 0
            &&& m2.states[gid].volume == 0
        }),
{
    let m1 = m.grab_step(gid);
    let src = m.grabbers[gid].source.0 as int;
    let tgt = m.grabbers[gid].target.0 as int;
    let n = m.grabbers.len() as int;
    assert(forall|j: int| 0 <= j < n && j != gid ==> m1.deposit_of(dt, src, j) == 0);
    assert(forall|j: int| 0 <= j < n && j != gid ==> m1.deposit_of(dt, tgt, j) == 0);
    lemma_deposit_total_lone(m1, dt, src, n, gid);
    lemma_deposit_total_lone(m1, dt, tgt, n, gid);
}

/// No early deposit, accumulated over two time advances whose deltas still
/// sum to less than the grabber's remaining time: every container is left
/// untouched and the grabber is still in transit with its cargo, provided no
/// other grabber carries anything.
pub proof fn lemma_no_early_deposit_two_steps(m: EnvModel, gid: int, dt1: u64, dt2: u64)
    requires
        m.wf(),
        0 <= gid < m.grabbers.len(),
        dt1 + dt2 < m.states[gid].time,
        forall|j: int| 0 <= j < m.states.len() && j != gid ==> m.states[j].volume == 0,
    ensures
        ({
            let m2 = m.advance_step(dt1).advance_step(dt2);
            &&& forall|c: int|
                0 <= c < m.containers.len() ==> m2.containers[c].0 == m.containers[c].0
            &&& m2.states[gid].time == m.states[gid].time - dt1 - dt2
            &&& m2.states[gid].time > 0
            &&& m2.states[gid].volume == m.states[gid].volume
        }),
{
    let ma = m.advance_step(dt1);
    lemma_no_early_deposit(m, gid, dt1);
    lemma_no_early_deposit(ma, gid, dt2);
}

/// Conservation over a full cycle split into two time advances: activation,
/// then an advance that falls short of the duration, then one that crosses
/// it. The source container is drained by exactly its pre-activation amount
/// and the target container gains exactly that amount.
pub proof fn lemma_conservation_split_cycle(m: EnvModel, gid: int, dt1: u64, dt2: u64)
    requires
        m.wf(),
        0 <= gid < m.grabbers.len(),
        m.grabbers[gid].source.0 < m.containers.len(),
        m.grabbers[gid].target.0 < m.containers.len(),
        m.grabbers[gid].source.0 != m.grabbers[gid].target.0,
        m.grab_enabled(gid),
        forall|j: int| 0 <= j < m.states.len() ==> m.states[j].volume == 0,
        m.grabbers[gid].volume >= m.containers[m.grabbers[gid].source.0 as int].0,
        dt1 < m.grabbers[gid].time,
        dt1 + dt2 >= m.grabbers[gid].time,
        m.containers[m.grabbers[gid].target.0 as int].0 + m.containers[m.grabbers[gid].source.0 as int].0 <= u64::MAX,
    ensures
        ({
            let m2 = m.grab_step(gid).advance_step(dt1).advance_step(dt2);
            let src = m.grabbers[gid].source.0 as int;
            let tgt = m.grabbers[gid].target.0 as int;
            &&& m2.containers[src].0 == 0
            &&& m2.containers[tgt].0 == m.containers[tgt].0 + m.containers[src].0
            &&& m2.states[gid].time == 0
            &&& m2.states[gid].volume == 0
        }),
{
    let m1 = m.grab_step(gid);
    let ma = m1.advance_step(dt1);
    let src = m.grabbers[gid].source.0 as int;
    let tgt = m.grabbers[gid].target.0 as int;
    let n = m.grabbers.len() as int;
    assert forall|c: int| 0 <= c < m1.containers.len() implies ma.containers[c].0
        == m1.containers[c].0 by {
        crate::model::lemma_deposit_total_zero(m1, dt1, c, n);
    }
    assert(forall|j: int| 0 <= j < n && j != gid ==> ma.deposit_of(dt2, src, j) == 0);
    assert(forall|j: int| 0 <= j < n && j != gid ==> ma.deposit_of(dt2, tgt, j) == 0);
    lemma_deposit_total_lone(ma, dt2, src, n, gid);
    lemma_deposit_total_lone(ma, dt2, tgt, n, gid);
}

/// Activation creates and destroys no volume: when the activated grabber
/// starts out carrying nothing, what its source container loses is exactly
/// what the grabber picks up, so the environment's total volume is unchanged.
pub proof fn lemma_grab_conserves_volume(m: EnvModel, gid: int)
    requires
        m.wf(),
        0 <= gid < m.grabbers.len(),
        m.grabbers[gid].source.0 < m.containers.len(),
        m.grab_enabled(gid),
        m.states[gid].volume == 0,
    ensures
        m.grab_step(gid).total_mass() == m.total_mass(),
{
    let g = m.grabbers[gid];
    let src = g.source.0 as int;
    let amount = m.containers[src].0;
    let taken = take_amount(amount as int, g.volume as int);
    crate::model::lemma_container_mass_update(
        m,
        m.containers.len() as int,
        src,
        Container((amount - taken) as u64),
    );
    let m1 = EnvModel { containers: m.containers.update(src, Container((amount - taken) as u64)), ..m };
    crate::model::lemma_transit_mass_congruence(m, m1, m.states.len() as int);
    crate::model::lemma_transit_mass_update(
        m1,
        m1.states.len() as int,
        gid,
        GrabberState { time: g.time, volume: taken as u64 },
    );
    crate::model::lemma_container_mass_congruence(m1, m.grab_step(gid), m.containers.len() as int);
    crate::model::lemma_transit_mass_congruence(
        EnvModel { states: m1.states.update(gid, GrabberState { time: g.time, volume: taken as u64 }), ..m1 },
        m.grab_step(gid),
        m.states.len() as int,
    );
}

/// A time advance creates and destroys no volume: every completing grabber's
/// cargo reappears, whole, in its target container, and nothing else moves,
/// so the environment's total volume is unchanged.
pub proof fn lemma_advance_conserves_volume(m: EnvModel, dt: u64)
    requires
        m.wf(),
        m.targets_in_range(),
        m.deposits_fit(dt),
    ensures
        m.advance_step(dt).total_mass() == m.total_mass(),
{
    let n = m.grabbers.len() as int;
    let cn = m.containers.len() as int;
    lemma_advance_container_mass(m, dt, cn);
    lemma_advance_transit_mass(m, dt, n);
    crate::model::lemma_deposit_grand_completed(m, dt, cn, n);
}

/// After a time advance, the first `cn` containers hold what they held
/// before plus everything deposited into them.
proof fn lemma_advance_container_mass(m: EnvModel, dt: u64, cn: int)
    requires
        m.deposits_fit(dt),
        cn <= m.containers.len(),
    ensures
        m.advance_step(dt).container_mass(cn) == m.container_mass(cn) + m.deposit_grand(
            dt,
            cn,
            m.grabbers.len() as int,
        ),
    decreases cn,
{
    if cn > 0 {
        lemma_advance_container_mass(m, dt, cn - 1);
        crate::model::lemma_deposit_total_mono(m, dt, cn - 1, 0, m.grabbers.len() as int);
    }
}

/// After a time advance, the first `n` grabbers carry what they carried
/// before minus everything the completing ones released.
proof fn lemma_advance_transit_mass(m: EnvModel, dt: u64, n: int)
    requires
        n <= m.states.len(),
    ensures
        m.advance_step(dt).transit_mass(n) == m.transit_mass(n) - m.completed_volume(dt, n),
    decreases n,
{
    if n > 0 {
        lemma_advance_transit_mass(m, dt, n - 1);
    }
}

/// An idle grabber carries no volume: activation preserves the invariant as
/// long as the activated grabber's transfer takes positive time.
pub proof fn lemma_grab_preserves_idle_empty(m: EnvModel, gid: int)
    requires
        m.wf(),
        m.idle_empty(),
        0 <= gid < m.grabbers.len(),
        m.grab_enabled(gid),
        m.grabbers[gid].time > 0,
    ensures
        m.grab_step(gid).idle_empty(),
{
}

/// An idle grabber carries no volume: a time advance always leaves every
/// grabber either still in transit or idle with nothing in hand.
pub proof fn lemma_advance_preserves_idle_empty(m: EnvModel, dt: u64)
    ensures
        m.advance_step(dt).idle_empty(),
{
}

} // verus!
