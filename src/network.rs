use vstd::prelude::*;

verus! {

/// Where a registered root stands.
#[derive(Clone, Copy, PartialEq, Eq, Structural, Debug)]
pub enum RootState {
    /// Registered, with no worker.
    Registered,
    /// A worker runs, started as this generation.
    Active(u64),
}

/// What the runtime must do after a transition.
#[derive(Clone, Copy, PartialEq, Eq, Structural, Debug)]
pub enum RootCommand {
    /// Nothing.
    Nothing,
    /// Start a worker for the root with a fresh, unset cancellation flag,
    /// sending as this generation.
    Start(u64),
    /// Set the cancellation flag of the worker of this generation and wait
    /// for it to end.
    Stop(u64),
}

/// The roots' states, in registration order, and the next generation.
pub struct NetworkModel {
    pub states: Seq<RootState>,
    pub next: nat,
}

pub open spec fn registered(m: NetworkModel) -> NetworkModel {
    NetworkModel { states: m.states.push(RootState::Registered), next: m.next }
}

/// Activation: nothing for an active root; otherwise the root becomes
/// active as a new generation and a worker is started.
pub open spec fn activated(m: NetworkModel, i: int) -> (NetworkModel, RootCommand) {
    match m.states[i] {
        RootState::Active(_) => (m, RootCommand::Nothing),
        RootState::Registered => (
            NetworkModel {
                states: m.states.update(i, RootState::Active(m.next as u64)),
                next: m.next + 1,
            },
            RootCommand::Start(m.next as u64),
        ),
    }
}

/// Deactivation: an active root's worker is stopped and the root goes back
/// to registered; anything else is left alone.
pub open spec fn deactivated(m: NetworkModel, i: int) -> (NetworkModel, RootCommand) {
    if 0 <= i < m.states.len() {
        match m.states[i] {
            RootState::Active(g) => (
                NetworkModel { states: m.states.update(i, RootState::Registered), next: m.next },
                RootCommand::Stop(g),
            ),
            RootState::Registered => (m, RootCommand::Nothing),
        }
    } else {
        (m, RootCommand::Nothing)
    }
}

/// Removal: the root's worker, if any, is stopped, and the root is gone.
pub open spec fn removed(m: NetworkModel, i: int) -> (NetworkModel, RootCommand) {
    (
        NetworkModel { states: m.states.remove(i), next: m.next },
        match m.states[i] {
            RootState::Active(g) => RootCommand::Stop(g),
            RootState::Registered => RootCommand::Nothing,
        },
    )
}

/// Some root runs a worker of generation `g`.
pub open spec fn live(m: NetworkModel, g: u64) -> bool {
    exists|i: int| 0 <= i < m.states.len() && m.states[i] == RootState::Active(g)
}

/// Every running generation was handed out, and no two roots run the same.
pub open spec fn generations_fresh(m: NetworkModel) -> bool {
    &&& forall|i: int|
        0 <= i < m.states.len() ==> (#[trigger] m.states[i] matches RootState::Active(g) ==> g
            < m.next)
    &&& forall|i: int, j: int|
        0 <= i < m.states.len() && 0 <= j < m.states.len() && i != j && (
        #[trigger] m.states[i] matches RootState::Active(_)) ==> m.states[i]
            != #[trigger] m.states[j]
    &&& m.next <= u64::MAX
}

/// Activating a root twice in a row starts exactly one worker: the first
/// activation starts one if and only if the root had none, the second does
/// nothing and changes nothing, and the root ends up active.
pub proof fn lemma_activate_twice_starts_one_worker(m: NetworkModel, i: int)
    requires
        0 <= i < m.states.len(),
    ensures
        activated(m, i).1 is Start <==> m.states[i] == RootState::Registered,
        activated(m, i).0.states[i] is Active,
        activated(activated(m, i).0, i).1 == RootCommand::Nothing,
        activated(activated(m, i).0, i).0 == activated(m, i).0,
{
}

/// Stopping a running root and activating it again stops the old worker and
/// starts a new one of a generation that was never used; the stopped
/// generation is no longer live.
pub proof fn lemma_restart_starts_fresh_worker(m: NetworkModel, i: int, g: u64)
    requires
        generations_fresh(m),
        0 <= i < m.states.len(),
        m.states[i] == RootState::Active(g),
    ensures
        deactivated(m, i).1 == RootCommand::Stop(g),
        !live(deactivated(m, i).0, g),
        activated(deactivated(m, i).0, i).1 == RootCommand::Start(m.next as u64),
        m.next != g,
        !live(activated(deactivated(m, i).0, i).0, g),
{
    let m1 = deactivated(m, i).0;
    assert forall|j: int| 0 <= j < m1.states.len() implies m1.states[j] != RootState::Active(g) by {
        if j != i {
            assert(m.states[j] != m.states[i]);
        }
    }
    let m2 = activated(m1, i).0;
    assert forall|j: int| 0 <= j < m2.states.len() implies m2.states[j] != RootState::Active(g) by {
        if j != i {
            assert(m2.states[j] == m1.states[j]);
        }
    }
}

/// A generation that is not live never becomes live again: no later
/// activation, deactivation or removal brings back a stopped worker's
/// generation.
pub proof fn lemma_stopped_generation_stays_stopped(m: NetworkModel, i: int, g: u64)
    requires
        generations_fresh(m),
        0 <= i < m.states.len(),
        (g as nat) < m.next,
        !live(m, g),
    ensures
        !live(activated(m, i).0, g),
        !live(deactivated(m, i).0, g),
        !live(removed(m, i).0, g),
{
    let a = activated(m, i).0;
    assert forall|j: int| 0 <= j < a.states.len() implies a.states[j] != RootState::Active(g) by {
        if j != i || m.states[i] is Active {
            assert(a.states[j] == m.states[j]);
        }
    }
    let d = deactivated(m, i).0;
    assert forall|j: int| 0 <= j < d.states.len() implies d.states[j] != RootState::Active(g) by {
        if j != i {
            assert(d.states[j] == m.states[j]);
        }
    }
    let r = removed(m, i).0;
    assert forall|j: int| 0 <= j < r.states.len() implies r.states[j] != RootState::Active(g) by {
        if j < i {
            assert(r.states[j] == m.states[j]);
        } else {
            assert(r.states[j] == m.states[j + 1]);
        }
    }
}

/// Activating two distinct registered roots starts two workers, of two
/// different generations, and both run afterwards.
pub proof fn lemma_two_roots_both_run(m: NetworkModel, i: int, j: int)
    requires
        generations_fresh(m),
        0 <= i < m.states.len(),
        0 <= j < m.states.len(),
        i != j,
        m.states[i] == RootState::Registered,
        m.states[j] == RootState::Registered,
        m.next + 1 < u64::MAX,
    ensures
        activated(m, i).1 == RootCommand::Start(m.next as u64),
        activated(activated(m, i).0, j).1 == RootCommand::Start((m.next + 1) as u64),
        live(activated(activated(m, i).0, j).0, m.next as u64),
        live(activated(activated(m, i).0, j).0, (m.next + 1) as u64),
{
    let m2 = activated(activated(m, i).0, j).0;
    assert(m2.states[i] == RootState::Active(m.next as u64));
    assert(m2.states[j] == RootState::Active((m.next + 1) as u64));
}

/// The bookkeeping of the ingestion roots: which are registered, which run a
/// worker and as which generation. Each worker start gets a generation never
/// used before, so the signals of a stopped worker can be told from those of
/// its successor.
pub struct SignalRootNetwork {
    states: Vec<RootState>,
    next_generation: u64,
}

impl View for SignalRootNetwork {
    type V = NetworkModel;

    closed spec fn view(&self) -> NetworkModel {
        NetworkModel { states: self.states@, next: self.next_generation as nat }
    }
}

impl SignalRootNetwork {
    /// Running generations are fresh and distinct.
    pub open spec fn wf(&self) -> bool {
        generations_fresh(self@)
    }

    /// A network with no roots.
    pub fn new() -> (r: Self)
        ensures
            r.wf(),
            r@.states.len() == 0,
            r@.next == 0,
    {
        SignalRootNetwork { states: Vec::new(), next_generation: 0 }
    }

    /// The number of registered roots.
    pub fn len(&self) -> (r: usize)
        ensures
            r == self@.states.len(),
    {
        self.states.len()
    }

    /// The generation that the next worker start will get.
    pub fn next_generation(&self) -> (r: u64)
        ensures
            r == self@.next,
    {
        self.next_generation
    }

    /// The state of root `index`.
    pub fn state(&self, index: usize) -> (r: RootState)
        requires
            index < self@.states.len(),
        ensures
            r == self@.states[index as int],
    {
        self.states[index]
    }

    /// Registers a root, with no worker.
    pub fn add_root(&mut self)
        requires
            old(self).wf(),
        ensures
            final(self).wf(),
            final(self)@ == registered(old(self)@),
    {
        self.states.push(RootState::Registered);
    }

    /// Starts a worker for root `index` unless one runs.
    pub fn activate_root(&mut self, index: usize) -> (r: RootCommand)
        requires
            old(self).wf(),
            index < old(self)@.states.len(),
            old(self)@.states[index as int] == RootState::Registered ==> old(self)@.next < u64::MAX,
        ensures
            final(self).wf(),
            (final(self)@, r) == activated(old(self)@, index as int),
    {
        match self.states[index] {
            RootState::Active(_) => RootCommand::Nothing,
            RootState::Registered => {
                let g = self.next_generation;
                self.states.set(index, RootState::Active(g));
                self.next_generation = g + 1;
                RootCommand::Start(g)
            },
        }
    }

    /// Stops the worker of root `index`, if it runs one.
    pub fn deactivate_root(&mut self, index: usize) -> (r: RootCommand)
        requires
            old(self).wf(),
        ensures
            final(self).wf(),
            (final(self)@, r) == deactivated(old(self)@, index as int),
    {
        if index >= self.states.len() {
            return RootCommand::Nothing;
        }
        match self.states[index] {
            RootState::Active(g) => {
                self.states.set(index, RootState::Registered);
                RootCommand::Stop(g)
            },
            RootState::Registered => RootCommand::Nothing,
        }
    }

    /// Stops the worker of root `index`, if it runs one, and forgets the root;
    /// the roots after it move down by one.
    pub fn remove_root(&mut self, index: usize) -> (r: RootCommand)
        requires
            old(self).wf(),
            index < old(self)@.states.len(),
        ensures
            final(self).wf(),
            (final(self)@, r) == removed(old(self)@, index as int),
    {
        let s = self.states.remove(index);
        match s {
            RootState::Active(g) => RootCommand::Stop(g),
            RootState::Registered => RootCommand::Nothing,
        }
    }

    /// Whether a worker of generation `g` runs.
    pub fn is_live(&self, g: u64) -> (r: bool)
        ensures
            r == live(self@, g),
    {
        let mut i: usize = 0;
        while i < self.states.len()
            invariant
                i <= self@.states.len(),
                forall|j: int| 0 <= j < i ==> self@.states[j] != RootState::Active(g),
            decreases self@.states.len() - i,
        {
            if self.states[i] == RootState::Active(g) {
                return true;
            }
            i = i + 1;
        }
        false
    }
}

} // verus!
