use vstd::prelude::*;

use crate::sample::{Counters, FatalError, InterfaceSample, QueryError, StoreError};
use crate::shutdown::ShutdownFlag;
use crate::store::SampleStore;

verus! {

/// The sampler's immutable configuration, supplied once at startup: the
/// sample period and the ordered list of interfaces to sample each cycle.
#[derive(Debug)]
pub struct SamplerConfig {
    pub sample_period_seconds: u64,
    pub interfaces: Vec<String>,
}

/// A well-formed configuration: a positive period and at least one
/// interface, every name non-empty.
pub open spec fn config_wf(c: SamplerConfig) -> bool {
    &&& c.sample_period_seconds > 0
    &&& c.interfaces@.len() > 0
    &&& forall|i: int| 0 <= i < c.interfaces@.len() ==> (#[trigger] c.interfaces@[i])@.len() > 0
}

/// A configuration defect, each rejected at startup before the loop runs.
#[derive(Clone, Copy, Debug, PartialEq, Eq, Structural)]
pub enum ConfigError {
    /// The sample period is zero.
    ZeroSamplePeriod,
    /// The interface list is empty.
    NoInterfaces,
    /// An interface name is the empty string.
    EmptyInterfaceName,
}

/// The defect a configuration is rejected for, in the order the checks
/// run: period first, then the list, then the names.
pub open spec fn spec_validate_config(c: SamplerConfig) -> Result<(), ConfigError> {
    if c.sample_period_seconds == 0 {
        Err(ConfigError::ZeroSamplePeriod)
    } else if c.interfaces@.len() == 0 {
        Err(ConfigError::NoInterfaces)
    } else if exists|i: int|
        0 <= i < c.interfaces@.len() && (#[trigger] c.interfaces@[i])@.len() == 0 {
        Err(ConfigError::EmptyInterfaceName)
    } else {
        Ok(())
    }
}

/// Reject a defective configuration before the loop begins: accepted
/// exactly when it is well-formed, and otherwise reported with the defect.
pub fn validate_config(c: &SamplerConfig) -> (r: Result<(), ConfigError>)
    ensures
        r == spec_validate_config(*c),
        r is Ok <==> config_wf(*c),
{
    if c.sample_period_seconds == 0 {
        return Err(ConfigError::ZeroSamplePeriod);
    }
    if c.interfaces.len() == 0 {
        return Err(ConfigError::NoInterfaces);
    }
    let n: usize = c.interfaces.len();
    for i in 0..n
        invariant
            n == c.interfaces@.len(),
            n > 0,
            c.sample_period_seconds > 0,
            forall|j: int| 0 <= j < i ==> (#[trigger] c.interfaces@[j])@.len() > 0,
    {
        if c.interfaces[i].as_str().is_empty() {
            return Err(ConfigError::EmptyInterfaceName);
        }
    }
    Ok(())
}

/// The remainder of the sample period after a cycle that took `elapsed`
/// time (both in the same unit): a cycle that finished early is followed
/// by exactly the rest of the period, and a cycle that overran it by no
/// sleep at all. Drift is absorbed, never corrected: there is no catch-up
/// sampling for missed periods.
pub fn remaining_sleep(period: u64, elapsed: u64) -> (r: u64)
    ensures
        r == if elapsed < period {
            (period - elapsed) as u64
        } else {
            0u64
        },
{
    if elapsed < period {
        period - elapsed
    } else {
        0
    }
}

/// Where the sampler stands: between cycles, mid-cycle about to query the
/// interface at `next`, or stopped for good — cleanly after a shutdown
/// request, or not after a fatal error.
#[derive(Clone, Copy, Debug, PartialEq, Eq, Structural)]
pub enum SamplerPhase {
    Idle,
    Sampling { next: usize },
    Stopped { clean: bool },
}

/// What one interface's turn in a cycle came to, when the loop goes on.
#[derive(Clone, Copy, Debug, PartialEq, Eq, Structural)]
pub enum InterfaceOutcome {
    /// The query succeeded and the sample was written.
    Sampled,
    /// The query failed with a transient error; the interface was skipped.
    Skipped(QueryError),
}

/// The phase that follows a cycle-boundary check of the shutdown flag:
/// stop cleanly if shutdown was requested, else start a cycle at the first
/// interface. This is the only transition that reads the flag.
pub open spec fn spec_phase_after_begin(shutdown: bool) -> SamplerPhase {
    if shutdown {
        SamplerPhase::Stopped { clean: true }
    } else {
        SamplerPhase::Sampling { next: 0 }
    }
}

/// The phase that follows processing one interface mid-cycle, among `n`
/// configured interfaces: a transient failure or a written sample moves on
/// to the next interface (or back between cycles after the last one); a
/// transport failure, or a failed append, stops the sampler for good.
pub open spec fn spec_phase_after_query(
    phase: SamplerPhase,
    n: nat,
    outcome: Result<Counters, QueryError>,
    append_ok: bool,
) -> SamplerPhase {
    match outcome {
        Ok(_) => if append_ok {
            spec_advance(phase->next, n)
        } else {
            SamplerPhase::Stopped { clean: false }
        },
        Err(e) => if e is TransportError {
            SamplerPhase::Stopped { clean: false }
        } else {
            spec_advance(phase->next, n)
        },
    }
}

/// Move past the interface at `next`, out of `n`: to the following one,
/// or back between cycles after the last.
pub open spec fn spec_advance(next: usize, n: nat) -> SamplerPhase {
    if next + 1 == n {
        SamplerPhase::Idle
    } else {
        SamplerPhase::Sampling { next: (next + 1) as usize }
    }
}

/// The rows one cycle appends when no fatal error cuts it short: for each
/// interface whose query succeeded, in configured order, exactly the row
/// `handle_query` pushes for it — its name and both counters; nothing for
/// a skipped interface. `names` and `outcomes` run in step over the
/// interfaces of the cycle.
pub open spec fn spec_cycle_rows(
    names: Seq<Seq<char>>,
    outcomes: Seq<Result<Counters, QueryError>>,
) -> Seq<(Seq<char>, u64, u64)>
    decreases outcomes.len(),
{
    if outcomes.len() == 0 {
        Seq::empty()
    } else {
        let rest = spec_cycle_rows(names.drop_first(), outcomes.drop_first());
        match outcomes[0] {
            Ok(c) => seq![(names[0], c.received_bytes, c.transmitted_bytes)] + rest,
            Err(_) => rest,
        }
    }
}

/// How many of a cycle's queries succeeded.
pub open spec fn spec_success_count(outcomes: Seq<Result<Counters, QueryError>>) -> nat
    decreases outcomes.len(),
{
    if outcomes.len() == 0 {
        0
    } else {
        (if outcomes[0] is Ok {
            1nat
        } else {
            0nat
        }) + spec_success_count(outcomes.drop_first())
    }
}

/// In every cycle that completes, the store gains exactly as many rows as
/// there were interfaces whose query succeeded that cycle — one per
/// success, none for a skipped interface, whether or not the whole
/// configured list succeeded.
pub proof fn lemma_rows_added_equals_successes(
    names: Seq<Seq<char>>,
    outcomes: Seq<Result<Counters, QueryError>>,
)
    requires
        names.len() == outcomes.len(),
    ensures
        spec_cycle_rows(names, outcomes).len() == spec_success_count(outcomes),
    decreases outcomes.len(),
{
    if outcomes.len() > 0 {
        lemma_rows_added_equals_successes(names.drop_first(), outcomes.drop_first());
    }
}

/// The rest of a cycle, replayed over the sampler's own transitions: from
/// `phase`, process one outcome after the other exactly as `handle_query`
/// does when every append succeeds — push the row of a success, skip past
/// a transient failure, stop on a transport failure — and return the final
/// phase and rows. `names` are the views of all configured interface
/// names.
pub open spec fn spec_run_cycle(
    phase: SamplerPhase,
    names: Seq<Seq<char>>,
    rows: Seq<(Seq<char>, u64, u64)>,
    outcomes: Seq<Result<Counters, QueryError>>,
) -> (SamplerPhase, Seq<(Seq<char>, u64, u64)>)
    decreases outcomes.len(),
{
    if outcomes.len() == 0 || !(phase is Sampling) {
        (phase, rows)
    } else {
        let next_phase = spec_phase_after_query(phase, names.len(), outcomes[0], true);
        let next_rows = match outcomes[0] {
            Ok(c) => rows.push((names[phase->next as int], c.received_bytes, c.transmitted_bytes)),
            Err(_) => rows,
        };
        spec_run_cycle(next_phase, names, next_rows, outcomes.drop_first())
    }
}

/// A cycle begun is a cycle finished, absent a fatal error. Mid-cycle at
/// interface `k`, given one outcome for each remaining interface and none
/// of them a transport failure, the sampler processes every one of them —
/// no shutdown request can cut the cycle short — and comes back between
/// cycles with exactly the row of each success appended, in configured
/// order.
pub proof fn lemma_cycle_completes(
    names: Seq<Seq<char>>,
    rows: Seq<(Seq<char>, u64, u64)>,
    k: usize,
    outcomes: Seq<Result<Counters, QueryError>>,
)
    requires
        names.len() <= usize::MAX,
        k < names.len(),
        outcomes.len() == names.len() - k,
        forall|i: int|
            0 <= i < outcomes.len() ==> !(#[trigger] outcomes[i] matches Err(
                QueryError::TransportError,
            )),
    ensures
        spec_run_cycle(SamplerPhase::Sampling { next: k }, names, rows, outcomes).0
            == SamplerPhase::Idle,
        spec_run_cycle(SamplerPhase::Sampling { next: k }, names, rows, outcomes).1 == rows
            + spec_cycle_rows(names.skip(k as int), outcomes),
    decreases outcomes.len(),
{
    let phase = SamplerPhase::Sampling { next: k };
    assert(!(outcomes[0] matches Err(QueryError::TransportError)));
    let next_phase = spec_phase_after_query(phase, names.len(), outcomes[0], true);
    let next_rows = match outcomes[0] {
        Ok(c) => rows.push((names[k as int], c.received_bytes, c.transmitted_bytes)),
        Err(_) => rows,
    };
    assert(names.skip(k as int)[0] == names[k as int]);
    assert(names.skip(k as int).drop_first() =~= names.skip(k as int + 1));
    if k + 1 == names.len() {
        assert(next_phase == SamplerPhase::Idle);
        assert(spec_run_cycle(next_phase, names, next_rows, outcomes.drop_first()) == (
            next_phase,
            next_rows,
        ));
        assert(spec_cycle_rows(names.skip(k as int + 1), outcomes.drop_first())
            =~= Seq::<(Seq<char>, u64, u64)>::empty());
        assert(next_rows =~= rows + spec_cycle_rows(names.skip(k as int), outcomes));
    } else {
        assert(next_phase == SamplerPhase::Sampling { next: (k + 1) as usize });
        lemma_cycle_completes(names, next_rows, (k + 1) as usize, outcomes.drop_first());
        assert(next_rows + spec_cycle_rows(names.skip(k as int + 1), outcomes.drop_first())
            =~= rows + spec_cycle_rows(names.skip(k as int), outcomes));
    }
}

/// Shutdown is honored only between cycles. An outcome arriving mid-cycle
/// never stops the sampler cleanly — whatever the outcome and whatever the
/// shutdown flag may say, since no mid-cycle transition so much as reads
/// the flag — so every interface left in the current cycle is still
/// processed. Only the cycle-boundary check stops the sampler cleanly, and
/// it does so exactly when the flag is set.
pub proof fn lemma_shutdown_honored_between_cycles(
    phase: SamplerPhase,
    n: nat,
    outcome: Result<Counters, QueryError>,
    append_ok: bool,
    shutdown: bool,
)
    ensures
        spec_phase_after_query(phase, n, outcome, append_ok) != (SamplerPhase::Stopped {
            clean: true,
        }),
        (spec_phase_after_begin(shutdown) == SamplerPhase::Stopped { clean: true }) <==> shutdown,
{
}

/// The sampler loop's state: the configuration it was started with and
/// where it stands. The host program drives it: between cycles it reports
/// the shutdown flag, mid-cycle it queries the interface the sampler names
/// and hands back the outcome; the sampler decides everything else and
/// writes the samples.
#[derive(Debug)]
pub struct Sampler {
    pub config: SamplerConfig,
    pub phase: SamplerPhase,
}

impl Sampler {
    /// A sampler that is not stopped holds a well-formed configuration,
    /// and mid-cycle it stands on a real interface.
    pub open spec fn wf(self) -> bool {
        &&& config_wf(self.config)
        &&& (self.phase matches SamplerPhase::Sampling { next } ==> next
            < self.config.interfaces@.len())
    }

    /// Start a sampler between cycles, rejecting a defective
    /// configuration with its exact defect.
    pub fn new(config: SamplerConfig) -> (r: Result<Sampler, ConfigError>)
        ensures
            config_wf(config) ==> (r matches Ok(s) && s.config == config && s.phase
                == SamplerPhase::Idle && s.wf()),
            !config_wf(config) ==> (r matches Err(e) && Err::<(), ConfigError>(e)
                == spec_validate_config(config)),
    {
        match validate_config(&config) {
            Ok(()) => Ok(Sampler { config, phase: SamplerPhase::Idle }),
            Err(e) => Err(e),
        }
    }

    /// At a cycle boundary, consult the shutdown flag: stop cleanly if
    /// shutdown was requested, else enter a new cycle at the first
    /// interface. Returns whether a cycle was begun. This is the only
    /// point at which the sampler reads the flag.
    pub fn begin_cycle(&mut self, shutdown: &ShutdownFlag) -> (r: bool)
        requires
            old(self).wf(),
            old(self).phase is Idle,
        ensures
            final(self).wf(),
            final(self).config == old(self).config,
            final(self).phase == spec_phase_after_begin(shutdown.is_set()),
            r == !shutdown.is_set(),
    {
        if shutdown.is_shutdown_requested() {
            self.phase = SamplerPhase::Stopped { clean: true };
            false
        } else {
            self.phase = SamplerPhase::Sampling { next: 0 };
            true
        }
    }

    /// The interface to query next.
    pub fn current_interface(&self) -> (r: &String)
        requires
            self.wf(),
            self.phase matches SamplerPhase::Sampling { .. },
        ensures
            *r == self.config.interfaces@[self.phase->next as int],
    {
        let next: usize = if let SamplerPhase::Sampling { next } = self.phase {
            next
        } else {
            0
        };
        &self.config.interfaces[next]
    }

    /// Process the outcome of querying the current interface. On success
    /// the sample is appended to the store before anything else happens;
    /// on a transient failure the interface is skipped and the cycle goes
    /// on; on a transport failure, or when the append fails, the sampler
    /// stops for good and reports the fatal error.
    pub fn handle_query(
        &mut self,
        store: &mut SampleStore,
        outcome: Result<Counters, QueryError>,
    ) -> (r: Result<InterfaceOutcome, FatalError>)
        requires
            old(self).wf(),
            old(self).phase matches SamplerPhase::Sampling { .. },
        ensures
            final(self).wf(),
            final(self).config == old(self).config,
            final(store).has_schema() == old(store).has_schema(),
            // Unless the append itself failed, the step is one step of the
            // cycle replay `spec_run_cycle` over the configured names.
            ({
                let names = old(self).config.interfaces@.map_values(|s: String| s@);
                match r {
                    Ok(_) => (final(self).phase, final(store).rows()) == spec_run_cycle(
                        old(self).phase,
                        names,
                        old(store).rows(),
                        seq![outcome],
                    ),
                    Err(f) => f is Transport ==> (final(self).phase, final(store).rows())
                        == spec_run_cycle(old(self).phase, names, old(store).rows(), seq![outcome]),
                }
            }),
            ({
                let name = old(self).config.interfaces@[old(self).phase->next as int]@;
                let n = old(self).config.interfaces@.len();
                match outcome {
                    Ok(c) => {
                        &&& (r matches Ok(o) ==> {
                            &&& o == InterfaceOutcome::Sampled
                            &&& final(store).rows() == old(store).rows().push(
                                (name, c.received_bytes, c.transmitted_bytes),
                            )
                            &&& final(self).phase == spec_phase_after_query(
                                old(self).phase,
                                n,
                                outcome,
                                true,
                            )
                        })
                        &&& (r matches Err(f) ==> {
                            &&& f == FatalError::Store(StoreError::WriteError)
                            &&& final(store).rows() == old(store).rows()
                            &&& final(self).phase == spec_phase_after_query(
                                old(self).phase,
                                n,
                                outcome,
                                false,
                            )
                        })
                    },
                    Err(e) => {
                        &&& final(store).rows() == old(store).rows()
                        &&& final(self).phase == spec_phase_after_query(
                            old(self).phase,
                            n,
                            outcome,
                            true,
                        )
                        &&& (e is TransportError ==> r == Err::<InterfaceOutcome, FatalError>(
                            FatalError::Transport,
                        ))
                        &&& (!(e is TransportError) ==> r == Ok::<InterfaceOutcome, FatalError>(
                            InterfaceOutcome::Skipped(e),
                        ))
                    },
                }
            }),
    {
        let ghost names = self.config.interfaces@.map_values(|s: String| s@);
        let ghost phase0 = self.phase;
        let ghost rows0 = store.rows();
        let next: usize = if let SamplerPhase::Sampling { next } = self.phase {
            next
        } else {
            0
        };
        let result = match outcome {
            Ok(c) => {
                let sample = InterfaceSample {
                    interface_name: self.config.interfaces[next].clone(),
                    received_bytes: c.received_bytes,
                    transmitted_bytes: c.transmitted_bytes,
                };
                match store.append(&sample) {
                    Ok(()) => {
                        self.advance(next);
                        Ok(InterfaceOutcome::Sampled)
                    },
                    Err(_) => {
                        self.phase = SamplerPhase::Stopped { clean: false };
                        Err(FatalError::Store(StoreError::WriteError))
                    },
                }
            },
            Err(e) => {
                if e.is_fatal() {
                    self.phase = SamplerPhase::Stopped { clean: false };
                    Err(FatalError::Transport)
                } else {
                    self.advance(next);
                    Ok(InterfaceOutcome::Skipped(e))
                }
            },
        };
        proof {
            let p2 = spec_phase_after_query(phase0, names.len(), outcome, true);
            let r2 = match outcome {
                Ok(c) => rows0.push(
                    (names[phase0->next as int], c.received_bytes, c.transmitted_bytes),
                ),
                Err(_) => rows0,
            };
            assert(seq![outcome][0] == outcome);
            assert(seq![outcome].drop_first().len() == 0);
            assert(spec_run_cycle(p2, names, r2, seq![outcome].drop_first()) == (p2, r2));
            assert(spec_run_cycle(phase0, names, rows0, seq![outcome]) == (p2, r2));
            assert(names[phase0->next as int] == self.config.interfaces@[phase0->next as int]@);
        }
        result
    }

    /// Move past the interface at `next`.
    fn advance(&mut self, next: usize)
        requires
            old(self).wf(),
            next < old(self).config.interfaces@.len(),
        ensures
            final(self).wf(),
            final(self).config == old(self).config,
            final(self).phase == spec_advance(next, old(self).config.interfaces@.len()),
    {
        let len: usize = self.config.interfaces.len();
        if next + 1 == len {
            self.phase = SamplerPhase::Idle;
        } else {
            self.phase = SamplerPhase::Sampling { next: next + 1 };
        }
    }

    /// Whether the sampler stands between cycles, ready for the boundary
    /// check.
    pub fn is_idle(&self) -> (r: bool)
        ensures
            r == (self.phase is Idle),
    {
        matches!(self.phase, SamplerPhase::Idle)
    }

    /// Whether the sampler is mid-cycle, with an interface left to query.
    pub fn is_mid_cycle(&self) -> (r: bool)
        ensures
            r == (self.phase matches SamplerPhase::Sampling { .. }),
    {
        matches!(self.phase, SamplerPhase::Sampling { .. })
    }

    /// Whether the sampler has stopped for good.
    pub fn is_stopped(&self) -> (r: bool)
        ensures
            r == (self.phase matches SamplerPhase::Stopped { .. }),
    {
        matches!(self.phase, SamplerPhase::Stopped { .. })
    }

    /// The process exit status a stopped sampler calls for: zero after a
    /// clean shutdown, nonzero after a fatal error.
    pub fn exit_code(&self) -> (r: i32)
        requires
            self.phase matches SamplerPhase::Stopped { .. },
        ensures
            r == if self.phase->clean {
                0i32
            } else {
                1i32
            },
    {
        let clean: bool = if let SamplerPhase::Stopped { clean } = self.phase {
            clean
        } else {
            false
        };
        if clean {
            0
        } else {
            1
        }
    }
}

} // verus!
