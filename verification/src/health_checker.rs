//! The lifecycle of the network health checker's builder: it is created with its
//! configuration, built once into a service, and started once.  Making the
//! service and spawning it on an executor is the caller's work.

use vstd::prelude::*;

verus! {

/// What a health checker is made from.
pub struct HealthCheckerBuilderConfig<N, T, Tx, Rx> {
    pub network_context: N,
    pub time_service: T,
    pub ping_interval_ms: u64,
    pub ping_timeout_ms: u64,
    pub ping_failures_tolerated: u64,
    pub network_tx: Tx,
    pub network_rx: Rx,
}

/// The stage a builder is in.
pub struct BuilderStage {
    pub built: bool,
    pub started: bool,
    pub holds_config: bool,
    pub holds_service: bool,
}

/// Builds a service once from its configuration and starts it once.
pub struct HealthCheckerBuilder<C, S> {
    config: Option<C>,
    service: Option<S>,
    built: bool,
    started: bool,
}

impl<C, S> View for HealthCheckerBuilder<C, S> {
    type V = BuilderStage;

    closed spec fn view(&self) -> BuilderStage {
        BuilderStage {
            built: self.built,
            started: self.started,
            holds_config: self.config is Some,
            holds_service: self.service is Some,
        }
    }
}

/// The stages a builder goes through: the configuration is held until the build,
/// the service from the build until the start, and nothing is started unbuilt.
pub open spec fn stage_consistent(s: BuilderStage) -> bool {
    &&& s.started ==> s.built
    &&& s.holds_config <==> !s.built
    &&& s.holds_service ==> s.built && !s.started
}

impl<C, S> HealthCheckerBuilder<C, S> {
    /// Every builder is in a consistent stage.
    #[verifier::type_invariant]
    closed spec fn consistent(self) -> bool {
        stage_consistent(self@)
    }

    /// The configuration that the builder holds.
    pub closed spec fn held_config(self) -> Option<C> {
        self.config
    }

    /// The service that the builder holds.
    pub closed spec fn held_service(self) -> Option<S> {
        self.service
    }

    /// A builder that holds `config`, neither built nor started.
    pub fn from_config(config: C) -> (res: Self)
        ensures
            res@ == (BuilderStage {
                built: false,
                started: false,
                holds_config: true,
                holds_service: false,
            }),
            res.held_config() == Some(config),
            stage_consistent(res@),
    {
        Self { config: Some(config), service: None, built: false, started: false }
    }

    /// Begins the build: marks the builder built and hands out the configuration
    /// to make the service from.  A builder is built once, and before it starts.
    pub fn take_config_for_build(&mut self) -> (res: C)
        requires
            may_build(old(self)@),
        ensures
            old(self).held_config() == Some(res),
            final(self)@ == (BuilderStage {
                built: true,
                started: false,
                holds_config: false,
                holds_service: false,
            }),
    {
        proof {
            use_type_invariant(&*self);
        }
        let mut before = HealthCheckerBuilder { config: None, service: None, built: true, started: false };
        std::mem::swap(&mut before, self);
        proof {
            use_type_invariant(&before);
        }
        before.config.unwrap()
    }

    /// Completes the build with the service made from the configuration.
    pub fn install_service(&mut self, service: S)
        requires
            old(self)@.built,
            !old(self)@.started,
        ensures
            final(self)@ == (BuilderStage { holds_service: true, ..old(self)@ }),
            final(self).held_service() == Some(service),
    {
        proof {
            use_type_invariant(&*self);
        }
        self.service = Some(service);
    }

    /// Starts: marks the builder started and hands out the built service, if any,
    /// to run.  A builder starts once, after it is built.
    pub fn take_service_for_start(&mut self) -> (res: Option<S>)
        requires
            may_start(old(self)@),
        ensures
            res == old(self).held_service(),
            final(self)@ == (BuilderStage {
                built: true,
                started: true,
                holds_config: false,
                holds_service: false,
            }),
    {
        proof {
            use_type_invariant(&*self);
        }
        let mut before = HealthCheckerBuilder { config: None, service: None, built: true, started: true };
        std::mem::swap(&mut before, self);
        before.service
    }
}

impl<N, T, Tx, Rx, S> HealthCheckerBuilder<HealthCheckerBuilderConfig<N, T, Tx, Rx>, S> {
    /// A builder for a health checker with these settings.
    pub fn create(
        network_context: N,
        time_service: T,
        ping_interval_ms: u64,
        ping_timeout_ms: u64,
        ping_failures_tolerated: u64,
        network_tx: Tx,
        network_rx: Rx,
    ) -> (res: Self)
        ensures
            !res@.built && !res@.started && res@.holds_config && !res@.holds_service,
            stage_consistent(res@),
            res.held_config() == Some(
                HealthCheckerBuilderConfig {
                    network_context,
                    time_service,
                    ping_interval_ms,
                    ping_timeout_ms,
                    ping_failures_tolerated,
                    network_tx,
                    network_rx,
                },
            ),
    {
        Self::from_config(
            HealthCheckerBuilderConfig {
                network_context,
                time_service,
                ping_interval_ms,
                ping_timeout_ms,
                ping_failures_tolerated,
                network_tx,
                network_rx,
            },
        )
    }
}

} // verus!

verus! {

/// Whether `take_config_for_build` may be called in a stage.
pub open spec fn may_build(s: BuilderStage) -> bool {
    !s.built && !s.started
}

/// Whether `take_service_for_start` may be called in a stage.
pub open spec fn may_start(s: BuilderStage) -> bool {
    s.built && !s.started
}

/// A builder is built once, before it starts, and starts once: a consistent
/// builder may be built exactly while it still holds its configuration; after
/// the build it may start but not build again; after the start it may do
/// neither.
pub proof fn law_health_checker_builder_lifecycle(s: BuilderStage)
    requires
        stage_consistent(s),
    ensures
        may_build(s) <==> s.holds_config,
        may_start(s) ==> !may_build(s),
        ({
            let after_build = BuilderStage {
                built: true,
                started: false,
                holds_config: false,
                holds_service: false,
            };
            &&& stage_consistent(after_build)
            &&& may_start(after_build)
            &&& !may_build(after_build)
        }),
        ({
            let after_start = BuilderStage {
                built: true,
                started: true,
                holds_config: false,
                holds_service: false,
            };
            &&& stage_consistent(after_start)
            &&& !may_start(after_start)
            &&& !may_build(after_start)
        }),
{
}

} // verus!
