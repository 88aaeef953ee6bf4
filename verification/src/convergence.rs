//! What holds of whole reconciliation cycles, stated over the model of the
//! cycle's steps and proved for every configuration and every behaviour of
//! the collaborators.

use crate::check::{
    cycle_step,
    drift,
    eligibility,
    external_host_url,
    names_host,
    override_after_store,
    override_path,
    override_reading,
    reported_state,
    reverse_proxy_host_url,
    reverse_proxy_status,
    tags_or_none,
    ActionView,
    ComputedState,
    CycleState,
    EventView,
};
use crate::config::BalancerConfigView;
use crate::consul::client::{service_tags, ConsulView, KVResponseView};
use crate::status::EligibleStatus;
use vstd::prelude::*;

verus! {

/// What the collaborators answer in the course of one cycle. In each field
/// `None` stands for a collaborator that cannot be reached.
pub struct Signals {
    /// The node's service entry as the registry reports it: its tags.
    pub entry: Option<Seq<Seq<char>>>,
    /// The body that the external entry point's `/host` returns.
    pub external: Option<Seq<char>>,
    /// The entries stored at the override flag's key.
    pub kv: Option<Seq<KVResponseView>>,
    /// Whether the registry acknowledges a write of the override flag.
    pub kv_store: Option<bool>,
    /// The body that the reverse proxy's `/host` returns.
    pub reverse_proxy: Option<Seq<char>>,
    /// The status code with which the registry answers a registration.
    pub registration: Option<u16>,
}

impl Signals {
    /// The event with which the collaborators answer `action`. Once the
    /// machine has come to rest, the next event is the next tick.
    pub open spec fn answer(self, action: ActionView) -> EventView {
        match action {
            ActionView::Wait => EventView::Tick,
            ActionView::GetSelf(_) => EventView::SelfFetched(self.entry),
            ActionView::ProbeExternal(_) => EventView::ExternalProbed(self.external),
            ActionView::GetOverride(_) => EventView::OverrideFetched(self.kv),
            ActionView::PutOverride(_) => EventView::OverrideStored(self.kv_store),
            ActionView::ProbeReverseProxy(_) => EventView::ReverseProxyProbed(self.reverse_proxy),
            ActionView::Register(_) => EventView::Registered(self.registration),
        }
    }

    /// What the registry reports of the node.
    pub open spec fn reported(self) -> ComputedState {
        reported_state(tags_or_none(self.entry))
    }

    /// Whether the override flag is unknown, so that a cycle initialises it.
    pub open spec fn override_unknown(self) -> bool {
        override_reading(self.kv) is Unknown
    }

    /// The override signal: what the flag says, or, where that is unknown,
    /// what the attempt to initialise it leaves.
    pub open spec fn kv_override(self) -> EligibleStatus {
        if self.override_unknown() {
            override_after_store(self.kv_store)
        } else {
            override_reading(self.kv)
        }
    }

    /// What is true of the node: whether the external entry point routes to
    /// it, and whether override and reverse proxy both let it serve.
    pub open spec fn observed(self, config: BalancerConfigView) -> ComputedState {
        ComputedState {
            active: names_host(self.external, config.hostname),
            eligible: eligibility(
                self.kv_override(),
                reverse_proxy_status(config, self.reverse_proxy),
            ),
        }
    }

    /// Whether the registry takes a registration: it answers with a status
    /// code that stands for success.
    pub open spec fn registration_taken(self) -> bool {
        self.registration matches Some(code) && 200 <= code <= 299
    }

    /// Whether a registration shows in what the registry reports afterwards:
    /// the registry takes it, and the node's service entry can be fetched.
    pub open spec fn registration_shows(self) -> bool {
        self.registration_taken() && self.entry is Some
    }

    /// The signals of the next cycle when nothing changes outside but what
    /// this cycle changed itself. The registry reports what the cycle
    /// registered, if it registered anything and the registration shows.
    /// The override flag holds `TRUE` if it was absent and the registry
    /// acknowledged the write. A collaborator that could not be reached
    /// still cannot.
    pub open spec fn after_cycle(self, config: BalancerConfigView) -> Signals {
        let observed = self.observed(config);
        Signals {
            entry: if drift(self.reported(), observed) && self.registration_shows() {
                Some(service_tags(observed.active, observed.eligible))
            } else {
                self.entry
            },
            kv: if self.kv matches Some(entries) && entries.len() == 0 && self.kv_store == Some(
                true,
            ) {
                Some(seq![KVResponseView { key: override_path(config), value: "TRUE"@ }])
            } else {
                self.kv
            },
            ..self
        }
    }
}

/// The actions that the cycle machine returns when it is taken from `state`
/// with `event` and each action is answered as `signals` says, up to and
/// including the first `Wait`, and `steps` actions at most.
pub open spec fn run(
    consul: ConsulView,
    state: CycleState,
    event: EventView,
    signals: Signals,
    steps: nat,
) -> Seq<ActionView>
    decreases steps,
{
    if steps == 0 {
        Seq::empty()
    } else {
        let (next, action) = cycle_step(consul, state, event);
        if action is Wait {
            seq![action]
        } else {
            seq![action] + run(consul, next, signals.answer(action), signals, (steps - 1) as nat)
        }
    }
}

/// The most actions that one cycle takes, the final `Wait` included.
pub open spec fn max_cycle_actions() -> nat {
    7
}

/// The actions of one whole cycle: from rest, started by a tick.
pub open spec fn cycle_actions(consul: ConsulView, signals: Signals) -> Seq<ActionView> {
    run(consul, CycleState::Idle, EventView::Tick, signals, max_cycle_actions())
}

/// The actions of one whole cycle, written out: three reads, the write of
/// the override flag if it is unknown, the probe of the reverse proxy if
/// one is configured, the registration of the observed state if the
/// reported one differs from it, and then rest.
pub open spec fn expected_actions(consul: ConsulView, signals: Signals) -> Seq<ActionView> {
    let config = consul.app_config;
    let observed = signals.observed(config);
    seq![
        ActionView::GetSelf(consul.get_self()),
        ActionView::ProbeExternal(external_host_url(config)),
        ActionView::GetOverride(consul.get_kv(override_path(config))),
    ] + (if signals.override_unknown() {
        seq![ActionView::PutOverride(consul.put_kv(override_path(config), "TRUE"@))]
    } else {
        Seq::empty()
    }) + (match config.http.reverse_proxy {
        Some(addr) => seq![ActionView::ProbeReverseProxy(reverse_proxy_host_url(addr))],
        None => Seq::empty(),
    }) + (if drift(signals.reported(), observed) {
        seq![ActionView::Register(consul.register_service(observed.active, observed.eligible))]
    } else {
        Seq::empty()
    }) + seq![ActionView::Wait]
}

/// How many of `actions` are registrations.
pub open spec fn count_registrations(actions: Seq<ActionView>) -> nat
    decreases actions.len(),
{
    if actions.len() == 0 {
        0
    } else {
        count_registrations(actions.drop_last()) + if actions.last() is Register {
            1nat
        } else {
            0nat
        }
    }
}

/// Whether `action` changes anything outside: it writes the override flag
/// or registers the node.
pub open spec fn is_write(action: ActionView) -> bool {
    action is PutOverride || action is Register
}

/// A cycle does what [`expected_actions`] lists, in that order, and comes to
/// rest within [`max_cycle_actions`] actions.
pub proof fn lemma_cycle_actions(consul: ConsulView, signals: Signals)
    ensures
        cycle_actions(consul, signals) == expected_actions(consul, signals),
        cycle_actions(consul, signals).len() <= max_cycle_actions(),
        cycle_actions(consul, signals).last() is Wait,
{
    reveal_with_fuel(run, 8);
    assert(cycle_actions(consul, signals) =~= expected_actions(consul, signals));
}

/// Registrations are counted part by part.
proof fn lemma_count_concat(a: Seq<ActionView>, b: Seq<ActionView>)
    ensures
        count_registrations(a + b) == count_registrations(a) + count_registrations(b),
    decreases b.len(),
{
    if b.len() == 0 {
        assert(a + b =~= a);
    } else {
        assert((a + b).drop_last() =~= a + b.drop_last());
        lemma_count_concat(a, b.drop_last());
    }
}

/// A registration settles the matter: what the registry then reports of the
/// node is what was registered.
pub proof fn lemma_registration_settles(active: bool, eligible: bool)
    ensures
        reported_state(service_tags(active, eligible)) == (ComputedState { active, eligible }),
{
    reveal_strlit("live");
    reveal_strlit("active");
    reveal_strlit("backup");
    reveal_strlit("eligible");
    reveal_strlit("ineligible");
    assert("live"@.len() == 4);
    assert("active"@.len() == 6 && "active"@[0] == 'a');
    assert("backup"@.len() == 6 && "backup"@[0] == 'b');
    assert("eligible"@.len() == 8);
    assert("ineligible"@.len() == 10);
    let tags = service_tags(active, eligible);
    assert(tags.len() == 3);
    if active {
        assert(tags[1] == "active"@);
    }
    if eligible {
        assert(tags[2] == "eligible"@);
    }
}

/// Every cycle that finds the reported state different from the observed
/// one issues exactly one registration, which carries the observed state;
/// every other cycle issues none.
pub proof fn lemma_one_registration_per_drift(consul: ConsulView, signals: Signals)
    ensures
        count_registrations(cycle_actions(consul, signals)) == (if drift(
            signals.reported(),
            signals.observed(consul.app_config),
        ) {
            1nat
        } else {
            0nat
        }),
        drift(signals.reported(), signals.observed(consul.app_config)) ==> cycle_actions(
            consul,
            signals,
        ).contains(
            ActionView::Register(
                consul.register_service(
                    signals.observed(consul.app_config).active,
                    signals.observed(consul.app_config).eligible,
                ),
            ),
        ),
{
    lemma_cycle_actions(consul, signals);
    let config = consul.app_config;
    let observed = signals.observed(config);
    let reads = seq![
        ActionView::GetSelf(consul.get_self()),
        ActionView::ProbeExternal(external_host_url(config)),
        ActionView::GetOverride(consul.get_kv(override_path(config))),
    ];
    let store = if signals.override_unknown() {
        seq![ActionView::PutOverride(consul.put_kv(override_path(config), "TRUE"@))]
    } else {
        Seq::empty()
    };
    let probe = match config.http.reverse_proxy {
        Some(addr) => seq![ActionView::ProbeReverseProxy(reverse_proxy_host_url(addr))],
        None => Seq::empty(),
    };
    let register = if drift(signals.reported(), observed) {
        seq![ActionView::Register(consul.register_service(observed.active, observed.eligible))]
    } else {
        Seq::empty()
    };
    let rest = seq![ActionView::Wait];
    assert(expected_actions(consul, signals) == reads + store + probe + register + rest);
    lemma_count_concat(reads + store + probe + register, rest);
    lemma_count_concat(reads + store + probe, register);
    lemma_count_concat(reads + store, probe);
    lemma_count_concat(reads, store);
    reveal_with_fuel(count_registrations, 4);
    assert(count_registrations(reads) == 0);
    assert(count_registrations(store) == 0);
    assert(count_registrations(probe) == 0);
    assert(count_registrations(rest) == 0);
    if drift(signals.reported(), observed) {
        assert(count_registrations(register) == 1);
        let all = reads + store + probe + register + rest;
        let at = (reads + store + probe).len() as int;
        assert(all[at] == register[0]);
    } else {
        assert(count_registrations(register) == 0);
    }
}

/// With nothing changing outside, a cycle leaves the observed state as it
/// found it. If it registered that state and the registration shows, the
/// registry reports that state from then on; if the registration does not
/// show, the registry reports what it reported before.
pub proof fn lemma_cycle_converges(consul: ConsulView, signals: Signals)
    ensures
        ({
            let config = consul.app_config;
            let next = signals.after_cycle(config);
            let drifting = drift(signals.reported(), signals.observed(config));
            &&& next.observed(config) == signals.observed(config)
            &&& drifting && signals.registration_shows() ==> next.reported() == next.observed(
                config,
            )
            &&& drifting && !signals.registration_shows() ==> next.reported()
                == signals.reported()
            &&& !drifting ==> next.reported() == next.observed(config)
        }),
{
    let config = consul.app_config;
    let observed = signals.observed(config);
    reveal_strlit("TRUE");
    reveal_strlit("FALSE");
    lemma_registration_settles(observed.active, observed.eligible);
    if signals.kv matches Some(entries) && entries.len() == 0 && signals.kv_store == Some(true) {
        let written = seq![KVResponseView { key: override_path(config), value: "TRUE"@ }];
        assert("TRUE"@.len() == 4 && "FALSE"@.len() == 5);
        assert(written[0].value != "FALSE"@);
        assert(override_reading(Some(written)) is Eligible);
    }
}

/// A cycle that follows another with nothing changed outside registers
/// nothing. The one exception is a first cycle whose registration does not
/// show: then the second cycle finds the same drift and registers once
/// more.
pub proof fn lemma_second_cycle(consul: ConsulView, signals: Signals)
    ensures
        count_registrations(cycle_actions(consul, signals.after_cycle(consul.app_config))) == (
        if drift(signals.reported(), signals.observed(consul.app_config))
            && !signals.registration_shows() {
            1nat
        } else {
            0nat
        }),
        drift(signals.reported(), signals.observed(consul.app_config))
            && !signals.registration_shows() ==> cycle_actions(
            consul,
            signals.after_cycle(consul.app_config),
        ).contains(
            ActionView::Register(
                consul.register_service(
                    signals.observed(consul.app_config).active,
                    signals.observed(consul.app_config).eligible,
                ),
            ),
        ),
{
    lemma_cycle_converges(consul, signals);
    lemma_one_registration_per_drift(consul, signals.after_cycle(consul.app_config));
}

/// A cycle that finds the reported state equal to the observed one, and the
/// override flag in place, changes nothing outside.
pub proof fn lemma_agreeing_cycle_writes_nothing(consul: ConsulView, signals: Signals)
    requires
        !drift(signals.reported(), signals.observed(consul.app_config)),
        !signals.override_unknown(),
    ensures
        forall|i: int|
            0 <= i < cycle_actions(consul, signals).len() ==> !is_write(
                #[trigger] cycle_actions(consul, signals)[i],
            ),
{
    lemma_cycle_actions(consul, signals);
}

/// An unknown override is no permission: taken as a boolean it is `false`.
/// A cycle that meets it writes the flag, and only the registry's
/// acknowledgement of that write turns it into `true` for that cycle.
pub proof fn lemma_unknown_override_is_remedied(consul: ConsulView, signals: Signals)
    requires
        signals.override_unknown(),
    ensures
        !EligibleStatus::Unknown.as_bool(),
        !override_reading(signals.kv).as_bool(),
        signals.kv_override().as_bool() == (signals.kv_store == Some(true)),
        cycle_actions(consul, signals).contains(
            ActionView::PutOverride(consul.put_kv(override_path(consul.app_config), "TRUE"@)),
        ),
{
    lemma_cycle_actions(consul, signals);
    assert(expected_actions(consul, signals)[3] == ActionView::PutOverride(
        consul.put_kv(override_path(consul.app_config), "TRUE"@),
    ));
}

/// Failures close: a node whose external entry point cannot be reached is
/// not active, and a node whose configured reverse proxy cannot be reached
/// is not eligible.
pub proof fn lemma_fail_closed(config: BalancerConfigView, signals: Signals)
    ensures
        signals.external is None ==> !signals.observed(config).active,
        config.http.reverse_proxy is Some && signals.reverse_proxy is None ==> !signals.observed(
            config,
        ).eligible,
{
}

/// A configured reverse proxy that serves another host makes the node
/// ineligible, whatever the override says.
pub proof fn lemma_foreign_reverse_proxy(config: BalancerConfigView, signals: Signals)
    requires
        config.http.reverse_proxy is Some,
        signals.reverse_proxy matches Some(body) && crate::text::trimmed(body) != config.hostname,
    ensures
        !signals.observed(config).eligible,
{
}

} // verus!
