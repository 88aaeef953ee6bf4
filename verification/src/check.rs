//! The reconciliation cycle: observe what the registry reports of this node,
//! observe what is true of it, and register the truth where the two differ.
//!
//! Nothing here talks to the network. The cycle is a state machine: each
//! step takes the answer to the previous [`Action`] as an [`Event`] and
//! returns the next action for the driver to perform.

use crate::config::{BalancerConfig, BalancerConfigView};
use crate::consul::client::{
    Consul,
    ConsulView,
    KVResponse,
    KVResponseView,
    Request,
    RequestView,
    ServiceResponse,
};
use crate::status::EligibleStatus;
use crate::text::{str_eq, trim, trimmed};
use vstd::prelude::*;
use vstd::string::*;

verus! {

/// Seconds between the starts of two cycles.
pub const CHECK_INTERVAL_SECS: u64 = 5;

/// Whether a node is the active one and whether it is eligible: either what
/// the registry reports of it or what was observed of it.
#[derive(Clone, Copy, Debug, PartialEq, Eq, Structural)]
pub struct ComputedState {
    pub active: bool,
    pub eligible: bool,
}

/// What a set of tags says of a node: it is active if the tag `active` is
/// among them and eligible if the tag `eligible` is.
pub open spec fn reported_state(tags: Seq<Seq<char>>) -> ComputedState {
    ComputedState { active: tags.contains("active"@), eligible: tags.contains("eligible"@) }
}

/// The tags of a fetched service entry; none where the entry could not be
/// fetched.
pub open spec fn tags_or_none(fetched: Option<Seq<Seq<char>>>) -> Seq<Seq<char>> {
    match fetched {
        Some(tags) => tags,
        None => Seq::empty(),
    }
}

/// Whether the answer of a `/host` endpoint names `hostname`. `None` stands
/// for an endpoint that could not be reached, and names nobody.
pub open spec fn names_host(probe: Option<Seq<char>>, hostname: Seq<char>) -> bool {
    match probe {
        Some(body) => trimmed(body) == hostname,
        None => false,
    }
}

/// What the stored override flag says. `None` stands for a registry that
/// could not be reached. Only the first entry counts, and only the value
/// `FALSE` forbids.
pub open spec fn override_reading(read: Option<Seq<KVResponseView>>) -> EligibleStatus {
    match read {
        None => EligibleStatus::Unknown,
        Some(entries) => if entries.len() == 0 {
            EligibleStatus::Unknown
        } else if entries[0].value == "FALSE"@ {
            EligibleStatus::Ineligible
        } else {
            EligibleStatus::Eligible
        },
    }
}

/// What an unknown override counts as once the flag has been written:
/// eligible if the registry acknowledged the write, ineligible otherwise.
pub open spec fn override_after_store(stored: Option<bool>) -> EligibleStatus {
    if stored == Some(true) {
        EligibleStatus::Eligible
    } else {
        EligibleStatus::Ineligible
    }
}

/// The verdict of the reverse proxy on a node named `hostname`. Without a
/// configured proxy the verdict is `Eligible` whatever the probe says; with
/// one, a proxy that cannot be reached leaves the verdict `Unknown`.
pub open spec fn reverse_proxy_status(
    config: BalancerConfigView,
    probe: Option<Seq<char>>,
) -> EligibleStatus {
    match config.http.reverse_proxy {
        None => EligibleStatus::Eligible,
        Some(_) => match probe {
            None => EligibleStatus::Unknown,
            Some(body) => EligibleStatus::of_bool(trimmed(body) == config.hostname),
        },
    }
}

/// A node is eligible when both the override and the reverse proxy say so.
pub open spec fn eligibility(kv_override: EligibleStatus, reverse_proxy: EligibleStatus) -> bool {
    kv_override.as_bool() && reverse_proxy.as_bool()
}

/// The URL that tells which node the external entry point routes to.
pub open spec fn external_host_url(config: BalancerConfigView) -> Seq<char> {
    config.external_url + "/host"@
}

/// The URL that tells which node the reverse proxy at `addr` serves.
pub open spec fn reverse_proxy_host_url(addr: Seq<char>) -> Seq<char> {
    addr + "/host"@
}

/// The key under which the node's override flag is stored.
pub open spec fn override_path(config: BalancerConfigView) -> Seq<char> {
    config.consul.kv_prefix + "/"@ + config.hostname + "/eligible"@
}

fn has_tag(tags: &Vec<String>, tag: &str) -> (found: bool)
    ensures
        found == tags.deep_view().contains(tag@),
{
    let mut i: usize = 0;
    while i < tags.len()
        invariant
            i <= tags.len(),
            forall|j: int| 0 <= j < i ==> tags.deep_view()[j] != tag@,
        decreases tags.len() - i,
    {
        if str_eq(tags[i].as_str(), tag) {
            assert(tags.deep_view()[i as int] == tag@);
            return true;
        }
        i = i + 1;
    }
    false
}

/// The service entry to go by: the fetched one, or one without tags where
/// none could be fetched.
pub fn get_service_tags(fetched: Option<ServiceResponse>) -> (service_response: ServiceResponse)
    ensures
        service_response@ == tags_or_none(fetched.deep_view()),
{
    match fetched {
        Some(service_response) => service_response,
        None => {
            let service_response = ServiceResponse { tags: Vec::new() };
            assert(service_response@ =~= Seq::empty());
            service_response
        },
    }
}

/// Whether the registry reports the node as the active one.
pub fn is_active_service(service_response: &ServiceResponse) -> (active: bool)
    ensures
        active == service_response@.contains("active"@),
        active == reported_state(service_response@).active,
{
    has_tag(&service_response.tags, "active")
}

/// Whether the registry reports the node as eligible.
pub fn is_eligible_service(service_response: &ServiceResponse) -> (eligible: bool)
    ensures
        eligible == service_response@.contains("eligible"@),
        eligible == reported_state(service_response@).eligible,
{
    has_tag(&service_response.tags, "eligible")
}

/// Whether the external entry point routes to this node, given the answer
/// of its `/host` endpoint, or `None` if it could not be reached.
pub fn is_active_host(config: &BalancerConfig, probe: &Option<String>) -> (active: bool)
    ensures
        active == names_host(probe.deep_view(), config@.hostname),
{
    match probe {
        Some(body) => str_eq(trim(body.as_str()), config.hostname.as_str()),
        None => false,
    }
}

/// What the stored override flag says, given the entries read at the
/// flag's key, or `None` if the registry could not be reached.
pub fn get_override_status(read: &Option<Vec<KVResponse>>) -> (status: EligibleStatus)
    ensures
        status == override_reading(read.deep_view()),
{
    match read {
        None => EligibleStatus::Unknown,
        Some(entries) => {
            if entries.len() == 0 {
                EligibleStatus::Unknown
            } else {
                assert(entries.deep_view()[0].value == entries@[0].value@);
                if str_eq(entries[0].value.as_str(), "FALSE") {
                    EligibleStatus::Ineligible
                } else {
                    EligibleStatus::Eligible
                }
            }
        },
    }
}

/// What an unknown override counts as after the attempt to initialise the
/// flag; `stored` is the registry's acknowledgement, or `None` if it could
/// not be reached.
pub fn settle_override(stored: Option<bool>) -> (status: EligibleStatus)
    ensures
        status == override_after_store(stored),
        !(status is Unknown),
{
    match stored {
        Some(true) => EligibleStatus::Eligible,
        _ => EligibleStatus::Ineligible,
    }
}

/// The verdict of the reverse proxy, given the answer of its `/host`
/// endpoint, or `None` if it could not be reached.
pub fn get_reverse_proxy_status(config: &BalancerConfig, probe: &Option<String>) -> (status:
    EligibleStatus)
    ensures
        status == reverse_proxy_status(config@, probe.deep_view()),
{
    match &config.http.reverse_proxy {
        None => EligibleStatus::Eligible,
        Some(_) => match probe {
            None => EligibleStatus::Unknown,
            Some(body) => EligibleStatus::from(
                str_eq(trim(body.as_str()), config.hostname.as_str()),
            ),
        },
    }
}

/// What the driver is asked to do next.
#[derive(Debug, PartialEq, Eq)]
pub enum Action {
    /// Nothing: the machine has come to rest. For a cycle, wait for the
    /// next tick.
    Wait,
    /// Send the request and answer with [`Event::SelfFetched`].
    GetSelf(Request),
    /// Fetch the URL and answer with [`Event::ExternalProbed`].
    ProbeExternal(String),
    /// Send the request and answer with [`Event::OverrideFetched`].
    GetOverride(Request),
    /// Send the request and answer with [`Event::OverrideStored`].
    PutOverride(Request),
    /// Fetch the URL and answer with [`Event::ReverseProxyProbed`].
    ProbeReverseProxy(String),
    /// Send the request and answer with [`Event::Registered`].
    Register(Request),
}

/// The mathematical value of an [`Action`].
pub enum ActionView {
    Wait,
    GetSelf(RequestView),
    ProbeExternal(Seq<char>),
    GetOverride(RequestView),
    PutOverride(RequestView),
    ProbeReverseProxy(Seq<char>),
    Register(RequestView),
}

impl View for Action {
    type V = ActionView;

    open spec fn view(&self) -> ActionView {
        match self {
            Action::Wait => ActionView::Wait,
            Action::GetSelf(request) => ActionView::GetSelf(request@),
            Action::ProbeExternal(url) => ActionView::ProbeExternal(url@),
            Action::GetOverride(request) => ActionView::GetOverride(request@),
            Action::PutOverride(request) => ActionView::PutOverride(request@),
            Action::ProbeReverseProxy(url) => ActionView::ProbeReverseProxy(url@),
            Action::Register(request) => ActionView::Register(request@),
        }
    }
}

/// What happened outside: the timer fired, or an action was performed. In
/// each answer `None` stands for a collaborator that could not be reached or
/// whose answer could not be read.
#[derive(Debug, PartialEq, Eq)]
pub enum Event {
    /// The timer fired.
    Tick,
    /// The node's service entry as the registry reports it.
    SelfFetched(Option<ServiceResponse>),
    /// The body that the external entry point's `/host` returned.
    ExternalProbed(Option<String>),
    /// The entries stored at the override flag's key.
    OverrideFetched(Option<Vec<KVResponse>>),
    /// Whether the registry acknowledged the write of the override flag.
    OverrideStored(Option<bool>),
    /// The body that the reverse proxy's `/host` returned.
    ReverseProxyProbed(Option<String>),
    /// The status code that the registration was answered with.
    Registered(Option<u16>),
}

/// The mathematical value of an [`Event`].
pub enum EventView {
    Tick,
    SelfFetched(Option<Seq<Seq<char>>>),
    ExternalProbed(Option<Seq<char>>),
    OverrideFetched(Option<Seq<KVResponseView>>),
    OverrideStored(Option<bool>),
    ReverseProxyProbed(Option<Seq<char>>),
    Registered(Option<u16>),
}

impl View for Event {
    type V = EventView;

    open spec fn view(&self) -> EventView {
        match self {
            Event::Tick => EventView::Tick,
            Event::SelfFetched(fetched) => EventView::SelfFetched(fetched.deep_view()),
            Event::ExternalProbed(probe) => EventView::ExternalProbed(probe.deep_view()),
            Event::OverrideFetched(read) => EventView::OverrideFetched(read.deep_view()),
            Event::OverrideStored(stored) => EventView::OverrideStored(*stored),
            Event::ReverseProxyProbed(probe) => EventView::ReverseProxyProbed(probe.deep_view()),
            Event::Registered(code) => EventView::Registered(*code),
        }
    }
}

impl EventView {
    /// The service entry that the event brings. An event of any other kind
    /// brings none, as if the registry could not be reached.
    pub open spec fn self_entry(self) -> Option<Seq<Seq<char>>> {
        match self {
            EventView::SelfFetched(fetched) => fetched,
            _ => None,
        }
    }

    /// The external entry point's answer that the event brings, if any.
    pub open spec fn external_host(self) -> Option<Seq<char>> {
        match self {
            EventView::ExternalProbed(probe) => probe,
            _ => None,
        }
    }

    /// The entries at the override flag's key that the event brings, if any.
    pub open spec fn override_entries(self) -> Option<Seq<KVResponseView>> {
        match self {
            EventView::OverrideFetched(read) => read,
            _ => None,
        }
    }

    /// The acknowledgement of the flag's write that the event brings, if
    /// any.
    pub open spec fn override_stored(self) -> Option<bool> {
        match self {
            EventView::OverrideStored(stored) => stored,
            _ => None,
        }
    }

    /// The reverse proxy's answer that the event brings, if any.
    pub open spec fn reverse_proxy_host(self) -> Option<Seq<char>> {
        match self {
            EventView::ReverseProxyProbed(probe) => probe,
            _ => None,
        }
    }
}

/// How far the question "is this node eligible" has been answered.
#[derive(Clone, Copy, Debug, PartialEq, Eq, Structural)]
pub enum Resolution {
    /// Nothing has been asked yet.
    Start,
    /// The override flag has been asked for.
    AwaitOverride,
    /// The override was unknown, and the flag is being initialised.
    AwaitOverrideStore,
    /// The override is settled, and the reverse proxy is being probed.
    AwaitReverseProxy { kv_override: EligibleStatus },
    /// Both signals are in.
    Resolved { eligible: bool },
}

/// Where a cycle stands.
#[derive(Clone, Copy, Debug, PartialEq, Eq, Structural)]
pub enum CycleState {
    /// Between two cycles.
    Idle,
    /// The node's service entry has been asked for.
    AwaitSelf,
    /// The external entry point is being probed.
    AwaitExternal { reported: ComputedState },
    /// Eligibility is being resolved.
    Resolving { reported: ComputedState, active: bool, resolution: Resolution },
    /// Drift was found, and the registration is on its way.
    AwaitRegister,
}

/// What follows once the override signal is settled: the probe of the
/// reverse proxy where one is configured, the verdict where none is.
pub open spec fn after_override(consul: ConsulView, kv_override: EligibleStatus) -> (
    Resolution,
    ActionView,
) {
    match consul.app_config.http.reverse_proxy {
        Some(addr) => (
            Resolution::AwaitReverseProxy { kv_override },
            ActionView::ProbeReverseProxy(reverse_proxy_host_url(addr)),
        ),
        None => (
            Resolution::Resolved {
                eligible: eligibility(kv_override, reverse_proxy_status(consul.app_config, None)),
            },
            ActionView::Wait,
        ),
    }
}

/// One step of the eligibility resolver.
///
/// The override flag is read first. Where it is unknown, the value `TRUE`
/// is written to it, and the acknowledgement decides. Then the reverse proxy
/// is probed, if one is configured. An event that does not answer the
/// pending action counts as that action having failed.
pub open spec fn resolve_step(consul: ConsulView, state: Resolution, event: EventView) -> (
    Resolution,
    ActionView,
) {
    match state {
        Resolution::Start => (
            Resolution::AwaitOverride,
            ActionView::GetOverride(consul.get_kv(override_path(consul.app_config))),
        ),
        Resolution::AwaitOverride => {
            let reading = override_reading(event.override_entries());
            if reading is Unknown {
                (
                    Resolution::AwaitOverrideStore,
                    ActionView::PutOverride(
                        consul.put_kv(override_path(consul.app_config), "TRUE"@),
                    ),
                )
            } else {
                after_override(consul, reading)
            }
        },
        Resolution::AwaitOverrideStore => after_override(
            consul,
            override_after_store(event.override_stored()),
        ),
        Resolution::AwaitReverseProxy { kv_override } => (
            Resolution::Resolved {
                eligible: eligibility(
                    kv_override,
                    reverse_proxy_status(consul.app_config, event.reverse_proxy_host()),
                ),
            },
            ActionView::Wait,
        ),
        Resolution::Resolved { eligible } => (state, ActionView::Wait),
    }
}

/// Whether what the registry reports differs from what was observed.
pub open spec fn drift(reported: ComputedState, observed: ComputedState) -> bool {
    reported.active != observed.active || reported.eligible != observed.eligible
}

/// What a cycle does with the resolver's latest step: it goes on resolving,
/// or, with the verdict in, registers the observed state where it differs
/// from the reported one and comes to rest where it does not.
pub open spec fn conclude(
    consul: ConsulView,
    reported: ComputedState,
    active: bool,
    step: (Resolution, ActionView),
) -> (CycleState, ActionView) {
    match step.0 {
        Resolution::Resolved { eligible } => if drift(
            reported,
            ComputedState { active, eligible },
        ) {
            (CycleState::AwaitRegister, ActionView::Register(consul.register_service(active, eligible)))
        } else {
            (CycleState::Idle, ActionView::Wait)
        },
        _ => (CycleState::Resolving { reported, active, resolution: step.0 }, step.1),
    }
}

/// One step of the reconciliation cycle.
///
/// A tick starts a cycle. The cycle fetches the node's service entry,
/// probes the external entry point, resolves eligibility, and registers the
/// observed state if it differs from the reported one. The answer to the
/// registration is not looked at: a failed registration is made up for by
/// the next cycle. An event that does not answer the pending action counts
/// as that action having failed; between cycles, anything but a tick is
/// ignored.
pub open spec fn cycle_step(consul: ConsulView, state: CycleState, event: EventView) -> (
    CycleState,
    ActionView,
) {
    match state {
        CycleState::Idle => if event is Tick {
            (CycleState::AwaitSelf, ActionView::GetSelf(consul.get_self()))
        } else {
            (CycleState::Idle, ActionView::Wait)
        },
        CycleState::AwaitSelf => (
            CycleState::AwaitExternal {
                reported: reported_state(tags_or_none(event.self_entry())),
            },
            ActionView::ProbeExternal(external_host_url(consul.app_config)),
        ),
        CycleState::AwaitExternal { reported } => conclude(
            consul,
            reported,
            names_host(event.external_host(), consul.app_config.hostname),
            resolve_step(consul, Resolution::Start, event),
        ),
        CycleState::Resolving { reported, active, resolution } => conclude(
            consul,
            reported,
            active,
            resolve_step(consul, resolution, event),
        ),
        CycleState::AwaitRegister => (CycleState::Idle, ActionView::Wait),
    }
}

fn override_key(config: &BalancerConfig) -> (path: String)
    ensures
        path@ == override_path(config@),
{
    let mut path = config.consul.kv_prefix.clone();
    path.append("/");
    path.append(config.hostname.as_str());
    path.append("/eligible");
    path
}

fn proceed_after_override(consul: &Consul, kv_override: EligibleStatus) -> (step: (
    Resolution,
    Action,
))
    ensures
        (step.0, step.1@) == after_override(consul@, kv_override),
{
    let config = consul.app_config();
    match &config.http.reverse_proxy {
        Some(addr) => {
            let mut url = addr.clone();
            url.append("/host");
            (Resolution::AwaitReverseProxy { kv_override }, Action::ProbeReverseProxy(url))
        },
        None => {
            let reverse_proxy = get_reverse_proxy_status(config, &None);
            (
                Resolution::Resolved { eligible: both_pass(kv_override, reverse_proxy) },
                Action::Wait,
            )
        },
    }
}

/// Whether a node is eligible, given the verdicts of the override and of
/// the reverse proxy: both must be `Eligible`.
pub fn both_pass(kv_override: EligibleStatus, reverse_proxy: EligibleStatus) -> (eligible: bool)
    ensures
        eligible == eligibility(kv_override, reverse_proxy),
        eligible == (kv_override is Eligible && reverse_proxy is Eligible),
{
    let first: bool = kv_override.into();
    let second: bool = reverse_proxy.into();
    first && second
}

/// Takes the eligibility resolver one step further: `event` answers the
/// action that the previous step returned, and the result is the next state
/// with the next action. The resolver has come to rest when the state is
/// [`Resolution::Resolved`], which holds the verdict.
pub fn is_eligible(consul: &Consul, state: Resolution, event: &Event) -> (step: (
    Resolution,
    Action,
))
    ensures
        (step.0, step.1@) == resolve_step(consul@, state, event@),
{
    match state {
        Resolution::Start => {
            let request = consul.get_kv(override_key(consul.app_config()));
            (Resolution::AwaitOverride, Action::GetOverride(request))
        },
        Resolution::AwaitOverride => {
            let reading = match event {
                Event::OverrideFetched(read) => get_override_status(read),
                _ => get_override_status(&None),
            };
            match reading {
                EligibleStatus::Unknown => {
                    let request = consul.put_kv(
                        override_key(consul.app_config()),
                        String::from_str("TRUE"),
                    );
                    (Resolution::AwaitOverrideStore, Action::PutOverride(request))
                },
                _ => proceed_after_override(consul, reading),
            }
        },
        Resolution::AwaitOverrideStore => {
            let stored = match event {
                Event::OverrideStored(stored) => *stored,
                _ => None,
            };
            proceed_after_override(consul, settle_override(stored))
        },
        Resolution::AwaitReverseProxy { kv_override } => {
            let reverse_proxy = match event {
                Event::ReverseProxyProbed(probe) => get_reverse_proxy_status(
                    consul.app_config(),
                    probe,
                ),
                _ => get_reverse_proxy_status(consul.app_config(), &None),
            };
            (
                Resolution::Resolved { eligible: both_pass(kv_override, reverse_proxy) },
                Action::Wait,
            )
        },
        Resolution::Resolved { eligible } => (state, Action::Wait),
    }
}

fn conclude_step(
    consul: &Consul,
    reported: ComputedState,
    active: bool,
    step: (Resolution, Action),
) -> (next: (CycleState, Action))
    ensures
        (next.0, next.1@) == conclude(consul@, reported, active, (step.0, step.1@)),
{
    match step.0 {
        Resolution::Resolved { eligible } => {
            if reported.active != active || reported.eligible != eligible {
                (CycleState::AwaitRegister, Action::Register(consul.register_service(active, eligible)))
            } else {
                (CycleState::Idle, Action::Wait)
            }
        },
        _ => (CycleState::Resolving { reported, active, resolution: step.0 }, step.1),
    }
}

/// Takes the reconciliation cycle one step further: `event` is a tick or
/// answers the action that the previous step returned, and the result is the
/// next state with the next action. A cycle starts from
/// [`CycleState::Idle`] with a tick and is over when [`Action::Wait`] comes
/// back.
pub fn check_status(consul: &Consul, state: CycleState, event: &Event) -> (next: (
    CycleState,
    Action,
))
    ensures
        (next.0, next.1@) == cycle_step(consul@, state, event@),
{
    match state {
        CycleState::Idle => match event {
            Event::Tick => (CycleState::AwaitSelf, Action::GetSelf(consul.get_self())),
            _ => (CycleState::Idle, Action::Wait),
        },
        CycleState::AwaitSelf => {
            let reported = match event {
                Event::SelfFetched(Some(service_response)) => ComputedState {
                    active: is_active_service(service_response),
                    eligible: is_eligible_service(service_response),
                },
                _ => {
                    let service_response = get_service_tags(None);
                    ComputedState {
                        active: is_active_service(&service_response),
                        eligible: is_eligible_service(&service_response),
                    }
                },
            };
            let mut url = consul.app_config().external_url.clone();
            url.append("/host");
            (CycleState::AwaitExternal { reported }, Action::ProbeExternal(url))
        },
        CycleState::AwaitExternal { reported } => {
            let active = match event {
                Event::ExternalProbed(probe) => is_active_host(consul.app_config(), probe),
                _ => is_active_host(consul.app_config(), &None),
            };
            conclude_step(consul, reported, active, is_eligible(consul, Resolution::Start, event))
        },
        CycleState::Resolving { reported, active, resolution } => conclude_step(
            consul,
            reported,
            active,
            is_eligible(consul, resolution, event),
        ),
        CycleState::AwaitRegister => (CycleState::Idle, Action::Wait),
    }
}

} // verus!
