//! Discovery and reconnection state machine.
//!
//! The service starts in `Init`, moves to `Active` after the first
//! successful bus connect and discovery pass, and degrades to the terminal
//! `Error` state on unrecoverable bus failure, where it idles forever. The
//! driver performing the bus work feeds every outcome back in as a
//! `ServiceInput`; each step yields the next state and at most one event for
//! the subscriber channel.
//!
//! Endpoint identities are recognized among all bus names by a fixed
//! namespace prefix; an endpoint-set change forces a full rediscovery and a
//! multiplexer rebuild, while metadata and volume changes only re-query the
//! currently known identities.

use vstd::prelude::*;
use vstd::string::StrSliceExecFns;

use crate::snapshot::{distinct_names, MprisPlayerData, MprisPlayerService};

verus! {

/// The namespace prefix that marks a bus name as a media-player endpoint.
pub open spec fn player_prefix() -> Seq<char> {
    "org.mpris.MediaPlayer2."@
}

/// Whether a bus name lies in the player namespace.
pub open spec fn is_player_name_spec(name: Seq<char>) -> bool {
    name.len() >= player_prefix().len() && name.take(player_prefix().len() as int)
        == player_prefix()
}

/// Decide whether one bus name belongs to a media-player endpoint.
pub fn is_player_name(name: &String) -> (b: bool)
    ensures
        b == is_player_name_spec(name@),
{
    let prefix = "org.mpris.MediaPlayer2.";
    let plen = prefix.unicode_len();
    let name_s = name.as_str();
    let nlen = name_s.unicode_len();
    if nlen < plen {
        return false;
    }
    let mut j: usize = 0;
    while j < plen
        invariant
            plen == player_prefix().len(),
            nlen == name@.len(),
            plen <= nlen,
            j <= plen,
            prefix@ == player_prefix(),
            name_s@ == name@,
            forall|k: int| 0 <= k < j ==> name@[k] == player_prefix()[k],
        decreases plen - j,
    {
        if name_s.get_char(j) != prefix.get_char(j) {
            return false;
        }
        j += 1;
    }
    proof {
        assert(name@.take(plen as int) =~= player_prefix());
    }
    true
}

/// The members of `names` that lie in the player namespace, in order.
pub open spec fn player_names_spec(names: Seq<Seq<char>>) -> Seq<Seq<char>>
    decreases names.len(),
{
    if names.len() == 0 {
        Seq::empty()
    } else if is_player_name_spec(names[0]) {
        seq![names[0]] + player_names_spec(names.drop_first())
    } else {
        player_names_spec(names.drop_first())
    }
}

/// One more name extends the filtered list exactly when it lies in the
/// player namespace.
pub proof fn lemma_player_names_push(names: Seq<Seq<char>>, name: Seq<char>)
    ensures
        player_names_spec(names.push(name)) == if is_player_name_spec(name) {
            player_names_spec(names).push(name)
        } else {
            player_names_spec(names)
        },
    decreases names.len(),
{
    reveal_with_fuel(player_names_spec, 3);
    let pushed = names.push(name);
    assert(pushed[0] == if names.len() == 0 {
        name
    } else {
        names[0]
    });
    if names.len() == 0 {
        assert(pushed.drop_first() =~= Seq::<Seq<char>>::empty());
        if is_player_name_spec(name) {
            assert(player_names_spec(pushed) =~= player_names_spec(names).push(name));
        } else {
            assert(player_names_spec(pushed) =~= player_names_spec(names));
        }
    } else {
        assert(pushed.drop_first() =~= names.drop_first().push(name));
        lemma_player_names_push(names.drop_first(), name);
        if is_player_name_spec(name) {
            assert(player_names_spec(pushed) =~= player_names_spec(names).push(name));
        } else {
            assert(player_names_spec(pushed) =~= player_names_spec(names));
        }
    }
}

/// Keep exactly the bus names that belong to media-player endpoints,
/// preserving their order. This is the discovery pass over a full bus-name
/// listing.
pub fn filter_player_names(names: &Vec<String>) -> (r: Vec<String>)
    ensures
        r.deep_view() == player_names_spec(names.deep_view()),
{
    let mut r: Vec<String> = Vec::new();
    let n = names.len();
    let mut i: usize = 0;
    while i < n
        invariant
            n == names@.len(),
            i <= n,
            r.deep_view() == player_names_spec(names.deep_view().take(i as int)),
        decreases n - i,
    {
        let ghost prev = r.deep_view();
        if is_player_name(&names[i]) {
            r.push(names[i].clone());
        }
        proof {
            let nv = names.deep_view();
            assert(nv.take((i + 1) as int) =~= nv.take(i as int).push(nv[i as int]));
            lemma_player_names_push(nv.take(i as int), nv[i as int]);
            if is_player_name_spec(nv[i as int]) {
                assert(r.deep_view() =~= prev.push(nv[i as int]));
            } else {
                assert(r.deep_view() =~= prev);
            }
        }
        i += 1;
    }
    proof {
        assert(names.deep_view().take(n as int) =~= names.deep_view());
    }
    r
}

/// Every name the filter keeps was one of the listed names.
proof fn lemma_player_names_membership(names: Seq<Seq<char>>, x: Seq<char>)
    requires
        player_names_spec(names).contains(x),
    ensures
        names.contains(x),
    decreases names.len(),
{
    let ps = player_names_spec(names);
    let rest = names.drop_first();
    let k = choose|k: int| 0 <= k < ps.len() && ps[k] == x;
    if is_player_name_spec(names[0]) {
        if k == 0 {
            assert(names[0] == x);
        } else {
            assert(player_names_spec(rest)[k - 1] == x);
            assert(player_names_spec(rest).contains(x));
            lemma_player_names_membership(rest, x);
            let j = choose|j: int| 0 <= j < rest.len() && rest[j] == x;
            assert(names[j + 1] == x);
        }
    } else {
        lemma_player_names_membership(rest, x);
        let j = choose|j: int| 0 <= j < rest.len() && rest[j] == x;
        assert(names[j + 1] == x);
    }
}

/// Discovery preserves uniqueness: the bus lists each name once, and the
/// filtered player identities are then distinct too — what the snapshot
/// invariant rests on.
pub proof fn lemma_player_names_distinct(names: Seq<Seq<char>>)
    requires
        distinct_names(names),
    ensures
        distinct_names(player_names_spec(names)),
    decreases names.len(),
{
    if names.len() == 0 {
    } else {
        let rest = names.drop_first();
        assert forall|i: int, j: int| #![trigger rest[i], rest[j]] 0 <= i < j < rest.len()
            implies rest[i] != rest[j] by {
            assert(names[i + 1] == rest[i]);
            assert(names[j + 1] == rest[j]);
        }
        lemma_player_names_distinct(rest);
        let ps = player_names_spec(names);
        if is_player_name_spec(names[0]) {
            assert forall|i: int, j: int| #![trigger ps[i], ps[j]] 0 <= i < j < ps.len()
                implies ps[i] != ps[j] by {
                if i == 0 {
                    if ps[j] == names[0] {
                        assert(player_names_spec(rest)[j - 1] == names[0]);
                        assert(player_names_spec(rest).contains(names[0]));
                        lemma_player_names_membership(rest, names[0]);
                        let w = choose|w: int| 0 <= w < rest.len() && rest[w] == names[0];
                        assert(names[w + 1] == names[0]);
                        assert(false);
                    }
                } else {
                    assert(ps[i] == player_names_spec(rest)[i - 1]);
                    assert(ps[j] == player_names_spec(rest)[j - 1]);
                }
            }
        }
    }
}

/// A notification the event multiplexer delivers while the service is
/// active. Events carry no payload: consumers re-derive fresh state rather
/// than trust a possibly stale payload.
#[derive(Debug, Clone, PartialEq, Eq, Structural)]
pub enum BusEvent {
    EndpointSetChanged,
    MetadataChanged,
    VolumeChanged,
}

/// Map a name-ownership change on the bus to a multiplexer event: only
/// changes inside the player namespace signal an endpoint-set change.
pub fn name_owner_event(name: &String) -> (r: Option<BusEvent>)
    ensures
        r == if is_player_name_spec(name@) {
            Some(BusEvent::EndpointSetChanged)
        } else {
            None::<BusEvent>
        },
{
    if is_player_name(name) {
        Some(BusEvent::EndpointSetChanged)
    } else {
        None
    }
}

/// How the snapshot is brought current after a multiplexer event: an
/// endpoint-set change invalidates the subscription topology and forces a
/// full rediscovery (and multiplexer rebuild); metadata and volume changes
/// only invalidate cached values and take the cheaper re-query over the
/// currently known identities.
#[derive(Debug, Clone, PartialEq, Eq, Structural)]
pub enum RefreshAction {
    Rediscover,
    Requery,
}

/// The refresh path a multiplexer event demands.
pub fn refresh_action_for(event: &BusEvent) -> (r: RefreshAction)
    ensures
        r == if event is EndpointSetChanged {
            RefreshAction::Rediscover
        } else {
            RefreshAction::Requery
        },
{
    match event {
        BusEvent::EndpointSetChanged => RefreshAction::Rediscover,
        BusEvent::MetadataChanged => RefreshAction::Requery,
        BusEvent::VolumeChanged => RefreshAction::Requery,
    }
}

/// The state of the discovery machine: not yet connected, active with the
/// shared connection's known endpoint identities, or terminally failed.
#[derive(Debug, Clone, PartialEq)]
pub enum DiscoveryState {
    Init,
    Active(Vec<String>),
    Error,
}

/// The outcome of the bus work the driver performed for the current state,
/// handed back to the machine as its next input.
#[derive(Debug, Clone, PartialEq)]
pub enum ServiceInput {
    /// Connecting to the bus failed (only meaningful from `Init`).
    ConnectFailed,
    /// A discovery pass (listing names and building the snapshot) failed.
    DiscoveryFailed,
    /// A discovery pass succeeded with these identities and this snapshot.
    Discovered(Vec<String>, Vec<MprisPlayerData>),
    /// Building the event multiplexer failed.
    MultiplexerFailed,
    /// A re-query over the current identities produced this snapshot.
    Refreshed(Vec<MprisPlayerData>),
    /// The multiplexer stream ran dry; it is rebuilt on the next turn.
    StreamEnded,
}

/// An event on the subscriber channel: the first fully-formed snapshot once,
/// then replacement snapshots.
#[derive(Debug, Clone, PartialEq)]
pub enum ServiceEvent {
    Init(MprisPlayerService),
    Update(Vec<MprisPlayerData>),
}

/// One transition of the discovery machine: the next state and at most one
/// subscriber event. A successful discovery from `Init` publishes the one
/// `Init` event; from `Active`, fresh snapshots publish `Update`s. Every
/// transport-level failure — a bus connect, a discovery pass, or a
/// multiplexer build — is terminal; only per-endpoint failures are absorbed,
/// and those never reach the machine. `Error` ignores everything forever.
/// Inputs that cannot arise in a state leave it unchanged.
pub open spec fn spec_step(state: DiscoveryState, input: ServiceInput) -> (
    DiscoveryState,
    Option<ServiceEvent>,
) {
    match state {
        DiscoveryState::Init => match input {
            ServiceInput::ConnectFailed => (DiscoveryState::Error, None),
            ServiceInput::DiscoveryFailed => (DiscoveryState::Error, None),
            ServiceInput::Discovered(names, data) => (
                DiscoveryState::Active(names),
                Some(ServiceEvent::Init(MprisPlayerService { data })),
            ),
            _ => (DiscoveryState::Init, None),
        },
        DiscoveryState::Active(names) => match input {
            ServiceInput::Discovered(new_names, data) => (
                DiscoveryState::Active(new_names),
                Some(ServiceEvent::Update(data)),
            ),
            ServiceInput::DiscoveryFailed => (DiscoveryState::Error, None),
            ServiceInput::Refreshed(data) => (
                DiscoveryState::Active(names),
                Some(ServiceEvent::Update(data)),
            ),
            ServiceInput::MultiplexerFailed => (DiscoveryState::Error, None),
            ServiceInput::StreamEnded => (DiscoveryState::Active(names), None),
            ServiceInput::ConnectFailed => (DiscoveryState::Active(names), None),
        },
        DiscoveryState::Error => (DiscoveryState::Error, None),
    }
}

/// Take one step of the discovery machine.
pub fn step(state: DiscoveryState, input: ServiceInput) -> (r: (
    DiscoveryState,
    Option<ServiceEvent>,
))
    ensures
        r == spec_step(state, input),
{
    match state {
        DiscoveryState::Init => match input {
            ServiceInput::ConnectFailed => (DiscoveryState::Error, None),
            ServiceInput::DiscoveryFailed => (DiscoveryState::Error, None),
            ServiceInput::Discovered(names, data) => (
                DiscoveryState::Active(names),
                Some(ServiceEvent::Init(MprisPlayerService { data })),
            ),
            _ => (DiscoveryState::Init, None),
        },
        DiscoveryState::Active(names) => match input {
            ServiceInput::Discovered(new_names, data) => (
                DiscoveryState::Active(new_names),
                Some(ServiceEvent::Update(data)),
            ),
            ServiceInput::DiscoveryFailed => (DiscoveryState::Error, None),
            ServiceInput::Refreshed(data) => (
                DiscoveryState::Active(names),
                Some(ServiceEvent::Update(data)),
            ),
            ServiceInput::MultiplexerFailed => (DiscoveryState::Error, None),
            ServiceInput::StreamEnded => (DiscoveryState::Active(names), None),
            ServiceInput::ConnectFailed => (DiscoveryState::Active(names), None),
        },
        DiscoveryState::Error => (DiscoveryState::Error, None),
    }
}

/// The events one optional event contributes to a trace.
pub open spec fn opt_event_seq(e: Option<ServiceEvent>) -> Seq<ServiceEvent> {
    match e {
        Some(ev) => seq![ev],
        None => Seq::empty(),
    }
}

/// Run the machine over a whole sequence of inputs, collecting the final
/// state and every event published along the way, in order.
pub open spec fn run_spec(state: DiscoveryState, inputs: Seq<ServiceInput>) -> (
    DiscoveryState,
    Seq<ServiceEvent>,
)
    decreases inputs.len(),
{
    if inputs.len() == 0 {
        (state, Seq::empty())
    } else {
        let stepped = spec_step(state, inputs[0]);
        let rest = run_spec(stepped.0, inputs.drop_first());
        (rest.0, opt_event_seq(stepped.1) + rest.1)
    }
}

/// `Error` is terminal: from it, every run ends in `Error` and publishes
/// nothing, however long it goes on.
pub proof fn lemma_error_is_terminal(inputs: Seq<ServiceInput>)
    ensures
        run_spec(DiscoveryState::Error, inputs).0 is Error,
        run_spec(DiscoveryState::Error, inputs).1 == Seq::<ServiceEvent>::empty(),
    decreases inputs.len(),
{
    if inputs.len() == 0 {
    } else {
        lemma_error_is_terminal(inputs.drop_first());
        assert(run_spec(DiscoveryState::Error, inputs).1 =~= Seq::<ServiceEvent>::empty());
    }
}

/// A bus connect failure (or a failed initial discovery) from `Init` is
/// terminal: the machine ends in `Error` and the subscriber never receives
/// any event.
pub proof fn lemma_connect_failure_silent(inputs: Seq<ServiceInput>)
    requires
        inputs.len() >= 1,
        inputs[0] is ConnectFailed || inputs[0] is DiscoveryFailed,
    ensures
        run_spec(DiscoveryState::Init, inputs).0 is Error,
        run_spec(DiscoveryState::Init, inputs).1 == Seq::<ServiceEvent>::empty(),
{
    lemma_error_is_terminal(inputs.drop_first());
    assert(run_spec(DiscoveryState::Init, inputs).1 =~= Seq::<ServiceEvent>::empty());
}

/// From `Active` or `Error`, everything ever published is an `Update`.
pub proof fn lemma_active_publishes_updates(state: DiscoveryState, inputs: Seq<ServiceInput>)
    requires
        state is Active || state is Error,
    ensures
        forall|i: int|
            0 <= i < run_spec(state, inputs).1.len() ==> run_spec(state, inputs).1[i] is Update,
    decreases inputs.len(),
{
    if inputs.len() == 0 {
    } else {
        let stepped = spec_step(state, inputs[0]);
        lemma_active_publishes_updates(stepped.0, inputs.drop_first());
    }
}

/// The channel discipline: in any run from `Init`, the first event (if any)
/// is the one `Init`, and every later event is an `Update`.
pub proof fn lemma_first_event_is_init(inputs: Seq<ServiceInput>)
    ensures
        run_spec(DiscoveryState::Init, inputs).1.len() > 0 ==> run_spec(
            DiscoveryState::Init,
            inputs,
        ).1[0] is Init,
        forall|i: int|
            1 <= i < run_spec(DiscoveryState::Init, inputs).1.len() ==> run_spec(
                DiscoveryState::Init,
                inputs,
            ).1[i] is Update,
    decreases inputs.len(),
{
    if inputs.len() == 0 {
    } else {
        let stepped = spec_step(DiscoveryState::Init, inputs[0]);
        match stepped.0 {
            DiscoveryState::Init => {
                lemma_first_event_is_init(inputs.drop_first());
            },
            DiscoveryState::Error => {
                lemma_error_is_terminal(inputs.drop_first());
            },
            DiscoveryState::Active(_) => {
                lemma_active_publishes_updates(stepped.0, inputs.drop_first());
            },
        }
    }
}

/// A transport-level failure while active — a multiplexer construction that
/// fails after an endpoint-set change, or a failed rediscovery pass — is
/// terminal: no silent retry loop, the machine ends in `Error` and publishes
/// nothing further.
pub proof fn lemma_active_failure_terminal(names: Vec<String>, inputs: Seq<ServiceInput>)
    requires
        inputs.len() >= 1,
        inputs[0] is MultiplexerFailed || inputs[0] is DiscoveryFailed,
    ensures
        run_spec(DiscoveryState::Active(names), inputs).0 is Error,
        run_spec(DiscoveryState::Active(names), inputs).1 == Seq::<ServiceEvent>::empty(),
{
    lemma_error_is_terminal(inputs.drop_first());
    assert(run_spec(DiscoveryState::Active(names), inputs).1 =~= Seq::<ServiceEvent>::empty());
}

} // verus!
