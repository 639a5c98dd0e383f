//! The command executor's decision logic.
//!
//! A targeted playback command is looked up in the current snapshot. If the
//! target identity is present, exactly one proxy call is planned against it
//! (volume scaled from percentage to native); if it is absent, the command
//! is a no-op. Either way the snapshot is then rebuilt over the same
//! identity set used before the command — not a full rediscovery — and
//! republished as one `Update`.

use vstd::prelude::*;

use crate::discovery::{DiscoveryState, ServiceEvent, ServiceInput};
use crate::snapshot::{MprisPlayerData, PlayerDataV};
use crate::volume::{native_of_volume_percent, VOLUME_PERCENT_MAX};

verus! {

/// A playback command as the command channel carries it. A volume target is
/// a percentage in hundredths of a percent, at most 100%.
#[derive(Debug, Clone, PartialEq)]
pub enum PlayerCommand {
    Prev,
    PlayPause,
    Next,
    Volume(u32),
}

/// A command addressed at one endpoint identity.
#[derive(Debug, Clone, PartialEq)]
pub struct MprisPlayerCommand {
    pub service_name: String,
    pub command: PlayerCommand,
}

/// The single proxy call a command maps to; a set-volume call carries the
/// native volume (millionths of full scale) to write.
#[derive(Debug, Clone, Copy, PartialEq, Eq, Structural)]
pub enum ProxyAction {
    Previous,
    PlayPause,
    Next,
    SetVolume(u32),
}

/// Whether a command's payload lies in range: a volume percentage of at
/// most 100%.
pub open spec fn command_valid(c: PlayerCommand) -> bool {
    match c {
        PlayerCommand::Volume(p) => p <= VOLUME_PERCENT_MAX,
        _ => true,
    }
}

/// The proxy call a command denotes, with the percentage-to-native scaling
/// applied to a volume target.
pub open spec fn action_spec(c: PlayerCommand) -> ProxyAction {
    match c {
        PlayerCommand::Prev => ProxyAction::Previous,
        PlayerCommand::PlayPause => ProxyAction::PlayPause,
        PlayerCommand::Next => ProxyAction::Next,
        PlayerCommand::Volume(p) => ProxyAction::SetVolume((p * 100) as u32),
    }
}

/// The identities of a snapshot's entries, in snapshot order.
pub open spec fn services_of(data: Seq<PlayerDataV>) -> Seq<Seq<char>> {
    data.map_values(|d: PlayerDataV| d.service)
}

/// Whether some snapshot entry carries this identity.
pub open spec fn has_service(data: Seq<PlayerDataV>, name: Seq<char>) -> bool {
    exists|i: int| 0 <= i < data.len() && data[i].service == name
}

/// What executing a command against a snapshot amounts to: the proxy call
/// (present exactly when the target identity is), and the identity set the
/// follow-up rebuild must re-query — the snapshot's own, unchanged.
pub open spec fn plan_spec(data: Seq<PlayerDataV>, target: Seq<char>, c: PlayerCommand) -> (
    Option<ProxyAction>,
    Seq<Seq<char>>,
) {
    (
        if has_service(data, target) {
            Some(action_spec(c))
        } else {
            None
        },
        services_of(data),
    )
}

/// The decided execution of one command: at most one proxy call, and the
/// identities to re-query for the republished snapshot.
#[derive(Debug, Clone, PartialEq)]
pub struct CommandPlan {
    pub action: Option<ProxyAction>,
    pub identities: Vec<String>,
}

/// Decide how to execute `command` against the current snapshot: plan the
/// one matching proxy call when the target is present, none when it is
/// absent, and always the re-query over the snapshot's own identity set.
pub fn plan_command(data: &Vec<MprisPlayerData>, command: &MprisPlayerCommand) -> (r: CommandPlan)
    requires
        command_valid(command.command),
    ensures
        (r.action, r.identities.deep_view()) == plan_spec(
            data.deep_view(),
            command.service_name@,
            command.command,
        ),
{
    let n = data.len();
    let mut identities: Vec<String> = Vec::new();
    let mut found = false;
    let mut i: usize = 0;
    while i < n
        invariant
            n == data@.len(),
            i <= n,
            identities@.len() == i,
            forall|k: int| 0 <= k < i ==> identities.deep_view()[k] == data.deep_view()[k].service,
            found == has_service(data.deep_view().take(i as int), command.service_name@),
        decreases n - i,
    {
        let ghost dv = data.deep_view();
        let ghost old_ids = identities.deep_view();
        identities.push(data[i].service.clone());
        if data[i].service == command.service_name {
            found = true;
        }
        proof {
            assert(dv.take((i + 1) as int) =~= dv.take(i as int).push(dv[i as int]));
            assert(identities.deep_view() =~= old_ids.push(dv[i as int].service));
            if dv[i as int].service == command.service_name@ {
                assert(dv.take((i + 1) as int)[i as int] == dv[i as int]);
                assert(has_service(dv.take((i + 1) as int), command.service_name@));
            } else {
                let longer = dv.take((i + 1) as int);
                let shorter = dv.take(i as int);
                assert(has_service(longer, command.service_name@) == has_service(
                    shorter,
                    command.service_name@,
                )) by {
                    if has_service(longer, command.service_name@) {
                        let w = choose|j: int|
                            0 <= j < longer.len() && #[trigger] longer[j].service
                                == command.service_name@;
                        assert(w < i);
                        assert(shorter[w].service == command.service_name@);
                    }
                    if has_service(shorter, command.service_name@) {
                        let w = choose|j: int|
                            0 <= j < shorter.len() && #[trigger] shorter[j].service
                                == command.service_name@;
                        assert(longer[w].service == command.service_name@);
                    }
                }
            }
        }
        i += 1;
    }
    proof {
        assert(data.deep_view().take(n as int) =~= data.deep_view());
        assert(identities.deep_view() =~= services_of(data.deep_view()));
    }
    let action: Option<ProxyAction> = if found {
        Some(
            match &command.command {
                PlayerCommand::Prev => ProxyAction::Previous,
                PlayerCommand::PlayPause => ProxyAction::PlayPause,
                PlayerCommand::Next => ProxyAction::Next,
                PlayerCommand::Volume(p) => ProxyAction::SetVolume(native_of_volume_percent(*p)),
            },
        )
    } else {
        None
    };
    CommandPlan { action, identities }
}

/// The unknown-target law: a command whose identity is absent from the
/// snapshot plans no proxy call and leaves the identity set to re-query
/// exactly the snapshot's own — and the follow-up rebuild still publishes
/// exactly one `Update`, since feeding the rebuilt snapshot into the active
/// machine yields one `Update` and no state change.
pub proof fn lemma_unknown_target_noop(
    data: Vec<MprisPlayerData>,
    command: MprisPlayerCommand,
    names: Vec<String>,
    rebuilt: Vec<MprisPlayerData>,
)
    requires
        !has_service(data.deep_view(), command.service_name@),
    ensures
        plan_spec(data.deep_view(), command.service_name@, command.command).0 is None,
        plan_spec(data.deep_view(), command.service_name@, command.command).1 == services_of(
            data.deep_view(),
        ),
        crate::discovery::spec_step(
            DiscoveryState::Active(names),
            ServiceInput::Refreshed(rebuilt),
        ) == (DiscoveryState::Active(names), Some(ServiceEvent::Update(rebuilt))),
{
}

} // verus!
