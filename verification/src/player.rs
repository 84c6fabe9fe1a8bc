//! Planning of player actions against the current playback snapshot.
//!
//! A player action needs an active playback to resolve its target device;
//! without one it fails as a precondition error before any remote call. The
//! one exception is the playback transfer, which is usable with no existing
//! playback and maps to exactly one remote action.

use vstd::prelude::*;
use crate::model::{AppError, Playback, SimplifiedPlayback, cycle_repeat, cycle_repeat_spec};
use crate::request::{PlayerRequest, RemoteAction};
use crate::state::clone_opt_string;

verus! {

/// The remote action that starts a playback: a whole context, or an
/// explicit URI list.
pub open spec fn start_playback_spec(playback: Playback, device_id: Option<String>) -> RemoteAction {
    match playback {
        Playback::Context(context_id, offset) => RemoteAction::StartContextPlayback {
            context_id,
            offset,
            device_id,
        },
        Playback::URIs(track_ids, offset) => RemoteAction::StartUrisPlayback {
            track_ids,
            offset,
            device_id,
        },
    }
}

/// Builds the remote action that starts the given playback on the given
/// device.
pub fn start_playback(playback: Playback, device_id: Option<String>) -> (r: RemoteAction)
    ensures
        r == start_playback_spec(playback, device_id),
{
    match playback {
        Playback::Context(context_id, offset) => RemoteAction::StartContextPlayback {
            context_id,
            offset,
            device_id,
        },
        Playback::URIs(track_ids, offset) => RemoteAction::StartUrisPlayback {
            track_ids,
            offset,
            device_id,
        },
    }
}

/// The remote actions a player request issues, in order, given the current
/// simplified playback. Starting a new playback issues a second action that
/// re-applies the previous shuffle flag, because the remote service does not
/// carry shuffle state across a fresh context start.
pub open spec fn player_actions_spec(request: PlayerRequest, pb: SimplifiedPlayback) -> Seq<
    RemoteAction,
> {
    match request {
        PlayerRequest::NextTrack => seq![RemoteAction::NextTrack { device_id: pb.device_id }],
        PlayerRequest::PreviousTrack => seq![
            RemoteAction::PreviousTrack { device_id: pb.device_id },
        ],
        PlayerRequest::ResumePause => if pb.is_playing {
            seq![RemoteAction::PausePlayback { device_id: pb.device_id }]
        } else {
            seq![RemoteAction::ResumePlayback { device_id: pb.device_id }]
        },
        PlayerRequest::SeekTrack(position_ms) => seq![
            RemoteAction::SeekTrack { position_ms, device_id: pb.device_id },
        ],
        PlayerRequest::Repeat => seq![
            RemoteAction::SetRepeat {
                state: cycle_repeat_spec(pb.repeat_state),
                device_id: pb.device_id,
            },
        ],
        PlayerRequest::Shuffle => seq![
            RemoteAction::SetShuffle { state: !pb.shuffle_state, device_id: pb.device_id },
        ],
        PlayerRequest::Volume(volume) => seq![
            RemoteAction::SetVolume { volume, device_id: pb.device_id },
        ],
        PlayerRequest::StartPlayback(playback) => seq![
            start_playback_spec(playback, pb.device_id),
            RemoteAction::SetShuffle { state: pb.shuffle_state, device_id: pb.device_id },
        ],
        PlayerRequest::TransferPlayback(device_id, force_play) => seq![
            RemoteAction::TransferPlayback { device_id, force_play },
        ],
    }
}

/// The result of planning a player request: the transfer is planned
/// unconditionally; everything else needs a playback snapshot and fails as a
/// precondition error without one.
pub open spec fn player_plan_spec(request: PlayerRequest, pb: Option<SimplifiedPlayback>) -> Result<
    Seq<RemoteAction>,
    AppError,
> {
    match request {
        PlayerRequest::TransferPlayback(device_id, force_play) => Ok(
            seq![RemoteAction::TransferPlayback { device_id, force_play }],
        ),
        _ => match pb {
            None => Err(AppError::NoActivePlayback),
            Some(p) => Ok(player_actions_spec(request, p)),
        },
    }
}

/// Plans the remote actions of a player request.
///
/// A playback transfer is planned unconditionally, as exactly one action.
/// Every other player request fails as [`AppError::NoActivePlayback`] when
/// no playback snapshot is present — with no action planned, so no remote
/// call is performed — and otherwise maps to the actions of
/// [`player_actions_spec`], resolved against the snapshot's device.
pub fn handle_player_request(request: PlayerRequest, playback: &Option<SimplifiedPlayback>) -> (r:
    Result<Vec<RemoteAction>, AppError>)
    ensures
        r is Err <==> !(request matches PlayerRequest::TransferPlayback(..)) && playback is None,
        r is Err ==> r->Err_0 == AppError::NoActivePlayback,
        request matches PlayerRequest::TransferPlayback(device_id, force_play) ==> r is Ok
            && r->Ok_0@ == seq![RemoteAction::TransferPlayback { device_id, force_play }],
        !(request matches PlayerRequest::TransferPlayback(..)) && playback is Some ==> r is Ok
            && r->Ok_0@ == player_actions_spec(request, playback->Some_0),
        r is Ok <==> player_plan_spec(request, *playback) is Ok,
        r is Ok ==> r->Ok_0@ == player_plan_spec(request, *playback)->Ok_0,
        r is Err ==> r->Err_0 == player_plan_spec(request, *playback)->Err_0,
{
    match request {
        PlayerRequest::TransferPlayback(device_id, force_play) => {
            let mut actions: Vec<RemoteAction> = Vec::new();
            actions.push(RemoteAction::TransferPlayback { device_id, force_play });
            Ok(actions)
        },
        req => {
            match playback {
                None => Err(AppError::NoActivePlayback),
                Some(pb) => {
                    let device_id = clone_opt_string(&pb.device_id);
                    let mut actions: Vec<RemoteAction> = Vec::new();
                    match req {
                        PlayerRequest::NextTrack => {
                            actions.push(RemoteAction::NextTrack { device_id });
                        },
                        PlayerRequest::PreviousTrack => {
                            actions.push(RemoteAction::PreviousTrack { device_id });
                        },
                        PlayerRequest::ResumePause => {
                            if pb.is_playing {
                                actions.push(RemoteAction::PausePlayback { device_id });
                            } else {
                                actions.push(RemoteAction::ResumePlayback { device_id });
                            }
                        },
                        PlayerRequest::SeekTrack(position_ms) => {
                            actions.push(RemoteAction::SeekTrack { position_ms, device_id });
                        },
                        PlayerRequest::Repeat => {
                            actions.push(
                                RemoteAction::SetRepeat {
                                    state: cycle_repeat(pb.repeat_state),
                                    device_id,
                                },
                            );
                        },
                        PlayerRequest::Shuffle => {
                            actions.push(
                                RemoteAction::SetShuffle { state: !pb.shuffle_state, device_id },
                            );
                        },
                        PlayerRequest::Volume(volume) => {
                            actions.push(RemoteAction::SetVolume { volume, device_id });
                        },
                        PlayerRequest::StartPlayback(playback_target) => {
                            let second_device_id = clone_opt_string(&pb.device_id);
                            actions.push(start_playback(playback_target, device_id));
                            actions.push(
                                RemoteAction::SetShuffle {
                                    state: pb.shuffle_state,
                                    device_id: second_device_id,
                                },
                            );
                        },
                        PlayerRequest::TransferPlayback(..) => {
                            proof {
                                assert(false);
                            }
                        },
                    }
                    Ok(actions)
                },
            }
        },
    }
}

} // verus!
