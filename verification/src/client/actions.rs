//! What a session asks of its caller, and what that does to the codec.

use crate::mc::codec::MinecraftCodec;
use crate::mc::proto::{Packet, PacketView, PlayState};
use crate::world::ChunkPos;
use vstd::prelude::*;

verus! {

/// One thing that a session asks its caller to do.
#[derive(Clone, Debug, PartialEq)]
pub enum Action {
    /// Write the packet to this session's client.
    Send(Packet),
    /// Hand the packet to the broker, which sends it to every client.
    Broadcast(Packet),
    /// Set the phase of this session's codec.
    SetState(PlayState),
    /// Set the compression threshold of this session's codec.
    SetCompression(usize),
    /// Wait until every chunk of the region is generated, then call
    /// `region_ready`.
    AwaitRegion { center: ChunkPos, r: i32 },
    /// Close the connection.
    Disconnect,
}

/// `Action` with the views of its packets.
pub enum ActionView {
    Send(PacketView),
    Broadcast(PacketView),
    SetState(PlayState),
    SetCompression(usize),
    AwaitRegion { center: ChunkPos, r: i32 },
    Disconnect,
}

impl View for Action {
    type V = ActionView;

    open spec fn view(&self) -> ActionView {
        match *self {
            Action::Send(p) => ActionView::Send(p@),
            Action::Broadcast(p) => ActionView::Broadcast(p@),
            Action::SetState(s) => ActionView::SetState(s),
            Action::SetCompression(t) => ActionView::SetCompression(t),
            Action::AwaitRegion { center, r } => ActionView::AwaitRegion { center, r },
            Action::Disconnect => ActionView::Disconnect,
        }
    }
}

/// The views of a list of actions.
pub open spec fn spec_actions(actions: Seq<Action>) -> Seq<ActionView> {
    actions.map_values(|a: Action| a@)
}

/// Appends an action to a list.
pub(crate) fn emit(actions: &mut Vec<Action>, action: Action)
    ensures
        spec_actions(final(actions)@) == spec_actions(old(actions)@).push(action@),
{
    actions.push(action);
    assert(spec_actions(actions@) =~= spec_actions(old(actions)@).push(action@));
}

/// The list without actions.
pub(crate) fn no_actions() -> (actions: Vec<Action>)
    ensures
        spec_actions(actions@) == Seq::<ActionView>::empty(),
{
    let actions: Vec<Action> = Vec::new();
    assert(spec_actions(actions@) =~= Seq::<ActionView>::empty());
    actions
}

/// The phase and the compression threshold of a codec after an action.
pub open spec fn spec_codec_step(action: ActionView, codec: (PlayState, usize)) -> (PlayState, usize) {
    match action {
        ActionView::SetState(phase) => (phase, codec.1),
        ActionView::SetCompression(threshold) => (codec.0, threshold),
        _ => codec,
    }
}

/// The phase and the compression threshold of a codec after a list of
/// actions, carried out in order.
pub open spec fn spec_codec_after(actions: Seq<ActionView>, codec: (PlayState, usize)) -> (
    PlayState,
    usize,
)
    decreases actions.len(),
{
    if actions.len() == 0 {
        codec
    } else {
        spec_codec_step(actions.last(), spec_codec_after(actions.drop_last(), codec))
    }
}

/// Carries out what an action asks of the codec. Actions that ask nothing
/// of it leave it as it is.
pub fn apply_to_codec(codec: &mut MinecraftCodec, action: &Action)
    ensures
        (final(codec).spec_phase(), final(codec).spec_threshold()) == spec_codec_step(
            action@,
            (old(codec).spec_phase(), old(codec).spec_threshold()),
        ),
        final(codec).spec_progress() == old(codec).spec_progress(),
{
    match action {
        Action::SetState(phase) => codec.change_state(*phase),
        Action::SetCompression(threshold) => codec.change_compression_threshold(*threshold),
        _ => {},
    }
}

/// Carrying out two lists of actions one after the other is carrying out
/// the first and then the second.
pub proof fn lemma_codec_after_concat(
    first: Seq<ActionView>,
    second: Seq<ActionView>,
    codec: (PlayState, usize),
)
    ensures
        spec_codec_after(first + second, codec) == spec_codec_after(
            second,
            spec_codec_after(first, codec),
        ),
    decreases second.len(),
{
    if second.len() == 0 {
        assert(first + second =~= first);
    } else {
        lemma_codec_after_concat(first, second.drop_last(), codec);
        assert((first + second).drop_last() =~= first + second.drop_last());
        assert((first + second).last() == second.last());
    }
}

} // verus!
