//! Laws of the router, stated over [`spec_step`] and proved once for every
//! state and input they speak of. Each is a property of sequences of steps
//! that no single function contract states on its own.

use vstd::prelude::*;

use crate::applet::AudioView;
use crate::applet::IsOpen;
use crate::applet::MessageView;
use crate::applet::spec_step;
use crate::device::DeviceInfoView;
use crate::device::spec_filter_sources;
use crate::pulse;
use crate::pulse::EventView;

verus! {

/// Law (volume round trip): with a connected, named current output, a
/// slider move sends exactly one volume command carrying the very volume it
/// stored locally, and a later authoritative default-sink event replaces
/// the current output with exactly the device the event carries — so an
/// event echoing the sent volume leaves the snapshot holding that volume
/// unchanged, with no lossy coercion.
pub proof fn lemma_volume_round_trip(pre: AudioView, p: u32, echo: DeviceInfoView)
    requires
        pre.current_output matches Some(d) && d.name is Some,
        pre.pulse_state is Connected,
    ensures
        ({
            let first = spec_step(pre, MessageView::SetOutputVolume(p));
            let second = spec_step(
                first.post,
                MessageView::Pulse(
                    EventView::MessageReceived(pulse::MessageView::SetDefaultSink(echo)),
                ),
            );
            &&& first.cmds == seq![
                pulse::MessageView::SetSinkVolumeByName(
                    pre.current_output->0.name->0,
                    first.post.current_output->0.volume,
                ),
            ]
            &&& second.cmds == Seq::<pulse::MessageView>::empty()
            &&& second.post.current_output == Some(echo)
            &&& echo.volume == first.post.current_output->0.volume
                ==> second.post.current_output->0.volume == first.post.current_output->0.volume
        }),
{
}

/// Law (toggle idempotence): starting anywhere but with the input list
/// expanded, toggling the output list twice returns the whole state to its
/// prior value, and across the two toggles exactly one `GetSinks` refresh
/// goes out when a handle exists — from whichever of the two toggles opened
/// the list — and none without a handle.
pub proof fn lemma_output_toggle_idempotent(pre: AudioView)
    requires
        pre.is_open != IsOpen::Input,
    ensures
        ({
            let first = spec_step(pre, MessageView::OutputToggle);
            let second = spec_step(first.post, MessageView::OutputToggle);
            &&& second.post == pre
            &&& crate::applet::has_handle(pre) ==> first.cmds + second.cmds == seq![
                pulse::MessageView::GetSinks,
            ]
            &&& !crate::applet::has_handle(pre) ==> first.cmds + second.cmds
                == Seq::<pulse::MessageView>::empty()
        }),
{
    let first = spec_step(pre, MessageView::OutputToggle);
    let second = spec_step(first.post, MessageView::OutputToggle);
    assert(second.post =~= pre);
    if crate::applet::has_handle(pre) {
        assert(first.cmds + second.cmds =~= seq![pulse::MessageView::GetSinks]);
    } else {
        assert(first.cmds + second.cmds =~= Seq::<pulse::MessageView>::empty());
    }
}

/// Law (mutual exclusion): the expansion is never output and input at once;
/// expanding one list while the other is expanded leaves only the newly
/// expanded one open.
pub proof fn lemma_expansion_mutual_exclusion(pre: AudioView)
    ensures
        pre.is_open == IsOpen::Output ==> spec_step(pre, MessageView::InputToggle).post.is_open
            == IsOpen::Input,
        pre.is_open == IsOpen::Input ==> spec_step(pre, MessageView::OutputToggle).post.is_open
            == IsOpen::Output,
{
}

/// Law (monitor filtering): after a source-list event the input list is
/// exactly the raw list with every monitor-marked source dropped; no device
/// whose description contains the marker ever stands in it, even when the
/// raw server list held one.
pub proof fn lemma_sources_filtered(pre: AudioView, l: Seq<DeviceInfoView>)
    ensures
        ({
            let post = spec_step(
                pre,
                MessageView::Pulse(
                    EventView::MessageReceived(pulse::MessageView::SetSources(l)),
                ),
            ).post;
            &&& post.inputs == spec_filter_sources(l)
            &&& forall|i: int|
                0 <= i < post.inputs.len() ==> !(#[trigger] post.inputs[i]).is_monitor()
        }),
{
    let pred = |d: DeviceInfoView| !d.is_monitor();
    let f = l.filter(pred);
    assert forall|i: int| 0 <= i < f.len() implies !(#[trigger] f[i]).is_monitor() by {
        l.lemma_filter_pred(pred, i);
    }
}

/// Law (no sends before the handle): while no handle has been delivered,
/// no message whatever makes the router send a command.
pub proof fn lemma_no_commands_without_handle(pre: AudioView, m: MessageView)
    requires
        pre.pulse_state is Init,
    ensures
        spec_step(pre, m).cmds == Seq::<pulse::MessageView>::empty(),
{
}

/// Law (server authority): no user intent other than a slider drag touches
/// the snapshot — device picks and toggles change nothing in the defaults
/// or the device lists until the server confirms with its own event — and a
/// slider drag touches nothing but the current device of its own side.
pub proof fn lemma_intent_preserves_snapshot(pre: AudioView, m: MessageView)
    requires
        !(m matches MessageView::Pulse(_)),
    ensures
        spec_step(pre, m).post.outputs == pre.outputs,
        spec_step(pre, m).post.inputs == pre.inputs,
        !(m matches MessageView::SetOutputVolume(_)) ==> spec_step(pre, m).post.current_output
            == pre.current_output,
        !(m matches MessageView::SetInputVolume(_)) ==> spec_step(pre, m).post.current_input
            == pre.current_input,
        spec_step(pre, m).post.pulse_state == pre.pulse_state,
{
}

} // verus!
