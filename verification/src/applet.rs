//! The panel's reconciled state and its command router. [`Audio`] holds the
//! snapshot (current defaults and device lists), the connection state, the
//! panel-expansion state and the display icons; [`Audio::update`] applies
//! one intent or server event and returns, in order, the commands the host
//! must forward to the audio-server worker. [`spec_step`] is the transition
//! relation the router is proved to implement.

use vstd::prelude::*;

use crate::device::DeviceInfo;
use crate::device::DeviceInfoView;
use crate::device::filter_sources;
use crate::device::seq_device_views;
use crate::device::spec_filter_sources;
use crate::icon::IconTier;
use crate::icon::input_icon_name;
use crate::icon::input_tier;
use crate::icon::output_icon_name;
use crate::icon::output_tier;
use crate::icon::spec_input_icon;
use crate::icon::spec_output_icon;
use crate::pulse;
use crate::pulse::Event;
use crate::pulse::EventView;
use crate::pulse::PulseState;
use crate::pulse::message_views;
use crate::volume::percent_level;
use crate::volume::percent_to_level;

verus! {

/// Which detail list the panel shows expanded; at most one at a time.
#[derive(Clone, Copy, Debug, PartialEq, Eq, Structural)]
pub enum IsOpen {
    Neither,
    Output,
    Input,
}

impl Default for IsOpen {
    /// The panel opens with both lists collapsed.
    fn default() -> (r: Self)
        ensures
            r == IsOpen::Neither,
    {
        IsOpen::Neither
    }
}

/// One message the router consumes: user intent from the UI host, or an
/// event republished by the audio-server worker.
#[derive(Debug)]
pub enum Message {
    /// Output slider moved; position in percent of full scale.
    SetOutputVolume(u32),
    /// Input slider moved; position in percent of full scale.
    SetInputVolume(u32),
    /// Expand or collapse the output list.
    OutputToggle,
    /// Expand or collapse the input list.
    InputToggle,
    /// An output picked from the expanded list, by server-assigned name.
    OutputChanged(String),
    /// An input picked from the expanded list, by server-assigned name.
    InputChanged(String),
    /// An event from the worker's stream.
    Pulse(Event),
    /// Open or close the popup.
    TogglePopup,
}

/// Mathematical model of a [`Message`].
#[verifier::ext_equal]
pub ghost enum MessageView {
    SetOutputVolume(u32),
    SetInputVolume(u32),
    OutputToggle,
    InputToggle,
    OutputChanged(Seq<char>),
    InputChanged(Seq<char>),
    Pulse(EventView),
    TogglePopup,
}

impl View for Message {
    type V = MessageView;

    open spec fn view(&self) -> MessageView {
        match self {
            Message::SetOutputVolume(p) => MessageView::SetOutputVolume(*p),
            Message::SetInputVolume(p) => MessageView::SetInputVolume(*p),
            Message::OutputToggle => MessageView::OutputToggle,
            Message::InputToggle => MessageView::InputToggle,
            Message::OutputChanged(n) => MessageView::OutputChanged(n@),
            Message::InputChanged(n) => MessageView::InputChanged(n@),
            Message::Pulse(e) => MessageView::Pulse(e@),
            Message::TogglePopup => MessageView::TogglePopup,
        }
    }
}

/// Mathematical model of the panel state.
#[verifier::ext_equal]
pub ghost struct AudioView {
    pub is_open: IsOpen,
    pub current_output: Option<DeviceInfoView>,
    pub current_input: Option<DeviceInfoView>,
    pub outputs: Seq<DeviceInfoView>,
    pub inputs: Seq<DeviceInfoView>,
    pub pulse_state: PulseState,
    pub icon_name: Seq<char>,
    pub input_icon_name: Seq<char>,
    pub popup: Option<u64>,
    pub id_ctr: u64,
}

impl AudioView {
    /// Every device the state holds keeps its volume within server limits.
    pub open spec fn wf(self) -> bool {
        &&& match self.current_output {
            Some(d) => d.wf(),
            None => true,
        }
        &&& match self.current_input {
            Some(d) => d.wf(),
            None => true,
        }
        &&& forall|i: int| 0 <= i < self.outputs.len() ==> (#[trigger] self.outputs[i]).wf()
        &&& forall|i: int| 0 <= i < self.inputs.len() ==> (#[trigger] self.inputs[i]).wf()
    }
}

/// The panel state: snapshot, connection state, expansion and icons.
#[derive(Debug)]
pub struct Audio {
    /// Which detail list is expanded.
    pub is_open: IsOpen,
    /// Current default output, as last confirmed by the server (volume
    /// possibly ahead of it by one optimistic slider update).
    pub current_output: Option<DeviceInfo>,
    /// Current default input, same regime as the output.
    pub current_input: Option<DeviceInfo>,
    /// Available outputs, replaced wholesale on every server list event.
    pub outputs: Vec<DeviceInfo>,
    /// Available inputs, monitor taps already filtered out.
    pub inputs: Vec<DeviceInfo>,
    /// Connection lifecycle and the worker handle once it exists.
    pub pulse_state: PulseState,
    /// Icon the panel shows for the output volume.
    pub icon_name: String,
    /// Icon the panel shows for the input volume.
    pub input_icon_name: String,
    /// Id of the open popup window, if one is open.
    pub popup: Option<u64>,
    /// Source of fresh popup window ids.
    pub id_ctr: u64,
}

impl View for Audio {
    type V = AudioView;

    open spec fn view(&self) -> AudioView {
        AudioView {
            is_open: self.is_open,
            current_output: match self.current_output {
                Some(d) => Some(d@),
                None => None,
            },
            current_input: match self.current_input {
                Some(d) => Some(d@),
                None => None,
            },
            outputs: seq_device_views(self.outputs@),
            inputs: seq_device_views(self.inputs@),
            pulse_state: self.pulse_state,
            icon_name: self.icon_name@,
            input_icon_name: self.input_icon_name@,
            popup: self.popup,
            id_ctr: self.id_ctr,
        }
    }
}

impl Default for Audio {
    /// The resting state of [`Audio::new`].
    fn default() -> (r: Self)
        ensures
            r@ == (AudioView {
                is_open: IsOpen::Neither,
                current_output: None,
                current_input: None,
                outputs: Seq::empty(),
                inputs: Seq::empty(),
                pulse_state: PulseState::Init,
                icon_name: "audio-volume-high-symbolic"@,
                input_icon_name: "audio-input-microphone-symbolic"@,
                popup: None,
                id_ctr: 0,
            }),
            r.wf(),
    {
        Audio::new()
    }
}

/// First device in `s` carrying exactly the name `n`.
pub open spec fn find_by_name(s: Seq<DeviceInfoView>, n: Seq<char>) -> Option<DeviceInfoView>
    decreases s.len(),
{
    if s.len() == 0 {
        None
    } else if s[0].name == Some(n) {
        Some(s[0])
    } else {
        find_by_name(s.drop_first(), n)
    }
}

/// Result of one router step: the state after it and the commands it sends,
/// in order.
#[verifier::ext_equal]
pub ghost struct Step {
    pub post: AudioView,
    pub cmds: Seq<pulse::MessageView>,
}

/// Commands are sent only through an existing handle.
pub open spec fn has_handle(pre: AudioView) -> bool {
    pre.pulse_state.spec_connection() is Some
}

/// Popup toggle: close an open popup without commands; opening draws a fresh
/// window id and, when a handle exists, asks the worker to refresh the
/// connection and then re-requests defaults and both device lists, so the
/// view is consistent at the moment the popup becomes visible.
pub open spec fn spec_toggle_popup(pre: AudioView) -> Step {
    if pre.popup is Some {
        Step { post: AudioView { popup: None, ..pre }, cmds: Seq::empty() }
    } else {
        Step {
            post: AudioView {
                popup: Some((pre.id_ctr + 1) as u64),
                id_ctr: (pre.id_ctr + 1) as u64,
                ..pre
            },
            cmds: if has_handle(pre) {
                seq![
                    pulse::MessageView::UpdateConnection,
                    pulse::MessageView::GetDefaultSink,
                    pulse::MessageView::GetDefaultSource,
                    pulse::MessageView::GetSinks,
                    pulse::MessageView::GetSources,
                ]
            } else {
                Seq::empty()
            },
        }
    }
}

/// Output slider: optimistically broadcast the new level across the current
/// output's channels and recompute its icon at once; when the connection is
/// live and the device has a server-assigned name, send the full updated
/// volume by that name. An unnamed device gets the local update only.
pub open spec fn spec_set_output_volume(pre: AudioView, p: u32) -> Step {
    match pre.current_output {
        Some(d) => {
            let d2 = DeviceInfoView {
                volume: d.volume.set_to(d.volume.levels.len(), percent_level(p)),
                ..d
            };
            Step {
                post: AudioView {
                    current_output: Some(d2),
                    icon_name: spec_output_icon(Some(d2)),
                    ..pre
                },
                cmds: if pre.pulse_state is Connected && d2.name is Some {
                    seq![pulse::MessageView::SetSinkVolumeByName(d2.name->0, d2.volume)]
                } else {
                    Seq::empty()
                },
            }
        },
        None => Step {
            post: AudioView { icon_name: spec_output_icon(None), ..pre },
            cmds: Seq::empty(),
        },
    }
}

/// Input slider: same regime as the output slider, against the current
/// input device.
pub open spec fn spec_set_input_volume(pre: AudioView, p: u32) -> Step {
    match pre.current_input {
        Some(d) => {
            let d2 = DeviceInfoView {
                volume: d.volume.set_to(d.volume.levels.len(), percent_level(p)),
                ..d
            };
            Step {
                post: AudioView {
                    current_input: Some(d2),
                    input_icon_name: spec_input_icon(Some(d2)),
                    ..pre
                },
                cmds: if pre.pulse_state is Connected && d2.name is Some {
                    seq![pulse::MessageView::SetSourceVolumeByName(d2.name->0, d2.volume)]
                } else {
                    Seq::empty()
                },
            }
        },
        None => Step {
            post: AudioView { input_icon_name: spec_input_icon(None), ..pre },
            cmds: Seq::empty(),
        },
    }
}

/// Device pick: look the name up among the known devices of that side; when
/// a handle exists and the name is known, ask the server to make that full
/// device the default. The snapshot itself is not touched: it changes only
/// when the server confirms with its own event.
pub open spec fn spec_device_changed(pre: AudioView, n: Seq<char>, output: bool) -> Step {
    let found = find_by_name(if output { pre.outputs } else { pre.inputs }, n);
    Step {
        post: pre,
        cmds: if has_handle(pre) {
            match found {
                Some(d) => if output {
                    seq![pulse::MessageView::SetDefaultSink(d)]
                } else {
                    seq![pulse::MessageView::SetDefaultSource(d)]
                },
                None => Seq::empty(),
            }
        } else {
            Seq::empty()
        },
    }
}

/// Expansion toggle for one list: collapsing when it was expanded; opening
/// otherwise — which implicitly collapses the other list, the expansion
/// being one-of-three — and re-requesting that side's device list through an
/// existing handle so it is current at reveal time.
pub open spec fn spec_list_toggle(pre: AudioView, output: bool) -> Step {
    let open_state = if output {
        IsOpen::Output
    } else {
        IsOpen::Input
    };
    if pre.is_open == open_state {
        Step { post: AudioView { is_open: IsOpen::Neither, ..pre }, cmds: Seq::empty() }
    } else {
        Step {
            post: AudioView { is_open: open_state, ..pre },
            cmds: if has_handle(pre) {
                if output {
                    seq![pulse::MessageView::GetSinks]
                } else {
                    seq![pulse::MessageView::GetSources]
                }
            } else {
                Seq::empty()
            },
        }
    }
}

/// A server message applied to the snapshot. Lists replace wholesale —
/// the server is authoritative — with monitor taps filtered from sources;
/// a confirmed default replaces the current device and recomputes its icon
/// from the confirmed volume; requests echoed back are ignored.
pub open spec fn spec_message_received(pre: AudioView, pm: pulse::MessageView) -> Step {
    match pm {
        pulse::MessageView::SetSinks(l) => Step {
            post: AudioView { outputs: l, ..pre },
            cmds: Seq::empty(),
        },
        pulse::MessageView::SetSources(l) => Step {
            post: AudioView { inputs: spec_filter_sources(l), ..pre },
            cmds: Seq::empty(),
        },
        pulse::MessageView::SetDefaultSink(d) => Step {
            post: AudioView {
                current_output: Some(d),
                icon_name: spec_output_icon(Some(d)),
                ..pre
            },
            cmds: Seq::empty(),
        },
        pulse::MessageView::SetDefaultSource(d) => Step {
            post: AudioView {
                current_input: Some(d),
                input_icon_name: spec_input_icon(Some(d)),
                ..pre
            },
            cmds: Seq::empty(),
        },
        _ => Step { post: pre, cmds: Seq::empty() },
    }
}

/// A worker event. The one `Init` delivers the handle; `Connected` marks it
/// live and re-primes the whole snapshot with the four refresh requests;
/// `Disconnected` marks it down; a received server message goes to
/// [`spec_message_received`].
pub open spec fn spec_pulse_event(pre: AudioView, ev: EventView) -> Step {
    match ev {
        EventView::Init(c) => Step {
            post: AudioView { pulse_state: PulseState::Disconnected(c), ..pre },
            cmds: Seq::empty(),
        },
        EventView::Connected => {
            let ps = pre.pulse_state.spec_connected();
            Step {
                post: AudioView { pulse_state: ps, ..pre },
                cmds: if ps.spec_connection() is Some {
                    seq![
                        pulse::MessageView::GetSinks,
                        pulse::MessageView::GetSources,
                        pulse::MessageView::GetDefaultSink,
                        pulse::MessageView::GetDefaultSource,
                    ]
                } else {
                    Seq::empty()
                },
            }
        },
        EventView::Disconnected => Step {
            post: AudioView { pulse_state: pre.pulse_state.spec_disconnected(), ..pre },
            cmds: Seq::empty(),
        },
        EventView::MessageReceived(pm) => spec_message_received(pre, pm),
    }
}

/// The transition relation of the router: one message in, the next state
/// and the ordered outbound commands out.
pub open spec fn spec_step(pre: AudioView, m: MessageView) -> Step {
    match m {
        MessageView::SetOutputVolume(p) => spec_set_output_volume(pre, p),
        MessageView::SetInputVolume(p) => spec_set_input_volume(pre, p),
        MessageView::OutputToggle => spec_list_toggle(pre, true),
        MessageView::InputToggle => spec_list_toggle(pre, false),
        MessageView::OutputChanged(n) => spec_device_changed(pre, n, true),
        MessageView::InputChanged(n) => spec_device_changed(pre, n, false),
        MessageView::Pulse(ev) => spec_pulse_event(pre, ev),
        MessageView::TogglePopup => spec_toggle_popup(pre),
    }
}

/// Devices carried by an incoming message keep their volumes within server
/// limits; the host establishes this when it translates server callbacks.
pub open spec fn msg_wf(m: MessageView) -> bool {
    match m {
        MessageView::Pulse(EventView::MessageReceived(pm)) => match pm {
            pulse::MessageView::SetSinks(l) => forall|i: int|
                0 <= i < l.len() ==> (#[trigger] l[i]).wf(),
            pulse::MessageView::SetSources(l) => forall|i: int|
                0 <= i < l.len() ==> (#[trigger] l[i]).wf(),
            pulse::MessageView::SetDefaultSink(d) => d.wf(),
            pulse::MessageView::SetDefaultSource(d) => d.wf(),
            _ => true,
        },
        _ => true,
    }
}

/// The events the worker contract rules out: a second `Init` after the
/// handle exists, and the server's `Disconnected` message surfacing inside
/// `MessageReceived` (connection loss arrives as the `Disconnected` event
/// instead). Feeding either is a contract violation by the collaborator,
/// not a state the router handles.
pub open spec fn msg_legal(pre: AudioView, m: MessageView) -> bool {
    &&& (m matches MessageView::Pulse(EventView::Init(_)) ==> pre.pulse_state is Init)
    &&& !(m == MessageView::Pulse(
        EventView::MessageReceived(pulse::MessageView::Disconnected),
    ))
}

/// First device in `list` whose name is exactly `name`, as an independent
/// copy.
fn find_device(list: &Vec<DeviceInfo>, name: &String) -> (r: Option<DeviceInfo>)
    ensures
        match r {
            Some(d) => find_by_name(seq_device_views(list@), name@) == Some(d@),
            None => find_by_name(seq_device_views(list@), name@) is None,
        },
{
    let ghost vs = seq_device_views(list@);
    let mut i: usize = 0;
    let n = list.len();
    proof {
        assert(vs.skip(0) =~= vs);
    }
    while i < n
        invariant
            i <= n == list@.len(),
            vs == seq_device_views(list@),
            find_by_name(vs.skip(i as int), name@) == find_by_name(vs, name@),
        decreases n - i,
    {
        proof {
            assert(vs.skip(i as int).len() == n - i);
            assert(vs.skip(i as int)[0] == vs[i as int]);
            assert(vs[i as int] == list@[i as int]@);
            assert(vs.skip(i as int).drop_first() =~= vs.skip(i as int + 1));
        }
        let matches_name = match &list[i].name {
            Some(nm) => *nm == *name,
            None => false,
        };
        if matches_name {
            proof {
                assert(vs[i as int].name == Some(name@));
                assert(find_by_name(vs.skip(i as int), name@) == Some(vs[i as int]));
            }
            return Some(list[i].duplicate());
        }
        proof {
            assert(vs[i as int].name != Some(name@));
            assert(find_by_name(vs.skip(i as int), name@) == find_by_name(
                vs.skip(i as int + 1),
                name@,
            ));
        }
        i += 1;
    }
    proof {
        assert(vs.skip(n as int) =~= Seq::<DeviceInfoView>::empty());
        assert(find_by_name(vs.skip(n as int), name@) is None);
    }
    None
}

impl Audio {
    /// The state's own well-formedness: every held device within limits.
    pub open spec fn wf(self) -> bool {
        self@.wf()
    }

    /// The state the panel starts in: nothing known, nothing expanded, no
    /// handle yet, the resting icons shown until the first server word.
    pub fn new() -> (r: Audio)
        ensures
            r@ == (AudioView {
                is_open: IsOpen::Neither,
                current_output: None,
                current_input: None,
                outputs: Seq::empty(),
                inputs: Seq::empty(),
                pulse_state: PulseState::Init,
                icon_name: "audio-volume-high-symbolic"@,
                input_icon_name: "audio-input-microphone-symbolic"@,
                popup: None,
                id_ctr: 0,
            }),
            r.wf(),
    {
        let r = Audio {
            is_open: IsOpen::Neither,
            current_output: None,
            current_input: None,
            outputs: Vec::new(),
            inputs: Vec::new(),
            pulse_state: PulseState::Init,
            icon_name: "audio-volume-high-symbolic".to_string(),
            input_icon_name: "audio-input-microphone-symbolic".to_string(),
            popup: None,
            id_ctr: 0,
        };
        proof {
            assert(r@ =~= (AudioView {
                is_open: IsOpen::Neither,
                current_output: None,
                current_input: None,
                outputs: Seq::empty(),
                inputs: Seq::empty(),
                pulse_state: PulseState::Init,
                icon_name: "audio-volume-high-symbolic"@,
                input_icon_name: "audio-input-microphone-symbolic"@,
                popup: None,
                id_ctr: 0,
            }));
        }
        r
    }

    /// Recompute the output icon from the current output device; the muted
    /// icon stands in when no output is selected.
    pub fn apply_output_volume(&mut self)
        requires
            match old(self)@.current_output {
                Some(d) => d.wf(),
                None => true,
            },
        ensures
            final(self)@ == (AudioView {
                icon_name: spec_output_icon(old(self)@.current_output),
                ..old(self)@
            }),
    {
        let tier = match &self.current_output {
            Some(o) => output_tier(&o.volume),
            None => IconTier::Muted,
        };
        self.icon_name = output_icon_name(tier);
        proof {
            assert(self@ =~= (AudioView {
                icon_name: spec_output_icon(old(self)@.current_output),
                ..old(self)@
            }));
        }
    }

    /// Recompute the input icon from the current input device; the muted
    /// icon stands in when no input is selected.
    pub fn apply_input_volume(&mut self)
        requires
            match old(self)@.current_input {
                Some(d) => d.wf(),
                None => true,
            },
        ensures
            final(self)@ == (AudioView {
                input_icon_name: spec_input_icon(old(self)@.current_input),
                ..old(self)@
            }),
    {
        let tier = match &self.current_input {
            Some(i) => input_tier(&i.volume),
            None => IconTier::Muted,
        };
        self.input_icon_name = input_icon_name(tier);
        proof {
            assert(self@ =~= (AudioView {
                input_icon_name: spec_input_icon(old(self)@.current_input),
                ..old(self)@
            }));
        }
    }

    /// Replace the current output and recompute its icon.
    pub fn update_output(&mut self, output: Option<DeviceInfo>)
        requires
            match output {
                Some(d) => d.wf(),
                None => true,
            },
        ensures
            final(self)@ == (AudioView {
                current_output: match output {
                    Some(d) => Some(d@),
                    None => None,
                },
                icon_name: spec_output_icon(
                    match output {
                        Some(d) => Some(d@),
                        None => None,
                    },
                ),
                ..old(self)@
            }),
    {
        self.current_output = output;
        self.apply_output_volume();
    }

    /// Replace the current input and recompute its icon.
    pub fn update_input(&mut self, input: Option<DeviceInfo>)
        requires
            match input {
                Some(d) => d.wf(),
                None => true,
            },
        ensures
            final(self)@ == (AudioView {
                current_input: match input {
                    Some(d) => Some(d@),
                    None => None,
                },
                input_icon_name: spec_input_icon(
                    match input {
                        Some(d) => Some(d@),
                        None => None,
                    },
                ),
                ..old(self)@
            }),
    {
        self.current_input = input;
        self.apply_input_volume();
    }

    /// Rows of an expanded device list as the host renders them: for each
    /// device its server name — empty when it has none, making the row
    /// unpickable — and its display name.
    fn device_entries(list: &Vec<DeviceInfo>) -> (r: Vec<(String, String)>)
        ensures
            r@.len() == seq_device_views(list@).len(),
            forall|i: int|
                0 <= i < r@.len() ==> {
                    &&& (#[trigger] r@[i]).0@ == match seq_device_views(list@)[i].name {
                        Some(n) => n,
                        None => Seq::<char>::empty(),
                    }
                    &&& r@[i].1@ == match seq_device_views(list@)[i].description {
                        Some(d) => d,
                        None => "Generic"@,
                    }
                },
    {
        let mut out: Vec<(String, String)> = Vec::new();
        let mut i: usize = 0;
        let n = list.len();
        while i < n
            invariant
                i <= n == list@.len(),
                out@.len() == i,
                forall|j: int|
                    0 <= j < i ==> {
                        &&& (#[trigger] out@[j]).0@ == match seq_device_views(list@)[j].name {
                            Some(nm) => nm,
                            None => Seq::<char>::empty(),
                        }
                        &&& out@[j].1@ == match seq_device_views(list@)[j].description {
                            Some(d) => d,
                            None => "Generic"@,
                        }
                    },
            decreases n - i,
        {
            proof {
                assert(seq_device_views(list@)[i as int] == list@[i as int]@);
            }
            let name = match &list[i].name {
                Some(nm) => nm.clone(),
                None => String::new(),
            };
            let description = match &list[i].description {
                Some(d) => Some(d.clone()),
                None => None,
            };
            out.push((name, crate::pretty_name(description)));
            i += 1;
        }
        out
    }

    /// Rows of the expanded output list.
    pub fn output_entries(&self) -> (r: Vec<(String, String)>)
        ensures
            r@.len() == self@.outputs.len(),
            forall|i: int|
                0 <= i < r@.len() ==> {
                    &&& (#[trigger] r@[i]).0@ == match self@.outputs[i].name {
                        Some(n) => n,
                        None => Seq::<char>::empty(),
                    }
                    &&& r@[i].1@ == match self@.outputs[i].description {
                        Some(d) => d,
                        None => "Generic"@,
                    }
                },
    {
        Self::device_entries(&self.outputs)
    }

    /// Rows of the expanded input list.
    pub fn input_entries(&self) -> (r: Vec<(String, String)>)
        ensures
            r@.len() == self@.inputs.len(),
            forall|i: int|
                0 <= i < r@.len() ==> {
                    &&& (#[trigger] r@[i]).0@ == match self@.inputs[i].name {
                        Some(n) => n,
                        None => Seq::<char>::empty(),
                    }
                    &&& r@[i].1@ == match self@.inputs[i].description {
                        Some(d) => d,
                        None => "Generic"@,
                    }
                },
    {
        Self::device_entries(&self.inputs)
    }

    /// Apply one message: mutate the state exactly as [`spec_step`]
    /// prescribes and return the commands to forward to the worker, in the
    /// order they must be sent.
    pub fn update(&mut self, message: Message) -> (cmds: Vec<pulse::Message>)
        requires
            old(self).wf(),
            msg_wf(message@),
            msg_legal(old(self)@, message@),
            message@ == MessageView::TogglePopup && old(self)@.popup is None ==> old(
                self,
            ).id_ctr < u64::MAX,
        ensures
            final(self)@ == spec_step(old(self)@, message@).post,
            message_views(cmds@) == spec_step(old(self)@, message@).cmds,
            final(self).wf(),
    {
        let ghost step = spec_step(old(self)@, message@);
        let mut out: Vec<pulse::Message> = Vec::new();
        match message {
            Message::TogglePopup => {
                if self.popup.is_some() {
                    self.popup = None;
                } else {
                    if self.pulse_state.connection().is_some() {
                        out.push(pulse::Message::UpdateConnection);
                    }
                    self.id_ctr = self.id_ctr + 1;
                    self.popup = Some(self.id_ctr);
                    if self.pulse_state.connection().is_some() {
                        out.push(pulse::Message::GetDefaultSink);
                        out.push(pulse::Message::GetDefaultSource);
                        out.push(pulse::Message::GetSinks);
                        out.push(pulse::Message::GetSources);
                    }
                }
                proof {
                    assert(self@ =~= step.post);
                    assert(message_views(out@) =~= step.cmds);
                }
            },
            Message::SetOutputVolume(p) => {
                let level = percent_to_level(p);
                match &mut self.current_output {
                    Some(o) => {
                        let n = o.volume.len();
                        o.volume.set(n, level);
                    },
                    None => {},
                }
                self.apply_output_volume();
                if let PulseState::Connected(_) = self.pulse_state {
                    if let Some(device) = &self.current_output {
                        if let Some(name) = &device.name {
                            out.push(
                                pulse::Message::SetSinkVolumeByName(
                                    name.clone(),
                                    device.volume.duplicate(),
                                ),
                            );
                        }
                    }
                }
                proof {
                    assert(self@ =~= step.post);
                    assert(message_views(out@) =~= step.cmds);
                }
            },
            Message::SetInputVolume(p) => {
                let level = percent_to_level(p);
                match &mut self.current_input {
                    Some(o) => {
                        let n = o.volume.len();
                        o.volume.set(n, level);
                    },
                    None => {},
                }
                self.apply_input_volume();
                if let PulseState::Connected(_) = self.pulse_state {
                    if let Some(device) = &self.current_input {
                        if let Some(name) = &device.name {
                            out.push(
                                pulse::Message::SetSourceVolumeByName(
                                    name.clone(),
                                    device.volume.duplicate(),
                                ),
                            );
                        }
                    }
                }
                proof {
                    assert(self@ =~= step.post);
                    assert(message_views(out@) =~= step.cmds);
                }
            },
            Message::OutputChanged(val) => {
                if self.pulse_state.connection().is_some() {
                    match find_device(&self.outputs, &val) {
                        Some(d) => out.push(pulse::Message::SetDefaultSink(d)),
                        None => {},
                    }
                }
                proof {
                    assert(self@ =~= step.post);
                    assert(message_views(out@) =~= step.cmds);
                }
            },
            Message::InputChanged(val) => {
                if self.pulse_state.connection().is_some() {
                    match find_device(&self.inputs, &val) {
                        Some(d) => out.push(pulse::Message::SetDefaultSource(d)),
                        None => {},
                    }
                }
                proof {
                    assert(self@ =~= step.post);
                    assert(message_views(out@) =~= step.cmds);
                }
            },
            Message::OutputToggle => {
                if self.is_open == IsOpen::Output {
                    self.is_open = IsOpen::Neither;
                } else {
                    if self.pulse_state.connection().is_some() {
                        out.push(pulse::Message::GetSinks);
                    }
                    self.is_open = IsOpen::Output;
                }
                proof {
                    assert(self@ =~= step.post);
                    assert(message_views(out@) =~= step.cmds);
                }
            },
            Message::InputToggle => {
                if self.is_open == IsOpen::Input {
                    self.is_open = IsOpen::Neither;
                } else {
                    if self.pulse_state.connection().is_some() {
                        out.push(pulse::Message::GetSources);
                    }
                    self.is_open = IsOpen::Input;
                }
                proof {
                    assert(self@ =~= step.post);
                    assert(message_views(out@) =~= step.cmds);
                }
            },
            Message::Pulse(event) => {
                match event {
                    Event::Init(conn) => {
                        self.pulse_state = PulseState::Disconnected(conn);
                        proof {
                            assert(self@ =~= step.post);
                            assert(message_views(out@) =~= step.cmds);
                        }
                    },
                    Event::Connected => {
                        self.pulse_state.connected();
                        if self.pulse_state.connection().is_some() {
                            out.push(pulse::Message::GetSinks);
                            out.push(pulse::Message::GetSources);
                            out.push(pulse::Message::GetDefaultSink);
                            out.push(pulse::Message::GetDefaultSource);
                        }
                        proof {
                            assert(self@ =~= step.post);
                            assert(message_views(out@) =~= step.cmds);
                        }
                    },
                    Event::Disconnected => {
                        self.pulse_state.disconnected();
                        proof {
                            assert(self@ =~= step.post);
                            assert(message_views(out@) =~= step.cmds);
                        }
                    },
                    Event::MessageReceived(msg) => {
                        match msg {
                            pulse::Message::SetSinks(sinks) => {
                                self.outputs = sinks;
                                proof {
                                    assert(self@ =~= step.post);
                                    assert(message_views(out@) =~= step.cmds);
                                }
                            },
                            pulse::Message::SetSources(sources) => {
                                self.inputs = filter_sources(sources);
                                proof {
                                    assert(self@ =~= step.post);
                                    assert(message_views(out@) =~= step.cmds);
                                }
                            },
                            pulse::Message::SetDefaultSink(sink) => {
                                self.update_output(Some(sink));
                                proof {
                                    assert(self@ =~= step.post);
                                    assert(message_views(out@) =~= step.cmds);
                                }
                            },
                            pulse::Message::SetDefaultSource(source) => {
                                self.update_input(Some(source));
                                proof {
                                    assert(self@ =~= step.post);
                                    assert(message_views(out@) =~= step.cmds);
                                }
                            },
                            pulse::Message::Disconnected => {
                                proof {
                                    assert(false);
                                }
                            },
                            _ => {
                                proof {
                                    assert(self@ =~= step.post);
                                    assert(message_views(out@) =~= step.cmds);
                                }
                            },
                        }
                    },
                }
            },
        }
        out
    }
}

} // verus!
