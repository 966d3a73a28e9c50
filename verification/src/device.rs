//! One sink or source as the snapshot holds it: an optional server-assigned
//! name, an optional human-readable description, and its volume. A device
//! without a name cannot be targeted by name-based commands. Sources whose
//! description marks them as a monitor/loopback tap of a sink are filtered
//! out of the user-facing input list.

use vstd::prelude::*;

use crate::volume::Volume;
use crate::volume::VolumeView;

verus! {

/// Mathematical model of a [`DeviceInfo`].
#[verifier::ext_equal]
pub ghost struct DeviceInfoView {
    pub name: Option<Seq<char>>,
    pub description: Option<Seq<char>>,
    pub volume: VolumeView,
}

impl DeviceInfoView {
    pub open spec fn wf(self) -> bool {
        self.volume.wf()
    }

    /// The description marks this source as a monitor/loopback tap.
    pub open spec fn is_monitor(self) -> bool {
        match self.description {
            Some(d) => contains_monitor_marker(d),
            None => false,
        }
    }
}

/// The marker substring occurs somewhere in `s`.
pub open spec fn contains_monitor_marker(s: Seq<char>) -> bool {
    exists|i: int| 0 <= i && i + 7 <= s.len() && #[trigger] s.subrange(i, i + 7) == "monitor"@
}

/// One sink or source.
#[derive(Debug)]
pub struct DeviceInfo {
    /// Stable server-assigned identifier; absent devices cannot be targeted
    /// by name-based commands.
    pub name: Option<String>,
    /// Human-readable description.
    pub description: Option<String>,
    /// Per-channel volume plus mute flag.
    pub volume: Volume,
}

impl View for DeviceInfo {
    type V = DeviceInfoView;

    open spec fn view(&self) -> DeviceInfoView {
        DeviceInfoView {
            name: match self.name {
                Some(n) => Some(n@),
                None => None,
            },
            description: match self.description {
                Some(d) => Some(d@),
                None => None,
            },
            volume: self.volume@,
        }
    }
}

impl DeviceInfo {
    pub open spec fn wf(self) -> bool {
        self@.wf()
    }

    pub fn new(name: Option<String>, description: Option<String>, volume: Volume) -> (r: DeviceInfo)
        ensures
            r@ == (DeviceInfoView {
                name: match name {
                    Some(n) => Some(n@),
                    None => None,
                },
                description: match description {
                    Some(d) => Some(d@),
                    None => None,
                },
                volume: volume@,
            }),
    {
        DeviceInfo { name, description, volume }
    }

    /// An independent copy with the same model.
    pub fn duplicate(&self) -> (r: DeviceInfo)
        ensures
            r@ == self@,
    {
        let name = match &self.name {
            Some(n) => Some(n.clone()),
            None => None,
        };
        let description = match &self.description {
            Some(d) => Some(d.clone()),
            None => None,
        };
        let r = DeviceInfo { name, description, volume: self.volume.duplicate() };
        proof {
            assert(r@ =~= self@);
        }
        r
    }

    /// The device's description marks it as a monitor/loopback source.
    pub fn is_monitor(&self) -> (r: bool)
        ensures
            r == self@.is_monitor(),
    {
        match &self.description {
            Some(d) => str_contains_monitor_marker(d.as_str()),
            None => false,
        }
    }
}

/// Views of a sequence of devices.
pub open spec fn seq_device_views(s: Seq<DeviceInfo>) -> Seq<DeviceInfoView> {
    s.map_values(|d: DeviceInfo| d@)
}

/// The filter a raw source list passes before it becomes the user-facing
/// input list: monitor/loopback taps are dropped, everything else kept in
/// order.
pub open spec fn spec_filter_sources(s: Seq<DeviceInfoView>) -> Seq<DeviceInfoView> {
    s.filter(|d: DeviceInfoView| !d.is_monitor())
}

/// Drop every monitor/loopback source from a raw server list, keeping order.
pub fn filter_sources(sources: Vec<DeviceInfo>) -> (r: Vec<DeviceInfo>)
    ensures
        seq_device_views(r@) == spec_filter_sources(seq_device_views(sources@)),
        (forall|i: int| 0 <= i < sources@.len() ==> (#[trigger] seq_device_views(sources@)[i]).wf())
            ==> (forall|i: int| 0 <= i < r@.len() ==> (#[trigger] seq_device_views(r@)[i]).wf()),
{
    let ghost vs = seq_device_views(sources@);
    let ghost pred = |d: DeviceInfoView| !d.is_monitor();
    let mut out: Vec<DeviceInfo> = Vec::new();
    let mut i: usize = 0;
    let n = sources.len();
    while i < n
        invariant
            i <= n == sources@.len(),
            vs == seq_device_views(sources@),
            pred == (|d: DeviceInfoView| !d.is_monitor()),
            seq_device_views(out@) == vs.take(i as int).filter(pred),
            (forall|k: int| 0 <= k < vs.len() ==> (#[trigger] vs[k]).wf()) ==> (forall|k: int|
                0 <= k < out@.len() ==> (#[trigger] seq_device_views(out@)[k]).wf()),
        decreases n - i,
    {
        let ghost prev = seq_device_views(out@);
        let keep = !sources[i].is_monitor();
        if keep {
            let d = sources[i].duplicate();
            out.push(d);
            proof {
                assert(seq_device_views(out@) =~= prev.push(sources@[i as int]@));
            }
        }
        proof {
            reveal(Seq::filter);
            assert(vs.take(i as int + 1).drop_last() =~= vs.take(i as int));
            assert(vs.take(i as int + 1).last() == vs[i as int]);
            assert(seq_device_views(out@) =~= vs.take(i as int + 1).filter(pred));
        }
        i += 1;
    }
    proof {
        assert(vs.take(n as int) =~= vs);
    }
    out
}

/// Whether the monitor marker occurs in `s`, by scanning every position.
fn str_contains_monitor_marker(s: &str) -> (r: bool)
    ensures
        r == contains_monitor_marker(s@),
{
    proof {
        reveal_strlit("monitor");
    }
    let n = s.unicode_len();
    if n < 7 {
        proof {
            if contains_monitor_marker(s@) {
                let i = choose|i: int|
                    0 <= i && i + 7 <= s@.len() && #[trigger] s@.subrange(i, i + 7) == "monitor"@;
                assert(false);
            }
        }
        return false;
    }
    let mut i: usize = 0;
    while i <= n - 7
        invariant
            7 <= n == s@.len(),
            i <= n - 7 + 1,
            "monitor"@.len() == 7,
            forall|j: int| 0 <= j < i ==> #[trigger] s@.subrange(j, j + 7) != "monitor"@,
        decreases n - i,
    {
        if s.get_char(i) == 'm' && s.get_char(i + 1) == 'o' && s.get_char(i + 2) == 'n'
            && s.get_char(i + 3) == 'i' && s.get_char(i + 4) == 't' && s.get_char(i + 5) == 'o'
            && s.get_char(i + 6) == 'r' {
            proof {
                reveal_strlit("monitor");
                assert(s@.subrange(i as int, i as int + 7) =~= "monitor"@);
            }
            return true;
        }
        proof {
            reveal_strlit("monitor");
            let sub = s@.subrange(i as int, i as int + 7);
            assert(sub.len() == 7);
            if sub == "monitor"@ {
                assert(sub[0] == 'm' && sub[1] == 'o' && sub[2] == 'n' && sub[3] == 'i' && sub[4]
                    == 't' && sub[5] == 'o' && sub[6] == 'r');
                assert(false);
            }
        }
        i += 1;
    }
    proof {
        assert forall|j: int| 0 <= j && j + 7 <= s@.len() implies #[trigger] s@.subrange(j, j + 7)
            != "monitor"@ by {
            assert(j < i);
        }
    }
    false
}

} // verus!
