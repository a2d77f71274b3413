//! Microphone inputs: how a device's supported configurations are
//! summarized, how a device is described, and which device a recording
//! asks for.
use vstd::prelude::*;
use crate::text::{chars_of, push_str, trim, trim_chars};

verus! {

/// The sample rate that transcription works at.
pub const TARGET_SAMPLE_RATE: u32 = 16_000;

#[derive(Debug, Clone)]
pub struct AudioInputDevice {
    pub id: String,
    pub name: String,
    pub is_default: bool,
    pub channels: Vec<u16>,
    pub min_sample_rate: Option<u32>,
    pub max_sample_rate: Option<u32>,
}

/// One input configuration that a device supports.
#[derive(Debug, Clone, Copy, PartialEq, Eq, Structural)]
pub struct SupportedConfigRange {
    pub channels: u16,
    pub min_sample_rate: u32,
    pub max_sample_rate: u32,
}

/// The channel counts and sample-rate bounds over all of a device's
/// supported configurations.
#[derive(Debug, Clone)]
pub struct SupportedSummary {
    pub channels: Vec<u16>,
    pub min_sample_rate: Option<u32>,
    pub max_sample_rate: Option<u32>,
}

/// The smallest minimum rate of `cs`, if there is a configuration.
pub open spec fn lowest_rate(cs: Seq<SupportedConfigRange>) -> Option<u32>
    decreases cs.len(),
{
    if cs.len() == 0 {
        None
    } else {
        let r = cs.last().min_sample_rate;
        match lowest_rate(cs.drop_last()) {
            None => Some(r),
            Some(v) => Some(if v <= r { v } else { r }),
        }
    }
}

/// The largest maximum rate of `cs`, if there is a configuration.
pub open spec fn highest_rate(cs: Seq<SupportedConfigRange>) -> Option<u32>
    decreases cs.len(),
{
    if cs.len() == 0 {
        None
    } else {
        let r = cs.last().max_sample_rate;
        match highest_rate(cs.drop_last()) {
            None => Some(r),
            Some(v) => Some(if v >= r { v } else { r }),
        }
    }
}

/// `s` is strictly increasing.
pub open spec fn strictly_increasing(s: Seq<u16>) -> bool {
    forall|i: int, j: int| 0 <= i < j < s.len() ==> s[i] < s[j]
}

/// `s` lists, in increasing order and once each, the channel counts of
/// `cs`.
pub open spec fn channel_list_of(s: Seq<u16>, cs: Seq<SupportedConfigRange>) -> bool {
    &&& strictly_increasing(s)
    &&& forall|c: u16| s.contains(c) <==> exists|k: int| 0 <= k < cs.len() && #[trigger] cs[k].channels == c
}

/// `s` with `c` added in order, when it is not there yet.
fn insert_channel(s: &mut Vec<u16>, c: u16)
    requires
        strictly_increasing(old(s)@),
    ensures
        strictly_increasing(final(s)@),
        forall|x: u16| final(s)@.contains(x) <==> (old(s)@.contains(x) || x == c),
{
    let mut p: usize = 0;
    while p < s.len() && s[p] < c
        invariant
            p <= s.len(),
            forall|k: int| 0 <= k < p ==> s@[k] < c,
        decreases s.len() - p,
    {
        p = p + 1;
    }
    if p < s.len() && s[p] == c {
        return;
    }
    let ghost before = s@;
    s.insert(p, c);
    assert(s@ =~= before.insert(p as int, c));
    proof {
        before.insert_ensures(p as int, c);
    }
    assert forall|x: u16| s@.contains(x) <==> (before.contains(x) || x == c) by {
        if s@.contains(x) {
            let k = choose|k: int| 0 <= k < s@.len() && s@[k] == x;
            if k < p {
                assert(before[k] == x);
            } else if k > p {
                assert(before[k - 1] == x);
            }
        }
        if before.contains(x) {
            let k = choose|k: int| 0 <= k < before.len() && before[k] == x;
            if k < p {
                assert(s@[k] == x);
            } else {
                assert(s@[k + 1] == x);
            }
        }
        if x == c {
            assert(s@[p as int] == c);
        }
    }
}

/// Summarizes the supported configurations of a device.
pub fn supported_summary(configs: &Vec<SupportedConfigRange>) -> (s: SupportedSummary)
    ensures
        channel_list_of(s.channels@, configs@),
        s.min_sample_rate == lowest_rate(configs@),
        s.max_sample_rate == highest_rate(configs@),
{
    let mut channels: Vec<u16> = Vec::new();
    let mut min_rate: Option<u32> = None;
    let mut max_rate: Option<u32> = None;
    let mut i: usize = 0;
    while i < configs.len()
        invariant
            i <= configs.len(),
            channel_list_of(channels@, configs@.take(i as int)),
            min_rate == lowest_rate(configs@.take(i as int)),
            max_rate == highest_rate(configs@.take(i as int)),
        decreases configs.len() - i,
    {
        let config = configs[i];
        let ghost prefix = configs@.take(i as int);
        let ghost next = configs@.take(i + 1);
        assert(next.drop_last() =~= prefix);
        assert(next.last() == config);
        insert_channel(&mut channels, config.channels);
        assert forall|c: u16| channels@.contains(c) <==> exists|k: int|
            0 <= k < next.len() && #[trigger] next[k].channels == c by {
            if exists|k: int| 0 <= k < next.len() && #[trigger] next[k].channels == c {
                let k = choose|k: int| 0 <= k < next.len() && #[trigger] next[k].channels == c;
                if k < i {
                    assert(prefix[k].channels == c);
                }
            }
            if exists|k: int| 0 <= k < prefix.len() && #[trigger] prefix[k].channels == c {
                let k = choose|k: int| 0 <= k < prefix.len() && #[trigger] prefix[k].channels == c;
                assert(next[k].channels == c);
            }
            if c == config.channels {
                assert(next[i as int].channels == c);
            }
        }
        min_rate = match min_rate {
            None => Some(config.min_sample_rate),
            Some(v) => Some(
                if v <= config.min_sample_rate {
                    v
                } else {
                    config.min_sample_rate
                },
            ),
        };
        max_rate = match max_rate {
            None => Some(config.max_sample_rate),
            Some(v) => Some(
                if v >= config.max_sample_rate {
                    v
                } else {
                    config.max_sample_rate
                },
            ),
        };
        i = i + 1;
    }
    assert(configs@.take(configs.len() as int) =~= configs@);
    SupportedSummary { channels, min_sample_rate: min_rate, max_sample_rate: max_rate }
}

impl AudioInputDevice {
    /// The description of the device called `name`, given the name of the
    /// default input device (if there is one).
    pub fn describe(name: &str, default_name: Option<&str>, summary: SupportedSummary) -> (d: Self)
        ensures
            d.id@ == name@,
            d.name@ == name@,
            d.is_default == (default_name matches Some(n) && n@ == name@),
            d.channels@ == summary.channels@,
            d.min_sample_rate == summary.min_sample_rate,
            d.max_sample_rate == summary.max_sample_rate,
    {
        let id = String::from_str(name);
        let is_default = match default_name {
            Some(n) => String::from_str(n) == id,
            None => false,
        };
        AudioInputDevice {
            id,
            name: String::from_str(name),
            is_default,
            channels: summary.channels,
            min_sample_rate: summary.min_sample_rate,
            max_sample_rate: summary.max_sample_rate,
        }
    }
}

/// The device name to look for: the given id when it holds something
/// besides white space; `None` asks for the default input device.
pub fn requested_device(input_device_id: Option<&str>) -> (r: Option<String>)
    ensures
        match input_device_id {
            Some(id) => if trim(id@).len() > 0 {
                r matches Some(s) && s@ == id@
            } else {
                r is None
            },
            None => r is None,
        },
{
    match input_device_id {
        Some(id) => {
            let v = chars_of(id);
            let t = trim_chars(&v);
            if t.len() > 0 {
                Some(String::from_str(id))
            } else {
                None
            }
        },
        None => None,
    }
}

#[derive(Debug, Clone)]
pub enum AudioError {
    /// The input devices could not be listed; the text is the reason.
    Enumerate(String),
    DeviceName(String),
    NoInputDevice,
    DeviceNotFound(String),
    DefaultConfig(String),
    SupportedConfig(String),
    UnsupportedSampleFormat(String),
    BuildStream(String),
    PlayStream(String),
    AlreadyRecording,
    NotRecording,
    LockPoisoned,
}

/// The message of an audio error.
pub open spec fn audio_error_message(e: AudioError) -> Seq<char> {
    match e {
        AudioError::Enumerate(d) => "failed to enumerate input devices: "@ + d@,
        AudioError::DeviceName(d) => "failed to read input device name: "@ + d@,
        AudioError::NoInputDevice => "no input device is available"@,
        AudioError::DeviceNotFound(d) => "input device not found: "@ + d@,
        AudioError::DefaultConfig(d) => "failed to read default input config: "@ + d@,
        AudioError::SupportedConfig(d) => "failed to inspect supported input config: "@ + d@,
        AudioError::UnsupportedSampleFormat(d) => "input sample format is not supported: "@ + d@,
        AudioError::BuildStream(d) => "failed to build input stream: "@ + d@,
        AudioError::PlayStream(d) => "failed to start input stream: "@ + d@,
        AudioError::AlreadyRecording => "a recording is already active"@,
        AudioError::NotRecording => "there is no active recording"@,
        AudioError::LockPoisoned => "audio state lock was poisoned"@,
    }
}

impl AudioError {
    /// The error's message.
    pub fn message(&self) -> (m: String)
        ensures
            m@ == audio_error_message(*self),
    {
        let (prefix, detail): (&str, Option<&String>) = match self {
            AudioError::Enumerate(d) => ("failed to enumerate input devices: ", Some(d)),
            AudioError::DeviceName(d) => ("failed to read input device name: ", Some(d)),
            AudioError::NoInputDevice => ("no input device is available", None),
            AudioError::DeviceNotFound(d) => ("input device not found: ", Some(d)),
            AudioError::DefaultConfig(d) => ("failed to read default input config: ", Some(d)),
            AudioError::SupportedConfig(d) => ("failed to inspect supported input config: ", Some(d)),
            AudioError::UnsupportedSampleFormat(d) => ("input sample format is not supported: ", Some(d)),
            AudioError::BuildStream(d) => ("failed to build input stream: ", Some(d)),
            AudioError::PlayStream(d) => ("failed to start input stream: ", Some(d)),
            AudioError::AlreadyRecording => ("a recording is already active", None),
            AudioError::NotRecording => ("there is no active recording", None),
            AudioError::LockPoisoned => ("audio state lock was poisoned", None),
        };
        let mut m = String::from_str(prefix);
        match detail {
            Some(d) => push_str(&mut m, d.as_str()),
            None => {
                assert(m@ =~= prefix@ + Seq::<char>::empty());
            },
        }
        m
    }
}

} // verus!
