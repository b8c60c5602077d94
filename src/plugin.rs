use vstd::prelude::*;

verus! {

/// Relies on `uuid::Uuid` as an opaque value: the plugin's class identifier,
/// carried through and never inspected here.
#[verifier::external_type_specification]
#[verifier::external_body]
pub struct ExUuid(uuid::Uuid);

/// Relies on `uuid::Uuid`'s derived `Clone` (the type is also `Copy`): a
/// clone is the same identifier.
pub assume_specification[ <uuid::Uuid as Clone>::clone ](u: &uuid::Uuid) -> (r: uuid::Uuid)
    ensures
        r == *u,
;

/// The plugin information.
#[derive(Clone, Debug)]
pub struct Info {
    /// The unique identifier of the plugin.
    pub uuid: uuid::Uuid,
    /// The name of the plugin; hosts take at most 128 characters.
    pub name: String,
    /// The subcategories of the plugin.
    pub subcategories: Vec<Subcategory>,
    /// The vendor of the plugin; hosts take at most 128 characters.
    pub vendor: String,
    /// The version of the plugin; hosts take at most 64 characters.
    pub version: String,
    /// The URL of the plugin; hosts take at most 128 characters.
    pub url: String,
    /// The email of the plugin; hosts take at most 128 characters.
    pub email: String,
}

/// `parts` joined with `|` between each two.
pub open spec fn joined(parts: Seq<Seq<char>>) -> Seq<char>
    decreases parts.len(),
{
    if parts.len() == 0 {
        Seq::empty()
    } else if parts.len() == 1 {
        parts[0]
    } else {
        joined(parts.drop_last()) + seq!['|'] + parts.last()
    }
}

impl Info {
    /// The subcategory names as hosts read them: joined with `|`.
    pub fn subcategory_list(&self) -> (r: String)
        ensures
            r@ == joined(self.subcategories@.map_values(|c: Subcategory| c.name())),
    {
        let ghost names = self.subcategories@.map_values(|c: Subcategory| c.name());
        let mut r = String::new();
        let mut i: usize = 0;
        while i < self.subcategories.len()
            invariant
                i <= self.subcategories@.len(),
                names == self.subcategories@.map_values(|c: Subcategory| c.name()),
                r@ == joined(names.subrange(0, i as int)),
            decreases self.subcategories@.len() - i,
        {
            proof {
                reveal_strlit("|");
            }
            let ghost before = r@;
            if i > 0 {
                r = r.concat("|");
            }
            r = r.concat(self.subcategories[i].as_str());
            proof {
                let next = names.subrange(0, i + 1);
                assert(next.drop_last() =~= names.subrange(0, i as int));
                if i == 0 {
                    assert(r@ =~= joined(next));
                } else {
                    assert(r@ =~= joined(next));
                }
            }
            i = i + 1;
        }
        assert(names.subrange(0, i as int) =~= names);
        r
    }
}

/// What the plugin reports once activated.
#[derive(Clone, Debug)]
pub struct Activate {
    /// The number of latency samples.
    pub latency: u32,
}

impl Activate {
    /// A configuration without latency.
    pub fn new() -> (r: Self)
        ensures
            r.latency == 0,
    {
        Activate { latency: 0 }
    }

    /// Set the latency of the processing.
    pub fn with_latency(self, latency: u32) -> (r: Self)
        ensures
            r.latency == latency,
    {
        Activate { latency }
    }
}

impl Default for Activate {
    fn default() -> (r: Self)
        ensures
            r.latency == 0,
    {
        Self::new()
    }
}

/// The processing status after processing a buffer.
#[derive(Clone, Copy, Debug, PartialEq, Eq, Structural)]
pub enum Process {
    /// The processing is done.
    Done,
    /// A finite number of samples still need to be processed, eg. for reverb.
    Tail(u32),
    /// Keep the processing state running.
    KeepAlive,
}

impl Process {
    /// The samples still to come that a status reports.
    pub open spec fn tail(self) -> u32 {
        match self {
            Process::Done => 0,
            Process::Tail(n) => n,
            Process::KeepAlive => u32::MAX,
        }
    }

    /// The remaining tail length for the host: none when done, the given
    /// count for a tail, and the largest count when kept alive.
    pub fn tail_samples(&self) -> (r: u32)
        ensures
            r == self.tail(),
    {
        match self {
            Process::Done => 0,
            Process::Tail(n) => *n,
            Process::KeepAlive => u32::MAX,
        }
    }
}

/// The category of the plugin.
#[derive(Clone, Copy, Debug)]
pub enum Subcategory {
    Fx,
    Instrument,
    Spatial,
    Analyzer,
    Delay,
    Distortion,
    Drum,
    Dynamics,
    Eq,
    External,
    Filter,
    Generator,
    Mastering,
    Modulation,
    Network,
    Piano,
    PitchShift,
    Restoration,
    Reverb,
    Sampler,
    Synth,
    Tools,
    UpDownMix,
    Mono,
    Stereo,
    Surround,
    Ambisonic,
    Custom(&'static str),
}

impl Subcategory {
    /// The name hosts know the category by.
    pub open spec fn name(self) -> Seq<char> {
        match self {
        Subcategory::Fx => "Fx"@,
        Subcategory::Instrument => "Instrument"@,
        Subcategory::Spatial => "Spatial"@,
        Subcategory::Analyzer => "Analyzer"@,
        Subcategory::Delay => "Delay"@,
        Subcategory::Distortion => "Distortion"@,
        Subcategory::Drum => "Drum"@,
        Subcategory::Dynamics => "Dynamics"@,
        Subcategory::Eq => "EQ"@,
        Subcategory::External => "External"@,
        Subcategory::Filter => "Filter"@,
        Subcategory::Generator => "Generator"@,
        Subcategory::Mastering => "Mastering"@,
        Subcategory::Modulation => "Modulation"@,
        Subcategory::Network => "Network"@,
        Subcategory::Piano => "Piano"@,
        Subcategory::PitchShift => "Pitch Shift"@,
        Subcategory::Restoration => "Restoration"@,
        Subcategory::Reverb => "Reverb"@,
        Subcategory::Sampler => "Sampler"@,
        Subcategory::Synth => "Synth"@,
        Subcategory::Tools => "Tools"@,
        Subcategory::UpDownMix => "Up-Downmix"@,
        Subcategory::Mono => "Mono"@,
        Subcategory::Stereo => "Stereo"@,
        Subcategory::Surround => "Surround"@,
        Subcategory::Ambisonic => "Ambisonics"@,
            Subcategory::Custom(category) => category@,
        }
    }

    /// Get the name of the category.
    pub fn as_str(&self) -> (r: &str)
        ensures
            r@ == self.name(),
    {
        match self {
            Subcategory::Fx => "Fx",
            Subcategory::Instrument => "Instrument",
            Subcategory::Spatial => "Spatial",
            Subcategory::Analyzer => "Analyzer",
            Subcategory::Delay => "Delay",
            Subcategory::Distortion => "Distortion",
            Subcategory::Drum => "Drum",
            Subcategory::Dynamics => "Dynamics",
            Subcategory::Eq => "EQ",
            Subcategory::External => "External",
            Subcategory::Filter => "Filter",
            Subcategory::Generator => "Generator",
            Subcategory::Mastering => "Mastering",
            Subcategory::Modulation => "Modulation",
            Subcategory::Network => "Network",
            Subcategory::Piano => "Piano",
            Subcategory::PitchShift => "Pitch Shift",
            Subcategory::Restoration => "Restoration",
            Subcategory::Reverb => "Reverb",
            Subcategory::Sampler => "Sampler",
            Subcategory::Synth => "Synth",
            Subcategory::Tools => "Tools",
            Subcategory::UpDownMix => "Up-Downmix",
            Subcategory::Mono => "Mono",
            Subcategory::Stereo => "Stereo",
            Subcategory::Surround => "Surround",
            Subcategory::Ambisonic => "Ambisonics",
            Subcategory::Custom(category) => category,
        }
    }
}

} // verus!
