use vstd::prelude::*;

verus! {

/// What a [`Bool`] parameter holds.
pub struct BoolModel {
    pub value: bool,
    pub default: bool,
    pub name: Option<Seq<char>>,
    pub short: Option<Seq<char>>,
}

pub open spec fn text_of(s: Option<String>) -> Option<Seq<char>> {
    match s {
        Some(t) => Some(t@),
        None => None,
    }
}

/// A boolean parameter.
#[derive(Clone, Debug)]
pub struct Bool {
    value: bool,
    default: bool,
    name: Option<String>,
    short: Option<String>,
}

impl View for Bool {
    type V = BoolModel;

    closed spec fn view(&self) -> BoolModel {
        BoolModel {
            value: self.value,
            default: self.default,
            name: text_of(self.name),
            short: text_of(self.short),
        }
    }
}

/// The value a text sets a boolean parameter to: `"true"` and `"1"` set it,
/// `"false"` and `"0"` clear it, and any other text keeps `current`.
pub open spec fn parsed_flag(text: Seq<char>, current: bool) -> bool {
    if text == "true"@ || text == "1"@ {
        true
    } else if text == "false"@ || text == "0"@ {
        false
    } else {
        current
    }
}

impl Bool {
    /// Create a new boolean parameter.
    pub fn new(value: bool, default: bool) -> (r: Self)
        ensures
            r@ == (BoolModel { value, default, name: None, short: None }),
    {
        Bool { value, default, name: None, short: None }
    }

    /// Set the name of the parameter.
    pub fn name(self, name: &str) -> (r: Self)
        ensures
            r@ == (BoolModel { name: Some(name@), ..self@ }),
    {
        Bool { name: Some(String::from_str(name)), ..self }
    }

    /// Set the short name of the parameter.
    pub fn short(self, short: &str) -> (r: Self)
        ensures
            r@ == (BoolModel { short: Some(short@), ..self@ }),
    {
        Bool { short: Some(String::from_str(short)), ..self }
    }

    /// Get the current value.
    pub fn value(&self) -> (r: bool)
        ensures
            r == self@.value,
    {
        self.value
    }

    /// Get the default value.
    pub fn default_value(&self) -> (r: bool)
        ensures
            r == self@.default,
    {
        self.default
    }

    /// Set the current value.
    pub fn set_value(&mut self, value: bool)
        ensures
            final(self)@ == (BoolModel { value, ..old(self)@ }),
    {
        self.value = value;
    }

    /// Get the name, if set.
    pub fn name_text(&self) -> (r: Option<&str>)
        ensures
            match r {
                Some(t) => self@.name == Some(t@),
                None => self@.name is None,
            },
    {
        match &self.name {
            Some(name) => Some(name.as_str()),
            None => None,
        }
    }

    /// Get the short name, if set.
    pub fn short_text(&self) -> (r: Option<&str>)
        ensures
            match r {
                Some(t) => self@.short == Some(t@),
                None => self@.short is None,
            },
    {
        match &self.short {
            Some(short) => Some(short.as_str()),
            None => None,
        }
    }

    /// The value that `text` sets the parameter to.
    pub fn parse_flag(&self, text: &str) -> (r: bool)
        ensures
            r == parsed_flag(text@, self@.value),
    {
        let t = String::from_str(text);
        if t == String::from_str("true") || t == String::from_str("1") {
            true
        } else if t == String::from_str("false") || t == String::from_str("0") {
            false
        } else {
            self.value
        }
    }
}

/// The text a boolean parameter shows for `flag`.
pub fn flag_text(flag: bool) -> (r: &'static str)
    ensures
        r@ == (if flag {
            "true"@
        } else {
            "false"@
        }),
{
    if flag {
        "true"
    } else {
        "false"
    }
}

/// The unit of a parameter.
#[derive(Clone, Debug, PartialEq, Eq)]
pub enum Unit {
    /// Linear unit.
    Linear,
    /// Decibels unit.
    Decibels,
    /// Frequency unit.
    Frequency,
    /// Time unit.
    Time,
    /// Percent unit.
    Percent,
    /// Semitones unit.
    Semitones,
    /// Cents unit.
    Cents,
    /// Phase unit.
    Phase,
    /// Sample unit.
    Sample,
    /// Binary unit.
    Binary,
    /// Count unit.
    Count,
    /// Meters unit.
    Meters,
    /// Radians unit.
    Radians,
    /// Hertz unit.
    Hertz,
    /// Custom unit.
    Custom(String),
    /// Unknown unit.
    Unknown,
}

impl Unit {
    /// The numeric identifier hosts know the unit by.
    pub open spec fn spec_id(&self) -> i32 {
        match self {
            Unit::Linear => 0,
            Unit::Decibels => 1,
            Unit::Frequency => 2,
            Unit::Time => 3,
            Unit::Percent => 4,
            Unit::Semitones => 5,
            Unit::Cents => 6,
            Unit::Phase => 7,
            Unit::Sample => 8,
            Unit::Binary => 9,
            Unit::Count => 10,
            Unit::Meters => 11,
            Unit::Radians => 12,
            Unit::Hertz => 13,
            Unit::Custom(_) => 14,
            Unit::Unknown => 15,
        }
    }

    /// The label shown beside values of the unit.
    pub open spec fn spec_label(&self) -> Seq<char> {
        match self {
            Unit::Linear => ""@,
            Unit::Decibels => "dB"@,
            Unit::Frequency => "Frequency"@,
            Unit::Time => "ms"@,
            Unit::Percent => "%"@,
            Unit::Semitones => "Semitones"@,
            Unit::Cents => "Cents"@,
            Unit::Phase => "Degrees"@,
            Unit::Sample => "Samples"@,
            Unit::Binary => ""@,
            Unit::Count => "Count"@,
            Unit::Meters => "Meters"@,
            Unit::Radians => "Radians"@,
            Unit::Hertz => "Hz"@,
            Unit::Custom(name) => name@,
            Unit::Unknown => "Unknown"@,
        }
    }

    /// Get the identifier of the unit.
    pub fn id(&self) -> (r: i32)
        ensures
            r == self.spec_id(),
    {
        match self {
            Unit::Linear => 0,
            Unit::Decibels => 1,
            Unit::Frequency => 2,
            Unit::Time => 3,
            Unit::Percent => 4,
            Unit::Semitones => 5,
            Unit::Cents => 6,
            Unit::Phase => 7,
            Unit::Sample => 8,
            Unit::Binary => 9,
            Unit::Count => 10,
            Unit::Meters => 11,
            Unit::Radians => 12,
            Unit::Hertz => 13,
            Unit::Custom(_) => 14,
            Unit::Unknown => 15,
        }
    }

    /// Get the label of the unit.
    pub fn label(&self) -> (r: &str)
        ensures
            r@ == self.spec_label(),
    {
        match self {
            Unit::Linear => "",
            Unit::Decibels => "dB",
            Unit::Frequency => "Frequency",
            Unit::Time => "ms",
            Unit::Percent => "%",
            Unit::Semitones => "Semitones",
            Unit::Cents => "Cents",
            Unit::Phase => "Degrees",
            Unit::Sample => "Samples",
            Unit::Binary => "",
            Unit::Count => "Count",
            Unit::Meters => "Meters",
            Unit::Radians => "Radians",
            Unit::Hertz => "Hz",
            Unit::Custom(name) => name.as_str(),
            Unit::Unknown => "Unknown",
        }
    }
}

/// The number of parameters in collections laid end to end, `counts[g]` in
/// collection `g`.
pub open spec fn total(counts: Seq<usize>) -> int
    decreases counts.len(),
{
    if counts.len() == 0 {
        0
    } else {
        total(counts.drop_last()) + counts.last()
    }
}

proof fn lemma_total_prefix(counts: Seq<usize>, g: int)
    requires
        0 <= g < counts.len(),
    ensures
        total(counts.subrange(0, g + 1)) == total(counts.subrange(0, g)) + counts[g],
{
    assert(counts.subrange(0, g + 1).drop_last() =~= counts.subrange(0, g));
}

proof fn lemma_total_monotone(counts: Seq<usize>, g: int, h: int)
    requires
        0 <= g <= h <= counts.len(),
    ensures
        total(counts.subrange(0, g)) <= total(counts.subrange(0, h)),
    decreases h - g,
{
    if g < h {
        lemma_total_monotone(counts, g, h - 1);
        lemma_total_prefix(counts, h - 1);
    }
}

/// Count the parameters of collections laid end to end.
pub fn count_params(counts: &Vec<usize>) -> (r: usize)
    requires
        total(counts@) <= usize::MAX,
    ensures
        r == total(counts@),
{
    let mut sum: usize = 0;
    let mut g: usize = 0;
    while g < counts.len()
        invariant
            g <= counts@.len(),
            total(counts@) <= usize::MAX,
            sum == total(counts@.subrange(0, g as int)),
        decreases counts@.len() - g,
    {
        proof {
            lemma_total_prefix(counts@, g as int);
            lemma_total_monotone(counts@, g + 1, counts@.len() as int);
            assert(counts@.subrange(0, counts@.len() as int) =~= counts@);
        }
        sum = sum + counts[g];
        g = g + 1;
    }
    assert(counts@.subrange(0, g as int) =~= counts@);
    sum
}

/// Find the parameter at `index` among collections laid end to end: the
/// collection that holds it and its index there.
pub fn locate_param(counts: &Vec<usize>, index: usize) -> (r: Option<(usize, usize)>)
    ensures
        r is None <==> index >= total(counts@),
        r matches Some((g, k)) ==> {
            &&& g < counts@.len()
            &&& k < counts@[g as int]
            &&& total(counts@.subrange(0, g as int)) + k == index
        },
{
    let mut start: usize = 0;
    let mut g: usize = 0;
    while g < counts.len()
        invariant
            g <= counts@.len(),
            start == total(counts@.subrange(0, g as int)),
            start <= index,
        decreases counts@.len() - g,
    {
        proof {
            lemma_total_prefix(counts@, g as int);
        }
        if index - start < counts[g] {
            proof {
                lemma_total_monotone(counts@, g + 1, counts@.len() as int);
                assert(counts@.subrange(0, counts@.len() as int) =~= counts@);
            }
            return Some((g, index - start));
        }
        start = start + counts[g];
        g = g + 1;
    }
    assert(counts@.subrange(0, g as int) =~= counts@);
    None
}

} // verus!
