//! Comparison of ancient buildings, concert halls and the temple sites: which
//! configured record each requested id stands for, which buildings belong to a
//! dynasty, and the catalogue of the thirteen compared metrics.
use vstd::prelude::*;
use std::sync::Arc;
use crate::measurement::{is_listed, listed};
use crate::select::selects;
use crate::text::str_eq;

verus! {

/// Compares the acoustic design of buildings of different dynasties. Holds
/// the acoustic configuration it reads.
pub struct DesignComparator<C> {
    config: Arc<C>,
}

impl<C> DesignComparator<C> {
    /// A comparator over `config`.
    pub fn new(config: Arc<C>) -> (r: Self)
        ensures
            *r.spec_config() == *config,
    {
        DesignComparator { config }
    }

    /// The configuration the comparator reads.
    pub closed spec fn spec_config(&self) -> Arc<C> {
        self.config
    }

    /// The configuration the comparator reads.
    pub fn config(&self) -> (r: &C)
        ensures
            *r == *self.spec_config(),
    {
        &self.config
    }
}

/// Compares ancient buildings with modern concert halls. Holds the acoustic
/// configuration it reads.
pub struct EraComparator<C> {
    config: Arc<C>,
}

impl<C> EraComparator<C> {
    /// A comparator over `config`.
    pub fn new(config: Arc<C>) -> (r: Self)
        ensures
            *r.spec_config() == *config,
    {
        EraComparator { config }
    }

    /// The configuration the comparator reads.
    pub closed spec fn spec_config(&self) -> Arc<C> {
        self.config
    }

    /// The configuration the comparator reads.
    pub fn config(&self) -> (r: &C)
        ensures
            *r == *self.spec_config(),
    {
        &self.config
    }
}

/// Where the data of a compared id comes from.
#[derive(PartialEq, Eq, Structural, Clone, Copy, Debug)]
pub enum SiteSource {
    /// A building of the ancient-building catalogue.
    AncientBuilding,
    /// A modern concert hall.
    ConcertHall,
    /// One of the temple sites.
    Site,
}

/// The source of `id`: the ancient buildings are searched first, then the
/// concert halls, then the temple sites.
pub open spec fn spec_source(
    id: Seq<char>,
    ancient: Seq<String>,
    halls: Seq<String>,
    sites: Seq<String>,
) -> Option<SiteSource> {
    if listed(ancient, id) {
        Some(SiteSource::AncientBuilding)
    } else if listed(halls, id) {
        Some(SiteSource::ConcertHall)
    } else if listed(sites, id) {
        Some(SiteSource::Site)
    } else {
        None
    }
}

/// For each requested id, in order, where its data comes from; `None` for an id
/// that no catalogue holds (it is left out of the comparison). A dynasty
/// comparison passes no concert halls.
pub fn resolve_sources(
    requested: &Vec<String>,
    ancient: &Vec<String>,
    halls: &Vec<String>,
    sites: &Vec<String>,
) -> (r: Vec<Option<SiteSource>>)
    ensures
        r@.len() == requested@.len(),
        forall|i: int|
            0 <= i < requested@.len() ==> #[trigger] r@[i] == spec_source(
                requested@[i]@,
                ancient@,
                halls@,
                sites@,
            ),
{
    let mut r: Vec<Option<SiteSource>> = Vec::new();
    let mut i: usize = 0;
    while i < requested.len()
        invariant
            i <= requested@.len(),
            r@.len() == i,
            forall|j: int|
                0 <= j < i ==> #[trigger] r@[j] == spec_source(
                    requested@[j]@,
                    ancient@,
                    halls@,
                    sites@,
                ),
        decreases requested@.len() - i,
    {
        let id = requested[i].as_str();
        let source = if is_listed(ancient, id) {
            Some(SiteSource::AncientBuilding)
        } else if is_listed(halls, id) {
            Some(SiteSource::ConcertHall)
        } else if is_listed(sites, id) {
            Some(SiteSource::Site)
        } else {
            None
        };
        r.push(source);
        i = i + 1;
    }
    r
}

/// The building at position `i` is of dynasty `dynasty`.
pub open spec fn of_dynasty(dynasties: Seq<Option<String>>, dynasty: Seq<char>, i: int) -> bool {
    0 <= i < dynasties.len() && match dynasties[i] {
        Some(d) => d@ == dynasty,
        None => false,
    }
}

/// The positions, in order, of the buildings of dynasty `dynasty`, given the
/// dynasty of each building.
pub fn select_dynasty(dynasties: &Vec<Option<String>>, dynasty: &str) -> (r: Vec<usize>)
    ensures
        selects(r@, dynasties@.len(), |i: int| of_dynasty(dynasties@, dynasty@, i)),
{
    let ghost pred = |i: int| of_dynasty(dynasties@, dynasty@, i);
    let mut r: Vec<usize> = Vec::new();
    let mut i: usize = 0;
    while i < dynasties.len()
        invariant
            i <= dynasties@.len(),
            pred == (|i: int| of_dynasty(dynasties@, dynasty@, i)),
            forall|k: int| 0 <= k < r@.len() ==> (#[trigger] r@[k]) < i && pred(r@[k] as int),
            forall|k: int, l: int| 0 <= k < l < r@.len() ==> (#[trigger] r@[k]) < (#[trigger] r@[l]),
            forall|j: int| 0 <= j < i && #[trigger] pred(j) ==> r@.contains(j as usize),
        decreases dynasties@.len() - i,
    {
        let matches = match &dynasties[i] {
            Some(d) => str_eq(d.as_str(), dynasty),
            None => false,
        };
        assert(matches == pred(i as int));
        if matches {
            let ghost before = r@;
            r.push(i);
            assert forall|j: int| 0 <= j <= i && #[trigger] pred(j) implies r@.contains(
                j as usize,
            ) by {
                if j < i {
                    let k: int = choose|k: int| 0 <= k < before.len() && before[k] == j as usize;
                    assert(r@[k] == j as usize);
                } else {
                    assert(r@[r@.len() - 1] == i);
                }
            }
        }
        i = i + 1;
    }
    r
}

/// One of the thirteen metrics on which sites are compared.
#[derive(PartialEq, Eq, Structural, Clone, Copy, Debug)]
pub enum MetricKind {
    ReverbTimeT60,
    ClarityC50,
    DefinitionD50,
    StiValue,
    RastiValue,
    SoundPressureLevel,
    CenterTime,
    BassRatio,
    Brilliance,
    Intimacy,
    Warmth,
    Loudness,
    EchoStrength,
}

/// The compared metrics, in the order in which a comparison lists them.
pub open spec fn spec_all_metrics() -> Seq<MetricKind> {
    seq![
        MetricKind::ReverbTimeT60,
        MetricKind::ClarityC50,
        MetricKind::DefinitionD50,
        MetricKind::StiValue,
        MetricKind::RastiValue,
        MetricKind::SoundPressureLevel,
        MetricKind::CenterTime,
        MetricKind::BassRatio,
        MetricKind::Brilliance,
        MetricKind::Intimacy,
        MetricKind::Warmth,
        MetricKind::Loudness,
        MetricKind::EchoStrength,
    ]
}

impl MetricKind {
    /// The metric's field name.
    pub open spec fn spec_name(self) -> Seq<char> {
        match self {
            MetricKind::ReverbTimeT60 => "reverb_time_t60"@,
            MetricKind::ClarityC50 => "clarity_c50"@,
            MetricKind::DefinitionD50 => "definition_d50"@,
            MetricKind::StiValue => "sti_value"@,
            MetricKind::RastiValue => "rasti_value"@,
            MetricKind::SoundPressureLevel => "sound_pressure_level"@,
            MetricKind::CenterTime => "center_time"@,
            MetricKind::BassRatio => "bass_ratio"@,
            MetricKind::Brilliance => "brilliance"@,
            MetricKind::Intimacy => "intimacy"@,
            MetricKind::Warmth => "warmth"@,
            MetricKind::Loudness => "loudness"@,
            MetricKind::EchoStrength => "echo_strength"@,
        }
    }

    /// The metric's unit.
    pub open spec fn spec_unit(self) -> Seq<char> {
        match self {
            MetricKind::ReverbTimeT60 => "s"@,
            MetricKind::ClarityC50 => "dB"@,
            MetricKind::DefinitionD50 => "%"@,
            MetricKind::SoundPressureLevel => "dB"@,
            MetricKind::CenterTime => "s"@,
            _ => ""@,
        }
    }

    /// The metric's description.
    pub open spec fn spec_description(self) -> Seq<char> {
        match self {
            MetricKind::ReverbTimeT60 => "混响时间T60"@,
            MetricKind::ClarityC50 => "语言清晰度C50"@,
            MetricKind::DefinitionD50 => "语言清晰度D50"@,
            MetricKind::StiValue => "语音传输指数STI"@,
            MetricKind::RastiValue => "快速语音传输指数RASTI"@,
            MetricKind::SoundPressureLevel => "声压级SPL"@,
            MetricKind::CenterTime => "中心时间Ts"@,
            MetricKind::BassRatio => "低音比"@,
            MetricKind::Brilliance => "明亮度"@,
            MetricKind::Intimacy => "亲切感"@,
            MetricKind::Warmth => "温暖感"@,
            MetricKind::Loudness => "响度"@,
            MetricKind::EchoStrength => "回声强度"@,
        }
    }

    /// Whether a higher value of the metric is the better one: it is for the
    /// clarity, intelligibility and tonal metrics, not for reverberation time,
    /// sound pressure level, centre time, loudness and echo strength.
    pub open spec fn spec_higher_is_better(self) -> bool {
        match self {
            MetricKind::ReverbTimeT60 => false,
            MetricKind::SoundPressureLevel => false,
            MetricKind::CenterTime => false,
            MetricKind::Loudness => false,
            MetricKind::EchoStrength => false,
            _ => true,
        }
    }

    /// The metric's field name.
    pub fn name(&self) -> (r: &'static str)
        ensures
            r@ == self.spec_name(),
    {
        match self {
            MetricKind::ReverbTimeT60 => "reverb_time_t60",
            MetricKind::ClarityC50 => "clarity_c50",
            MetricKind::DefinitionD50 => "definition_d50",
            MetricKind::StiValue => "sti_value",
            MetricKind::RastiValue => "rasti_value",
            MetricKind::SoundPressureLevel => "sound_pressure_level",
            MetricKind::CenterTime => "center_time",
            MetricKind::BassRatio => "bass_ratio",
            MetricKind::Brilliance => "brilliance",
            MetricKind::Intimacy => "intimacy",
            MetricKind::Warmth => "warmth",
            MetricKind::Loudness => "loudness",
            MetricKind::EchoStrength => "echo_strength",
        }
    }

    /// The metric's unit.
    pub fn unit(&self) -> (r: &'static str)
        ensures
            r@ == self.spec_unit(),
    {
        match self {
            MetricKind::ReverbTimeT60 => "s",
            MetricKind::ClarityC50 => "dB",
            MetricKind::DefinitionD50 => "%",
            MetricKind::SoundPressureLevel => "dB",
            MetricKind::CenterTime => "s",
            _ => "",
        }
    }

    /// The metric's description.
    pub fn description(&self) -> (r: &'static str)
        ensures
            r@ == self.spec_description(),
    {
        match self {
            MetricKind::ReverbTimeT60 => "混响时间T60",
            MetricKind::ClarityC50 => "语言清晰度C50",
            MetricKind::DefinitionD50 => "语言清晰度D50",
            MetricKind::StiValue => "语音传输指数STI",
            MetricKind::RastiValue => "快速语音传输指数RASTI",
            MetricKind::SoundPressureLevel => "声压级SPL",
            MetricKind::CenterTime => "中心时间Ts",
            MetricKind::BassRatio => "低音比",
            MetricKind::Brilliance => "明亮度",
            MetricKind::Intimacy => "亲切感",
            MetricKind::Warmth => "温暖感",
            MetricKind::Loudness => "响度",
            MetricKind::EchoStrength => "回声强度",
        }
    }

    /// Whether a higher value of the metric is the better one.
    pub fn higher_is_better(&self) -> (r: bool)
        ensures
            r == self.spec_higher_is_better(),
    {
        match self {
            MetricKind::ReverbTimeT60 => false,
            MetricKind::SoundPressureLevel => false,
            MetricKind::CenterTime => false,
            MetricKind::Loudness => false,
            MetricKind::EchoStrength => false,
            _ => true,
        }
    }

    /// The compared metrics, in the order in which a comparison lists them.
    pub fn all() -> (r: Vec<MetricKind>)
        ensures
            r@ == spec_all_metrics(),
            r@.len() == 13,
    {
        let r = vec![
            MetricKind::ReverbTimeT60,
            MetricKind::ClarityC50,
            MetricKind::DefinitionD50,
            MetricKind::StiValue,
            MetricKind::RastiValue,
            MetricKind::SoundPressureLevel,
            MetricKind::CenterTime,
            MetricKind::BassRatio,
            MetricKind::Brilliance,
            MetricKind::Intimacy,
            MetricKind::Warmth,
            MetricKind::Loudness,
            MetricKind::EchoStrength,
        ];
        assert(r@ =~= spec_all_metrics());
        r
    }
}

/// The better direction of each metric: a higher value is better exactly for
/// the clarity C50, the definition D50, the STI, the RASTI, the bass ratio,
/// the brilliance, the intimacy and the warmth; for the reverberation time,
/// the sound pressure level, the centre time, the loudness and the echo
/// strength the lower value is the better one.
pub proof fn law_metric_directions(m: MetricKind)
    ensures
        m.spec_higher_is_better() <==> (m == MetricKind::ClarityC50 || m == MetricKind::DefinitionD50
            || m == MetricKind::StiValue || m == MetricKind::RastiValue || m == MetricKind::BassRatio
            || m == MetricKind::Brilliance || m == MetricKind::Intimacy || m == MetricKind::Warmth),
        !m.spec_higher_is_better() <==> (m == MetricKind::ReverbTimeT60
            || m == MetricKind::SoundPressureLevel || m == MetricKind::CenterTime
            || m == MetricKind::Loudness || m == MetricKind::EchoStrength),
{
}

/// The units of the metrics: seconds for the reverberation and centre times,
/// decibels for the clarity C50 and the sound pressure level, percent for the
/// definition D50, and none for the others.
pub proof fn law_metric_units(m: MetricKind)
    ensures
        m.spec_unit() == "s"@ <==> (m == MetricKind::ReverbTimeT60 || m == MetricKind::CenterTime),
        m.spec_unit() == "dB"@ <==> (m == MetricKind::ClarityC50 || m == MetricKind::SoundPressureLevel),
        m.spec_unit() == "%"@ <==> m == MetricKind::DefinitionD50,
        m.spec_unit() == ""@ <==> !(m == MetricKind::ReverbTimeT60 || m == MetricKind::CenterTime
            || m == MetricKind::ClarityC50 || m == MetricKind::SoundPressureLevel
            || m == MetricKind::DefinitionD50),
{
    reveal_strlit("s");
    reveal_strlit("dB");
    reveal_strlit("%");
    reveal_strlit("");
    assert("s"@ != "dB"@ && "%"@ != "dB"@ && "s"@ != ""@ && "%"@ != ""@ && "dB"@ != ""@) by {
        assert("s"@.len() == 1 && "%"@.len() == 1 && "dB"@.len() == 2 && ""@.len() == 0);
    }
    assert("s"@ != "%"@) by {
        assert("s"@[0] != "%"@[0]);
    }
}

/// Each metric has a field name of its own.
pub proof fn law_metric_names_distinct(m1: MetricKind, m2: MetricKind)
    ensures
        m1 != m2 ==> m1.spec_name() != m2.spec_name(),
{
    reveal_strlit("reverb_time_t60");
    reveal_strlit("clarity_c50");
    reveal_strlit("definition_d50");
    reveal_strlit("sti_value");
    reveal_strlit("rasti_value");
    reveal_strlit("sound_pressure_level");
    reveal_strlit("center_time");
    reveal_strlit("bass_ratio");
    reveal_strlit("brilliance");
    reveal_strlit("intimacy");
    reveal_strlit("warmth");
    reveal_strlit("loudness");
    reveal_strlit("echo_strength");
    assert("reverb_time_t60"@.len() == 15);
    assert("clarity_c50"@.len() == 11);
    assert("definition_d50"@.len() == 14);
    assert("sti_value"@.len() == 9);
    assert("rasti_value"@.len() == 11);
    assert("sound_pressure_level"@.len() == 20);
    assert("center_time"@.len() == 11);
    assert("bass_ratio"@.len() == 10);
    assert("brilliance"@.len() == 10);
    assert("intimacy"@.len() == 8);
    assert("warmth"@.len() == 6);
    assert("loudness"@.len() == 8);
    assert("echo_strength"@.len() == 13);
    assert("clarity_c50"@[1] != "center_time"@[1]);
    assert("clarity_c50"@[0] != "rasti_value"@[0]);
    assert("center_time"@[0] != "rasti_value"@[0]);
    assert("bass_ratio"@[1] != "brilliance"@[1]);
    assert("intimacy"@[0] != "loudness"@[0]);
}

/// A comparison lists every metric once.
pub proof fn law_metrics_listed_once(m: MetricKind)
    ensures
        spec_all_metrics().contains(m),
        forall|i: int, j: int|
            0 <= i < j < 13 ==> spec_all_metrics()[i] != spec_all_metrics()[j],
{
    let all = spec_all_metrics();
    match m {
        MetricKind::ReverbTimeT60 => assert(all[0] == m),
        MetricKind::ClarityC50 => assert(all[1] == m),
        MetricKind::DefinitionD50 => assert(all[2] == m),
        MetricKind::StiValue => assert(all[3] == m),
        MetricKind::RastiValue => assert(all[4] == m),
        MetricKind::SoundPressureLevel => assert(all[5] == m),
        MetricKind::CenterTime => assert(all[6] == m),
        MetricKind::BassRatio => assert(all[7] == m),
        MetricKind::Brilliance => assert(all[8] == m),
        MetricKind::Intimacy => assert(all[9] == m),
        MetricKind::Warmth => assert(all[10] == m),
        MetricKind::Loudness => assert(all[11] == m),
        MetricKind::EchoStrength => assert(all[12] == m),
    }
}

} // verus!
