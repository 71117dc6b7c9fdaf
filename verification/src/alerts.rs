//! Acoustic alerts: their kinds, severities and the MQTT topics they are
//! published under.
use vstd::prelude::*;
use crate::comparison::MetricKind;
use crate::text::concat_str;

verus! {

/// The topic an alert of type `alert_type` at site `site_id` is published
/// under: `<base>/<site>/<type>`.
pub open spec fn spec_alert_topic(base: Seq<char>, site_id: Seq<char>, alert_type: Seq<char>) -> Seq<char> {
    base + "/"@ + site_id + "/"@ + alert_type
}

/// The topic an alert of type `alert_type` at site `site_id` is published
/// under.
pub fn alert_topic(base: &str, site_id: &str, alert_type: &str) -> (r: String)
    ensures
        r@ == spec_alert_topic(base@, site_id@, alert_type@),
{
    let mut r = concat_str(base, "/");
    r.append(site_id);
    r.append("/");
    r.append(alert_type);
    r
}

/// How serious an alert is.
#[derive(PartialEq, Eq, Structural, Clone, Copy, Debug)]
pub enum Severity {
    Critical,
    Warning,
    Info,
}

impl Severity {
    pub open spec fn spec_as_str(self) -> Seq<char> {
        match self {
            Severity::Critical => "critical"@,
            Severity::Warning => "warning"@,
            Severity::Info => "info"@,
        }
    }

    /// The severity as it is written in an alert.
    pub fn as_str(&self) -> (r: &'static str)
        ensures
            r@ == self.spec_as_str(),
    {
        match self {
            Severity::Critical => "critical",
            Severity::Warning => "warning",
            Severity::Info => "info",
        }
    }
}

/// What an alert reports.
#[derive(PartialEq, Eq, Structural, Clone, Copy, Debug)]
pub enum AlertKind {
    /// The speech transmission index fell below its minimum.
    StiDegradation,
    /// The reverberation time exceeds its maximum.
    ReverbTooHigh,
    /// The reverberation time is below its minimum.
    ReverbTooLow,
    /// The sound pressure level exceeds its safe maximum.
    SplTooHigh,
    /// The sound pressure level is below its normal minimum.
    SplTooLow,
    /// The definition D50 is below its minimum.
    DefinitionLow,
    /// The clarity C50 is below its minimum.
    ClarityLow,
}

impl AlertKind {
    pub open spec fn spec_alert_type(self) -> Seq<char> {
        match self {
            AlertKind::StiDegradation => "sti_degradation"@,
            AlertKind::ReverbTooHigh => "reverb_too_high"@,
            AlertKind::ReverbTooLow => "reverb_too_low"@,
            AlertKind::SplTooHigh => "spl_too_high"@,
            AlertKind::SplTooLow => "spl_too_low"@,
            AlertKind::DefinitionLow => "definition_low"@,
            AlertKind::ClarityLow => "clarity_low"@,
        }
    }

    pub open spec fn spec_metric_name(self) -> Seq<char> {
        match self {
            AlertKind::StiDegradation => "sti_value"@,
            AlertKind::ReverbTooHigh => "reverb_time_t60"@,
            AlertKind::ReverbTooLow => "reverb_time_t60"@,
            AlertKind::SplTooHigh => "sound_pressure_level"@,
            AlertKind::SplTooLow => "sound_pressure_level"@,
            AlertKind::DefinitionLow => "definition_d50"@,
            AlertKind::ClarityLow => "clarity_c50"@,
        }
    }

    /// The severity of an alert of this kind; that of a speech transmission
    /// alert depends on how far the index fell, and is not fixed.
    pub open spec fn spec_fixed_severity(self) -> Option<Severity> {
        match self {
            AlertKind::StiDegradation => None,
            AlertKind::ReverbTooHigh => Some(Severity::Warning),
            AlertKind::ReverbTooLow => Some(Severity::Info),
            AlertKind::SplTooHigh => Some(Severity::Warning),
            AlertKind::SplTooLow => Some(Severity::Info),
            AlertKind::DefinitionLow => Some(Severity::Warning),
            AlertKind::ClarityLow => Some(Severity::Info),
        }
    }

    /// The alert type, as written in the alert and in its topic.
    pub fn alert_type(&self) -> (r: &'static str)
        ensures
            r@ == self.spec_alert_type(),
    {
        match self {
            AlertKind::StiDegradation => "sti_degradation",
            AlertKind::ReverbTooHigh => "reverb_too_high",
            AlertKind::ReverbTooLow => "reverb_too_low",
            AlertKind::SplTooHigh => "spl_too_high",
            AlertKind::SplTooLow => "spl_too_low",
            AlertKind::DefinitionLow => "definition_low",
            AlertKind::ClarityLow => "clarity_low",
        }
    }

    /// The name of the metric the alert is about.
    pub fn metric_name(&self) -> (r: &'static str)
        ensures
            r@ == self.spec_metric_name(),
    {
        match self {
            AlertKind::StiDegradation => "sti_value",
            AlertKind::ReverbTooHigh => "reverb_time_t60",
            AlertKind::ReverbTooLow => "reverb_time_t60",
            AlertKind::SplTooHigh => "sound_pressure_level",
            AlertKind::SplTooLow => "sound_pressure_level",
            AlertKind::DefinitionLow => "definition_d50",
            AlertKind::ClarityLow => "clarity_c50",
        }
    }

    /// The fixed severity of the kind, if it has one.
    pub fn fixed_severity(&self) -> (r: Option<Severity>)
        ensures
            r == self.spec_fixed_severity(),
    {
        match self {
            AlertKind::StiDegradation => None,
            AlertKind::ReverbTooHigh => Some(Severity::Warning),
            AlertKind::ReverbTooLow => Some(Severity::Info),
            AlertKind::SplTooHigh => Some(Severity::Warning),
            AlertKind::SplTooLow => Some(Severity::Info),
            AlertKind::DefinitionLow => Some(Severity::Warning),
            AlertKind::ClarityLow => Some(Severity::Info),
        }
    }
}

/// The topic of an alert lies under the base topic, in the subtree of its site.
pub proof fn law_topic_under_site(base: Seq<char>, site_id: Seq<char>, alert_type: Seq<char>)
    ensures
        spec_alert_topic(base, site_id, alert_type).take(base.len() as int) == base,
        spec_alert_topic(base, site_id, alert_type).subrange(
            base.len() + 1int,
            base.len() + 1int + site_id.len(),
        ) == site_id,
        spec_alert_topic(base, site_id, alert_type).skip(
            base.len() + 2int + site_id.len(),
        ) == alert_type,
        spec_alert_topic(base, site_id, alert_type).len() == base.len() + site_id.len()
            + alert_type.len() + 2,
        spec_alert_topic(base, site_id, alert_type)[base.len() as int] == '/',
        spec_alert_topic(base, site_id, alert_type)[base.len() + 1int + site_id.len()] == '/',
{
    reveal_strlit("/");
    let t = spec_alert_topic(base, site_id, alert_type);
    assert("/"@.len() == 1 && "/"@[0] == '/');
    assert(t.take(base.len() as int) =~= base);
    assert(t.subrange(base.len() + 1int, base.len() + 1int + site_id.len()) =~= site_id);
    assert(t.skip(base.len() + 2int + site_id.len()) =~= alert_type);
}

/// The severity of each alert kind with a fixed severity: a reverberation
/// time or a sound pressure level above its maximum, and a definition D50
/// below its minimum, are warnings; a reverberation time or a sound pressure
/// level below its minimum, and a clarity C50 below its minimum, are notices;
/// only a speech transmission alert has no fixed severity.
pub proof fn law_fixed_severities(k: AlertKind)
    ensures
        k.spec_fixed_severity() == Some(Severity::Warning) <==> (k == AlertKind::ReverbTooHigh
            || k == AlertKind::SplTooHigh || k == AlertKind::DefinitionLow),
        k.spec_fixed_severity() == Some(Severity::Info) <==> (k == AlertKind::ReverbTooLow
            || k == AlertKind::SplTooLow || k == AlertKind::ClarityLow),
        k.spec_fixed_severity() is None <==> k == AlertKind::StiDegradation,
        k.spec_fixed_severity() != Some(Severity::Critical),
{
}

/// Each alert kind is written, and published, under a type of its own, which
/// names the metric and the direction in which it left its range.
pub proof fn law_alert_types(k1: AlertKind, k2: AlertKind)
    ensures
        k1 != k2 ==> k1.spec_alert_type() != k2.spec_alert_type(),
        k1 == AlertKind::StiDegradation ==> k1.spec_alert_type() == "sti_degradation"@,
        k1 == AlertKind::ReverbTooHigh ==> k1.spec_alert_type() == "reverb_too_high"@,
        k1 == AlertKind::ReverbTooLow ==> k1.spec_alert_type() == "reverb_too_low"@,
        k1 == AlertKind::SplTooHigh ==> k1.spec_alert_type() == "spl_too_high"@,
        k1 == AlertKind::SplTooLow ==> k1.spec_alert_type() == "spl_too_low"@,
        k1 == AlertKind::DefinitionLow ==> k1.spec_alert_type() == "definition_low"@,
        k1 == AlertKind::ClarityLow ==> k1.spec_alert_type() == "clarity_low"@,
{
    reveal_strlit("sti_degradation");
    reveal_strlit("reverb_too_high");
    reveal_strlit("reverb_too_low");
    reveal_strlit("spl_too_high");
    reveal_strlit("spl_too_low");
    reveal_strlit("definition_low");
    reveal_strlit("clarity_low");
    assert("sti_degradation"@.len() == 15);
    assert("reverb_too_high"@.len() == 15);
    assert("reverb_too_low"@.len() == 14);
    assert("spl_too_high"@.len() == 12);
    assert("spl_too_low"@.len() == 11);
    assert("definition_low"@.len() == 14);
    assert("clarity_low"@.len() == 11);
    assert("sti_degradation"@[0] != "reverb_too_high"@[0]);
    assert("reverb_too_low"@[0] != "definition_low"@[0]);
    assert("spl_too_low"@[0] != "clarity_low"@[0]);
}

/// The metric an alert is about is the compared metric of the same name:
/// the speech transmission index, the reverberation time, the sound pressure
/// level, the definition D50 or the clarity C50.
pub proof fn law_alert_metrics(k: AlertKind)
    ensures
        k == AlertKind::StiDegradation ==> k.spec_metric_name() == MetricKind::StiValue.spec_name(),
        (k == AlertKind::ReverbTooHigh || k == AlertKind::ReverbTooLow) ==> k.spec_metric_name()
            == MetricKind::ReverbTimeT60.spec_name(),
        (k == AlertKind::SplTooHigh || k == AlertKind::SplTooLow) ==> k.spec_metric_name()
            == MetricKind::SoundPressureLevel.spec_name(),
        k == AlertKind::DefinitionLow ==> k.spec_metric_name() == MetricKind::DefinitionD50.spec_name(),
        k == AlertKind::ClarityLow ==> k.spec_metric_name() == MetricKind::ClarityC50.spec_name(),
{
}

/// Each severity is written as a word of its own: "critical", "warning" or
/// "info".
pub proof fn law_severity_words(s1: Severity, s2: Severity)
    ensures
        s1 != s2 ==> s1.spec_as_str() != s2.spec_as_str(),
        s1 == Severity::Critical ==> s1.spec_as_str() == "critical"@,
        s1 == Severity::Warning ==> s1.spec_as_str() == "warning"@,
        s1 == Severity::Info ==> s1.spec_as_str() == "info"@,
{
    reveal_strlit("critical");
    reveal_strlit("warning");
    reveal_strlit("info");
    assert("critical"@.len() == 8 && "warning"@.len() == 7 && "info"@.len() == 4);
}

} // verus!
