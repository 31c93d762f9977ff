//! Whether the hardware can render natively. A device may exist and open
//! without any usable GLES on it.
use vstd::prelude::*;

use crate::text::{decimal_digits, is_digit, lemma_decimal_reads_back, parse_count, parsed_count};

verus! {

/// What the hardware offers.
#[derive(Debug)]
pub struct CapabilityReport {
    pub drm_available: bool,
    pub kms_available: bool,
    pub gbm_available: bool,
    pub egl_available: bool,
    pub gles_available: bool,
    pub min_version: bool,
    pub min_extensions: Vec<String>,
    pub errors: Vec<String>,
}

/// What the report says, as a mathematical value.
#[verifier::ext_equal]
pub ghost struct ReportModel {
    pub drm_available: bool,
    pub kms_available: bool,
    pub gbm_available: bool,
    pub egl_available: bool,
    pub gles_available: bool,
    pub min_version: bool,
    pub min_extensions: Seq<Seq<char>>,
    pub errors: Seq<Seq<char>>,
}

/// The texts of strings.
pub open spec fn texts(s: Seq<String>) -> Seq<Seq<char>> {
    s.map_values(|t: String| t@)
}

impl View for CapabilityReport {
    type V = ReportModel;

    open spec fn view(&self) -> ReportModel {
        ReportModel {
            drm_available: self.drm_available,
            kms_available: self.kms_available,
            gbm_available: self.gbm_available,
            egl_available: self.egl_available,
            gles_available: self.gles_available,
            min_version: self.min_version,
            min_extensions: texts(self.min_extensions@),
            errors: texts(self.errors@),
        }
    }
}

/// What probing the devices gave. Each later probe was made only where
/// the earlier ones it rests on succeeded.
#[derive(Debug)]
pub struct Probe {
    /// Whether there is a DRM device.
    pub device: bool,
    /// Opening it for mode setting.
    pub kms: Result<(), String>,
    /// Making a GBM device on it.
    pub gbm: Result<(), String>,
    /// Making an EGL display and context.
    pub egl: Result<(), String>,
    /// Making a GLES renderer, with its version text.
    pub gles: Result<String, String>,
}

/// The text before the first full stop.
pub open spec fn before_dot(s: Seq<char>) -> Seq<char>
    decreases s.len(),
{
    if s.len() == 0 || s[0] == '.' {
        Seq::empty()
    } else {
        seq![s[0]] + before_dot(s.drop_first())
    }
}

/// A version text whose major number is two or more.
pub open spec fn is_modern(version: Seq<char>) -> bool {
    match parsed_count(before_dot(version)) {
        Some(major) => 2 <= major <= u32::MAX,
        None => false,
    }
}

proof fn lemma_before_dot(s: Seq<char>, i: int)
    requires
        0 <= i <= s.len(),
        forall|j: int| 0 <= j < i ==> s[j] != '.',
        i < s.len() ==> s[i] == '.',
    ensures
        before_dot(s) == s.take(i),
    decreases s.len(),
{
    if i > 0 {
        assert(s[0] != '.');
        lemma_before_dot(s.drop_first(), i - 1);
        assert(seq![s[0]] + s.drop_first().take(i - 1) =~= s.take(i));
    } else {
        assert(s.take(0) =~= Seq::empty());
    }
}

/// Whether the version is new enough.
pub fn version_suffices(version: &str) -> (r: bool)
    ensures
        r == is_modern(version@),
{
    let n: usize = version.unicode_len();
    let mut i: usize = 0;
    while i < n && version.get_char(i) != '.'
        invariant
            i <= n,
            n == version@.len(),
            forall|j: int| 0 <= j < i ==> version@[j] != '.',
        decreases n - i,
    {
        i = i + 1;
    }
    proof {
        lemma_before_dot(version@, i as int);
    }
    let head = version.substring_char(0, i);
    assert(head@ =~= version@.take(i as int));
    match parse_count(head) {
        Some(major) => 2 <= major && major <= u32::MAX as u64,
        None => false,
    }
}

impl ReportModel {
    /// Nothing available, nothing wrong yet.
    pub open spec fn blank() -> ReportModel {
        ReportModel {
            drm_available: false,
            kms_available: false,
            gbm_available: false,
            egl_available: false,
            gles_available: false,
            min_version: false,
            min_extensions: Seq::empty(),
            errors: Seq::empty(),
        }
    }

    /// With one more complaint.
    pub open spec fn complaining(self, what: Seq<char>) -> ReportModel {
        ReportModel { errors: self.errors.push(what), ..self }
    }

    pub open spec fn can_render_natively(self) -> bool {
        self.drm_available && self.kms_available && self.gbm_available && self.egl_available
            && self.gles_available && self.min_version
    }

    /// After the probe for GBM.
    pub open spec fn with_gbm(self, probe: Probe) -> ReportModel {
        match probe.gbm {
            Ok(_) => ReportModel { gbm_available: true, ..self },
            Err(e) => self.complaining("GBM: "@ + e@),
        }
    }

    /// After the probes for EGL and, on it, for GLES.
    pub open spec fn with_egl(self, probe: Probe) -> ReportModel {
        match probe.egl {
            Ok(_) => (ReportModel { egl_available: true, ..self }).with_gles(probe),
            Err(e) => self.complaining("EGL: "@ + e@),
        }
    }

    pub open spec fn with_gles(self, probe: Probe) -> ReportModel {
        match probe.gles {
            Ok(version) => {
                let m = ReportModel {
                    gles_available: true,
                    min_version: is_modern(version@),
                    ..self
                };
                if m.min_version {
                    m
                } else {
                    m.complaining("GLES version < 2.0"@)
                }
            },
            Err(e) => self.complaining("GLES: "@ + e@),
        }
    }

    /// What the probes add up to.
    pub open spec fn of(probe: Probe) -> ReportModel {
        let m = ReportModel::blank();
        if !probe.device {
            m.complaining("no DRM device at /dev/dri/card*"@)
        } else {
            let m = ReportModel { drm_available: true, ..m };
            match probe.kms {
                Ok(_) => (ReportModel { kms_available: true, ..m }).with_gbm(probe).with_egl(probe),
                Err(e) => m.complaining("KMS: "@ + e@),
            }
        }
    }
}

impl CapabilityReport {
    fn blank() -> (r: Self)
        ensures
            r@ == ReportModel::blank(),
    {
        let r = CapabilityReport {
            drm_available: false,
            kms_available: false,
            gbm_available: false,
            egl_available: false,
            gles_available: false,
            min_version: false,
            min_extensions: Vec::new(),
            errors: Vec::new(),
        };
        assert(r@ =~= ReportModel::blank());
        r
    }

    fn complain(&mut self, what: String)
        ensures
            final(self)@ == old(self)@.complaining(what@),
    {
        self.errors.push(what);
        assert(self@ =~= old(self)@.complaining(what@));
    }

    /// Whether everything that native rendering needs is there.
    pub fn can_render_natively(&self) -> (r: bool)
        ensures
            r == self@.can_render_natively(),
    {
        self.drm_available && self.kms_available && self.gbm_available && self.egl_available
            && self.gles_available && self.min_version
    }
}

fn labelled(label: &str, e: &String) -> (r: String)
    ensures
        r@ == label@ + e@,
{
    label.to_owned().concat(e.as_str())
}

/// What the probes add up to: which layers are there, and what was wrong
/// with the others.
pub fn check_capabilities(probe: &Probe) -> (r: CapabilityReport)
    ensures
        r@ == ReportModel::of(*probe),
{
    let mut report = CapabilityReport::blank();
    if !probe.device {
        report.complain("no DRM device at /dev/dri/card*".to_owned());
        return report;
    }
    report.drm_available = true;
    if let Err(e) = &probe.kms {
        report.complain(labelled("KMS: ", e));
        return report;
    }
    report.kms_available = true;
    match &probe.gbm {
        Ok(_) => {
            report.gbm_available = true;
        },
        Err(e) => {
            report.complain(labelled("GBM: ", e));
        },
    }
    match &probe.egl {
        Ok(_) => {
            report.egl_available = true;
            match &probe.gles {
                Ok(version) => {
                    report.gles_available = true;
                    report.min_version = version_suffices(version.as_str());
                    if !report.min_version {
                        report.complain("GLES version < 2.0".to_owned());
                    }
                },
                Err(e) => {
                    report.complain(labelled("GLES: ", e));
                },
            }
        },
        Err(e) => {
            report.complain(labelled("EGL: ", e));
        },
    }
    report
}

/// A report that does not allow native rendering says why.
pub proof fn law_refusal_has_a_reason(probe: Probe)
    ensures
        ReportModel::of(probe).can_render_natively() <==> ReportModel::of(probe).errors.len() == 0,
{
}

/// Each layer is there if its own probe succeeded and the layers that it
/// rests on are there; every layer that failed is complained of.
pub proof fn law_report_says_what_is_there(probe: Probe)
    ensures
        ({
            let r = ReportModel::of(probe);
            &&& r.drm_available == probe.device
            &&& r.kms_available == (probe.device && probe.kms is Ok)
            &&& r.gbm_available == (r.kms_available && probe.gbm is Ok)
            &&& r.egl_available == (r.kms_available && probe.egl is Ok)
            &&& r.gles_available == (r.egl_available && probe.gles is Ok)
            &&& r.min_version == (r.gles_available && is_modern(probe.gles->Ok_0@))
            &&& !probe.device ==> r.errors.len() == 1
            &&& probe.device && probe.kms is Err ==> r.errors == seq![
                "KMS: "@ + probe.kms->Err_0@,
            ]
            &&& r.kms_available && probe.gbm is Err ==> r.errors[0] == "GBM: "@ + probe.gbm->Err_0@
            &&& r.kms_available && probe.egl is Err ==> r.errors.last() == "EGL: "@
                + probe.egl->Err_0@
            &&& r.egl_available && probe.gles is Err ==> r.errors.last() == "GLES: "@
                + probe.gles->Err_0@
        }),
{
}

/// A version is new enough from two on, whatever follows its first full
/// stop.
pub proof fn law_second_version_suffices(major: u64, rest: Seq<char>)
    requires
        major <= u32::MAX,
    ensures
        is_modern(decimal_digits(major).push('.') + rest) == (major >= 2),
        is_modern(decimal_digits(major)) == (major >= 2),
{
    let d = decimal_digits(major);
    lemma_decimal_reads_back(major);
    let s = d.push('.') + rest;
    assert forall|j: int| 0 <= j < d.len() implies s[j] != '.' && d[j] != '.' by {
        assert(s[j] == d[j]);
        assert(is_digit(d[j]));
    }
    assert(s[d.len() as int] == '.');
    lemma_before_dot(s, d.len() as int);
    lemma_before_dot(d, d.len() as int);
    assert(s.take(d.len() as int) =~= d);
    assert(d.take(d.len() as int) =~= d);
}

} // verus!
