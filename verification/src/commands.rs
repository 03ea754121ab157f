//! The read-only command surfaces: detection reporting and the environment
//! self-check.
//!
//! Both commands take the host by shared reference: they cannot mutate it.

use vstd::prelude::*;

use crate::detect::{detect_eval, detect_module_installed, dotnet_eval, dotnet_fx48_status,
    status_of, vcredist_2015_2022_x64_status, vcredist_eval, DetectError, DetectErrorV,
    PrereqStatus};
use crate::host::{Host, HostModel};
use crate::manifest::{BundleManifest, ModuleManifest};

verus! {

/// One line of the detection report.
pub struct DetectReportLine {
    /// Module id.
    pub id: String,
    /// Module display name.
    pub display_name: String,
    /// Whether detection reports the module installed.
    pub installed: bool,
}

/// Mathematical view of a detection report line.
pub struct DetectReportLineV {
    /// Module id.
    pub id: Seq<char>,
    /// Module display name.
    pub display_name: Seq<char>,
    /// Whether detection reports the module installed.
    pub installed: bool,
}

impl View for DetectReportLine {
    type V = DetectReportLineV;

    open spec fn view(&self) -> DetectReportLineV {
        DetectReportLineV {
            id: self.id@,
            display_name: self.display_name@,
            installed: self.installed,
        }
    }
}

/// The views of a sequence of report lines.
pub open spec fn line_views(s: Seq<DetectReportLine>) -> Seq<DetectReportLineV> {
    s.map_values(|l: DetectReportLine| l@)
}

/// What the detection report says: one line per enabled module, in manifest
/// order, each carrying the module's detection outcome; the first detection
/// error aborts the report.
pub open spec fn detect_report_spec(
    m: HostModel,
    base_dir: Seq<char>,
    mods: Seq<ModuleManifest>,
) -> Result<Seq<DetectReportLineV>, DetectErrorV>
    decreases mods.len(),
{
    if mods.len() == 0 {
        Ok(Seq::<DetectReportLineV>::empty())
    } else if !mods[0].enabled {
        detect_report_spec(m, base_dir, mods.skip(1))
    } else {
        match detect_eval(m, base_dir, mods[0].detect) {
            Err(e) => Err(e),
            Ok(b) => match detect_report_spec(m, base_dir, mods.skip(1)) {
                Err(e) => Err(e),
                Ok(tail) => Ok(
                    seq![
                        DetectReportLineV {
                            id: mods[0].id@,
                            display_name: mods[0].display_name@,
                            installed: b,
                        },
                    ] + tail,
                ),
            },
        }
    }
}

/// Evaluates every enabled module's detection rule, without mutating the
/// host, and reports each module's id, display name and outcome.
pub fn detect<H: Host>(h: &H, manifest: &BundleManifest, base_dir: &String) -> (r: Result<
    Vec<DetectReportLine>,
    DetectError,
>)
    ensures
        match r {
            Ok(lines) => detect_report_spec(h.m(), base_dir@, manifest.modules@) == Ok::<
                Seq<DetectReportLineV>,
                DetectErrorV,
            >(line_views(lines@)),
            Err(e) => detect_report_spec(h.m(), base_dir@, manifest.modules@) == Err::<
                Seq<DetectReportLineV>,
                DetectErrorV,
            >(e@),
        },
{
    let mut lines: Vec<DetectReportLine> = Vec::new();
    let mut i: usize = 0;
    proof {
        assert(manifest.modules@.skip(0) =~= manifest.modules@);
        assert(line_views(lines@) =~= Seq::<DetectReportLineV>::empty());
    }
    while i < manifest.modules.len()
        invariant
            0 <= i <= manifest.modules@.len(),
            match detect_report_spec(h.m(), base_dir@, manifest.modules@.skip(i as int)) {
                Ok(tail) => detect_report_spec(h.m(), base_dir@, manifest.modules@) == Ok::<
                    Seq<DetectReportLineV>,
                    DetectErrorV,
                >(line_views(lines@) + tail),
                Err(e) => detect_report_spec(h.m(), base_dir@, manifest.modules@) == Err::<
                    Seq<DetectReportLineV>,
                    DetectErrorV,
                >(e),
            },
        decreases manifest.modules@.len() - i,
    {
        let ghost rest = manifest.modules@.skip(i as int);
        proof {
            assert(rest[0] == manifest.modules@[i as int]);
            assert(rest.skip(1) =~= manifest.modules@.skip(i + 1));
        }
        let module = &manifest.modules[i];
        if module.enabled {
            match detect_module_installed(h, base_dir, module) {
                Err(e) => {
                    return Err(e);
                },
                Ok(b) => {
                    let ghost prefix = line_views(lines@);
                    let line = DetectReportLine {
                        id: module.id.clone(),
                        display_name: module.display_name.clone(),
                        installed: b,
                    };
                    let ghost lv = line@;
                    lines.push(line);
                    proof {
                        assert(line_views(lines@) =~= prefix.push(lv));
                        match detect_report_spec(h.m(), base_dir@, manifest.modules@.skip(i + 1)) {
                            Ok(tail) => {
                                assert(prefix + (seq![lv] + tail) =~= prefix.push(lv) + tail);
                            },
                            Err(_) => {},
                        }
                    }
                },
            }
        }
        i = i + 1;
    }
    proof {
        assert(manifest.modules@.skip(manifest.modules@.len() as int) =~= Seq::<
            ModuleManifest,
        >::empty());
        assert(line_views(lines@) + Seq::<DetectReportLineV>::empty() =~= line_views(lines@));
    }
    Ok(lines)
}

/// The environment self-check: the status of each known prerequisite.
pub struct DoctorReport {
    /// .NET Framework 4.8 status.
    pub dotnet_fx48: PrereqStatus,
    /// VC++ 2015-2022 x64 runtime status.
    pub vcredist_2015_2022_x64: PrereqStatus,
}

/// Reads both prerequisite statuses from the host, without mutating it.
pub fn doctor<H: Host>(h: &H) -> (r: Result<DoctorReport, DetectError>)
    ensures
        match r {
            Ok(rep) => ({
                &&& dotnet_eval(h.m()) matches Ok(b1) && rep.dotnet_fx48 == status_of(b1)
                &&& vcredist_eval(h.m()) matches Ok(b2) && rep.vcredist_2015_2022_x64
                    == status_of(b2)
            }),
            Err(e) => dotnet_eval(h.m()) == Err::<bool, DetectErrorV>(e@) || (dotnet_eval(h.m())
                is Ok && vcredist_eval(h.m()) == Err::<bool, DetectErrorV>(e@)),
        },
{
    let dotnet = match dotnet_fx48_status(h) {
        Ok(st) => st,
        Err(e) => {
            return Err(e);
        },
    };
    let vcredist = match vcredist_2015_2022_x64_status(h) {
        Ok(st) => st,
        Err(e) => {
            return Err(e);
        },
    };
    Ok(DoctorReport { dotnet_fx48: dotnet, vcredist_2015_2022_x64: vcredist })
}

} // verus!
