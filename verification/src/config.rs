//! The daemon's configuration: built-in defaults, and the overrides that a
//! configuration document may hold for any of them.

use crate::curve::CurvePoint;
use crate::text::string_views;
use vstd::prelude::*;

verus! {

/// The `general` group of a configuration document. A field that the document
/// does not set is `None`.
#[derive(Clone, Debug, PartialEq, Eq)]
pub struct General {
    pub fan1_path: Option<String>,
    pub fan2_path: Option<String>,
    /// The poll interval in milliseconds.
    pub poll_ms: Option<u64>,
    pub min_duty: Option<i32>,
    pub max_duty: Option<i32>,
    pub failsafe_duty: Option<i32>,
}

impl Default for General {
    fn default() -> (general: General)
        ensures
            general == (General {
                fan1_path: None,
                fan2_path: None,
                poll_ms: None,
                min_duty: None,
                max_duty: None,
                failsafe_duty: None,
            }),
    {
        General {
            fan1_path: None,
            fan2_path: None,
            poll_ms: None,
            min_duty: None,
            max_duty: None,
            failsafe_duty: None,
        }
    }
}

/// The `sensors` group of a configuration document.
#[derive(Clone, Debug, PartialEq, Eq)]
pub struct Sensors {
    pub cpu_names: Option<Vec<String>>,
    pub mem_names: Option<Vec<String>>,
    pub mem_fallback_to_cpu: Option<bool>,
}

impl Default for Sensors {
    fn default() -> (sensors: Sensors)
        ensures
            sensors == (Sensors { cpu_names: None, mem_names: None, mem_fallback_to_cpu: None }),
    {
        Sensors { cpu_names: None, mem_names: None, mem_fallback_to_cpu: None }
    }
}

/// The `curves` group of a configuration document.
#[derive(Clone, Debug, PartialEq, Eq)]
pub struct Curves {
    pub cpu: Option<Vec<CurvePoint>>,
    pub mem: Option<Vec<CurvePoint>>,
}

impl Default for Curves {
    fn default() -> (curves: Curves)
        ensures
            curves == (Curves { cpu: None, mem: None }),
    {
        Curves { cpu: None, mem: None }
    }
}

/// A configuration document: three groups, each of which may be absent in
/// whole or in part.
#[derive(Clone, Debug, PartialEq, Eq)]
pub struct FileConfig {
    pub general: General,
    pub sensors: Sensors,
    pub curves: Curves,
}

impl FileConfig {
    /// Whether the document sets nothing.
    pub open spec fn is_blank(&self) -> bool {
        &&& self.general.fan1_path is None
        &&& self.general.fan2_path is None
        &&& self.general.poll_ms is None
        &&& self.general.min_duty is None
        &&& self.general.max_duty is None
        &&& self.general.failsafe_duty is None
        &&& self.sensors.cpu_names is None
        &&& self.sensors.mem_names is None
        &&& self.sensors.mem_fallback_to_cpu is None
        &&& self.curves.cpu is None
        &&& self.curves.mem is None
    }
}

impl Default for FileConfig {
    fn default() -> (file: FileConfig)
        ensures
            file.is_blank(),
    {
        FileConfig {
            general: General::default(),
            sensors: Sensors::default(),
            curves: Curves::default(),
        }
    }
}

/// The complete configuration that the daemon runs with.
#[derive(Clone, Debug, PartialEq, Eq)]
pub struct Config {
    pub fan1_path: String,
    pub fan2_path: String,
    /// The poll interval in milliseconds.
    pub poll_ms: u64,
    pub min_duty: i32,
    pub max_duty: i32,
    pub failsafe_duty: i32,
    pub cpu_sensor_names: Vec<String>,
    pub mem_sensor_names: Vec<String>,
    pub mem_fallback_to_cpu: bool,
    pub cpu_curve: Vec<CurvePoint>,
    pub mem_curve: Vec<CurvePoint>,
}

/// What a [`Config`] holds, as mathematical values.
pub struct ConfigView {
    pub fan1_path: Seq<char>,
    pub fan2_path: Seq<char>,
    pub poll_ms: u64,
    pub min_duty: i32,
    pub max_duty: i32,
    pub failsafe_duty: i32,
    pub cpu_sensor_names: Seq<Seq<char>>,
    pub mem_sensor_names: Seq<Seq<char>>,
    pub mem_fallback_to_cpu: bool,
    pub cpu_curve: Seq<CurvePoint>,
    pub mem_curve: Seq<CurvePoint>,
}

impl View for Config {
    type V = ConfigView;

    open spec fn view(&self) -> ConfigView {
        ConfigView {
            fan1_path: self.fan1_path@,
            fan2_path: self.fan2_path@,
            poll_ms: self.poll_ms,
            min_duty: self.min_duty,
            max_duty: self.max_duty,
            failsafe_duty: self.failsafe_duty,
            cpu_sensor_names: string_views(self.cpu_sensor_names@),
            mem_sensor_names: string_views(self.mem_sensor_names@),
            mem_fallback_to_cpu: self.mem_fallback_to_cpu,
            cpu_curve: self.cpu_curve@,
            mem_curve: self.mem_curve@,
        }
    }
}

/// The built-in CPU curve, from 40 to 85 degrees.
pub open spec fn default_cpu_curve() -> Seq<CurvePoint> {
    seq![
        CurvePoint { temp_mc: 40_000, duty: 20 },
        CurvePoint { temp_mc: 55_000, duty: 35 },
        CurvePoint { temp_mc: 65_000, duty: 55 },
        CurvePoint { temp_mc: 75_000, duty: 75 },
        CurvePoint { temp_mc: 85_000, duty: 100 },
    ]
}

/// The built-in memory curve, from 35 to 80 degrees.
pub open spec fn default_mem_curve() -> Seq<CurvePoint> {
    seq![
        CurvePoint { temp_mc: 35_000, duty: 20 },
        CurvePoint { temp_mc: 50_000, duty: 40 },
        CurvePoint { temp_mc: 60_000, duty: 60 },
        CurvePoint { temp_mc: 70_000, duty: 80 },
        CurvePoint { temp_mc: 80_000, duty: 100 },
    ]
}

/// The built-in configuration.
pub open spec fn default_config() -> ConfigView {
    ConfigView {
        fan1_path: "/sys/devices/platform/fevm-ip3-wmi/fan1_duty"@,
        fan2_path: "/sys/devices/platform/fevm-ip3-wmi/fan2_duty"@,
        poll_ms: 1000,
        min_duty: 20,
        max_duty: 100,
        failsafe_duty: 70,
        cpu_sensor_names: seq!["k10temp"@],
        mem_sensor_names: seq!["spd5118"@],
        mem_fallback_to_cpu: true,
        cpu_curve: default_cpu_curve(),
        mem_curve: default_mem_curve(),
    }
}

/// `base` with every field that `file` sets replaced by the document's value.
pub open spec fn overlay(base: ConfigView, file: FileConfig) -> ConfigView {
    ConfigView {
        fan1_path: match file.general.fan1_path {
            Some(v) => v@,
            None => base.fan1_path,
        },
        fan2_path: match file.general.fan2_path {
            Some(v) => v@,
            None => base.fan2_path,
        },
        poll_ms: match file.general.poll_ms {
            Some(v) => v,
            None => base.poll_ms,
        },
        min_duty: match file.general.min_duty {
            Some(v) => v,
            None => base.min_duty,
        },
        max_duty: match file.general.max_duty {
            Some(v) => v,
            None => base.max_duty,
        },
        failsafe_duty: match file.general.failsafe_duty {
            Some(v) => v,
            None => base.failsafe_duty,
        },
        cpu_sensor_names: match file.sensors.cpu_names {
            Some(v) => string_views(v@),
            None => base.cpu_sensor_names,
        },
        mem_sensor_names: match file.sensors.mem_names {
            Some(v) => string_views(v@),
            None => base.mem_sensor_names,
        },
        mem_fallback_to_cpu: match file.sensors.mem_fallback_to_cpu {
            Some(v) => v,
            None => base.mem_fallback_to_cpu,
        },
        cpu_curve: match file.curves.cpu {
            Some(v) => v@,
            None => base.cpu_curve,
        },
        mem_curve: match file.curves.mem {
            Some(v) => v@,
            None => base.mem_curve,
        },
    }
}

impl Default for Config {
    fn default() -> (cfg: Config)
        ensures
            cfg@ == default_config(),
    {
        let cfg = Config {
            fan1_path: "/sys/devices/platform/fevm-ip3-wmi/fan1_duty".to_owned(),
            fan2_path: "/sys/devices/platform/fevm-ip3-wmi/fan2_duty".to_owned(),
            poll_ms: 1000,
            min_duty: 20,
            max_duty: 100,
            failsafe_duty: 70,
            cpu_sensor_names: vec!["k10temp".to_owned()],
            mem_sensor_names: vec!["spd5118".to_owned()],
            mem_fallback_to_cpu: true,
            cpu_curve: vec![
                CurvePoint { temp_mc: 40_000, duty: 20 },
                CurvePoint { temp_mc: 55_000, duty: 35 },
                CurvePoint { temp_mc: 65_000, duty: 55 },
                CurvePoint { temp_mc: 75_000, duty: 75 },
                CurvePoint { temp_mc: 85_000, duty: 100 },
            ],
            mem_curve: vec![
                CurvePoint { temp_mc: 35_000, duty: 20 },
                CurvePoint { temp_mc: 50_000, duty: 40 },
                CurvePoint { temp_mc: 60_000, duty: 60 },
                CurvePoint { temp_mc: 70_000, duty: 80 },
                CurvePoint { temp_mc: 80_000, duty: 100 },
            ],
        };
        proof {
            assert(cfg@.cpu_sensor_names =~= default_config().cpu_sensor_names);
            assert(cfg@.mem_sensor_names =~= default_config().mem_sensor_names);
            assert(cfg@.cpu_curve =~= default_cpu_curve());
            assert(cfg@.mem_curve =~= default_mem_curve());
        }
        cfg
    }
}

/// Builds the configuration from the built-in defaults and, where there is a
/// configuration document, its overrides: a field that the document sets takes
/// the document's value, every other field keeps its default.
pub fn load_config(file: Option<FileConfig>) -> (cfg: Config)
    ensures
        cfg@ == match file {
            Some(f) => overlay(default_config(), f),
            None => default_config(),
        },
{
    let mut cfg = Config::default();
    let file_cfg = match file {
        Some(f) => f,
        None => {
            return cfg;
        },
    };
    if let Some(v) = file_cfg.general.fan1_path {
        cfg.fan1_path = v;
    }
    if let Some(v) = file_cfg.general.fan2_path {
        cfg.fan2_path = v;
    }
    if let Some(v) = file_cfg.general.poll_ms {
        cfg.poll_ms = v;
    }
    if let Some(v) = file_cfg.general.min_duty {
        cfg.min_duty = v;
    }
    if let Some(v) = file_cfg.general.max_duty {
        cfg.max_duty = v;
    }
    if let Some(v) = file_cfg.general.failsafe_duty {
        cfg.failsafe_duty = v;
    }
    if let Some(v) = file_cfg.sensors.cpu_names {
        cfg.cpu_sensor_names = v;
    }
    if let Some(v) = file_cfg.sensors.mem_names {
        cfg.mem_sensor_names = v;
    }
    if let Some(v) = file_cfg.sensors.mem_fallback_to_cpu {
        cfg.mem_fallback_to_cpu = v;
    }
    if let Some(v) = file_cfg.curves.cpu {
        cfg.cpu_curve = v;
    }
    if let Some(v) = file_cfg.curves.mem {
        cfg.mem_curve = v;
    }
    cfg
}

/// A document that sets nothing leaves every field as it was.
pub proof fn lemma_overlay_blank(base: ConfigView, file: FileConfig)
    requires
        file.is_blank(),
    ensures
        overlay(base, file) == base,
{
}

/// A document that sets the poll interval and nothing else changes the poll
/// interval and nothing else.
pub proof fn lemma_overlay_poll_only(base: ConfigView, file: FileConfig, poll_ms: u64)
    requires
        file.general.poll_ms == Some(poll_ms),
        file.general.fan1_path is None,
        file.general.fan2_path is None,
        file.general.min_duty is None,
        file.general.max_duty is None,
        file.general.failsafe_duty is None,
        file.sensors.cpu_names is None,
        file.sensors.mem_names is None,
        file.sensors.mem_fallback_to_cpu is None,
        file.curves.cpu is None,
        file.curves.mem is None,
    ensures
        overlay(base, file) == (ConfigView { poll_ms, ..base }),
{
}

/// The configuration path that the arguments after `from` name, or the default
/// path: the argument that follows the first `--config` that has a follower.
pub open spec fn config_path_after(args: Seq<String>, from: int) -> Seq<char>
    decreases args.len() - from,
{
    if from < 0 || from >= args.len() {
        "/etc/fevm-fan-curve.toml"@
    } else if args[from]@ == "--config"@ && from + 1 < args.len() {
        args[from + 1]@
    } else {
        config_path_after(args, from + 1)
    }
}

/// Picks the configuration file's path from the command line, whose first item
/// is the program's name.
pub fn config_path_from_args(args: &Vec<String>) -> (path: String)
    ensures
        path@ == config_path_after(args@, 1),
{
    let flag: String = "--config".to_owned();
    let mut idx: usize = 1;
    while idx < args.len()
        invariant
            1 <= idx,
            flag@ == "--config"@,
            config_path_after(args@, 1) == config_path_after(args@, idx as int),
        decreases args.len() - idx,
    {
        if args[idx] == flag && idx + 1 < args.len() {
            return args[idx + 1].clone();
        }
        idx += 1;
    }
    "/etc/fevm-fan-curve.toml".to_owned()
}

} // verus!
