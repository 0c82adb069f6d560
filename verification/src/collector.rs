//! Thermal zone readings: which directory entries are zones, in what order
//! they are read, and how a zone's files become a reading. Reading the files
//! is the application's.
use vstd::prelude::*;
use vstd::string::StringExecFns;
use crate::text::{
    chars_of, decimal_i64, ends_with, has_affixes, parse_i64, select_sorted, sorted_strings,
    string_of_range, trim, trimmed,
};

verus! {

/// Why the sensors could not be read.
#[derive(Debug, Clone, PartialEq, Eq)]
pub enum CollectorError {
    /// The thermal directory does not exist; its path.
    SysfsMissing(String),
    /// Reading failed; what happened.
    Io(String),
    /// A temperature file does not hold a decimal integer.
    InvalidReading { path: String, value: String },
}

/// The text of a collector error.
pub open spec fn collector_error_text(e: CollectorError) -> Seq<char> {
    match e {
        CollectorError::SysfsMissing(p) => "thermal sysfs path not found: "@ + p@,
        CollectorError::Io(m) => "failed to read thermal data: "@ + m@,
        CollectorError::InvalidReading { path, value } => "invalid thermal reading in "@ + path@
            + ": "@ + value@,
    }
}

impl CollectorError {
    /// The error's message.
    pub fn message(&self) -> (s: String)
        ensures
            s@ == collector_error_text(*self),
    {
        match self {
            CollectorError::SysfsMissing(p) => String::from_str(
                "thermal sysfs path not found: ",
            ).concat(p.as_str()),
            CollectorError::Io(m) => String::from_str("failed to read thermal data: ").concat(
                m.as_str(),
            ),
            CollectorError::InvalidReading { path, value } => String::from_str(
                "invalid thermal reading in ",
            ).concat(path.as_str()).concat(": ").concat(value.as_str()),
        }
    }
}

/// Thermal zones are the entries of the thermal directory named `thermal_zone*`.
pub open spec fn is_zone_entry(name: Seq<char>) -> bool {
    has_affixes(name, "thermal_zone"@, ""@)
}

/// Temperature inputs are the files of a hwmon device named `temp*_input`.
pub open spec fn is_hwmon_input(name: Seq<char>) -> bool {
    has_affixes(name, "temp"@, "_input"@)
}

/// The sensor label of a hwmon input file: its name without `_input`.
pub open spec fn input_label(file: Seq<char>) -> Seq<char> {
    if "_input"@.is_suffix_of(file) {
        file.subrange(0, file.len() - 6)
    } else {
        file
    }
}

/// A sensor reading in whole thousandths of a degree Celsius, as the
/// thermal zone's `temp` file holds it.
#[derive(Debug, Clone, PartialEq, Eq)]
pub struct ZoneReading {
    pub sensor_name: String,
    pub milli_c: i64,
}

/// What to read: the thermal zones and the hwmon devices, each in ascending
/// order of name.
#[derive(Debug, Clone, PartialEq, Eq)]
pub struct SensorSources {
    pub zones: Vec<String>,
    pub hwmon_devices: Vec<String>,
}

/// Reads thermal zones under a directory (by default `/sys/class/thermal`),
/// optionally the `temp*_input` files of the hwmon devices under another (by
/// default `/sys/class/hwmon`), and optionally NVIDIA GPUs.
#[derive(Debug, Clone)]
pub struct SysfsCollector {
    thermal_root: String,
    hwmon_root: Option<String>,
    nvidia: bool,
}

impl SysfsCollector {
    /// The thermal directory's path.
    pub closed spec fn thermal_dir(&self) -> Seq<char> {
        self.thermal_root@
    }

    /// The hwmon directory's path, if hwmon devices are read.
    pub closed spec fn hwmon_dir(&self) -> Option<Seq<char>> {
        match self.hwmon_root {
            Some(h) => Some(h@),
            None => None,
        }
    }

    /// Whether NVIDIA GPUs are read.
    pub closed spec fn reads_gpus(&self) -> bool {
        self.nvidia
    }

    /// The system's sensors: `/sys/class/thermal`, `/sys/class/hwmon` and
    /// NVIDIA GPUs.
    pub fn new() -> (c: SysfsCollector)
        ensures
            c.thermal_dir() == "/sys/class/thermal"@,
            c.hwmon_dir() == Some("/sys/class/hwmon"@),
            c.reads_gpus(),
    {
        SysfsCollector {
            thermal_root: String::from_str("/sys/class/thermal"),
            hwmon_root: Some(String::from_str("/sys/class/hwmon")),
            nvidia: true,
        }
    }

    /// A collector for the thermal directory `root` alone.
    pub fn with_root(root: &str) -> (c: SysfsCollector)
        ensures
            c.thermal_dir() == root@,
            c.hwmon_dir() is None,
            !c.reads_gpus(),
    {
        SysfsCollector { thermal_root: String::from_str(root), hwmon_root: None, nvidia: false }
    }

    /// A collector for the thermal directory `thermal`, the hwmon directory
    /// `hwmon`, and NVIDIA GPUs if `nvidia`.
    pub fn with_roots(thermal: &str, hwmon: &str, nvidia: bool) -> (c: SysfsCollector)
        ensures
            c.thermal_dir() == thermal@,
            c.hwmon_dir() == Some(hwmon@),
            c.reads_gpus() == nvidia,
    {
        SysfsCollector {
            thermal_root: String::from_str(thermal),
            hwmon_root: Some(String::from_str(hwmon)),
            nvidia,
        }
    }

    /// The thermal directory's path.
    pub fn thermal_root(&self) -> (r: &str)
        ensures
            r@ == self.thermal_dir(),
    {
        self.thermal_root.as_str()
    }

    /// The hwmon directory's path, if hwmon devices are read.
    pub fn hwmon_root(&self) -> (r: Option<&str>)
        ensures
            match r {
                Some(h) => self.hwmon_dir() == Some(h@),
                None => self.hwmon_dir() is None,
            },
    {
        match &self.hwmon_root {
            Some(h) => Some(h.as_str()),
            None => None,
        }
    }

    /// Whether NVIDIA GPUs are read.
    pub fn reads_nvidia(&self) -> (b: bool)
        ensures
            b == self.reads_gpus(),
    {
        self.nvidia
    }

    /// The thermal zones among the thermal directory's entries, in ascending order.
    pub fn zone_names(entries: &Vec<String>) -> (zones: Vec<String>)
        ensures
            sorted_strings(zones@),
            zones@.to_multiset() =~= entries@.filter(|e: String| is_zone_entry(e@)).to_multiset(),
    {
        let zones = select_sorted(entries, "thermal_zone", "");
        assert((|e: String| has_affixes(e@, "thermal_zone"@, ""@)) =~= (|e: String|
            is_zone_entry(e@)));
        zones
    }

    /// The temperature inputs among a hwmon device's files, in ascending order.
    pub fn hwmon_input_names(files: &Vec<String>) -> (inputs: Vec<String>)
        ensures
            sorted_strings(inputs@),
            inputs@.to_multiset() =~= files@.filter(|e: String| is_hwmon_input(e@)).to_multiset(),
    {
        let inputs = select_sorted(files, "temp", "_input");
        assert((|e: String| has_affixes(e@, "temp"@, "_input"@)) =~= (|e: String|
            is_hwmon_input(e@)));
        inputs
    }

    /// What to read, given whether the thermal directory exists and its
    /// entries, and whether the hwmon directory exists and its entries. The
    /// hwmon directory counts only when hwmon devices are read. When neither
    /// directory exists the collector refuses with `SysfsMissing` and the
    /// thermal directory's path; otherwise it reads the thermal zones of the
    /// thermal directory, if it exists, and every device of the hwmon
    /// directory, if it exists, each in ascending order.
    pub fn sensor_sources(
        &self,
        thermal_is_dir: bool,
        thermal_entries: &Vec<String>,
        hwmon_is_dir: bool,
        hwmon_entries: &Vec<String>,
    ) -> (r: Result<SensorSources, CollectorError>)
        ensures
            !thermal_is_dir && !(self.hwmon_dir() is Some && hwmon_is_dir) ==> (r matches Err(
                CollectorError::SysfsMissing(p),
            ) && p@ == self.thermal_dir()),
            thermal_is_dir || (self.hwmon_dir() is Some && hwmon_is_dir) ==> (r matches Ok(src) && {
                &&& thermal_is_dir ==> sorted_strings(src.zones@) && src.zones@.to_multiset()
                    =~= thermal_entries@.filter(|e: String| is_zone_entry(e@)).to_multiset()
                &&& !thermal_is_dir ==> src.zones@.len() == 0
                &&& (self.hwmon_dir() is Some && hwmon_is_dir) ==> sorted_strings(
                    src.hwmon_devices@,
                ) && src.hwmon_devices@.to_multiset() =~= hwmon_entries@.to_multiset()
                &&& !(self.hwmon_dir() is Some && hwmon_is_dir) ==> src.hwmon_devices@.len() == 0
            }),
    {
        let hwmon_present = self.hwmon_root.is_some() && hwmon_is_dir;
        if !thermal_is_dir && !hwmon_present {
            return Err(CollectorError::SysfsMissing(String::from_str(self.thermal_root.as_str())));
        }
        let zones = if thermal_is_dir {
            Self::zone_names(thermal_entries)
        } else {
            Vec::new()
        };
        let hwmon_devices = if hwmon_present {
            let devices = select_sorted(hwmon_entries, "", "");
            proof {
                reveal_strlit("");
                lemma_filter_all(hwmon_entries@, |e: String| has_affixes(e@, ""@, ""@));
            }
            devices
        } else {
            Vec::new()
        };
        Ok(SensorSources { zones, hwmon_devices })
    }

    /// The reading of one hwmon input, given the device's and the file's
    /// names and the file's text, if it could be read: the sensor is named
    /// `device:label`, the label being the file name without `_input`, and the
    /// trimmed text must be a decimal integer, in thousandths of a degree. An
    /// input that cannot be read, or whose text is not such a number, gives no
    /// reading; the device's other inputs, and the other sensors, are still
    /// read.
    pub fn hwmon_reading(device: &str, file: &str, text: Option<&str>) -> (r: Option<ZoneReading>)
        ensures
            match text {
                None => r is None,
                Some(t) => match decimal_i64(trimmed(t@)) {
                    None => r is None,
                    Some(v) => r matches Some(z) && z.milli_c == v && z.sensor_name@ == device@
                        + ":"@ + input_label(file@),
                },
            },
    {
        let text = match text {
            Some(t) => t,
            None => return None,
        };
        let raw = trim(text);
        match parse_i64(raw.as_str()) {
            None => None,
            Some(milli_c) => {
                let fv = chars_of(file);
                let label_end = if ends_with(file, "_input") {
                    proof {
                        reveal_strlit("_input");
                    }
                    fv.len() - 6
                } else {
                    fv.len()
                };
                let label = string_of_range(&fv, 0, label_end);
                assert(label@ == input_label(file@)) by {
                    if !"_input"@.is_suffix_of(file@) {
                        assert(file@.subrange(0, file@.len() as int) =~= file@);
                    }
                }
                let sensor_name = String::from_str(device).concat(":").concat(label.as_str());
                Some(ZoneReading { sensor_name, milli_c })
            },
        }
    }

    /// The reading of one zone, given its name and the text of its `type` and
    /// `temp` files, and the path of the latter for the error: the sensor is
    /// named `zone:type`, and the trimmed `temp` text must be a decimal
    /// integer, the temperature in thousandths of a degree.
    pub fn zone_reading(zone_name: &str, type_text: &str, temp_text: &str, temp_path: &str) -> (r:
        Result<ZoneReading, CollectorError>)
        ensures
            decimal_i64(trimmed(temp_text@)) is None ==> (r matches Err(
                CollectorError::InvalidReading { path, value },
            ) && path@ == temp_path@ && value@ == trimmed(temp_text@)),
            decimal_i64(trimmed(temp_text@)) matches Some(v) ==> (r matches Ok(z) && z.milli_c == v
                && z.sensor_name@ == zone_name@ + ":"@ + trimmed(type_text@)),
    {
        let sensor_type = trim(type_text);
        let raw = trim(temp_text);
        match parse_i64(raw.as_str()) {
            None => Err(
                CollectorError::InvalidReading { path: String::from_str(temp_path), value: raw },
            ),
            Some(milli_c) => {
                let sensor_name = String::from_str(zone_name).concat(":").concat(
                    sensor_type.as_str(),
                );
                Ok(ZoneReading { sensor_name, milli_c })
            },
        }
    }
}

impl Default for SysfsCollector {
    /// A collector whose thermal directory is the empty path, reading nothing else.
    fn default() -> (c: SysfsCollector)
        ensures
            c.thermal_dir() == Seq::<char>::empty(),
            c.hwmon_dir() is None,
            !c.reads_gpus(),
    {
        SysfsCollector { thermal_root: String::new(), hwmon_root: None, nvidia: false }
    }
}

/// Filtering with a predicate that every element meets keeps the sequence.
proof fn lemma_filter_all<A>(s: Seq<A>, pred: spec_fn(A) -> bool)
    requires
        forall|x: A| #[trigger] pred(x),
    ensures
        s.filter(pred) == s,
    decreases s.len(),
{
    reveal_with_fuel(Seq::filter, 1);
    if s.len() > 0 {
        lemma_filter_all(s.drop_last(), pred);
        assert(s.drop_last().push(s.last()) =~= s);
    }
}

} // verus!
