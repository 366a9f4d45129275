//! Accelerator devices: vendor classification, parsing of device queries and
//! the choice of the best device.

use crate::error::PortableSourceError;
use crate::text::{
    chars_of, contains_str, decimal_of, has_infix, index_of_char, index_of_char_exec, lemma_split_char_nonempty, lower_of,
    parse_decimal, slice_chars, split_char, split_chars, string_of, to_lower, to_upper, trim,
    trim_chars, upper_of, views,
};
use vstd::prelude::*;

verus! {

#[derive(Debug, Clone, Copy, PartialEq, Eq, Structural)]
pub enum GpuType {
    Nvidia,
    Amd,
    Intel,
    Unknown,
}

/// One accelerator device as a query reports it.
#[derive(Debug, Clone)]
pub struct GpuInfo {
    pub name: String,
    pub gpu_type: GpuType,
    pub memory_mb: u32,
    pub driver_version: Option<String>,
}

pub open spec fn opt_str_view(o: Option<String>) -> Option<Seq<char>> {
    match o {
        Some(s) => Some(s@),
        None => None,
    }
}

/// A copy of an optional string.
pub fn copy_opt_string(o: &Option<String>) -> (r: Option<String>)
    ensures
        opt_str_view(r) == opt_str_view(*o),
{
    match o {
        Some(s) => Some(s.clone()),
        None => None,
    }
}

impl GpuInfo {
    /// The device information as plain values.
    pub open spec fn view_parts(&self) -> (Seq<char>, GpuType, u32, Option<Seq<char>>) {
        (self.name@, self.gpu_type, self.memory_mb, opt_str_view(self.driver_version))
    }

    /// A copy of this device information.
    pub fn duplicate(&self) -> (r: GpuInfo)
        ensures
            r.view_parts() == self.view_parts(),
    {
        GpuInfo {
            name: self.name.clone(),
            gpu_type: self.gpu_type,
            memory_mb: self.memory_mb,
            driver_version: copy_opt_string(&self.driver_version),
        }
    }
}

/// The vendor that an upper-cased device name names.
pub open spec fn gpu_type_of_upper(u: Seq<char>) -> GpuType {
    if has_infix(u, "NVIDIA"@) || has_infix(u, "GEFORCE"@) || has_infix(u, "QUADRO"@) || has_infix(
        u,
        "TESLA"@,
    ) {
        GpuType::Nvidia
    } else if has_infix(u, "AMD"@) || has_infix(u, "RADEON"@) {
        GpuType::Amd
    } else if has_infix(u, "INTEL"@) {
        GpuType::Intel
    } else {
        GpuType::Unknown
    }
}

/// The vendor that a line of the PCI device listing names, once upper-cased.
pub open spec fn lspci_type_of_upper(u: Seq<char>) -> GpuType {
    if has_infix(u, "NVIDIA"@) {
        GpuType::Nvidia
    } else if has_infix(u, "AMD"@) || has_infix(u, "ATI"@) || has_infix(u, "RADEON"@) {
        GpuType::Amd
    } else if has_infix(u, "INTEL"@) {
        GpuType::Intel
    } else {
        GpuType::Unknown
    }
}

/// The text between the first two double quotes of `line`, or all of it.
pub open spec fn quoted_name(line: Seq<char>) -> Seq<char> {
    let start = index_of_char(line, '"');
    if start < line.len() {
        let rest = line.subrange(start + 1, line.len() as int);
        let end = index_of_char(rest, '"');
        if end < rest.len() {
            rest.subrange(0, end)
        } else {
            line
        }
    } else {
        line
    }
}

/// The vendor that an OpenGL renderer line names, once lower-cased.
pub open spec fn renderer_type_of_lower(l: Seq<char>) -> GpuType {
    if has_infix(l, "nvidia"@) {
        GpuType::Nvidia
    } else if has_infix(l, "amd"@) || has_infix(l, "radeon"@) {
        GpuType::Amd
    } else if has_infix(l, "intel"@) {
        GpuType::Intel
    } else {
        GpuType::Unknown
    }
}

/// The pieces of a comma-separated query line, each trimmed.
pub open spec fn csv_fields(line: Seq<char>) -> Seq<Seq<char>> {
    split_char(line, ',').map_values(|p: Seq<char>| trim(p))
}

/// What a line of `nvidia-smi --query-gpu=name,memory.total,driver_version` describes:
/// `Err(())` where the line is malformed.
pub open spec fn smi_line_result(line: Seq<char>) -> core::result::Result<
    (Seq<char>, u32),
    (),
> {
    let f = csv_fields(line);
    if f.len() >= 3 {
        match decimal_of(f[1], u32::MAX as int) {
            Some(m) => Ok((f[0], m as u32)),
            None => Err(()),
        }
    } else {
        Err(())
    }
}

/// The fields of a line of the management interface's CSV listing: name, adapter RAM in
/// bytes and driver version; `None` for a blank, header or short line.
pub open spec fn wmic_fields(line: Seq<char>) -> Option<(Seq<char>, int, Option<Seq<char>>)> {
    let f = csv_fields(line);
    if trim(line).len() == 0 || f.len() < 4 || f[3].len() == 0 || f[3] == "Name"@ {
        None
    } else {
        Some(
            (
                f[3],
                match decimal_of(f[2], u64::MAX as int) {
                    Some(v) => v,
                    None => 0,
                },
                if f[1].len() == 0 || f[1] == "DriverVersion"@ {
                    None
                } else {
                    Some(f[1])
                },
            ),
        )
    }
}

/// The first device of `devices` of vendor Nvidia, else the first device.
pub open spec fn preferred_index(devices: Seq<GpuInfo>) -> int {
    if exists|i: int| 0 <= i < devices.len() && devices[i].gpu_type == GpuType::Nvidia {
        choose|i: int|
            0 <= i < devices.len() && devices[i].gpu_type == GpuType::Nvidia && forall|j: int|
                0 <= j < i ==> devices[j].gpu_type != GpuType::Nvidia
    } else {
        0
    }
}

/// The upper-cased name of an Nvidia card of the Pascal generation or newer.
pub open spec fn modern_nvidia_upper(u: Seq<char>) -> bool {
    ||| has_infix(u, "GTX 10"@) || has_infix(u, "GTX 16"@) || has_infix(u, "GTX 17"@)
    ||| has_infix(u, "RTX 20"@) || has_infix(u, "RTX 21"@) || has_infix(u, "RTX 22"@) || has_infix(u, "RTX 23"@) || has_infix(u, "RTX 24"@)
    ||| has_infix(u, "RTX 30"@) || has_infix(u, "RTX 31"@) || has_infix(u, "RTX 32"@) || has_infix(u, "RTX 33"@) || has_infix(u, "RTX 34"@)
    ||| has_infix(u, "RTX 40"@) || has_infix(u, "RTX 41"@) || has_infix(u, "RTX 42"@) || has_infix(u, "RTX 43"@) || has_infix(u, "RTX 44"@)
    ||| has_infix(u, "RTX 50"@) || has_infix(u, "RTX 51"@) || has_infix(u, "RTX 52"@) || has_infix(u, "RTX 53"@) || has_infix(u, "RTX 54"@)
    ||| has_infix(u, "QUADRO"@) || has_infix(u, "TESLA"@)
    ||| has_infix(u, "A100"@) || has_infix(u, "A40"@) || has_infix(u, "A30"@) || has_infix(u, "A10"@)
    ||| has_infix(u, "A6000"@) || has_infix(u, "A5000"@) || has_infix(u, "A4000"@)
}

/// Whether the upper-cased name names a Pascal-or-newer Nvidia card.
fn modern_nvidia_name(u: &str) -> (r: bool)
    ensures
        r == modern_nvidia_upper(u@),
{
    let pats = [
        "GTX 10", "GTX 16", "GTX 17", "RTX 20", "RTX 21", "RTX 22", "RTX 23", "RTX 24", "RTX 30",
        "RTX 31", "RTX 32", "RTX 33", "RTX 34", "RTX 40", "RTX 41", "RTX 42", "RTX 43", "RTX 44",
        "RTX 50", "RTX 51", "RTX 52", "RTX 53", "RTX 54", "QUADRO", "TESLA", "A100", "A40", "A30",
        "A10", "A6000", "A5000", "A4000",
    ];
    let mut found = false;
    let mut i: usize = 0;
    while i < 32
        invariant
            i <= 32,
            found == exists|j: int| 0 <= j < i && has_infix(u@, #[trigger] pats@[j]@),
            pats@ == seq![
                "GTX 10", "GTX 16", "GTX 17", "RTX 20", "RTX 21", "RTX 22", "RTX 23", "RTX 24", "RTX 30",
                "RTX 31", "RTX 32", "RTX 33", "RTX 34", "RTX 40", "RTX 41", "RTX 42", "RTX 43", "RTX 44",
                "RTX 50", "RTX 51", "RTX 52", "RTX 53", "RTX 54", "QUADRO", "TESLA", "A100", "A40", "A30",
                "A10", "A6000", "A5000", "A4000",
            ],
        decreases 32 - i,
    {
        if contains_str(u, pats[i]) {
            found = true;
        }
        i = i + 1;
    }
    proof {
        if modern_nvidia_upper(u@) {
            assert(found) by {
                if has_infix(u@, "GTX 10"@) { assert(has_infix(u@, pats@[0]@)); }
                if has_infix(u@, "GTX 16"@) { assert(has_infix(u@, pats@[1]@)); }
                if has_infix(u@, "GTX 17"@) { assert(has_infix(u@, pats@[2]@)); }
                if has_infix(u@, "RTX 20"@) { assert(has_infix(u@, pats@[3]@)); }
                if has_infix(u@, "RTX 21"@) { assert(has_infix(u@, pats@[4]@)); }
                if has_infix(u@, "RTX 22"@) { assert(has_infix(u@, pats@[5]@)); }
                if has_infix(u@, "RTX 23"@) { assert(has_infix(u@, pats@[6]@)); }
                if has_infix(u@, "RTX 24"@) { assert(has_infix(u@, pats@[7]@)); }
                if has_infix(u@, "RTX 30"@) { assert(has_infix(u@, pats@[8]@)); }
                if has_infix(u@, "RTX 31"@) { assert(has_infix(u@, pats@[9]@)); }
                if has_infix(u@, "RTX 32"@) { assert(has_infix(u@, pats@[10]@)); }
                if has_infix(u@, "RTX 33"@) { assert(has_infix(u@, pats@[11]@)); }
                if has_infix(u@, "RTX 34"@) { assert(has_infix(u@, pats@[12]@)); }
                if has_infix(u@, "RTX 40"@) { assert(has_infix(u@, pats@[13]@)); }
                if has_infix(u@, "RTX 41"@) { assert(has_infix(u@, pats@[14]@)); }
                if has_infix(u@, "RTX 42"@) { assert(has_infix(u@, pats@[15]@)); }
                if has_infix(u@, "RTX 43"@) { assert(has_infix(u@, pats@[16]@)); }
                if has_infix(u@, "RTX 44"@) { assert(has_infix(u@, pats@[17]@)); }
                if has_infix(u@, "RTX 50"@) { assert(has_infix(u@, pats@[18]@)); }
                if has_infix(u@, "RTX 51"@) { assert(has_infix(u@, pats@[19]@)); }
                if has_infix(u@, "RTX 52"@) { assert(has_infix(u@, pats@[20]@)); }
                if has_infix(u@, "RTX 53"@) { assert(has_infix(u@, pats@[21]@)); }
                if has_infix(u@, "RTX 54"@) { assert(has_infix(u@, pats@[22]@)); }
                if has_infix(u@, "QUADRO"@) { assert(has_infix(u@, pats@[23]@)); }
                if has_infix(u@, "TESLA"@) { assert(has_infix(u@, pats@[24]@)); }
                if has_infix(u@, "A100"@) { assert(has_infix(u@, pats@[25]@)); }
                if has_infix(u@, "A40"@) { assert(has_infix(u@, pats@[26]@)); }
                if has_infix(u@, "A30"@) { assert(has_infix(u@, pats@[27]@)); }
                if has_infix(u@, "A10"@) { assert(has_infix(u@, pats@[28]@)); }
                if has_infix(u@, "A6000"@) { assert(has_infix(u@, pats@[29]@)); }
                if has_infix(u@, "A5000"@) { assert(has_infix(u@, pats@[30]@)); }
                if has_infix(u@, "A4000"@) { assert(has_infix(u@, pats@[31]@)); }
            }
        }
    }
    found
}

/// Whether some Nvidia device among `devices` is of the Pascal generation or newer.
pub fn check_nv_gpu(devices: &Vec<GpuInfo>) -> (r: bool)
    ensures
        r == exists|i: int|
            0 <= i < devices@.len() && (#[trigger] devices@[i]).gpu_type == GpuType::Nvidia
                && modern_nvidia_upper(upper_of(devices@[i].name@)),
{
    let mut i: usize = 0;
    while i < devices.len()
        invariant
            i <= devices@.len(),
            forall|j: int|
                0 <= j < i ==> !((#[trigger] devices@[j]).gpu_type == GpuType::Nvidia
                    && modern_nvidia_upper(upper_of(devices@[j].name@))),
        decreases devices.len() - i,
    {
        if devices[i].gpu_type == GpuType::Nvidia {
            let up = to_upper(devices[i].name.as_str());
            if modern_nvidia_name(up.as_str()) {
                return true;
            }
        }
        i = i + 1;
    }
    false
}

pub struct GpuDetector;

impl GpuDetector {
    pub fn new() -> Self {
        GpuDetector
    }

    /// The vendor named by a device name: Nvidia for NVIDIA, GEFORCE, QUADRO or TESLA,
    /// Amd for AMD or RADEON, Intel for INTEL, compared in upper case.
    pub fn determine_gpu_type(&self, name: &str) -> (r: GpuType)
        ensures
            r == gpu_type_of_upper(upper_of(name@)),
    {
        let up = to_upper(name);
        self.gpu_type_from_upper(up.as_str())
    }

    /// The vendor named by an upper-cased device name.
    pub fn gpu_type_from_upper(&self, u: &str) -> (r: GpuType)
        ensures
            r == gpu_type_of_upper(u@),
    {
        if contains_str(u, "NVIDIA") || contains_str(u, "GEFORCE") || contains_str(u, "QUADRO")
            || contains_str(u, "TESLA") {
            GpuType::Nvidia
        } else if contains_str(u, "AMD") || contains_str(u, "RADEON") {
            GpuType::Amd
        } else if contains_str(u, "INTEL") {
            GpuType::Intel
        } else {
            GpuType::Unknown
        }
    }

    /// Reads the first line that `nvidia-smi` printed: name, memory in MB and driver
    /// version, separated by commas. The device is always an Nvidia one.
    pub fn parse_nvidia_smi_output(&self, line: &str) -> (r: Result<
        Option<GpuInfo>,
        PortableSourceError,
    >)
        ensures
            match smi_line_result(line@) {
                Ok((name, mem)) => r matches Ok(Some(g)) && g.name@ == name && g.memory_mb
                    == mem && g.gpu_type == GpuType::Nvidia && opt_str_view(g.driver_version)
                    == Some(csv_fields(line@)[2]),
                Err(_) => r is Err && (r matches Err(PortableSourceError::GpuDetection { .. })),
            },
    {
        let chars = chars_of(line);
        let raw = split_chars(&chars, ',');
        proof {
            lemma_split_char_nonempty(line@, ',');
        }
        if raw.len() < 3 {
            return Err(PortableSourceError::gpu_detection("Invalid nvidia-smi output format"));
        }
        let name = trim_chars(&raw[0]);
        let mem_text = trim_chars(&raw[1]);
        let driver = trim_chars(&raw[2]);
        proof {
            assert(views(raw@)[0] == raw@[0]@);
            assert(views(raw@)[1] == raw@[1]@);
            assert(views(raw@)[2] == raw@[2]@);
        }
        match parse_decimal(&mem_text, 0xffff_ffff) {
            Some(m) => Ok(
                Some(
                    GpuInfo {
                        name: string_of(&name),
                        gpu_type: GpuType::Nvidia,
                        memory_mb: m as u32,
                        driver_version: Some(string_of(&driver)),
                    },
                ),
            ),
            None => Err(PortableSourceError::gpu_detection("Failed to parse GPU memory")),
        }
    }

    /// The device of one line of the PCI device listing, if the line names a known vendor;
    /// the name is the text between the first two double quotes, or the whole line.
    pub fn parse_lspci_line(&self, line: &str) -> (r: Option<GpuInfo>)
        ensures
            lspci_type_of_upper(upper_of(line@)) == GpuType::Unknown <==> r is None,
            r matches Some(g) ==> g.gpu_type == lspci_type_of_upper(upper_of(line@))
                && g.name@ == quoted_name(line@) && g.memory_mb == 0 && g.driver_version is None,
    {
        let up = to_upper(line);
        let u = up.as_str();
        let t = if contains_str(u, "NVIDIA") {
            GpuType::Nvidia
        } else if contains_str(u, "AMD") || contains_str(u, "ATI") || contains_str(u, "RADEON") {
            GpuType::Amd
        } else if contains_str(u, "INTEL") {
            GpuType::Intel
        } else {
            GpuType::Unknown
        };
        if t == GpuType::Unknown {
            return None;
        }
        let chars = chars_of(line);
        let start = index_of_char_exec(&chars, '"');
        let name = if start < chars.len() {
            let rest = slice_chars(&chars, start + 1, chars.len());
            let end = index_of_char_exec(&rest, '"');
            if end < rest.len() {
                string_of(&slice_chars(&rest, 0, end))
            } else {
                line.to_owned()
            }
        } else {
            line.to_owned()
        };
        Some(GpuInfo { name, gpu_type: t, memory_mb: 0, driver_version: None })
    }

    /// The device of one line of the management interface's CSV listing
    /// (`Node,DriverVersion,AdapterRAM,Name`): none for blank, header or short lines. The
    /// memory is the adapter RAM in MB (0 when unreadable), kept to 32 bits as a cast does.
    pub fn parse_wmic_line(&self, line: &str) -> (r: Option<GpuInfo>)
        ensures
            match wmic_fields(line@) {
                Some((name, ram, driver)) => r matches Some(g) && g.name@ == name
                    && g.memory_mb as int == (ram / 1048576) % 0x1_0000_0000
                    && opt_str_view(g.driver_version) == driver
                    && g.gpu_type == gpu_type_of_upper(upper_of(name)),
                None => r is None,
            },
    {
        let chars = chars_of(line);
        let t = trim_chars(&chars);
        if t.len() == 0 {
            return None;
        }
        let raw = split_chars(&chars, ',');
        if raw.len() < 4 {
            return None;
        }
        proof {
            assert(views(raw@)[1] == raw@[1]@);
            assert(views(raw@)[2] == raw@[2]@);
            assert(views(raw@)[3] == raw@[3]@);
        }
        let name = string_of(&trim_chars(&raw[3]));
        if name.as_str().is_empty() || crate::text::same_text(name.as_str(), "Name") {
            return None;
        }
        let ram_text = trim_chars(&raw[2]);
        let ram: u64 = match parse_decimal(&ram_text, 0xffff_ffff_ffff_ffff) {
            Some(v) => v,
            None => 0,
        };
        let mb = ram / 1048576;
        let memory_mb = (mb % 0x1_0000_0000) as u32;
        let dv = string_of(&trim_chars(&raw[1]));
        let driver_version = if dv.as_str().is_empty() || crate::text::same_text(
            dv.as_str(),
            "DriverVersion",
        ) {
            None
        } else {
            Some(dv)
        };
        let gpu_type = self.determine_gpu_type(name.as_str());
        Some(GpuInfo { name, gpu_type, memory_mb, driver_version })
    }

    /// The device of the OpenGL renderer line.
    pub fn parse_glxinfo_line(&self, line: &str) -> (r: GpuInfo)
        ensures
            r.name@ == line@,
            r.gpu_type == renderer_type_of_lower(lower_of(line@)),
            r.memory_mb == 0,
            r.driver_version is None,
    {
        let low = to_lower(line);
        let l = low.as_str();
        let t = if contains_str(l, "nvidia") {
            GpuType::Nvidia
        } else if contains_str(l, "amd") || contains_str(l, "radeon") {
            GpuType::Amd
        } else if contains_str(l, "intel") {
            GpuType::Intel
        } else {
            GpuType::Unknown
        };
        GpuInfo { name: line.to_owned(), gpu_type: t, memory_mb: 0, driver_version: None }
    }

    /// The best device: the one the vendor query reported if any, else the first Nvidia
    /// device of the enumeration, else its first device, else none.
    pub fn get_best_gpu(&self, nvidia_query: Option<GpuInfo>, devices: Vec<GpuInfo>) -> (r:
        Option<GpuInfo>)
        ensures
            nvidia_query is Some ==> r == nvidia_query,
            nvidia_query is None && devices.len() == 0 ==> r is None,
            nvidia_query is None && devices.len() > 0 ==> r == Some(
                devices@[preferred_index(devices@)],
            ),
    {
        if nvidia_query.is_some() {
            return nvidia_query;
        }
        let mut devs = devices;
        let mut i: usize = 0;
        while i < devs.len()
            invariant
                nvidia_query is None,
                devs@ == devices@,
                i <= devices.len(),
                forall|j: int| 0 <= j < i ==> devices@[j].gpu_type != GpuType::Nvidia,
            decreases devices.len() - i,
        {
            if devs[i].gpu_type == GpuType::Nvidia {
                let ghost k = preferred_index(devices@);
                assert(k == i as int) by {
                    assert(0 <= i < devices.len() && devices@[i as int].gpu_type
                        == GpuType::Nvidia);
                    if k < i {
                    } else if k > i {
                    }
                }
                return Some(devs.remove(i));
            }
            i = i + 1;
        }
        if devs.len() == 0 {
            None
        } else {
            Some(devs.remove(0))
        }
    }

    /// Whether the vendor query printed a well-formed line.
    pub fn has_nvidia_gpu(&self, smi_first_line: Option<&str>) -> (r: bool)
        ensures
            r == (smi_first_line matches Some(l) && smi_line_result(l@) is Ok),
    {
        match smi_first_line {
            Some(l) => match self.parse_nvidia_smi_output(l) {
                Ok(Some(_)) => true,
                _ => false,
            },
            None => false,
        }
    }
}

} // verus!
