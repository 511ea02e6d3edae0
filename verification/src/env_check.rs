//! Whether the machine can run the application: Python, disk and memory.

use crate::number;
use crate::paths::{Joined, Platform};
use crate::search;
use crate::search::{Candidate, CandidateView, PlaceView, SearchView, StageView, ToolSearch};
use crate::text;
use vstd::prelude::*;

verus! {

/// The number that `s` writes, of 32 bits and without a minus sign.
pub open spec fn number_in(s: Seq<char>) -> Option<u32> {
    match number::unsigned(s, u32::MAX as nat) {
        Some(n) => Some(n as u32),
        None => None,
    }
}

/// The major and minor version that a text such as `Python 3.12.3` gives: the
/// first two numbers, between dots, of its second word.
pub open spec fn version_in(s: Seq<char>) -> Option<(u32, u32)> {
    let parts = text::words(s);
    if parts.len() >= 2 {
        let version = text::fields(parts[1], '.');
        if version.len() >= 2 && number_in(version[0]) is Some && number_in(version[1]) is Some {
            Some((number_in(version[0])->0, number_in(version[1])->0))
        } else {
            None
        }
    } else {
        None
    }
}

/// Reads the major and minor version from a text such as `Python 3.12.3`.
pub fn parse_python_version(s: &str) -> (r: Option<(u32, u32)>)
    ensures
        r == version_in(s@),
{
    let parts = text::split_whitespace(s);
    assert(parts.deep_view().len() == parts.len());
    if parts.len() >= 2 {
        assert(parts.deep_view()[1] == parts[1]@);
        let version = text::split_char(parts[1].as_str(), '.');
        assert(version.deep_view().len() == version.len());
        if version.len() >= 2 {
            assert(version.deep_view()[0] == version[0]@);
            assert(version.deep_view()[1] == version[1]@);
            let major = match number::parse_u32(version[0].as_str()) {
                Some(n) => n,
                None => return None,
            };
            let minor = match number::parse_u32(version[1].as_str()) {
                Some(n) => n,
                None => return None,
            };
            return Some((major, minor));
        }
    }
    None
}

/// A printed version is read back: where the second word of a text is two numbers
/// with a dot between them, behind which nothing or a further dot may follow, those
/// are the version. White space may stand around the words, and anything behind the
/// second one.
pub proof fn a_printed_version_is_read_back(
    before: Seq<char>,
    name: Seq<char>,
    gap: Seq<char>,
    major: u32,
    minor: u32,
    patch: Seq<char>,
    after: Seq<char>,
)
    requires
        forall|j: int| 0 <= j < before.len() ==> text::is_space(#[trigger] before[j]),
        name.len() > 0,
        forall|j: int| 0 <= j < name.len() ==> !text::is_space(#[trigger] name[j]),
        gap.len() > 0,
        forall|j: int| 0 <= j < gap.len() ==> text::is_space(#[trigger] gap[j]),
        forall|j: int| 0 <= j < patch.len() ==> !text::is_space(#[trigger] patch[j]),
        patch.len() > 0 ==> patch[0] == '.',
        after.len() > 0 ==> text::is_space(after[0]),
    ensures
        version_in(
            before + name + gap + (number::decimal(major as nat) + seq!['.'] + number::decimal(
                minor as nat,
            ) + patch) + after,
        ) == Some((major, minor)),
{
    let x = number::decimal(major as nat);
    let y = number::decimal(minor as nat);
    let version = x + seq!['.'] + y + patch;
    number::lemma_decimal(major as nat);
    number::lemma_decimal(minor as nat);
    number::decimal_reads_back(major as nat, u32::MAX as nat);
    number::decimal_reads_back(minor as nat, u32::MAX as nat);
    assert forall|j: int| 0 <= j < x.len() implies #[trigger] x[j] != '.' && !text::is_space(
        x[j],
    ) by {
        assert(number::is_digit(x[j]));
    }
    assert forall|j: int| 0 <= j < y.len() implies #[trigger] y[j] != '.' && !text::is_space(
        y[j],
    ) by {
        assert(number::is_digit(y[j]));
    }
    let n = x.len() as int;
    let m = y.len() as int;
    assert forall|j: int| 0 <= j < version.len() implies !text::is_space(#[trigger] version[j]) by {
        if j < n {
            assert(version[j] == x[j]);
        } else if j == n {
            assert(version[j] == '.');
        } else if j < n + 1 + m {
            assert(version[j] == y[j - n - 1]);
        } else {
            assert(version[j] == patch[j - n - 1 - m]);
        }
    }
    let s = before + name + gap + version + after;
    text::lemma_words_after_space(before, name + (gap + (version + after)));
    assert(s =~= before + (name + (gap + (version + after))));
    assert((gap + (version + after))[0] == gap[0]);
    text::lemma_first_word(name, gap + (version + after));
    text::lemma_words_after_space(gap, version + after);
    text::lemma_first_word(version, after);
    assert(text::words(s)[1] == version);
    let rest = seq!['.'] + y + patch;
    text::lemma_first_field(x, rest, '.');
    assert(x + rest =~= version);
    assert(rest.skip(1) =~= y + patch);
    text::lemma_first_field(y, patch, '.');
    assert(text::fields(version, '.')[0] == x);
    assert(text::fields(version, '.')[1] == y);
}

/// Whether what a Python printed as its version says that it is new enough: 3.10
/// or later.
pub open spec fn supported(output: Seq<char>) -> bool {
    match version_in(output) {
        Some((major, minor)) => major > 3 || (major == 3 && minor >= 10),
        None => false,
    }
}

/// Whether what a Python printed as its version says that it is 3.10 or later.
pub fn check_python_version(output: &str) -> (r: bool)
    ensures
        r == supported(output@),
{
    match parse_python_version(output) {
        Some((major, minor)) => major > 3 || (major == 3 && minor >= 10),
        None => false,
    }
}

/// The version text to show, out of what a Python printed.
pub fn get_python_version(output: &str) -> (r: String)
    ensures
        r@ == text::trimmed(output@),
{
    text::trim(output).to_string()
}

/// What Python may be called on a platform, the likeliest first.
pub open spec fn python_names(platform: Platform) -> Seq<Seq<char>> {
    if platform == Platform::Windows {
        seq!["python"@, "python3"@, "py"@]
    } else {
        seq!["python3"@, "python"@]
    }
}

/// The directories in which Python is looked for besides the search path. On
/// Windows they are below the local application data, where that is known.
pub open spec fn python_dirs(
    platform: Platform,
    local_app_data: Option<Seq<char>>,
) -> Seq<PlaceView> {
    let none = Seq::<Seq<char>>::empty();
    match platform {
        Platform::MacOs => seq![
            ("/opt/homebrew/bin"@, none),
            ("/usr/local/bin"@, none),
            ("/usr/bin"@, none),
        ],
        Platform::Linux => seq![("/usr/bin"@, none), ("/usr/local/bin"@, none)],
        Platform::Windows => match local_app_data {
            Some(home) => seq![
                (home, seq!["Programs"@, "Python"@, "Python312"@]),
                (home, seq!["Programs"@, "Python"@, "Python311"@]),
                (home, seq!["Programs"@, "Python"@, "Python310"@]),
            ],
            None => seq![],
        },
        Platform::Other => seq![],
    }
}

/// The file that a Python of that name is in.
pub open spec fn python_file(platform: Platform, name: Seq<char>) -> Seq<char> {
    if platform == Platform::Windows {
        name + ".exe"@
    } else {
        name
    }
}

/// The names as candidates on the search path.
pub open spec fn on_path(names: Seq<Seq<char>>) -> Seq<CandidateView> {
    names.map_values(|n: Seq<char>| CandidateView::OnPath(n))
}

/// The names as candidates in one directory.
pub open spec fn in_dir(
    platform: Platform,
    dir: PlaceView,
    names: Seq<Seq<char>>,
) -> Seq<CandidateView> {
    names.map_values(
        |n: Seq<char>| CandidateView::At((dir.0, dir.1.push(python_file(platform, n)))),
    )
}

/// The names as candidates in each of the directories, one after the other.
pub open spec fn in_dirs(
    platform: Platform,
    dirs: Seq<PlaceView>,
    names: Seq<Seq<char>>,
) -> Seq<CandidateView>
    decreases dirs.len(),
{
    if dirs.len() == 0 {
        seq![]
    } else {
        in_dirs(platform, dirs.drop_last(), names) + in_dir(platform, dirs.last(), names)
    }
}

/// Everywhere Python is looked for: the search path first, then the usual
/// directories.
pub open spec fn python_candidates(
    platform: Platform,
    local_app_data: Option<Seq<char>>,
) -> Seq<CandidateView> {
    on_path(python_names(platform)) + in_dirs(
        platform,
        python_dirs(platform, local_app_data),
        python_names(platform),
    )
}

fn name_list(platform: Platform) -> (r: Vec<String>)
    ensures
        r.deep_view() == python_names(platform),
{
    let r = if platform.is_windows() {
        vec!["python".to_string(), "python3".to_string(), "py".to_string()]
    } else {
        vec!["python3".to_string(), "python".to_string()]
    };
    assert(r.deep_view() =~= python_names(platform));
    r
}

fn below_local(home: &str, version: &str) -> (r: Joined<String>)
    ensures
        search::place(r) == (home@, seq!["Programs"@, "Python"@, version@]),
{
    let r = Joined::at(home.to_string()).join("Programs").join("Python").join(version);
    assert(r.names.deep_view() =~= seq!["Programs"@, "Python"@, version@]);
    r
}

fn plain_dir(dir: &str) -> (r: Joined<String>)
    ensures
        search::place(r) == (dir@, Seq::<Seq<char>>::empty()),
{
    Joined::at(dir.to_string())
}

/// The views of a list of places.
pub open spec fn places(list: Seq<Joined<String>>) -> Seq<PlaceView> {
    list.map_values(|j: Joined<String>| search::place(j))
}

fn dir_list(platform: Platform, local_app_data: Option<&str>) -> (r: Vec<Joined<String>>)
    ensures
        places(r@) == python_dirs(platform, local_app_data.deep_view()),
{
    let r = match platform {
        Platform::MacOs => vec![
            plain_dir("/opt/homebrew/bin"),
            plain_dir("/usr/local/bin"),
            plain_dir("/usr/bin"),
        ],
        Platform::Linux => vec![plain_dir("/usr/bin"), plain_dir("/usr/local/bin")],
        Platform::Windows => match local_app_data {
            Some(home) => vec![
                below_local(home, "Python312"),
                below_local(home, "Python311"),
                below_local(home, "Python310"),
            ],
            None => Vec::new(),
        },
        Platform::Other => Vec::new(),
    };
    assert(places(r@) =~= python_dirs(platform, local_app_data.deep_view()));
    r
}

/// Adds the names as candidates in one directory.
fn add_dir(
    list: &mut Vec<Candidate>,
    platform: Platform,
    dir: &Joined<String>,
    names: &Vec<String>,
)
    ensures
        final(list).deep_view() == old(list).deep_view() + in_dir(
            platform,
            search::place(*dir),
            names.deep_view(),
        ),
{
    let ghost first = list.deep_view();
    let ghost added = in_dir(platform, search::place(*dir), names.deep_view());
    let mut i: usize = 0;
    assert(first + added.take(0) =~= first);
    while i < names.len()
        invariant
            0 <= i <= names.len(),
            added == in_dir(platform, search::place(*dir), names.deep_view()),
            list.deep_view() == first + added.take(i as int),
        decreases names.len() - i,
    {
        let mut file = names[i].clone();
        if platform.is_windows() {
            file.append(".exe");
        }
        let at = Joined {
            base: dir.base.clone(),
            names: text::copy_list(&dir.names),
        }.join(file.as_str());
        let ghost before = list.deep_view();
        list.push(Candidate::At(at));
        proof {
            assert(added[i as int] == CandidateView::At(search::place(at)));
            assert(list.deep_view() =~= before.push(added[i as int]));
            assert(first + added.take(i + 1) =~= before.push(added[i as int]));
        }
        i += 1;
    }
    assert(added.take(names.len() as int) =~= added);
}

/// The search for a Python that is new enough: first whatever the system finds on
/// its search path, then the usual directories. `local_app_data` is the
/// directory that Windows gives for the data of applications.
pub fn find_python(platform: Platform, local_app_data: Option<&str>) -> (r: ToolSearch)
    ensures
        r@ == (SearchView {
            rest: python_candidates(platform, local_app_data.deep_view()),
            stage: StageView::Look,
            wants_python: true,
        }),
{
    let names = name_list(platform);
    let dirs = dir_list(platform, local_app_data);
    let ghost ns = names.deep_view();
    let ghost ds = places(dirs@);
    let mut list: Vec<Candidate> = Vec::new();
    let mut i: usize = 0;
    assert(list.deep_view() =~= on_path(ns).take(0));
    while i < names.len()
        invariant
            0 <= i <= names.len(),
            ns == names.deep_view(),
            list.deep_view() == on_path(ns).take(i as int),
        decreases names.len() - i,
    {
        let ghost before = list.deep_view();
        list.push(Candidate::OnPath(names[i].clone()));
        proof {
            assert(on_path(ns)[i as int] == CandidateView::OnPath(names[i as int]@));
            assert(list.deep_view() =~= before.push(on_path(ns)[i as int]));
            assert(on_path(ns).take(i + 1) =~= before.push(on_path(ns)[i as int]));
        }
        i += 1;
    }
    let mut k: usize = 0;
    proof {
        assert(on_path(ns).take(names.len() as int) =~= on_path(ns));
        assert(on_path(ns) + in_dirs(platform, ds.take(0), ns) =~= on_path(ns));
    }
    while k < dirs.len()
        invariant
            0 <= k <= dirs.len(),
            ns == names.deep_view(),
            ds == places(dirs@),
            list.deep_view() == on_path(ns) + in_dirs(platform, ds.take(k as int), ns),
        decreases dirs.len() - k,
    {
        add_dir(&mut list, platform, &dirs[k], &names);
        proof {
            assert(ds.take(k + 1).drop_last() =~= ds.take(k as int));
            assert(ds.take(k + 1).last() == search::place(dirs[k as int]));
            assert(list.deep_view() =~= on_path(ns) + in_dirs(platform, ds.take(k + 1), ns));
        }
        k += 1;
    }
    assert(ds.take(dirs.len() as int) =~= ds);
    ToolSearch::new(list, true)
}

/// The least free disk space: three gigabytes.
pub const MIN_DISK_BYTES: u64 = 3_221_225_472;

/// The least memory: four gigabytes.
pub const MIN_MEMORY_BYTES: u64 = 4_294_967_296;

/// The bytes of a gigabyte.
pub const GIGABYTE: u64 = 1_073_741_824;

/// A number of bytes in tenths of a gigabyte, rounded to the nearest; of two that
/// are equally near, the even one.
pub open spec fn tenths(bytes: nat) -> nat {
    let whole = bytes * 10 / (GIGABYTE as nat);
    let rest = bytes * 10 % (GIGABYTE as nat);
    if rest * 2 > GIGABYTE || (rest * 2 == GIGABYTE && whole % 2 == 1) {
        whole + 1
    } else {
        whole
    }
}

/// A number of bytes as gigabytes with one decimal place.
pub open spec fn gigabytes(bytes: nat) -> Seq<char> {
    number::decimal(tenths(bytes) / 10) + "."@ + number::decimal(tenths(bytes) % 10)
}

fn gigabyte_text(bytes: u64) -> (r: String)
    requires
        bytes < MIN_MEMORY_BYTES,
    ensures
        r@ == gigabytes(bytes as nat),
{
    let whole: u64 = bytes * 10 / GIGABYTE;
    let rest: u64 = bytes * 10 % GIGABYTE;
    let t: u64 = if rest * 2 > GIGABYTE || (rest * 2 == GIGABYTE && whole % 2 == 1) {
        whole + 1
    } else {
        whole
    };
    let mut r = number::to_decimal(t / 10);
    r.append(".");
    r.append(number::to_decimal(t % 10).as_str());
    r
}

/// A Python that was found: where it is and, where it could be asked, what it
/// says its version is.
#[derive(Debug)]
pub struct FoundPython {
    pub path: String,
    pub version: Option<String>,
}

/// What was found out about the machine.
#[derive(Debug)]
pub struct Findings {
    /// The operating system.
    pub platform: Platform,
    /// What the operating system is called.
    pub os: String,
    /// What the processor architecture is called.
    pub arch: String,
    /// The Python of the system.
    pub system_python: Option<FoundPython>,
    /// The Python of the virtual environment, where there is one.
    pub venv_python: Option<FoundPython>,
    /// The free disk space in bytes.
    pub disk_free_bytes: u64,
    /// The memory in bytes.
    pub memory_bytes: u64,
}

/// What the machine offers, and what is wrong with it.
#[derive(Debug)]
pub struct EnvInfo {
    /// Where Python is.
    pub python_path: Option<String>,
    /// What Python says its version is.
    pub python_version: Option<String>,
    /// The free disk space in bytes.
    pub disk_free_bytes: u64,
    /// The memory in bytes.
    pub memory_bytes: u64,
    /// The operating system and the processor architecture.
    pub os_name: String,
    /// What has to be mended before the application can run.
    pub errors: Vec<String>,
    /// What is worth knowing but does not stop the application.
    pub warnings: Vec<String>,
}

/// How to get Python on a platform.
pub open spec fn install_hint(platform: Platform) -> Seq<char> {
    match platform {
        Platform::MacOs => "macOS: brew install python@3.10\n"@,
        Platform::Linux =>
            "Linux: 使用包管理器安装，如 apt install python3 或 dnf install python3\n"@,
        Platform::Windows =>
            "Windows: 从 python.org 下载安装，或使用 winget install Python.Python.3.12\n"@,
        Platform::Other => seq![],
    }
}

/// What is said where there is no Python.
pub open spec fn no_python_message(platform: Platform) -> Seq<char> {
    "未找到 Python 3.10+。请安装 Python 3.10 或更高版本。\n"@ + install_hint(platform)
        + "或从 https://www.python.org/downloads/ 下载"@
}

/// What is said where the disk is too full.
pub open spec fn disk_message(bytes: nat) -> Seq<char> {
    "磁盘空间不足（剩余 "@ + gigabytes(bytes) + " GB，建议至少 3 GB 用于安装依赖）"@
}

/// What is said where there is little memory.
pub open spec fn memory_message(bytes: nat) -> Seq<char> {
    "可用内存较小（"@ + gigabytes(bytes)
        + " GB），专家模式（深度学习）可能不稳定，建议使用极速模式"@
}

/// The version to show: the system's Python first, else that of the virtual
/// environment, marked as such.
pub open spec fn shown_version(f: Findings) -> Option<Seq<char>> {
    match f.system_python {
        Some(p) => p.version.deep_view(),
        None => match f.venv_python {
            Some(p) => match p.version {
                Some(v) => Some(v@ + " (由 uv 管理)"@),
                None => None,
            },
            None => None,
        },
    }
}

/// The path to show: the system's Python first, else that of the virtual
/// environment where it gave its version.
pub open spec fn shown_path(f: Findings) -> Option<Seq<char>> {
    match f.system_python {
        Some(p) => Some(p.path@),
        None => match f.venv_python {
            Some(p) => if p.version is Some {
                Some(p.path@)
            } else {
                None
            },
            None => None,
        },
    }
}

/// What has to be mended: Python is missing altogether, or the disk is too full.
pub open spec fn errors_for(f: Findings) -> Seq<Seq<char>> {
    (if f.system_python is None && f.venv_python is None {
        seq![no_python_message(f.platform)]
    } else {
        seq![]
    }) + (if f.disk_free_bytes < MIN_DISK_BYTES {
        seq![disk_message(f.disk_free_bytes as nat)]
    } else {
        seq![]
    })
}

/// What is worth knowing: there is little memory.
pub open spec fn warnings_for(f: Findings) -> Seq<Seq<char>> {
    if f.memory_bytes < MIN_MEMORY_BYTES {
        seq![memory_message(f.memory_bytes as nat)]
    } else {
        seq![]
    }
}

/// What the machine offers and what is wrong with it, out of what was found.
pub fn check(found: Findings) -> (r: EnvInfo)
    ensures
        r.python_path.deep_view() == shown_path(found),
        r.python_version.deep_view() == shown_version(found),
        r.disk_free_bytes == found.disk_free_bytes,
        r.memory_bytes == found.memory_bytes,
        r.os_name@ == found.os@ + " "@ + found.arch@,
        r.errors.deep_view() == errors_for(found),
        r.warnings.deep_view() == warnings_for(found),
{
    let mut errors: Vec<String> = Vec::new();
    let mut warnings: Vec<String> = Vec::new();
    let mut python_path: Option<String> = None;
    let mut python_version: Option<String> = None;
    let mut os_name = found.os.clone();
    os_name.append(" ");
    os_name.append(found.arch.as_str());
    match &found.system_python {
        Some(p) => {
            python_version = match &p.version {
                Some(v) => Some(v.clone()),
                None => None,
            };
            python_path = Some(p.path.clone());
        },
        None => match &found.venv_python {
            Some(p) => match &p.version {
                Some(v) => {
                    let mut shown = v.clone();
                    shown.append(" (由 uv 管理)");
                    python_version = Some(shown);
                    python_path = Some(p.path.clone());
                },
                None => {},
            },
            None => {
                let mut message = "未找到 Python 3.10+。请安装 Python 3.10 或更高版本。\n".to_string();
                match found.platform {
                    Platform::MacOs => message.append("macOS: brew install python@3.10\n"),
                    Platform::Linux => message.append(
                        "Linux: 使用包管理器安装，如 apt install python3 或 dnf install python3\n",
                    ),
                    Platform::Windows => message.append(
                        "Windows: 从 python.org 下载安装，或使用 winget install Python.Python.3.12\n",
                    ),
                    Platform::Other => {},
                }
                message.append("或从 https://www.python.org/downloads/ 下载");
                assert(message@ =~= no_python_message(found.platform));
                errors.push(message);
            },
        },
    }
    if found.disk_free_bytes < MIN_DISK_BYTES {
        let mut message = "磁盘空间不足（剩余 ".to_string();
        message.append(gigabyte_text(found.disk_free_bytes).as_str());
        message.append(" GB，建议至少 3 GB 用于安装依赖）");
        errors.push(message);
    }
    if found.memory_bytes < MIN_MEMORY_BYTES {
        let mut message = "可用内存较小（".to_string();
        message.append(gigabyte_text(found.memory_bytes).as_str());
        message.append(" GB），专家模式（深度学习）可能不稳定，建议使用极速模式");
        warnings.push(message);
    }
    assert(errors.deep_view() =~= errors_for(found));
    assert(warnings.deep_view() =~= warnings_for(found));
    EnvInfo {
        python_path,
        python_version,
        disk_free_bytes: found.disk_free_bytes,
        memory_bytes: found.memory_bytes,
        os_name,
        errors,
        warnings,
    }
}

/// A disk: where it is mounted, as the names that lead there from the root of the
/// file system, and its free space in bytes.
#[derive(Debug)]
pub struct Disk {
    pub mount_point: Vec<String>,
    pub available: u64,
}

/// Whether the directory that `dir` leads to lies at or below the mount point of a
/// disk.
pub open spec fn is_below(dir: Seq<Seq<char>>, disk: Disk) -> bool {
    disk.mount_point.deep_view().is_prefix_of(dir)
}

/// Whether the disk `i` is the one that a directory is on: the directory lies below
/// its mount point, and below no longer one. Of disks that are mounted at the same
/// place the first counts.
pub open spec fn is_disk_of(dir: Seq<Seq<char>>, disks: Seq<Disk>, i: int) -> bool {
    &&& 0 <= i < disks.len()
    &&& is_below(dir, disks[i])
    &&& forall|j: int|
        #![trigger disks[j]]
        0 <= j < disks.len() && is_below(dir, disks[j]) ==> disks[j].mount_point@.len()
            <= disks[i].mount_point@.len() && (j < i ==> disks[j].mount_point@.len()
            < disks[i].mount_point@.len())
}

/// The free space that counts: that of the disk that the directory is on; where it
/// is on none of them, that of the first disk; where there is no disk, none.
pub open spec fn free_space(dir: Seq<Seq<char>>, disks: Seq<Disk>) -> u64 {
    if exists|i: int| is_disk_of(dir, disks, i) {
        disks[choose|i: int| is_disk_of(dir, disks, i)].available
    } else if disks.len() > 0 {
        disks[0].available
    } else {
        0
    }
}

fn lies_below(dir: &Vec<String>, disk: &Disk) -> (r: bool)
    ensures
        r == is_below(dir.deep_view(), *disk),
{
    let ghost whole = dir.deep_view();
    let ghost head = disk.mount_point.deep_view();
    assert(whole.len() == dir.len());
    assert(head.len() == disk.mount_point.len());
    if disk.mount_point.len() > dir.len() {
        return false;
    }
    let mut k: usize = 0;
    while k < disk.mount_point.len()
        invariant
            0 <= k <= disk.mount_point.len() <= dir.len(),
            whole == dir.deep_view(),
            head == disk.mount_point.deep_view(),
            forall|j: int| 0 <= j < k ==> #[trigger] head[j] == whole[j],
        decreases disk.mount_point.len() - k,
    {
        assert(head[k as int] == disk.mount_point[k as int]@);
        assert(whole[k as int] == dir[k as int]@);
        if !text::same(disk.mount_point[k].as_str(), dir[k].as_str()) {
            proof {
                if head.is_prefix_of(whole) {
                    assert(whole.subrange(0, head.len() as int)[k as int] == whole[k as int]);
                }
            }
            return false;
        }
        k += 1;
    }
    assert(head =~= whole.subrange(0, head.len() as int));
    true
}

/// Whether a directory lies below the mount point of none of the disks.
pub open spec fn on_no_disk(dir: Seq<Seq<char>>, disks: Seq<Disk>) -> bool {
    forall|j: int| #![trigger disks[j]] 0 <= j < disks.len() ==> !is_below(dir, disks[j])
}

/// Where `best` is the disk that a directory is on, if any, one more disk takes its
/// place exactly where the directory lies below its mount point and that is longer.
proof fn lemma_one_more_disk(dir: Seq<Seq<char>>, seen: Seq<Disk>, disk: Disk, best: Option<int>)
    requires
        best is None ==> on_no_disk(dir, seen),
        best matches Some(b) ==> is_disk_of(dir, seen, b),
    ensures
        ({
            let more = seen.push(disk);
            if is_below(dir, disk) && (best is None || seen[best->0].mount_point@.len()
                < disk.mount_point@.len()) {
                is_disk_of(dir, more, seen.len() as int)
            } else if best is Some {
                is_disk_of(dir, more, best->0)
            } else {
                on_no_disk(dir, more)
            }
        }),
{
    let more = seen.push(disk);
    assert(more[seen.len() as int] == disk);
    assert forall|j: int| 0 <= j < seen.len() implies #[trigger] more[j] == seen[j] by {}
}

/// The free space on the disk that the working directory is on, in bytes. The
/// directory is given as the names that lead there from the root of the file system.
pub fn free_disk_bytes(working_dir: &Vec<String>, disks: &Vec<Disk>) -> (r: u64)
    ensures
        r == free_space(working_dir.deep_view(), disks@),
{
    let ghost dir = working_dir.deep_view();
    let mut best: Option<usize> = None;
    let mut i: usize = 0;
    while i < disks.len()
        invariant
            0 <= i <= disks.len(),
            dir == working_dir.deep_view(),
            best is None ==> on_no_disk(dir, disks@.take(i as int)),
            best matches Some(b) ==> is_disk_of(dir, disks@.take(i as int), b as int),
        decreases disks.len() - i,
    {
        proof {
            assert(disks@.take(i + 1) =~= disks@.take(i as int).push(disks@[i as int]));
            match best {
                Some(b) => lemma_one_more_disk(
                    dir,
                    disks@.take(i as int),
                    disks@[i as int],
                    Some(b as int),
                ),
                None => lemma_one_more_disk(dir, disks@.take(i as int), disks@[i as int], None),
            }
        }
        if lies_below(working_dir, &disks[i]) {
            let deeper = match best {
                None => true,
                Some(b) => disks[b].mount_point.len() < disks[i].mount_point.len(),
            };
            if deeper {
                best = Some(i);
            }
        }
        i += 1;
    }
    assert(disks@.take(disks.len() as int) =~= disks@);
    match best {
        Some(b) => {
            proof {
                let counted = choose|k: int| is_disk_of(dir, disks@, k);
                assert(is_disk_of(dir, disks@, b as int));
                a_directory_is_on_one_disk(dir, disks@, b as int, counted);
            }
            disks[b].available
        },
        None => if disks.len() > 0 {
            disks[0].available
        } else {
            0
        },
    }
}

/// A directory is on one disk at most.
pub proof fn a_directory_is_on_one_disk(dir: Seq<Seq<char>>, disks: Seq<Disk>, i: int, j: int)
    requires
        is_disk_of(dir, disks, i),
        is_disk_of(dir, disks, j),
    ensures
        i == j,
{
    if i < j {
        assert(is_below(dir, disks[i]));
    } else if j < i {
        assert(is_below(dir, disks[j]));
    }
}

/// A directory is on a disk exactly where it lies below the mount point of one.
pub proof fn a_directory_below_a_mount_point_is_on_a_disk(dir: Seq<Seq<char>>, disks: Seq<Disk>)
    ensures
        (exists|i: int| is_disk_of(dir, disks, i)) <==> exists|i: int|
            0 <= i < disks.len() && is_below(dir, #[trigger] disks[i]),
    decreases disks.len(),
{
    if exists|i: int| is_disk_of(dir, disks, i) {
        let i = choose|i: int| is_disk_of(dir, disks, i);
        assert(is_below(dir, disks[i]));
    } else if disks.len() > 0 {
        let front = disks.drop_last();
        let last = disks.len() - 1;
        a_directory_below_a_mount_point_is_on_a_disk(dir, front);
        if exists|i: int| is_disk_of(dir, front, i) {
            let b = choose|i: int| is_disk_of(dir, front, i);
            assert(disks[b] == front[b]);
            assert forall|j: int| 0 <= j < last implies front[j] == #[trigger] disks[j] by {}
            if is_below(dir, disks[last]) && disks[last].mount_point@.len()
                > disks[b].mount_point@.len() {
                assert(is_disk_of(dir, disks, last));
            } else {
                assert(is_disk_of(dir, disks, b));
            }
        } else {
            assert forall|j: int| 0 <= j < last implies !is_below(dir, #[trigger] disks[j]) by {
                assert(front[j] == disks[j]);
            }
            if is_below(dir, disks[last]) {
                assert(is_disk_of(dir, disks, last));
            }
        }
    }
}

/// The application is never stopped for want of Python where either the system or
/// the virtual environment has one, and never for want of memory.
pub proof fn only_python_and_disk_stop_the_application(f: Findings)
    ensures
        errors_for(f).len() == 0 <==> (f.system_python is Some || f.venv_python is Some)
            && f.disk_free_bytes >= MIN_DISK_BYTES,
{
}

} // verus!
