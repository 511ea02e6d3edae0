//! The look at the machine, and the search for tools.

use pianke::env_check;
use pianke::env_check::{Disk, Findings, FoundPython};
use pianke::paths::{Joined, Platform};
use pianke::python_runtime;
use pianke::search::{Answer, Ask, ToolSearch};

/// A system to search: what its lookup command prints, what there is, and what
/// programs say their version is.
struct System {
    located: Vec<(&'static str, &'static str)>,
    existing: Vec<&'static str>,
    versions: Vec<(&'static str, &'static str)>,
}

fn spelled(j: &Joined<String>) -> String {
    let mut r = j.base.clone();
    for name in &j.names {
        r.push('/');
        r.push_str(name);
    }
    r
}

fn run(system: &System, search: ToolSearch) -> (Option<String>, Vec<String>) {
    let mut search = search;
    let mut asked = Vec::new();
    loop {
        let answer = match search.ask() {
            Ask::Done(found) => return (found.map(|j| spelled(&j)), asked),
            Ask::Locate(name) => {
                asked.push(format!("which {}", name));
                let out = system.located.iter().find(|l| l.0 == name);
                Answer::Located(out.map(|l| l.1.to_string()))
            }
            Ask::Exists(j) => {
                asked.push(format!("exists {}", spelled(&j)));
                Answer::Exists(system.existing.contains(&spelled(&j).as_str()))
            }
            Ask::Version(j) => {
                asked.push(format!("version {}", spelled(&j)));
                let out = system.versions.iter().find(|v| v.0 == spelled(&j));
                Answer::Version(out.map(|v| v.1.to_string()))
            }
        };
        search = search.answer(answer);
    }
}

fn findings() -> Findings {
    Findings {
        platform: Platform::Linux,
        os: "linux".to_string(),
        arch: "x86_64".to_string(),
        system_python: Some(FoundPython {
            path: "/usr/bin/python3".to_string(),
            version: Some("Python 3.12.3".to_string()),
        }),
        venv_python: None,
        disk_free_bytes: 100 * env_check::GIGABYTE,
        memory_bytes: 16 * env_check::GIGABYTE,
    }
}

#[test]
fn versions_are_parsed() {
    assert_eq!(env_check::parse_python_version("Python 3.12.3"), Some((3, 12)));
    assert_eq!(env_check::parse_python_version("Python 3.10"), Some((3, 10)));
    assert_eq!(env_check::parse_python_version("  Python\t2.7.18\n"), Some((2, 7)));
    assert_eq!(env_check::parse_python_version("Python 3"), None);
    assert_eq!(env_check::parse_python_version("Python"), None);
    assert_eq!(env_check::parse_python_version(""), None);
    assert_eq!(env_check::parse_python_version("Python 3.x"), None);
    assert_eq!(env_check::parse_python_version("Python 3.12rc1"), None);
    assert_eq!(env_check::parse_python_version("Python +3.+9"), Some((3, 9)));
    assert_eq!(env_check::parse_python_version("Python 4294967296.1"), None);
    assert_eq!(env_check::parse_python_version("3.12.3"), None);
}

#[test]
fn printed_versions_are_read_back() {
    for (major, minor) in [(0u32, 0u32), (3, 9), (3, 10), (10, 0), (u32::MAX, u32::MAX)] {
        for patch in ["", ".", ".3", ".0rc1", ".1.2"] {
            for after in ["", "\n", " (main)\r\n"] {
                let output = format!(" \tPython \u{3000}{}.{}{}{}", major, minor, patch, after);
                assert_eq!(env_check::parse_python_version(&output), Some((major, minor)));
            }
        }
    }
}

#[test]
fn only_python_from_3_10_on_will_do() {
    assert!(env_check::check_python_version("Python 3.10.0"));
    assert!(env_check::check_python_version("Python 4.0"));
    assert!(!env_check::check_python_version("Python 3.9.18"));
    assert!(!env_check::check_python_version("Python 2.99"));
    assert!(!env_check::check_python_version("garbage"));
    assert_eq!(env_check::get_python_version(" Python 3.12.3\n"), "Python 3.12.3");
}

#[test]
fn python_on_the_path_comes_first() {
    let system = System {
        located: vec![("python3", "/a/python3\n/b/python3\n"), ("python", "/a/python\n")],
        existing: vec!["/usr/bin/python3"],
        versions: vec![("/a/python3", "Python 3.11.1"), ("/usr/bin/python3", "Python 3.12.1")],
    };
    let (found, asked) = run(&system, env_check::find_python(Platform::Linux, None));
    assert_eq!(found, Some("/a/python3".to_string()));
    assert_eq!(asked, vec!["which python3", "version /a/python3"]);
}

#[test]
fn an_old_python_is_passed_over() {
    let system = System {
        located: vec![("python3", "/a/python3\n"), ("python", "\n")],
        existing: vec!["/usr/bin/python3", "/usr/local/bin/python3"],
        versions: vec![
            ("/a/python3", "Python 3.8.1"),
            ("/usr/bin/python3", "Python 3.9.1"),
            ("/usr/local/bin/python3", "Python 3.13.0"),
        ],
    };
    let (found, asked) = run(&system, env_check::find_python(Platform::Linux, None));
    assert_eq!(found, Some("/usr/local/bin/python3".to_string()));
    assert_eq!(
        asked,
        vec![
            "which python3",
            "version /a/python3",
            "which python",
            "exists /usr/bin/python3",
            "version /usr/bin/python3",
            "exists /usr/bin/python",
            "exists /usr/local/bin/python3",
            "version /usr/local/bin/python3",
        ]
    );
}

#[test]
fn windows_has_its_own_places() {
    let place = "C:/L/Programs/Python/Python311/python.exe";
    let system = System {
        located: vec![],
        existing: vec![place],
        versions: vec![(place, "Python 3.11.4")],
    };
    let (found, asked) = run(&system, env_check::find_python(Platform::Windows, Some("C:/L")));
    assert_eq!(found, Some(place.to_string()));
    assert_eq!(asked[0..3], ["which python", "which python3", "which py"]);
    assert_eq!(asked[3], "exists C:/L/Programs/Python/Python312/python.exe");
    assert_eq!(asked[5], "exists C:/L/Programs/Python/Python312/py.exe");
    let (found, asked) = run(&system, env_check::find_python(Platform::Windows, None));
    assert_eq!(found, None);
    assert_eq!(asked.len(), 3);
}

#[test]
fn macos_looks_where_homebrew_installs() {
    let system = System { located: vec![], existing: vec![], versions: vec![] };
    let (found, asked) = run(&system, env_check::find_python(Platform::MacOs, None));
    assert_eq!(found, None);
    assert_eq!(asked[2], "exists /opt/homebrew/bin/python3");
    assert_eq!(asked.len(), 8);
    let (_, asked) = run(&system, env_check::find_python(Platform::Other, None));
    assert_eq!(asked, vec!["which python3", "which python"]);
}

#[test]
fn uv_is_found_without_asking_its_version() {
    let system = System {
        located: vec![("uv", "/gone/uv\n")],
        existing: vec!["/home/u/.cargo/bin/uv"],
        versions: vec![],
    };
    let (found, asked) = run(&system, python_runtime::find_uv(Platform::Linux, Some("/home/u"), None));
    assert_eq!(found, Some("/home/u/.cargo/bin/uv".to_string()));
    assert_eq!(
        asked,
        vec![
            "which uv",
            "exists /gone/uv",
            "exists /home/u/.local/bin/uv",
            "exists /home/u/.cargo/bin/uv",
        ]
    );
    let (found, asked) = run(&system, python_runtime::find_uv(Platform::Linux, None, Some("/l")));
    assert_eq!(found, None);
    assert_eq!(asked.len(), 2);
    let (_, asked) =
        run(&system, python_runtime::find_uv(Platform::Windows, Some("C:/u"), Some("D:/local")));
    assert_eq!(
        asked,
        vec![
            "which uv.exe",
            "exists C:/u/.local/bin/uv.exe",
            "exists C:/u/.cargo/bin/uv.exe",
            "exists D:/local/Programs/uv/uv.exe",
        ]
    );
    let (_, asked) = run(&system, python_runtime::find_uv(Platform::Windows, None, Some("D:/local")));
    assert_eq!(asked, vec!["which uv.exe", "exists D:/local/Programs/uv/uv.exe"]);
}

#[test]
fn a_good_machine_has_nothing_wrong() {
    let info = env_check::check(findings());
    assert_eq!(info.python_path, Some("/usr/bin/python3".to_string()));
    assert_eq!(info.python_version, Some("Python 3.12.3".to_string()));
    assert_eq!(info.os_name, "linux x86_64");
    assert!(info.errors.is_empty());
    assert!(info.warnings.is_empty());
    assert_eq!(info.disk_free_bytes, 100 * env_check::GIGABYTE);
    assert_eq!(info.memory_bytes, 16 * env_check::GIGABYTE);
}

#[test]
fn a_python_that_gives_no_version_still_counts() {
    let mut f = findings();
    f.system_python = Some(FoundPython { path: "/p".to_string(), version: None });
    let info = env_check::check(f);
    assert_eq!(info.python_path, Some("/p".to_string()));
    assert_eq!(info.python_version, None);
    assert!(info.errors.is_empty());
}

#[test]
fn the_virtual_environment_stands_in_for_the_system() {
    let mut f = findings();
    f.system_python = None;
    f.venv_python = Some(FoundPython {
        path: "/v/python3".to_string(),
        version: Some("Python 3.11.0".to_string()),
    });
    let info = env_check::check(f);
    assert_eq!(info.python_version, Some("Python 3.11.0 (由 uv 管理)".to_string()));
    assert_eq!(info.python_path, Some("/v/python3".to_string()));
    assert!(info.errors.is_empty());
    let mut f = findings();
    f.system_python = None;
    f.venv_python = Some(FoundPython { path: "/v/python3".to_string(), version: None });
    let info = env_check::check(f);
    assert_eq!(info.python_version, None);
    assert_eq!(info.python_path, None);
    assert!(info.errors.is_empty());
}

#[test]
fn a_missing_python_is_an_error_with_a_hint() {
    let hints = [
        (Platform::MacOs, "macOS: brew install python@3.10\n"),
        (
            Platform::Linux,
            "Linux: 使用包管理器安装，如 apt install python3 或 dnf install python3\n",
        ),
        (
            Platform::Windows,
            "Windows: 从 python.org 下载安装，或使用 winget install Python.Python.3.12\n",
        ),
        (Platform::Other, ""),
    ];
    for (platform, hint) in hints {
        let mut f = findings();
        f.platform = platform;
        f.system_python = None;
        let info = env_check::check(f);
        let expected = format!(
            "未找到 Python 3.10+。请安装 Python 3.10 或更高版本。\n{}或从 https://www.python.org/downloads/ 下载",
            hint
        );
        assert_eq!(info.errors, vec![expected]);
    }
}

#[test]
fn a_full_disk_stops_and_little_memory_warns() {
    let mut f = findings();
    f.disk_free_bytes = 3 * env_check::GIGABYTE - 1;
    f.memory_bytes = 4 * env_check::GIGABYTE - 1;
    let info = env_check::check(f);
    assert_eq!(
        info.errors,
        vec!["磁盘空间不足（剩余 3.0 GB，建议至少 3 GB 用于安装依赖）".to_string()]
    );
    assert_eq!(
        info.warnings,
        vec!["可用内存较小（4.0 GB），专家模式（深度学习）可能不稳定，建议使用极速模式".to_string()]
    );
    let mut f = findings();
    f.disk_free_bytes = 3 * env_check::GIGABYTE;
    f.memory_bytes = 4 * env_check::GIGABYTE;
    let info = env_check::check(f);
    assert!(info.errors.is_empty() && info.warnings.is_empty());
}

#[test]
fn sizes_are_shown_as_floating_point_shows_them() {
    let mut sizes: Vec<u64> = vec![0, 1, 53687091, 53687092, 161061273, 161061274];
    for k in 0..64u64 {
        sizes.push(k * (env_check::GIGABYTE / 20));
        sizes.push(k * (env_check::GIGABYTE / 64));
        sizes.push(k * (env_check::GIGABYTE / 8));
    }
    for bytes in sizes {
        if bytes >= env_check::MIN_MEMORY_BYTES {
            continue;
        }
        let mut f = findings();
        f.memory_bytes = bytes;
        let info = env_check::check(f);
        let gb = bytes as f64 / (1024.0 * 1024.0 * 1024.0);
        let expected = format!(
            "可用内存较小（{:.1} GB），专家模式（深度学习）可能不稳定，建议使用极速模式",
            gb
        );
        assert_eq!(info.warnings, vec![expected], "{}", bytes);
    }
}

fn disk(mount_point: &[&str], gigabytes: u64) -> Disk {
    Disk {
        mount_point: mount_point.iter().map(|s| s.to_string()).collect(),
        available: gigabytes * env_check::GIGABYTE,
    }
}

fn free_at(dir: &[&str], disks: Vec<Disk>) -> u64 {
    let dir: Vec<String> = dir.iter().map(|s| s.to_string()).collect();
    env_check::free_disk_bytes(&dir, &disks) / env_check::GIGABYTE
}

#[test]
fn the_disk_of_the_working_directory_counts() {
    let dir = ["/", "home", "u"];
    assert_eq!(free_at(&dir, vec![disk(&["/"], 10), disk(&["/", "home"], 100)]), 100);
    assert_eq!(free_at(&dir, vec![disk(&["/", "home"], 100), disk(&["/"], 10)]), 100);
    assert_eq!(free_at(&["/", "var"], vec![disk(&["/", "home"], 100), disk(&["/"], 10)]), 10);
    assert_eq!(free_at(&["/", "homes"], vec![disk(&["/"], 10), disk(&["/", "home"], 100)]), 10);
    assert_eq!(free_at(&["/", "home"], vec![disk(&["/"], 10), disk(&["/", "home"], 100)]), 100);
    assert_eq!(free_at(&["/"], vec![disk(&["/", "home"], 100), disk(&["/"], 10)]), 10);
}

#[test]
fn the_first_disk_counts_where_the_place_does_not_decide() {
    let twice = vec![disk(&["/"], 1), disk(&["/"], 2)];
    assert_eq!(free_at(&["/", "home"], twice), 1);
    let elsewhere = vec![disk(&["D:", "x"], 3), disk(&["E:"], 4)];
    assert_eq!(free_at(&["C:", "u"], elsewhere), 3);
    assert_eq!(free_at(&["/"], Vec::new()), 0);
}
