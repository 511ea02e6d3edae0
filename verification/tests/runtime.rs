//! The virtual environment, the installation and the service.

use pianke::invocation::{Arg, Invocation};
use pianke::launcher::MirrorConfig;
use pianke::paths::{Joined, Platform};
use pianke::python_runtime;
use pianke::python_runtime::{
    CodeSource, Extraction, InstallEvent, InstallNext, InstallProgress, InstallStage, PythonRuntime,
    UvStage, VenvEvent, VenvStage,
};

fn strings(list: &[&str]) -> Vec<String> {
    list.iter().map(|s| s.to_string()).collect()
}

fn arg_text(arg: &Arg<'_, String>) -> String {
    match arg {
        Arg::Text(t) => t.clone(),
        Arg::Path(p) => p.to_string(),
        Arg::Below(j) => format!("{}/{}", j.base, j.names.join("/")),
    }
}

fn spelled(command: &Invocation<'_, String>) -> Vec<String> {
    let mut r = vec![arg_text(&command.program)];
    r.extend(command.args.iter().map(arg_text));
    r
}

fn names(j: Joined<&str>) -> Vec<String> {
    let mut r = vec![j.base.to_string()];
    r.extend(j.names);
    r
}

fn runtime() -> PythonRuntime<String> {
    PythonRuntime { venv_python: "VP".to_string(), app_dir: "APP".to_string() }
}

fn mirror(on: bool) -> MirrorConfig {
    MirrorConfig::from_setting(if on { None } else { Some("1") })
}

#[test]
fn places_below_the_data_directory() {
    assert_eq!(names(python_runtime::app_dir_path("D")), strings(&["D", "app"]));
    assert_eq!(names(python_runtime::app_py_path("D")), strings(&["D", "app.py"]));
    assert_eq!(names(python_runtime::venv_dir_path("D")), strings(&["D", "venv"]));
    assert_eq!(
        names(python_runtime::venv_python_path("V", Platform::Linux)),
        strings(&["V", "bin", "python3"])
    );
    assert_eq!(
        names(python_runtime::venv_python_path("V", Platform::Windows)),
        strings(&["V", "Scripts", "python.exe"])
    );
}

#[test]
fn code_is_only_extracted_where_it_is_missing() {
    assert_eq!(PythonRuntime::<String>::extract_resources(true, true), Extraction::Keep);
    assert_eq!(PythonRuntime::<String>::extract_resources(false, true), Extraction::Replace);
    assert_eq!(PythonRuntime::<String>::extract_resources(false, false), Extraction::Create);
}

fn venv(stage: VenvStage, event: VenvEvent, system: bool, ensure: bool) -> (Vec<String>, String) {
    let step = PythonRuntime::<String>::setup_venv(stage, event, system, ensure);
    (step.messages, format!("{:?}", step.next))
}

#[test]
fn a_virtual_environment_that_is_there_is_kept() {
    let (said, next) = venv(VenvStage::Look, VenvEvent::PythonThere(true), false, true);
    assert!(said.is_empty());
    assert_eq!(next, "Ready");
    assert_eq!(venv(VenvStage::Look, VenvEvent::PythonThere(false), true, true).1, "EnsureUv");
    assert_eq!(venv(VenvStage::Look, VenvEvent::PythonThere(false), true, false).1, "FindUv");
}

#[test]
fn uv_makes_the_virtual_environment_first() {
    let (said, next) = venv(VenvStage::EnsureUv, VenvEvent::UvThere(true), true, true);
    assert_eq!(said, strings(&["使用 uv 创建虚拟环境（可能需下载 Python）..."]));
    assert_eq!(next, "RunUv");
    let ended = |success, python_there| VenvEvent::Ended { success, python_there };
    let (said, next) = venv(VenvStage::RunUv, ended(true, true), true, true);
    assert!(said.is_empty());
    assert_eq!(next, "Ready");
    let (said, next) = venv(VenvStage::RunUv, ended(true, false), true, true);
    assert_eq!(
        said,
        strings(&["uv 创建的 venv 不完整，尝试系统 Python...", "使用系统 Python 创建虚拟环境..."])
    );
    assert_eq!(next, "RunSystem");
    let (said, next) = venv(VenvStage::RunUv, ended(false, true), false, true);
    assert_eq!(said, strings(&["uv 创建 venv 失败，回退到系统 Python..."]));
    assert_eq!(next, "Failed(\"未找到系统 Python 且 uv 不可用，请安装 Python 3.10+ 或 uv\")");
}

#[test]
fn a_uv_that_cannot_be_run_is_fallen_back_from() {
    for event in [VenvEvent::NotStarted, VenvEvent::WaitFailed("io".to_string())] {
        let (said, next) = venv(VenvStage::RunUv, event, true, true);
        assert_eq!(
            said,
            strings(&["uv 创建 venv 失败，回退到系统 Python...", "使用系统 Python 创建虚拟环境..."])
        );
        assert_eq!(next, "RunSystem");
    }
    for event in [VenvEvent::NotStarted, VenvEvent::WaitFailed("io".to_string())] {
        let (said, next) = venv(VenvStage::RunUv, event, false, true);
        assert_eq!(said, strings(&["uv 创建 venv 失败，回退到系统 Python..."]));
        assert_eq!(next, "Failed(\"未找到系统 Python 且 uv 不可用，请安装 Python 3.10+ 或 uv\")");
    }
}

#[test]
fn the_system_python_is_the_fallback() {
    let (said, next) = venv(VenvStage::FindUv, VenvEvent::UvThere(false), true, false);
    assert_eq!(said, strings(&["使用系统 Python 创建虚拟环境..."]));
    assert_eq!(next, "RunSystem");
    let ended = |success| VenvEvent::Ended { success, python_there: false };
    assert_eq!(venv(VenvStage::RunSystem, ended(true), true, false).1, "Ready");
    assert_eq!(
        venv(VenvStage::RunSystem, ended(false), true, false).1,
        "Failed(\"venv creation failed (both uv and system Python)\")"
    );
    assert_eq!(
        venv(VenvStage::RunSystem, VenvEvent::NotStarted, true, false).1,
        "Failed(\"Failed to create virtual environment\")"
    );
}

#[test]
fn commands_that_make_a_virtual_environment() {
    let uv = "UV".to_string();
    let dir = "V".to_string();
    assert_eq!(
        spelled(&python_runtime::uv_venv_command(&uv, &dir)),
        strings(&["UV", "venv", "--python", ">=3.10", "V"])
    );
    assert_eq!(
        spelled(&python_runtime::system_venv_command(&uv, &dir)),
        strings(&["UV", "-m", "venv", "V"])
    );
}

#[test]
fn packages_are_installed_with_uv_through_the_mirror() {
    let rt = runtime();
    let uv = "UV".to_string();
    let list = strings(&["a>=1", "b"]);
    let run = rt.install_packages(Some(&uv), &list, &mirror(true)).unwrap();
    assert_eq!(
        run.messages,
        strings(&["使用 uv 安装 2 个依赖包（速度更快）...", "使用镜像源: 清华大学 TUNA"])
    );
    assert_eq!(
        spelled(&run.command),
        strings(&[
            "UV",
            "pip",
            "install",
            "--python",
            "VP",
            "-i",
            "https://pypi.tuna.tsinghua.edu.cn/simple/",
            "--extra-index-url",
            "https://pypi.org/simple/",
            "a>=1",
            "b",
        ])
    );
}

#[test]
fn packages_are_installed_with_pip_where_there_is_no_uv() {
    let rt = runtime();
    let list = strings(&["a>=1"]);
    let run = rt.install_packages(None, &list, &mirror(false)).unwrap();
    assert_eq!(run.messages, strings(&["开始安装 1 个依赖包..."]));
    assert_eq!(
        spelled(&run.command),
        strings(&[
            "VP",
            "-m",
            "pip",
            "install",
            "--disable-pip-version-check",
            "--no-input",
            "a>=1",
        ])
    );
    let run = rt.install_packages(None, &list, &mirror(true)).unwrap();
    assert_eq!(run.messages[1], "使用镜像源: 清华大学 TUNA（uv 未安装，用 pip 较慢）");
    assert!(rt.install_packages(None, &Vec::new(), &mirror(true)).is_none());
}

#[test]
fn progress_is_read_from_what_pip_prints() {
    let mut progress = InstallProgress::new(false, 3);
    assert_eq!(progress.line("  Collecting numpy>=1.26 "), Some("[1/3] 下载 numpy>=1.26".to_string()));
    assert_eq!(progress.line("Collecting flask"), Some("[2/3] 下载 flask".to_string()));
    assert_eq!(progress.line("  Downloading x.whl (1 MB)"), Some("Downloading x.whl (1 MB)".to_string()));
    assert_eq!(
        progress.line("Installing collected packages: a, b"),
        Some("正在安装已下载的包...".to_string())
    );
    assert_eq!(progress.line("Successfully installed a-1"), Some("Successfully installed a-1".to_string()));
    assert_eq!(progress.line("Resolved 3 packages"), None);
    assert_eq!(progress.line("Collecting"), None);
    assert_eq!(progress.line(""), None);
    assert_eq!(progress.started, 2);
}

#[test]
fn progress_is_read_from_what_uv_prints() {
    let mut progress = InstallProgress::new(true, 3);
    assert_eq!(progress.line("Resolved 3 packages in 1s"), Some("Resolved 3 packages in 1s".to_string()));
    assert_eq!(progress.line(" Prepared 3 packages"), Some("Prepared 3 packages".to_string()));
    assert_eq!(progress.line("Installed 3 packages"), Some("Installed 3 packages".to_string()));
    assert_eq!(progress.line(" + numpy==1.26"), None);
    assert_eq!(progress.started, 0);
}

fn install(stage: InstallStage, event: InstallEvent) -> String {
    format!("{:?}", python_runtime::install_step(stage, event))
}

#[test]
fn an_installation_goes_through_its_stages() {
    let ended = |success| InstallEvent::Ended { success, status: "exit status: 2".to_string() };
    match python_runtime::install_step(InstallStage::Install, ended(true)) {
        InstallNext::Go(message, stage) => {
            assert_eq!(message, Some("检查 OpenCV 兼容性...".to_string()));
            assert_eq!(stage, InstallStage::Check);
        }
        other => panic!("{:?}", other),
    }
    assert_eq!(
        install(InstallStage::Install, ended(false)),
        "Failed(\"Install returned non-zero exit: exit status: 2\")"
    );
    assert_eq!(
        install(InstallStage::Install, InstallEvent::NotStarted("x".to_string())),
        "Failed(\"Failed to start installer\")"
    );
    assert_eq!(
        install(InstallStage::Install, InstallEvent::WaitFailed("x".to_string())),
        "Failed(\"Install process failed\")"
    );
    assert_eq!(
        install(InstallStage::Check, InstallEvent::Printed("\n".to_string())),
        "Installed(\"依赖安装完成\")"
    );
    assert_eq!(
        install(InstallStage::Check, InstallEvent::Printed("opencv-python\n".to_string())),
        "Go(None, Mend)"
    );
    assert_eq!(
        install(InstallStage::Check, InstallEvent::NotStarted("gone".to_string())),
        "Failed(\"gone\")"
    );
    assert_eq!(install(InstallStage::Mend, ended(true)), "Installed(\"依赖安装完成\")");
    assert_eq!(
        install(InstallStage::Mend, ended(false)),
        "Failed(\"Failed to reinstall opencv-contrib-python\")"
    );
    assert_eq!(
        install(InstallStage::Mend, InstallEvent::NotStarted("gone".to_string())),
        "Failed(\"gone\")"
    );
}

#[test]
fn the_probe_imports_what_the_modes_need() {
    let rt = runtime();
    assert_eq!(
        spelled(&rt.deps_ready(&strings(&["fast"]))),
        strings(&["VP", "-c", "import flask, PIL, numpy, cv2, imagehash, rawpy, piexif"])
    );
    assert_eq!(
        spelled(&rt.deps_ready(&strings(&["tycoon", "expert"])))[2],
        "import flask, PIL, numpy, cv2, imagehash, rawpy, piexif, torch, transformers, insightface, pyiqa, openai"
    );
}

#[test]
fn the_service_is_started_on_its_port() {
    let rt = runtime();
    let run = rt.start_flask(true, 5057, &mirror(true)).unwrap();
    assert_eq!(
        spelled(&run.command),
        strings(&["VP", "APP/app.py", "--port", "5057", "--no-browser"])
    );
    assert_eq!(run.current_dir, "APP");
    assert_eq!(run.hf_endpoint, Some("https://hf-mirror.com".to_string()));
    let run = rt.start_flask(true, 0, &mirror(false)).unwrap();
    assert_eq!(run.hf_endpoint, None);
    assert!(rt.start_flask(false, 5057, &mirror(true)).is_none());
}

#[test]
fn opencv_conflicts_are_mended_with_uv() {
    let rt = runtime();
    let uv = "UV".to_string();
    let fix = rt.fix_opencv_conflict(Some(&uv), "opencv-python|opencv-python-headless\n").unwrap();
    assert_eq!(fix.uninstall.len(), 1);
    assert_eq!(
        spelled(&fix.uninstall[0]),
        strings(&[
            "UV",
            "pip",
            "uninstall",
            "-y",
            "--python",
            "VP",
            "opencv-python",
            "opencv-python-headless",
        ])
    );
    assert_eq!(
        spelled(&fix.reinstall),
        strings(&[
            "UV",
            "pip",
            "install",
            "--python",
            "VP",
            "--force-reinstall",
            "--no-deps",
            "opencv-contrib-python>=4.9",
        ])
    );
}

#[test]
fn opencv_conflicts_are_mended_with_pip() {
    let rt = runtime();
    let fix = rt.fix_opencv_conflict(None, "opencv-python|opencv-python-headless\n").unwrap();
    assert_eq!(fix.uninstall.len(), 2);
    assert_eq!(
        spelled(&fix.uninstall[1]),
        strings(&["VP", "-m", "pip", "uninstall", "-y", "opencv-python-headless"])
    );
    assert_eq!(
        spelled(&fix.reinstall),
        strings(&[
            "VP",
            "-m",
            "pip",
            "install",
            "--force-reinstall",
            "--no-deps",
            "opencv-contrib-python>=4.9",
        ])
    );
    assert!(rt.fix_opencv_conflict(None, " \n").is_none());
    assert!(rt.fix_opencv_conflict(None, "||").is_none());
    let check = spelled(&rt.opencv_check());
    assert_eq!(check[0..2], ["VP", "-c"]);
    assert!(check[2].starts_with("import importlib.metadata as m; names={'opencv-python',"));
    assert!(check[2].ends_with("for d in m.distributions())]; print('|'.join(found))"));
}

#[test]
fn getting_uv_ends_after_three_steps() {
    assert_eq!(python_runtime::ensure_uv(UvStage::Search, true), (UvStage::Ready, None));
    assert_eq!(
        python_runtime::ensure_uv(UvStage::Search, false),
        (UvStage::Install, Some("正在下载安装 uv（约需 30 秒）...".to_string()))
    );
    assert_eq!(
        python_runtime::ensure_uv(UvStage::Install, true),
        (UvStage::SearchAgain, Some("uv 安装完成".to_string()))
    );
    assert_eq!(python_runtime::ensure_uv(UvStage::Install, false), (UvStage::Missing, None));
    assert_eq!(python_runtime::ensure_uv(UvStage::SearchAgain, true), (UvStage::Ready, None));
    assert_eq!(python_runtime::ensure_uv(UvStage::SearchAgain, false), (UvStage::Missing, None));
}

#[test]
fn helpers_of_the_platform() {
    assert_eq!(
        spelled(&python_runtime::uv_installer(Platform::MacOs)),
        strings(&["sh", "-c", "curl -LSf https://astral.sh/uv/install.sh | sh"])
    );
    assert_eq!(
        spelled(&python_runtime::uv_installer(Platform::Windows)),
        strings(&[
            "powershell",
            "-NoProfile",
            "-ExecutionPolicy",
            "Bypass",
            "-Command",
            "irm https://astral.sh/uv/install.ps1 | iex",
        ])
    );
    assert_eq!(
        spelled(&python_runtime::which_command(Platform::Windows, "uv.exe")),
        strings(&["where", "uv.exe"])
    );
    assert_eq!(
        spelled(&python_runtime::which_command(Platform::Other, "uv")),
        strings(&["which", "uv"])
    );
    assert_eq!(python_runtime::home_dir(Platform::Windows), "USERPROFILE");
    assert_eq!(python_runtime::home_dir(Platform::Linux), "HOME");
    assert_eq!(python_runtime::progress_line("  x \n"), Some("x".to_string()));
    assert_eq!(python_runtime::progress_line(" \t"), None);
}

#[test]
fn resources_are_copied_without_what_packaging_adds() {
    assert_eq!(names(python_runtime::resolve_resource_src("R", true)), strings(&["R", "_up_"]));
    assert_eq!(names(python_runtime::resolve_resource_src("R", false)), strings(&["R"]));
    assert_eq!(python_runtime::copy_resource_dir(true), CodeSource::Resources);
    assert_eq!(python_runtime::copy_resource_dir(false), CodeSource::Project);
    for name in ["_up_", "icon.icns", "icon.ico"] {
        assert!(python_runtime::skips_resource(name));
    }
    assert!(!python_runtime::skips_resource("app.py"));
    assert_eq!(
        python_runtime::PROJECT_ENTRIES,
        ["app.py", "requirements.txt", "pic_selecter", "static", "assets"]
    );
}
