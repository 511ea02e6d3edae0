//! What the window can ask for, and the end of the service.

use pianke::commands;
use pianke::commands::{
    Channel, InitFindings, SetupEvent, SetupStage, SetupStep, SetupTask, VenvOutcome, WaitEvent,
    WaitNext,
};
use pianke::env_check::EnvInfo;
use pianke::invocation::{Arg, Invocation};
use pianke::launcher;
use pianke::launcher::InstallState;
use pianke::paths::Platform;
use pianke::shutdown;
use pianke::shutdown::{Occasion, StopAction};

fn strings(list: &[&str]) -> Vec<String> {
    list.iter().map(|s| s.to_string()).collect()
}

fn nothing() -> InstallState {
    launcher::load_install_state(None)
}

fn told(step: &SetupStep) -> Vec<(Channel, &str)> {
    step.notices.iter().map(|n| (n.channel, n.text.as_str())).collect()
}

fn task() -> SetupTask {
    SetupTask { needs_install: true, needs_backend: false, package_count: 9, port: 5057 }
}

fn env() -> EnvInfo {
    EnvInfo {
        python_path: Some("/p".to_string()),
        python_version: Some("Python 3.12.3".to_string()),
        disk_free_bytes: 7,
        memory_bytes: 8,
        os_name: "linux x86_64".to_string(),
        errors: strings(&["e"]),
        warnings: strings(&["w"]),
    }
}

fn spelled(command: &Invocation<'_, String>) -> Vec<String> {
    let text = |arg: &Arg<'_, String>| match arg {
        Arg::Text(t) => t.clone(),
        Arg::Path(p) => p.to_string(),
        Arg::Below(j) => format!("{}/{}", j.base, j.names.join("/")),
    };
    let mut r = vec![text(&command.program)];
    r.extend(command.args.iter().map(text));
    r
}

#[test]
fn the_port_can_be_set() {
    assert_eq!(commands::flask_port(None), 5057);
    assert_eq!(commands::flask_port(Some("8080")), 8080);
    assert_eq!(commands::flask_port(Some("+80")), 80);
    assert_eq!(commands::flask_port(Some("0")), 0);
    assert_eq!(commands::flask_port(Some("65536")), 5057);
    assert_eq!(commands::flask_port(Some(" 80")), 5057);
    assert_eq!(commands::flask_port(Some("")), 5057);
}

#[test]
fn pages_are_spelled_normally() {
    assert_eq!(
        commands::navigate_to_flask("http://localhost:5057"),
        Some("http://localhost:5057/".to_string())
    );
    assert_eq!(
        commands::navigate_to_flask("HTTP://LOCALHOST:80/a b"),
        Some("http://localhost/a%20b".to_string())
    );
    assert_eq!(commands::navigate_to_flask("localhost"), None);
    assert_eq!(commands::navigate_to_flask(""), None);
    assert_eq!(commands::service_page(5057), "http://localhost:5057");
}

#[test]
fn every_local_page_is_a_page() {
    for port in 0..=65535u16 {
        let page = commands::navigate_to_flask(commands::service_page(port).as_str());
        let expected = if port == 80 {
            "http://localhost/".to_string()
        } else {
            format!("http://localhost:{}/", port)
        };
        assert_eq!(page, Some(expected));
    }
}

#[test]
fn cards_are_ticked_as_remembered() {
    let ticked = |saved| -> Vec<bool> {
        commands::get_modes(saved).iter().map(|card| card.selected).collect()
    };
    assert_eq!(ticked(None), vec![true, false, false]);
    let mut saved = nothing();
    saved.modes = strings(&["expert"]);
    assert_eq!(ticked(Some(saved)), vec![false, true, false]);
}

#[test]
fn channels_have_their_names() {
    assert_eq!(Channel::Status.event_name(), "setup:status");
    assert_eq!(Channel::Progress.event_name(), "setup:progress");
    assert_eq!(Channel::Error.event_name(), "setup:error");
    assert_eq!(Channel::Ready.event_name(), "setup:ready");
}

fn refusal(modes: &[&str], venv_ready: bool) -> String {
    commands::start_setup(strings(modes), "", venv_ready, "none", "", &nothing()).unwrap_err()
}

#[test]
fn bad_choices_are_turned_down() {
    assert_eq!(refusal(&["fast", "turbo", "other"], true), "未知模式: turbo");
    assert_eq!(refusal(&["Fast"], false), "未知模式: Fast");
    assert_eq!(refusal(&[], false), "请至少选择一个模式");
    assert_eq!(refusal(&["fast"], false), "无法找到 Python，请安装 Python 3.10+ 或安装 uv");
}

#[test]
fn a_setup_is_planned() {
    let mut saved = nothing();
    saved.commit_sha = Some("abc".to_string());
    let plan =
        commands::start_setup(strings(&["tycoon", "fast"]), "", true, "cuda", "cu121", &saved).unwrap();
    assert_eq!(plan.packages, launcher::packages_for_modes(&strings(&["tycoon"])));
    assert!(plan.needs_backend);
    assert!(!plan.same_signature);
    assert!(plan.needs_install(true));
    assert_eq!(
        plan.task(true, 8080),
        SetupTask { needs_install: true, needs_backend: true, package_count: 10, port: 8080 }
    );
    assert_eq!(plan.state.modes, strings(&["tycoon", "fast"]));
    assert_eq!(plan.state.runtime, "auto");
    assert_eq!(plan.state.runtime_backend, "cuda");
    assert_eq!(plan.state.commit_sha, Some("abc".to_string()));
    assert_eq!(plan.state.packages_sig, plan.packages.join("|") + "|vision:cuda:cu121");
}

#[test]
fn the_same_setup_again_installs_nothing() {
    let first = commands::start_setup(strings(&["expert"]), "cpu", true, "none", "", &nothing()).unwrap();
    let second =
        commands::start_setup(strings(&["expert"]), "cpu", true, "none", "", &first.state).unwrap();
    assert!(!second.needs_backend);
    assert!(second.same_signature);
    assert!(!second.needs_install(true));
    assert!(second.needs_install(false));
    assert!(!second.task(true, 5057).needs_install);
    assert!(second.task(false, 5057).needs_install);
    assert_eq!(second.state.packages_sig, first.state.packages_sig);
}

#[test]
fn a_setup_begins_with_what_is_missing() {
    let step = task().begin();
    assert_eq!(told(&step), vec![(Channel::Status, "准备安装 9 个依赖包...")]);
    assert_eq!(step.next, SetupStage::Packages);
    let step = SetupTask { needs_backend: true, ..task() }.begin();
    assert_eq!(
        told(&step),
        vec![(Channel::Status, "正在安装运行时后端（torch / onnxruntime）...")]
    );
    assert_eq!(step.next, SetupStage::Backend);
    let step = SetupTask { needs_install: false, needs_backend: true, ..task() }.begin();
    assert_eq!(told(&step), vec![(Channel::Status, "依赖已就绪，正在启动服务...")]);
    assert_eq!(step.next, SetupStage::Service);
}

#[test]
fn a_setup_leads_the_window_to_the_service() {
    let step = task().step(SetupStage::Backend, SetupEvent::BackendReady("cuda".to_string()));
    assert_eq!(
        told(&step),
        vec![
            (Channel::Progress, "运行时后端就绪: cuda"),
            (Channel::Status, "准备安装 9 个依赖包..."),
        ]
    );
    assert_eq!(step.next, SetupStage::Packages);
    let step = task().step(SetupStage::Packages, SetupEvent::Success);
    assert!(told(&step).is_empty());
    assert_eq!(step.next, SetupStage::Service);
    let step = task().step(SetupStage::Service, SetupEvent::Success);
    assert_eq!(told(&step), vec![(Channel::Status, "等待服务就绪...")]);
    assert_eq!(step.next, SetupStage::Await);
    let step = task().step(SetupStage::Await, SetupEvent::Success);
    assert_eq!(told(&step), vec![(Channel::Ready, "http://localhost:5057")]);
    assert_eq!(step.page, Some("http://localhost:5057/".to_string()));
    assert_eq!(step.next, SetupStage::Watch(0));
    let step = SetupTask { port: 80, ..task() }.step(SetupStage::Await, SetupEvent::Success);
    assert_eq!(told(&step), vec![(Channel::Ready, "http://localhost:80")]);
    assert_eq!(step.page, Some("http://localhost/".to_string()));
}

#[test]
fn whatever_fails_ends_the_setup_with_an_error() {
    let cases = [
        (SetupStage::Backend, "运行时后端安装失败: why"),
        (SetupStage::Packages, "依赖安装失败: why"),
        (SetupStage::Service, "无法启动服务: why"),
        (SetupStage::Await, "服务启动超时: why"),
    ];
    for (stage, message) in cases {
        let step = task().step(stage, SetupEvent::Failure("why".to_string()));
        assert_eq!(told(&step), vec![(Channel::Error, message)]);
        assert_eq!(step.next, SetupStage::Over);
        assert_eq!(step.page, None);
    }
}

#[test]
fn three_failures_in_a_row_give_the_service_up() {
    let mut stage = SetupStage::Watch(0);
    let mut messages = Vec::new();
    for up in [false, false, true, false, false, false] {
        let step = task().step(stage, SetupEvent::Answered(up));
        messages.extend(step.notices.iter().map(|n| n.text.clone()));
        stage = step.next;
    }
    assert_eq!(stage, SetupStage::Over);
    assert_eq!(
        messages,
        strings(&[
            "服务连接失败 (1/3)",
            "服务连接失败 (2/3)",
            "服务连接失败 (1/3)",
            "服务连接失败 (2/3)",
            "Flask 服务已无响应，请重启应用",
        ])
    );
}

#[test]
fn the_service_is_waited_for() {
    let second: u128 = 1_000_000_000;
    assert!(matches!(commands::wait_for_server(WaitEvent::Elapsed(0), 60), WaitNext::Probe));
    assert!(matches!(commands::wait_for_server(WaitEvent::Elapsed(60 * second), 60), WaitNext::Probe));
    match commands::wait_for_server(WaitEvent::Elapsed(60 * second + 1), 60) {
        WaitNext::GiveUp(why) => assert_eq!(why, "Flask 服务在 60 秒内未响应"),
        other => panic!("{:?}", other),
    }
    assert!(matches!(commands::wait_for_server(WaitEvent::Answered(true), 60), WaitNext::Ready));
    assert!(matches!(commands::wait_for_server(WaitEvent::Answered(false), 60), WaitNext::Pause(500)));
    assert!(matches!(
        commands::wait_for_server(WaitEvent::Elapsed(u128::MAX), u64::MAX),
        WaitNext::GiveUp(_)
    ));
}

fn first_look(app_py_there: bool, venv: VenvOutcome, saved: InstallState) -> InitFindings {
    InitFindings {
        app_py_there,
        venv,
        env: env(),
        saved,
        backend_label: "none".to_string(),
        cuda_flavor: String::new(),
    }
}

#[test]
fn a_first_start_tells_what_it_does() {
    let r = commands::init_setup(first_look(false, VenvOutcome::Made, nothing()));
    assert_eq!(
        r.status_msgs,
        strings(&[
            "正在准备运行环境...",
            "未找到 Python，正在尝试通过 uv 安装...",
            "Python 环境已就绪",
            "正在检查更新...",
        ])
    );
    assert_eq!(r.auto_start_modes, None);
    assert_eq!(r.auto_start_runtime, None);
    assert_eq!(r.python_version, Some("Python 3.12.3".to_string()));
    assert_eq!(r.disk_free_bytes, 7);
    assert_eq!(r.memory_bytes, 8);
    assert_eq!(r.warnings, strings(&["w"]));
    assert_eq!(r.errors, strings(&["e"]));
}

#[test]
fn a_start_without_python_skips_the_update() {
    let failed = VenvOutcome::Failed("no uv".to_string());
    assert!(!commands::looks_for_update(&failed));
    assert!(commands::looks_for_update(&VenvOutcome::WasReady));
    let r = commands::init_setup(first_look(true, failed, nothing()));
    assert_eq!(
        r.status_msgs,
        strings(&[
            "未找到 Python，正在尝试通过 uv 安装...",
            "Python 环境创建失败: no uv",
            "正在检查更新...",
            "跳过更新检查（Python 环境未就绪）",
        ])
    );
    let r = commands::init_setup(first_look(true, VenvOutcome::WasReady, nothing()));
    assert_eq!(r.status_msgs, strings(&["正在检查更新..."]));
}

#[test]
fn messages_on_the_way_are_those_of_the_summary() {
    assert_eq!(commands::code_notice(true), None);
    assert_eq!(commands::code_notice(false), Some("正在准备运行环境...".to_string()));
    assert_eq!(commands::venv_notice(true), None);
    assert_eq!(
        commands::venv_notice(false),
        Some("未找到 Python，正在尝试通过 uv 安装...".to_string())
    );
    assert_eq!(commands::venv_outcome_notice(&VenvOutcome::WasReady), None);
    assert_eq!(
        commands::venv_outcome_notice(&VenvOutcome::Failed("x".to_string())),
        Some("Python 环境创建失败: x".to_string())
    );
}

#[test]
fn a_setup_starts_again_without_asking() {
    let plan = commands::start_setup(strings(&["expert", "fast"]), "", true, "none", "", &nothing()).unwrap();
    let r = commands::init_setup(first_look(true, VenvOutcome::WasReady, plan.state));
    assert_eq!(r.auto_start_modes, Some(strings(&["expert", "fast"])));
    assert_eq!(r.auto_start_runtime, Some("auto".to_string()));
}

#[test]
fn a_changed_installation_does_not_start_without_asking() {
    let plan = |_: u32| {
        commands::start_setup(strings(&["fast"]), "cpu", true, "none", "", &nothing()).unwrap().state
    };
    let mut forgotten = plan(0);
    forgotten.packages_sig = String::new();
    let r = commands::init_setup(first_look(true, VenvOutcome::WasReady, forgotten));
    assert_eq!(r.auto_start_modes, None);
    let mut other = first_look(true, VenvOutcome::WasReady, plan(1));
    other.backend_label = "cuda".to_string();
    assert_eq!(commands::init_setup(other).auto_start_modes, None);
    let failed = VenvOutcome::Failed(String::new());
    assert_eq!(commands::init_setup(first_look(true, failed, plan(2))).auto_start_modes, None);
    let mut old = plan(3);
    old.runtime = String::new();
    let (modes, runtime) = commands::auto_start_choice(&old, true, "none", "").unwrap();
    assert_eq!(modes, strings(&["fast"]));
    assert_eq!(runtime, "auto");
}

fn stops(platform: Platform, occasion: Occasion, id: u32) -> Vec<String> {
    let actions: Vec<StopAction<'_, String>> = shutdown::stop_service(platform, occasion, id);
    actions
        .iter()
        .map(|a| match a {
            StopAction::Run(command) => spelled(command).join(" "),
            StopAction::Pause(millis) => format!("pause {}", millis),
        })
        .collect()
}

#[test]
fn the_service_is_stopped_with_all_it_started() {
    assert_eq!(stops(Platform::Linux, Occasion::UpdateCheck, 42), strings(&["kill -KILL -42"]));
    assert_eq!(
        stops(Platform::MacOs, Occasion::Exit, 42),
        strings(&["kill -TERM -42", "pause 500", "kill -KILL -42"])
    );
    for occasion in [Occasion::UpdateCheck, Occasion::Exit] {
        assert_eq!(
            stops(Platform::Windows, occasion, 4294967295),
            strings(&["taskkill /T /F /PID 4294967295"])
        );
    }
    let wrapped = 4294967295u32 as i32;
    assert_eq!(
        stops(Platform::Linux, Occasion::UpdateCheck, 4294967295),
        vec![format!("kill -KILL -{}", wrapped)]
    );
}

#[test]
fn the_port_to_clear_depends_on_the_occasion() {
    assert_eq!(shutdown::port_to_clear(Occasion::UpdateCheck, Some("8080")), 5057);
    assert_eq!(shutdown::port_to_clear(Occasion::Exit, Some("8080")), 8080);
    assert_eq!(shutdown::port_to_clear(Occasion::Exit, None), 5057);
    assert_eq!(
        spelled(&shutdown::find_leftovers(Platform::Linux, 5057)),
        strings(&["lsof", "-ti", ":5057"])
    );
    assert_eq!(
        spelled(&shutdown::find_leftovers(Platform::Windows, 5057)),
        strings(&["netstat", "-ano"])
    );
}

fn leftovers(platform: Platform, occasion: Occasion, output: &str) -> Vec<String> {
    let commands: Vec<Invocation<'_, String>> =
        shutdown::stop_leftovers(platform, occasion, 5057, output);
    commands.iter().map(|c| spelled(c).join(" ")).collect()
}

#[test]
fn whatever_is_left_on_the_port_is_stopped() {
    let output = "12\n 345 \nnope\n\n+7\n99999999999\n";
    assert_eq!(
        leftovers(Platform::Linux, Occasion::UpdateCheck, output),
        strings(&["kill -KILL 12", "kill -KILL 345", "kill -KILL 7"])
    );
    assert_eq!(leftovers(Platform::Linux, Occasion::Exit, "12"), strings(&["kill -TERM 12"]));
    assert!(leftovers(Platform::Linux, Occasion::Exit, "").is_empty());
    let output = "  Proto  Local\r\n  TCP 0.0.0.0:5057 0.0.0.0:0 LISTENING 77\r\n  TCP 1.1.1.1:5057 x ESTABLISHED 5\r\n  TCP 0.0.0.0:50571 y LISTENING 78\r\n  TCP 0.0.0.0:80 z LISTENING 79\r\n";
    assert_eq!(
        leftovers(Platform::Windows, Occasion::Exit, output),
        strings(&["taskkill /F /PID 77", "taskkill /F /PID 78"])
    );
}
