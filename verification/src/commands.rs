//! What the window can ask for: the first look at the machine, and the setup that
//! installs what is missing, starts the service and watches over it.

use crate::env_check::EnvInfo;
use crate::launcher;
use crate::launcher::{InstallState, InstallStateView, ModeInfo};
use crate::number;
use crate::outside;
use crate::text;
use vstd::prelude::*;

verus! {

/// The port of the service where no other is asked for.
pub const DEFAULT_PORT: u16 = 5057;

/// How long the service may take to answer for the first time, in seconds.
pub const WAIT_SECONDS: u64 = 60;

/// How long to pause between two looks at a service that is starting, in
/// milliseconds.
pub const WAIT_PAUSE_MILLIS: u64 = 500;

/// How long to pause between two looks at a service that runs, in seconds.
pub const WATCH_PAUSE_SECONDS: u64 = 30;

/// How long a look at the service may take, in seconds.
pub const PROBE_SECONDS: u64 = 2;

/// How many looks in a row must fail before the service is given up.
pub const WATCH_FAILURES: u32 = 3;

/// The port that a setting asks for.
pub open spec fn port_for(setting: Option<Seq<char>>) -> nat {
    match setting {
        None => DEFAULT_PORT as nat,
        Some(s) => match number::unsigned(s, 65535) {
            Some(n) => n,
            None => DEFAULT_PORT as nat,
        },
    }
}

/// The port of the service: what the variable `PIC_SELECTER_PORT`, whose text is
/// given where it is set, asks for, where that is a port.
pub fn flask_port(setting: Option<&str>) -> (r: u16)
    ensures
        r as nat == port_for(setting.deep_view()),
{
    match setting {
        None => DEFAULT_PORT,
        Some(s) => match number::parse_u16(s) {
            Some(n) => n,
            None => DEFAULT_PORT,
        },
    }
}

/// Where to lead the window so that it shows the page at `url`: nowhere where that
/// is no URL.
pub fn navigate_to_flask(url: &str) -> (r: Option<String>)
    ensures
        r.deep_view() == outside::parsed_url(url@),
{
    outside::parse_url(url)
}

/// The cards of the modes, ticked as the state file says, where it could be read
/// and understood.
pub fn get_modes(saved: Option<InstallState>) -> (r: Vec<ModeInfo>)
    ensures
        r.deep_view() == launcher::cards(
            match saved {
                Some(state) => state@.modes,
                None => seq![],
            },
        ),
{
    let state = launcher::load_install_state(saved);
    launcher::get_modes(&state.modes)
}

/// The page of the service on a port.
pub fn service_page(port: u16) -> (r: String)
    ensures
        r@ == outside::local_page(port as nat),
{
    let mut r = "http://localhost:".to_string();
    r.append(number::to_decimal(port as u64).as_str());
    r
}

/// What a message to the window is about.
#[derive(Debug, Clone, Copy, PartialEq, Eq, Structural)]
pub enum Channel {
    /// What is being done.
    Status,
    /// How it is getting on.
    Progress,
    /// What went wrong for good.
    Error,
    /// Where the service can be reached.
    Ready,
}

impl Channel {
    /// The name of the event that carries such messages.
    pub fn event_name(self) -> (r: &'static str)
        ensures
            r@ == (match self {
                Channel::Status => "setup:status"@,
                Channel::Progress => "setup:progress"@,
                Channel::Error => "setup:error"@,
                Channel::Ready => "setup:ready"@,
            }),
    {
        match self {
            Channel::Status => "setup:status",
            Channel::Progress => "setup:progress",
            Channel::Error => "setup:error",
            Channel::Ready => "setup:ready",
        }
    }
}

/// A message to the window.
#[derive(Debug)]
pub struct Notice {
    pub channel: Channel,
    pub text: String,
}

/// What a `Notice` says.
#[verifier::ext_equal]
pub struct NoticeView {
    pub channel: Channel,
    pub text: Seq<char>,
}

impl DeepView for Notice {
    type V = NoticeView;

    open spec fn deep_view(&self) -> NoticeView {
        NoticeView { channel: self.channel, text: self.text@ }
    }
}

/// The first of the chosen modes that is none.
pub open spec fn first_unknown(modes: Seq<Seq<char>>) -> Option<Seq<char>>
    decreases modes.len(),
{
    if modes.len() == 0 {
        None
    } else if !launcher::is_mode(modes[0]) {
        Some(modes[0])
    } else {
        first_unknown(modes.skip(1))
    }
}

/// Why a choice of modes is turned down, where it is.
pub open spec fn rejection(modes: Seq<Seq<char>>, venv_ready: bool) -> Option<Seq<char>> {
    match first_unknown(modes) {
        Some(mode) => Some("未知模式: "@ + mode),
        None => if modes.len() == 0 {
            Some("请至少选择一个模式"@)
        } else if !venv_ready {
            Some("无法找到 Python，请安装 Python 3.10+ 或安装 uv"@)
        } else {
            None
        },
    }
}

/// What a setup will do.
#[derive(Debug)]
pub struct SetupPlan {
    /// The packages that the modes need.
    pub packages: Vec<String>,
    /// Whether a runtime backend is installed besides.
    pub needs_backend: bool,
    /// Whether the same was installed before.
    pub same_signature: bool,
    /// What is to be remembered of the installation.
    pub state: InstallState,
}

/// What a `SetupPlan` says.
#[verifier::ext_equal]
pub struct SetupPlanView {
    pub packages: Seq<Seq<char>>,
    pub needs_backend: bool,
    pub same_signature: bool,
    pub state: InstallStateView,
}

impl View for SetupPlan {
    type V = SetupPlanView;

    open spec fn view(&self) -> SetupPlanView {
        SetupPlanView {
            packages: self.packages.deep_view(),
            needs_backend: self.needs_backend,
            same_signature: self.same_signature,
            state: self.state@,
        }
    }
}

/// What is remembered of an installation for a choice of modes. The commit that
/// the code comes from is kept.
pub open spec fn chosen_state(
    modes: Seq<Seq<char>>,
    runtime: Seq<char>,
    label: Seq<char>,
    cuda_flavor: Seq<char>,
    saved: InstallStateView,
) -> InstallStateView {
    InstallStateView {
        modes,
        runtime: launcher::effective_runtime(runtime),
        packages_sig: launcher::signature(launcher::packages(modes), label, cuda_flavor),
        runtime_backend: label,
        commit_sha: saved.commit_sha,
    }
}

/// What a setup will do for a choice of modes that is not turned down.
pub open spec fn setup_plan(
    modes: Seq<Seq<char>>,
    runtime: Seq<char>,
    label: Seq<char>,
    cuda_flavor: Seq<char>,
    saved: InstallStateView,
) -> SetupPlanView {
    let state = chosen_state(modes, runtime, label, cuda_flavor, saved);
    SetupPlanView {
        packages: launcher::packages(modes),
        needs_backend: launcher::needs_backend(label),
        same_signature: saved.packages_sig == state.packages_sig,
        state,
    }
}

fn unknown_mode(modes: &Vec<String>) -> (r: Option<String>)
    ensures
        r.deep_view() == first_unknown(modes.deep_view()),
{
    let ghost all = modes.deep_view();
    let mut i: usize = 0;
    assert(all.skip(0) =~= all);
    while i < modes.len()
        invariant
            0 <= i <= modes.len(),
            all == modes.deep_view(),
            first_unknown(all) == first_unknown(all.skip(i as int)),
        decreases modes.len() - i,
    {
        let mode = modes[i].as_str();
        proof {
            assert(all.skip(i as int)[0] == mode@);
            assert(all.skip(i as int).skip(1) =~= all.skip(i + 1));
        }
        if !(text::same(mode, "fast") || text::same(mode, "expert") || text::same(
            mode,
            "tycoon",
        )) {
            return Some(mode.to_string());
        }
        i += 1;
    }
    None
}

/// What a setup will do for the chosen modes, or why it is turned down: for a mode
/// that does not exist, for no mode at all, for want of a Python.
///
/// The label of the runtime backend and the flavor of its CUDA build are those that
/// suit the modes and the runtime on this machine; `saved` is what is remembered
/// of the last installation.
pub fn start_setup(
    modes: Vec<String>,
    runtime: &str,
    venv_ready: bool,
    backend_label: &str,
    cuda_flavor: &str,
    saved: &InstallState,
) -> (r: Result<SetupPlan, String>)
    ensures
        r is Ok <==> rejection(modes.deep_view(), venv_ready) is None,
        r matches Err(why) ==> rejection(modes.deep_view(), venv_ready) == Some(why@),
        r matches Ok(plan) ==> plan@ == setup_plan(
            modes.deep_view(),
            runtime@,
            backend_label@,
            cuda_flavor@,
            saved@,
        ),
{
    assert(modes.deep_view().len() == modes.len());
    match unknown_mode(&modes) {
        Some(mode) => {
            let mut why = "未知模式: ".to_string();
            why.append(mode.as_str());
            return Err(why);
        },
        None => {},
    }
    if modes.len() == 0 {
        return Err("请至少选择一个模式".to_string());
    }
    if !venv_ready {
        return Err("无法找到 Python，请安装 Python 3.10+ 或安装 uv".to_string());
    }
    let packages = launcher::packages_for_modes(&modes);
    let packages_sig = launcher::packages_signature(&packages, backend_label, cuda_flavor);
    let same_signature = text::same(saved.packages_sig.as_str(), packages_sig.as_str());
    let state = InstallState {
        modes,
        runtime: launcher::runtime_or_auto(runtime),
        packages_sig,
        runtime_backend: backend_label.to_string(),
        commit_sha: match &saved.commit_sha {
            Some(sha) => Some(sha.clone()),
            None => None,
        },
    };
    Ok(
        SetupPlan {
            packages,
            needs_backend: launcher::backend_needed(backend_label),
            same_signature,
            state,
        },
    )
}

impl SetupPlan {
    /// Whether anything is to be installed: where something else was installed
    /// before, or where what was installed before turns out not to be usable.
    pub fn needs_install(&self, deps_ready: bool) -> (r: bool)
        ensures
            r == (!self.same_signature || !deps_ready),
    {
        !self.same_signature || !deps_ready
    }

    /// What there is to do for this plan, with the service on a port.
    pub fn task(&self, deps_ready: bool, port: u16) -> (r: SetupTask)
        ensures
            r.needs_install == (!self.same_signature || !deps_ready),
            r.needs_backend == self.needs_backend,
            r.package_count == self.packages.len(),
            r.port == port,
    {
        SetupTask {
            needs_install: self.needs_install(deps_ready),
            needs_backend: self.needs_backend,
            package_count: self.packages.len(),
            port,
        }
    }
}

/// A setup under way: what there is to do.
#[derive(Debug, Clone, Copy, PartialEq, Eq, Structural)]
pub struct SetupTask {
    /// Whether anything is to be installed.
    pub needs_install: bool,
    /// Whether a runtime backend is to be installed besides the packages.
    pub needs_backend: bool,
    /// How many packages there are.
    pub package_count: usize,
    /// The port of the service.
    pub port: u16,
}

/// How far a setup has come, and what is to be done next.
#[derive(Debug, Clone, Copy, PartialEq, Eq, Structural)]
pub enum SetupStage {
    /// Install the runtime backend.
    Backend,
    /// Install the packages.
    Packages,
    /// Start the service.
    Service,
    /// Wait for the service to answer.
    Await,
    /// Look after the service once in a while. So many looks in a row have failed.
    Watch(u32),
    /// It is over.
    Over,
}

/// What came of the last thing to be done.
#[derive(Debug)]
pub enum SetupEvent {
    /// The runtime backend of this label is there.
    BackendReady(String),
    /// It succeeded.
    Success,
    /// It failed, for this reason.
    Failure(String),
    /// Whether the service answered.
    Answered(bool),
}

/// What a `SetupEvent` says.
#[verifier::ext_equal]
pub enum SetupEventView {
    BackendReady(Seq<char>),
    Success,
    Failure(Seq<char>),
    Answered(bool),
}

impl View for SetupEvent {
    type V = SetupEventView;

    open spec fn view(&self) -> SetupEventView {
        match self {
            SetupEvent::BackendReady(label) => SetupEventView::BackendReady(label@),
            SetupEvent::Success => SetupEventView::Success,
            SetupEvent::Failure(why) => SetupEventView::Failure(why@),
            SetupEvent::Answered(up) => SetupEventView::Answered(*up),
        }
    }
}

/// Whether an event can come of what a stage asks for.
pub open spec fn setup_event_fits(stage: SetupStage, event: SetupEventView) -> bool {
    match stage {
        SetupStage::Backend => event is BackendReady || event is Failure,
        SetupStage::Packages | SetupStage::Service | SetupStage::Await => event is Success
            || event is Failure,
        SetupStage::Watch(failures) => failures < WATCH_FAILURES && event is Answered,
        SetupStage::Over => false,
    }
}

/// A step of a setup: what to tell the window, where to lead it, and what to do.
#[derive(Debug)]
pub struct SetupStep {
    pub notices: Vec<Notice>,
    pub page: Option<String>,
    pub next: SetupStage,
}

/// What a `SetupStep` says.
#[verifier::ext_equal]
pub struct SetupStepView {
    pub notices: Seq<NoticeView>,
    pub page: Option<Seq<char>>,
    pub next: SetupStage,
}

impl View for SetupStep {
    type V = SetupStepView;

    open spec fn view(&self) -> SetupStepView {
        SetupStepView {
            notices: self.notices.deep_view(),
            page: self.page.deep_view(),
            next: self.next,
        }
    }
}

/// The step that tells one thing and goes on.
pub open spec fn telling(channel: Channel, text: Seq<char>, next: SetupStage) -> SetupStepView {
    SetupStepView { notices: seq![NoticeView { channel, text }], page: None, next }
}

/// The step that just goes on.
pub open spec fn silent(next: SetupStage) -> SetupStepView {
    SetupStepView { notices: seq![], page: None, next }
}

/// What is told before packages are installed.
pub open spec fn packages_message(task: SetupTask) -> Seq<char> {
    "准备安装 "@ + number::decimal(task.package_count as nat) + " 个依赖包..."@
}

/// The first step of a setup.
pub open spec fn first_step(task: SetupTask) -> SetupStepView {
    if !task.needs_install {
        telling(Channel::Status, "依赖已就绪，正在启动服务..."@, SetupStage::Service)
    } else if task.needs_backend {
        telling(
            Channel::Status,
            "正在安装运行时后端（torch / onnxruntime）..."@,
            SetupStage::Backend,
        )
    } else {
        telling(Channel::Status, packages_message(task), SetupStage::Packages)
    }
}

/// The step that follows an event in a setup: the backend, the packages, the
/// service, its first answer, and then a look at it once in a while. Whatever
/// fails ends the setup, and so do three failed looks in a row.
pub open spec fn next_step(
    task: SetupTask,
    stage: SetupStage,
    event: SetupEventView,
) -> SetupStepView {
    match stage {
        SetupStage::Backend => match event {
            SetupEventView::BackendReady(label) => SetupStepView {
                notices: seq![
                    NoticeView { channel: Channel::Progress, text: "运行时后端就绪: "@ + label },
                    NoticeView { channel: Channel::Status, text: packages_message(task) },
                ],
                page: None,
                next: SetupStage::Packages,
            },
            SetupEventView::Failure(why) => telling(
                Channel::Error,
                "运行时后端安装失败: "@ + why,
                SetupStage::Over,
            ),
            _ => silent(SetupStage::Over),
        },
        SetupStage::Packages => match event {
            SetupEventView::Success => silent(SetupStage::Service),
            SetupEventView::Failure(why) => telling(
                Channel::Error,
                "依赖安装失败: "@ + why,
                SetupStage::Over,
            ),
            _ => silent(SetupStage::Over),
        },
        SetupStage::Service => match event {
            SetupEventView::Success => telling(
                Channel::Status,
                "等待服务就绪..."@,
                SetupStage::Await,
            ),
            SetupEventView::Failure(why) => telling(
                Channel::Error,
                "无法启动服务: "@ + why,
                SetupStage::Over,
            ),
            _ => silent(SetupStage::Over),
        },
        SetupStage::Await => match event {
            SetupEventView::Success => SetupStepView {
                notices: seq![
                    NoticeView {
                        channel: Channel::Ready,
                        text: outside::local_page(task.port as nat),
                    },
                ],
                page: Some(outside::normal_local_page(task.port as nat)),
                next: SetupStage::Watch(0),
            },
            SetupEventView::Failure(why) => telling(
                Channel::Error,
                "服务启动超时: "@ + why,
                SetupStage::Over,
            ),
            _ => silent(SetupStage::Over),
        },
        SetupStage::Watch(failures) => match event {
            SetupEventView::Answered(true) => silent(SetupStage::Watch(0)),
            SetupEventView::Answered(false) => if failures + 1 >= WATCH_FAILURES {
                telling(
                    Channel::Error,
                    "Flask 服务已无响应，请重启应用"@,
                    SetupStage::Over,
                )
            } else {
                telling(
                    Channel::Status,
                    "服务连接失败 ("@ + number::decimal((failures + 1) as nat) + "/3)"@,
                    SetupStage::Watch((failures + 1) as u32),
                )
            },
            _ => silent(SetupStage::Over),
        },
        SetupStage::Over => silent(SetupStage::Over),
    }
}

fn tell(channel: Channel, text: String, next: SetupStage) -> (r: SetupStep)
    ensures
        r@ == telling(channel, text@, next),
{
    let mut notices: Vec<Notice> = Vec::new();
    notices.push(Notice { channel, text });
    assert(notices.deep_view() =~= seq![NoticeView { channel, text: text@ }]);
    SetupStep { notices, page: None, next }
}

fn keep_silent(next: SetupStage) -> (r: SetupStep)
    ensures
        r@ == silent(next),
{
    let notices: Vec<Notice> = Vec::new();
    assert(notices.deep_view() =~= Seq::<NoticeView>::empty());
    SetupStep { notices, page: None, next }
}

impl SetupTask {
    fn packages_text(self) -> (r: String)
        ensures
            r@ == packages_message(self),
    {
        let mut r = "准备安装 ".to_string();
        r.append(number::to_decimal(self.package_count as u64).as_str());
        r.append(" 个依赖包...");
        r
    }

    /// The first step of a setup.
    pub fn begin(self) -> (r: SetupStep)
        ensures
            r@ == first_step(self),
    {
        if !self.needs_install {
            tell(
                Channel::Status,
                "依赖已就绪，正在启动服务...".to_string(),
                SetupStage::Service,
            )
        } else if self.needs_backend {
            tell(
                Channel::Status,
                "正在安装运行时后端（torch / onnxruntime）...".to_string(),
                SetupStage::Backend,
            )
        } else {
            tell(Channel::Status, self.packages_text(), SetupStage::Packages)
        }
    }

    /// The step that follows an event in a setup.
    pub fn step(self, stage: SetupStage, event: SetupEvent) -> (r: SetupStep)
        requires
            setup_event_fits(stage, event@),
        ensures
            r@ == next_step(self, stage, event@),
    {
        match (stage, event) {
            (SetupStage::Backend, SetupEvent::BackendReady(label)) => {
                let ready = text::followed_by("运行时后端就绪: ", label.as_str());
                let more = self.packages_text();
                let mut notices: Vec<Notice> = Vec::new();
                notices.push(Notice { channel: Channel::Progress, text: ready });
                notices.push(Notice { channel: Channel::Status, text: more });
                assert(notices.deep_view() =~= seq![
                    NoticeView { channel: Channel::Progress, text: ready@ },
                    NoticeView { channel: Channel::Status, text: more@ },
                ]);
                SetupStep { notices, page: None, next: SetupStage::Packages }
            },
            (SetupStage::Backend, SetupEvent::Failure(why)) => tell(
                Channel::Error,
                text::followed_by("运行时后端安装失败: ", why.as_str()),
                SetupStage::Over,
            ),
            (SetupStage::Packages, SetupEvent::Success) => keep_silent(SetupStage::Service),
            (SetupStage::Packages, SetupEvent::Failure(why)) => tell(
                Channel::Error,
                text::followed_by("依赖安装失败: ", why.as_str()),
                SetupStage::Over,
            ),
            (SetupStage::Service, SetupEvent::Success) => tell(
                Channel::Status,
                "等待服务就绪...".to_string(),
                SetupStage::Await,
            ),
            (SetupStage::Service, SetupEvent::Failure(why)) => tell(
                Channel::Error,
                text::followed_by("无法启动服务: ", why.as_str()),
                SetupStage::Over,
            ),
            (SetupStage::Await, SetupEvent::Success) => {
                let url = service_page(self.port);
                let page = outside::parse_url(url.as_str());
                assert(url@ == outside::local_page(self.port as nat));
                let mut notices: Vec<Notice> = Vec::new();
                notices.push(Notice { channel: Channel::Ready, text: url });
                assert(notices.deep_view() =~= seq![
                    NoticeView { channel: Channel::Ready, text: url@ },
                ]);
                SetupStep { notices, page, next: SetupStage::Watch(0) }
            },
            (SetupStage::Await, SetupEvent::Failure(why)) => tell(
                Channel::Error,
                text::followed_by("服务启动超时: ", why.as_str()),
                SetupStage::Over,
            ),
            (SetupStage::Watch(failures), SetupEvent::Answered(up)) => if up {
                keep_silent(SetupStage::Watch(0))
            } else if failures + 1 >= WATCH_FAILURES {
                tell(
                    Channel::Error,
                    "Flask 服务已无响应，请重启应用".to_string(),
                    SetupStage::Over,
                )
            } else {
                let mut message = "服务连接失败 (".to_string();
                message.append(number::to_decimal((failures + 1) as u64).as_str());
                message.append("/3)");
                tell(Channel::Status, message, SetupStage::Watch(failures + 1))
            },
            _ => keep_silent(SetupStage::Over),
        }
    }
}

/// A setup ends exactly with an error: the window is told of one where and only
/// where the setup is over.
pub proof fn setup_ends_with_an_error(task: SetupTask, stage: SetupStage, event: SetupEventView)
    requires
        setup_event_fits(stage, event),
    ensures
        ({
            let step = next_step(task, stage, event);
            step.next == SetupStage::Over <==> exists|i: int|
                0 <= i < step.notices.len() && (#[trigger] step.notices[i]).channel
                    == Channel::Error
        }),
{
    let step = next_step(task, stage, event);
    if step.next == SetupStage::Over {
        assert(step.notices[0].channel == Channel::Error);
    }
}

/// The window is led to the service exactly when the service has answered for the
/// first time, and is told the address then and only then.
pub proof fn window_follows_the_first_answer(
    task: SetupTask,
    stage: SetupStage,
    event: SetupEventView,
)
    requires
        setup_event_fits(stage, event),
    ensures
        ({
            let step = next_step(task, stage, event);
            let answered = stage == SetupStage::Await && event is Success;
            &&& step.page is Some <==> answered
            &&& answered <==> exists|i: int|
                0 <= i < step.notices.len() && (#[trigger] step.notices[i]).channel
                    == Channel::Ready
        }),
{
    let step = next_step(task, stage, event);
    if stage == SetupStage::Await && event is Success {
        assert(step.notices[0].channel == Channel::Ready);
    }
}

/// How near the watch over the service a stage is.
pub open spec fn setup_distance(stage: SetupStage) -> nat {
    match stage {
        SetupStage::Backend => 4,
        SetupStage::Packages => 3,
        SetupStage::Service => 2,
        SetupStage::Await => 1,
        SetupStage::Watch(_) | SetupStage::Over => 0,
    }
}

/// A setup gets on: every step brings it nearer the watch over the service or ends
/// it, and the watch goes on without ever losing count.
pub proof fn setup_gets_on(task: SetupTask, stage: SetupStage, event: SetupEventView)
    requires
        setup_event_fits(stage, event),
    ensures
        ({
            let next = next_step(task, stage, event).next;
            &&& setup_distance(stage) > 0 ==> setup_distance(next) < setup_distance(stage)
            &&& setup_distance(stage) == 0 ==> setup_distance(next) == 0
            &&& next matches SetupStage::Watch(failures) ==> failures < WATCH_FAILURES
        }),
{
}

/// What has become of the watch over the service after some looks, each of which
/// it answered or not.
pub open spec fn watched(task: SetupTask, answers: Seq<bool>) -> SetupStage
    decreases answers.len(),
{
    if answers.len() == 0 {
        SetupStage::Watch(0)
    } else {
        match watched(task, answers.drop_last()) {
            SetupStage::Watch(failures) => next_step(
                task,
                SetupStage::Watch(failures),
                SetupEventView::Answered(answers.last()),
            ).next,
            _ => SetupStage::Over,
        }
    }
}

/// Whether three looks in a row failed, the first of them being the look `i`.
pub open spec fn three_failures(answers: Seq<bool>, i: int) -> bool {
    0 <= i && i + 2 < answers.len() && !answers[i] && !answers[i + 1] && !answers[i + 2]
}

/// The service is given up exactly where it failed to answer three times in a
/// row: a single answer in between starts the count again.
pub proof fn only_three_failures_in_a_row_count(task: SetupTask, answers: Seq<bool>)
    ensures
        watched(task, answers) == SetupStage::Over <==> exists|i: int| three_failures(answers, i),
        watched(task, answers) != SetupStage::Over ==> {
            &&& watched(task, answers) is Watch
            &&& watched(task, answers)->Watch_0 < WATCH_FAILURES
            &&& watched(task, answers)->Watch_0 <= answers.len()
            &&& forall|k: int|
                answers.len() - watched(task, answers)->Watch_0 <= k < answers.len()
                    ==> !#[trigger] answers[k]
            &&& watched(task, answers)->Watch_0 < answers.len() ==> answers[answers.len() - 1
                - watched(task, answers)->Watch_0]
        },
    decreases answers.len(),
{
    if answers.len() > 0 {
        let before = answers.drop_last();
        only_three_failures_in_a_row_count(task, before);
        let n = answers.len() as int;
        assert forall|i: int| three_failures(before, i) implies three_failures(answers, i) by {}
        if watched(task, before) != SetupStage::Over {
            let failures = watched(task, before)->Watch_0;
            if !answers.last() && failures + 1 >= WATCH_FAILURES {
                assert(!before[n - 2]);
                assert(!before[n - 3]);
                assert(three_failures(answers, n - 3));
            } else {
                assert forall|i: int| !three_failures(answers, i) by {
                    if three_failures(answers, i) {
                        if i + 2 < n - 1 {
                            assert(three_failures(before, i));
                        } else {
                            assert(before[n - 2 - failures] || failures == n - 1);
                        }
                    }
                }
            }
        } else {
            let i = choose|i: int| three_failures(before, i);
            assert(three_failures(answers, i));
        }
    }
}

/// What is found out while waiting for the service to answer.
#[derive(Debug, Clone, Copy, PartialEq, Eq, Structural)]
pub enum WaitEvent {
    /// So many nanoseconds have passed since the waiting began.
    Elapsed(u128),
    /// Whether the service answered.
    Answered(bool),
}

/// What to do while waiting for the service to answer.
#[derive(Debug)]
pub enum WaitNext {
    /// Look whether it answers.
    Probe,
    /// Pause for so many milliseconds, then see how much time has passed.
    Pause(u64),
    /// It has answered.
    Ready,
    /// It has not, for this reason.
    GiveUp(String),
}

/// What a `WaitNext` says.
#[verifier::ext_equal]
pub enum WaitNextView {
    Probe,
    Pause(u64),
    Ready,
    GiveUp(Seq<char>),
}

impl View for WaitNext {
    type V = WaitNextView;

    open spec fn view(&self) -> WaitNextView {
        match self {
            WaitNext::Probe => WaitNextView::Probe,
            WaitNext::Pause(millis) => WaitNextView::Pause(*millis),
            WaitNext::Ready => WaitNextView::Ready,
            WaitNext::GiveUp(why) => WaitNextView::GiveUp(why@),
        }
    }
}

/// What to do while waiting for the service to answer within so many seconds: look,
/// pause and look again, until it answers or the time is over.
pub fn wait_for_server(event: WaitEvent, timeout_seconds: u64) -> (r: WaitNext)
    ensures
        r@ == (match event {
            WaitEvent::Elapsed(nanos) => if nanos > timeout_seconds * 1_000_000_000 {
                WaitNextView::GiveUp(
                    "Flask 服务在 "@ + number::decimal(timeout_seconds as nat)
                        + " 秒内未响应"@,
                )
            } else {
                WaitNextView::Probe
            },
            WaitEvent::Answered(true) => WaitNextView::Ready,
            WaitEvent::Answered(false) => WaitNextView::Pause(500),
        }),
{
    match event {
        WaitEvent::Elapsed(nanos) => {
            let limit: u128 = timeout_seconds as u128 * 1_000_000_000;
            if nanos > limit {
                let mut why = "Flask 服务在 ".to_string();
                why.append(number::to_decimal(timeout_seconds).as_str());
                why.append(" 秒内未响应");
                WaitNext::GiveUp(why)
            } else {
                WaitNext::Probe
            }
        },
        WaitEvent::Answered(up) => if up {
            WaitNext::Ready
        } else {
            WaitNext::Pause(WAIT_PAUSE_MILLIS)
        },
    }
}

/// What became of the virtual environment in the first look at the machine.
#[derive(Debug)]
pub enum VenvOutcome {
    /// It was there.
    WasReady,
    /// It was made.
    Made,
    /// It could not be made, for this reason.
    Failed(String),
}

/// What a `VenvOutcome` says.
#[verifier::ext_equal]
pub enum VenvOutcomeView {
    WasReady,
    Made,
    Failed(Seq<char>),
}

impl View for VenvOutcome {
    type V = VenvOutcomeView;

    open spec fn view(&self) -> VenvOutcomeView {
        match self {
            VenvOutcome::WasReady => VenvOutcomeView::WasReady,
            VenvOutcome::Made => VenvOutcomeView::Made,
            VenvOutcome::Failed(why) => VenvOutcomeView::Failed(why@),
        }
    }
}

/// What is told where the copy of the code has to be made.
pub open spec fn code_message(app_py_there: bool) -> Option<Seq<char>> {
    if app_py_there {
        None
    } else {
        Some("正在准备运行环境..."@)
    }
}

/// What to tell before the copy of the code is made, where it has to be.
pub fn code_notice(app_py_there: bool) -> (r: Option<String>)
    ensures
        r.deep_view() == code_message(app_py_there),
{
    if app_py_there {
        None
    } else {
        Some("正在准备运行环境...".to_string())
    }
}

/// What is told where the virtual environment has to be made.
pub open spec fn venv_message(venv_ready: bool) -> Option<Seq<char>> {
    if venv_ready {
        None
    } else {
        Some("未找到 Python，正在尝试通过 uv 安装..."@)
    }
}

/// What to tell before the virtual environment is made, where it has to be.
pub fn venv_notice(venv_ready: bool) -> (r: Option<String>)
    ensures
        r.deep_view() == venv_message(venv_ready),
{
    if venv_ready {
        None
    } else {
        Some("未找到 Python，正在尝试通过 uv 安装...".to_string())
    }
}

/// What is told of what became of the virtual environment.
pub open spec fn venv_outcome_message(outcome: VenvOutcomeView) -> Option<Seq<char>> {
    match outcome {
        VenvOutcomeView::WasReady => None,
        VenvOutcomeView::Made => Some("Python 环境已就绪"@),
        VenvOutcomeView::Failed(why) => Some("Python 环境创建失败: "@ + why),
    }
}

/// What to tell of what became of the virtual environment.
pub fn venv_outcome_notice(outcome: &VenvOutcome) -> (r: Option<String>)
    ensures
        r.deep_view() == venv_outcome_message(outcome@),
{
    match outcome {
        VenvOutcome::WasReady => None,
        VenvOutcome::Made => Some("Python 环境已就绪".to_string()),
        VenvOutcome::Failed(why) => Some(
            text::followed_by("Python 环境创建失败: ", why.as_str()),
        ),
    }
}

/// A list with one more text at its end, where there is one.
pub open spec fn and(list: Seq<Seq<char>>, more: Option<Seq<char>>) -> Seq<Seq<char>> {
    match more {
        Some(t) => list.push(t),
        None => list,
    }
}

/// Everything that is told in the first look at the machine, in order.
pub open spec fn init_messages(app_py_there: bool, venv: VenvOutcomeView) -> Seq<Seq<char>> {
    let start = and(Seq::empty(), code_message(app_py_there));
    let making = and(start, venv_message(venv is WasReady));
    let made = and(making, venv_outcome_message(venv)).push("正在检查更新..."@);
    if venv is Failed {
        made.push("跳过更新检查（Python 环境未就绪）"@)
    } else {
        made
    }
}

/// The modes and the runtime to start with, without asking: those of the last
/// installation, where nothing has changed since.
pub open spec fn auto_start(
    saved: InstallStateView,
    venv_ready: bool,
    label: Seq<char>,
    cuda_flavor: Seq<char>,
) -> Option<(Seq<Seq<char>>, Seq<char>)> {
    if saved.modes.len() > 0 && venv_ready && saved.packages_sig == launcher::signature(
        launcher::packages(saved.modes),
        label,
        cuda_flavor,
    ) {
        Some((saved.modes, launcher::effective_runtime(saved.runtime)))
    } else {
        None
    }
}

/// What the first look at the machine found.
#[derive(Debug)]
pub struct InitFindings {
    /// Whether the program of the service was there.
    pub app_py_there: bool,
    /// What became of the virtual environment.
    pub venv: VenvOutcome,
    /// What the machine offers, and what is wrong with it.
    pub env: EnvInfo,
    /// What is remembered of the last installation.
    pub saved: InstallState,
    /// The label of the runtime backend that suits the modes and the runtime of
    /// the last installation on this machine.
    pub backend_label: String,
    /// The flavor of its CUDA build.
    pub cuda_flavor: String,
}

/// What the window shows after the first look at the machine.
#[derive(Debug)]
pub struct InitResult {
    /// What Python says its version is.
    pub python_version: Option<String>,
    /// The free disk space in bytes.
    pub disk_free_bytes: u64,
    /// The memory in bytes.
    pub memory_bytes: u64,
    /// What is worth knowing.
    pub warnings: Vec<String>,
    /// What has to be mended.
    pub errors: Vec<String>,
    /// What was told on the way.
    pub status_msgs: Vec<String>,
    /// The modes to start with, without asking.
    pub auto_start_modes: Option<Vec<String>>,
    /// The runtime to start with, without asking.
    pub auto_start_runtime: Option<String>,
}

fn add_notice(list: &mut Vec<String>, more: Option<String>)
    ensures
        final(list).deep_view() == and(old(list).deep_view(), more.deep_view()),
{
    let ghost before = list.deep_view();
    match more {
        Some(t) => {
            list.push(t);
            assert(list.deep_view() =~= before.push(t@));
        },
        None => {},
    }
}

/// Whether to look for an update after the first look at the machine: where there
/// is a Python to do it with.
pub fn looks_for_update(venv: &VenvOutcome) -> (r: bool)
    ensures
        r == !(venv@ is Failed),
{
    match venv {
        VenvOutcome::Failed(_) => false,
        _ => true,
    }
}

/// The modes and the runtime to start with, without asking.
pub fn auto_start_choice(
    saved: &InstallState,
    venv_ready: bool,
    backend_label: &str,
    cuda_flavor: &str,
) -> (r: Option<(Vec<String>, String)>)
    ensures
        (match r {
            Some(choice) => Some((choice.0.deep_view(), choice.1@)),
            None => None,
        }) == auto_start(saved@, venv_ready, backend_label@, cuda_flavor@),
{
    assert(saved.modes.deep_view().len() == saved.modes.len());
    if saved.modes.len() == 0 || !venv_ready {
        return None;
    }
    let packages = launcher::packages_for_modes(&saved.modes);
    let expected = launcher::packages_signature(&packages, backend_label, cuda_flavor);
    if text::same(saved.packages_sig.as_str(), expected.as_str()) {
        Some((text::copy_list(&saved.modes), launcher::runtime_or_auto(saved.runtime.as_str())))
    } else {
        None
    }
}

/// What the window shows after the first look at the machine, out of what that
/// found.
pub fn init_setup(found: InitFindings) -> (r: InitResult)
    ensures
        r.python_version == found.env.python_version,
        r.disk_free_bytes == found.env.disk_free_bytes,
        r.memory_bytes == found.env.memory_bytes,
        r.warnings == found.env.warnings,
        r.errors == found.env.errors,
        r.status_msgs.deep_view() == init_messages(found.app_py_there, found.venv@),
        ({
            let choice = auto_start(
                found.saved@,
                !(found.venv@ is Failed),
                found.backend_label@,
                found.cuda_flavor@,
            );
            &&& r.auto_start_modes.deep_view() == (match choice {
                Some(c) => Some(c.0),
                None => None,
            })
            &&& r.auto_start_runtime.deep_view() == (match choice {
                Some(c) => Some(c.1),
                None => None,
            })
        }),
{
    let mut status_msgs: Vec<String> = Vec::new();
    assert(status_msgs.deep_view() =~= Seq::<Seq<char>>::empty());
    add_notice(&mut status_msgs, code_notice(found.app_py_there));
    let was_ready = match &found.venv {
        VenvOutcome::WasReady => true,
        _ => false,
    };
    add_notice(&mut status_msgs, venv_notice(was_ready));
    add_notice(&mut status_msgs, venv_outcome_notice(&found.venv));
    add_notice(&mut status_msgs, Some("正在检查更新...".to_string()));
    let venv_ready = looks_for_update(&found.venv);
    if !venv_ready {
        add_notice(
            &mut status_msgs,
            Some("跳过更新检查（Python 环境未就绪）".to_string()),
        );
    }
    let choice = auto_start_choice(
        &found.saved,
        venv_ready,
        found.backend_label.as_str(),
        found.cuda_flavor.as_str(),
    );
    let (auto_start_modes, auto_start_runtime) = match choice {
        Some((modes, runtime)) => (Some(modes), Some(runtime)),
        None => (None, None),
    };
    InitResult {
        python_version: found.env.python_version,
        disk_free_bytes: found.env.disk_free_bytes,
        memory_bytes: found.env.memory_bytes,
        warnings: found.env.warnings,
        errors: found.env.errors,
        status_msgs,
        auto_start_modes,
        auto_start_runtime,
    }
}

/// What a setup remembers is what the next start begins with, without asking: the
/// same modes and the same runtime, as long as the same backend suits them.
pub proof fn a_setup_is_started_again(
    modes: Seq<Seq<char>>,
    runtime: Seq<char>,
    label: Seq<char>,
    cuda_flavor: Seq<char>,
    saved: InstallStateView,
)
    requires
        rejection(modes, true) is None,
    ensures
        auto_start(
            setup_plan(modes, runtime, label, cuda_flavor, saved).state,
            true,
            label,
            cuda_flavor,
        ) == Some((modes, launcher::effective_runtime(runtime))),
{
    reveal_strlit("auto");
    assert(launcher::effective_runtime(launcher::effective_runtime(runtime))
        == launcher::effective_runtime(runtime));
}

/// Going through the same setup twice installs nothing the second time, where what
/// was installed is usable, and remembers nothing new.
pub proof fn the_same_setup_installs_nothing(
    modes: Seq<Seq<char>>,
    runtime: Seq<char>,
    label: Seq<char>,
    cuda_flavor: Seq<char>,
    saved: InstallStateView,
)
    ensures
        ({
            let first = setup_plan(modes, runtime, label, cuda_flavor, saved);
            let second = setup_plan(modes, runtime, label, cuda_flavor, first.state);
            &&& second.same_signature
            &&& second.state == first.state
            &&& second.packages == first.packages
        }),
{
}

/// Where the signature was forgotten, as an update of the code does, nothing starts
/// without asking, and the next setup installs.
pub proof fn a_forgotten_signature_is_looked_at_again(
    modes: Seq<Seq<char>>,
    runtime: Seq<char>,
    label: Seq<char>,
    cuda_flavor: Seq<char>,
    saved: InstallStateView,
    venv_ready: bool,
)
    requires
        saved.packages_sig.len() == 0,
    ensures
        auto_start(saved, venv_ready, label, cuda_flavor) is None,
        !setup_plan(modes, runtime, label, cuda_flavor, saved).same_signature,
{
    reveal_strlit("|");
    assert(launcher::signature(launcher::packages(modes), label, cuda_flavor).len() > 0);
    assert(launcher::signature(launcher::packages(saved.modes), label, cuda_flavor).len() > 0);
}

/// A choice is accepted exactly where it holds a mode, only modes, and there is a
/// Python.
pub proof fn a_choice_of_modes_is_accepted(modes: Seq<Seq<char>>, venv_ready: bool)
    ensures
        rejection(modes, venv_ready) is None <==> modes.len() > 0 && venv_ready && forall|i: int|
            0 <= i < modes.len() ==> launcher::is_mode(#[trigger] modes[i]),
{
    lemma_first_unknown(modes);
}

proof fn lemma_first_unknown(modes: Seq<Seq<char>>)
    ensures
        first_unknown(modes) is None <==> forall|i: int|
            0 <= i < modes.len() ==> launcher::is_mode(#[trigger] modes[i]),
    decreases modes.len(),
{
    if modes.len() > 0 && launcher::is_mode(modes[0]) {
        let rest = modes.skip(1);
        lemma_first_unknown(rest);
        if first_unknown(modes) is None {
            assert forall|i: int| 0 <= i < modes.len() implies launcher::is_mode(
                #[trigger] modes[i],
            ) by {
                if i > 0 {
                    assert(modes[i] == rest[i - 1]);
                }
            }
        } else {
            let i = choose|i: int| 0 <= i < rest.len() && !launcher::is_mode(rest[i]);
            assert(!launcher::is_mode(modes[i + 1]));
        }
    }
}

} // verus!
