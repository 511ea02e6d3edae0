//! The Python runtime: the virtual environment, the packages in it, and the
//! service that runs on it.

use crate::invocation;
use crate::invocation::{Arg, ArgView, Invocation, InvocationView};
use crate::launcher::MirrorConfig;
use crate::number;
use crate::paths::{Joined, Platform};
use crate::search;
use crate::search::{Candidate, CandidateView, SearchView, StageView, ToolSearch};
use crate::text;
use vstd::prelude::*;

verus! {

/// The places that a Python runtime is made of.
#[derive(Debug)]
pub struct PythonRuntime<B> {
    /// The Python of the virtual environment.
    pub venv_python: B,
    /// The copy of the code.
    pub app_dir: B,
}

/// Where the copy of the code is, below the data directory.
pub fn app_dir_path<B>(app_data_dir: B) -> (r: Joined<B>)
    ensures
        r@ == (app_data_dir, seq!["app"@]),
{
    let r = Joined::at(app_data_dir).join("app");
    assert(r@.1 =~= seq!["app"@]);
    r
}

/// The program of the service, in the copy of the code.
pub fn app_py_path<B>(app_dir: B) -> (r: Joined<B>)
    ensures
        r@ == (app_dir, seq!["app.py"@]),
{
    let r = Joined::at(app_dir).join("app.py");
    assert(r@.1 =~= seq!["app.py"@]);
    r
}

/// What to do about the copy of the code.
#[derive(Debug, Clone, Copy, PartialEq, Eq, Structural)]
pub enum Extraction {
    /// It is there.
    Keep,
    /// It has to be made. What is in its place goes first.
    Replace,
    /// It has to be made, and nothing is in its place.
    Create,
}

/// The names below a virtual environment that lead to its Python.
pub open spec fn venv_python_names(platform: Platform) -> Seq<Seq<char>> {
    if platform == Platform::Windows {
        seq!["Scripts"@, "python.exe"@]
    } else {
        seq!["bin"@, "python3"@]
    }
}

/// Where the virtual environment is, below the data directory.
pub fn venv_dir_path<B>(app_data_dir: B) -> (r: Joined<B>)
    ensures
        r@ == (app_data_dir, seq!["venv"@]),
{
    let r = Joined::at(app_data_dir).join("venv");
    assert(r@.1 =~= seq!["venv"@]);
    r
}

/// Where the Python of a virtual environment is.
pub fn venv_python_path<B>(venv_dir: B, platform: Platform) -> (r: Joined<B>)
    ensures
        r@ == (venv_dir, venv_python_names(platform)),
{
    let r = if platform.is_windows() {
        Joined::at(venv_dir).join("Scripts").join("python.exe")
    } else {
        Joined::at(venv_dir).join("bin").join("python3")
    };
    assert(r@.1 =~= venv_python_names(platform));
    r
}

/// How far the making of a virtual environment has come, and what is to be done
/// next.
#[derive(Debug)]
pub enum VenvStage {
    /// See whether its Python is there already.
    Look,
    /// See whether there is `uv`.
    FindUv,
    /// See whether there is `uv`, and get it where there is none.
    EnsureUv,
    /// Run `uv` to make it.
    RunUv,
    /// Run the Python of the system to make it.
    RunSystem,
    /// It is there.
    Ready,
    /// It cannot be made, for this reason.
    Failed(String),
}

/// What a `VenvStage` says.
#[verifier::ext_equal]
pub enum VenvStageView {
    Look,
    FindUv,
    EnsureUv,
    RunUv,
    RunSystem,
    Ready,
    Failed(Seq<char>),
}

impl View for VenvStage {
    type V = VenvStageView;

    open spec fn view(&self) -> VenvStageView {
        match self {
            VenvStage::Look => VenvStageView::Look,
            VenvStage::FindUv => VenvStageView::FindUv,
            VenvStage::EnsureUv => VenvStageView::EnsureUv,
            VenvStage::RunUv => VenvStageView::RunUv,
            VenvStage::RunSystem => VenvStageView::RunSystem,
            VenvStage::Ready => VenvStageView::Ready,
            VenvStage::Failed(why) => VenvStageView::Failed(why@),
        }
    }
}

/// What came of the last thing to be done.
#[derive(Debug)]
pub enum VenvEvent {
    /// Whether the Python of the virtual environment is there.
    PythonThere(bool),
    /// Whether there is `uv`.
    UvThere(bool),
    /// The program could not be started.
    NotStarted,
    /// The program was started, but waiting for it failed, for this reason.
    WaitFailed(String),
    /// The program ended: whether it reported success, and whether the Python of
    /// the virtual environment is there now.
    Ended {
        success: bool,
        python_there: bool,
    },
}

/// What a `VenvEvent` says.
#[verifier::ext_equal]
pub enum VenvEventView {
    PythonThere(bool),
    UvThere(bool),
    NotStarted,
    WaitFailed(Seq<char>),
    Ended { success: bool, python_there: bool },
}

impl View for VenvEvent {
    type V = VenvEventView;

    open spec fn view(&self) -> VenvEventView {
        match self {
            VenvEvent::PythonThere(b) => VenvEventView::PythonThere(*b),
            VenvEvent::UvThere(b) => VenvEventView::UvThere(*b),
            VenvEvent::NotStarted => VenvEventView::NotStarted,
            VenvEvent::WaitFailed(why) => VenvEventView::WaitFailed(why@),
            VenvEvent::Ended { success, python_there } => VenvEventView::Ended {
                success: *success,
                python_there: *python_there,
            },
        }
    }
}

/// Whether an event can come of what a stage asks for.
pub open spec fn venv_event_fits(stage: VenvStageView, event: VenvEventView) -> bool {
    match stage {
        VenvStageView::Look => event is PythonThere,
        VenvStageView::FindUv | VenvStageView::EnsureUv => event is UvThere,
        VenvStageView::RunUv | VenvStageView::RunSystem => event is NotStarted
            || event is WaitFailed || event is Ended,
        VenvStageView::Ready | VenvStageView::Failed(_) => false,
    }
}

/// A step in the making of a virtual environment: what to tell, and what to do.
#[derive(Debug)]
pub struct VenvStep {
    pub messages: Vec<String>,
    pub next: VenvStage,
}

/// What a `VenvStep` says.
#[verifier::ext_equal]
pub struct VenvStepView {
    pub messages: Seq<Seq<char>>,
    pub next: VenvStageView,
}

impl View for VenvStep {
    type V = VenvStepView;

    open spec fn view(&self) -> VenvStepView {
        VenvStepView { messages: self.messages.deep_view(), next: self.next@ }
    }
}

/// The step that falls back on the Python of the system, after saying `before`.
pub open spec fn fall_back(before: Seq<Seq<char>>, has_system_python: bool) -> VenvStepView {
    if has_system_python {
        VenvStepView {
            messages: before.push("使用系统 Python 创建虚拟环境..."@),
            next: VenvStageView::RunSystem,
        }
    } else {
        VenvStepView {
            messages: before,
            next: VenvStageView::Failed(
                "未找到系统 Python 且 uv 不可用，请安装 Python 3.10+ 或 uv"@,
            ),
        }
    }
}

/// The step that follows an event in the making of a virtual environment: `uv`
/// first, the Python of the system where that does not do.
pub open spec fn venv_step(
    stage: VenvStageView,
    event: VenvEventView,
    has_system_python: bool,
    use_ensure_uv: bool,
) -> VenvStepView {
    let none = Seq::<Seq<char>>::empty();
    match event {
        VenvEventView::PythonThere(there) => VenvStepView {
            messages: none,
            next: if there {
                VenvStageView::Ready
            } else if use_ensure_uv {
                VenvStageView::EnsureUv
            } else {
                VenvStageView::FindUv
            },
        },
        VenvEventView::UvThere(true) => VenvStepView {
            messages: seq!["使用 uv 创建虚拟环境（可能需下载 Python）..."@],
            next: VenvStageView::RunUv,
        },
        VenvEventView::UvThere(false) => fall_back(none, has_system_python),
        VenvEventView::NotStarted | VenvEventView::WaitFailed(_) => if stage is RunUv {
            fall_back(
                seq!["uv 创建 venv 失败，回退到系统 Python..."@],
                has_system_python,
            )
        } else {
            VenvStepView {
                messages: none,
                next: VenvStageView::Failed("Failed to create virtual environment"@),
            }
        },
        VenvEventView::Ended { success, python_there } => if stage is RunUv {
            if success && python_there {
                VenvStepView { messages: none, next: VenvStageView::Ready }
            } else if success {
                fall_back(
                    seq!["uv 创建的 venv 不完整，尝试系统 Python..."@],
                    has_system_python,
                )
            } else {
                fall_back(
                    seq!["uv 创建 venv 失败，回退到系统 Python..."@],
                    has_system_python,
                )
            }
        } else if success {
            VenvStepView { messages: none, next: VenvStageView::Ready }
        } else {
            VenvStepView {
                messages: none,
                next: VenvStageView::Failed(
                    "venv creation failed (both uv and system Python)"@,
                ),
            }
        },
    }
}

fn falling_back(before: Vec<String>, has_system_python: bool) -> (r: VenvStep)
    ensures
        r@ == fall_back(before.deep_view(), has_system_python),
{
    let mut messages = before;
    let ghost said = messages.deep_view();
    if has_system_python {
        messages.push("使用系统 Python 创建虚拟环境...".to_string());
        assert(messages.deep_view() =~= said.push("使用系统 Python 创建虚拟环境..."@));
        VenvStep { messages, next: VenvStage::RunSystem }
    } else {
        VenvStep {
            messages,
            next: VenvStage::Failed(
                "未找到系统 Python 且 uv 不可用，请安装 Python 3.10+ 或 uv".to_string(),
            ),
        }
    }
}

fn nothing_said() -> (r: Vec<String>)
    ensures
        r.deep_view() == Seq::<Seq<char>>::empty(),
{
    let r: Vec<String> = Vec::new();
    assert(r.deep_view() =~= Seq::<Seq<char>>::empty());
    r
}

fn said(message: &str) -> (r: Vec<String>)
    ensures
        r.deep_view() == seq![message@],
{
    let mut r: Vec<String> = Vec::new();
    r.push(message.to_string());
    assert(r.deep_view() =~= seq![message@]);
    r
}

impl<B> PythonRuntime<B> {
    /// What to do about the copy of the code: nothing where its program is there,
    /// else make it anew.
    pub fn extract_resources(app_py_there: bool, app_dir_there: bool) -> (r: Extraction)
        ensures
            r == (if app_py_there {
                Extraction::Keep
            } else if app_dir_there {
                Extraction::Replace
            } else {
                Extraction::Create
            }),
    {
        if app_py_there {
            Extraction::Keep
        } else if app_dir_there {
            Extraction::Replace
        } else {
            Extraction::Create
        }
    }

    /// The step that follows an event in the making of a virtual environment.
    /// Where `use_ensure_uv` says so, `uv` is got where there is none.
    pub fn setup_venv(
        stage: VenvStage,
        event: VenvEvent,
        has_system_python: bool,
        use_ensure_uv: bool,
    ) -> (r: VenvStep)
        requires
            venv_event_fits(stage@, event@),
        ensures
            r@ == venv_step(stage@, event@, has_system_python, use_ensure_uv),
    {
        let for_uv = match stage {
            VenvStage::RunUv => true,
            _ => false,
        };
        match event {
            VenvEvent::PythonThere(there) => VenvStep {
                messages: nothing_said(),
                next: if there {
                    VenvStage::Ready
                } else if use_ensure_uv {
                    VenvStage::EnsureUv
                } else {
                    VenvStage::FindUv
                },
            },
            VenvEvent::UvThere(there) => if there {
                VenvStep {
                    messages: said("使用 uv 创建虚拟环境（可能需下载 Python）..."),
                    next: VenvStage::RunUv,
                }
            } else {
                falling_back(nothing_said(), has_system_python)
            },
            VenvEvent::NotStarted | VenvEvent::WaitFailed(_) => if for_uv {
                falling_back(
                    said("uv 创建 venv 失败，回退到系统 Python..."),
                    has_system_python,
                )
            } else {
                VenvStep {
                    messages: nothing_said(),
                    next: VenvStage::Failed("Failed to create virtual environment".to_string()),
                }
            },
            VenvEvent::Ended { success, python_there } => if for_uv {
                if success && python_there {
                    VenvStep { messages: nothing_said(), next: VenvStage::Ready }
                } else if success {
                    falling_back(
                        said("uv 创建的 venv 不完整，尝试系统 Python..."),
                        has_system_python,
                    )
                } else {
                    falling_back(
                        said("uv 创建 venv 失败，回退到系统 Python..."),
                        has_system_python,
                    )
                }
            } else if success {
                VenvStep { messages: nothing_said(), next: VenvStage::Ready }
            } else {
                VenvStep {
                    messages: nothing_said(),
                    next: VenvStage::Failed(
                        "venv creation failed (both uv and system Python)".to_string(),
                    ),
                }
            },
        }
    }
}

/// The command that makes a virtual environment with `uv`.
pub fn uv_venv_command<'a, B>(uv: &'a B, venv_dir: &'a B) -> (r: Invocation<'a, B>)
    ensures
        r@ == (InvocationView {
            program: ArgView::Path(*uv),
            args: seq![
                ArgView::Text("venv"@),
                ArgView::Text("--python"@),
                ArgView::Text(">=3.10"@),
                ArgView::Path(*venv_dir),
            ],
        }),
{
    let r = Invocation::of_path(uv).text("venv").text("--python").text(">=3.10").path(venv_dir);
    assert(r@.args =~= seq![
        ArgView::Text("venv"@),
        ArgView::Text("--python"@),
        ArgView::Text(">=3.10"@),
        ArgView::Path(*venv_dir),
    ]);
    r
}

/// The command that makes a virtual environment with the Python of the system.
pub fn system_venv_command<'a, B>(python: &'a B, venv_dir: &'a B) -> (r: Invocation<'a, B>)
    ensures
        r@ == (InvocationView {
            program: ArgView::Path(*python),
            args: seq![ArgView::Text("-m"@), ArgView::Text("venv"@), ArgView::Path(*venv_dir)],
        }),
{
    let r = Invocation::of_path(python).text("-m").text("venv").path(venv_dir);
    assert(r@.args =~= seq![
        ArgView::Text("-m"@),
        ArgView::Text("venv"@),
        ArgView::Path(*venv_dir),
    ]);
    r
}

/// The stages of the making of a virtual environment, by how near its end is.
pub open spec fn venv_distance(stage: VenvStageView) -> nat {
    match stage {
        VenvStageView::Look => 4,
        VenvStageView::FindUv | VenvStageView::EnsureUv => 3,
        VenvStageView::RunUv => 2,
        VenvStageView::RunSystem => 1,
        VenvStageView::Ready | VenvStageView::Failed(_) => 0,
    }
}

/// Making a virtual environment comes to an end: every step brings it nearer.
pub proof fn venv_setup_ends(
    stage: VenvStageView,
    event: VenvEventView,
    has_system_python: bool,
    use_ensure_uv: bool,
)
    requires
        venv_event_fits(stage, event),
    ensures
        venv_distance(venv_step(stage, event, has_system_python, use_ensure_uv).next)
            < venv_distance(stage),
{
}

/// The Python of the system is only tried where there is one, and only where `uv`
/// is missing or did not do.
pub proof fn system_python_is_the_last_resort(
    stage: VenvStageView,
    event: VenvEventView,
    has_system_python: bool,
    use_ensure_uv: bool,
)
    requires
        venv_event_fits(stage, event),
        venv_step(stage, event, has_system_python, use_ensure_uv).next is RunSystem,
    ensures
        has_system_python,
        event == VenvEventView::UvThere(false) || (stage is RunUv && event
            != (VenvEventView::Ended { success: true, python_there: true })),
{
}

/// The making of a virtual environment fails only where both ways fail: the Python
/// of the system was tried last, or there is none.
pub proof fn a_venv_fails_only_where_both_do(
    stage: VenvStageView,
    event: VenvEventView,
    has_system_python: bool,
    use_ensure_uv: bool,
)
    requires
        venv_event_fits(stage, event),
        venv_step(stage, event, has_system_python, use_ensure_uv).next is Failed,
    ensures
        stage is RunSystem || !has_system_python,
{
}

/// What becomes of a virtual environment: whether its Python was there, whether
/// there is `uv`, what came of running that, and what came of running the Python of
/// the system.
pub open spec fn whole_venv(
    python_there: bool,
    uv_there: bool,
    uv_run: VenvEventView,
    system_run: VenvEventView,
    has_system_python: bool,
    use_ensure_uv: bool,
) -> VenvStageView {
    let looked = venv_step(
        VenvStageView::Look,
        VenvEventView::PythonThere(python_there),
        has_system_python,
        use_ensure_uv,
    ).next;
    if looked is Ready {
        looked
    } else {
        let sought = venv_step(
            looked,
            VenvEventView::UvThere(uv_there),
            has_system_python,
            use_ensure_uv,
        ).next;
        let tried = if sought is RunUv {
            venv_step(sought, uv_run, has_system_python, use_ensure_uv).next
        } else {
            sought
        };
        if tried is RunSystem {
            venv_step(tried, system_run, has_system_python, use_ensure_uv).next
        } else {
            tried
        }
    }
}

/// In the end there is a virtual environment exactly where there was one, where
/// `uv` made a whole one, or where the Python of the system made one; otherwise
/// making it has failed.
pub proof fn a_venv_is_made_where_either_can(
    python_there: bool,
    uv_there: bool,
    uv_run: VenvEventView,
    system_run: VenvEventView,
    has_system_python: bool,
    use_ensure_uv: bool,
)
    requires
        venv_event_fits(VenvStageView::RunUv, uv_run),
        venv_event_fits(VenvStageView::RunSystem, system_run),
    ensures
        ({
            let end = whole_venv(
                python_there,
                uv_there,
                uv_run,
                system_run,
                has_system_python,
                use_ensure_uv,
            );
            &&& end is Ready || end is Failed
            &&& end is Ready <==> python_there || (uv_there && uv_run == (VenvEventView::Ended {
                success: true,
                python_there: true,
            })) || (has_system_python && system_run is Ended && system_run->Ended_success)
        }),
{
}

/// The command that installs packages.
pub open spec fn install_command<B>(
    venv_python: B,
    uv: Option<B>,
    list: Seq<Seq<char>>,
    use_mirror: bool,
    index: Seq<char>,
    extra: Seq<char>,
) -> InvocationView<B> {
    let start: Seq<ArgView<B>> = match uv {
        Some(_) => seq![
            ArgView::Text("pip"@),
            ArgView::Text("install"@),
            ArgView::Text("--python"@),
            ArgView::Path(venv_python),
        ],
        None => seq![
            ArgView::Text("-m"@),
            ArgView::Text("pip"@),
            ArgView::Text("install"@),
            ArgView::Text("--disable-pip-version-check"@),
            ArgView::Text("--no-input"@),
        ],
    };
    let mirror: Seq<ArgView<B>> = if use_mirror {
        seq![
            ArgView::Text("-i"@),
            ArgView::Text(index),
            ArgView::Text("--extra-index-url"@),
            ArgView::Text(extra),
        ]
    } else {
        seq![]
    };
    InvocationView {
        program: match uv {
            Some(path) => ArgView::Path(path),
            None => ArgView::Path(venv_python),
        },
        args: start + mirror + invocation::texts::<B>(list),
    }
}

/// What is told before packages are installed.
pub open spec fn install_messages(
    total: nat,
    with_uv: bool,
    use_mirror: bool,
    label: Seq<char>,
) -> Seq<Seq<char>> {
    let first = if with_uv {
        "使用 uv 安装 "@ + number::decimal(total) + " 个依赖包（速度更快）..."@
    } else {
        "开始安装 "@ + number::decimal(total) + " 个依赖包..."@
    };
    if !use_mirror {
        seq![first]
    } else if with_uv {
        seq![first, "使用镜像源: "@ + label]
    } else {
        seq![first, "使用镜像源: "@ + label + "（uv 未安装，用 pip 较慢）"@]
    }
}

/// An installation of packages to be run: what to tell first, and the command.
#[derive(Debug)]
pub struct InstallRun<'a, B> {
    pub messages: Vec<String>,
    pub command: Invocation<'a, B>,
}

impl<B> PythonRuntime<B> {
    /// How packages are installed: with `uv` where there is one, else with `pip`,
    /// and through the mirrors where they are in use. Where there is no package
    /// there is nothing to do.
    pub fn install_packages<'a>(
        &'a self,
        uv: Option<&'a B>,
        packages: &Vec<String>,
        mirror: &MirrorConfig,
    ) -> (r: Option<InstallRun<'a, B>>)
        ensures
            r is None <==> packages.len() == 0,
            r matches Some(run) ==> {
                &&& run.messages.deep_view() == install_messages(
                    packages.len() as nat,
                    uv is Some,
                    mirror.use_mirror,
                    mirror.pypi_label@,
                )
                &&& run.command@ == install_command(
                    self.venv_python,
                    (match uv {
                        Some(path) => Some(*path),
                        None => None,
                    }),
                    packages.deep_view(),
                    mirror.use_mirror,
                    mirror.pypi_index@,
                    mirror.pypi_extra@,
                )
            },
    {
        if packages.len() == 0 {
            return None;
        }
        let mut messages: Vec<String> = Vec::new();
        let mut first = if uv.is_some() {
            "使用 uv 安装 ".to_string()
        } else {
            "开始安装 ".to_string()
        };
        first.append(number::to_decimal(packages.len() as u64).as_str());
        if uv.is_some() {
            first.append(" 个依赖包（速度更快）...");
        } else {
            first.append(" 个依赖包...");
        }
        messages.push(first);
        let mut command = match uv {
            Some(path) => Invocation::of_path(path).text("pip").text("install").text(
                "--python",
            ).path(&self.venv_python),
            None => Invocation::of_path(&self.venv_python).text("-m").text("pip").text(
                "install",
            ).text("--disable-pip-version-check").text("--no-input"),
        };
        if mirror.use_mirror {
            command = command.text("-i").text(mirror.pypi_index.as_str()).text(
                "--extra-index-url",
            ).text(mirror.pypi_extra.as_str());
            let mut second = "使用镜像源: ".to_string();
            second.append(mirror.pypi_label.as_str());
            if uv.is_none() {
                second.append("（uv 未安装，用 pip 较慢）");
            }
            messages.push(second);
        }
        let command = command.text_list(packages);
        proof {
            let expected = install_command(
                self.venv_python,
                (match uv {
                    Some(path) => Some(*path),
                    None => None,
                }),
                packages.deep_view(),
                mirror.use_mirror,
                mirror.pypi_index@,
                mirror.pypi_extra@,
            );
            assert(command@.args =~= expected.args);
            assert(messages.deep_view() =~= install_messages(
                packages.len() as nat,
                uv is Some,
                mirror.use_mirror,
                mirror.pypi_label@,
            ));
        }
        Some(InstallRun { messages, command })
    }
}

/// What is told of a line that the installer printed, if anything. `started`
/// downloads out of `total` packages were announced before it.
pub open spec fn line_message(
    line: Seq<char>,
    with_uv: bool,
    started: nat,
    total: nat,
) -> Option<Seq<char>> {
    let t = text::trimmed(line);
    if with_uv && ("Resolved"@.is_prefix_of(t) || "Prepared"@.is_prefix_of(t)
        || "Installed"@.is_prefix_of(t)) {
        Some(t)
    } else if "Collecting "@.is_prefix_of(t) {
        Some(
            "["@ + number::decimal(started + 1) + "/"@ + number::decimal(total) + "] 下载 "@
                + t.skip("Collecting "@.len() as int),
        )
    } else if "Downloading "@.is_prefix_of(t) {
        Some(t)
    } else if "Installing collected packages"@.is_prefix_of(t) {
        Some("正在安装已下载的包..."@)
    } else if "Successfully installed"@.is_prefix_of(t) {
        Some(t)
    } else {
        None
    }
}

/// Whether a line that the installer printed announces a download.
pub open spec fn announces_download(line: Seq<char>) -> bool {
    "Collecting "@.is_prefix_of(text::trimmed(line))
}

/// What is known of an installation under way.
#[derive(Debug)]
pub struct InstallProgress {
    /// Whether `uv` installs.
    pub with_uv: bool,
    /// How many downloads were announced.
    pub started: u64,
    /// How many packages were asked for.
    pub total: u64,
}

impl InstallProgress {
    /// An installation that begins.
    pub fn new(with_uv: bool, total: usize) -> (r: Self)
        ensures
            r.with_uv == with_uv,
            r.started == 0,
            r.total == total,
    {
        InstallProgress { with_uv, started: 0, total: total as u64 }
    }

    /// What to tell of a line that the installer printed, if anything. Lines that
    /// announce a download are counted.
    pub fn line(&mut self, line: &str) -> (r: Option<String>)
        requires
            old(self).started < u64::MAX,
        ensures
            r.deep_view() == line_message(
                line@,
                old(self).with_uv,
                old(self).started as nat,
                old(self).total as nat,
            ),
            final(self).started == old(self).started + (if announces_download(line@) {
                1int
            } else {
                0
            }),
            final(self).with_uv == old(self).with_uv,
            final(self).total == old(self).total,
    {
        proof {
            reveal_strlit("Resolved");
            reveal_strlit("Prepared");
            reveal_strlit("Installed");
            reveal_strlit("Collecting ");
        }
        let t = text::trim(line);
        if self.with_uv && (text::starts_with(t, "Resolved") || text::starts_with(t, "Prepared")
            || text::starts_with(t, "Installed")) {
            proof {
                if announces_download(line@) {
                    assert("Collecting "@[0] == t@[0]);
                    assert("Collecting "@[0] == 'C');
                    if "Resolved"@.is_prefix_of(t@) {
                        assert("Resolved"@[0] == t@[0]);
                    } else if "Prepared"@.is_prefix_of(t@) {
                        assert("Prepared"@[0] == t@[0]);
                    } else {
                        assert("Installed"@[0] == t@[0]);
                    }
                }
            }
            Some(t.to_string())
        } else if text::starts_with(t, "Collecting ") {
            self.started = self.started + 1;
            let mut message = "[".to_string();
            message.append(number::to_decimal(self.started).as_str());
            message.append("/");
            message.append(number::to_decimal(self.total).as_str());
            message.append("] 下载 ");
            let rest = t.substring_char(11, t.unicode_len());
            assert(rest@ =~= t@.skip("Collecting "@.len() as int));
            message.append(rest);
            Some(message)
        } else if text::starts_with(t, "Downloading ") {
            Some(t.to_string())
        } else if text::starts_with(t, "Installing collected packages") {
            Some("正在安装已下载的包...".to_string())
        } else if text::starts_with(t, "Successfully installed") {
            Some(t.to_string())
        } else {
            None
        }
    }
}

/// The modules that must be importable for a choice of modes: a few that stand
/// for the packages.
pub open spec fn probed_modules(modes: Seq<Seq<char>>) -> Seq<Seq<char>> {
    seq!["flask"@, "PIL"@, "numpy"@, "cv2"@, "imagehash"@, "rawpy"@, "piexif"@] + (
    if modes.contains("expert"@) {
        seq!["torch"@, "transformers"@, "insightface"@, "pyiqa"@]
    } else {
        seq![]
    }) + (if modes.contains("tycoon"@) {
        seq!["openai"@]
    } else {
        seq![]
    })
}

impl<B> PythonRuntime<B> {
    /// The command that succeeds exactly where the modules that stand for the
    /// packages of the modes can be imported.
    pub fn deps_ready<'a>(&'a self, modes: &Vec<String>) -> (r: Invocation<'a, B>)
        ensures
            r@ == (InvocationView {
                program: ArgView::Path(self.venv_python),
                args: seq![
                    ArgView::Text("-c"@),
                    ArgView::Text(
                        "import "@ + text::joined(probed_modules(modes.deep_view()), ", "@),
                    ),
                ],
            }),
    {
        let mut modules = vec![
            "flask".to_string(),
            "PIL".to_string(),
            "numpy".to_string(),
            "cv2".to_string(),
            "imagehash".to_string(),
            "rawpy".to_string(),
            "piexif".to_string(),
        ];
        if text::list_has(modes, "expert") {
            modules.push("torch".to_string());
            modules.push("transformers".to_string());
            modules.push("insightface".to_string());
            modules.push("pyiqa".to_string());
        }
        if text::list_has(modes, "tycoon") {
            modules.push("openai".to_string());
        }
        assert(modules.deep_view() =~= probed_modules(modes.deep_view()));
        let mut script = "import ".to_string();
        script.append(text::join(&modules, ", ").as_str());
        let r = Invocation::of_path(&self.venv_python).text("-c").text(script.as_str());
        assert(r@.args =~= seq![ArgView::Text("-c"@), ArgView::Text(script@)]);
        r
    }
}

/// The service to be started: the command, the directory to run it in, and the
/// environment variable to set.
#[derive(Debug)]
pub struct FlaskRun<'a, B> {
    pub command: Invocation<'a, B>,
    pub current_dir: &'a B,
    pub hf_endpoint: Option<String>,
}

impl<B> PythonRuntime<B> {
    /// How the service is started on a port: with the program in the copy of the
    /// code, and with the mirror for models where mirrors are in use. Nothing can
    /// be started where the program is not there.
    pub fn start_flask<'a>(
        &'a self,
        app_py_there: bool,
        port: u16,
        mirror: &MirrorConfig,
    ) -> (r: Option<FlaskRun<'a, B>>)
        ensures
            r is Some <==> app_py_there,
            r matches Some(run) ==> {
                &&& run.command@ == (InvocationView {
                    program: ArgView::Path(self.venv_python),
                    args: seq![
                        ArgView::Below(self.app_dir, seq!["app.py"@]),
                        ArgView::Text("--port"@),
                        ArgView::Text(number::decimal(port as nat)),
                        ArgView::Text("--no-browser"@),
                    ],
                })
                &&& *run.current_dir == self.app_dir
                &&& run.hf_endpoint.deep_view() == (if mirror.use_mirror {
                    Some(mirror.hf_endpoint@)
                } else {
                    None
                })
            },
    {
        if !app_py_there {
            return None;
        }
        let command = Invocation::of_path(&self.venv_python).arg(
            Arg::Below(app_py_path(&self.app_dir)),
        ).text("--port").text(number::to_decimal(port as u64).as_str()).text("--no-browser");
        assert(command@.args =~= seq![
            ArgView::Below(self.app_dir, seq!["app.py"@]),
            ArgView::Text("--port"@),
            ArgView::Text(number::decimal(port as nat)),
            ArgView::Text("--no-browser"@),
        ]);
        let hf_endpoint = if mirror.use_mirror {
            Some(mirror.hf_endpoint.clone())
        } else {
            None
        };
        Some(FlaskRun { command, current_dir: &self.app_dir, hf_endpoint })
    }
}

/// The script that prints which packages stand in the way of the full OpenCV,
/// with a bar between them.
pub const OPENCV_SCRIPT: &'static str =
    "import importlib.metadata as m; names={'opencv-python','opencv-python-headless'}; found=[n for n in names if any(d.metadata['Name'].lower()==n for d in m.distributions())]; print('|'.join(found))";

/// The packages that the script printed.
pub open spec fn opencv_conflicts(output: Seq<char>) -> Seq<Seq<char>> {
    text::nonempty(text::fields(text::trimmed(output), '|'))
}

fn conflicts_in(output: &str) -> (r: Vec<String>)
    ensures
        r.deep_view() == opencv_conflicts(output@),
{
    text::keep_nonempty(text::split_char(text::trim(output), '|'))
}

/// The commands that remove packages: one for all of them with `uv`, one for each
/// with `pip`.
pub open spec fn uninstall_commands<B>(
    venv_python: B,
    uv: Option<B>,
    list: Seq<Seq<char>>,
) -> Seq<InvocationView<B>> {
    match uv {
        Some(path) => seq![
            InvocationView {
                program: ArgView::Path(path),
                args: seq![
                    ArgView::Text("pip"@),
                    ArgView::Text("uninstall"@),
                    ArgView::Text("-y"@),
                    ArgView::Text("--python"@),
                    ArgView::Path(venv_python),
                ] + invocation::texts::<B>(list),
            },
        ],
        None => list.map_values(
            |name: Seq<char>|
                InvocationView {
                    program: ArgView::Path(venv_python),
                    args: seq![
                        ArgView::Text("-m"@),
                        ArgView::Text("pip"@),
                        ArgView::Text("uninstall"@),
                        ArgView::Text("-y"@),
                        ArgView::Text(name),
                    ],
                },
        ),
    }
}

/// The command that installs the full OpenCV again, and nothing else.
pub open spec fn reinstall_command<B>(venv_python: B, uv: Option<B>) -> InvocationView<B> {
    match uv {
        Some(path) => InvocationView {
            program: ArgView::Path(path),
            args: seq![
                ArgView::Text("pip"@),
                ArgView::Text("install"@),
                ArgView::Text("--python"@),
                ArgView::Path(venv_python),
                ArgView::Text("--force-reinstall"@),
                ArgView::Text("--no-deps"@),
                ArgView::Text("opencv-contrib-python>=4.9"@),
            ],
        },
        None => InvocationView {
            program: ArgView::Path(venv_python),
            args: seq![
                ArgView::Text("-m"@),
                ArgView::Text("pip"@),
                ArgView::Text("install"@),
                ArgView::Text("--force-reinstall"@),
                ArgView::Text("--no-deps"@),
                ArgView::Text("opencv-contrib-python>=4.9"@),
            ],
        },
    }
}

/// How a conflict of OpenCV packages is mended: the commands that remove what is
/// in the way, whose outcome does not matter, and the one that installs the full
/// OpenCV again, which must succeed.
#[derive(Debug)]
pub struct OpencvFix<'a, B> {
    pub uninstall: Vec<Invocation<'a, B>>,
    pub reinstall: Invocation<'a, B>,
}

impl<B> PythonRuntime<B> {
    /// The command that finds out which packages are in the way.
    pub fn opencv_check<'a>(&'a self) -> (r: Invocation<'a, B>)
        ensures
            r@ == (InvocationView {
                program: ArgView::Path(self.venv_python),
                args: seq![ArgView::Text("-c"@), ArgView::Text(OPENCV_SCRIPT@)],
            }),
    {
        let r = Invocation::of_path(&self.venv_python).text("-c").text(OPENCV_SCRIPT);
        assert(r@.args =~= seq![ArgView::Text("-c"@), ArgView::Text(OPENCV_SCRIPT@)]);
        r
    }

    /// How to mend the conflict that the check's output tells of, if it tells of
    /// any.
    pub fn fix_opencv_conflict<'a>(&'a self, uv: Option<&'a B>, output: &str) -> (r: Option<
        OpencvFix<'a, B>,
    >)
        ensures
            r is None <==> opencv_conflicts(output@).len() == 0,
            r matches Some(fix) ==> {
                let tool = match uv {
                    Some(path) => Some(*path),
                    None => None,
                };
                &&& fix.uninstall.deep_view() == uninstall_commands(
                    self.venv_python,
                    tool,
                    opencv_conflicts(output@),
                )
                &&& fix.reinstall@ == reinstall_command(self.venv_python, tool)
            },
    {
        let conflicts = conflicts_in(output);
        assert(conflicts.deep_view().len() == conflicts.len());
        if conflicts.len() == 0 {
            return None;
        }
        let ghost list = opencv_conflicts(output@);
        let mut uninstall: Vec<Invocation<'a, B>> = Vec::new();
        match uv {
            Some(path) => {
                let command = Invocation::of_path(path).text("pip").text("uninstall").text(
                    "-y",
                ).text("--python").path(&self.venv_python).text_list(&conflicts);
                uninstall.push(command);
                proof {
                    let expected = uninstall_commands(self.venv_python, Some(*path), list);
                    assert(command@.args =~= expected[0].args);
                    assert(command@ == expected[0]);
                    assert(uninstall.deep_view() =~= expected);
                }
                let reinstall = Invocation::of_path(path).text("pip").text("install").text(
                    "--python",
                ).path(&self.venv_python).text("--force-reinstall").text("--no-deps").text(
                    "opencv-contrib-python>=4.9",
                );
                assert(reinstall@.args =~= reinstall_command(
                    self.venv_python,
                    Some(*path),
                ).args);
                Some(OpencvFix { uninstall, reinstall })
            },
            None => {
                let ghost expected = uninstall_commands(self.venv_python, None, list);
                let mut i: usize = 0;
                assert(uninstall.deep_view() =~= expected.take(0));
                while i < conflicts.len()
                    invariant
                        0 <= i <= conflicts.len(),
                        list == conflicts.deep_view(),
                        expected == uninstall_commands(self.venv_python, None, list),
                        uninstall.deep_view() == expected.take(i as int),
                    decreases conflicts.len() - i,
                {
                    let command = Invocation::of_path(&self.venv_python).text("-m").text(
                        "pip",
                    ).text("uninstall").text("-y").text(conflicts[i].as_str());
                    let ghost before = uninstall.deep_view();
                    uninstall.push(command);
                    proof {
                        assert(command@.args =~= expected[i as int].args);
                        assert(command@ == expected[i as int]);
                        assert(uninstall.deep_view() =~= before.push(expected[i as int]));
                        assert(expected.take(i + 1) =~= before.push(expected[i as int]));
                    }
                    i += 1;
                }
                assert(expected.take(conflicts.len() as int) =~= expected);
                let reinstall = Invocation::of_path(&self.venv_python).text("-m").text(
                    "pip",
                ).text("install").text("--force-reinstall").text("--no-deps").text(
                    "opencv-contrib-python>=4.9",
                );
                assert(reinstall@.args =~= reinstall_command(self.venv_python, None).args);
                Some(OpencvFix { uninstall, reinstall })
            },
        }
    }
}

/// The check and its reading fit together: where the check prints names, with a
/// bar between them and a line feed at the end, just those names are in the way.
pub proof fn printed_conflicts_are_read_back(list: Seq<Seq<char>>)
    requires
        list.len() > 0,
        forall|i: int, j: int|
            0 <= i < list.len() && 0 <= j < list[i].len() ==> (#[trigger] list[i][j]) != '|'
                && !text::is_space(list[i][j]),
        forall|i: int| 0 <= i < list.len() ==> (#[trigger] list[i]).len() > 0,
    ensures
        opencv_conflicts(text::joined(list, seq!['|']) + seq!['\n']) == list,
{
    let s = text::joined(list, seq!['|']);
    text::lemma_joined_ends(list, '|');
    text::lemma_trims_line(s, seq!['\n']);
    assert forall|i: int, j: int| 0 <= i < list.len() && 0 <= j < list[i].len() implies (
    #[trigger] list[i][j]) != '|' by {}
    text::splitting_undoes_joining(list, '|');
    text::lemma_all_nonempty(list);
}

/// How far an installation has come, and what is to be done next.
#[derive(Debug, Clone, Copy, PartialEq, Eq, Structural)]
pub enum InstallStage {
    /// Run the installer.
    Install,
    /// Run the check for packages that stand in the way of the full OpenCV.
    Check,
    /// Mend the conflict that the check told of: remove what is in the way, then
    /// install the full OpenCV again.
    Mend,
}

/// What came of the last thing to be done.
#[derive(Debug)]
pub enum InstallEvent {
    /// The program could not be started, for this reason.
    NotStarted(String),
    /// The program was started, but waiting for it failed, for this reason.
    WaitFailed(String),
    /// The program ended: whether it reported success, and its status as the
    /// system words it.
    Ended {
        success: bool,
        status: String,
    },
    /// The program ended, and this is what it printed.
    Printed(String),
}

/// What an `InstallEvent` says.
#[verifier::ext_equal]
pub enum InstallEventView {
    NotStarted(Seq<char>),
    WaitFailed(Seq<char>),
    Ended { success: bool, status: Seq<char> },
    Printed(Seq<char>),
}

impl View for InstallEvent {
    type V = InstallEventView;

    open spec fn view(&self) -> InstallEventView {
        match self {
            InstallEvent::NotStarted(why) => InstallEventView::NotStarted(why@),
            InstallEvent::WaitFailed(why) => InstallEventView::WaitFailed(why@),
            InstallEvent::Ended { success, status } => InstallEventView::Ended {
                success: *success,
                status: status@,
            },
            InstallEvent::Printed(output) => InstallEventView::Printed(output@),
        }
    }
}

/// What follows in an installation.
#[derive(Debug)]
pub enum InstallNext {
    /// Tell this, where there is anything to tell, and go on with that stage.
    Go(Option<String>, InstallStage),
    /// Tell this. The packages are installed.
    Installed(String),
    /// The installation failed, for this reason.
    Failed(String),
}

/// What an `InstallNext` says.
#[verifier::ext_equal]
pub enum InstallNextView {
    Go(Option<Seq<char>>, InstallStage),
    Installed(Seq<char>),
    Failed(Seq<char>),
}

impl View for InstallNext {
    type V = InstallNextView;

    open spec fn view(&self) -> InstallNextView {
        match self {
            InstallNext::Go(message, stage) => InstallNextView::Go(message.deep_view(), *stage),
            InstallNext::Installed(message) => InstallNextView::Installed(message@),
            InstallNext::Failed(why) => InstallNextView::Failed(why@),
        }
    }
}

/// Whether an event can come of what a stage asks for.
pub open spec fn install_event_fits(stage: InstallStage, event: InstallEventView) -> bool {
    match stage {
        InstallStage::Install => !(event is Printed),
        InstallStage::Check => !(event is Ended),
        InstallStage::Mend => !(event is Printed),
    }
}

/// What follows an event in an installation: once the installer has succeeded the
/// OpenCV packages are checked, and mended where they are in conflict.
pub open spec fn install_next(stage: InstallStage, event: InstallEventView) -> InstallNextView {
    match stage {
        InstallStage::Install => match event {
            InstallEventView::NotStarted(_) => InstallNextView::Failed(
                "Failed to start installer"@,
            ),
            InstallEventView::Ended { success: true, .. } => InstallNextView::Go(
                Some("检查 OpenCV 兼容性..."@),
                InstallStage::Check,
            ),
            InstallEventView::Ended { success: false, status } => InstallNextView::Failed(
                "Install returned non-zero exit: "@ + status,
            ),
            _ => InstallNextView::Failed("Install process failed"@),
        },
        InstallStage::Check => match event {
            InstallEventView::NotStarted(why) => InstallNextView::Failed(why),
            InstallEventView::WaitFailed(why) => InstallNextView::Failed(why),
            InstallEventView::Printed(output) => if opencv_conflicts(output).len() == 0 {
                InstallNextView::Installed("依赖安装完成"@)
            } else {
                InstallNextView::Go(None, InstallStage::Mend)
            },
            InstallEventView::Ended { status, .. } => InstallNextView::Failed(status),
        },
        InstallStage::Mend => match event {
            InstallEventView::NotStarted(why) => InstallNextView::Failed(why),
            InstallEventView::WaitFailed(why) => InstallNextView::Failed(why),
            InstallEventView::Ended { success: true, .. } => InstallNextView::Installed(
                "依赖安装完成"@,
            ),
            _ => InstallNextView::Failed("Failed to reinstall opencv-contrib-python"@),
        },
    }
}

/// What follows an event in an installation.
pub fn install_step(stage: InstallStage, event: InstallEvent) -> (r: InstallNext)
    requires
        install_event_fits(stage, event@),
    ensures
        r@ == install_next(stage, event@),
{
    match (stage, event) {
        (InstallStage::Install, InstallEvent::NotStarted(_)) => InstallNext::Failed(
            "Failed to start installer".to_string(),
        ),
        (InstallStage::Install, InstallEvent::Ended { success, status }) => if success {
            InstallNext::Go(
                Some("检查 OpenCV 兼容性...".to_string()),
                InstallStage::Check,
            )
        } else {
            let mut why = "Install returned non-zero exit: ".to_string();
            why.append(status.as_str());
            InstallNext::Failed(why)
        },
        (InstallStage::Install, _) => InstallNext::Failed("Install process failed".to_string()),
        (InstallStage::Check, InstallEvent::Printed(output)) => {
            let conflicts = conflicts_in(output.as_str());
            assert(conflicts.deep_view().len() == conflicts.len());
            if conflicts.len() == 0 {
                InstallNext::Installed("依赖安装完成".to_string())
            } else {
                InstallNext::Go(None, InstallStage::Mend)
            }
        },
        (InstallStage::Check, InstallEvent::Ended { status, .. }) => InstallNext::Failed(status),
        (InstallStage::Mend, InstallEvent::Ended { success, .. }) => if success {
            InstallNext::Installed("依赖安装完成".to_string())
        } else {
            InstallNext::Failed("Failed to reinstall opencv-contrib-python".to_string())
        },
        (InstallStage::Mend, InstallEvent::Printed(_)) => InstallNext::Failed(
            "Failed to reinstall opencv-contrib-python".to_string(),
        ),
        (_, InstallEvent::NotStarted(why)) => InstallNext::Failed(why),
        (_, InstallEvent::WaitFailed(why)) => InstallNext::Failed(why),
    }
}

/// Packages only count as installed once the installer succeeded and nothing is
/// in the way of the full OpenCV: none was found, or it was installed again.
pub proof fn installed_means_mended(stage: InstallStage, event: InstallEventView)
    requires
        install_event_fits(stage, event),
        install_next(stage, event) is Installed,
    ensures
        (stage == InstallStage::Check && opencv_conflicts(event->Printed_0).len() == 0) || (stage
            == InstallStage::Mend && event->Ended_success),
{
}

/// An installation comes to an end: each stage leads only to a later one.
pub proof fn installation_ends(stage: InstallStage, event: InstallEventView)
    requires
        install_event_fits(stage, event),
    ensures
        install_next(stage, event) matches InstallNextView::Go(_, next) ==> {
            ||| stage == InstallStage::Install && next == InstallStage::Check
            ||| stage == InstallStage::Check && next == InstallStage::Mend
        },
{
}

/// What `uv` is called on a platform.
pub open spec fn uv_name(platform: Platform) -> Seq<char> {
    if platform == Platform::Windows {
        "uv.exe"@
    } else {
        "uv"@
    }
}

/// The usual places of `uv` below the home directory.
pub open spec fn uv_at_home(platform: Platform, home: Option<Seq<char>>) -> Seq<CandidateView> {
    let name = uv_name(platform);
    match home {
        None => seq![],
        Some(dir) => seq![
            CandidateView::At((dir, seq![".local"@, "bin"@, name])),
            CandidateView::At((dir, seq![".cargo"@, "bin"@, name])),
        ],
    }
}

/// Where the installer of `uv` puts it on Windows: below the local application data.
pub open spec fn uv_program(
    platform: Platform,
    local_app_data: Option<Seq<char>>,
) -> Seq<CandidateView> {
    match local_app_data {
        Some(dir) if platform == Platform::Windows => seq![
            CandidateView::At((dir, seq!["Programs"@, "uv"@, uv_name(platform)])),
        ],
        _ => seq![],
    }
}

/// Everywhere `uv` is looked for: the search path first, then the usual places, as
/// far as the directories that they are below are known.
pub open spec fn uv_candidates(
    platform: Platform,
    home: Option<Seq<char>>,
    local_app_data: Option<Seq<char>>,
) -> Seq<CandidateView> {
    seq![CandidateView::OnPath(uv_name(platform))] + uv_at_home(platform, home) + uv_program(
        platform,
        local_app_data,
    )
}

/// The search for `uv`: what the system finds on its search path, then the usual
/// places. `local_app_data` is the directory that Windows gives for the data of
/// applications.
pub fn find_uv(platform: Platform, home: Option<&str>, local_app_data: Option<&str>) -> (r:
    ToolSearch)
    ensures
        r@ == (SearchView {
            rest: uv_candidates(platform, home.deep_view(), local_app_data.deep_view()),
            stage: StageView::Look,
            wants_python: false,
        }),
{
    let name = if platform.is_windows() {
        "uv.exe"
    } else {
        "uv"
    };
    let mut list: Vec<Candidate> = Vec::new();
    list.push(Candidate::OnPath(name.to_string()));
    match home {
        Some(dir) => {
            let local = Joined::at(dir.to_string()).join(".local").join("bin").join(name);
            assert(local.names.deep_view() =~= seq![".local"@, "bin"@, name@]);
            list.push(Candidate::At(local));
            let cargo = Joined::at(dir.to_string()).join(".cargo").join("bin").join(name);
            assert(cargo.names.deep_view() =~= seq![".cargo"@, "bin"@, name@]);
            list.push(Candidate::At(cargo));
        },
        None => {},
    }
    match local_app_data {
        Some(dir) => {
            if platform.is_windows() {
                let program = Joined::at(dir.to_string()).join("Programs").join("uv").join(name);
                assert(program.names.deep_view() =~= seq!["Programs"@, "uv"@, name@]);
                list.push(Candidate::At(program));
            }
        },
        None => {},
    }
    assert(list.deep_view() =~= uv_candidates(
        platform,
        home.deep_view(),
        local_app_data.deep_view(),
    ));
    ToolSearch::new(list, false)
}

/// The command of the system that looks a name up on its search path.
pub fn which_command<'a, B>(platform: Platform, name: &str) -> (r: Invocation<'a, B>)
    ensures
        r@ == (InvocationView::<B> {
            program: ArgView::Text(
                if platform == Platform::Windows {
                    "where"@
                } else {
                    "which"@
                },
            ),
            args: seq![ArgView::Text(name@)],
        }),
{
    let r = if platform.is_windows() {
        Invocation::of_name("where").text(name)
    } else {
        Invocation::of_name("which").text(name)
    };
    assert(r@.args =~= seq![ArgView::<B>::Text(name@)]);
    r
}

/// The environment variable that gives the home directory.
pub fn home_dir(platform: Platform) -> (r: &'static str)
    ensures
        r@ == (if platform == Platform::Windows {
            "USERPROFILE"@
        } else {
            "HOME"@
        }),
{
    if platform.is_windows() {
        "USERPROFILE"
    } else {
        "HOME"
    }
}

/// How far the getting of `uv` has come, and what is to be done next.
#[derive(Debug, Clone, Copy, PartialEq, Eq, Structural)]
pub enum UvStage {
    /// Look for it.
    Search,
    /// Run its installer.
    Install,
    /// Look for it again.
    SearchAgain,
    /// It is there, at the place that was found last.
    Ready,
    /// It is not to be had.
    Missing,
}

/// The stage that follows, by whether the last thing to be done succeeded.
pub open spec fn uv_next(stage: UvStage, success: bool) -> UvStage {
    match stage {
        UvStage::Search => if success {
            UvStage::Ready
        } else {
            UvStage::Install
        },
        UvStage::Install => if success {
            UvStage::SearchAgain
        } else {
            UvStage::Missing
        },
        UvStage::SearchAgain => if success {
            UvStage::Ready
        } else {
            UvStage::Missing
        },
        UvStage::Ready => UvStage::Ready,
        UvStage::Missing => UvStage::Missing,
    }
}

/// What is told when a stage is reached.
pub open spec fn uv_message(stage: UvStage) -> Option<Seq<char>> {
    match stage {
        UvStage::Install => Some("正在下载安装 uv（约需 30 秒）..."@),
        UvStage::SearchAgain => Some("uv 安装完成"@),
        _ => None,
    }
}

/// The next stage in the getting of `uv`, and what to tell on reaching it: it is
/// looked for, and installed and looked for again where it is not there.
pub fn ensure_uv(stage: UvStage, success: bool) -> (r: (UvStage, Option<String>))
    requires
        stage != UvStage::Ready,
        stage != UvStage::Missing,
    ensures
        r.0 == uv_next(stage, success),
        r.1.deep_view() == uv_message(uv_next(stage, success)),
{
    match (stage, success) {
        (UvStage::Search, false) => (
            UvStage::Install,
            Some("正在下载安装 uv（约需 30 秒）...".to_string()),
        ),
        (UvStage::Install, true) => (UvStage::SearchAgain, Some("uv 安装完成".to_string())),
        (_, true) => (UvStage::Ready, None),
        (_, false) => (UvStage::Missing, None),
    }
}

/// Getting `uv` takes three steps at most: it ends, whatever succeeds or fails.
pub proof fn getting_uv_ends(first: bool, second: bool, third: bool)
    ensures
        ({
            let end = uv_next(uv_next(uv_next(UvStage::Search, first), second), third);
            end == UvStage::Ready || end == UvStage::Missing
        }),
{
}

/// The command that installs `uv`.
pub open spec fn uv_installer_command<B>(platform: Platform) -> InvocationView<B> {
    if platform == Platform::Windows {
        InvocationView {
            program: ArgView::Text("powershell"@),
            args: seq![
                ArgView::Text("-NoProfile"@),
                ArgView::Text("-ExecutionPolicy"@),
                ArgView::Text("Bypass"@),
                ArgView::Text("-Command"@),
                ArgView::Text("irm https://astral.sh/uv/install.ps1 | iex"@),
            ],
        }
    } else {
        InvocationView {
            program: ArgView::Text("sh"@),
            args: seq![
                ArgView::Text("-c"@),
                ArgView::Text("curl -LSf https://astral.sh/uv/install.sh | sh"@),
            ],
        }
    }
}

/// The command that installs `uv`.
pub fn uv_installer<'a, B>(platform: Platform) -> (r: Invocation<'a, B>)
    ensures
        r@ == uv_installer_command::<B>(platform),
{
    let r = if platform.is_windows() {
        Invocation::of_name("powershell").text("-NoProfile").text("-ExecutionPolicy").text(
            "Bypass",
        ).text("-Command").text("irm https://astral.sh/uv/install.ps1 | iex")
    } else {
        Invocation::of_name("sh").text("-c").text(
            "curl -LSf https://astral.sh/uv/install.sh | sh",
        )
    };
    assert(r@.args =~= uv_installer_command::<B>(platform).args);
    r
}

/// What is told of a line that a program printed: the line, trimmed, unless
/// nothing is left of it.
pub fn progress_line(line: &str) -> (r: Option<String>)
    ensures
        r.deep_view() == (if text::trimmed(line@).len() == 0 {
            None
        } else {
            Some(text::trimmed(line@))
        }),
{
    let t = text::trim(line);
    if t.is_empty() {
        None
    } else {
        Some(t.to_string())
    }
}

/// Where the packaged code is: in the directory that packaging adds, where that is
/// there, else in the resource directory itself.
pub fn resolve_resource_src<B>(resource_dir: B, up_is_dir: bool) -> (r: Joined<B>)
    ensures
        r@ == (resource_dir, if up_is_dir {
            seq!["_up_"@]
        } else {
            seq![]
        }),
{
    if up_is_dir {
        let r = Joined::at(resource_dir).join("_up_");
        assert(r@.1 =~= seq!["_up_"@]);
        r
    } else {
        Joined::at(resource_dir)
    }
}

/// Where the copy of the code is taken from.
#[derive(Debug, Clone, Copy, PartialEq, Eq, Structural)]
pub enum CodeSource {
    /// The packaged resources.
    Resources,
    /// The project itself, as in development.
    Project,
}

/// Where the copy of the code is taken from: the resources, unless the program of
/// the service is not among them.
pub fn copy_resource_dir(has_app_py: bool) -> (r: CodeSource)
    ensures
        r == (if has_app_py {
            CodeSource::Resources
        } else {
            CodeSource::Project
        }),
{
    if has_app_py {
        CodeSource::Resources
    } else {
        CodeSource::Project
    }
}

/// Whether an entry of the resources is left out of the copy.
pub open spec fn left_out(name: Seq<char>) -> bool {
    name == "_up_"@ || name == "icon.icns"@ || name == "icon.ico"@
}

/// Whether an entry of the resources is left out of the copy: what packaging
/// adds, and the icons.
pub fn skips_resource(name: &str) -> (r: bool)
    ensures
        r == left_out(name@),
{
    text::same(name, "_up_") || text::same(name, "icon.icns") || text::same(name, "icon.ico")
}

/// The entries of the project that the service needs.
pub const PROJECT_ENTRIES: [&'static str; 5] = [
    "app.py",
    "requirements.txt",
    "pic_selecter",
    "static",
    "assets",
];

} // verus!
