//! What holds of setups, of the first look at the machine and of starting without
//! asking, in terms of what goes in and what comes out.

use crate::commands;
use crate::commands::{
    Channel, NoticeView, SetupEventView, SetupStage, SetupTask, VenvOutcomeView,
};
use crate::launcher;
use crate::launcher::InstallStateView;
use crate::number;
use crate::package_laws;
use crate::text;
use vstd::prelude::*;

verus! {

/// The same counts as installed before exactly where the saved signature is, letter
/// for letter, the packages of the modes with bars between them, a bar, and what is
/// said of the backend. That is what is saved then.
pub proof fn the_same_is_installed_where_the_signature_is_saved(
    modes: Seq<Seq<char>>,
    runtime: Seq<char>,
    label: Seq<char>,
    cuda_flavor: Seq<char>,
    saved: InstallStateView,
)
    ensures
        ({
            let plan = commands::setup_plan(modes, runtime, label, cuda_flavor, saved);
            let signature = text::joined(launcher::packages(modes), "|"@) + "|"@ + (if label
                == "none"@ {
                "none"@
            } else if label == "cuda"@ {
                "vision:"@ + label + ":"@ + cuda_flavor
            } else {
                "vision:"@ + label
            });
            &&& plan.same_signature <==> saved.packages_sig == signature
            &&& plan.state.packages_sig == signature
        }),
{
}

/// After a setup for some modes with some backend, the same counts as installed for
/// other modes and another backend exactly where both choices hold the expert mode or
/// neither does, both hold the tycoon mode or neither does, and the backends are
/// written alike.
pub proof fn a_changed_choice_is_installed(
    a: Seq<Seq<char>>,
    runtime_a: Seq<char>,
    label_a: Seq<char>,
    flavor_a: Seq<char>,
    b: Seq<Seq<char>>,
    runtime_b: Seq<char>,
    label_b: Seq<char>,
    flavor_b: Seq<char>,
    saved: InstallStateView,
)
    requires
        package_laws::has_no_bar(label_a),
        package_laws::has_no_bar(flavor_a),
        package_laws::has_no_bar(label_b),
        package_laws::has_no_bar(flavor_b),
    ensures
        ({
            let first = commands::setup_plan(a, runtime_a, label_a, flavor_a, saved);
            let second = commands::setup_plan(b, runtime_b, label_b, flavor_b, first.state);
            second.same_signature <==> a.contains("expert"@) == b.contains("expert"@)
                && a.contains("tycoon"@) == b.contains("tycoon"@)
                && launcher::backend_signature(label_a, flavor_a) == launcher::backend_signature(
                label_b,
                flavor_b,
            )
        }),
{
    package_laws::signatures_agree_where_installations_do(
        a,
        label_a,
        flavor_a,
        b,
        label_b,
        flavor_b,
    );
}

/// Backends are written alike exactly where their labels are the same and, where that
/// is the label of CUDA, their flavors are too.
pub proof fn backends_are_told_apart(
    label_a: Seq<char>,
    flavor_a: Seq<char>,
    label_b: Seq<char>,
    flavor_b: Seq<char>,
)
    requires
        forall|j: int| 0 <= j < label_a.len() ==> #[trigger] label_a[j] != ':',
        forall|j: int| 0 <= j < label_b.len() ==> #[trigger] label_b[j] != ':',
    ensures
        launcher::backend_signature(label_a, flavor_a) == launcher::backend_signature(
            label_b,
            flavor_b,
        ) <==> label_a == label_b && (label_a == "cuda"@ ==> flavor_a == flavor_b),
{
    reveal_strlit("none");
    reveal_strlit("vision:");
    reveal_strlit("cuda");
    reveal_strlit(":");
    let s = launcher::backend_signature(label_a, flavor_a);
    let t = launcher::backend_signature(label_b, flavor_b);
    if s == t {
        if label_a == "none"@ || label_b == "none"@ {
            assert("none"@[0] == 'n' && "vision:"@[0] == 'v');
            if label_a != "none"@ {
                assert(s[0] == "vision:"@[0]);
            }
            if label_b != "none"@ {
                assert(t[0] == "vision:"@[0]);
            }
        } else {
            let x = s.skip(7);
            let y = t.skip(7);
            let tail_a = if label_a == "cuda"@ { ":"@ + flavor_a } else { Seq::empty() };
            let tail_b = if label_b == "cuda"@ { ":"@ + flavor_b } else { Seq::empty() };
            assert(x =~= label_a + tail_a);
            assert(y =~= label_b + tail_b);
            if label_a.len() < label_b.len() {
                if tail_a.len() > 0 {
                    assert(x[label_a.len() as int] == ':');
                    assert(y[label_a.len() as int] == label_b[label_a.len() as int]);
                }
            } else if label_b.len() < label_a.len() {
                if tail_b.len() > 0 {
                    assert(y[label_b.len() as int] == ':');
                    assert(x[label_b.len() as int] == label_a[label_b.len() as int]);
                }
            }
            assert(label_a.len() == label_b.len());
            assert(label_a =~= x.take(label_a.len() as int));
            assert(label_b =~= y.take(label_b.len() as int));
            if label_a == "cuda"@ {
                assert(flavor_a =~= x.skip(5));
                assert(flavor_b =~= y.skip(5));
            }
        }
    }
}

/// What a setup remembers is the choice itself: its modes, the runtime that was asked
/// for, or `auto` where none was, and the label of the backend. The commit of the code
/// stays what it was.
pub proof fn a_setup_remembers_the_choice(
    modes: Seq<Seq<char>>,
    runtime: Seq<char>,
    label: Seq<char>,
    cuda_flavor: Seq<char>,
    saved: InstallStateView,
)
    ensures
        ({
            let plan = commands::setup_plan(modes, runtime, label, cuda_flavor, saved);
            &&& plan.state.modes == modes
            &&& plan.state.runtime == (if runtime.len() > 0 {
                runtime
            } else {
                "auto"@
            })
            &&& plan.state.runtime_backend == label
            &&& plan.state.commit_sha == saved.commit_sha
            &&& plan.needs_backend <==> label != "none"@
        }),
{
}

/// The packages of a plan are those that the chosen modes ask for, each once.
pub proof fn a_plan_holds_the_packages_of_the_modes(
    modes: Seq<Seq<char>>,
    runtime: Seq<char>,
    label: Seq<char>,
    cuda_flavor: Seq<char>,
    saved: InstallStateView,
    package: Seq<char>,
)
    ensures
        ({
            let plan = commands::setup_plan(modes, runtime, label, cuda_flavor, saved);
            &&& plan.packages.contains(package) <==> package_laws::wanted(modes, package)
            &&& plan.packages.no_duplicates()
        }),
{
    let list = commands::setup_plan(modes, runtime, label, cuda_flavor, saved).packages;
    package_laws::packages_are_what_is_wanted(modes, package);
    package_laws::packages_are_distinct(modes);
    assert forall|i: int, j: int| 0 <= i < list.len() && 0 <= j < list.len() && i != j implies list[i]
        != list[j] by {
        assert(launcher::names(list)[i] == launcher::package_name(list[i]));
        assert(launcher::names(list)[j] == launcher::package_name(list[j]));
    }
}

/// Of a choice that holds what is no mode, the first such is named; without a mode, and
/// without a Python, that is said.
pub proof fn a_refused_choice_is_told_why(
    good: Seq<Seq<char>>,
    bad: Seq<char>,
    rest: Seq<Seq<char>>,
    venv_ready: bool,
)
    requires
        forall|i: int| 0 <= i < good.len() ==> launcher::is_mode(#[trigger] good[i]),
    ensures
        !launcher::is_mode(bad) ==> commands::rejection(good.push(bad) + rest, venv_ready) == Some(
            "未知模式: "@ + bad,
        ),
        commands::rejection(Seq::empty(), venv_ready) == Some("请至少选择一个模式"@),
        good.len() > 0 ==> commands::rejection(good, false) == Some(
            "无法找到 Python，请安装 Python 3.10+ 或安装 uv"@,
        ),
        good.len() > 0 ==> commands::rejection(good, true) is None,
    decreases good.len(),
{
    commands::a_choice_of_modes_is_accepted(good, true);
    if !launcher::is_mode(bad) {
        lemma_first_bad(good, bad, rest);
    }
}

proof fn lemma_first_bad(good: Seq<Seq<char>>, bad: Seq<char>, rest: Seq<Seq<char>>)
    requires
        forall|i: int| 0 <= i < good.len() ==> launcher::is_mode(#[trigger] good[i]),
        !launcher::is_mode(bad),
    ensures
        commands::first_unknown(good.push(bad) + rest) == Some(bad),
    decreases good.len(),
{
    let all = good.push(bad) + rest;
    if good.len() == 0 {
        assert(all[0] == bad);
    } else {
        let fewer = good.skip(1);
        assert forall|i: int| 0 <= i < fewer.len() implies launcher::is_mode(
            #[trigger] fewer[i],
        ) by {
            assert(fewer[i] == good[i + 1]);
        }
        lemma_first_bad(fewer, bad, rest);
        assert(all[0] == good[0]);
        assert(all.skip(1) =~= fewer.push(bad) + rest);
    }
}

/// There are three modes: `fast`, `expert` and `tycoon`.
pub proof fn there_are_three_modes(key: Seq<char>)
    ensures
        launcher::is_mode(key) <==> key == "fast"@ || key == "expert"@ || key == "tycoon"@,
{
}

/// A setup begins with the service exactly where nothing is to be installed, whatever
/// the backend; with the backend exactly where something is and a backend is needed;
/// with the packages exactly where something is and none is needed. One thing is told.
pub proof fn a_setup_begins_with_what_is_missing(task: SetupTask)
    ensures
        ({
            let step = commands::first_step(task);
            &&& step.next == SetupStage::Service <==> !task.needs_install
            &&& step.next == SetupStage::Backend <==> task.needs_install && task.needs_backend
            &&& step.next == SetupStage::Packages <==> task.needs_install && !task.needs_backend
            &&& step.page is None
            &&& step.notices.len() == 1
            &&& step.notices[0].channel == Channel::Status
            &&& step.next == SetupStage::Service ==> step.notices[0].text
                == "依赖已就绪，正在启动服务..."@
            &&& step.next == SetupStage::Backend ==> step.notices[0].text
                == "正在安装运行时后端（torch / onnxruntime）..."@
            &&& step.next == SetupStage::Packages ==> step.notices[0].text == "准备安装 "@
                + number::decimal(task.package_count as nat) + " 个依赖包..."@
        }),
{
}

/// What a plan leads to: the packages are installed exactly where the saved signature
/// is another one or what is installed cannot be used.
pub proof fn a_plan_that_changes_nothing_starts_the_service(
    modes: Seq<Seq<char>>,
    runtime: Seq<char>,
    label: Seq<char>,
    cuda_flavor: Seq<char>,
    saved: InstallStateView,
    task: SetupTask,
    deps_ready: bool,
)
    requires
        task.needs_install == (!commands::setup_plan(
            modes,
            runtime,
            label,
            cuda_flavor,
            saved,
        ).same_signature || !deps_ready),
    ensures
        commands::first_step(task).next == SetupStage::Service <==> deps_ready
            && saved.packages_sig == commands::setup_plan(
            modes,
            runtime,
            label,
            cuda_flavor,
            saved,
        ).state.packages_sig,
{
}

/// Which stage a setup goes on with: each stage exactly after the success of the one
/// before it, the watch counting looks that fail in a row, and the end exactly after a
/// failure or the third failed look.
pub proof fn a_setup_goes_from_stage_to_stage(
    task: SetupTask,
    stage: SetupStage,
    event: SetupEventView,
    k: u32,
)
    requires
        commands::setup_event_fits(stage, event),
        0 < k < 3,
    ensures
        ({
            let next = commands::next_step(task, stage, event).next;
            &&& next != SetupStage::Backend
            &&& next == SetupStage::Packages <==> stage == SetupStage::Backend
                && event is BackendReady
            &&& next == SetupStage::Service <==> stage == SetupStage::Packages && event is Success
            &&& next == SetupStage::Await <==> stage == SetupStage::Service && event is Success
            &&& next == SetupStage::Watch(0) <==> (stage == SetupStage::Await && event is Success)
                || event == SetupEventView::Answered(true)
            &&& next == SetupStage::Watch(k) <==> stage == SetupStage::Watch((k - 1) as u32)
                && event == SetupEventView::Answered(false)
            &&& next == SetupStage::Over <==> event is Failure || (stage == SetupStage::Watch(2)
                && event == SetupEventView::Answered(false))
        }),
{
}

/// A failure is told as an error, with what failed and why.
pub proof fn a_failure_is_told_with_its_reason(
    task: SetupTask,
    stage: SetupStage,
    why: Seq<char>,
)
    requires
        commands::setup_event_fits(stage, SetupEventView::Failure(why)),
    ensures
        ({
            let step = commands::next_step(task, stage, SetupEventView::Failure(why));
            &&& step.next == SetupStage::Over
            &&& step.notices.len() == 1
            &&& step.notices[0].channel == Channel::Error
            &&& stage == SetupStage::Backend ==> step.notices[0].text == "运行时后端安装失败: "@ + why
            &&& stage == SetupStage::Packages ==> step.notices[0].text == "依赖安装失败: "@ + why
            &&& stage == SetupStage::Service ==> step.notices[0].text == "无法启动服务: "@ + why
            &&& stage == SetupStage::Await ==> step.notices[0].text == "服务启动超时: "@ + why
        }),
{
}

/// What is told on the way of a setup that succeeds.
pub proof fn success_is_told(task: SetupTask, label: Seq<char>)
    ensures
        commands::next_step(
            task,
            SetupStage::Backend,
            SetupEventView::BackendReady(label),
        ).notices == seq![
            NoticeView { channel: Channel::Progress, text: "运行时后端就绪: "@ + label },
            NoticeView {
                channel: Channel::Status,
                text: "准备安装 "@ + number::decimal(task.package_count as nat) + " 个依赖包..."@,
            },
        ],
        commands::next_step(task, SetupStage::Packages, SetupEventView::Success).notices.len() == 0,
        commands::next_step(task, SetupStage::Service, SetupEventView::Success).notices == seq![
            NoticeView { channel: Channel::Status, text: "等待服务就绪..."@ },
        ],
{
}

/// The window is told and led to the address of the port that the service was started
/// on, which is the port of this machine, with the path spelled out where it is led.
pub proof fn the_window_is_led_to_the_port_of_the_service(task: SetupTask)
    ensures
        ({
            let step = commands::next_step(task, SetupStage::Await, SetupEventView::Success);
            &&& step.notices == seq![
                NoticeView {
                    channel: Channel::Ready,
                    text: "http://localhost:"@ + number::decimal(task.port as nat),
                },
            ]
            &&& task.port != 80 ==> step.page == Some(
                "http://localhost:"@ + number::decimal(task.port as nat) + "/"@,
            )
            &&& task.port == 80 ==> step.page == Some("http://localhost/"@)
        }),
{
}

/// A look that succeeds is not told of. One that fails is told with its number, until
/// the third in a row, after which the service counts as gone.
pub proof fn failed_looks_are_told(task: SetupTask, failures: u32)
    requires
        failures < 3,
    ensures
        commands::next_step(
            task,
            SetupStage::Watch(failures),
            SetupEventView::Answered(true),
        ).notices.len() == 0,
        failures < 2 ==> commands::next_step(
            task,
            SetupStage::Watch(failures),
            SetupEventView::Answered(false),
        ).notices == seq![
            NoticeView {
                channel: Channel::Status,
                text: "服务连接失败 ("@ + number::decimal((failures + 1) as nat) + "/3)"@,
            },
        ],
        failures == 2 ==> commands::next_step(
            task,
            SetupStage::Watch(failures),
            SetupEventView::Answered(false),
        ).notices == seq![
            NoticeView { channel: Channel::Error, text: "Flask 服务已无响应，请重启应用"@ },
        ],
{
}

/// The stage that a setup has reached after some events.
pub open spec fn setup_after(task: SetupTask, events: Seq<SetupEventView>) -> SetupStage
    decreases events.len(),
{
    if events.len() == 0 {
        commands::first_step(task).next
    } else {
        commands::next_step(task, setup_after(task, events.drop_last()), events.last()).next
    }
}

/// A setup in which everything succeeds comes to watch over the service, and on its
/// way installs the backend exactly where that is needed, and the packages exactly
/// where anything is to be installed.
pub proof fn a_setup_that_succeeds_watches_the_service(task: SetupTask, label: Seq<char>)
    ensures
        ({
            let ready = SetupEventView::BackendReady(label);
            let success = SetupEventView::Success;
            let events = if !task.needs_install {
                seq![success, success]
            } else if task.needs_backend {
                seq![ready, success, success, success]
            } else {
                seq![success, success, success]
            };
            setup_after(task, events) == SetupStage::Watch(0)
        }),
{
    reveal_with_fuel(setup_after, 5);
    let ready = SetupEventView::BackendReady(label);
    let success = SetupEventView::Success;
    let a = seq![success, success];
    assert(a.drop_last() =~= seq![success]);
    let b = seq![success, success, success];
    assert(b.drop_last() =~= a);
    assert(seq![success].drop_last() =~= Seq::<SetupEventView>::empty());
    let c = seq![ready, success, success, success];
    assert(c.drop_last() =~= seq![ready, success, success]);
    assert(c.drop_last().drop_last() =~= seq![ready, success]);
    assert(c.drop_last().drop_last().drop_last() =~= seq![ready]);
    assert(seq![ready].drop_last() =~= Seq::<SetupEventView>::empty());
}

/// The service is started only on an installation that is there: it was usable and
/// unchanged, or the packages have just been installed with success.
pub proof fn the_service_is_started_on_what_is_installed(
    task: SetupTask,
    events: Seq<SetupEventView>,
)
    requires
        setup_after(task, events) == SetupStage::Service,
        events.len() > 0 ==> commands::setup_event_fits(
            setup_after(task, events.drop_last()),
            events.last(),
        ),
    ensures
        events.len() == 0 ==> !task.needs_install,
        events.len() > 0 ==> events.last() is Success && setup_after(task, events.drop_last())
            == SetupStage::Packages,
{
}

/// The port is the number that the setting writes, where that is a port, and 5057
/// where it is none or is not set.
pub proof fn the_port_is_the_one_that_is_set(setting: Seq<char>, n: nat)
    ensures
        n <= 65535 ==> commands::port_for(Some(number::decimal(n))) == n,
        n > 65535 ==> commands::port_for(Some(number::decimal(n))) == 5057,
        number::unsigned(setting, 65535) is None ==> commands::port_for(Some(setting)) == 5057,
        commands::port_for(None) == 5057,
        commands::port_for(Some(setting)) <= 65535,
{
    number::lemma_decimal(n);
    let s = number::decimal(n);
    assert(number::is_digit(s[0]));
    assert(s.first() != '+');
    if n <= 65535 {
        number::decimal_reads_back(n, 65535);
    }
}

/// Starting without asking and setting up agree: where modes are remembered and there
/// is a Python, a start without asking happens exactly where a setup for the same
/// choice would find the same installed, and it is for that choice.
pub proof fn starting_without_asking_is_for_what_is_installed(
    saved: InstallStateView,
    venv_ready: bool,
    label: Seq<char>,
    cuda_flavor: Seq<char>,
)
    ensures
        ({
            let choice = commands::auto_start(saved, venv_ready, label, cuda_flavor);
            let plan = commands::setup_plan(
                saved.modes,
                saved.runtime,
                label,
                cuda_flavor,
                saved,
            );
            &&& choice is Some <==> saved.modes.len() > 0 && venv_ready && plan.same_signature
            &&& choice matches Some(c) ==> c.0 == saved.modes && c.1 == (if saved.runtime.len()
                > 0 {
                saved.runtime
            } else {
                "auto"@
            })
        }),
{
}

/// After a setup nothing starts without asking where another backend suits the modes.
pub proof fn another_backend_is_asked_about(
    modes: Seq<Seq<char>>,
    runtime: Seq<char>,
    label: Seq<char>,
    cuda_flavor: Seq<char>,
    saved: InstallStateView,
    label_now: Seq<char>,
    flavor_now: Seq<char>,
)
    requires
        package_laws::has_no_bar(label),
        package_laws::has_no_bar(cuda_flavor),
        package_laws::has_no_bar(label_now),
        package_laws::has_no_bar(flavor_now),
        launcher::backend_signature(label, cuda_flavor) != launcher::backend_signature(
            label_now,
            flavor_now,
        ),
    ensures
        commands::auto_start(
            commands::setup_plan(modes, runtime, label, cuda_flavor, saved).state,
            true,
            label_now,
            flavor_now,
        ) is None,
{
    package_laws::signatures_agree_where_installations_do(
        modes,
        label,
        cuda_flavor,
        modes,
        label_now,
        flavor_now,
    );
}

/// What is told in the first look at the machine: of the code where it is not there, of
/// the virtual environment where it was not there, of the check for an update always,
/// and that this is skipped where there is no Python to do it with.
pub proof fn what_the_first_look_tells(app_py_there: bool, why: Seq<char>)
    ensures
        ({
            let code = if app_py_there {
                Seq::<Seq<char>>::empty()
            } else {
                seq!["正在准备运行环境..."@]
            };
            &&& commands::init_messages(app_py_there, VenvOutcomeView::WasReady) == code
                + seq!["正在检查更新..."@]
            &&& commands::init_messages(app_py_there, VenvOutcomeView::Made) == code + seq![
                "未找到 Python，正在尝试通过 uv 安装..."@,
                "Python 环境已就绪"@,
                "正在检查更新..."@,
            ]
            &&& commands::init_messages(app_py_there, VenvOutcomeView::Failed(why)) == code
                + seq![
                "未找到 Python，正在尝试通过 uv 安装..."@,
                "Python 环境创建失败: "@ + why,
                "正在检查更新..."@,
                "跳过更新检查（Python 环境未就绪）"@,
            ]
        }),
{
    let code = if app_py_there {
        Seq::<Seq<char>>::empty()
    } else {
        seq!["正在准备运行环境..."@]
    };
    assert(commands::init_messages(app_py_there, VenvOutcomeView::WasReady) =~= code
        + seq!["正在检查更新..."@]);
    assert(commands::init_messages(app_py_there, VenvOutcomeView::Made) =~= code + seq![
        "未找到 Python，正在尝试通过 uv 安装..."@,
        "Python 环境已就绪"@,
        "正在检查更新..."@,
    ]);
    assert(commands::init_messages(app_py_there, VenvOutcomeView::Failed(why)) =~= code + seq![
        "未找到 Python，正在尝试通过 uv 安装..."@,
        "Python 环境创建失败: "@ + why,
        "正在检查更新..."@,
        "跳过更新检查（Python 环境未就绪）"@,
    ]);
}

/// What is told on the way of the first look is told in its summary too, and nothing is
/// told of what was there.
pub proof fn notices_on_the_way_are_summed_up(app_py_there: bool, venv: VenvOutcomeView)
    ensures
        ({
            let all = commands::init_messages(app_py_there, venv);
            let was_ready = venv is WasReady;
            &&& commands::code_message(app_py_there) is None <==> app_py_there
            &&& commands::code_message(app_py_there) matches Some(t) ==> all.contains(t)
            &&& commands::venv_message(was_ready) is None <==> was_ready
            &&& commands::venv_message(was_ready) matches Some(t) ==> all.contains(t)
            &&& commands::venv_outcome_message(venv) is None <==> was_ready
            &&& commands::venv_outcome_message(venv) matches Some(t) ==> all.contains(t)
        }),
{
    let all = commands::init_messages(app_py_there, venv);
    match venv {
        VenvOutcomeView::Failed(why) => what_the_first_look_tells(app_py_there, why),
        _ => what_the_first_look_tells(app_py_there, Seq::empty()),
    }
    let n: int = if app_py_there { 0 } else { 1 };
    if !app_py_there {
        assert(all[0] == "正在准备运行环境..."@);
    }
    if !(venv is WasReady) {
        assert(all[n] == "未找到 Python，正在尝试通过 uv 安装..."@);
        assert(commands::venv_outcome_message(venv) == Some(all[n + 1]));
    }
}

/// A card is ticked exactly where its mode was chosen or, where nothing was chosen yet,
/// where it is the fast mode; apart from that the cards do not depend on the choice.
pub proof fn cards_are_ticked_as_chosen(previous: Seq<Seq<char>>, other: Seq<Seq<char>>, i: int)
    requires
        0 <= i < 3,
    ensures
        launcher::cards(previous).len() == 3,
        ({
            let card = launcher::cards(previous)[i];
            let same = launcher::cards(other)[i];
            &&& card.selected <==> previous.contains(card.key) || (previous.len() == 0 && card.key
                == "fast"@)
            &&& card.key == same.key
            &&& card.label == same.label
            &&& card.description == same.description
            &&& card.download_size == same.download_size
            &&& card.time_estimate == same.time_estimate
        }),
{
    reveal_strlit("fast");
    reveal_strlit("expert");
    reveal_strlit("tycoon");
    assert("fast"@[0] != "expert"@[0] && "fast"@[0] != "tycoon"@[0]);
    let all = launcher::cards(previous);
    assert(all[0].key == "fast"@ && all[1].key == "expert"@ && all[2].key == "tycoon"@);
}

/// What the cards say, in their order, whatever was chosen.
pub proof fn what_the_cards_say(previous: Seq<Seq<char>>)
    ensures
        ({
            let fast = launcher::cards(previous)[0];
            let expert = launcher::cards(previous)[1];
            let tycoon = launcher::cards(previous)[2];
            &&& fast.key == "fast"@
            &&& fast.label == "极速模式"@
            &&& fast.description == "纯本地视觉算法（哈希 + 拉普拉斯 + ORB），约 200MB 依赖"@
            &&& fast.download_size == "~200MB"@
            &&& fast.time_estimate == "1-3 分钟"@
            &&& expert.key == "expert"@
            &&& expert.label == "专家模式"@
            &&& expert.description
                == "深度学习（DINOv2 + InsightFace + 图像质量评估），约 2-3GB 依赖"@
            &&& expert.download_size == "~2-3GB"@
            &&& expert.time_estimate == "5-15 分钟"@
            &&& tycoon.key == "tycoon"@
            &&& tycoon.label == "土豪模式"@
            &&& tycoon.description == "调用远程大模型判图（火山方舟 API），需自备 API key"@
            &&& tycoon.download_size == "~5MB"@
            &&& tycoon.time_estimate == "约 30 秒"@
        }),
{
}

/// How long things may take and how often they are tried: the service has a minute to
/// answer and is looked at every half second; once it runs, every half minute, for two
/// seconds, and three failures in a row are too many.
pub proof fn how_long_the_service_may_take()
    ensures
        commands::DEFAULT_PORT == 5057,
        commands::WAIT_SECONDS == 60,
        commands::WAIT_PAUSE_MILLIS == 500,
        commands::WATCH_PAUSE_SECONDS == 30,
        commands::PROBE_SECONDS == 2,
        commands::WATCH_FAILURES == 3,
{
}

} // verus!
