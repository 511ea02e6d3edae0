//! What holds of the Python runtime, in terms of the commands that are run, what they
//! print and what is told.

use crate::invocation::{ArgView, InvocationView};
use crate::number;
use crate::paths::Platform;
use crate::python_runtime;
use crate::python_runtime::{
    InstallEventView, InstallNextView, InstallStage, UvStage, VenvEventView, VenvStageView,
};
use crate::text;
use crate::text_laws;
use vstd::prelude::*;

verus! {

/// The last arguments of the command that installs are the requested packages, all of
/// them and in order, whatever the tool and whether or not mirrors are in use. Before
/// them stand the index and the extra index exactly where mirrors are in use, and before
/// those what the tool needs: `uv` is told which Python to install for, and `pip` is run
/// by that Python and asks nothing.
pub proof fn packages_are_the_last_arguments<B>(
    venv_python: B,
    uv: Option<B>,
    list: Seq<Seq<char>>,
    use_mirror: bool,
    index: Seq<char>,
    extra: Seq<char>,
)
    ensures
        ({
            let command = python_runtime::install_command(
                venv_python,
                uv,
                list,
                use_mirror,
                index,
                extra,
            );
            let first: int = if uv is Some { 4 } else { 5 };
            let mirror: int = if use_mirror { 4 } else { 0 };
            &&& command.program == ArgView::Path(
                match uv {
                    Some(path) => path,
                    None => venv_python,
                },
            )
            &&& command.args.len() == first + mirror + list.len()
            &&& forall|i: int|
                0 <= i < list.len() ==> command.args[first + mirror + i] == ArgView::<B>::Text(
                    #[trigger] list[i],
                )
            &&& use_mirror ==> {
                &&& command.args[first] == ArgView::<B>::Text("-i"@)
                &&& command.args[first + 1] == ArgView::<B>::Text(index)
                &&& command.args[first + 2] == ArgView::<B>::Text("--extra-index-url"@)
                &&& command.args[first + 3] == ArgView::<B>::Text(extra)
            }
            &&& uv is Some ==> {
                &&& command.args[0] == ArgView::<B>::Text("pip"@)
                &&& command.args[1] == ArgView::<B>::Text("install"@)
                &&& command.args[2] == ArgView::<B>::Text("--python"@)
                &&& command.args[3] == ArgView::Path(venv_python)
            }
            &&& uv is None ==> {
                &&& command.args[0] == ArgView::<B>::Text("-m"@)
                &&& command.args[1] == ArgView::<B>::Text("pip"@)
                &&& command.args[2] == ArgView::<B>::Text("install"@)
                &&& command.args[3] == ArgView::<B>::Text("--disable-pip-version-check"@)
                &&& command.args[4] == ArgView::<B>::Text("--no-input"@)
            }
        }),
{
}

/// What is told before an installation: first how many packages there are and with which
/// tool, then, exactly where mirrors are in use, the name of the mirror.
pub proof fn what_is_told_before_an_installation(
    total: nat,
    with_uv: bool,
    use_mirror: bool,
    label: Seq<char>,
)
    ensures
        ({
            let told = python_runtime::install_messages(total, with_uv, use_mirror, label);
            &&& told.len() == (if use_mirror { 2int } else { 1 })
            &&& with_uv ==> told[0] == "使用 uv 安装 "@ + number::decimal(total)
                + " 个依赖包（速度更快）..."@
            &&& !with_uv ==> told[0] == "开始安装 "@ + number::decimal(total) + " 个依赖包..."@
            &&& use_mirror && with_uv ==> told[1] == "使用镜像源: "@ + label
            &&& use_mirror && !with_uv ==> told[1] == "使用镜像源: "@ + label
                + "（uv 未安装，用 pip 较慢）"@
        }),
{
}

/// A line that says what is collected is told with its number, out of all packages, and
/// what is collected, whatever white space stands around the line.
pub proof fn a_collected_package_is_told_with_its_number(
    before: Seq<char>,
    package: Seq<char>,
    after: Seq<char>,
    with_uv: bool,
    started: nat,
    total: nat,
)
    requires
        text_laws::is_blank(before),
        text_laws::is_blank(after),
        package.len() > 0,
        !text::is_space(package.last()),
    ensures
        ({
            let line = before + ("Collecting "@ + package) + after;
            &&& python_runtime::announces_download(line)
            &&& python_runtime::line_message(line, with_uv, started, total) == Some(
                "["@ + number::decimal(started + 1) + "/"@ + number::decimal(total) + "] 下载 "@
                    + package,
            )
        }),
{
    reveal_strlit("Collecting ");
    reveal_strlit("Resolved");
    reveal_strlit("Prepared");
    reveal_strlit("Installed");
    let t = "Collecting "@ + package;
    let line = before + t + after;
    assert(t.first() == 'C');
    assert(t.last() == package.last());
    text_laws::trimming_finds_the_text(before, t, after);
    assert(t.subrange(0, "Collecting "@.len() as int) =~= "Collecting "@);
    assert("Resolved"@[0] == 'R' && "Prepared"@[0] == 'P' && "Installed"@[0] == 'I');
    assert(!"Resolved"@.is_prefix_of(t)) by {
        if "Resolved"@.is_prefix_of(t) {
            assert(t.subrange(0, "Resolved"@.len() as int)[0] == t[0]);
        }
    }
    assert(!"Prepared"@.is_prefix_of(t)) by {
        if "Prepared"@.is_prefix_of(t) {
            assert(t.subrange(0, "Prepared"@.len() as int)[0] == t[0]);
        }
    }
    assert(!"Installed"@.is_prefix_of(t)) by {
        if "Installed"@.is_prefix_of(t) {
            assert(t.subrange(0, "Installed"@.len() as int)[0] == t[0]);
        }
    }
    assert(t.skip("Collecting "@.len() as int) =~= package);
}

/// Whether a text begins with another.
pub open spec fn begins(s: Seq<char>, with: Seq<char>) -> bool {
    with.len() <= s.len() && forall|j: int| 0 <= j < with.len() ==> s[j] == #[trigger] with[j]
}

proof fn lemma_begins(s: Seq<char>, with: Seq<char>)
    ensures
        with.is_prefix_of(s) == begins(s, with),
{
    if begins(s, with) {
        assert(s.subrange(0, with.len() as int) =~= with);
    } else if with.is_prefix_of(s) {
        assert forall|j: int| 0 <= j < with.len() implies s[j] == #[trigger] with[j] by {
            assert(s.subrange(0, with.len() as int)[j] == s[j]);
        }
    }
}

/// Of other lines those that say how far it is are told as they are, without the white
/// space around them; what `uv` says of it only where `uv` installs. Where packages are
/// put in place that is said in other words. All other lines are passed over.
pub proof fn which_lines_are_told(line: Seq<char>, with_uv: bool, started: nat, total: nat)
    requires
        !begins(text::trimmed(line), "Collecting "@),
    ensures
        ({
            let t = text::trimmed(line);
            let told = python_runtime::line_message(line, with_uv, started, total);
            let by_uv = begins(t, "Resolved"@) || begins(t, "Prepared"@) || begins(t, "Installed"@);
            let by_pip = begins(t, "Downloading "@) || begins(t, "Successfully installed"@);
            let placing = begins(t, "Installing collected packages"@);
            &&& !python_runtime::announces_download(line)
            &&& told is Some <==> (with_uv && by_uv) || by_pip || placing
            &&& placing ==> told == Some("正在安装已下载的包..."@)
            &&& told is Some && !placing ==> told == Some(t)
        }),
{
    let t = text::trimmed(line);
    reveal_strlit("Resolved");
    reveal_strlit("Prepared");
    reveal_strlit("Installed");
    reveal_strlit("Downloading ");
    reveal_strlit("Successfully installed");
    reveal_strlit("Installing collected packages");
    lemma_begins(t, "Resolved"@);
    lemma_begins(t, "Prepared"@);
    lemma_begins(t, "Installed"@);
    lemma_begins(t, "Collecting "@);
    lemma_begins(t, "Downloading "@);
    lemma_begins(t, "Successfully installed"@);
    lemma_begins(t, "Installing collected packages"@);
    if begins(t, "Installing collected packages"@) {
        let p = "Installing collected packages"@;
        assert(t[0] == p[0] && t[6] == p[6]);
        assert(p[0] == 'I' && p[6] == 'l' && p[7] == 'i');
        assert(t[7] == p[7]);
        if begins(t, "Resolved"@) {
            assert(t[0] == "Resolved"@[0]);
        }
        if begins(t, "Prepared"@) {
            assert(t[0] == "Prepared"@[0]);
        }
        if begins(t, "Installed"@) {
            assert(t[7] == "Installed"@[7]);
        }
        if begins(t, "Downloading "@) {
            assert(t[0] == "Downloading "@[0]);
        }
    }
}

/// How many of some lines say what is collected.
pub open spec fn collected(lines: Seq<Seq<char>>) -> nat
    decreases lines.len(),
{
    if lines.len() == 0 {
        0
    } else {
        collected(lines.drop_last()) + (if begins(text::trimmed(lines.last()), "Collecting "@) {
            1nat
        } else {
            0
        })
    }
}

/// The lines that are counted are those that say what is collected, and no other.
pub proof fn what_is_counted_is_what_is_collected(line: Seq<char>, lines: Seq<Seq<char>>)
    ensures
        python_runtime::announces_download(line) <==> begins(text::trimmed(line), "Collecting "@),
        collected(lines.push(line)) == collected(lines) + (if python_runtime::announces_download(
            line,
        ) {
            1nat
        } else {
            0
        }),
{
    lemma_begins(text::trimmed(line), "Collecting "@);
    assert(lines.push(line).drop_last() =~= lines);
}

/// What follows some events of an installation, from its beginning.
pub open spec fn installation(events: Seq<InstallEventView>) -> InstallNextView
    decreases events.len(),
{
    if events.len() == 0 {
        InstallNextView::Go(None, InstallStage::Install)
    } else {
        match installation(events.drop_last()) {
            InstallNextView::Go(_, stage) => python_runtime::install_next(stage, events.last()),
            over => over,
        }
    }
}

/// An installation succeeds where the installer does and nothing is in the way of the
/// full OpenCV, or what is gets mended; it fails where the installer fails, with its
/// status, and where the mending does.
pub proof fn how_an_installation_ends(
    status: Seq<char>,
    output: Seq<char>,
    mended: bool,
    mend_status: Seq<char>,
)
    ensures
        installation(seq![InstallEventView::Ended { success: false, status }])
            == InstallNextView::Failed("Install returned non-zero exit: "@ + status),
        ({
            let events = seq![
                InstallEventView::Ended { success: true, status },
                InstallEventView::Printed(output),
            ];
            let clean = python_runtime::opencv_conflicts(output).len() == 0;
            &&& clean ==> installation(events) == InstallNextView::Installed("依赖安装完成"@)
            &&& !clean ==> installation(
                events.push(InstallEventView::Ended { success: mended, status: mend_status }),
            ) == (if mended {
                InstallNextView::Installed("依赖安装完成"@)
            } else {
                InstallNextView::Failed("Failed to reinstall opencv-contrib-python"@)
            })
        }),
{
    reveal_with_fuel(installation, 5);
    let none = Seq::<InstallEventView>::empty();
    let bad = InstallEventView::Ended { success: false, status };
    assert(seq![bad].drop_last() =~= none);
    let good = InstallEventView::Ended { success: true, status };
    let printed = InstallEventView::Printed(output);
    let events = seq![good, printed];
    assert(events.drop_last() =~= seq![good]);
    assert(seq![good].drop_last() =~= none);
    let all = events.push(InstallEventView::Ended { success: mended, status: mend_status });
    assert(all.drop_last() =~= events);
}

/// What cannot be run or awaited fails the installation: of the installer that is said in
/// general, of the others with the reason. The check is told of before it is run.
pub proof fn what_cannot_be_run_fails_the_installation(why: Seq<char>, status: Seq<char>)
    ensures
        python_runtime::install_next(InstallStage::Install, InstallEventView::NotStarted(why))
            == InstallNextView::Failed("Failed to start installer"@),
        python_runtime::install_next(InstallStage::Install, InstallEventView::WaitFailed(why))
            == InstallNextView::Failed("Install process failed"@),
        python_runtime::install_next(InstallStage::Check, InstallEventView::NotStarted(why))
            == InstallNextView::Failed(why),
        python_runtime::install_next(InstallStage::Check, InstallEventView::WaitFailed(why))
            == InstallNextView::Failed(why),
        python_runtime::install_next(InstallStage::Mend, InstallEventView::NotStarted(why))
            == InstallNextView::Failed(why),
        python_runtime::install_next(InstallStage::Mend, InstallEventView::WaitFailed(why))
            == InstallNextView::Failed(why),
        python_runtime::install_next(
            InstallStage::Install,
            InstallEventView::Ended { success: true, status },
        ) == InstallNextView::Go(Some("检查 OpenCV 兼容性..."@), InstallStage::Check),
{
}

/// What prints nothing but white space tells of no conflict.
pub proof fn nothing_printed_is_no_conflict(before: Seq<char>)
    requires
        text_laws::is_blank(before),
    ensures
        python_runtime::opencv_conflicts(before).len() == 0,
{
    let none = Seq::<char>::empty();
    text_laws::trimming_finds_the_text(before, none, none);
    assert(before + none + none =~= before);
    let p = text::just('|');
    text::lemma_find_is(none, p, 0);
    let list = text::fields(none, '|');
    assert(list == seq![none]);
    reveal(Seq::filter);
    let keep = |t: Seq<char>| t.len() > 0;
    let nothing = Seq::<Seq<char>>::empty();
    assert(list.drop_last() =~= nothing);
    assert(nothing.filter(keep) =~= nothing);
    assert(list.last() == none);
    assert(!keep(none));
}

/// The modules that must be importable: seven always, four more exactly where the expert
/// mode is chosen, one more exactly where the tycoon mode is.
pub proof fn which_modules_are_probed(modes: Seq<Seq<char>>)
    ensures
        ({
            let core = seq![
                "flask"@,
                "PIL"@,
                "numpy"@,
                "cv2"@,
                "imagehash"@,
                "rawpy"@,
                "piexif"@,
            ];
            let expert = seq!["torch"@, "transformers"@, "insightface"@, "pyiqa"@];
            let tycoon = seq!["openai"@];
            let probed = python_runtime::probed_modules(modes);
            let e = modes.contains("expert"@);
            let t = modes.contains("tycoon"@);
            &&& !e && !t ==> probed == core
            &&& e && !t ==> probed == core + expert
            &&& !e && t ==> probed == core + tycoon
            &&& e && t ==> probed == core + expert + tycoon
        }),
{
    let core = seq!["flask"@, "PIL"@, "numpy"@, "cv2"@, "imagehash"@, "rawpy"@, "piexif"@];
    let expert = seq!["torch"@, "transformers"@, "insightface"@, "pyiqa"@];
    let tycoon = seq!["openai"@];
    let probed = python_runtime::probed_modules(modes);
    if modes.contains("expert"@) {
        if modes.contains("tycoon"@) {
            assert(probed =~= core + expert + tycoon);
        } else {
            assert(probed =~= core + expert);
        }
    } else if modes.contains("tycoon"@) {
        assert(probed =~= core + tycoon);
    } else {
        assert(probed =~= core);
    }
}

/// Every package that is in the way is named in a command that removes it, and nothing
/// else is removed: with `uv` one command names them all, in order, with `pip` there is
/// one command for each.
pub proof fn what_is_in_the_way_is_removed<B>(
    venv_python: B,
    uv: Option<B>,
    list: Seq<Seq<char>>,
)
    ensures
        ({
            let commands = python_runtime::uninstall_commands(venv_python, uv, list);
            &&& uv matches Some(path) ==> {
                &&& commands.len() == 1
                &&& commands[0].program == ArgView::Path(path)
                &&& commands[0].args.len() == 5 + list.len()
                &&& commands[0].args[0] == ArgView::<B>::Text("pip"@)
                &&& commands[0].args[1] == ArgView::<B>::Text("uninstall"@)
                &&& commands[0].args[2] == ArgView::<B>::Text("-y"@)
                &&& commands[0].args[3] == ArgView::<B>::Text("--python"@)
                &&& commands[0].args[4] == ArgView::Path(venv_python)
                &&& forall|i: int|
                    0 <= i < list.len() ==> commands[0].args[5 + i] == ArgView::<B>::Text(
                        #[trigger] list[i],
                    )
            }
            &&& uv is None ==> {
                &&& commands.len() == list.len()
                &&& forall|i: int|
                    0 <= i < list.len() ==> commands[i] == (InvocationView {
                        program: ArgView::Path(venv_python),
                        args: seq![
                            ArgView::Text("-m"@),
                            ArgView::Text("pip"@),
                            ArgView::Text("uninstall"@),
                            ArgView::Text("-y"@),
                            ArgView::Text(#[trigger] list[i]),
                        ],
                    })
            }
        }),
{
}

/// The full OpenCV is installed again by itself, for the Python of the virtual
/// environment, with the tool at hand.
pub proof fn the_full_opencv_is_installed_again<B>(venv_python: B, uv: Option<B>)
    ensures
        ({
            let command = python_runtime::reinstall_command(venv_python, uv);
            let n = command.args.len() as int;
            &&& command.program == ArgView::Path(
                match uv {
                    Some(path) => path,
                    None => venv_python,
                },
            )
            &&& command.args.subrange(n - 3, n) == seq![
                ArgView::<B>::Text("--force-reinstall"@),
                ArgView::<B>::Text("--no-deps"@),
                ArgView::<B>::Text("opencv-contrib-python>=4.9"@),
            ]
            &&& uv is Some ==> command.args.take(n - 3) == seq![
                ArgView::<B>::Text("pip"@),
                ArgView::<B>::Text("install"@),
                ArgView::<B>::Text("--python"@),
                ArgView::Path(venv_python),
            ]
            &&& uv is None ==> command.args.take(n - 3) == seq![
                ArgView::<B>::Text("-m"@),
                ArgView::<B>::Text("pip"@),
                ArgView::<B>::Text("install"@),
            ]
        }),
{
    let command = python_runtime::reinstall_command(venv_python, uv);
    let n = command.args.len() as int;
    assert(command.args.subrange(n - 3, n) =~= seq![
        ArgView::<B>::Text("--force-reinstall"@),
        ArgView::<B>::Text("--no-deps"@),
        ArgView::<B>::Text("opencv-contrib-python>=4.9"@),
    ]);
    match uv {
        Some(_) => assert(command.args.take(n - 3) =~= seq![
            ArgView::<B>::Text("pip"@),
            ArgView::<B>::Text("install"@),
            ArgView::<B>::Text("--python"@),
            ArgView::Path(venv_python),
        ]),
        None => assert(command.args.take(n - 3) =~= seq![
            ArgView::<B>::Text("-m"@),
            ArgView::<B>::Text("pip"@),
            ArgView::<B>::Text("install"@),
        ]),
    }
}

/// All systems but Windows are treated alike.
pub proof fn only_windows_is_different<B>(a: Platform, b: Platform)
    requires
        a != Platform::Windows,
        b != Platform::Windows,
    ensures
        python_runtime::venv_python_names(a) == seq!["bin"@, "python3"@],
        python_runtime::venv_python_names(Platform::Windows) == seq!["Scripts"@, "python.exe"@],
        python_runtime::uv_installer_command::<B>(a) == (InvocationView::<B> {
            program: ArgView::Text("sh"@),
            args: seq![
                ArgView::Text("-c"@),
                ArgView::Text("curl -LSf https://astral.sh/uv/install.sh | sh"@),
            ],
        }),
        python_runtime::uv_installer_command::<B>(a) == python_runtime::uv_installer_command::<B>(
            b,
        ),
{
}

/// Of the resources just these are left out of the copy: what packaging adds, and the two
/// icons.
pub proof fn what_is_left_out_of_the_copy(name: Seq<char>)
    ensures
        python_runtime::left_out(name) <==> name == "_up_"@ || name == "icon.icns"@ || name
            == "icon.ico"@,
{
}

/// In the making of a virtual environment each thing is tried exactly where what comes
/// before it did not do.
pub proof fn what_is_tried_for_a_virtual_environment(
    stage: VenvStageView,
    event: VenvEventView,
    has_system_python: bool,
    use_ensure_uv: bool,
)
    requires
        python_runtime::venv_event_fits(stage, event),
    ensures
        ({
            let next = python_runtime::venv_step(
                stage,
                event,
                has_system_python,
                use_ensure_uv,
            ).next;
            let uv_does = event == (VenvEventView::Ended { success: true, python_there: true });
            let no_uv = event == VenvEventView::UvThere(false) || (stage is RunUv && !uv_does);
            &&& next is FindUv <==> event == VenvEventView::PythonThere(false) && !use_ensure_uv
            &&& next is EnsureUv <==> event == VenvEventView::PythonThere(false) && use_ensure_uv
            &&& next is RunUv <==> event == VenvEventView::UvThere(true)
            &&& next is RunSystem <==> no_uv && has_system_python
            &&& next is Ready <==> event == VenvEventView::PythonThere(true) || (stage is RunUv
                && uv_does) || (stage is RunSystem && event is Ended && event->Ended_success)
            &&& next is Failed <==> (no_uv && !has_system_python) || (stage is RunSystem && !(
            event is Ended && event->Ended_success))
        }),
{
}

/// What is told in the making of a virtual environment: that `uv` makes it, that what `uv`
/// did does not do, and that the Python of the system makes it; and why it fails.
pub proof fn what_is_told_of_a_virtual_environment(
    stage: VenvStageView,
    event: VenvEventView,
    has_system_python: bool,
    use_ensure_uv: bool,
)
    requires
        python_runtime::venv_event_fits(stage, event),
    ensures
        ({
            let step = python_runtime::venv_step(
                stage,
                event,
                has_system_python,
                use_ensure_uv,
            );
            let half = event == (VenvEventView::Ended { success: true, python_there: false });
            let trouble = if stage is RunUv && half {
                seq!["uv 创建的 venv 不完整，尝试系统 Python..."@]
            } else if stage is RunUv && !(step.next is Ready) {
                seq!["uv 创建 venv 失败，回退到系统 Python..."@]
            } else {
                Seq::<Seq<char>>::empty()
            };
            &&& step.next is RunUv ==> step.messages == seq![
                "使用 uv 创建虚拟环境（可能需下载 Python）..."@,
            ]
            &&& step.next is RunSystem ==> step.messages == trouble.push(
                "使用系统 Python 创建虚拟环境..."@,
            )
            &&& step.next is Failed ==> step.messages == trouble
            &&& step.next is Failed && !(stage is RunSystem) ==> step.next->Failed_0
                == "未找到系统 Python 且 uv 不可用，请安装 Python 3.10+ 或 uv"@
            &&& step.next is Failed && stage is RunSystem && event is Ended
                ==> step.next->Failed_0 == "venv creation failed (both uv and system Python)"@
            &&& step.next is Failed && stage is RunSystem && !(event is Ended)
                ==> step.next->Failed_0 == "Failed to create virtual environment"@
            &&& step.next is Ready || step.next is FindUv || step.next is EnsureUv
                ==> step.messages.len() == 0
        }),
{
}

/// The check for what is in the way looks for the two other packages of OpenCV among all
/// that is installed, and prints those that it finds with a bar between them.
pub proof fn what_the_check_for_opencv_is()
    ensures
        python_runtime::OPENCV_SCRIPT@ == "import importlib.metadata as m; names={'opencv-python','opencv-python-headless'}; found=[n for n in names if any(d.metadata['Name'].lower()==n for d in m.distributions())]; print('|'.join(found))"@,
{
}

/// Getting `uv`: it is looked for, installed where it is not there, and looked for again
/// where the installer succeeded; it is there exactly where a look found it.
pub proof fn how_uv_is_got(found: bool, installed: bool, found_then: bool)
    ensures
        ({
            let a = python_runtime::uv_next(UvStage::Search, found);
            let b = python_runtime::uv_next(UvStage::Install, installed);
            let c = python_runtime::uv_next(UvStage::SearchAgain, found_then);
            &&& found <==> a == UvStage::Ready
            &&& !found <==> a == UvStage::Install
            &&& installed <==> b == UvStage::SearchAgain
            &&& !installed <==> b == UvStage::Missing
            &&& found_then <==> c == UvStage::Ready
            &&& !found_then <==> c == UvStage::Missing
        }),
        python_runtime::uv_message(UvStage::Install) == Some(
            "正在下载安装 uv（约需 30 秒）..."@,
        ),
        python_runtime::uv_message(UvStage::SearchAgain) == Some("uv 安装完成"@),
        python_runtime::uv_message(UvStage::Ready) is None,
        python_runtime::uv_message(UvStage::Missing) is None,
{
}

} // verus!
