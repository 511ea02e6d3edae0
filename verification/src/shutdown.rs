//! Stopping the service: its processes, and whatever is left on its port.

use crate::commands;
use crate::invocation::{ArgView, Invocation, InvocationView};
use crate::number;
use crate::paths::Platform;
use crate::text;
use vstd::prelude::*;

verus! {

/// Why the service is stopped.
#[derive(Debug, Clone, Copy, PartialEq, Eq, Structural)]
pub enum Occasion {
    /// To look for an update, at once.
    UpdateCheck,
    /// Because the application ends; the service may tidy up.
    Exit,
}

/// How long the service may tidy up, in milliseconds.
pub const GRACE_MILLIS: u64 = 500;

/// Something to do in order to stop the service.
#[derive(Debug)]
pub enum StopAction<'a, B> {
    /// Run this, whatever comes of it.
    Run(Invocation<'a, B>),
    /// Pause for so many milliseconds.
    Pause(u64),
}

/// What a `StopAction` says.
#[verifier::ext_equal]
pub enum StopActionView<B> {
    Run(InvocationView<B>),
    Pause(u64),
}

impl<'a, B> DeepView for StopAction<'a, B> {
    type V = StopActionView<B>;

    open spec fn deep_view(&self) -> StopActionView<B> {
        match self {
            StopAction::Run(command) => StopActionView::Run(command@),
            StopAction::Pause(millis) => StopActionView::Pause(*millis),
        }
    }
}

/// The number of a process as the system counts them, in 32 bits with a sign.
pub open spec fn process_number(id: u32) -> int {
    if id <= 0x7fff_ffff {
        id as int
    } else {
        id - 0x1_0000_0000
    }
}

/// The command that sends a signal.
pub open spec fn kill<B>(signal: Seq<char>, target: Seq<char>) -> InvocationView<B> {
    InvocationView {
        program: ArgView::Text("kill"@),
        args: seq![ArgView::Text(signal), ArgView::Text(target)],
    }
}

/// The command that ends a process and all that it started, on Windows.
pub open spec fn end_tree<B>(id: u32) -> InvocationView<B> {
    InvocationView {
        program: ArgView::Text("taskkill"@),
        args: seq![
            ArgView::Text("/T"@),
            ArgView::Text("/F"@),
            ArgView::Text("/PID"@),
            ArgView::Text(number::decimal(id as nat)),
        ],
    }
}

/// The command that ends a process, on Windows.
pub open spec fn end_process<B>(id: Seq<char>) -> InvocationView<B> {
    InvocationView {
        program: ArgView::Text("taskkill"@),
        args: seq![ArgView::Text("/F"@), ArgView::Text("/PID"@), ArgView::Text(id)],
    }
}

/// What to do in order to stop the service, whose process has the number `id`: on a
/// Unix its whole process group gets the signal, and at the end of the application
/// a chance to tidy up first.
pub open spec fn stop_actions<B>(
    platform: Platform,
    occasion: Occasion,
    id: u32,
) -> Seq<StopActionView<B>> {
    let group = "-"@ + number::signed_decimal(process_number(id));
    if platform == Platform::Windows {
        seq![StopActionView::Run(end_tree::<B>(id))]
    } else if occasion == Occasion::UpdateCheck {
        seq![StopActionView::Run(kill::<B>("-KILL"@, group))]
    } else {
        seq![
            StopActionView::Run(kill::<B>("-TERM"@, group)),
            StopActionView::Pause(GRACE_MILLIS),
            StopActionView::Run(kill::<B>("-KILL"@, group)),
        ]
    }
}

fn kill_command<'a, B>(signal: &str, target: &str) -> (r: Invocation<'a, B>)
    ensures
        r@ == kill::<B>(signal@, target@),
{
    let r = Invocation::of_name("kill").text(signal).text(target);
    assert(r@.args =~= kill::<B>(signal@, target@).args);
    r
}

fn signed_id(id: u32) -> (r: i32)
    ensures
        r as int == process_number(id),
{
    if id <= 0x7fff_ffff {
        id as i32
    } else {
        (id as i64 - 0x1_0000_0000) as i32
    }
}

/// What to do, in order, to stop the service, whose process has the number `id`.
pub fn stop_service<'a, B>(platform: Platform, occasion: Occasion, id: u32) -> (r: Vec<
    StopAction<'a, B>,
>)
    ensures
        r.deep_view() == stop_actions::<B>(platform, occasion, id),
{
    let mut r: Vec<StopAction<'a, B>> = Vec::new();
    if platform.is_windows() {
        let command = Invocation::of_name("taskkill").text("/T").text("/F").text("/PID").text(
            number::to_decimal(id as u64).as_str(),
        );
        assert(command@.args =~= end_tree::<B>(id).args);
        r.push(StopAction::Run(command));
    } else {
        let mut group = "-".to_string();
        group.append(number::to_signed_decimal(signed_id(id)).as_str());
        match occasion {
            Occasion::UpdateCheck => {},
            Occasion::Exit => {
                r.push(StopAction::Run(kill_command("-TERM", group.as_str())));
                r.push(StopAction::Pause(GRACE_MILLIS));
            },
        }
        r.push(StopAction::Run(kill_command("-KILL", group.as_str())));
    }
    assert(r.deep_view() =~= stop_actions::<B>(platform, occasion, id));
    r
}

/// The port to clear: before an update check the usual one, at the end of the
/// application the one that the variable `PIC_SELECTER_PORT`, whose text is given
/// where it is set, asks for.
pub fn port_to_clear(occasion: Occasion, setting: Option<&str>) -> (r: u16)
    ensures
        occasion == Occasion::UpdateCheck ==> r == commands::DEFAULT_PORT,
        occasion == Occasion::Exit ==> r as nat == commands::port_for(setting.deep_view()),
{
    match occasion {
        Occasion::UpdateCheck => commands::DEFAULT_PORT,
        Occasion::Exit => commands::flask_port(setting),
    }
}

/// A port as addresses show it.
pub open spec fn port_mark(port: u16) -> Seq<char> {
    ":"@ + number::decimal(port as nat)
}

/// The command that tells which processes use a port.
pub open spec fn users_command<B>(platform: Platform, port: u16) -> InvocationView<B> {
    if platform == Platform::Windows {
        InvocationView { program: ArgView::Text("netstat"@), args: seq![ArgView::Text("-ano"@)] }
    } else {
        InvocationView {
            program: ArgView::Text("lsof"@),
            args: seq![ArgView::Text("-ti"@), ArgView::Text(port_mark(port))],
        }
    }
}

fn port_text(port: u16) -> (r: String)
    ensures
        r@ == port_mark(port),
{
    let mut r = ":".to_string();
    r.append(number::to_decimal(port as u64).as_str());
    r
}

/// The command that tells which processes use a port.
pub fn find_leftovers<'a, B>(platform: Platform, port: u16) -> (r: Invocation<'a, B>)
    ensures
        r@ == users_command::<B>(platform, port),
{
    let r = if platform.is_windows() {
        Invocation::of_name("netstat").text("-ano")
    } else {
        Invocation::of_name("lsof").text("-ti").text(port_text(port).as_str())
    };
    assert(r@.args =~= users_command::<B>(platform, port).args);
    r
}

/// The process that a line of that command's output names, where it names one: the
/// number on the line, or on Windows the last word of a line that holds `LISTENING`
/// and the mark of the port. The mark of a port also stands in a line about a port
/// whose number begins with the same digits.
pub open spec fn leftover(platform: Platform, port: u16, line: Seq<char>) -> Option<Seq<char>> {
    if platform == Platform::Windows {
        if text::holds(line, port_mark(port)) && text::holds(line, "LISTENING"@) && text::words(
            line,
        ).len() > 0 {
            Some(text::words(line).last())
        } else {
            None
        }
    } else {
        match number::signed(text::trimmed(line)) {
            Some(id) => Some(number::signed_decimal(id)),
            None => None,
        }
    }
}

/// The processes that the lines of that command's output name, in order.
pub open spec fn leftovers(platform: Platform, port: u16, lines: Seq<Seq<char>>) -> Seq<Seq<char>>
    decreases lines.len(),
{
    if lines.len() == 0 {
        seq![]
    } else {
        let before = leftovers(platform, port, lines.drop_last());
        match leftover(platform, port, lines.last()) {
            Some(id) => before.push(id),
            None => before,
        }
    }
}

/// The command that stops a process that is left.
pub open spec fn end_leftover<B>(platform: Platform, occasion: Occasion, id: Seq<char>) -> InvocationView<
    B,
> {
    if platform == Platform::Windows {
        end_process(id)
    } else if occasion == Occasion::UpdateCheck {
        kill("-KILL"@, id)
    } else {
        kill("-TERM"@, id)
    }
}

/// The commands that stop the processes that are left.
pub open spec fn end_leftovers<B>(
    platform: Platform,
    occasion: Occasion,
    ids: Seq<Seq<char>>,
) -> Seq<InvocationView<B>> {
    ids.map_values(|id: Seq<char>| end_leftover::<B>(platform, occasion, id))
}

fn leftover_in(platform: Platform, port: u16, line: &str) -> (r: Option<String>)
    ensures
        r.deep_view() == leftover(platform, port, line@),
{
    if platform.is_windows() {
        if text::contains(line, port_text(port).as_str()) && text::contains(line, "LISTENING") {
            let words = text::split_whitespace(line);
            assert(words.deep_view().len() == words.len());
            if words.len() > 0 {
                Some(words[words.len() - 1].clone())
            } else {
                None
            }
        } else {
            None
        }
    } else {
        match number::parse_i32(text::trim(line)) {
            Some(id) => Some(number::to_signed_decimal(id)),
            None => None,
        }
    }
}

fn end_leftover_command<'a, B>(platform: Platform, occasion: Occasion, id: &str) -> (r: Invocation<
    'a,
    B,
>)
    ensures
        r@ == end_leftover::<B>(platform, occasion, id@),
{
    if platform.is_windows() {
        let r = Invocation::of_name("taskkill").text("/F").text("/PID").text(id);
        assert(r@.args =~= end_process::<B>(id@).args);
        r
    } else {
        match occasion {
            Occasion::UpdateCheck => kill_command("-KILL", id),
            Occasion::Exit => kill_command("-TERM", id),
        }
    }
}

/// The commands that stop whatever still uses the port, out of what the command
/// that looks for it printed.
pub fn stop_leftovers<'a, B>(platform: Platform, occasion: Occasion, port: u16, output: &str) -> (r:
    Vec<Invocation<'a, B>>)
    ensures
        r.deep_view() == end_leftovers::<B>(
            platform,
            occasion,
            leftovers(platform, port, text::lines_of(output@)),
        ),
{
    let lines = text::lines(output);
    let ghost all = lines.deep_view();
    let mut r: Vec<Invocation<'a, B>> = Vec::new();
    let mut i: usize = 0;
    assert(r.deep_view() =~= end_leftovers::<B>(
        platform,
        occasion,
        leftovers(platform, port, all.take(0)),
    ));
    while i < lines.len()
        invariant
            0 <= i <= lines.len(),
            all == lines.deep_view(),
            r.deep_view() == end_leftovers::<B>(
                platform,
                occasion,
                leftovers(platform, port, all.take(i as int)),
            ),
        decreases lines.len() - i,
    {
        let ghost ids = leftovers(platform, port, all.take(i as int));
        let ghost before = r.deep_view();
        proof {
            assert(all.take(i + 1).drop_last() =~= all.take(i as int));
            assert(all.take(i + 1).last() == lines[i as int]@);
        }
        match leftover_in(platform, port, lines[i].as_str()) {
            Some(id) => {
                let command = end_leftover_command(platform, occasion, id.as_str());
                r.push(command);
                proof {
                    assert(r.deep_view() =~= before.push(command@));
                    assert(end_leftovers::<B>(platform, occasion, ids.push(id@)) =~= before.push(
                        command@,
                    ));
                }
            },
            None => {},
        }
        i += 1;
    }
    assert(all.take(lines.len() as int) =~= all);
    r
}

/// The numbers of processes as text.
pub open spec fn ids_text(ids: Seq<nat>) -> Seq<Seq<char>> {
    ids.map_values(|id: nat| number::decimal(id))
}

/// On a Unix every process that is printed, one on a line, is stopped, and no
/// other is.
pub proof fn printed_processes_are_stopped(platform: Platform, port: u16, ids: Seq<nat>)
    requires
        platform != Platform::Windows,
        forall|i: int| 0 <= i < ids.len() ==> #[trigger] ids[i] <= 0x7fff_ffff,
    ensures
        leftovers(platform, port, text::lines_of(text::printed(ids_text(ids)))) == ids_text(ids),
{
    let list = ids_text(ids);
    assert forall|i: int, j: int| 0 <= i < list.len() && 0 <= j < list[i].len() implies (
    #[trigger] list[i][j]) != '\n' by {
        number::lemma_decimal(ids[i]);
        assert(number::is_digit(list[i][j]));
    }
    assert forall|i: int| 0 <= i < list.len() && list[i].len() > 0 implies (
    #[trigger] list[i]).last() != '\r' by {
        number::lemma_decimal(ids[i]);
        assert(number::is_digit(list[i][list[i].len() - 1]));
    }
    text::printed_lines_are_read_back(list);
    lemma_leftovers(platform, port, ids);
}

proof fn lemma_leftovers(platform: Platform, port: u16, ids: Seq<nat>)
    requires
        platform != Platform::Windows,
        forall|i: int| 0 <= i < ids.len() ==> #[trigger] ids[i] <= 0x7fff_ffff,
    ensures
        leftovers(platform, port, ids_text(ids)) == ids_text(ids),
    decreases ids.len(),
{
    let list = ids_text(ids);
    if ids.len() > 0 {
        let front = ids.drop_last();
        lemma_leftovers(platform, port, front);
        assert(list.drop_last() =~= ids_text(front));
        let id = ids.last();
        let line = list.last();
        number::lemma_decimal(id);
        number::decimal_reads_back(id, 0x7fff_ffff);
        assert(number::is_digit(line[0]));
        assert(number::is_digit(line[line.len() - 1]));
        text::lemma_trims_line(line, Seq::empty());
        assert(line + Seq::<char>::empty() =~= line);
        assert(number::signed(line) == Some(id as int));
        assert(ids_text(front).push(line) =~= list);
    } else {
        assert(list =~= Seq::<Seq<char>>::empty());
    }
}

} // verus!
