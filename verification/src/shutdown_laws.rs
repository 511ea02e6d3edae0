//! What holds of stopping the service, in terms of processes and what lists them.

use crate::invocation::{ArgView, InvocationView};
use crate::number;
use crate::paths::Platform;
use crate::shutdown;
use crate::shutdown::{Occasion, StopActionView};
use crate::text;
use crate::text_laws;
use vstd::prelude::*;

verus! {

/// The number of a process is the same 32 bits read with a sign.
pub proof fn process_numbers_keep_their_bits(id: u32)
    ensures
        -2147483648 <= shutdown::process_number(id) <= 2147483647,
        shutdown::process_number(id) == id || shutdown::process_number(id) == id - 4294967296,
        id <= 2147483647 ==> shutdown::process_number(id) == id,
{
}

/// On a Unix the whole process group of the service is stopped for good, as the last thing
/// that is done; at the end of the application it is asked to end before that and has half
/// a second to do so. On Windows the process and all that it started are ended at once.
pub proof fn how_the_service_is_stopped<B>(platform: Platform, occasion: Occasion, id: u32)
    ensures
        ({
            let actions = shutdown::stop_actions::<B>(platform, occasion, id);
            let signal = |name: Seq<char>|
                StopActionView::Run(
                    InvocationView::<B> {
                        program: ArgView::Text("kill"@),
                        args: seq![
                            ArgView::Text(name),
                            ArgView::Text(
                                "-"@ + number::signed_decimal(shutdown::process_number(id)),
                            ),
                        ],
                    },
                );
            &&& platform != Platform::Windows ==> {
                &&& actions.last() == signal("-KILL"@)
                &&& occasion == Occasion::UpdateCheck ==> actions.len() == 1
                &&& occasion == Occasion::Exit ==> actions.len() == 3 && actions[0] == signal(
                    "-TERM"@,
                ) && actions[1] == StopActionView::<B>::Pause(500)
            }
            &&& platform == Platform::Windows ==> {
                &&& actions.len() == 1
                &&& actions[0] == StopActionView::Run(
                    InvocationView::<B> {
                        program: ArgView::Text("taskkill"@),
                        args: seq![
                            ArgView::Text("/T"@),
                            ArgView::Text("/F"@),
                            ArgView::Text("/PID"@),
                            ArgView::Text(number::decimal(id as nat)),
                        ],
                    },
                )
            }
        }),
{
}

/// Who uses a port is asked for by its number on a Unix, and of all ports on Windows.
pub proof fn how_leftovers_are_looked_for<B>(platform: Platform, port: u16)
    ensures
        platform != Platform::Windows ==> shutdown::users_command::<B>(platform, port) == (
        InvocationView::<B> {
            program: ArgView::Text("lsof"@),
            args: seq![
                ArgView::Text("-ti"@),
                ArgView::Text(":"@ + number::decimal(port as nat)),
            ],
        }),
        shutdown::users_command::<B>(Platform::Windows, port) == (InvocationView::<B> {
            program: ArgView::Text("netstat"@),
            args: seq![ArgView::Text("-ano"@)],
        }),
{
}

/// A line names the process whose number it is, on a Unix, whatever white space stands
/// around the number; a line that is no number names none.
pub proof fn a_number_on_a_line_names_a_process(
    platform: Platform,
    port: u16,
    before: Seq<char>,
    id: nat,
    after: Seq<char>,
    line: Seq<char>,
)
    requires
        platform != Platform::Windows,
        id <= 2147483647,
        text_laws::is_blank(before),
        text_laws::is_blank(after),
    ensures
        shutdown::leftover(platform, port, before + number::decimal(id) + after) == Some(
            number::decimal(id),
        ),
        number::signed(text::trimmed(line)) is None ==> shutdown::leftover(
            platform,
            port,
            line,
        ) is None,
        text_laws::is_blank(before) ==> shutdown::leftover(platform, port, before) is None,
{
    let s = number::decimal(id);
    number::lemma_decimal(id);
    assert(number::is_digit(s[0]));
    assert(number::is_digit(s[s.len() - 1]));
    text_laws::trimming_finds_the_text(before, s, after);
    text_laws::signed_numbers_are_read_within_their_bounds(0, id);
    assert(text_laws::zeros(0) + s =~= s);
    let none = Seq::<char>::empty();
    text_laws::trimming_finds_the_text(before, none, none);
    assert(before + none + none =~= before);
    assert(!number::is_number(none));
}

/// On Windows a line that tells of a listener on the port names the process that stands
/// at its end, whatever white space follows.
pub proof fn a_listener_names_its_process(
    port: u16,
    start: Seq<char>,
    middle: Seq<char>,
    state: Seq<char>,
    gap: Seq<char>,
    id: Seq<char>,
    after: Seq<char>,
)
    requires
        gap.len() > 0,
        text_laws::is_blank(gap),
        text_laws::is_blank(after),
        id.len() > 0,
        forall|j: int| 0 <= j < id.len() ==> !text::is_space(#[trigger] id[j]),
    ensures
        shutdown::leftover(
            Platform::Windows,
            port,
            start + (":"@ + number::decimal(port as nat)) + middle + "LISTENING"@ + state + gap + id
                + after,
        ) == Some(id),
{
    let mark = ":"@ + number::decimal(port as nat);
    let front = start + mark + middle + "LISTENING"@ + state;
    let line = front + gap + id + after;
    assert(line =~= start + mark + (middle + "LISTENING"@ + state + gap + id + after));
    text_laws::a_text_holds_what_stands_in_it(line, mark);
    assert(line =~= (start + mark + middle) + "LISTENING"@ + (state + gap + id + after));
    text_laws::a_text_holds_what_stands_in_it(line, "LISTENING"@);
    let tail = gap + (id + after);
    assert(tail[0] == gap[0]);
    text_laws::words_of_two_texts(front, tail);
    assert(line =~= front + tail);
    text::lemma_words_after_space(gap, id + after);
    text::lemma_first_word(id, after);
    text_laws::words_stand_between_white_space(after, id, Seq::empty());
    assert(text::words(tail) =~= seq![id]);
    assert(text::words(line).last() == id);
}

/// On Windows only a line that holds the mark of the port and tells of a listener names a
/// process.
pub proof fn only_listeners_are_named(port: u16, line: Seq<char>)
    ensures
        shutdown::leftover(Platform::Windows, port, line) is Some ==> text::holds(
            line,
            ":"@ + number::decimal(port as nat),
        ) && text::holds(line, "LISTENING"@),
        shutdown::leftover(Platform::Windows, port, line) matches Some(id)
            ==> text::words(line).len() > 0 && id == text::words(line).last(),
{
}

/// Every line is looked at by itself, and what the lines name is kept in their order.
pub proof fn every_line_is_looked_at(
    platform: Platform,
    port: u16,
    a: Seq<Seq<char>>,
    b: Seq<Seq<char>>,
    line: Seq<char>,
)
    ensures
        shutdown::leftovers(platform, port, a + b) == shutdown::leftovers(platform, port, a)
            + shutdown::leftovers(platform, port, b),
        shutdown::leftovers(platform, port, seq![line]) == (match shutdown::leftover(
            platform,
            port,
            line,
        ) {
            Some(id) => seq![id],
            None => Seq::<Seq<char>>::empty(),
        }),
        shutdown::leftovers(platform, port, Seq::<Seq<char>>::empty()).len() == 0,
    decreases b.len(),
{
    let none = Seq::<Seq<char>>::empty();
    assert(seq![line].drop_last() =~= none);
    assert(shutdown::leftovers(platform, port, none) =~= none);
    match shutdown::leftover(platform, port, line) {
        Some(id) => assert(none.push(id) =~= seq![id]),
        None => {},
    }
    if b.len() == 0 {
        assert(a + b =~= a);
        assert(b =~= none);
        assert(shutdown::leftovers(platform, port, a + b) =~= shutdown::leftovers(platform, port, a)
            + shutdown::leftovers(platform, port, b));
    } else {
        every_line_is_looked_at(platform, port, a, b.drop_last(), line);
        assert((a + b).drop_last() =~= a + b.drop_last());
        assert((a + b).last() == b.last());
        assert(shutdown::leftovers(platform, port, a + b) =~= shutdown::leftovers(platform, port, a)
            + shutdown::leftovers(platform, port, b));
    }
}

/// Every process that is left is stopped by a command of its own: on a Unix for good before
/// an update check, and with a chance to tidy up at the end of the application; on Windows
/// for good.
pub proof fn every_leftover_is_stopped<B>(
    platform: Platform,
    occasion: Occasion,
    ids: Seq<Seq<char>>,
    i: int,
)
    requires
        0 <= i < ids.len(),
    ensures
        ({
            let commands = shutdown::end_leftovers::<B>(platform, occasion, ids);
            &&& commands.len() == ids.len()
            &&& platform == Platform::Windows ==> commands[i] == (InvocationView::<B> {
                program: ArgView::Text("taskkill"@),
                args: seq![ArgView::Text("/F"@), ArgView::Text("/PID"@), ArgView::Text(ids[i])],
            })
            &&& platform != Platform::Windows ==> commands[i] == (InvocationView::<B> {
                program: ArgView::Text("kill"@),
                args: seq![
                    ArgView::Text(
                        if occasion == Occasion::Exit {
                            "-TERM"@
                        } else {
                            "-KILL"@
                        },
                    ),
                    ArgView::Text(ids[i]),
                ],
            })
        }),
{
}

} // verus!
