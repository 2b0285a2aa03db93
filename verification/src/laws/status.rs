//! What the status bar shows.
use crate::paint::{in_blue, in_blue_on_default, in_bold, in_dim, in_green, in_red};
use crate::status::{
    bar, count_where, erased, erasure, handles, header, index_of_name, is_bar_of, is_failed,
    is_finished, is_list_of, is_listed, is_rewritten, is_running, listed_before, most_lines,
    name_texts, node_lines, shown_name, widest, with_log, with_status, with_waiting, NodeStatusView, Screen,
    StatusView, UiMessage, WorkerView, FALLBACK_TERMINAL_COLS, FALLBACK_TERMINAL_ROWS,
};
use crate::terminal::fitted;
use crate::text::{byte_len, decimal, first_line, line_count, padded, text_le};
use vstd::prelude::*;
use vstd::utf8::encode_utf8;

verus! {

/// A node that failed is listed before one that is at work, that before one that waits, and that
/// before one that succeeded, whatever they are called. Of two nodes that do the same, the names
/// decide.
pub proof fn failures_are_listed_first(
    a: (Seq<char>, NodeStatusView),
    b: (Seq<char>, NodeStatusView),
)
    ensures
        a.1 is Failed && !(b.1 is Failed) ==> listed_before(a, b) && !listed_before(b, a),
        a.1 is Running && (b.1 is Pending || b.1 is Succeeded) ==> listed_before(a, b)
            && !listed_before(b, a),
        a.1 is Pending && b.1 is Succeeded ==> listed_before(a, b) && !listed_before(b, a),
        a.1 is Failed && b.1 is Failed || a.1 is Running && b.1 is Running || a.1 is Pending
            && b.1 is Pending ==> listed_before(a, b) == text_le(
            shown_name(a.0),
            shown_name(b.0),
        ),
{
}

/// Each status is shown by a word of its own, or by what the node is doing and what it logged
/// last, with the build that it comes from.
pub proof fn statuses_are_shown_as_they_are(
    status: Seq<char>,
    line: Seq<char>,
    build: Seq<char>,
)
    ensures
        NodeStatusView::Pending.rendered(false) == "Waiting"@,
        NodeStatusView::Succeeded.rendered(false) == "Succeeded"@,
        NodeStatusView::Failed.rendered(false) == "Failed"@,
        (NodeStatusView::Running { status, last_log: None }).rendered(false) == status,
        (NodeStatusView::Running { status, last_log: Some((line, None)) }).rendered(false)
            == status + " "@ + line,
        (NodeStatusView::Running { status, last_log: Some((line, Some(build))) }).rendered(false)
            == status + " "@ + build + "> "@ + line,
        NodeStatusView::Pending.rendered(true) == in_dim("Waiting"@),
        NodeStatusView::Succeeded.rendered(true) == in_green("Succeeded"@),
        NodeStatusView::Failed.rendered(true) == in_red("Failed"@),
        (NodeStatusView::Running { status, last_log: None }).rendered(true)
            == in_blue_on_default(status),
        (NodeStatusView::Running { status, last_log: Some((line, None)) }).rendered(true)
            == in_blue_on_default(status) + " "@ + line,
        (NodeStatusView::Running { status, last_log: Some((line, Some(build))) }).rendered(true)
            == in_blue_on_default(status) + " "@ + in_dim(build) + in_dim(">"@) + " "@ + line,
{
    reveal_strlit(">");
    reveal_strlit(" ");
    reveal_strlit("> ");
    assert(status + " "@ + build + ">"@ + " "@ + line =~= status + " "@ + build + "> "@ + line);
}

proof fn lemma_counted(
    statuses: Seq<(Seq<char>, NodeStatusView)>,
    kind: spec_fn(NodeStatusView) -> bool,
    same: spec_fn((Seq<char>, NodeStatusView)) -> bool,
)
    requires
        forall|entry: (Seq<char>, NodeStatusView)| #[trigger] same(entry) == kind(entry.1),
    ensures
        count_where(statuses, kind) == statuses.filter(same).len(),
    decreases statuses.len(),
{
    reveal(Seq::filter);
    if statuses.len() > 0 {
        lemma_counted(statuses.drop_last(), kind, same);
        assert(same(statuses.last()) == kind(statuses.last().1));
    }
}

/// The bar begins with how many nodes succeeded or failed, and how many there are. It tells how
/// many failed and how many are at work, where there are any, and how long it has been.
pub proof fn nodes_are_counted_by_status(
    statuses: Seq<(Seq<char>, NodeStatusView)>,
    seconds: nat,
)
    ensures
        ({
            let done = statuses.filter(
                |entry: (Seq<char>, NodeStatusView)| entry.1 is Succeeded || entry.1 is Failed,
            ).len();
            let failed = statuses.filter(
                |entry: (Seq<char>, NodeStatusView)| entry.1 is Failed,
            ).len();
            let running = statuses.filter(
                |entry: (Seq<char>, NodeStatusView)| entry.1 is Running,
            ).len();
            let start = "["@ + decimal(done) + " / "@ + decimal(statuses.len());
            let end = "] "@ + decimal(seconds) + "s"@;
            &&& failed == 0 && running == 0 ==> header(statuses, seconds, false) == start + end
                && header(statuses, seconds, true) == start + end
            &&& failed > 0 && running == 0 ==> header(statuses, seconds, false) == start + " ("@
                + decimal(failed) + " Failed)"@ + end && header(statuses, seconds, true) == start
                + " ("@ + in_red(decimal(failed)) + " Failed)"@ + end
            &&& failed == 0 && running > 0 ==> header(statuses, seconds, false) == start + " ("@
                + decimal(running) + " Deploying)"@ + end && header(statuses, seconds, true)
                == start + " ("@ + in_blue(decimal(running)) + " Deploying)"@ + end
            &&& failed > 0 && running > 0 ==> header(statuses, seconds, false) == start + " ("@
                + decimal(failed) + " Failed, "@ + decimal(running) + " Deploying)"@ + end
                && header(statuses, seconds, true) == start + " ("@ + in_red(decimal(failed))
                + " Failed, "@ + in_blue(decimal(running)) + " Deploying)"@ + end
        }),
{
    let done = |entry: (Seq<char>, NodeStatusView)| entry.1 is Succeeded || entry.1 is Failed;
    let failed = |entry: (Seq<char>, NodeStatusView)| entry.1 is Failed;
    let running = |entry: (Seq<char>, NodeStatusView)| entry.1 is Running;
    lemma_counted(statuses, is_finished(), done);
    lemma_counted(statuses, is_failed(), failed);
    lemma_counted(statuses, is_running(), running);
    reveal_strlit("[");
    reveal_strlit(" / ");
    reveal_strlit(" (");
    reveal_strlit(")");
    reveal_strlit("]");
    reveal_strlit("] ");
    reveal_strlit(" ");
    reveal_strlit("s");
    reveal_strlit(", ");
    reveal_strlit("");
    reveal_strlit(" Failed");
    reveal_strlit(" Failed)");
    reveal_strlit(" Failed, ");
    reveal_strlit(" Deploying");
    reveal_strlit(" Deploying)");
    lemma_header(statuses, seconds, false);
    lemma_header(statuses, seconds, true);
}

proof fn lemma_header(statuses: Seq<(Seq<char>, NodeStatusView)>, seconds: nat, colors: bool)
    ensures
        ({
            let failed = count_where(statuses, is_failed());
            let running = count_where(statuses, is_running());
            let failed_text = if colors {
                in_red(decimal(failed))
            } else {
                decimal(failed)
            };
            let running_text = if colors {
                in_blue(decimal(running))
            } else {
                decimal(running)
            };
            let start = "["@ + decimal(count_where(statuses, is_finished())) + " / "@ + decimal(
                statuses.len(),
            );
            let end = "] "@ + decimal(seconds) + "s"@;
            header(statuses, seconds, colors) == if failed == 0 && running == 0 {
                start + end
            } else if running == 0 {
                start + " ("@ + failed_text + " Failed)"@ + end
            } else if failed == 0 {
                start + " ("@ + running_text + " Deploying)"@ + end
            } else {
                start + " ("@ + failed_text + " Failed, "@ + running_text + " Deploying)"@ + end
            }
        }),
{
    reveal_strlit(")");
    reveal_strlit("]");
    reveal_strlit("] ");
    reveal_strlit(" ");
    reveal_strlit(", ");
    reveal_strlit("");
    reveal_strlit(" Failed");
    reveal_strlit(" Failed)");
    reveal_strlit(" Failed, ");
    reveal_strlit(" Deploying");
    reveal_strlit(" Deploying)");
    assert(" Failed"@ + ")"@ =~= " Failed)"@);
    assert(" Failed"@ + ", "@ =~= " Failed, "@);
    assert(" Deploying"@ + ")"@ =~= " Deploying)"@);
    assert("]"@ + " "@ =~= "] "@);
    let failed = count_where(statuses, is_failed());
    let running = count_where(statuses, is_running());
    let failed_text = if colors {
        in_red(decimal(failed))
    } else {
        decimal(failed)
    };
    let running_text = if colors {
        in_blue(decimal(running))
    } else {
        decimal(running)
    };
    let start = "["@ + decimal(count_where(statuses, is_finished())) + " / "@ + decimal(
        statuses.len(),
    );
    let end = "] "@ + decimal(seconds) + "s"@;
    if failed == 0 && running == 0 {
        assert(header(statuses, seconds, colors) =~= start + end);
    } else if running == 0 {
        assert(header(statuses, seconds, colors) =~= start + " ("@ + failed_text + " Failed)"@
            + end);
    } else if failed == 0 {
        assert(header(statuses, seconds, colors) =~= start + " ("@ + running_text
            + " Deploying)"@ + end);
    } else {
        assert(header(statuses, seconds, colors) =~= start + " ("@ + failed_text + " Failed, "@
            + running_text + " Deploying)"@ + end);
    }
}

/// A name of up to twenty bytes is shown whole, a longer one by its first twenty characters and
/// three dots.
pub proof fn long_names_are_cut(name: Seq<char>)
    ensures
        byte_len(name) <= 20 ==> shown_name(name) == name,
        byte_len(name) > 20 && name.len() >= 20 ==> shown_name(name) == name.take(20) + "..."@,
        byte_len(name) > 20 && name.len() < 20 ==> shown_name(name) == name + "..."@,
{
    assert(name.take(name.len() as int) =~= name);
}

proof fn lemma_first(statuses: Seq<(Seq<char>, NodeStatusView)>, name: Seq<char>, from: int)
    requires
        0 <= from <= statuses.len(),
    ensures
        from <= index_of_name(statuses, name, from) <= statuses.len(),
        index_of_name(statuses, name, from) < statuses.len() ==> statuses[index_of_name(
            statuses,
            name,
            from,
        )].0 == name,
        forall|i: int|
            from <= i < index_of_name(statuses, name, from) ==> (#[trigger] statuses[i]).0
                != name,
    decreases statuses.len() - from,
{
    if from < statuses.len() && statuses[from].0 != name {
        lemma_first(statuses, name, from + 1);
    }
}

/// Setting the status of a node sets that of no other. A node that is not known yet joins behind
/// those that are.
pub proof fn one_status_is_set(
    statuses: Seq<(Seq<char>, NodeStatusView)>,
    at: int,
    name: Seq<char>,
    status: NodeStatusView,
)
    requires
        0 <= at < statuses.len(),
        forall|i: int, j: int|
            0 <= i < j < statuses.len() ==> (#[trigger] statuses[i]).0
                != (#[trigger] statuses[j]).0,
    ensures
        with_status(statuses, statuses[at].0, status) == statuses.update(
            at,
            (statuses[at].0, status),
        ),
        (forall|i: int| 0 <= i < statuses.len() ==> (#[trigger] statuses[i]).0 != name)
            ==> with_status(statuses, name, status) == statuses.push((name, status)),
{
    lemma_first(statuses, statuses[at].0, 0);
    let found = index_of_name(statuses, statuses[at].0, 0);
    if found < at {
        assert(statuses[found].0 != statuses[at].0);
    }
    lemma_first(statuses, name, 0);
}

/// The first node joins an empty bar, and nodes that are added wait, one after the other.
pub proof fn added_nodes_wait(
    statuses: Seq<(Seq<char>, NodeStatusView)>,
    names: Seq<Seq<char>>,
    name: Seq<char>,
    status: NodeStatusView,
)
    ensures
        with_status(Seq::empty(), name, status) == seq![(name, status)],
        with_waiting(statuses, Seq::empty()) == statuses,
        with_waiting(statuses, names.push(name)) == with_status(
            with_waiting(statuses, names),
            name,
            NodeStatusView::Pending,
        ),
{
    assert(names.push(name).drop_last() =~= names);
    assert(Seq::<(Seq<char>, NodeStatusView)>::empty().push((name, status)) =~= seq![
        (name, status),
    ]);
}

/// What a node logs is shown by its first line while the node is at work, beside what it is
/// doing, and only there. A node that is not at work shows nothing of it.
pub proof fn logs_are_shown_of_nodes_at_work(
    statuses: Seq<(Seq<char>, NodeStatusView)>,
    at: int,
    build: Option<Seq<char>>,
    log: Seq<char>,
    name: Seq<char>,
)
    requires
        0 <= at < statuses.len(),
        forall|i: int, j: int|
            0 <= i < j < statuses.len() ==> (#[trigger] statuses[i]).0
                != (#[trigger] statuses[j]).0,
    ensures
        !(statuses[at].1 is Running) ==> with_log(statuses, statuses[at].0, build, log)
            == statuses,
        (forall|i: int| 0 <= i < statuses.len() ==> (#[trigger] statuses[i]).0 != name)
            ==> with_log(statuses, name, build, log) == statuses,
        statuses[at].1 is Running ==> ({
            let after = with_log(statuses, statuses[at].0, build, log);
            &&& after.len() == statuses.len()
            &&& forall|i: int|
                0 <= i < statuses.len() && i != at ==> #[trigger] after[i] == statuses[i]
            &&& after[at].0 == statuses[at].0
            &&& after[at].1 is Running
            &&& after[at].1->status == statuses[at].1->status
            &&& match first_line(log) {
                Some(line) => after[at].1->last_log == Some((line, build)),
                None => after[at].1->last_log is None,
            }
        }),
{
    lemma_first(statuses, statuses[at].0, 0);
    let found = index_of_name(statuses, statuses[at].0, 0);
    if found < at {
        assert(statuses[found].0 != statuses[at].0);
    }
    lemma_first(statuses, name, 0);
}

/// A node is in the list if and only if it has not succeeded.
pub proof fn nodes_are_listed_until_they_succeed(
    list: Seq<(Seq<char>, NodeStatusView)>,
    statuses: Seq<(Seq<char>, NodeStatusView)>,
    entry: (Seq<char>, NodeStatusView),
)
    requires
        is_list_of(list, statuses),
    ensures
        list.contains(entry) <==> statuses.contains(entry) && !(entry.1 is Succeeded),
        list.len() == statuses.filter(
            |entry: (Seq<char>, NodeStatusView)| !(entry.1 is Succeeded),
        ).len(),
        forall|i: int, j: int|
            0 <= i < j < list.len() && (#[trigger] list[j]).1 is Failed ==> (#[trigger] list[i]).1
                is Failed,
        forall|i: int, j: int|
            0 <= i < j < list.len() && (#[trigger] list[i]).1 is Pending ==> (
            #[trigger] list[j]).1 is Pending,
{
    let kept = statuses.filter(is_listed());
    broadcast use vstd::seq_lib::group_to_multiset_ensures;

    list.to_multiset_ensures();
    kept.to_multiset_ensures();
    assert(list.contains(entry) <==> list.to_multiset().count(entry) > 0);
    assert(kept.contains(entry) <==> kept.to_multiset().count(entry) > 0);
    if kept.contains(entry) {
        let i = choose|i: int| 0 <= i < kept.len() && kept[i] == entry;
        statuses.lemma_filter_pred(is_listed(), i);
        statuses.lemma_filter_contains_rev(is_listed(), entry);
    }
    if statuses.contains(entry) && !(entry.1 is Succeeded) {
        let i = choose|i: int| 0 <= i < statuses.len() && statuses[i] == entry;
        statuses.lemma_filter_contains(is_listed(), i);
    }
    assert(is_listed() =~= (|entry: (Seq<char>, NodeStatusView)| !(entry.1 is Succeeded)));
    assert forall|i: int, j: int|
        0 <= i < j < list.len() && (#[trigger] list[j]).1 is Failed implies (
    #[trigger] list[i]).1 is Failed by {
        assert(listed_before(list[i], list[j]));
    }
    assert forall|i: int, j: int|
        0 <= i < j < list.len() && (#[trigger] list[i]).1 is Pending implies (
    #[trigger] list[j]).1 is Pending by {
        assert(listed_before(list[i], list[j]));
        assert(list.contains(list[j]));
        assert(kept.to_multiset().count(list[j]) > 0);
        assert(kept.contains(list[j]));
        let k = choose|k: int| 0 <= k < kept.len() && kept[k] == list[j];
        statuses.lemma_filter_pred(is_listed(), k);
    }
}

/// The column of names is as wide as the longest of them.
pub proof fn columns_fit_their_names(list: Seq<(Seq<char>, NodeStatusView)>)
    ensures
        forall|i: int|
            0 <= i < list.len() ==> byte_len(shown_name(#[trigger] list[i].0)) <= widest(list),
        list.len() == 0 ==> widest(list) == 0,
        list.len() > 0 ==> exists|i: int|
            0 <= i < list.len() && byte_len(shown_name(#[trigger] list[i].0)) == widest(list),
    decreases list.len(),
{
    if list.len() > 0 {
        let rest = list.drop_last();
        columns_fit_their_names(rest);
        assert forall|i: int| 0 <= i < list.len() implies byte_len(
            shown_name(#[trigger] list[i].0),
        ) <= widest(list) by {
            if i < rest.len() {
                assert(rest[i].0 == list[i].0);
            }
        }
        if widest(list) == widest(rest) && rest.len() > 0 {
            let i = choose|i: int|
                0 <= i < rest.len() && byte_len(shown_name(#[trigger] rest[i].0)) == widest(rest);
            assert(list[i].0 == rest[i].0);
        } else {
            assert(list[list.len() - 1].0 == list.last().0);
        }
    }
}

/// A node has a line of its own: its name in a column, and its status.
pub proof fn nodes_have_lines_of_their_own(
    list: Seq<(Seq<char>, NodeStatusView)>,
    count: nat,
    columns: nat,
    column: Seq<char>,
)
    requires
        count < list.len(),
        column == padded(
            shown_name(list[count as int].0),
            (widest(list) - byte_len(shown_name(list[count as int].0))) as nat,
        ),
    ensures
        node_lines(list, 0, columns, true) == Seq::<char>::empty(),
        node_lines(list, 0, columns, false) == Seq::<char>::empty(),
        node_lines(list, count + 1, columns, true) == node_lines(list, count, columns, true)
            + fitted(
            "\n  "@ + in_bold(column) + " "@ + list[count as int].1.rendered(true),
            columns,
            "..."@,
        ),
        node_lines(list, count + 1, columns, false) == node_lines(list, count, columns, false)
            + fitted(
            "\n  "@ + column + " "@ + list[count as int].1.rendered(false),
            columns,
            "..."@,
        ),
{
}

/// The bar takes no more than half of the terminal, and as much of it as that allows. Where not
/// every node has room, it ends with how many more there are.
pub proof fn bars_take_half_of_the_terminal(
    statuses: Seq<(Seq<char>, NodeStatusView)>,
    list: Seq<(Seq<char>, NodeStatusView)>,
    rows: nat,
    columns: nat,
    seconds: nat,
    colors: bool,
    shown: nat,
)
    requires
        rows >= 1,
        2 * shown + 1 <= rows <= 2 * shown + 2,
    ensures
        list.len() <= shown ==> bar(statuses, list, rows, columns, seconds, colors) == fitted(
            header(statuses, seconds, colors),
            columns,
            "..."@,
        ) + node_lines(list, list.len(), columns, colors),
        list.len() > shown ==> bar(statuses, list, rows, columns, seconds, colors) == fitted(
            header(statuses, seconds, colors),
            columns,
            "..."@,
        ) + node_lines(list, shown, columns, colors) + "\n  ... and "@ + decimal(
            (list.len() - shown) as nat,
        ) + " more"@,
        is_bar_of(Seq::empty(), Seq::empty(), rows, columns, seconds, colors),
{
    reveal_strlit("");
    assert(most_lines(rows) == shown);
    let start = fitted(header(statuses, seconds, colors), columns, "..."@);
    let lines = node_lines(list, shown, columns, colors);
    let left = decimal((list.len() - shown) as nat);
    if list.len() > shown {
        assert(start + lines + ("\n  ... and "@ + left + " more"@) =~= start + lines
            + "\n  ... and "@ + left + " more"@);
    } else {
        let all = node_lines(list, list.len(), columns, colors);
        assert(start + all + ""@ =~= start + all);
    }
}

/// Erasing a bar clears the line that the cursor is in, and for each line that the bar reaches
/// up, moves up and clears that one.
pub proof fn bars_are_erased_line_by_line(lines: nat)
    ensures
        erasure(0) == "\r\x1b[2K"@,
        erasure(lines + 1) == "\r\x1b[2K\x1b[1A"@ + erasure(lines),
{
    reveal_strlit("\r");
    reveal_strlit("\x1b[2K");
    reveal_strlit("\x1b[1A");
    reveal_strlit("\r\x1b[2K");
    reveal_strlit("\r\x1b[2K\x1b[1A");
    assert("\r"@ + "\x1b[2K"@ =~= "\r\x1b[2K"@);
    assert("\r"@ + "\x1b[2K"@ + "\x1b[1A"@ =~= "\r\x1b[2K\x1b[1A"@);
}

/// A hidden bar writes nothing. A shown one reaches up by one line less than it has.
pub proof fn hidden_bars_write_nothing(
    before: StatusView,
    after: StatusView,
    written: Seq<u8>,
    screen: Screen,
)
    requires
        is_rewritten(before, after, written, screen),
    ensures
        !before.show_progress ==> erased(before).len() == 0 && written.len() == 0 && after
            == before,
        before.show_progress ==> erased(before) == encode_utf8(
            erasure(before.previous_number_lines),
        ) && written == encode_utf8(after.buffer),
        after.show_progress == before.show_progress,
        after.statuses == before.statuses,
        before.show_progress && line_count(after.buffer) >= 1 ==> after.previous_number_lines + 1
            == line_count(after.buffer),
        before.show_progress && line_count(after.buffer) == 0 ==> after.previous_number_lines
            == 0,
        before.show_progress && before.statuses.len() == 0 ==> after.buffer.len() == 0,
        before.show_progress && before.statuses.len() > 0 ==> exists|
            list: Seq<(Seq<char>, NodeStatusView)>,
        |
            #[trigger] is_list_of(list, before.statuses) && after.buffer == bar(
                before.statuses,
                list,
                screen.rows as nat,
                screen.cols as nat,
                screen.seconds as nat,
                screen.colors,
            ),
{
}

/// What nodes are told of changes the nodes alone, and writes nothing: a node that is added
/// waits, and the status of a node is the one that was told last.
pub proof fn news_of_nodes_write_nothing(
    before: WorkerView,
    message: UiMessage,
    after: WorkerView,
    written: Seq<u8>,
    screen: Screen,
)
    requires
        handles(before, message, after, written, screen),
        message is AddMany || message is SetStatus || message is ContextLogLine,
    ensures
        written.len() == 0,
        after.log_queue == before.log_queue,
        after.taken_over == before.taken_over,
        after.status.show_progress == before.status.show_progress,
        after.status.buffer == before.status.buffer,
        after.status.previous_number_lines == before.status.previous_number_lines,
        message is AddMany ==> after.status.statuses == with_waiting(
            before.status.statuses,
            Seq::new(message->AddMany_0@.len(), |i: int| message->AddMany_0@[i]@),
        ),
        message is SetStatus ==> after.status.statuses == with_status(
            before.status.statuses,
            message->SetStatus_0@,
            message->SetStatus_1@,
        ),
        message is ContextLogLine && message->build_name is None ==> after.status.statuses
            == with_log(before.status.statuses, message->ContextLogLine_name@, None, message->log@),
        message is ContextLogLine && message->build_name is Some ==> after.status.statuses
            == with_log(
            before.status.statuses,
            message->ContextLogLine_name@,
            Some(message->build_name->0@),
            message->log@,
        ),
{
    if message is AddMany {
        assert(name_texts(message->AddMany_0@) =~= Seq::new(
            message->AddMany_0@.len(),
            |i: int| message->AddMany_0@[i]@,
        ));
    }
}

/// Taking over the terminal erases the bar and holds lines back, giving it back writes the lines
/// that were held and the bar, and clearing erases the bar and changes nothing.
pub proof fn terminals_are_taken_over_and_given_back(
    before: WorkerView,
    after: WorkerView,
    written: Seq<u8>,
    screen: Screen,
)
    ensures
        handles(before, UiMessage::Takeover, after, written, screen) ==> after.taken_over
            && after.log_queue == before.log_queue && after.status == before.status && written
            == erased(before.status),
        handles(before, UiMessage::Clear, after, written, screen) ==> after == before && written
            == erased(before.status),
        handles(before, UiMessage::Release, after, written, screen) ==> !after.taken_over
            && after.log_queue.len() == 0 && exists|bar: Seq<u8>| #[trigger]
            is_rewritten(before.status, after.status, bar, screen) && written
                == before.log_queue.flatten() + bar,
{
}

/// A line is written above the bar: the bar is erased, the line is written, and then the bar. It
/// waits while the terminal is taken over.
pub proof fn lines_are_written_above_the_bar(
    before: WorkerView,
    line: Vec<u8>,
    after: WorkerView,
    written: Seq<u8>,
    screen: Screen,
)
    requires
        handles(before, UiMessage::LogLine(line), after, written, screen),
    ensures
        before.taken_over ==> written.len() == 0 && after.taken_over && after.status
            == before.status && after.log_queue == before.log_queue.push(line@),
        !before.taken_over ==> !after.taken_over && after.log_queue.len() == 0,
        !before.taken_over && before.log_queue.len() == 0 ==> exists|bar: Seq<u8>| #[trigger]
            is_rewritten(before.status, after.status, bar, screen) && written == erased(
                before.status,
            ) + line@ + bar,
        !before.taken_over && before.log_queue.len() == 0 && !before.status.show_progress
            ==> written == line@,
{
    if !before.taken_over && before.log_queue.len() == 0 {
        assert(before.log_queue =~= Seq::<Seq<u8>>::empty());
        assert(before.log_queue.flatten() =~= Seq::<u8>::empty());
        let bar = choose|bar: Seq<u8>| #[trigger]
            is_rewritten(before.status, after.status, bar, screen) && written == erased(
                before.status,
            ) + before.log_queue.flatten() + line@ + bar;
        assert(erased(before.status) + Seq::<u8>::empty() + line@ + bar =~= erased(before.status)
            + line@ + bar);
        assert(is_rewritten(before.status, after.status, bar, screen));
        if !before.status.show_progress {
            assert(written =~= line@);
        }
    }
}

/// A terminal whose size is not known is taken to be of the usual size.
pub proof fn unknown_terminals_are_of_the_usual_size()
    ensures
        FALLBACK_TERMINAL_ROWS == 24,
        FALLBACK_TERMINAL_COLS == 100,
{
}

} // verus!
