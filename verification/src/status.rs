//! The status bar: what every node is doing, below the log.
use crate::hive::node::Name;
use crate::paint::{
    blue, blue_on_default, bold, dimmed, green, in_blue, in_blue_on_default, in_bold, in_dim,
    in_green, in_red, red,
};
use crate::terminal::{clear_line, fit, fitted, line_cleared, line_up, one_line_up};
use crate::text::{
    byte_len, chars_of, count_lines, decimal, decimal_of, first_line, le, len_in_bytes,
    line_count, line_of_text, pad, padded, text_between, text_le, text_le_is_total,
    text_le_is_transitive,
};
use std::collections::VecDeque;
use vstd::prelude::*;
use vstd::utf8::encode_utf8;

verus! {

/// What a node is doing. Statuses are ordered deliberately such that failed nodes are at the top
/// of the list and succeeded nodes are at the bottom, where they are never shown.
#[derive(Debug)]
pub enum NodeStatus {
    Failed,
    Running {
        status: String,
        /// The line that was logged last, with the name of the build that it belongs to.
        last_log: Option<(String, Option<String>)>,
    },
    Pending,
    Succeeded,
}

/// What a status holds.
#[verifier::ext_equal]
pub ghost enum NodeStatusView {
    Failed,
    Running { status: Seq<char>, last_log: Option<(Seq<char>, Option<Seq<char>>)> },
    Pending,
    Succeeded,
}

/// What a logged line holds, where there is one.
pub open spec fn log_view(
    last_log: Option<(String, Option<String>)>,
) -> Option<(Seq<char>, Option<Seq<char>>)> {
    match last_log {
        Some((line, Some(build))) => Some((line@, Some(build@))),
        Some((line, None)) => Some((line@, None)),
        None => None,
    }
}

impl View for NodeStatus {
    type V = NodeStatusView;

    open spec fn view(&self) -> NodeStatusView {
        match *self {
            NodeStatus::Failed => NodeStatusView::Failed,
            NodeStatus::Running { status, last_log } => NodeStatusView::Running {
                status: status@,
                last_log: log_view(last_log),
            },
            NodeStatus::Pending => NodeStatusView::Pending,
            NodeStatus::Succeeded => NodeStatusView::Succeeded,
        }
    }
}

impl Default for NodeStatus {
    fn default() -> (r: Self)
        ensures
            r@ == NodeStatusView::Pending,
    {
        NodeStatus::Pending
    }
}

impl NodeStatusView {
    /// The place of a status in the list.
    pub open spec fn rank(self) -> u16 {
        match self {
            NodeStatusView::Failed => 0,
            NodeStatusView::Running { .. } => 1,
            NodeStatusView::Pending => 2,
            NodeStatusView::Succeeded => 3,
        }
    }

    /// How a status is shown.
    pub open spec fn rendered(self, colors: bool) -> Seq<char> {
        match self {
            NodeStatusView::Pending => tinted(colors, in_dim("Waiting"@), "Waiting"@),
            NodeStatusView::Running { status, last_log } => {
                let doing = tinted(colors, in_blue_on_default(status), status);
                match last_log {
                    None => doing,
                    Some((line, None)) => doing + " "@ + line,
                    Some((line, Some(build))) => doing + " "@ + tinted(
                        colors,
                        in_dim(build),
                        build,
                    ) + tinted(colors, in_dim(">"@), ">"@) + " "@ + line,
                }
            },
            NodeStatusView::Succeeded => tinted(colors, in_green("Succeeded"@), "Succeeded"@),
            NodeStatusView::Failed => tinted(colors, in_red("Failed"@), "Failed"@),
        }
    }
}

/// The painted text where colors are supported, else the plain one.
pub open spec fn tinted(colors: bool, painted: Seq<char>, plain: Seq<char>) -> Seq<char> {
    if colors {
        painted
    } else {
        plain
    }
}

impl NodeStatus {
    /// The place of the status in the list. What a node logs changes rapidly and does not count.
    pub fn discriminant(&self) -> (r: u16)
        ensures
            r == self@.rank(),
    {
        match self {
            NodeStatus::Failed => 0,
            NodeStatus::Running { .. } => 1,
            NodeStatus::Pending => 2,
            NodeStatus::Succeeded => 3,
        }
    }

    /// The status as it is shown.
    pub fn render(&self, colors: bool) -> (s: String)
        ensures
            s@ == self@.rendered(colors),
    {
        match self {
            NodeStatus::Pending => if colors {
                dimmed("Waiting")
            } else {
                "Waiting".to_owned()
            },
            NodeStatus::Running { status, last_log } => {
                let mut s = if colors {
                    blue_on_default(status.as_str())
                } else {
                    status.clone()
                };
                if let Some((line, build)) = last_log {
                    s.push_str(" ");
                    if let Some(build) = build {
                        if colors {
                            s.push_str(dimmed(build.as_str()).as_str());
                            s.push_str(dimmed(">").as_str());
                        } else {
                            s.push_str(build.as_str());
                            s.push_str(">");
                        }
                        s.push_str(" ");
                    }
                    s.push_str(line.as_str());
                }
                s
            },
            NodeStatus::Succeeded => if colors {
                green("Succeeded")
            } else {
                "Succeeded".to_owned()
            },
            NodeStatus::Failed => if colors {
                red("Failed")
            } else {
                "Failed".to_owned()
            },
        }
    }
}

/// How many nodes are done, at work and failed. A node that failed is done.
#[derive(Clone, Copy, Debug, PartialEq, Eq, Structural)]
pub struct NumStatusCount {
    pub finished: usize,
    pub running: usize,
    pub failed: usize,
}

/// The status bar.
#[derive(Debug)]
pub struct Status {
    statuses: Vec<(Name, NodeStatus)>,
    show_progress: bool,
    previous_number_lines: usize,
    buffer: String,
}

/// What the status bar holds: the status of each node in the order in which the nodes joined,
/// whether it is shown, how far it reaches up, and its text.
#[verifier::ext_equal]
pub ghost struct StatusView {
    pub statuses: Seq<(Seq<char>, NodeStatusView)>,
    pub show_progress: bool,
    pub previous_number_lines: nat,
    pub buffer: Seq<char>,
}

/// The names and statuses of nodes.
pub open spec fn entries(statuses: Seq<(Name, NodeStatus)>) -> Seq<(Seq<char>, NodeStatusView)> {
    statuses.map_values(|entry: (Name, NodeStatus)| (entry.0@, entry.1@))
}

/// Whether no name stands for two nodes.
pub open spec fn names_are_distinct(statuses: Seq<(Seq<char>, NodeStatusView)>) -> bool {
    forall|i: int, j: int|
        0 <= i < j < statuses.len() ==> (#[trigger] statuses[i]).0 != (#[trigger] statuses[j]).0
}

/// The index of the node with the given name from `from` on, or the number of nodes where there
/// is none.
pub open spec fn index_of_name(
    statuses: Seq<(Seq<char>, NodeStatusView)>,
    name: Seq<char>,
    from: int,
) -> int
    decreases statuses.len() - from,
{
    if from >= statuses.len() || statuses[from].0 == name {
        from
    } else {
        index_of_name(statuses, name, from + 1)
    }
}

/// The nodes with the status of one of them set. A node that is new joins behind the others.
pub open spec fn with_status(
    statuses: Seq<(Seq<char>, NodeStatusView)>,
    name: Seq<char>,
    status: NodeStatusView,
) -> Seq<(Seq<char>, NodeStatusView)> {
    let i = index_of_name(statuses, name, 0);
    if i < statuses.len() {
        statuses.update(i, (name, status))
    } else {
        statuses.push((name, status))
    }
}

/// The nodes with each of the named ones waiting.
pub open spec fn with_waiting(
    statuses: Seq<(Seq<char>, NodeStatusView)>,
    names: Seq<Seq<char>>,
) -> Seq<(Seq<char>, NodeStatusView)>
    decreases names.len(),
{
    if names.len() == 0 {
        statuses
    } else {
        with_status(
            with_waiting(statuses, names.drop_last()),
            names.last(),
            NodeStatusView::Pending,
        )
    }
}

/// The texts of names.
pub open spec fn name_texts(names: Seq<Name>) -> Seq<Seq<char>> {
    names.map_values(|name: Name| name@)
}

/// How many of the nodes have a status of the given kind.
pub open spec fn count_where(
    statuses: Seq<(Seq<char>, NodeStatusView)>,
    kind: spec_fn(NodeStatusView) -> bool,
) -> nat
    decreases statuses.len(),
{
    if statuses.len() == 0 {
        0
    } else {
        count_where(statuses.drop_last(), kind) + if kind(statuses.last().1) {
            1nat
        } else {
            0
        }
    }
}

/// Whether a node is done.
pub open spec fn is_finished() -> spec_fn(NodeStatusView) -> bool {
    |status: NodeStatusView| status is Succeeded || status is Failed
}

/// Whether a node is at work.
pub open spec fn is_running() -> spec_fn(NodeStatusView) -> bool {
    |status: NodeStatusView| status is Running
}

/// Whether a node failed.
pub open spec fn is_failed() -> spec_fn(NodeStatusView) -> bool {
    |status: NodeStatusView| status is Failed
}

/// The first line of the bar.
pub open spec fn header(
    statuses: Seq<(Seq<char>, NodeStatusView)>,
    seconds: nat,
    colors: bool,
) -> Seq<char> {
    let failed = count_where(statuses, is_failed());
    let running = count_where(statuses, is_running());
    let failed_text = tinted(colors, in_red(decimal(failed)), decimal(failed)) + " Failed"@;
    let running_text = tinted(colors, in_blue(decimal(running)), decimal(running))
        + " Deploying"@;
    "["@ + decimal(count_where(statuses, is_finished())) + " / "@ + decimal(statuses.len()) + (
    if failed >= 1 && running >= 1 {
        " ("@ + failed_text + ", "@ + running_text + ")"@
    } else if failed >= 1 {
        " ("@ + failed_text + ")"@
    } else if running >= 1 {
        " ("@ + running_text + ")"@
    } else {
        ""@
    }) + "]"@ + " "@ + decimal(seconds) + "s"@
}

/// How many bytes of a name are shown before it is cut.
pub const MAX_NODE_NAME_LENGTH: usize = 20;

/// The rows of a terminal whose size is not known.
pub const FALLBACK_TERMINAL_ROWS: usize = 24;

/// The columns of a terminal whose size is not known.
pub const FALLBACK_TERMINAL_COLS: usize = 100;

/// The name as it is shown: a long name is cut.
pub open spec fn shown_name(name: Seq<char>) -> Seq<char> {
    if byte_len(name) <= MAX_NODE_NAME_LENGTH {
        name
    } else {
        name.take(
            if name.len() < MAX_NODE_NAME_LENGTH {
                name.len() as int
            } else {
                MAX_NODE_NAME_LENGTH as int
            },
        ) + "..."@
    }
}

/// The order of the list: by status, then by name.
pub open spec fn listed_before(
    a: (Seq<char>, NodeStatusView),
    b: (Seq<char>, NodeStatusView),
) -> bool {
    a.1.rank() < b.1.rank() || a.1.rank() == b.1.rank() && text_le(shown_name(a.0), shown_name(b.0))
}

/// Whether `list` is the list of the nodes that have not succeeded, in order.
pub open spec fn is_list_of(
    list: Seq<(Seq<char>, NodeStatusView)>,
    statuses: Seq<(Seq<char>, NodeStatusView)>,
) -> bool {
    &&& list.to_multiset() =~= statuses.filter(is_listed()).to_multiset()
    &&& forall|i: int, j: int|
        0 <= i < j < list.len() ==> listed_before(#[trigger] list[i], #[trigger] list[j])
}

/// The most bytes that a shown name takes.
pub open spec fn widest(list: Seq<(Seq<char>, NodeStatusView)>) -> nat
    decreases list.len(),
{
    if list.len() == 0 {
        0
    } else {
        let rest = widest(list.drop_last());
        let last = byte_len(shown_name(list.last().0));
        if last > rest {
            last
        } else {
            rest
        }
    }
}

/// The line of a node.
pub open spec fn node_line(
    entry: (Seq<char>, NodeStatusView),
    widest: nat,
    columns: nat,
    colors: bool,
) -> Seq<char> {
    let name = shown_name(entry.0);
    let column = padded(name, (widest - byte_len(name)) as nat);
    fitted(
        "\n  "@ + tinted(colors, in_bold(column), column) + " "@ + entry.1.rendered(colors),
        columns,
        "..."@,
    )
}

/// The lines of the first nodes of the list.
pub open spec fn node_lines(
    list: Seq<(Seq<char>, NodeStatusView)>,
    count: nat,
    columns: nat,
    colors: bool,
) -> Seq<char>
    decreases count,
{
    if count == 0 {
        Seq::empty()
    } else {
        node_lines(list, (count - 1) as nat, columns, colors) + node_line(
            list[count - 1],
            widest(list),
            columns,
            colors,
        )
    }
}

/// How many nodes a terminal of the given height lists: half of it, so that the bar does not
/// overflow.
pub open spec fn most_lines(rows: nat) -> nat {
    if rows <= 2 {
        0
    } else {
        ((rows - 1) / 2) as nat
    }
}

/// The text of the bar, given the list of nodes.
pub open spec fn bar(
    statuses: Seq<(Seq<char>, NodeStatusView)>,
    list: Seq<(Seq<char>, NodeStatusView)>,
    rows: nat,
    columns: nat,
    seconds: nat,
    colors: bool,
) -> Seq<char> {
    let shown = if list.len() < most_lines(rows) {
        list.len()
    } else {
        most_lines(rows)
    };
    fitted(header(statuses, seconds, colors), columns, "..."@) + node_lines(
        list,
        shown,
        columns,
        colors,
    ) + if list.len() > shown {
        "\n  ... and "@ + decimal((list.len() - shown) as nat) + " more"@
    } else {
        ""@
    }
}

/// Whether `text` is the bar of the given nodes. Without nodes there is none.
pub open spec fn is_bar_of(
    text: Seq<char>,
    statuses: Seq<(Seq<char>, NodeStatusView)>,
    rows: nat,
    columns: nat,
    seconds: nat,
    colors: bool,
) -> bool {
    if statuses.len() == 0 {
        text.len() == 0
    } else {
        exists|list: Seq<(Seq<char>, NodeStatusView)>| #[trigger]
            is_list_of(list, statuses) && text == bar(
                statuses,
                list,
                rows,
                columns,
                seconds,
                colors,
            )
    }
}

/// What erases a bar that reaches up by so many lines.
pub open spec fn erasure(lines: nat) -> Seq<char>
    decreases lines,
{
    if lines == 0 {
        "\r"@ + line_cleared()
    } else {
        "\r"@ + line_cleared() + one_line_up() + erasure((lines - 1) as nat)
    }
}

impl View for Status {
    type V = StatusView;

    closed spec fn view(&self) -> StatusView {
        StatusView {
            statuses: entries(self.statuses@),
            show_progress: self.show_progress,
            previous_number_lines: self.previous_number_lines as nat,
            buffer: self.buffer@,
        }
    }
}

/// The name as it is shown.
fn truncate_name(name: &str) -> (s: String)
    ensures
        s@ == shown_name(name@),
{
    if len_in_bytes(name) <= MAX_NODE_NAME_LENGTH {
        return name.to_owned();
    }
    let v = chars_of(name);
    let end: usize = if v.len() < MAX_NODE_NAME_LENGTH {
        v.len()
    } else {
        MAX_NODE_NAME_LENGTH
    };
    let mut s = text_between(&v, 0, end);
    assert(v@.subrange(0, end as int) =~= v@.take(end as int));
    s.push_str("...");
    s
}

impl Status {
    /// No name stands for two nodes.
    pub open spec fn wf(&self) -> bool {
        names_are_distinct(self@.statuses)
    }

    /// A bar without nodes, which is not shown.
    pub fn new() -> (r: Self)
        ensures
            r.wf(),
            r@ == (StatusView {
                statuses: Seq::empty(),
                show_progress: false,
                previous_number_lines: 0,
                buffer: Seq::empty(),
            }),
    {
        let r = Status {
            statuses: Vec::new(),
            show_progress: false,
            previous_number_lines: 0,
            buffer: String::new(),
        };
        assert(entries(r.statuses@) =~= Seq::empty());
        r
    }

    /// Shows or hides the bar.
    pub fn show_progress(&mut self, show_progress: bool)
        requires
            old(self).wf(),
        ensures
            final(self).wf(),
            final(self)@ == (StatusView { show_progress, ..old(self)@ }),
    {
        self.show_progress = show_progress;
    }

    /// Counts the nodes.
    pub fn count_statuses(&self) -> (count: NumStatusCount)
        ensures
            count.finished == count_where(self@.statuses, is_finished()),
            count.running == count_where(self@.statuses, is_running()),
            count.failed == count_where(self@.statuses, is_failed()),
    {
        let mut count = NumStatusCount { finished: 0, running: 0, failed: 0 };
        let ghost all = self@.statuses;
        for i in 0..self.statuses.len()
            invariant
                all == entries(self.statuses@),
                count.finished == count_where(all.take(i as int), is_finished()),
                count.running == count_where(all.take(i as int), is_running()),
                count.failed == count_where(all.take(i as int), is_failed()),
                count.finished <= i,
                count.running <= i,
                count.failed <= i,
        {
            assert(all.take(i + 1).drop_last() =~= all.take(i as int));
            match &self.statuses[i].1 {
                NodeStatus::Failed => {
                    count.failed = count.failed + 1;
                    count.finished = count.finished + 1;
                },
                NodeStatus::Running { .. } => {
                    count.running = count.running + 1;
                },
                NodeStatus::Succeeded => {
                    count.finished = count.finished + 1;
                },
                NodeStatus::Pending => {},
            }
        }
        assert(all.take(self.statuses@.len() as int) =~= all);
        count
    }

    /// The first line of the bar, so many seconds after it was made.
    pub fn get_header(&self, seconds: u64, colors: bool) -> (s: String)
        ensures
            s@ == header(self@.statuses, seconds as nat, colors),
    {
        let count = self.count_statuses();
        let failed_number = decimal_of(count.failed as u64);
        let running_number = decimal_of(count.running as u64);

        let mut failed = if colors {
            red(failed_number.as_str())
        } else {
            failed_number
        };
        failed.push_str(" Failed");

        let mut running = if colors {
            blue(running_number.as_str())
        } else {
            running_number
        };
        running.push_str(" Deploying");

        let mut middle = String::new();
        if count.failed >= 1 && count.running >= 1 {
            middle.push_str(" (");
            middle.push_str(failed.as_str());
            middle.push_str(", ");
            middle.push_str(running.as_str());
            middle.push_str(")");
        } else if count.failed >= 1 {
            middle.push_str(" (");
            middle.push_str(failed.as_str());
            middle.push_str(")");
        } else if count.running >= 1 {
            middle.push_str(" (");
            middle.push_str(running.as_str());
            middle.push_str(")");
        } else {
            middle.push_str("");
        }

        let mut msg = "[".to_owned();
        msg.push_str(decimal_of(count.finished as u64).as_str());
        msg.push_str(" / ");
        msg.push_str(decimal_of(self.statuses.len() as u64).as_str());
        msg.push_str(middle.as_str());
        msg.push_str("]");
        msg.push_str(" ");
        msg.push_str(decimal_of(seconds).as_str());
        msg.push_str("s");
        assert(msg@ =~= header(self@.statuses, seconds as nat, colors));
        msg
    }
}

/// The nodes that have the given indices.
pub open spec fn picked(
    statuses: Seq<(Seq<char>, NodeStatusView)>,
    indices: Seq<usize>,
) -> Seq<(Seq<char>, NodeStatusView)> {
    indices.map_values(|i: usize| statuses[i as int])
}

/// Whether a node is listed.
pub open spec fn is_listed() -> spec_fn((Seq<char>, NodeStatusView)) -> bool {
    |entry: (Seq<char>, NodeStatusView)| !(entry.1 is Succeeded)
}

proof fn lemma_listed_before_is_total(
    a: (Seq<char>, NodeStatusView),
    b: (Seq<char>, NodeStatusView),
)
    ensures
        listed_before(a, b) || listed_before(b, a),
{
    text_le_is_total(shown_name(a.0), shown_name(b.0));
}

proof fn lemma_listed_before_is_transitive(
    a: (Seq<char>, NodeStatusView),
    b: (Seq<char>, NodeStatusView),
    c: (Seq<char>, NodeStatusView),
)
    requires
        listed_before(a, b),
        listed_before(b, c),
    ensures
        listed_before(a, c),
{
    if a.1.rank() == b.1.rank() && b.1.rank() == c.1.rank() {
        text_le_is_transitive(shown_name(a.0), shown_name(b.0), shown_name(c.0));
    }
}

impl Status {
    /// Tells whether the node at `a` does not come after the one at `b`.
    fn in_order(&self, names: &Vec<String>, a: usize, b: usize) -> (r: bool)
        requires
            a < self.statuses@.len() == names@.len(),
            b < self.statuses@.len(),
            forall|i: int|
                0 <= i < names@.len() ==> (#[trigger] names@[i])@ == shown_name(
                    self.statuses@[i].0@,
                ),
        ensures
            r == listed_before(
                entries(self.statuses@)[a as int],
                entries(self.statuses@)[b as int],
            ),
    {
        let rank_a: u16 = self.statuses[a].1.discriminant();
        let rank_b: u16 = self.statuses[b].1.discriminant();
        assert(names@[a as int]@ == shown_name(self.statuses@[a as int].0@));
        assert(names@[b as int]@ == shown_name(self.statuses@[b as int].0@));
        rank_a < rank_b || rank_a == rank_b && le(names[a].as_str(), names[b].as_str())
    }

    /// The names as they are shown.
    fn shown_names(&self) -> (names: Vec<String>)
        ensures
            names@.len() == self.statuses@.len(),
            forall|i: int|
                0 <= i < names@.len() ==> (#[trigger] names@[i])@ == shown_name(
                    self.statuses@[i].0@,
                ),
    {
        let mut names: Vec<String> = Vec::new();
        for i in 0..self.statuses.len()
            invariant
                names@.len() == i,
                forall|k: int|
                    0 <= k < i ==> (#[trigger] names@[k])@ == shown_name(self.statuses@[k].0@),
        {
            names.push(truncate_name(self.statuses[i].0.0.as_str()));
        }
        names
    }

    /// The indices of the nodes that are listed, in order.
    fn listed(&self, names: &Vec<String>) -> (list: Vec<usize>)
        requires
            self.statuses@.len() == names@.len(),
            forall|i: int|
                0 <= i < names@.len() ==> (#[trigger] names@[i])@ == shown_name(
                    self.statuses@[i].0@,
                ),
        ensures
            forall|i: int| 0 <= i < list@.len() ==> (#[trigger] list@[i]) < self.statuses@.len(),
            is_list_of(picked(entries(self.statuses@), list@), entries(self.statuses@)),
    {
        broadcast use vstd::seq_lib::group_to_multiset_ensures;

        let ghost all = entries(self.statuses@);
        let mut list: Vec<usize> = Vec::new();
        proof {
            reveal(Seq::filter);
            assert(all.take(0).filter(is_listed()) =~= Seq::empty());
            assert(picked(all, list@) =~= Seq::empty());
        }
        for i in 0..self.statuses.len()
            invariant
                all == entries(self.statuses@),
                self.statuses@.len() == names@.len(),
                forall|k: int|
                    0 <= k < names@.len() ==> (#[trigger] names@[k])@ == shown_name(
                        self.statuses@[k].0@,
                    ),
                list@.len() <= i,
                forall|k: int| 0 <= k < list@.len() ==> (#[trigger] list@[k]) < i,
                picked(all, list@).to_multiset() =~= all.take(i as int).filter(
                    is_listed(),
                ).to_multiset(),
                forall|a: int, b: int|
                    0 <= a < b < list@.len() ==> listed_before(
                        #[trigger] picked(all, list@)[a],
                        #[trigger] picked(all, list@)[b],
                    ),
        {
            let ghost before = list@;
            let ghost sorted = picked(all, before);
            let ghost entry = all[i as int];
            proof {
                assert(all.take(i + 1) =~= all.take(i as int).push(entry));
                all.take(i as int).lemma_filter_push(entry, is_listed());
            }
            match &self.statuses[i].1 {
                NodeStatus::Succeeded => {},
                _ => {
                    let mut at: usize = list.len();
                    while at > 0 && !self.in_order(names, list[at - 1], i)
                        invariant
                            i < self.statuses@.len() == names@.len(),
                            forall|k: int|
                                0 <= k < names@.len() ==> (#[trigger] names@[k])@ == shown_name(
                                    self.statuses@[k].0@,
                                ),
                            all == entries(self.statuses@),
                            at <= list@.len(),
                            list@ == before,
                            sorted == picked(all, before),
                            forall|k: int| 0 <= k < list@.len() ==> (#[trigger] list@[k]) < i,
                            entry == all[i as int],
                            forall|k: int|
                                at <= k < list@.len() ==> !listed_before(
                                    #[trigger] sorted[k],
                                    entry,
                                ),
                        decreases at,
                    {
                        assert(sorted[at - 1] == all[list@[at - 1] as int]);
                        at = at - 1;
                    }
                    proof {
                        if at > 0 {
                            assert(sorted[at - 1] == all[list@[at - 1] as int]);
                        }
                    }
                    list.insert(at, i);
                    proof {
                        let after = picked(all, list@);
                        assert(after =~= sorted.insert(at as int, entry));
                        vstd::seq_lib::to_multiset_insert(sorted, at as int, entry);
                        vstd::seq_lib::to_multiset_build(
                            all.take(i as int).filter(is_listed()),
                            entry,
                        );
                        assert forall|a: int, b: int| 0 <= a < b < list@.len() implies listed_before(
                            #[trigger] after[a],
                            #[trigger] after[b],
                        ) by {
                            if b == at {
                                if a < at - 1 {
                                    assert(listed_before(sorted[a], sorted[at - 1]));
                                    lemma_listed_before_is_transitive(
                                        sorted[a],
                                        sorted[at - 1],
                                        entry,
                                    );
                                }
                            } else if a == at {
                                lemma_listed_before_is_total(entry, sorted[b - 1]);
                                assert(!listed_before(sorted[b - 1], entry));
                            } else {
                                let x = if a < at {
                                    a
                                } else {
                                    a - 1
                                };
                                let y = if b < at {
                                    b
                                } else {
                                    b - 1
                                };
                                assert(listed_before(sorted[x], sorted[y]));
                            }
                        }
                    }
                },
            }
        }
        assert(all.take(self.statuses@.len() as int) =~= all);
        list
    }
}

impl Status {
    /// Sets the text to the current bar, for a terminal of the given size, so many seconds after
    /// the bar was made.
    pub fn compute_msg(&mut self, rows: usize, cols: usize, seconds: u64, colors: bool)
        requires
            old(self).wf(),
        ensures
            final(self).wf(),
            final(self)@ == (StatusView { buffer: final(self)@.buffer, ..old(self)@ }),
            is_bar_of(
                final(self)@.buffer,
                old(self)@.statuses,
                rows as nat,
                cols as nat,
                seconds as nat,
                colors,
            ),
    {
        if self.statuses.len() == 0 {
            self.buffer = String::new();
            return ;
        }
        let header_text = self.get_header(seconds, colors);
        let names = self.shown_names();
        let indices = self.listed(&names);
        let ghost all = self@.statuses;
        let ghost list = picked(all, indices@);

        let mut max_name_len: usize = 0;
        for i in 0..indices.len()
            invariant
                all == entries(self.statuses@),
                list == picked(all, indices@),
                names@.len() == self.statuses@.len(),
                forall|k: int|
                    0 <= k < names@.len() ==> (#[trigger] names@[k])@ == shown_name(
                        self.statuses@[k].0@,
                    ),
                forall|k: int|
                    0 <= k < indices@.len() ==> (#[trigger] indices@[k]) < self.statuses@.len(),
                max_name_len == widest(list.take(i as int)),
                forall|k: int|
                    0 <= k < i ==> byte_len(shown_name((#[trigger] list[k]).0)) <= max_name_len,
        {
            assert(list.take(i + 1).drop_last() =~= list.take(i as int));
            assert(names@[indices@[i as int] as int]@ == shown_name(list[i as int].0));
            let len: usize = len_in_bytes(names[indices[i]].as_str());
            if len > max_name_len {
                max_name_len = len;
            }
        }
        assert(list.take(indices@.len() as int) =~= list);

        // cap the displayed node lines to half the terminal height.
        // this keeps the status bar from overflowing.
        let cap: usize = if rows <= 2 {
            0
        } else {
            (rows - 1) / 2
        };
        let shown: usize = if indices.len() < cap {
            indices.len()
        } else {
            cap
        };
        let mut buffer = fit(header_text.as_str(), cols, "...");
        let ghost first = buffer@;
        for i in 0..shown
            invariant
                all == entries(self.statuses@),
                list == picked(all, indices@),
                shown <= indices@.len(),
                names@.len() == self.statuses@.len(),
                forall|k: int|
                    0 <= k < names@.len() ==> (#[trigger] names@[k])@ == shown_name(
                        self.statuses@[k].0@,
                    ),
                forall|k: int|
                    0 <= k < indices@.len() ==> (#[trigger] indices@[k]) < self.statuses@.len(),
                max_name_len == widest(list),
                forall|k: int|
                    0 <= k < indices@.len() ==> byte_len(shown_name((#[trigger] list[k]).0))
                        <= max_name_len,
                buffer@ == first + node_lines(list, i as nat, cols as nat, colors),
        {
            let index: usize = indices[i];
            let ghost entry = list[i as int];
            assert(names@[index as int]@ == shown_name(entry.0));
            assert(byte_len(shown_name(list[i as int].0)) <= max_name_len);
            let name: &String = &names[index];
            let width: usize = max_name_len - len_in_bytes(name.as_str());
            let column = pad(name.as_str(), width);

            let mut line = "\n  ".to_owned();
            if colors {
                line.push_str(bold(column.as_str()).as_str());
            } else {
                line.push_str(column.as_str());
            }
            line.push_str(" ");
            line.push_str(self.statuses[index].1.render(colors).as_str());
            buffer.push_str(fit(line.as_str(), cols, "...").as_str());
            assert(buffer@ =~= first + node_lines(list, (i + 1) as nat, cols as nat, colors));
        }

        let hidden: usize = indices.len() - shown;
        if hidden > 0 {
            buffer.push_str("\n  ... and ");
            buffer.push_str(decimal_of(hidden as u64).as_str());
            buffer.push_str(" more");
        } else {
            buffer.push_str("");
        }
        assert(buffer@ =~= bar(all, list, rows as nat, cols as nat, seconds as nat, colors));
        self.buffer = buffer;
    }

    /// What erases the bar from the terminal.
    pub fn clear(&self) -> (s: String)
        ensures
            s@ == if self@.show_progress {
                erasure(self@.previous_number_lines)
            } else {
                Seq::empty()
            },
    {
        let mut s = String::new();
        if !self.show_progress {
            return s;
        }
        let lines: usize = self.previous_number_lines;
        for i in 0..lines
            invariant
                s@ + erasure((lines - i) as nat) == erasure(lines as nat),
        {
            let ghost before = s@;
            let clear = clear_line();
            let up = line_up();
            s.push_str("\r");
            s.push_str(clear.as_str());
            s.push_str(up.as_str());
            assert(s@ + erasure((lines - i - 1) as nat) =~= before + erasure((lines - i) as nat));
        }
        let ghost before = s@;
        let clear = clear_line();
        s.push_str("\r");
        s.push_str(clear.as_str());
        assert(s@ =~= before + erasure(0));
        s
    }

    /// What erases the bar before an interactive prompt.
    pub fn wipe_out(&self) -> (s: String)
        ensures
            s@ == if self@.show_progress {
                erasure(self@.previous_number_lines)
            } else {
                Seq::empty()
            },
    {
        if !self.show_progress {
            return String::new();
        }
        self.clear()
    }

    /// The current bar. Where the bar is hidden nothing is written and nothing changes.
    pub fn write_status(
        &mut self,
        rows: usize,
        cols: usize,
        seconds: u64,
        colors: bool,
    ) -> (s: String)
        requires
            old(self).wf(),
        ensures
            final(self).wf(),
            if old(self)@.show_progress {
                &&& is_bar_of(
                    s@,
                    old(self)@.statuses,
                    rows as nat,
                    cols as nat,
                    seconds as nat,
                    colors,
                )
                &&& final(self)@ == (StatusView {
                    buffer: s@,
                    previous_number_lines: lines_above(s@),
                    ..old(self)@
                })
            } else {
                s@.len() == 0 && final(self)@ == old(self)@
            },
    {
        if !self.show_progress {
            return String::new();
        }
        self.compute_msg(rows, cols, seconds, colors);
        let lines: usize = count_lines(self.buffer.as_str());
        self.previous_number_lines = if lines > 0 {
            lines - 1
        } else {
            0
        };
        self.buffer.clone()
    }

    /// The index of the node with the given name, or the number of nodes where there is none.
    fn find(&self, name: &Name) -> (r: usize)
        ensures
            r == index_of_name(self@.statuses, name@, 0),
            r <= self.statuses@.len(),
            r < self.statuses@.len() ==> self.statuses@[r as int].0@ == name@,
            forall|k: int| 0 <= k < r ==> (#[trigger] self.statuses@[k]).0@ != name@,
    {
        let mut i: usize = 0;
        while i < self.statuses.len() && self.statuses[i].0 != *name
            invariant
                i <= self.statuses@.len(),
                index_of_name(self@.statuses, name@, 0) == index_of_name(
                    self@.statuses,
                    name@,
                    i as int,
                ),
                forall|k: int| 0 <= k < i ==> (#[trigger] self.statuses@[k]).0@ != name@,
            decreases self.statuses@.len() - i,
        {
            i = i + 1;
        }
        i
    }

    /// Sets the status of a node. A node that is new joins.
    pub fn set_status(&mut self, name: Name, value: NodeStatus)
        requires
            old(self).wf(),
        ensures
            final(self).wf(),
            final(self)@ == (StatusView {
                statuses: with_status(old(self)@.statuses, name@, value@),
                ..old(self)@
            }),
    {
        let i: usize = self.find(&name);
        if i < self.statuses.len() {
            self.statuses[i].1 = value;
            proof {
                let before = entries(old(self).statuses@);
                let after = entries(self.statuses@);
                assert(after =~= before.update(i as int, (name@, value@)));
                assert forall|k: int, j: int| 0 <= k < j < after.len() implies (
                #[trigger] after[k]).0 != (#[trigger] after[j]).0 by {
                    assert(after[k].0 == before[k].0);
                    assert(after[j].0 == before[j].0);
                }
            }
        } else {
            self.statuses.push((name, value));
            proof {
                let before = entries(old(self).statuses@);
                let after = entries(self.statuses@);
                assert(after =~= before.push((name@, value@)));
                assert forall|k: int, j: int| 0 <= k < j < after.len() implies (
                #[trigger] after[k]).0 != (#[trigger] after[j]).0 by {
                    assert(after[k] == before[k]);
                    assert(before[k].0 == old(self).statuses@[k].0@);
                    if j < before.len() {
                        assert(after[j] == before[j]);
                    }
                }
            }
        }
    }

    /// Lets many nodes join at once, each of them waiting.
    pub fn add_many(&mut self, names: Vec<Name>)
        requires
            old(self).wf(),
        ensures
            final(self).wf(),
            final(self)@ == (StatusView {
                statuses: with_waiting(old(self)@.statuses, name_texts(names@)),
                ..old(self)@
            }),
    {
        let ghost all = name_texts(names@);
        assert(all.take(0) =~= Seq::empty());
        for i in 0..names.len()
            invariant
                self.wf(),
                all == name_texts(names@),
                self@ == (StatusView {
                    statuses: with_waiting(old(self)@.statuses, all.take(i as int)),
                    ..old(self)@
                }),
        {
            assert(all.take(i + 1).drop_last() =~= all.take(i as int));
            self.set_status(names[i].clone(), NodeStatus::default());
        }
        assert(all.take(names@.len() as int) =~= all);
    }

    /// Shows the first line of what a node at work logged.
    pub fn set_last_log(&mut self, name: &Name, build_name: Option<String>, log: &str)
        requires
            old(self).wf(),
        ensures
            final(self).wf(),
            final(self)@ == (StatusView {
                statuses: with_log(
                    old(self)@.statuses,
                    name@,
                    match build_name {
                        Some(build) => Some(build@),
                        None => None,
                    },
                    log@,
                ),
                ..old(self)@
            }),
    {
        let i: usize = self.find(name);
        if i < self.statuses.len() {
            let ghost before = self.statuses@[i as int];
            if let NodeStatus::Running { last_log, .. } = &mut self.statuses[i].1 {
                // ensure only a single line is kept or the status
                // bar might accidentally spread into multiple lines
                *last_log = match line_of_text(log) {
                    Some(line) => Some((line, build_name)),
                    None => None,
                };
            }
            proof {
                let all = entries(old(self).statuses@);
                assert(entries(self.statuses@) =~= with_log(
                    all,
                    name@,
                    match build_name {
                        Some(build) => Some(build@),
                        None => None,
                    },
                    log@,
                ));
            }
        }
    }
}

/// How many lines of a text are above its last one.
pub open spec fn lines_above(text: Seq<char>) -> nat {
    if line_count(text) > 0 {
        (line_count(text) - 1) as nat
    } else {
        0
    }
}

/// The nodes after one of them has logged something. Only nodes at work show what they log.
pub open spec fn with_log(
    statuses: Seq<(Seq<char>, NodeStatusView)>,
    name: Seq<char>,
    build: Option<Seq<char>>,
    log: Seq<char>,
) -> Seq<(Seq<char>, NodeStatusView)> {
    let i = index_of_name(statuses, name, 0);
    if i < statuses.len() && statuses[i].1 is Running {
        statuses.update(
            i,
            (
                name,
                NodeStatusView::Running {
                    status: statuses[i].1->status,
                    last_log: match first_line(log) {
                        Some(line) => Some((line, build)),
                        None => None,
                    },
                },
            ),
        )
    } else {
        statuses
    }
}

/// What the status bar is told.
#[derive(Debug)]
pub enum UiMessage {
    /// Initialise the status bar with many nodes at once.
    AddMany(Vec<Name>),
    SetStatus(Name, NodeStatus),
    /// Takeover the terminal, blocking new messages from being printed until `Release` is sent.
    Takeover,
    /// Indicate that the takeover is no longer necessary.
    Release,
    /// Clear the status line, mostly for when the program is about to end.
    Clear,
    /// Writes above the status line.
    LogLine(Vec<u8>),
    /// A log line with associated context, including name and possible build name.
    ContextLogLine { name: Name, build_name: Option<String>, log: String },
}

/// The terminal that the bar is written to, and the time since the bar was made.
#[derive(Clone, Copy, Debug, PartialEq, Eq, Structural)]
pub struct Screen {
    pub rows: usize,
    pub cols: usize,
    pub seconds: u64,
    pub colors: bool,
}

/// Keeps the status bar below the log. While the terminal is taken over, log lines wait.
#[derive(Debug)]
pub struct StatusWorker {
    status: Status,
    log_queue: VecDeque<Vec<u8>>,
    taken_over: bool,
}

/// What the worker holds.
#[verifier::ext_equal]
pub ghost struct WorkerView {
    pub status: StatusView,
    pub log_queue: Seq<Seq<u8>>,
    pub taken_over: bool,
}

/// The bytes of lines.
pub open spec fn line_bytes(lines: Seq<Vec<u8>>) -> Seq<Seq<u8>> {
    lines.map_values(|line: Vec<u8>| line@)
}

impl View for StatusWorker {
    type V = WorkerView;

    closed spec fn view(&self) -> WorkerView {
        WorkerView {
            status: self.status@,
            log_queue: line_bytes(self.log_queue@),
            taken_over: self.taken_over,
        }
    }
}

/// The bytes that erase the bar, where it is shown.
pub open spec fn erased(status: StatusView) -> Seq<u8> {
    if status.show_progress {
        encode_utf8(erasure(status.previous_number_lines))
    } else {
        Seq::empty()
    }
}

/// Whether `after` is the bar once it has been written anew, and `written` are the bytes of that.
/// A hidden bar is not written.
pub open spec fn is_rewritten(
    before: StatusView,
    after: StatusView,
    written: Seq<u8>,
    screen: Screen,
) -> bool {
    if before.show_progress {
        &&& is_bar_of(
            after.buffer,
            before.statuses,
            screen.rows as nat,
            screen.cols as nat,
            screen.seconds as nat,
            screen.colors,
        )
        &&& after == (StatusView {
            buffer: after.buffer,
            previous_number_lines: lines_above(after.buffer),
            ..before
        })
        &&& written == encode_utf8(after.buffer)
    } else {
        after == before && written.len() == 0
    }
}

/// Whether `after` is the worker after a message, and `written` are the bytes of that.
pub open spec fn handles(
    before: WorkerView,
    message: UiMessage,
    after: WorkerView,
    written: Seq<u8>,
    screen: Screen,
) -> bool {
    match message {
        UiMessage::AddMany(names) => written.len() == 0 && after == (WorkerView {
            status: StatusView {
                statuses: with_waiting(before.status.statuses, name_texts(names@)),
                ..before.status
            },
            ..before
        }),
        UiMessage::SetStatus(name, value) => written.len() == 0 && after == (WorkerView {
            status: StatusView {
                statuses: with_status(before.status.statuses, name@, value@),
                ..before.status
            },
            ..before
        }),
        UiMessage::Takeover => written == erased(before.status) && after == (WorkerView {
            taken_over: true,
            ..before
        }),
        UiMessage::Release => {
            &&& !after.taken_over && after.log_queue.len() == 0
            &&& exists|bar: Seq<u8>| #[trigger]
                is_rewritten(before.status, after.status, bar, screen) && written
                    == before.log_queue.flatten() + bar
        },
        UiMessage::Clear => written == erased(before.status) && after == before,
        UiMessage::ContextLogLine { name, build_name, log } => written.len() == 0 && after == (
        WorkerView {
            status: StatusView {
                statuses: with_log(
                    before.status.statuses,
                    name@,
                    match build_name {
                        Some(build) => Some(build@),
                        None => None,
                    },
                    log@,
                ),
                ..before.status
            },
            ..before
        }),
        UiMessage::LogLine(line) => if before.taken_over {
            written.len() == 0 && after == (WorkerView {
                log_queue: before.log_queue.push(line@),
                ..before
            })
        } else {
            &&& !after.taken_over && after.log_queue.len() == 0
            &&& exists|bar: Seq<u8>| #[trigger]
                is_rewritten(before.status, after.status, bar, screen) && written == erased(
                    before.status,
                ) + before.log_queue.flatten() + line@ + bar
        },
    }
}

impl StatusWorker {
    /// No name stands for two nodes.
    pub closed spec fn wf(&self) -> bool {
        self.status.wf()
    }

    /// A worker without nodes.
    pub fn new(show_progress: bool) -> (r: Self)
        ensures
            r.wf(),
            r@ == (WorkerView {
                status: StatusView {
                    statuses: Seq::empty(),
                    show_progress,
                    previous_number_lines: 0,
                    buffer: Seq::empty(),
                },
                log_queue: Seq::empty(),
                taken_over: false,
            }),
    {
        let mut status = Status::new();
        status.show_progress(show_progress);
        let r = StatusWorker { status, log_queue: VecDeque::new(), taken_over: false };
        assert(line_bytes(r.log_queue@) =~= Seq::empty());
        r
    }

    /// Appends the lines that wait, and lets none wait any longer.
    fn drain(&mut self, out: &mut Vec<u8>)
        requires
            old(self).wf(),
        ensures
            final(self).wf(),
            final(self)@ == (WorkerView { log_queue: Seq::empty(), ..old(self)@ }),
            final(out)@ == old(out)@ + old(self)@.log_queue.flatten(),
    {
        let ghost all = self@.log_queue;
        let ghost mut done: int = 0;
        assert(all.skip(0) =~= all);
        while self.log_queue.len() > 0
            invariant
                self.wf(),
                0 <= done <= all.len(),
                self@ == (WorkerView { log_queue: all.skip(done), ..old(self)@ }),
                all == old(self)@.log_queue,
                out@ + all.skip(done).flatten() == old(out)@ + all.flatten(),
            decreases self.log_queue@.len(),
        {
            let ghost waiting = self.log_queue@;
            let ghost written = out@;
            let next = self.log_queue.pop_front();
            if let Some(line) = next {
                let mut line: Vec<u8> = line;
                let ghost bytes = line@;
                out.append(&mut line);
                proof {
                    assert(all.skip(done)[0] == line_bytes(waiting)[0]);
                    assert(bytes == all.skip(done)[0]);
                    assert(all.skip(done).drop_first() =~= all.skip(done + 1));
                    assert(line_bytes(self.log_queue@) =~= all.skip(done + 1));
                    assert(out@ + all.skip(done + 1).flatten() =~= written + all.skip(
                        done,
                    ).flatten());
                    done = done + 1;
                }
            }
        }
        assert(all.skip(done) =~= Seq::empty());
        assert(self@.log_queue =~= Seq::empty());
        assert(out@ =~= out@ + all.skip(done).flatten());
    }

    fn rewrite(&mut self, screen: Screen, out: &mut Vec<u8>)
        requires
            old(self).wf(),
        ensures
            final(self).wf(),
            final(self)@ == (WorkerView { status: final(self)@.status, ..old(self)@ }),
            exists|bar: Seq<u8>| #[trigger]
                is_rewritten(old(self)@.status, final(self)@.status, bar, screen)
                    && final(out)@ == old(out)@ + bar,
    {
        let text = self.status.write_status(
            screen.rows,
            screen.cols,
            screen.seconds,
            screen.colors,
        );
        let mut bytes = text.as_str().as_bytes_vec();
        let ghost bar = bytes@;
        out.append(&mut bytes);
        proof {
            if !old(self)@.status.show_progress {
                assert(text@ =~= Seq::empty());
                assert(bar.len() == 0);
            }
            assert(is_rewritten(old(self)@.status, self@.status, bar, screen));
        }
    }

    fn erase(&self) -> (out: Vec<u8>)
        ensures
            out@ == erased(self@.status),
    {
        let text = self.status.clear();
        let out = text.as_str().as_bytes_vec();
        proof {
            if !self@.status.show_progress {
                assert(text@ =~= Seq::empty());
                assert(out@ =~= Seq::empty());
            }
        }
        out
    }

    /// Follows a message and returns the bytes to write to the terminal.
    pub fn handle(&mut self, message: UiMessage, screen: Screen) -> (out: Vec<u8>)
        requires
            old(self).wf(),
        ensures
            final(self).wf(),
            handles(old(self)@, message, final(self)@, out@, screen),
    {
        match message {
            UiMessage::AddMany(names) => {
                self.status.add_many(names);
                Vec::new()
            },
            UiMessage::SetStatus(name, value) => {
                self.status.set_status(name, value);
                Vec::new()
            },
            UiMessage::Takeover => {
                self.taken_over = true;
                let text = self.status.wipe_out();
                let out = text.as_str().as_bytes_vec();
                proof {
                    if !old(self)@.status.show_progress {
                        assert(text@ =~= Seq::empty());
                        assert(out@ =~= Seq::empty());
                    }
                }
                out
            },
            UiMessage::Release => {
                self.taken_over = false;
                let mut out: Vec<u8> = Vec::new();
                self.drain(&mut out);
                assert(out@ =~= old(self)@.log_queue.flatten());
                self.rewrite(screen, &mut out);
                out
            },
            UiMessage::Clear => self.erase(),
            UiMessage::ContextLogLine { name, build_name, log } => {
                self.status.set_last_log(&name, build_name, log.as_str());
                Vec::new()
            },
            UiMessage::LogLine(line) => {
                if self.taken_over {
                    self.log_queue.push_back(line);
                    assert(line_bytes(self.log_queue@) =~= line_bytes(
                        old(self).log_queue@,
                    ).push(line@));
                    Vec::new()
                } else {
                    let mut out = self.erase();
                    self.drain(&mut out);
                    let mut line: Vec<u8> = line;
                    out.append(&mut line);
                    self.rewrite(screen, &mut out);
                    out
                }
            },
        }
    }

    /// Writes the bar anew when time has passed, unless the terminal is taken over.
    pub fn tick(&mut self, screen: Screen) -> (out: Vec<u8>)
        requires
            old(self).wf(),
        ensures
            final(self).wf(),
            if old(self)@.taken_over {
                out@.len() == 0 && final(self)@ == old(self)@
            } else {
                &&& final(self)@ == (WorkerView { status: final(self)@.status, ..old(self)@ })
                &&& exists|bar: Seq<u8>| #[trigger]
                    is_rewritten(old(self)@.status, final(self)@.status, bar, screen) && out@
                        == erased(old(self)@.status) + bar
            },
    {
        if self.taken_over {
            return Vec::new();
        }
        let mut out = self.erase();
        self.rewrite(screen, &mut out);
        out
    }
}

/// Whether a node waits.
pub open spec fn is_waiting() -> spec_fn(NodeStatusView) -> bool {
    |status: NodeStatusView| status is Pending
}

/// Every node is either done, at work or waiting, and nodes that failed are among those that are
/// done.
pub proof fn every_node_is_counted_once(statuses: Seq<(Seq<char>, NodeStatusView)>)
    ensures
        count_where(statuses, is_finished()) + count_where(statuses, is_running()) + count_where(
            statuses,
            is_waiting(),
        ) == statuses.len(),
        count_where(statuses, is_failed()) <= count_where(statuses, is_finished()),
    decreases statuses.len(),
{
    if statuses.len() > 0 {
        every_node_is_counted_once(statuses.drop_last());
    }
}

/// Lines that are logged while the terminal is taken over write nothing, and once it is released
/// they are written, all of them, in the order in which they came.
pub proof fn held_lines_are_written_in_order(
    workers: Seq<WorkerView>,
    lines: Seq<Vec<u8>>,
    written: Seq<Seq<u8>>,
    screen: Screen,
    released: WorkerView,
    written_on_release: Seq<u8>,
)
    requires
        workers.len() == lines.len() + 1,
        written.len() == lines.len(),
        workers[0].taken_over,
        forall|i: int|
            0 <= i < lines.len() ==> handles(
                workers[i],
                UiMessage::LogLine(#[trigger] lines[i]),
                workers[i + 1],
                written[i],
                screen,
            ),
        handles(workers.last(), UiMessage::Release, released, written_on_release, screen),
    ensures
        forall|i: int| 0 <= i < lines.len() ==> (#[trigger] written[i]).len() == 0,
        (workers[0].log_queue + line_bytes(lines)).flatten().is_prefix_of(written_on_release),
        released.log_queue.len() == 0,
{
    lemma_held_lines(workers, lines, written, screen);
    let bar = choose|bar: Seq<u8>| #[trigger]
        is_rewritten(workers.last().status, released.status, bar, screen) && written_on_release
            == workers.last().log_queue.flatten() + bar;
    assert(written_on_release.take(
        workers.last().log_queue.flatten().len() as int,
    ) =~= workers.last().log_queue.flatten());
}

proof fn lemma_held_lines(
    workers: Seq<WorkerView>,
    lines: Seq<Vec<u8>>,
    written: Seq<Seq<u8>>,
    screen: Screen,
)
    requires
        workers.len() == lines.len() + 1,
        written.len() == lines.len(),
        workers[0].taken_over,
        forall|i: int|
            0 <= i < lines.len() ==> handles(
                workers[i],
                UiMessage::LogLine(#[trigger] lines[i]),
                workers[i + 1],
                written[i],
                screen,
            ),
    ensures
        forall|i: int| 0 <= i < lines.len() ==> (#[trigger] written[i]).len() == 0,
        workers.last().taken_over,
        workers.last().log_queue == workers[0].log_queue + line_bytes(lines),
    decreases lines.len(),
{
    if lines.len() == 0 {
        assert(workers[0].log_queue + line_bytes(lines) =~= workers[0].log_queue);
    } else {
        let n = lines.len() - 1;
        let fewer = lines.drop_last();
        assert forall|i: int| 0 <= i < fewer.len() implies handles(
            workers.drop_last()[i],
            UiMessage::LogLine(#[trigger] fewer[i]),
            workers.drop_last()[i + 1],
            written.drop_last()[i],
            screen,
        ) by {
            assert(fewer[i] == lines[i]);
        }
        lemma_held_lines(workers.drop_last(), fewer, written.drop_last(), screen);
        assert(handles(
            workers[n],
            UiMessage::LogLine(lines[n]),
            workers[n + 1],
            written[n],
            screen,
        ));
        assert(workers.last().log_queue =~= workers[0].log_queue + line_bytes(lines));
        assert forall|i: int| 0 <= i < lines.len() implies (#[trigger] written[i]).len() == 0 by {
            if i < n {
                assert(written.drop_last()[i] == written[i]);
            }
        }
    }
}

} // verus!
