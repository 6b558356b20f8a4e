use owo_colors::OwoColorize;
use std::time::Instant;
use vstd::prelude::*;

use crate::node::Name;
use crate::text::{decimal, u64_to_string};

verus! {

#[verifier::external_type_specification]
#[verifier::external_body]
pub struct ExInstant(Instant);

/// `Instant::now`. Nothing is claimed of the result.
#[verifier::external_body]
fn instant_now() -> Instant {
    Instant::now()
}

/// `Instant::elapsed` in whole seconds. Nothing is claimed of the result:
/// it depends on the clock.
#[verifier::external_body]
fn elapsed_secs(began: &Instant) -> u64 {
    began.elapsed().as_secs()
}

/// The display of `text` in red by owo-colors (`OwoColorize::red`). Claimed,
/// as its source shows: the text between the ANSI codes for red and for the
/// default foreground.
#[verifier::external_body]
fn paint_red(text: &str) -> (res: String)
    ensures
        res@ == "\x1b[31m"@ + text@ + "\x1b[39m"@,
{
    format!("{}", text.red())
}

/// The display of `text` in blue by owo-colors (`OwoColorize::blue`).
/// Claimed, as its source shows: the text between the ANSI codes for blue
/// and for the default foreground.
#[verifier::external_body]
fn paint_blue(text: &str) -> (res: String)
    ensures
        res@ == "\x1b[34m"@ + text@ + "\x1b[39m"@,
{
    format!("{}", text.blue())
}

/// The display of termion's `cursor::Save`. Claimed, as its source shows:
/// the CSI sequence `ESC [ s`.
#[verifier::external_body]
fn cursor_save() -> (res: String)
    ensures
        res@ == "\x1b[s"@,
{
    format!("{}", termion::cursor::Save)
}

/// The display of termion's `cursor::Left(n)`. Claimed, as its source
/// shows: `ESC [`, the decimal `n`, then `D`.
#[verifier::external_body]
fn cursor_left(n: u16) -> (res: String)
    ensures
        res@ == "\x1b["@ + decimal(n as nat) + "D"@,
{
    format!("{}", termion::cursor::Left(n))
}

/// The display of termion's `clear::CurrentLine`. Claimed, as its source
/// shows: the CSI sequence `ESC [ 2 K`.
#[verifier::external_body]
fn clear_current_line() -> (res: String)
    ensures
        res@ == "\x1b[2K"@,
{
    format!("{}", termion::clear::CurrentLine)
}

/// How the deployment of a node stands.
#[derive(Debug)]
pub enum NodeStatus {
    Pending,
    Running(String),
    Succeeded,
    Failed,
}

/// The model of a node status.
pub enum NodeState {
    Pending,
    Running(Seq<char>),
    Succeeded,
    Failed,
}

impl NodeStatus {
    pub open spec fn view(&self) -> NodeState {
        match self {
            NodeStatus::Pending => NodeState::Pending,
            NodeStatus::Running(step) => NodeState::Running(step@),
            NodeStatus::Succeeded => NodeState::Succeeded,
            NodeStatus::Failed => NodeState::Failed,
        }
    }
}

/// The model of the status entries: each node name with its state.
pub open spec fn entries_view(entries: Seq<(String, NodeStatus)>) -> Seq<(Seq<char>, NodeState)> {
    entries.map_values(|e: (String, NodeStatus)| (e.0@, e.1.view()))
}

/// No node name occurs twice.
pub open spec fn unique_names(entries: Seq<(Seq<char>, NodeState)>) -> bool {
    forall|i: int, j: int| 0 <= i < j < entries.len() ==> entries[i].0 != entries[j].0
}

/// The entries with the state of `name` set to `state`: in place when the
/// name has an entry, else at the end.
pub open spec fn upsert(entries: Seq<(Seq<char>, NodeState)>, name: Seq<char>, state: NodeState) -> Seq<(Seq<char>, NodeState)> {
    if exists|i: int| 0 <= i < entries.len() && entries[i].0 == name {
        let i = choose|i: int| 0 <= i < entries.len() && entries[i].0 == name;
        entries.update(i, (name, state))
    } else {
        entries.push((name, state))
    }
}

/// The state recorded for `name`, if any.
pub open spec fn state_of(entries: Seq<(Seq<char>, NodeState)>, name: Seq<char>) -> Option<NodeState> {
    if exists|i: int| 0 <= i < entries.len() && entries[i].0 == name {
        let i = choose|i: int| 0 <= i < entries.len() && entries[i].0 == name;
        Some(entries[i].1)
    } else {
        None
    }
}

/// A node that succeeded or failed is finished.
pub open spec fn is_finished(s: NodeState) -> bool {
    s is Succeeded || s is Failed
}

/// The number of entries whose state is finished.
pub open spec fn count_finished(entries: Seq<(Seq<char>, NodeState)>) -> nat
    decreases entries.len(),
{
    if entries.len() == 0 {
        0
    } else {
        count_finished(entries.drop_last()) + if is_finished(entries.last().1) { 1nat } else { 0nat }
    }
}

/// The number of entries whose state is running.
pub open spec fn count_running(entries: Seq<(Seq<char>, NodeState)>) -> nat
    decreases entries.len(),
{
    if entries.len() == 0 {
        0
    } else {
        count_running(entries.drop_last()) + if entries.last().1 is Running { 1nat } else { 0nat }
    }
}

/// The number of entries whose state is failed.
pub open spec fn count_failed(entries: Seq<(Seq<char>, NodeState)>) -> nat
    decreases entries.len(),
{
    if entries.len() == 0 {
        0
    } else {
        count_failed(entries.drop_last()) + if entries.last().1 is Failed { 1nat } else { 0nat }
    }
}

/// The text in red.
pub open spec fn red(text: Seq<char>) -> Seq<char> {
    "\x1b[31m"@ + text + "\x1b[39m"@
}

/// The text in blue.
pub open spec fn blue(text: Seq<char>) -> Seq<char> {
    "\x1b[34m"@ + text + "\x1b[39m"@
}

/// What follows the counts in the status line: the failed and the deploying
/// nodes, in parentheses, where there are any.
pub open spec fn detail_of(failed: nat, running: nat) -> Seq<char> {
    let f = red(decimal(failed)) + " Failed"@;
    let r = blue(decimal(running)) + " Deploying"@;
    if failed >= 1 && running >= 1 {
        " ("@ + f + ", "@ + r + ")"@
    } else if failed >= 1 {
        " ("@ + f + ")"@
    } else if running >= 1 {
        " ("@ + r + ")"@
    } else {
        Seq::empty()
    }
}

/// The status line for `entries` after `secs` seconds: empty without nodes,
/// else `[finished / total (details)] Ns`.
pub open spec fn message_of(entries: Seq<(Seq<char>, NodeState)>, secs: u64) -> Seq<char> {
    if entries.len() == 0 {
        Seq::empty()
    } else {
        "["@ + decimal(count_finished(entries)) + " / "@ + decimal(entries.len()) + detail_of(
            count_failed(entries),
            count_running(entries),
        ) + "]"@ + " "@ + decimal(secs as nat) + "s"@
    }
}

/// The terminal codes that clear the status line: save the cursor, move to
/// the start of the line, clear it.
pub open spec fn clear_codes() -> Seq<char> {
    "\x1b[s"@ + "\x1b["@ + decimal(999) + "D"@ + "\x1b[2K"@
}

/// The progress of a deployment: the status of each node.
#[derive(Debug)]
pub struct Status {
    statuses: Vec<(String, NodeStatus)>,
    began: Instant,
    show_progress: bool,
}

impl Status {
    /// Each node name with its state, in the order first seen.
    pub closed spec fn entries(&self) -> Seq<(Seq<char>, NodeState)> {
        entries_view(self.statuses@)
    }

    /// Whether the status line is shown.
    pub closed spec fn shows_progress(&self) -> bool {
        self.show_progress
    }

    /// No node has two entries.
    pub open spec fn wf(&self) -> bool {
        unique_names(self.entries())
    }

    /// An empty status, begun now, not shown.
    pub fn new() -> (res: Self)
        ensures
            res.wf(),
            res.entries() == Seq::<(Seq<char>, NodeState)>::empty(),
            !res.shows_progress(),
    {
        Self { statuses: Vec::new(), began: instant_now(), show_progress: false }
    }

    /// Sets whether the status line is shown.
    pub fn show_progress(&mut self, show_progress: bool)
        ensures
            final(self).shows_progress() == show_progress,
            final(self).entries() == old(self).entries(),
            final(self).wf() == old(self).wf(),
    {
        self.show_progress = show_progress;
    }

    /// Sets the state of `name`, adding the node when it has no entry yet.
    fn upsert(&mut self, name: String, status: NodeStatus)
        requires
            old(self).wf(),
        ensures
            final(self).wf(),
            final(self).entries() == upsert(old(self).entries(), name@, status.view()),
            final(self).shows_progress() == old(self).shows_progress(),
    {
        let ghost entries = self.entries();
        let ghost state = status.view();
        let mut i: usize = 0;
        while i < self.statuses.len()
            invariant
                0 <= i <= self.statuses@.len(),
                entries == self.entries(),
                state == status.view(),
                self.statuses@ == old(self).statuses@,
                self.show_progress == old(self).show_progress,
                self.entries() == entries_view(self.statuses@),
                unique_names(entries),
                forall|j: int| 0 <= j < i ==> entries[j].0 != name@,
            decreases self.statuses@.len() - i,
        {
            if self.statuses[i].0 == name {
                assert(entries[i as int].0 == name@);
                self.statuses.set(i, (name, status));

                proof {
                    let i = i as int;
                    assert(self.entries() =~= upsert(entries, name@, state));
                }
                return ;
            }
            i = i + 1;
        }
        self.statuses.push((name, status));
        proof {
            assert(self.entries() =~= upsert(entries, name@, state));
        }
    }

    /// Adds each of `names` as pending; a node already present becomes
    /// pending again.
    pub fn add_many(&mut self, names: &[&Name])
        requires
            old(self).wf(),
        ensures
            final(self).wf(),
            final(self).shows_progress() == old(self).shows_progress(),
            final(self).entries() == add_pending(old(self).entries(), names@.map_values(|n: &Name| n.0@)),
    {
        let ghost start = self.entries();
        let ghost all = names@.map_values(|n: &Name| n.0@);
        let mut k: usize = 0;
        while k < names.len()
            invariant
                0 <= k <= names@.len(),
                all == names@.map_values(|n: &Name| n.0@),
                self.wf(),
                self.shows_progress() == old(self).shows_progress(),
                self.entries() == add_pending(start, all.take(k as int)),
            decreases names@.len() - k,
        {
            let name = names[k].0.clone();
            self.upsert(name, NodeStatus::Pending);
            proof {
                assert(all.take(k + 1).drop_last() =~= all.take(k as int));
            }
            k = k + 1;
        }
        proof {
            assert(all.take(names@.len() as int) =~= all);
        }
    }

    /// Marks `node` as running `step`.
    pub fn set_node_step(&mut self, node: &Name, step: String)
        requires
            old(self).wf(),
        ensures
            final(self).wf(),
            final(self).shows_progress() == old(self).shows_progress(),
            final(self).entries() == upsert(old(self).entries(), node.0@, NodeState::Running(step@)),
    {
        self.upsert(node.0.clone(), NodeStatus::Running(step));
    }

    /// Marks `node` as failed.
    pub fn mark_node_failed(&mut self, node: &Name)
        requires
            old(self).wf(),
        ensures
            final(self).wf(),
            final(self).shows_progress() == old(self).shows_progress(),
            final(self).entries() == upsert(old(self).entries(), node.0@, NodeState::Failed),
    {
        self.upsert(node.0.clone(), NodeStatus::Failed);
    }

    /// Marks `node` as succeeded.
    pub fn mark_node_succeeded(&mut self, node: &Name)
        requires
            old(self).wf(),
        ensures
            final(self).wf(),
            final(self).shows_progress() == old(self).shows_progress(),
            final(self).entries() == upsert(old(self).entries(), node.0@, NodeState::Succeeded),
    {
        self.upsert(node.0.clone(), NodeStatus::Succeeded);
    }

    /// The number of nodes that succeeded or failed.
    pub fn num_finished(&self) -> (res: usize)
        ensures
            res == count_finished(self.entries()),
    {
        let mut count: usize = 0;
        let mut i: usize = 0;
        while i < self.statuses.len()
            invariant
                0 <= i <= self.statuses@.len(),
                count == count_finished(self.entries().take(i as int)),
                count <= i,
            decreases self.statuses@.len() - i,
        {
            proof {
                assert(self.entries().take(i + 1).drop_last() =~= self.entries().take(i as int));
            }
            match &self.statuses[i].1 {
                NodeStatus::Succeeded | NodeStatus::Failed => {
                    count = count + 1;
                },
                _ => {},
            }
            i = i + 1;
        }
        proof {
            assert(self.entries().take(i as int) =~= self.entries());
        }
        count
    }

    /// The number of nodes that are running a step.
    pub fn num_running(&self) -> (res: usize)
        ensures
            res == count_running(self.entries()),
    {
        let mut count: usize = 0;
        let mut i: usize = 0;
        while i < self.statuses.len()
            invariant
                0 <= i <= self.statuses@.len(),
                count == count_running(self.entries().take(i as int)),
                count <= i,
            decreases self.statuses@.len() - i,
        {
            proof {
                assert(self.entries().take(i + 1).drop_last() =~= self.entries().take(i as int));
            }
            match &self.statuses[i].1 {
                NodeStatus::Running(_) => {
                    count = count + 1;
                },
                _ => {},
            }
            i = i + 1;
        }
        proof {
            assert(self.entries().take(i as int) =~= self.entries());
        }
        count
    }

    /// The number of nodes that failed.
    pub fn num_failed(&self) -> (res: usize)
        ensures
            res == count_failed(self.entries()),
    {
        let mut count: usize = 0;
        let mut i: usize = 0;
        while i < self.statuses.len()
            invariant
                0 <= i <= self.statuses@.len(),
                count == count_failed(self.entries().take(i as int)),
                count <= i,
            decreases self.statuses@.len() - i,
        {
            proof {
                assert(self.entries().take(i + 1).drop_last() =~= self.entries().take(i as int));
            }
            match &self.statuses[i].1 {
                NodeStatus::Failed => {
                    count = count + 1;
                },
                _ => {},
            }
            i = i + 1;
        }
        proof {
            assert(self.entries().take(i as int) =~= self.entries());
        }
        count
    }

    /// The status line after `secs` seconds.
    pub fn message_after(&self, secs: u64) -> (res: String)
        ensures
            res@ == message_of(self.entries(), secs),
    {
        if self.statuses.len() == 0 {
            return String::new();
        }
        let finished = self.num_finished();
        let total = self.statuses.len();
        let failed = self.num_failed();
        let running = self.num_running();
        let mut msg = String::from_str("[");
        msg.append(u64_to_string(finished as u64).as_str());
        msg.append(" / ");
        msg.append(u64_to_string(total as u64).as_str());
        if failed >= 1 || running >= 1 {
            msg.append(" (");
            if failed >= 1 {
                msg.append(paint_red(u64_to_string(failed as u64).as_str()).as_str());
                msg.append(" Failed");
                if running >= 1 {
                    msg.append(", ");
                }
            }
            if running >= 1 {
                msg.append(paint_blue(u64_to_string(running as u64).as_str()).as_str());
                msg.append(" Deploying");
            }
            msg.append(")");
        }
        msg.append("]");
        msg.append(" ");
        msg.append(u64_to_string(secs).as_str());
        msg.append("s");
        msg
    }

    /// The status line: counts of finished, failed and deploying nodes, and
    /// the seconds since the status began.
    pub fn get_msg(&self) -> (res: String)
        ensures
            exists|secs: u64| res@ == message_of(self.entries(), secs),
    {
        let secs = elapsed_secs(&self.began);
        self.message_after(secs)
    }

    /// Writes the codes that clear the status line to `writer`, when the
    /// status line is shown.
    pub fn clear(&self, writer: &mut Vec<u8>)
        ensures
            self.shows_progress() ==> final(writer)@ == old(writer)@ + vstd::utf8::encode_utf8(clear_codes()),
            !self.shows_progress() ==> final(writer)@ == old(writer)@,
    {
        if !self.show_progress {
            return ;
        }
        let mut codes = cursor_save();
        codes.append(cursor_left(999).as_str());
        codes.append(clear_current_line().as_str());
        proof {
            assert(codes@ =~= clear_codes());
        }
        writer.extend_from_slice(codes.as_str().as_bytes());
    }

    /// Clears the status line while an interactive prompt is shown.
    pub fn wipe_out(&self, writer: &mut Vec<u8>)
        ensures
            self.shows_progress() ==> final(writer)@ == old(writer)@ + vstd::utf8::encode_utf8(clear_codes()),
            !self.shows_progress() ==> final(writer)@ == old(writer)@,
    {
        self.clear(writer);
    }

    /// Writes the status line to `writer`, when it is shown.
    pub fn write_status(&mut self, writer: &mut Vec<u8>)
        ensures
            *final(self) == *old(self),
            old(self).shows_progress() ==> exists|secs: u64|
                final(writer)@ == old(writer)@ + vstd::utf8::encode_utf8(#[trigger] message_of(old(self).entries(), secs)),
            !old(self).shows_progress() ==> final(writer)@ == old(writer)@,
    {
        if self.show_progress {
            let msg = self.get_msg();
            writer.extend_from_slice(msg.as_str().as_bytes());
        }
    }

    /// Writes `buf` above the status line: clears the line, writes `buf`,
    /// writes the line again. Skipped, writing nothing and returning 0, while
    /// an interactive prompt holds the terminal (`clobber_permits` is not 1).
    /// Returns the number of bytes of `buf` written.
    pub fn write_above_status(&mut self, buf: &[u8], writer: &mut Vec<u8>, clobber_permits: usize) -> (res: usize)
        ensures
            *final(self) == *old(self),
            clobber_permits != 1 ==> res == 0 && final(writer)@ == old(writer)@,
            clobber_permits == 1 && old(self).shows_progress() ==> res == buf@.len() && exists|secs: u64|
                final(writer)@ == old(writer)@ + vstd::utf8::encode_utf8(clear_codes()) + buf@ + vstd::utf8::encode_utf8(
                    #[trigger] message_of(old(self).entries(), secs),
                ),
            clobber_permits == 1 && !old(self).shows_progress() ==> res == buf@.len() && final(writer)@ == old(writer)@ + buf@,
    {
        if clobber_permits != 1 {
            return 0;
        }
        self.clear(writer);
        writer.extend_from_slice(buf);
        self.write_status(writer);
        buf.len()
    }
}

/// The entries after adding each of `names`, in order, as pending.
pub open spec fn add_pending(entries: Seq<(Seq<char>, NodeState)>, names: Seq<Seq<char>>) -> Seq<(Seq<char>, NodeState)>
    decreases names.len(),
{
    if names.len() == 0 {
        entries
    } else {
        upsert(add_pending(entries, names.drop_last()), names.last(), NodeState::Pending)
    }
}


/// Recording a node's state: the node then has that state, every other
/// node keeps its own, and no node gets two entries.
pub proof fn upsert_records_state(
    entries: Seq<(Seq<char>, NodeState)>,
    name: Seq<char>,
    state: NodeState,
    other: Seq<char>,
)
    requires
        unique_names(entries),
    ensures
        unique_names(upsert(entries, name, state)),
        state_of(upsert(entries, name, state), name) == Some(state),
        other != name ==> state_of(upsert(entries, name, state), other) == state_of(entries, other),
{
    let after = upsert(entries, name, state);
    if exists|i: int| 0 <= i < entries.len() && entries[i].0 == name {
        let i = choose|i: int| 0 <= i < entries.len() && entries[i].0 == name;
        assert(unique_names(after));
        assert(after[i].0 == name);
        if other != name {
            if exists|k: int| 0 <= k < entries.len() && entries[k].0 == other {
                let k = choose|k: int| 0 <= k < entries.len() && entries[k].0 == other;
                assert(after[k].0 == other);
            } else {
                assert(forall|k: int| 0 <= k < after.len() ==> after[k].0 != other);
            }
        }
    } else {
        assert(unique_names(after));
        let n = entries.len() as int;
        assert(after[n].0 == name);
        if other != name {
            if exists|k: int| 0 <= k < entries.len() && entries[k].0 == other {
                let k = choose|k: int| 0 <= k < entries.len() && entries[k].0 == other;
                assert(after[k].0 == other);
            } else {
                assert(forall|k: int| 0 <= k < after.len() ==> after[k].0 != other);
            }
        }
    }
}

/// Recording a node's state twice is recording it once: marking a node
/// succeeded (or failed, or running a step) a second time changes nothing.
pub proof fn upsert_twice_is_once(entries: Seq<(Seq<char>, NodeState)>, name: Seq<char>, state: NodeState)
    requires
        unique_names(entries),
    ensures
        upsert(upsert(entries, name, state), name, state) == upsert(entries, name, state),
{
    let once = upsert(entries, name, state);
    upsert_records_state(entries, name, state, name);
    let i = if exists|i: int| 0 <= i < entries.len() && entries[i].0 == name {
        choose|i: int| 0 <= i < entries.len() && entries[i].0 == name
    } else {
        entries.len() as int
    };
    assert(0 <= i < once.len() && once[i] == (name, state));
    let j = choose|j: int| 0 <= j < once.len() && once[j].0 == name;
    assert(j == i);
    assert(once.update(j, (name, state)) =~= once);
}

/// Marking a node of a status succeeded a second time leaves the entries
/// as the first time left them (and so for any state recorded twice).
pub proof fn marking_twice_is_marking_once(status: &Status, name: Seq<char>, state: NodeState)
    requires
        status.wf(),
    ensures
        upsert(upsert(status.entries(), name, state), name, state) == upsert(status.entries(), name, state),
{
    upsert_twice_is_once(status.entries(), name, state);
}

/// The counts of the status line agree: the failed nodes are among the
/// finished ones, and no node is both finished and running.
pub proof fn status_counts_agree(entries: Seq<(Seq<char>, NodeState)>)
    ensures
        count_failed(entries) <= count_finished(entries),
        count_finished(entries) + count_running(entries) <= entries.len(),
    decreases entries.len(),
{
    if entries.len() > 0 {
        status_counts_agree(entries.drop_last());
    }
}

} // verus!
