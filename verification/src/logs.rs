//! The logs of an ended job: which containers to ask for them, what is kept of
//! them per container, and the short account of a failure.

use vstd::prelude::*;
use crate::objects::{ContainerStatus, ContainerStatusView, Pod, PodView};
use crate::resources::entry_keys;
use crate::text::{
    find_char, index_of, last_index_of, lemma_index_of_absent, lemma_index_of_found,
    lemma_index_of_sound, lemma_last_index_of_sound, rfind_char, str_eq,
};

verus! {

/// `line` without the carriage return at its end, if it ends in one.
pub open spec fn without_cr(line: Seq<char>) -> Seq<char> {
    if line.len() > 0 && line.last() == '\r' {
        line.drop_last()
    } else {
        line
    }
}

/// What follows the last line feed of `text`; all of `text` where it has
/// none.
pub open spec fn after_last_newline(text: Seq<char>) -> Seq<char> {
    match last_index_of(text, '\n') {
        Some(i) => text.skip(i + 1),
        None => text,
    }
}

/// The first line of `text`, without its line ending; none where `text` is
/// empty. A line ends with a line feed, before which a carriage return counts
/// as part of the ending; the last line needs no ending.
pub open spec fn first_line(text: Seq<char>) -> Option<Seq<char>> {
    if text.len() == 0 {
        None
    } else {
        match index_of(text, '\n') {
            Some(i) => Some(without_cr(text.take(i))),
            None => Some(text),
        }
    }
}

/// The last line of `text`, without its line ending; none where `text` is
/// empty.
pub open spec fn last_line(text: Seq<char>) -> Option<Seq<char>> {
    if text.len() == 0 {
        None
    } else if text.last() == '\n' {
        Some(without_cr(after_last_newline(text.drop_last())))
    } else {
        Some(after_last_newline(text))
    }
}

/// The short account of a failed container's log: its first line, a line of
/// dots, its last line. An empty log leaves the dots alone.
pub open spec fn summary_of(logs: Seq<char>) -> Seq<char> {
    (match first_line(logs) {
        Some(line) => line,
        None => Seq::empty(),
    }) + "\n...\n"@ + (match last_line(logs) {
        Some(line) => line,
        None => Seq::empty(),
    })
}

/// The characters of `text` from `from` up to `end`, without a carriage
/// return at their end.
fn strip_cr(text: &str, from: usize, end: usize) -> (r: String)
    requires
        from <= end <= text@.len(),
    ensures
        r@ == without_cr(text@.subrange(from as int, end as int)),
{
    if end > from && text.get_char(end - 1) == '\r' {
        let r = String::from_str(text.substring_char(from, end - 1));
        proof {
            let line = text@.subrange(from as int, end as int);
            assert(line.last() == '\r');
            assert(r@ =~= line.drop_last());
        }
        r
    } else {
        let r = String::from_str(text.substring_char(from, end));
        proof {
            let line = text@.subrange(from as int, end as int);
            if line.len() > 0 {
                assert(line.last() == text@[end - 1]);
            }
        }
        r
    }
}

/// The first line of `logs`, if there is one.
pub fn first_line_of(logs: &str) -> (r: Option<String>)
    ensures
        r.deep_view() == first_line(logs@),
{
    let n = logs.unicode_len();
    if n == 0 {
        return None;
    }
    match find_char(logs, '\n') {
        Some(i) => {
            proof {
                lemma_index_of_sound(logs@, '\n');
                assert(logs@.subrange(0, i as int) =~= logs@.take(i as int));
            }
            Some(strip_cr(logs, 0, i))
        },
        None => {
            proof {
                assert(logs@.subrange(0, n as int) =~= logs@);
            }
            Some(String::from_str(logs.substring_char(0, n)))
        },
    }
}

/// The last line of `logs`, if there is one.
pub fn last_line_of(logs: &str) -> (r: Option<String>)
    ensures
        r.deep_view() == last_line(logs@),
{
    let n = logs.unicode_len();
    if n == 0 {
        return None;
    }
    if logs.get_char(n - 1) == '\n' {
        let ghost body = logs@.drop_last();
        proof {
            assert(logs@.take(n - 1) =~= body);
        }
        match rfind_char(logs, n - 1, '\n') {
            Some(i) => {
                proof {
                    lemma_last_index_of_sound(body, '\n');
                    assert(logs@.subrange(i + 1, n - 1) =~= body.skip(i + 1));
                }
                Some(strip_cr(logs, i + 1, n - 1))
            },
            None => {
                proof {
                    assert(logs@.subrange(0, n - 1) =~= body);
                }
                Some(strip_cr(logs, 0, n - 1))
            },
        }
    } else {
        proof {
            assert(logs@.take(n as int) =~= logs@);
        }
        match rfind_char(logs, n, '\n') {
            Some(i) => {
                proof {
                    lemma_last_index_of_sound(logs@, '\n');
                    assert(logs@.subrange(i + 1, n as int) =~= logs@.skip(i + 1));
                }
                Some(String::from_str(logs.substring_char(i + 1, n)))
            },
            None => {
                proof {
                    assert(logs@.subrange(0, n as int) =~= logs@);
                }
                Some(String::from_str(logs.substring_char(0, n)))
            },
        }
    }
}

/// The short account of a failed container's log.
pub fn summarize(logs: &str) -> (r: String)
    ensures
        r@ == summary_of(logs@),
{
    let mut summary = String::new();
    match first_line_of(logs) {
        Some(line) => {
            summary.append(line.as_str());
        },
        None => {},
    }
    summary.append("\n...\n");
    match last_line_of(logs) {
        Some(line) => {
            summary.append(line.as_str());
        },
        None => {},
    }
    proof {
        assert(summary@ =~= summary_of(logs@));
    }
    summary
}

/// True when the container has not started: it says that it waits, or it
/// says nothing of its state.
pub open spec fn is_waiting(status: ContainerStatusView) -> bool {
    match status.state {
        Some(state) => state.waiting,
        None => true,
    }
}

/// True when the container ended with an exit code other than zero.
pub open spec fn has_failed(status: ContainerStatusView) -> bool {
    match status.state {
        Some(state) => match state.terminated_exit_code {
            Some(code) => code != 0,
            None => false,
        },
        None => false,
    }
}

/// The statuses of a pod's containers: the init containers first.
pub open spec fn pod_statuses(pod: PodView) -> Seq<ContainerStatusView> {
    (match pod.init_container_statuses {
        Some(s) => s,
        None => Seq::empty(),
    }) + (match pod.container_statuses {
        Some(s) => s,
        None => Seq::empty(),
    })
}

/// The names of the containers that have started, in the order of their
/// statuses. Only these have logs.
pub open spec fn started_containers(statuses: Seq<ContainerStatusView>) -> Seq<Seq<char>>
    decreases statuses.len(),
{
    if statuses.len() == 0 {
        Seq::empty()
    } else if is_waiting(statuses.last()) {
        started_containers(statuses.drop_last())
    } else {
        started_containers(statuses.drop_last()).push(statuses.last().name)
    }
}

/// The name of the last container that has failed, if one has.
pub open spec fn failed_container(statuses: Seq<ContainerStatusView>) -> Option<Seq<char>>
    decreases statuses.len(),
{
    if statuses.len() == 0 {
        None
    } else if has_failed(statuses.last()) {
        Some(statuses.last().name)
    } else {
        failed_container(statuses.drop_last())
    }
}

/// What to do about the logs of one pod: the containers to ask, and the one
/// whose log is summed up.
#[derive(Clone, Debug)]
pub struct LogPlan {
    pub container_names: Vec<String>,
    pub failed_container_name: Option<String>,
}

/// Goes through `statuses` after the first `done` statuses of the pod.
fn scan_statuses(
    statuses: &Vec<ContainerStatus>,
    names: &mut Vec<String>,
    failed: &mut Option<String>,
    Ghost(before): Ghost<Seq<ContainerStatusView>>,
)
    requires
        old(names).deep_view() == started_containers(before),
        old(failed).deep_view() == failed_container(before),
    ensures
        final(names).deep_view() == started_containers(before + statuses.deep_view()),
        final(failed).deep_view() == failed_container(before + statuses.deep_view()),
{
    let mut i: usize = 0;
    while i < statuses.len()
        invariant
            i <= statuses.len(),
            names.deep_view() == started_containers(before + statuses.deep_view().take(i as int)),
            failed.deep_view() == failed_container(before + statuses.deep_view().take(i as int)),
        decreases statuses.len() - i,
    {
        let status = &statuses[i];
        proof {
            let seen = before + statuses.deep_view().take(i as int);
            let next = before + statuses.deep_view().take(i + 1);
            assert(statuses.deep_view()[i as int] == status@);
            assert(next.drop_last() =~= seen);
            assert(next.last() == status@);
        }
        let waiting = match &status.state {
            Some(state) => state.waiting,
            None => true,
        };
        if !waiting {
            let ghost old_names = names.deep_view();
            names.push(status.name.clone());
            proof {
                assert(names.deep_view() =~= old_names.push(status.name@));
            }
        }
        let has_failed = match &status.state {
            Some(state) => match state.terminated_exit_code {
                Some(code) => code != 0,
                None => false,
            },
            None => false,
        };
        if has_failed {
            *failed = Some(status.name.clone());
        }
        i += 1;
    }
    proof {
        assert(statuses.deep_view().take(statuses.len() as int) =~= statuses.deep_view());
    }
}

/// Which containers of `pod` to ask for their logs, and which of them has
/// failed.
pub fn log_plan(pod: &Pod) -> (r: LogPlan)
    ensures
        r.container_names.deep_view() == started_containers(pod_statuses(pod@)),
        r.failed_container_name.deep_view() == failed_container(pod_statuses(pod@)),
{
    let mut names: Vec<String> = Vec::new();
    let mut failed: Option<String> = None;
    proof {
        assert(names.deep_view() =~= Seq::<Seq<char>>::empty());
    }
    let ghost empty = Seq::<ContainerStatusView>::empty();
    let ghost init = match pod@.init_container_statuses {
        Some(s) => s,
        None => Seq::empty(),
    };
    match &pod.init_container_statuses {
        Some(statuses) => {
            scan_statuses(statuses, &mut names, &mut failed, Ghost(empty));
            proof {
                assert(empty + statuses.deep_view() =~= init);
            }
        },
        None => {},
    }
    match &pod.container_statuses {
        Some(statuses) => {
            scan_statuses(statuses, &mut names, &mut failed, Ghost(init));
        },
        None => {
            proof {
                assert(init + Seq::<ContainerStatusView>::empty() =~= init);
            }
        },
    }
    LogPlan { container_names: names, failed_container_name: failed }
}

/// The logs by container after `logs` came in for the container `name`:
/// appended to what the container had, or put down as a new entry.
pub open spec fn recorded(
    entries: Seq<(Seq<char>, Seq<char>)>,
    name: Seq<char>,
    logs: Seq<char>,
) -> Seq<(Seq<char>, Seq<char>)> {
    match index_of(entry_keys(entries), name) {
        Some(i) => entries.update(i, (name, entries[i].1 + logs)),
        None => entries.push((name, logs)),
    }
}

/// True when no container name has two entries.
pub open spec fn names_unique(entries: Seq<(Seq<char>, Seq<char>)>) -> bool {
    forall|i: int, j: int| 0 <= i < j < entries.len() ==> entries[i].0 != entries[j].0
}

/// Taking in a log keeps one entry per container name, and leaves the
/// entries of the other containers as they are.
pub proof fn lemma_recorded_keeps_names_unique(
    entries: Seq<(Seq<char>, Seq<char>)>,
    name: Seq<char>,
    logs: Seq<char>,
)
    requires
        names_unique(entries),
    ensures
        names_unique(recorded(entries, name, logs)),
        forall|k: int|
            0 <= k < entries.len() && entries[k].0 != name ==> #[trigger] recorded(
                entries,
                name,
                logs,
            )[k] == entries[k],
{
    let keys = entry_keys(entries);
    let after = recorded(entries, name, logs);
    lemma_index_of_sound(keys, name);
    match index_of(keys, name) {
        Some(i) => {
            assert(keys[i] == entries[i].0);
        },
        None => {
            assert forall|i: int, j: int| 0 <= i < j < after.len() implies after[i].0
                != after[j].0 by {
                if j == entries.len() {
                    assert(keys[i] == entries[i].0);
                }
            }
        },
    }
}

/// The account of a failure after `logs` came in for the container `name`:
/// longer by the log's summary where that container is the failed one.
pub open spec fn summed_up(
    summary: Seq<char>,
    name: Seq<char>,
    failed: Option<Seq<char>>,
    logs: Seq<char>,
) -> Seq<char> {
    if failed == Some(name) {
        summary + summary_of(logs)
    } else {
        summary
    }
}

/// What has been captured of a job's logs so far.
#[derive(Clone, Debug)]
pub struct CapturedLogs {
    pub per_container_logs: Vec<(String, String)>,
    pub log_summary: String,
}

impl CapturedLogs {
    /// Nothing captured yet.
    pub fn new() -> (r: Self)
        ensures
            r.per_container_logs.deep_view() == Seq::<(Seq<char>, Seq<char>)>::empty(),
            r.log_summary@ == Seq::<char>::empty(),
    {
        let r = CapturedLogs { per_container_logs: Vec::new(), log_summary: String::new() };
        proof {
            assert(r.per_container_logs.deep_view() =~= Seq::<(Seq<char>, Seq<char>)>::empty());
        }
        r
    }

    /// Takes in the logs of the container `container_name` of a pod whose
    /// failed container, if any, is `failed_container_name`. Logs of containers
    /// of the same name in several pods are put one after the other.
    pub fn record(
        &mut self,
        container_name: &str,
        failed_container_name: &Option<String>,
        logs: String,
    )
        ensures
            final(self).per_container_logs.deep_view() == recorded(
                old(self).per_container_logs.deep_view(),
                container_name@,
                logs@,
            ),
            final(self).log_summary@ == summed_up(
                old(self).log_summary@,
                container_name@,
                failed_container_name.deep_view(),
                logs@,
            ),
    {
        let is_failed = match failed_container_name {
            Some(failed) => str_eq(failed.as_str(), container_name),
            None => false,
        };
        if is_failed {
            self.log_summary.append(summarize(logs.as_str()).as_str());
        }
        let ghost before = old(self).per_container_logs.deep_view();
        let ghost keys = entry_keys(before);
        let mut i: usize = 0;
        while i < self.per_container_logs.len()
            invariant
                i <= self.per_container_logs.len(),
                before == old(self).per_container_logs.deep_view(),
                self.per_container_logs.deep_view() == before,
                self.log_summary@ == summed_up(
                    old(self).log_summary@,
                    container_name@,
                    failed_container_name.deep_view(),
                    logs@,
                ),
                keys == entry_keys(before),
                forall|j: int| 0 <= j < i ==> keys[j] != container_name@,
            decreases self.per_container_logs.len() - i,
        {
            assert(keys[i as int] == self.per_container_logs@[i as int].0@);
            if str_eq(self.per_container_logs[i].0.as_str(), container_name) {
                let so_far = self.per_container_logs[i].1.clone();
                proof {
                    lemma_index_of_found(keys, container_name@, i as int);
                    assert(before[i as int].1 == so_far@);
                }
                let entry = (String::from_str(container_name), so_far.concat(logs.as_str()));
                self.per_container_logs.set(i, entry);
                proof {
                    assert(self.per_container_logs.deep_view() =~= before.update(
                        i as int,
                        (container_name@, before[i as int].1 + logs@),
                    ));
                }
                return ;
            }
            i += 1;
        }
        proof {
            lemma_index_of_absent(keys, container_name@);
        }
        let entry = (String::from_str(container_name), logs);
        self.per_container_logs.push(entry);
        proof {
            assert(self.per_container_logs.deep_view() =~= before.push((container_name@, logs@)));
        }
    }
}

} // verus!
