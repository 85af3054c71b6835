use crate::common::{resolve_pid, resolved, unresolved_pid_text, MaybeHasPid};
use crate::error::{ErrorView, ProcCtlError, ProcCtlResult};
use crate::types::Pid;
use std::path::PathBuf;
use vstd::prelude::*;

verus! {

/// `std::path::PathBuf`, which the library carries along and never looks into.
#[verifier::external_type_specification]
#[verifier::external_body]
pub struct ExPathBuf(PathBuf);

/// Information about a process
#[derive(Debug, Clone)]
pub struct ProcInfo {
    /// The name
    pub name: String,
    /// The command used to launch the process
    pub cmd: Vec<String>,
    /// The path to the executable the process is running
    pub exe: Option<PathBuf>,
    /// The process ID
    pub pid: Pid,
    /// Parent process ID if relevant
    pub parent: Option<Pid>,
    /// Environment variables available to the process
    pub env: Vec<String>,
    /// The current working directory of the process
    pub cwd: Option<PathBuf>,
}

/// Get information about a process
#[derive(Debug, Clone)]
pub struct ProcQuery {
    process_id: Option<Pid>,
    name: Option<String>,
    min_num_children: Option<usize>,
}

/// A `ProcQuery` as a mathematical value.
pub ghost struct ProcQueryView {
    /// The process that the query is about, once it is set
    pub process_id: Option<Pid>,
    /// The name that a listed process must have, if one is set
    pub name: Option<Seq<char>>,
    /// The number of children below which the query fails, if one is set
    pub min_num_children: Option<usize>,
}

impl View for ProcQuery {
    type V = ProcQueryView;

    closed spec fn view(&self) -> ProcQueryView {
        ProcQueryView {
            process_id: self.process_id,
            name: match self.name {
                Some(name) => Some(name@),
                None => None,
            },
            min_num_children: self.min_num_children,
        }
    }
}

/// Whether `info` is a process that `query` lists: one with the pid that the
/// query names, if it names one, and with the name that it names, if it
/// names one.
pub open spec fn is_listed(query: ProcQueryView, info: ProcInfo) -> bool {
    &&& query.process_id matches Some(pid) ==> info.pid == pid
    &&& query.name matches Some(name) ==> info.name@ == name
}

/// Whether `info` is a child of the process `pid`.
pub open spec fn is_child_of(pid: Pid, info: ProcInfo) -> bool {
    info.parent == Some(pid)
}

/// The processes of `processes` that `query` lists, in their order.
pub open spec fn spec_list_processes(query: ProcQueryView, processes: Seq<ProcInfo>) -> Seq<
    ProcInfo,
> {
    processes.filter(|info: ProcInfo| is_listed(query, info))
}

/// The children of the process `pid` among `processes`, in their order.
pub open spec fn spec_children_of(pid: Pid, processes: Seq<ProcInfo>) -> Seq<ProcInfo> {
    processes.filter(|info: ProcInfo| is_child_of(pid, info))
}

/// What the check of `children` against the expected number
/// `min_num_children` gives: the children, or the error that holds their
/// number and the number expected.
pub open spec fn checked_children(
    children: Seq<ProcInfo>,
    min_num_children: Option<usize>,
) -> Result<Seq<ProcInfo>, ErrorView> {
    match min_num_children {
        Some(expected) if children.len() < expected => Err(
            ErrorView::TooFewChildren(children.len(), expected as nat),
        ),
        _ => Ok(children),
    }
}

/// What the lookup of the children of the process of `query` gives on the
/// process table `processes`.
pub open spec fn spec_children(query: ProcQueryView, processes: Seq<ProcInfo>) -> Result<
    Seq<ProcInfo>,
    ErrorView,
> {
    match resolved(query.process_id) {
        Ok(pid) => checked_children(spec_children_of(pid, processes), query.min_num_children),
        Err(error) => Err(error),
    }
}

/// The children that a lookup finds are exactly the processes of the table
/// whose parent is the process looked up.
pub proof fn lemma_children_are_exact(pid: Pid, processes: Seq<ProcInfo>, info: ProcInfo)
    ensures
        spec_children_of(pid, processes).contains(info) <==> processes.contains(info)
            && info.parent == Some(pid),
{
    let child = |info: ProcInfo| is_child_of(pid, info);
    let children = processes.filter(child);
    if children.contains(info) {
        let at = choose|at: int| 0 <= at < children.len() && children[at] == info;
        processes.lemma_filter_pred(child, at);
        processes.lemma_filter_contains_rev(child, info);
    }
    if processes.contains(info) && info.parent == Some(pid) {
        let at = choose|at: int| 0 <= at < processes.len() && processes[at] == info;
        processes.lemma_filter_contains(child, at);
    }
}

/// A lookup that expects children and finds none fails with `TooFewChildren`,
/// which holds 0 and the number expected.
pub proof fn lemma_no_children_is_too_few(query: ProcQueryView, processes: Seq<ProcInfo>)
    requires
        query.process_id is Some,
        query.min_num_children is Some,
        query.min_num_children->0 > 0,
        spec_children_of(query.process_id->0, processes).len() == 0,
    ensures
        spec_children(query, processes) == Err::<Seq<ProcInfo>, ErrorView>(
            ErrorView::TooFewChildren(0, query.min_num_children->0 as nat),
        ),
{
}

/// The result of a process query as a mathematical value.
pub open spec fn processes_outcome(result: ProcCtlResult<Vec<ProcInfo>>) -> Result<
    Seq<ProcInfo>,
    ErrorView,
> {
    match result {
        Ok(processes) => Ok(processes@),
        Err(error) => Err(error@),
    }
}

/// The suffix that the name of a program carries on Windows.
pub open spec fn exe_suffix() -> Seq<char> {
    seq!['.', 'e', 'x', 'e']
}

/// Whether `name` ends in the suffix of a program on Windows.
pub open spec fn has_exe_suffix(name: Seq<char>) -> bool {
    name.len() >= 4 && name.subrange(name.len() - 4, name.len() as int) == exe_suffix()
}

/// `name` as Windows reports the name of a process that runs the program:
/// with the suffix `.exe`, which is appended where `name` lacks it.
pub open spec fn spec_executable_name(name: Seq<char>) -> Seq<char> {
    if has_exe_suffix(name) {
        name
    } else {
        name + exe_suffix()
    }
}

/// The name under which Windows reports a process that runs the program
/// `name`: `name` itself where it ends in `.exe`, and else `name` with
/// `.exe` appended. A query for processes by name on Windows asks for this
/// name.
pub fn executable_name(name: &str) -> (full: String)
    ensures
        full@ == spec_executable_name(name@),
{
    let len = name.unicode_len();
    let mut full = name.to_string();
    let has_suffix = len >= 4 && name.get_char(len - 4) == '.' && name.get_char(len - 3) == 'e'
        && name.get_char(len - 2) == 'x' && name.get_char(len - 1) == 'e';
    proof {
        if len >= 4 {
            let last = name@.subrange(len - 4, len as int);
            if has_suffix {
                assert(last =~= exe_suffix());
            } else {
                assert(last[0] == name@[len - 4]);
                assert(last[1] == name@[len - 3]);
                assert(last[2] == name@[len - 2]);
                assert(last[3] == name@[len - 1]);
            }
        }
    }
    if !has_suffix {
        proof {
            reveal_strlit(".exe");
            assert(".exe"@ =~= exe_suffix());
        }
        full.append(".exe");
    }
    full
}

impl ProcQuery {
    /// Create a new process query
    pub fn new() -> (query: Self)
        ensures
            query@ == (ProcQueryView { process_id: None, name: None, min_num_children: None }),
    {
        ProcQuery { process_id: None, name: None, min_num_children: None }
    }

    /// Set the process ID to match
    ///
    /// One of this or [ProcQuery::process_name] must be called before the query is usable.
    pub fn process_id(self, pid: Pid) -> (query: Self)
        ensures
            query@ == (ProcQueryView { process_id: Some(pid), ..self@ }),
    {
        let mut query = self;
        query.process_id = Some(pid);
        query
    }

    /// Set the process name to match
    ///
    /// One of this or [ProcQuery::process_id] must be called before the query is usable.
    pub fn process_name(self, name: &str) -> (query: Self)
        ensures
            query@ == (ProcQueryView { name: Some(name@), ..self@ }),
    {
        let mut query = self;
        query.name = Some(name.to_string());
        query
    }

    /// Require at least `num_children` children to have been started by the matched process for the query to succeed.
    pub fn expect_min_num_children(self, num_children: usize) -> (query: Self)
        ensures
            query@ == (ProcQueryView { min_num_children: Some(num_children), ..self@ }),
    {
        let mut query = self;
        query.min_num_children = Some(num_children);
        query
    }

    /// Whether `info` is a process that the query lists.
    fn lists(&self, info: &ProcInfo) -> (listed: bool)
        ensures
            listed == is_listed(self@, *info),
    {
        let pid_matches = match self.process_id {
            Some(pid) => info.pid == pid,
            None => true,
        };
        let name_matches = match &self.name {
            Some(name) => info.name == *name,
            None => true,
        };
        pid_matches && name_matches
    }

    /// List all processes of the process table `processes` matching the
    /// current filters, in the order of the table.
    pub fn list_processes(&self, processes: Vec<ProcInfo>) -> (result: ProcCtlResult<
        Vec<ProcInfo>,
    >)
        ensures
            processes_outcome(result) == Ok::<Seq<ProcInfo>, ErrorView>(
                spec_list_processes(self@, processes@),
            ),
    {
        let ghost listed = |info: ProcInfo| is_listed(self@, info);
        let mut infos: Vec<ProcInfo> = Vec::new();
        for info in iter: processes.into_iter()
            invariant
                listed == |info: ProcInfo| is_listed(self@, info),
                iter.seq() == processes@,
                infos@ == iter.seq().take(iter.index()).filter(listed),
        {
            proof {
                let before = iter.seq().take(iter.index());
                assert(iter.seq().take(iter.index() + 1) =~= before.push(info));
                before.lemma_filter_push(info, listed);
            }
            if self.lists(&info) {
                infos.push(info);
            }
        }
        assert(processes@.take(processes@.len() as int) =~= processes@);
        Ok(infos)
    }

    /// Holds `children` against the number of children that the query
    /// expects: hands them back if they are enough, and else fails with
    /// `TooFewChildren`, which holds the number that was found and the
    /// number that was expected.
    pub fn check_min_num_children(&self, children: Vec<ProcInfo>) -> (result: ProcCtlResult<
        Vec<ProcInfo>,
    >)
        ensures
            processes_outcome(result) == checked_children(children@, self@.min_num_children),
    {
        match self.min_num_children {
            Some(num) => {
                if children.len() < num {
                    return Err(ProcCtlError::TooFewChildren(children.len(), num));
                }
            },
            None => {},
        }
        Ok(children)
    }

    /// Find the children of the selected process in the process table
    /// `processes`: the processes whose parent is the selected process, in
    /// the order of the table.
    ///
    /// Fails with a configuration error where no process ID is set, and with
    /// `TooFewChildren` where the children are fewer than the query expects.
    pub fn children(&self, processes: Vec<ProcInfo>) -> (result: ProcCtlResult<Vec<ProcInfo>>)
        ensures
            processes_outcome(result) == spec_children(self@, processes@),
            self@.process_id is None ==> processes_outcome(result) == Err::<
                Seq<ProcInfo>,
                ErrorView,
            >(ErrorView::ConfigurationError(unresolved_pid_text())),
            self@.process_id matches Some(pid) ==> {
                let children = spec_children_of(pid, processes@);
                match self@.min_num_children {
                    Some(expected) if children.len() < expected => processes_outcome(result)
                        == Err::<Seq<ProcInfo>, ErrorView>(
                        ErrorView::TooFewChildren(children.len(), expected as nat),
                    ),
                    _ => processes_outcome(result) == Ok::<Seq<ProcInfo>, ErrorView>(children),
                }
            },
    {
        let pid = match resolve_pid(self) {
            Ok(pid) => pid,
            Err(error) => {
                return Err(error);
            },
        };
        let ghost child = |info: ProcInfo| is_child_of(pid, info);
        let mut children: Vec<ProcInfo> = Vec::new();
        for info in iter: processes.into_iter()
            invariant
                child == |info: ProcInfo| is_child_of(pid, info),
                iter.seq() == processes@,
                children@ == iter.seq().take(iter.index()).filter(child),
        {
            proof {
                let before = iter.seq().take(iter.index());
                assert(iter.seq().take(iter.index() + 1) =~= before.push(info));
                before.lemma_filter_push(info, child);
            }
            let is_child = match info.parent {
                Some(parent) => parent == pid,
                None => false,
            };
            if is_child {
                children.push(info);
            }
        }
        assert(processes@.take(processes@.len() as int) =~= processes@);
        self.check_min_num_children(children)
    }
}

impl MaybeHasPid for ProcQuery {
    open spec fn spec_pid(&self) -> Option<Pid> {
        self@.process_id
    }

    fn get_pid(&self) -> (pid: Option<Pid>) {
        self.process_id
    }
}

impl Default for ProcQuery {
    fn default() -> (query: Self)
        ensures
            query@ == (ProcQueryView { process_id: None, name: None, min_num_children: None }),
    {
        ProcQuery::new()
    }
}

} // verus!
