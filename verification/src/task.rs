//! Probe tasks: one (host, path-suffix) pair, with its derived target URL.

use vstd::prelude::*;
use vstd::string::StringExecFns;

verus! {

/// One probe unit: an immutable (host, path-suffix) pair. Created by the
/// generator, consumed by exactly one probe.
pub struct Task {
    pub host: String,
    pub path: String,
}

/// The mathematical value of a [`Task`]: its host and path-suffix as
/// character sequences.
pub struct TaskView {
    pub host: Seq<char>,
    pub path: Seq<char>,
}

impl View for Task {
    type V = TaskView;

    open spec fn view(&self) -> TaskView {
        TaskView { host: self.host@, path: self.path@ }
    }
}

impl DeepView for Task {
    type V = TaskView;

    open spec fn deep_view(&self) -> TaskView {
        self.view()
    }
}

/// The scheme prefix prepended to every host when building a target URL.
pub open spec fn scheme_prefix() -> Seq<char> {
    seq!['h', 't', 't', 'p', 's', ':', '/', '/']
}

impl TaskView {
    /// The target URL of a task: the literal concatenation
    /// `https://` + host + path-suffix, with no normalization.
    pub open spec fn url(self) -> Seq<char> {
        scheme_prefix() + self.host + self.path
    }
}

impl Task {
    pub fn new(host: String, path: String) -> (t: Task)
        ensures
            t@ == (TaskView { host: host@, path: path@ }),
    {
        Task { host, path }
    }

    /// A copy with the same host and path-suffix.
    pub fn duplicate(&self) -> (t: Task)
        ensures
            t@ == self@,
    {
        Task { host: self.host.clone(), path: self.path.clone() }
    }

    /// The probe URL, built by literal concatenation.
    pub fn target_url(&self) -> (u: String)
        ensures
            u@ == self@.url(),
    {
        let mut u = String::from_str("https://");
        proof {
            reveal_strlit("https://");
            assert(u@ =~= scheme_prefix());
        }
        u.append(self.host.as_str());
        u.append(self.path.as_str());
        proof {
            assert(u@ =~= self@.url());
        }
        u
    }
}

} // verus!
