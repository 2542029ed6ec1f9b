use vstd::prelude::*;

verus! {

/// How to run one job of the catalog.
#[derive(Clone, Debug)]
pub struct ChenJob {
    pub executable: String,
    /// Arguments separated by whitespace; there is no quoting.
    pub arguments: Option<String>,
    /// Seconds; kept from the configuration, not enforced.
    pub timeout: i32,
    pub is_async: bool,
    /// The clients that may run the job; absent or empty means anyone.
    pub allowed_clients: Option<Vec<String>>,
}

/// The agent's configuration: where to connect, its secret, and the job catalog.
#[derive(Clone, Debug)]
pub struct ChenConfig {
    pub gensokyo_url: String,
    /// Seconds; kept from the configuration, not used.
    pub reconnect_timeout: i32,
    pub client_secret: String,
    /// The catalog, by job name; `wf` asks that the names be distinct.
    pub jobs: Vec<(String, ChenJob)>,
}

/// Whether `client` may run `job`.
pub open spec fn allows(job: ChenJob, client: Seq<char>) -> bool {
    match job.allowed_clients {
        None => true,
        Some(list) => list@.len() == 0 || exists|i: int| 0 <= i < list@.len() && #[trigger] list@[i]@ == client,
    }
}

impl ChenConfig {
    /// Job names are distinct.
    pub open spec fn wf(&self) -> bool {
        forall|i: int, j: int|
            0 <= i < self.jobs@.len() && 0 <= j < self.jobs@.len() && i != j
                ==> (#[trigger] self.jobs@[i]).0@ != (#[trigger] self.jobs@[j]).0@
    }

    /// The job names, in catalog order.
    pub open spec fn names(&self) -> Seq<Seq<char>> {
        self.jobs@.map_values(|e: (String, ChenJob)| e.0@)
    }

    pub open spec fn has_job(&self, name: Seq<char>) -> bool {
        exists|i: int| 0 <= i < self.jobs@.len() && #[trigger] self.jobs@[i].0@ == name
    }

    /// The entry named `name`, if the catalog has one.
    pub open spec fn job_named(&self, name: Seq<char>) -> Option<ChenJob> {
        if self.has_job(name) {
            Some(self.jobs@[choose|i: int| 0 <= i < self.jobs@.len() && #[trigger] self.jobs@[i].0@ == name].1)
        } else {
            None
        }
    }

    /// Whether the job names are distinct, as `wf` asks.
    pub fn has_distinct_names(&self) -> (r: bool)
        ensures
            r == self.wf(),
    {
        let n = self.jobs.len();
        let mut i: usize = 0;
        while i < n
            invariant
                n == self.jobs@.len(),
                i <= n,
                forall|a: int, b: int| 0 <= a < i && 0 <= b < n && a != b
                    ==> (#[trigger] self.jobs@[a]).0@ != (#[trigger] self.jobs@[b]).0@,
            decreases n - i,
        {
            let mut j: usize = 0;
            while j < n
                invariant
                    n == self.jobs@.len(),
                    i < n,
                    j <= n,
                    forall|a: int, b: int| 0 <= a < i && 0 <= b < n && a != b
                        ==> (#[trigger] self.jobs@[a]).0@ != (#[trigger] self.jobs@[b]).0@,
                    forall|b: int| 0 <= b < j && b != i
                        ==> self.jobs@[i as int].0@ != (#[trigger] self.jobs@[b]).0@,
                decreases n - j,
            {
                if j != i && self.jobs[i].0.eq(&self.jobs[j].0) {
                    assert(!self.wf()) by {
                        assert(self.jobs@[i as int].0@ == self.jobs@[j as int].0@);
                    }
                    return false;
                }
                j += 1;
            }
            i += 1;
        }
        true
    }

    /// The position of the entry named `name`. With distinct names this is
    /// the entry `job_named` speaks of.
    pub fn find_job(&self, name: &String) -> (r: Option<usize>)
        requires
            self.wf(),
        ensures
            r is None <==> !self.has_job(name@),
            r matches Some(i) ==> i < self.jobs@.len() && self.jobs@[i as int].0@ == name@
                && self.job_named(name@) == Some(self.jobs@[i as int].1),
    {
        let mut i: usize = 0;
        while i < self.jobs.len()
            invariant
                i <= self.jobs@.len(),
                self.wf(),
                forall|k: int| 0 <= k < i ==> #[trigger] self.jobs@[k].0@ != name@,
            decreases self.jobs@.len() - i,
        {
            if self.jobs[i].0.eq(name) {
                assert(self.jobs@[i as int].0@ == name@);
                assert(self.has_job(name@));
                let ghost c = choose|k: int| 0 <= k < self.jobs@.len() && #[trigger] self.jobs@[k].0@ == name@;
                assert(c == i) by {
                    if c != i {
                        assert(self.jobs@[c].0@ != self.jobs@[i as int].0@);
                    }
                }
                return Some(i);
            }
            i += 1;
        }
        None
    }
}

impl ChenJob {
    /// Whether `client` may run this job: anyone when no list is configured
    /// or the list is empty, else only a client on the list.
    pub fn allows_client(&self, client: &String) -> (r: bool)
        ensures
            r == allows(*self, client@),
    {
        match &self.allowed_clients {
            None => true,
            Some(list) => {
                if list.len() == 0 {
                    return true;
                }
                let mut i: usize = 0;
                while i < list.len()
                    invariant
                        i <= list@.len(),
                        self.allowed_clients == Some(*list),
                        forall|k: int| 0 <= k < i ==> #[trigger] list@[k]@ != client@,
                    decreases list@.len() - i,
                {
                    if list[i].eq(client) {
                        assert(list@[i as int]@ == client@);
                        return true;
                    }
                    i += 1;
                }
                false
            }
        }
    }
}

} // verus!
