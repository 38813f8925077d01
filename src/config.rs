use vstd::prelude::*;

verus! {

/// Server settings: how many workers to run and which address to listen on.
pub struct Config {
    thread_count: usize,
    ip: String,
}

impl Config {
    /// The worker count held.
    pub closed spec fn spec_thread_count(self) -> usize {
        self.thread_count
    }

    /// The address held.
    pub closed spec fn spec_ip(self) -> Seq<char> {
        self.ip@
    }

    /// Settings holding exactly the given worker count and address.
    pub fn from_values(thread_count: usize, ip: String) -> (r: Config)
        ensures
            r.spec_thread_count() == thread_count,
            r.spec_ip() == ip@,
    {
        Config { thread_count, ip }
    }

    /// The number of workers asked for.
    pub fn thread_count(&self) -> (r: usize)
        ensures
            r == self.spec_thread_count(),
    {
        self.thread_count
    }

    /// The address to bind, as `host:port`.
    pub fn ip(&self) -> (r: &String)
        ensures
            r@ == self.spec_ip(),
    {
        &self.ip
    }
}

} // verus!
