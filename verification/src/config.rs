use vstd::prelude::*;

verus! {

// The process configuration, as plain values. Reading it from the
// environment is the shell's work; the core only holds it.

/// What the process itself needs to know about itself.
#[derive(Debug)]
pub struct App {
    pub env: String,
    pub name: String,
    pub port: u16,
}

/// Where the database lives.
#[derive(Debug)]
pub struct Database {
    pub url: String,
}

/// Where the message bus lives.
#[derive(Debug)]
pub struct Kafka {
    pub url: String,
}

/// The whole process configuration.
#[derive(Debug)]
pub struct Config {
    pub app: App,
    pub database: Database,
    pub kafka: Kafka,
}

/// The request counters the process exports: how many requests ended well
/// and how many did not.
#[derive(Clone, Copy, Debug, PartialEq, Eq, Structural)]
pub struct Prometheus {
    pub success_count: u64,
    pub fail_count: u64,
}

impl Prometheus {
    /// Fresh counters, both at zero.
    pub fn init() -> (r: Prometheus)
        ensures
            r.success_count == 0,
            r.fail_count == 0,
    {
        Prometheus { success_count: 0, fail_count: 0 }
    }

    /// Counts one finished request, on the counter its outcome selects;
    /// a counter that reached its limit stays there.
    pub fn observe(&mut self, success: bool)
        ensures
            success ==> final(self).success_count == if old(self).success_count < u64::MAX {
                old(self).success_count + 1
            } else {
                old(self).success_count as int
            } && final(self).fail_count == old(self).fail_count,
            !success ==> final(self).fail_count == if old(self).fail_count < u64::MAX {
                old(self).fail_count + 1
            } else {
                old(self).fail_count as int
            } && final(self).success_count == old(self).success_count,
    {
        if success {
            if self.success_count < u64::MAX {
                self.success_count = self.success_count + 1;
            }
        } else {
            if self.fail_count < u64::MAX {
                self.fail_count = self.fail_count + 1;
            }
        }
    }
}

} // verus!
