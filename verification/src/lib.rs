//! Bootstrap plan for a desktop application shell.
//!
//! The application attaches five capability plugins to its builder, in a
//! fixed order, before handing control to the host event loop; if the loop
//! fails to start, the process aborts with a fixed message.  This crate
//! states that plan — which plugins, in which order, and when the loop may
//! start — and proves that the assembly follows it.  The host calls
//! themselves live outside the library.

use vstd::prelude::*;

verus! {

/// A capability plugin that the application attaches to its builder before
/// the event loop starts.
#[derive(Clone, Copy, Debug, PartialEq, Eq, Structural)]
pub enum Plugin {
    /// Filesystem access.
    Fs,
    /// Logging.
    Log,
    /// Native dialogs.
    Dialog,
    /// Shell execution.
    Shell,
    /// SQL database access.
    Sql,
}

/// The fixed order in which the five plugins are attached: filesystem
/// first, then logging, dialogs, shell, and SQL last.
pub open spec fn plugin_order() -> Seq<Plugin> {
    seq![Plugin::Fs, Plugin::Log, Plugin::Dialog, Plugin::Shell, Plugin::Sql]
}

/// The full registration sequence: each of the five plugins exactly once,
/// in the fixed order.
pub fn registration_sequence() -> (r: Vec<Plugin>)
    ensures
        r@ == plugin_order(),
{
    let mut v: Vec<Plugin> = Vec::new();
    v.push(Plugin::Fs);
    v.push(Plugin::Log);
    v.push(Plugin::Dialog);
    v.push(Plugin::Shell);
    v.push(Plugin::Sql);
    proof {
        assert(v@ =~= plugin_order());
    }
    v
}

/// Progress of the assembly: the plugins attached to the builder so far,
/// oldest first.
pub struct Bootstrap {
    attached: Vec<Plugin>,
}

impl Bootstrap {
    /// The plugins attached so far, in the order they were attached.
    pub closed spec fn view(&self) -> Seq<Plugin> {
        self.attached@
    }

    /// What is attached is always a prefix of the fixed order.
    pub open spec fn wf(&self) -> bool {
        &&& self@.len() <= plugin_order().len()
        &&& self@ == plugin_order().take(self@.len() as int)
    }

    /// Every plugin is attached, so the event loop may start.
    pub open spec fn complete(&self) -> bool {
        self@ =~= plugin_order()
    }

    /// A fresh assembly with nothing attached yet.
    pub fn new() -> (b: Bootstrap)
        ensures
            b.wf(),
            b@.len() == 0,
    {
        let b = Bootstrap { attached: Vec::new() };
        proof {
            assert(b@ =~= plugin_order().take(0));
        }
        b
    }

    /// Attach the next plugin of the fixed order and return it, or return
    /// `None` once all five are in place.
    pub fn attach_next(&mut self) -> (r: Option<Plugin>)
        requires
            old(self).wf(),
        ensures
            final(self).wf(),
            old(self)@.len() < plugin_order().len() ==> {
                &&& r == Some(plugin_order()[old(self)@.len() as int])
                &&& final(self)@ == old(self)@.push(plugin_order()[old(self)@.len() as int])
            },
            old(self)@.len() == plugin_order().len() ==> {
                &&& r is None
                &&& final(self)@ == old(self)@
            },
    {
        let i: usize = self.attached.len();
        let p: Plugin = match i {
            0 => Plugin::Fs,
            1 => Plugin::Log,
            2 => Plugin::Dialog,
            3 => Plugin::Shell,
            4 => Plugin::Sql,
            _ => {
                return None;
            },
        };
        self.attached.push(p);
        proof {
            assert(self@ =~= plugin_order().take(self@.len() as int));
        }
        Some(p)
    }

    /// Whether the assembly is complete and the event loop may start.
    pub fn ready(&self) -> (r: bool)
        requires
            self.wf(),
        ensures
            r == self.complete(),
    {
        let r = self.attached.len() == 5;
        proof {
            if r {
                assert(self@ =~= plugin_order());
            }
        }
        r
    }
}

/// The message with which the process aborts when the event loop fails to
/// start.
pub fn startup_failure_message() -> (r: String)
    ensures
        r@ == "error while running tauri application"@,
{
    String::from_str("error while running tauri application")
}

} // verus!
