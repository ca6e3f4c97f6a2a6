//! The HTTP side of the framework: directives, the three tiers of
//! configuration and how a value inherits down them, and the callbacks by
//! which nginx drives a module through startup.
use vstd::prelude::*;

pub mod conf;
pub mod merge;
pub mod module;
pub mod module_safe;

pub use conf::command::{ArgCount, ArgType, Command, CommandContext, ConfOffset, NgxCommand, NgxStr};
pub use conf::CommandBuilder;
pub use merge::{merge_optional, merge_required, Flag};
pub use module::{HttpModule, Merge, MergeConfigError, RawHttpModule, Typed};
pub use module_safe::{Error, NgxConf, NgxMainConf, Phase, SafeHttpModule};

verus! {

/// The tag of a module that takes part in the handling of HTTP: the letters
/// `HTTP`, last letter first.
pub const NGX_HTTP_MODULE: usize = 0x5054_5448;

/// The index of a module that nginx has not numbered yet.
pub const NGX_MODULE_UNSET_INDEX: usize = usize::MAX;

/// The record by which nginx knows a module. There is one for each module, it
/// is made once and stays where it is: nginx finds a module's configuration
/// values by the indices it writes into this record.
///
/// The fields stand in the order in which nginx declares them. A pointer is
/// an address here, and a hook that is not there is null.
#[derive(Debug, Clone, Copy, PartialEq, Eq, Structural)]
pub struct NgxModule {
    /// The module's index among the modules of its kind.
    pub ctx_index: usize,
    /// The module's index among all modules.
    pub index: usize,
    /// The module's name.
    pub name: usize,
    /// Unused.
    pub spare0: usize,
    /// Unused.
    pub spare1: usize,
    /// The version of nginx the module was built for.
    pub version: usize,
    /// The signature of the build, a string.
    pub signature: usize,
    /// The table of the module's callbacks.
    pub ctx: usize,
    /// The table of the module's directives.
    pub commands: usize,
    /// The kind of module.
    pub type_: usize,
    /// Runs when the master process starts.
    pub init_master: usize,
    /// Runs when the module is set up.
    pub init_module: usize,
    /// Runs when a worker process starts.
    pub init_process: usize,
    /// Runs when a thread starts.
    pub init_thread: usize,
    /// Runs when a thread ends.
    pub exit_thread: usize,
    /// Runs when a worker process ends.
    pub exit_process: usize,
    /// Runs when the master process ends.
    pub exit_master: usize,
    /// Unused.
    pub spare_hook0: usize,
    /// Unused.
    pub spare_hook1: usize,
    /// Unused.
    pub spare_hook2: usize,
    /// Unused.
    pub spare_hook3: usize,
    /// Unused.
    pub spare_hook4: usize,
    /// Unused.
    pub spare_hook5: usize,
    /// Unused.
    pub spare_hook6: usize,
    /// Unused.
    pub spare_hook7: usize,
}

/// The record for an HTTP module whose callbacks lie at `ctx` and whose
/// directives lie at `commands`, built for the version `version` of nginx with
/// the build signature at `signature`. nginx has not numbered the module yet,
/// the module has no hooks into the life of the processes, and everything
/// that is unused is zero.
pub fn define_http_module(version: usize, signature: usize, ctx: usize, commands: usize) -> (module: NgxModule)
    ensures
        module == (NgxModule {
            ctx_index: NGX_MODULE_UNSET_INDEX,
            index: NGX_MODULE_UNSET_INDEX,
            name: 0,
            spare0: 0,
            spare1: 0,
            version,
            signature,
            ctx,
            commands,
            type_: NGX_HTTP_MODULE,
            init_master: 0,
            init_module: 0,
            init_process: 0,
            init_thread: 0,
            exit_thread: 0,
            exit_process: 0,
            exit_master: 0,
            spare_hook0: 0,
            spare_hook1: 0,
            spare_hook2: 0,
            spare_hook3: 0,
            spare_hook4: 0,
            spare_hook5: 0,
            spare_hook6: 0,
            spare_hook7: 0,
        }),
{
    NgxModule {
        ctx_index: NGX_MODULE_UNSET_INDEX,
        index: NGX_MODULE_UNSET_INDEX,
        name: 0,
        spare0: 0,
        spare1: 0,
        version,
        signature,
        ctx,
        commands,
        type_: NGX_HTTP_MODULE,
        init_master: 0,
        init_module: 0,
        init_process: 0,
        init_thread: 0,
        exit_thread: 0,
        exit_process: 0,
        exit_master: 0,
        spare_hook0: 0,
        spare_hook1: 0,
        spare_hook2: 0,
        spare_hook3: 0,
        spare_hook4: 0,
        spare_hook5: 0,
        spare_hook6: 0,
        spare_hook7: 0,
    }
}

} // verus!
