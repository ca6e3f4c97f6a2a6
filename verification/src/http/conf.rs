//! Where a module's configuration values are found, and the plain way of
//! filling in a directive's table entry.
//!
//! For each tier nginx keeps a table of configuration values with one slot
//! per module. A module finds its own slot by the index that nginx gave it
//! when it numbered the modules.
use vstd::prelude::*;
use vstd::std_specs::convert::FromSpecImpl;

pub mod command;

pub use command::ConfOffset;
use command::{NgxCommand, NgxStr};

verus! {

/// The slot at `ctx_index` of a tier's table: the address of the module's
/// value, or null where the table has no such slot.
pub open spec fn slot_of(table: Seq<usize>, ctx_index: usize) -> usize {
    if ctx_index < table.len() {
        table[ctx_index as int]
    } else {
        0
    }
}

/// The address of a module's value for the `http` block, by the table of that
/// tier and the module's index. A module that nginx has not numbered has an
/// index beyond every table, and no value.
pub fn ngx_http_conf_get_module_main_conf(main_conf: &[usize], ctx_index: usize) -> (conf: usize)
    ensures
        conf == slot_of(main_conf@, ctx_index),
{
    if ctx_index < main_conf.len() {
        main_conf[ctx_index]
    } else {
        0
    }
}

/// The address of a module's value for the current `server` block.
pub fn ngx_http_conf_get_module_srv_conf(srv_conf: &[usize], ctx_index: usize) -> (conf: usize)
    ensures
        conf == slot_of(srv_conf@, ctx_index),
{
    if ctx_index < srv_conf.len() {
        srv_conf[ctx_index]
    } else {
        0
    }
}

/// The address of a module's value for the current `location` block.
pub fn ngx_http_conf_get_module_loc_conf(loc_conf: &[usize], ctx_index: usize) -> (conf: usize)
    ensures
        conf == slot_of(loc_conf@, ctx_index),
{
    if ctx_index < loc_conf.len() {
        loc_conf[ctx_index]
    } else {
        0
    }
}

/// The address, for reading, of a module's value in an `upstream` block.
/// `us` is the table of that block, nothing if there is no such block; only
/// then is there no answer.
pub fn ngx_http_conf_upstream_srv_conf_immutable(us: Option<&[usize]>, ctx_index: usize) -> (conf: Option<usize>)
    ensures
        conf == (match us {
            Some(srv_conf) => Some(slot_of(srv_conf@, ctx_index)),
            None => None,
        }),
{
    match us {
        None => None,
        Some(srv_conf) => Some(ngx_http_conf_get_module_srv_conf(srv_conf, ctx_index)),
    }
}

/// The address, for writing, of a module's value in an `upstream` block.
/// `us` is the table of that block, nothing if there is no such block; only
/// then is there no answer.
pub fn ngx_http_conf_upstream_srv_conf_mutable(us: Option<&[usize]>, ctx_index: usize) -> (conf: Option<usize>)
    ensures
        conf == (match us {
            Some(srv_conf) => Some(slot_of(srv_conf@, ctx_index)),
            None => None,
        }),
{
    match us {
        None => None,
        Some(srv_conf) => Some(ngx_http_conf_get_module_srv_conf(srv_conf, ctx_index)),
    }
}

/// A directive's table entry in the making, field by field. `C` is the type
/// of the raw callback.
pub struct CommandBuilder<C> {
    name: &'static [u8],
    post: Option<usize>,
    set: Option<C>,
    ty: u32,
    conf_offset: ConfOffset,
    offset: usize,
}

/// What a [`CommandBuilder`] holds, in terms a contract can speak of.
pub struct CommandBuilderView<C> {
    /// The directive's name.
    pub name: Seq<u8>,
    /// The address to pass through to the callback, if one was given.
    pub post: Option<usize>,
    /// The raw callback, if one was given.
    pub set: Option<C>,
    /// The mask: argument bits and scope bits.
    pub ty: u32,
    /// Which tier's value the callback receives.
    pub conf_offset: ConfOffset,
    /// Where in the value a field lies; always zero.
    pub offset: usize,
}

impl<C> View for CommandBuilder<C> {
    type V = CommandBuilderView<C>;

    closed spec fn view(&self) -> CommandBuilderView<C> {
        CommandBuilderView {
            name: self.name@,
            post: self.post,
            set: self.set,
            ty: self.ty,
            conf_offset: self.conf_offset,
            offset: self.offset,
        }
    }
}

impl<C: Copy> CommandBuilder<C> {
    /// An entry for the directive `name` with nothing else set: no callback,
    /// no bits, no address to pass through.
    pub fn new(name: &'static [u8], conf_offset: ConfOffset) -> (builder: Self)
        ensures
            builder@ == (CommandBuilderView::<C> {
                name: name@,
                post: None,
                set: None,
                ty: 0,
                conf_offset,
                offset: 0,
            }),
    {
        Self { name, post: None, set: None, ty: 0, conf_offset, offset: 0 }
    }

    /// The same entry with `post` as the address to pass through.
    pub fn post(self, post: usize) -> (builder: Self)
        ensures
            builder@ == (CommandBuilderView { post: Some(post), ..self@ }),
    {
        let mut builder = self;
        builder.post = Some(post);
        builder
    }

    /// The same entry with `ty` as its mask.
    pub fn ty(self, ty: u32) -> (builder: Self)
        ensures
            builder@ == (CommandBuilderView { ty, ..self@ }),
    {
        let mut builder = self;
        builder.ty = ty;
        builder
    }

    /// The same entry with `set` as its callback.
    pub fn set(self, set: C) -> (builder: Self)
        ensures
            builder@ == (CommandBuilderView { set: Some(set), ..self@ }),
    {
        let mut builder = self;
        builder.set = Some(set);
        builder
    }

    /// The entry as nginx reads it.
    pub closed spec fn built(&self) -> NgxCommand<C> {
        NgxCommand {
            name: NgxStr { len: self.name@.len() as usize, data: self.name },
            type_: self.ty as usize,
            set: self.set,
            conf: self.conf_offset.conf_offset() as usize,
            offset: self.offset,
            post: match self.post {
                Some(post) => post,
                None => 0,
            },
        }
    }

    /// The entry as nginx reads it: the name with its length, the mask, the
    /// callback, the offset of the tier, and null where no address was given
    /// to pass through.
    pub fn build(&self) -> (entry: NgxCommand<C>)
        ensures
            entry == self.built(),
            entry.name.len == self@.name.len(),
            entry.name.data@ == self@.name,
            entry.type_ == self@.ty,
            entry.set == self@.set,
            entry.conf == self@.conf_offset.conf_offset(),
            entry.offset == self@.offset,
            entry.post == (match self@.post {
                Some(post) => post,
                None => 0usize,
            }),
    {
        let name = NgxStr { len: self.name.len(), data: self.name };
        let post: usize = if let Some(post) = self.post {
            post
        } else {
            0
        };
        NgxCommand {
            name,
            type_: self.ty as usize,
            set: self.set,
            conf: self.conf_offset.into_conf_offset(),
            offset: self.offset,
            post,
        }
    }
}

impl<C: Copy> From<CommandBuilder<C>> for NgxCommand<C> {
    fn from(value: CommandBuilder<C>) -> (entry: NgxCommand<C>) {
        value.build()
    }
}

impl<C: Copy> FromSpecImpl<CommandBuilder<C>> for NgxCommand<C> {
    open spec fn obeys_from_spec() -> bool {
        true
    }

    open spec fn from_spec(value: CommandBuilder<C>) -> NgxCommand<C> {
        value.built()
    }
}

} // verus!
