//! The callbacks once more, for modules that never see an address they have
//! not been vouched for: the record of the pass arrives as an [`NgxConf`],
//! which exists only for addresses that are not null and are aligned.
use vstd::prelude::*;
use vstd::std_specs::convert::FromSpecImpl;

use crate::base::pool::{Allocation, Pool, PoolRequest};
use crate::base::{
    conf_status, conf_status_of, Addr, Array, Status, NGX_ABORT, NGX_AGAIN, NGX_BUSY, NGX_CONF_ERROR, NGX_CONF_OK, NGX_DECLINED,
    NGX_ERROR, NGX_OK,
};
use crate::http::conf::{ngx_http_conf_get_module_main_conf, slot_of};
use crate::http::module::{default_conf, default_merge, Merge, MergeConfigError};

verus! {

/// How many phases the processing of a request has.
pub const NGX_HTTP_PHASES: usize = 11;

/// Whether `addr` may be the address of one of nginx's records: it is not
/// null, and it is aligned as a machine word is, which is how records that
/// hold pointers and counters are aligned.
pub open spec fn is_record_address(addr: usize) -> bool {
    addr != 0 && addr as int % vstd::layout::align_of::<usize>() as int == 0
}

/// Whether `addr` may be the address of one of nginx's records.
pub fn check_record_address(addr: usize) -> (ok: bool)
    ensures
        ok == is_record_address(addr),
{
    vstd::layout::layout_for_type_is_valid::<usize>();
    addr != 0 && addr % core::mem::align_of::<usize>() == 0
}

/// The record of one configuration pass, for one module and for as long as
/// one callback runs.
pub struct NgxConf {
    inner: Addr,
    module: Addr,
}

impl NgxConf {
    /// The address of nginx's record of the pass.
    pub closed spec fn inner(&self) -> Addr {
        self.inner
    }

    /// The address of the record by which nginx knows the module.
    pub closed spec fn module(&self) -> Addr {
        self.module
    }

    /// The record of the pass at `inner` for the module at `module`, if both
    /// addresses may be those of records. The caller vouches that the record
    /// of the pass outlives what is made here.
    pub fn new(inner: usize, module: usize) -> (cf: Option<Self>)
        ensures
            cf is Some <==> is_record_address(inner) && is_record_address(module),
            cf matches Some(made) ==> made.inner() == Addr::at(inner) && made.module() == Addr::at(module),
    {
        if !check_record_address(inner) {
            return None;
        }
        if !check_record_address(module) {
            return None;
        }
        Some(Self { inner: Addr::from_nonzero(inner), module: Addr::from_nonzero(module) })
    }

    /// The address of nginx's record of the pass.
    pub fn as_ptr(&self) -> (inner: Addr)
        ensures
            inner == self.inner(),
    {
        self.inner
    }

    /// The address of the record by which nginx knows the module.
    pub fn module_ptr(&self) -> (module: Addr)
        ensures
            module == self.module(),
    {
        self.module
    }

    /// Begins to put `value` into the pool of the pass, which lies at `pool`
    /// and must not be null. It goes on as [`Pool::allocate`] does.
    pub fn allocate<T>(&self, pool: usize, value: T) -> (begun: (Allocation<T>, Option<PoolRequest<T>>))
        requires
            pool != 0,
        ensures
            begun == Pool::allocate_begun(Addr::at(pool), value),
    {
        let mut pool = Pool::from_ngx_pool(pool);
        pool.allocate(value)
    }

    /// The value of the `http` block that belongs to nginx's own HTTP core,
    /// found in the table of that tier at `ctx_index`, with the handler lists
    /// `phases` that were read from it. The table must have the slot, the slot
    /// must not be null, and there must be a list for each phase.
    pub fn main_conf<H>(&mut self, main_conf: &[usize], ctx_index: usize, phases: Vec<Array<H>>) -> (conf: NgxMainConf<H>)
        requires
            slot_of(main_conf@, ctx_index) != 0,
            phases@.len() == NGX_HTTP_PHASES,
        ensures
            final(self).inner() == old(self).inner(),
            final(self).module() == old(self).module(),
            conf.wf(),
            conf.addr() == Addr::at(slot_of(main_conf@, ctx_index)),
            conf@ == Seq::new(phases@.len(), |i: int| phases@[i]@),
    {
        let slot = ngx_http_conf_get_module_main_conf(main_conf, ctx_index);
        NgxMainConf { at: Addr::from_nonzero(slot), phases }
    }
}

/// The part of the HTTP core's value for the `http` block where modules
/// register handlers: for each phase the list of its handlers, in the order in
/// which they were registered, which is the order in which they run. `H` is
/// the type of a handler.
pub struct NgxMainConf<H> {
    at: Addr,
    phases: Vec<Array<H>>,
}

impl<H> View for NgxMainConf<H> {
    type V = Seq<Seq<H>>;

    closed spec fn view(&self) -> Seq<Seq<H>> {
        Seq::new(self.phases@.len(), |i: int| self.phases@[i]@)
    }
}

impl<H> NgxMainConf<H> {
    /// There is one list for each phase.
    pub open spec fn wf(&self) -> bool {
        self@.len() == NGX_HTTP_PHASES
    }

    /// The address of the value.
    pub closed spec fn addr(&self) -> Addr {
        self.at
    }

    /// The value at `conf` with the handler lists `phases` that were read
    /// from it, unless `conf` is null or there is not one list for each phase.
    pub fn new(conf: usize, phases: Vec<Array<H>>) -> (made: Option<Self>)
        ensures
            made is Some <==> conf != 0 && phases@.len() == NGX_HTTP_PHASES,
            made matches Some(value) ==> {
                &&& value.wf()
                &&& value.addr() == Addr::at(conf)
                &&& value@ == Seq::new(phases@.len(), |i: int| phases@[i]@)
            },
    {
        let at = match Addr::new(conf) {
            Some(at) => at,
            None => return None,
        };
        if phases.len() != NGX_HTTP_PHASES {
            return None;
        }
        Some(Self { at, phases })
    }

    /// The handlers of `phase`, in the order in which they run.
    pub fn handlers(&self, phase: Phase) -> (list: &[H])
        requires
            self.wf(),
        ensures
            list@ == self@[phase.index() as int],
    {
        let list: &Array<H> = &self.phases[phase.into_index()];
        list
    }

    /// Takes in the registration of `handler` for `phase`: `slot` is what
    /// nginx answered when asked for room for one more handler in the list of
    /// that phase, null if it had none. On null nothing changes and the
    /// registration has failed; otherwise `handler` is the last of the phase,
    /// behind every handler registered before, and the other phases are as
    /// they were.
    pub fn add_phase_handler(&mut self, phase: Phase, handler: H, slot: usize) -> (res: Result<(), ()>)
        requires
            old(self).wf(),
        ensures
            final(self).wf(),
            final(self).addr() == old(self).addr(),
            slot == 0 ==> res is Err && final(self)@ == old(self)@,
            slot != 0 ==> res is Ok && final(self)@ == old(self)@.update(
                phase.index() as int,
                old(self)@[phase.index() as int].push(handler),
            ),
    {
        let index = phase.into_index();
        let ghost before = self.phases@;
        let res = self.phases[index].push(handler, slot);
        proof {
            assert(self.phases@.len() == before.len());
            assert(forall|i: int| 0 <= i < before.len() && i != index ==> self.phases@[i] == before[i]);
            if slot == 0 {
                assert(self@ =~= old(self)@);
            } else {
                assert(self@ =~= old(self)@.update(
                    phase.index() as int,
                    old(self)@[phase.index() as int].push(handler),
                ));
            }
        }
        res
    }
}

/// A phase of the processing of a request. The phases run in the order in
/// which they stand here.
#[derive(Debug, Clone, Copy, PartialEq, Eq, Structural)]
pub enum Phase {
    /// The request has been read.
    PostRead,
    /// Rewriting at the level of the `server` block.
    ServerRewrite,
    /// Finding the `location` block.
    FindConfig,
    /// Rewriting at the level of the `location` block.
    Rewrite,
    /// After the rewriting.
    PostRewrite,
    /// Before the access checks.
    PreAccess,
    /// The access checks.
    Access,
    /// After the access checks.
    PostAccess,
    /// Before the content is made.
    PreContent,
    /// The content is made.
    Content,
    /// The request is logged.
    Log,
}

impl Phase {
    /// The place of the phase among the phases, counted from zero.
    pub open spec fn index(self) -> usize {
        match self {
            Phase::PostRead => 0,
            Phase::ServerRewrite => 1,
            Phase::FindConfig => 2,
            Phase::Rewrite => 3,
            Phase::PostRewrite => 4,
            Phase::PreAccess => 5,
            Phase::Access => 6,
            Phase::PostAccess => 7,
            Phase::PreContent => 8,
            Phase::Content => 9,
            Phase::Log => 10,
        }
    }

    /// The place of the phase among the phases, counted from zero: where its
    /// handler list stands in the table of lists.
    pub fn into_index(self) -> (index: usize)
        ensures
            index == self.index(),
            index < NGX_HTTP_PHASES,
    {
        match self {
            Phase::PostRead => 0,
            Phase::ServerRewrite => 1,
            Phase::FindConfig => 2,
            Phase::Rewrite => 3,
            Phase::PostRewrite => 4,
            Phase::PreAccess => 5,
            Phase::Access => 6,
            Phase::PostAccess => 7,
            Phase::PreContent => 8,
            Phase::Content => 9,
            Phase::Log => 10,
        }
    }
}

impl From<Phase> for u32 {
    fn from(value: Phase) -> (number: u32) {
        match value {
            Phase::PostRead => 0,
            Phase::ServerRewrite => 1,
            Phase::FindConfig => 2,
            Phase::Rewrite => 3,
            Phase::PostRewrite => 4,
            Phase::PreAccess => 5,
            Phase::Access => 6,
            Phase::PostAccess => 7,
            Phase::PreContent => 8,
            Phase::Content => 9,
            Phase::Log => 10,
        }
    }
}

impl FromSpecImpl<Phase> for u32 {
    open spec fn obeys_from_spec() -> bool {
        true
    }

    open spec fn from_spec(value: Phase) -> u32 {
        value.index() as u32
    }
}

/// Why a callback or a handler did not succeed.
#[derive(Debug, Clone, Copy, PartialEq, Eq, Structural)]
pub enum Error {
    /// It failed.
    Error,
    /// It is not finished and will be taken up again.
    Again,
    /// The resource is busy.
    Busy,
    /// It passes the request on to the next handler.
    Declined,
    /// It was given up.
    Abort,
}

impl Error {
    /// The status code that stands for this outcome.
    pub open spec fn code(self) -> isize {
        match self {
            Error::Error => NGX_ERROR,
            Error::Again => NGX_AGAIN,
            Error::Busy => NGX_BUSY,
            Error::Declined => NGX_DECLINED,
            Error::Abort => NGX_ABORT,
        }
    }
}

impl From<Error> for Status {
    fn from(value: Error) -> (status: Status) {
        match value {
            Error::Error => Status(NGX_ERROR),
            Error::Again => Status(NGX_AGAIN),
            Error::Busy => Status(NGX_BUSY),
            Error::Declined => Status(NGX_DECLINED),
            Error::Abort => Status(NGX_ABORT),
        }
    }
}

impl FromSpecImpl<Error> for Status {
    open spec fn obeys_from_spec() -> bool {
        true
    }

    open spec fn from_spec(value: Error) -> Status {
        Status(value.code())
    }
}

/// The status code for the outcome of a callback: `NGX_OK` for success, and
/// for a failure the code that stands for it.
pub open spec fn status_code_of(outcome: Result<(), Error>) -> isize {
    match outcome {
        Ok(_) => NGX_OK,
        Err(e) => e.code(),
    }
}

/// The status code for the outcome of a callback: `NGX_OK` for success, and
/// for a failure the code that stands for it. The code is handed to nginx as
/// it is.
pub fn status_code(outcome: Result<(), Error>) -> (code: isize)
    ensures
        code == status_code_of(outcome),
{
    let status: Status = match outcome {
        Ok(()) => Status(NGX_OK),
        Err(e) => Status::from(e),
    };
    status.0
}

/// The callbacks as a module writes them when it wants the record of the
/// pass vouched for. Each has a default: succeed, make the default value,
/// merge by the value's own rule.
pub trait SafeHttpModule {
    /// The value for the `http` block.
    type MainConf: Merge + Default;

    /// The value for a `server` block.
    type SrvConf: Merge + Default;

    /// The value for a `location` block.
    type LocConf: Merge + Default;

    /// The address of the record by which nginx knows this module.
    fn module() -> (module: usize);

    /// Runs before the configuration is read. Unless a module says otherwise,
    /// it succeeds.
    fn preconfiguration(cf: NgxConf) -> (res: Result<(), Error>)
        default_ensures
            res is Ok,
    {
        Ok(())
    }

    /// Runs after the configuration is read and merged. This is where a
    /// module registers its handlers. Unless a module says otherwise, it
    /// succeeds.
    fn postconfiguration(cf: NgxConf) -> (res: Result<(), Error>)
        default_ensures
            res is Ok,
    {
        Ok(())
    }

    /// Makes the value for the `http` block. Unless a module says otherwise, that
    /// is the value in its default state.
    fn create_main_conf(cf: NgxConf) -> (conf: Option<Self::MainConf>)
        default_ensures
            conf matches Some(value) && call_ensures(<Self::MainConf as Default>::default, (), value),
    {
        Some(default_conf())
    }

    /// Initialises the value for the `http` block once it has been read.
    /// Unless a module says otherwise, it succeeds and leaves the value as it
    /// is.
    fn init_main_conf(cf: NgxConf, conf: &mut Self::MainConf) -> (res: Result<(), ()>)
        default_ensures
            res is Ok,
            *final(conf) == *old(conf),
    {
        Ok(())
    }

    /// Makes the value for a `server` block. Unless a module says otherwise, that
    /// is the value in its default state.
    fn create_srv_conf(cf: NgxConf) -> (conf: Option<Self::SrvConf>)
        default_ensures
            conf matches Some(value) && call_ensures(<Self::SrvConf as Default>::default, (), value),
    {
        Some(default_conf())
    }

    /// Merges the value of the `http` block, `prev`, into that of a `server`
    /// block, `conf`. Unless a module says otherwise, that is done by the value's
    /// own rule: `prev` stays as it is, `conf` is as the rule leaves it, and
    /// the result is the rule's.
    fn merge_srv_conf(cf: NgxConf, prev: &mut Self::SrvConf, conf: &mut Self::SrvConf) -> (res: Result<
        (),
        MergeConfigError,
    >)
        default_ensures
            *final(prev) == *old(prev),
            exists|handed: &mut Self::SrvConf|
                {
                    &&& *handed == *old(conf)
                    &&& *final(handed) == *final(conf)
                    &&& #[trigger] call_ensures(<Self::SrvConf as Merge>::merge, (handed, &*old(prev)), res)
                },
    {
        default_merge(prev, conf)
    }

    /// Makes the value for a `location` block. Unless a module says otherwise, that
    /// is the value in its default state.
    fn create_loc_conf(cf: NgxConf) -> (conf: Option<Self::LocConf>)
        default_ensures
            conf matches Some(value) && call_ensures(<Self::LocConf as Default>::default, (), value),
    {
        Some(default_conf())
    }

    /// Merges the value of the enclosing block, `prev`, into that of a
    /// `location` block, `conf`. Unless a module says otherwise, that is done by the value's
    /// own rule: `prev` stays as it is, `conf` is as the rule leaves it, and
    /// the result is the rule's.
    fn merge_loc_conf(cf: NgxConf, prev: &mut Self::LocConf, conf: &mut Self::LocConf) -> (res: Result<
        (),
        MergeConfigError,
    >)
        default_ensures
            *final(prev) == *old(prev),
            exists|handed: &mut Self::LocConf|
                {
                    &&& *handed == *old(conf)
                    &&& *final(handed) == *final(conf)
                    &&& #[trigger] call_ensures(<Self::LocConf as Merge>::merge, (handed, &*old(prev)), res)
                },
    {
        default_merge(prev, conf)
    }
}

/// The record of the pass as a callback of `M` is given it: it stands for
/// the pass at `cf` and for the module at `module`.
pub open spec fn is_pass(pass: NgxConf, cf: usize, module: usize) -> bool {
    pass.inner() == Addr::at(cf) && pass.module() == Addr::at(module)
}

/// What nginx is answered before the configuration is read. The module is
/// first asked for the address of its own record. Where that or `cf` may not
/// be the address of a record, the module is asked nothing more and the answer
/// is `NGX_ERROR`. Otherwise the module is asked once, and the answer is the
/// code for what it returned: see [`status_code`].
pub fn preconfiguration<M: SafeHttpModule>(cf: usize) -> (code: isize)
    ensures
        exists|module: usize| #[trigger]
            call_ensures(M::module, (), module) && if is_record_address(cf) && is_record_address(module) {
                exists|pass: NgxConf, outcome: Result<(), Error>|
                    {
                        &&& is_pass(pass, cf, module)
                        &&& #[trigger] call_ensures(M::preconfiguration, (pass,), outcome)
                        &&& code == status_code_of(outcome)
                    }
            } else {
                code == NGX_ERROR
            },
{
    let cf = match NgxConf::new(cf, M::module()) {
        Some(cf) => cf,
        None => return NGX_ERROR,
    };
    status_code(M::preconfiguration(cf))
}

/// What nginx is answered after the configuration is read and merged. The
/// module is first asked for the address of its own record. Where that or `cf`
/// may not be the address of a record, the module is asked nothing more and
/// the answer is `NGX_ERROR`. Otherwise the module is asked once, and the
/// answer is the code for what it returned: see [`status_code`].
pub fn postconfiguration<M: SafeHttpModule>(cf: usize) -> (code: isize)
    ensures
        exists|module: usize| #[trigger]
            call_ensures(M::module, (), module) && if is_record_address(cf) && is_record_address(module) {
                exists|pass: NgxConf, outcome: Result<(), Error>|
                    {
                        &&& is_pass(pass, cf, module)
                        &&& #[trigger] call_ensures(M::postconfiguration, (pass,), outcome)
                        &&& code == status_code_of(outcome)
                    }
            } else {
                code == NGX_ERROR
            },
{
    let cf = match NgxConf::new(cf, M::module()) {
        Some(cf) => cf,
        None => return NGX_ERROR,
    };
    status_code(M::postconfiguration(cf))
}

/// The value for the `http` block, to be put into the pool of the pass. The
/// module is first asked for the address of its own record. Where that or `cf`
/// may not be the address of a record, the module is asked nothing more and
/// there is no value. Otherwise the module is asked once, and there is the
/// value it made, if it made one.
pub fn create_main_conf<M: SafeHttpModule>(cf: usize) -> (conf: Option<M::MainConf>)
    ensures
        exists|module: usize| #[trigger]
            call_ensures(M::module, (), module) && if is_record_address(cf) && is_record_address(module) {
                exists|pass: NgxConf|
                    is_pass(pass, cf, module) && #[trigger] call_ensures(M::create_main_conf, (pass,), conf)
            } else {
                conf is None
            },
{
    let cf = match NgxConf::new(cf, M::module()) {
        Some(cf) => cf,
        None => return None,
    };
    M::create_main_conf(cf)
}

/// What nginx is answered when the value for the `http` block has been read.
/// The module is first asked for the address of its own record. Where that or
/// `cf` may not be the address of a record, or the value is missing, the
/// module is asked nothing more, nothing is changed, and the answer is the
/// error sentinel. Otherwise the module is asked once, with the value, and the
/// answer is the sentinel for what it returned.
pub fn init_main_conf<M: SafeHttpModule>(cf: usize, conf: Option<&mut M::MainConf>) -> (status: usize)
    ensures
        exists|module: usize| #[trigger]
            call_ensures(M::module, (), module) && match conf {
                Some(value) if is_record_address(cf) && is_record_address(module) => exists|
                    pass: NgxConf,
                    handed: &mut M::MainConf,
                    outcome: Result<(), ()>,
                |
                    #![trigger call_ensures(M::init_main_conf, (pass, handed), outcome)]
                    {
                        &&& is_pass(pass, cf, module)
                        &&& *handed == *value
                        &&& *final(handed) == *final(value)
                        &&& call_ensures(M::init_main_conf, (pass, handed), outcome)
                        &&& status == conf_status_of(outcome is Ok)
                    },
                Some(value) => status == NGX_CONF_ERROR && *final(value) == *value,
                None => status == NGX_CONF_ERROR,
            },
{
    let cf = match NgxConf::new(cf, M::module()) {
        Some(cf) => cf,
        None => return NGX_CONF_ERROR,
    };
    let conf = match conf {
        Some(conf) => conf,
        None => return NGX_CONF_ERROR,
    };
    conf_status(&M::init_main_conf(cf, conf))
}

/// The value for a `server` block, to be put into the pool of the pass. The
/// module is first asked for the address of its own record. Where that or `cf`
/// may not be the address of a record, the module is asked nothing more and
/// there is no value. Otherwise the module is asked once, and there is the
/// value it made, if it made one.
pub fn create_srv_conf<M: SafeHttpModule>(cf: usize) -> (conf: Option<M::SrvConf>)
    ensures
        exists|module: usize| #[trigger]
            call_ensures(M::module, (), module) && if is_record_address(cf) && is_record_address(module) {
                exists|pass: NgxConf|
                    is_pass(pass, cf, module) && #[trigger] call_ensures(M::create_srv_conf, (pass,), conf)
            } else {
                conf is None
            },
{
    let cf = match NgxConf::new(cf, M::module()) {
        Some(cf) => cf,
        None => return None,
    };
    M::create_srv_conf(cf)
}

/// What nginx is answered when it merges the value of the `http` block,
/// `prev`, into that of a `server` block, `conf`. The module is first asked
/// for the address of its own record. Where that or `cf` may not be the
/// address of a record, or either value is missing, the module is asked
/// nothing more, nothing is changed, and the answer is the error sentinel.
/// Otherwise the module is asked once, with the two values, and the answer is
/// the sentinel for what it returned.
pub fn merge_srv_conf<M: SafeHttpModule>(cf: usize, prev: Option<&mut M::SrvConf>, conf: Option<&mut M::SrvConf>) -> (status:
    usize)
    ensures
        exists|module: usize| #[trigger]
            call_ensures(M::module, (), module) && match (prev, conf) {
                (Some(outer), Some(inner)) if is_record_address(cf) && is_record_address(module) => exists|
                    pass: NgxConf,
                    prev_handed: &mut M::SrvConf,
                    conf_handed: &mut M::SrvConf,
                    outcome: Result<(), MergeConfigError>,
                |
                    #![trigger call_ensures(M::merge_srv_conf, (pass, prev_handed, conf_handed), outcome)]
                    {
                        &&& is_pass(pass, cf, module)
                        &&& *prev_handed == *outer
                        &&& *final(prev_handed) == *final(outer)
                        &&& *conf_handed == *inner
                        &&& *final(conf_handed) == *final(inner)
                        &&& call_ensures(M::merge_srv_conf, (pass, prev_handed, conf_handed), outcome)
                        &&& status == conf_status_of(outcome is Ok)
                    },
                _ => {
                    &&& status == NGX_CONF_ERROR
                    &&& prev matches Some(value) ==> *final(value) == *value
                    &&& conf matches Some(value) ==> *final(value) == *value
                },
            },
{
    let cf = match NgxConf::new(cf, M::module()) {
        Some(cf) => cf,
        None => return NGX_CONF_ERROR,
    };
    let prev = match prev {
        Some(prev) => prev,
        None => return NGX_CONF_ERROR,
    };
    let conf = match conf {
        Some(conf) => conf,
        None => return NGX_CONF_ERROR,
    };
    conf_status(&M::merge_srv_conf(cf, prev, conf))
}

/// The value for a `location` block, to be put into the pool of the pass.
/// The module is first asked for the address of its own record. Where that or
/// `cf` may not be the address of a record, the module is asked nothing more
/// and there is no value. Otherwise the module is asked once, and there is the
/// value it made, if it made one.
pub fn create_loc_conf<M: SafeHttpModule>(cf: usize) -> (conf: Option<M::LocConf>)
    ensures
        exists|module: usize| #[trigger]
            call_ensures(M::module, (), module) && if is_record_address(cf) && is_record_address(module) {
                exists|pass: NgxConf|
                    is_pass(pass, cf, module) && #[trigger] call_ensures(M::create_loc_conf, (pass,), conf)
            } else {
                conf is None
            },
{
    let cf = match NgxConf::new(cf, M::module()) {
        Some(cf) => cf,
        None => return None,
    };
    M::create_loc_conf(cf)
}

/// What nginx is answered when it merges the value of the enclosing block,
/// `prev`, into that of a `location` block, `conf`. The module is first asked
/// for the address of its own record. Where that or `cf` may not be the
/// address of a record, or either value is missing, the module is asked
/// nothing more, nothing is changed, and the answer is the error sentinel.
/// Otherwise the module is asked once, with the two values, and the answer is
/// the sentinel for what it returned.
pub fn merge_loc_conf<M: SafeHttpModule>(cf: usize, prev: Option<&mut M::LocConf>, conf: Option<&mut M::LocConf>) -> (status:
    usize)
    ensures
        exists|module: usize| #[trigger]
            call_ensures(M::module, (), module) && match (prev, conf) {
                (Some(outer), Some(inner)) if is_record_address(cf) && is_record_address(module) => exists|
                    pass: NgxConf,
                    prev_handed: &mut M::LocConf,
                    conf_handed: &mut M::LocConf,
                    outcome: Result<(), MergeConfigError>,
                |
                    #![trigger call_ensures(M::merge_loc_conf, (pass, prev_handed, conf_handed), outcome)]
                    {
                        &&& is_pass(pass, cf, module)
                        &&& *prev_handed == *outer
                        &&& *final(prev_handed) == *final(outer)
                        &&& *conf_handed == *inner
                        &&& *final(conf_handed) == *final(inner)
                        &&& call_ensures(M::merge_loc_conf, (pass, prev_handed, conf_handed), outcome)
                        &&& status == conf_status_of(outcome is Ok)
                    },
                _ => {
                    &&& status == NGX_CONF_ERROR
                    &&& prev matches Some(value) ==> *final(value) == *value
                    &&& conf matches Some(value) ==> *final(value) == *value
                },
            },
{
    let cf = match NgxConf::new(cf, M::module()) {
        Some(cf) => cf,
        None => return NGX_CONF_ERROR,
    };
    let prev = match prev {
        Some(prev) => prev,
        None => return NGX_CONF_ERROR,
    };
    let conf = match conf {
        Some(conf) => conf,
        None => return NGX_CONF_ERROR,
    };
    conf_status(&M::merge_loc_conf(cf, prev, conf))
}

} // verus!
